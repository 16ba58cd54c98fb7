use notification_core::desktop::init;
use notification_core::listeners::ListenerRegistry;
use notification_core::AppConfig;

fn config() -> AppConfig {
    AppConfig { identifier: "com.example.app".to_string(), product_name: Some("Example".to_string()) }
}

#[test]
fn registered_channels_are_reached_in_order() {
    let mut n = init(config()).unwrap();
    n.register_event_listener("actionPerformed".to_string(), 3);
    n.register_event_listener("actionPerformed".to_string(), 1);
    n.register_event_listener("other".to_string(), 9);
    n.register_event_listener("actionPerformed".to_string(), 3);
    assert_eq!(n.emit_to_listeners("actionPerformed"), vec![3, 1, 3]);
    assert_eq!(n.emit_to_listeners("other"), vec![9]);
}

#[test]
fn unknown_event_reaches_nobody() {
    let n = init(config()).unwrap();
    assert_eq!(n.emit_to_listeners("actionPerformed"), Vec::<u32>::new());
}

#[test]
fn removal_takes_every_registration_of_the_channel() {
    let mut n = init(config()).unwrap();
    n.register_event_listener("e".to_string(), 3);
    n.register_event_listener("e".to_string(), 1);
    n.register_event_listener("e".to_string(), 3);
    n.register_event_listener("e".to_string(), 2);
    n.remove_event_listener("e", 3);
    assert_eq!(n.emit_to_listeners("e"), vec![1, 2]);
    n.remove_event_listener("e", 3);
    assert_eq!(n.emit_to_listeners("e"), vec![1, 2]);
}

#[test]
fn removal_leaves_other_events_alone() {
    let mut n = init(config()).unwrap();
    n.register_event_listener("a".to_string(), 1);
    n.register_event_listener("b".to_string(), 1);
    n.remove_event_listener("a", 1);
    assert_eq!(n.emit_to_listeners("a"), Vec::<u32>::new());
    assert_eq!(n.emit_to_listeners("b"), vec![1]);
    n.remove_event_listener("missing", 1);
    assert_eq!(n.emit_to_listeners("b"), vec![1]);
}

#[test]
fn register_after_remove_appends_again() {
    let mut r = ListenerRegistry::new();
    r.register("e".to_string(), 5);
    r.remove("e", 5);
    assert_eq!(r.channels_of("e"), Vec::<u32>::new());
    r.register("e".to_string(), 6);
    r.register("e".to_string(), 5);
    assert_eq!(r.channels_of("e"), vec![6, 5]);
}

#[test]
fn event_names_are_compared_exactly() {
    let mut r = ListenerRegistry::new();
    r.register("click".to_string(), 1);
    r.register("Click".to_string(), 2);
    r.register("click ".to_string(), 3);
    assert_eq!(r.channels_of("click"), vec![1]);
    assert_eq!(r.channels_of("Click"), vec![2]);
    assert_eq!(r.channels_of("clic"), Vec::<u32>::new());
}
