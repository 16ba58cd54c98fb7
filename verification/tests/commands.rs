use notification_core::commands::{
    is_permission_granted, notify, permission_granted, register_listener, remove_listener,
    request_permission,
};
use notification_core::desktop::imp::Platform;
use notification_core::desktop::init;
use notification_core::{AppConfig, NotificationData, PermissionState};

fn config() -> AppConfig {
    AppConfig { identifier: "com.example.app".to_string(), product_name: Some("Example".to_string()) }
}

#[test]
fn permission_is_granted_on_desktop() {
    let n = init(config()).unwrap();
    assert_eq!(is_permission_granted(&n).unwrap(), Some(true));
    assert_eq!(request_permission(&n).unwrap(), PermissionState::Granted);
    assert_eq!(n.permission_state().unwrap(), PermissionState::Granted);
}

#[test]
fn permission_answers() {
    assert_eq!(permission_granted(PermissionState::Granted), Some(true));
    assert_eq!(permission_granted(PermissionState::Denied), Some(false));
    assert_eq!(permission_granted(PermissionState::Prompt), None);
    assert_eq!(permission_granted(PermissionState::PromptWithRationale), None);
}

#[test]
fn notify_shows_the_options() {
    let n = init(config()).unwrap();
    let mut options = NotificationData::default();
    options.id = 5;
    options.body = Some("Tauri is awesome!".to_string());
    let r = notify(&n, options, Platform::Xdg);
    assert_eq!(r.native.summary.as_deref(), Some("Example"));
    assert_eq!(r.native.body.as_deref(), Some("Tauri is awesome!"));
    assert_eq!(r.action_payload.unwrap().id, 5);
}

#[test]
fn builder_starts_blank() {
    let n = init(config()).unwrap();
    let b = n.builder();
    assert_eq!(b.app.identifier, "com.example.app");
    assert_eq!(b.app.product_name.as_deref(), Some("Example"));
    assert_eq!(b.data.id, 0);
    assert!(b.data.title.is_none() && b.data.body.is_none() && b.data.extra.entries().is_empty());
}

#[test]
fn listener_commands() {
    let mut n = init(config()).unwrap();
    register_listener(&mut n, "actionPerformed".to_string(), 1).unwrap();
    register_listener(&mut n, "actionPerformed".to_string(), 2).unwrap();
    remove_listener(&mut n, "actionPerformed".to_string(), 1).unwrap();
    assert_eq!(n.emit_to_listeners("actionPerformed"), vec![2]);
}

#[test]
fn active_notifications_are_not_tracked_on_desktop() {
    let n = init(config()).unwrap();
    assert!(notification_core::commands::get_active(&n).unwrap().is_empty());
    assert!(notification_core::commands::remove_active(&n, Some(vec![1, 2])).is_ok());
    assert!(notification_core::commands::remove_active(&n, None).is_ok());
}
