use notification_core::desktop::imp::{
    is_installed_dir, is_windows_7, response_action, NotificationResponse, NotifyRequest, Platform,
    WindowsVersion,
};
use notification_core::desktop::{action_performed_for, emit_action_performed, imp, init};
use notification_core::models::ExtraPayload;
use notification_core::{AppConfig, NotificationBuilder, NotificationData};

const WIN10: WindowsVersion = WindowsVersion { major: 10, minor: 0 };
const WIN7: WindowsVersion = WindowsVersion { major: 6, minor: 1 };

fn win(version: WindowsVersion) -> Platform {
    Platform::Windows { exe_dir: "C:\\App".to_string(), version }
}

fn config(product: Option<&str>) -> AppConfig {
    AppConfig { identifier: "com.example.app".to_string(), product_name: product.map(|p| p.to_string()) }
}

fn extra() -> ExtraPayload {
    let mut e = ExtraPayload::new();
    e.insert("room".to_string(), "\"general\"".to_string());
    e
}

fn data() -> NotificationData {
    NotificationData {
        id: 42,
        title: Some("New message".to_string()),
        body: Some("You've got a new message.".to_string()),
        icon: None,
        sound: Some("message-new-instant".to_string()),
        action_type_id: Some("reply".to_string()),
        extra: extra(),
    }
}

#[test]
fn builder_shows_title_body_and_sound() {
    let b = NotificationBuilder { app: config(Some("Example")), data: data() };
    let r = b.show(Platform::Xdg);
    assert_eq!(r.native.summary.as_deref(), Some("New message"));
    assert_eq!(r.native.body.as_deref(), Some("You've got a new message."));
    assert_eq!(r.native.sound_name.as_deref(), Some("message-new-instant"));
    assert_eq!(r.native.icon, None);
    assert!(r.native.default_action);
    assert_eq!(r.native.app_id, None);
    assert_eq!(r.native.application, None);
    assert!(r.action_emitter);
    let p = r.action_payload.unwrap();
    assert_eq!(p.id, 42);
    assert_eq!(p.title.as_deref(), Some("New message"));
    assert_eq!(p.body.as_deref(), Some("You've got a new message."));
    assert_eq!(p.action_type_id.as_deref(), Some("reply"));
    assert_eq!(p.extra.entries(), vec![("room".to_string(), "\"general\"".to_string())]);
}

#[test]
fn title_falls_back_to_product_name_but_payload_keeps_none() {
    let mut d = data();
    d.title = None;
    let r = NotificationBuilder { app: config(Some("Example")), data: d }.show(Platform::Xdg);
    assert_eq!(r.native.summary.as_deref(), Some("Example"));
    assert_eq!(r.action_payload.unwrap().title, None);
}

#[test]
fn no_title_and_no_product_name_gives_no_summary() {
    let mut d = data();
    d.title = None;
    let r = NotificationBuilder { app: config(None), data: d }.show(Platform::Xdg);
    assert_eq!(r.native.summary, None);
}

#[test]
fn icon_is_passed_on() {
    let mut d = data();
    d.icon = Some("dialog-information".to_string());
    let r = NotificationBuilder { app: config(None), data: d }.show(Platform::Xdg);
    assert_eq!(r.native.icon.as_deref(), Some("dialog-information"));
}

#[test]
fn windows_installed_app_gets_app_id() {
    let p = Platform::Windows { exe_dir: "C:\\Program Files\\Example".to_string(), version: WIN10 };
    let r = NotificationBuilder { app: config(None), data: data() }.show(p);
    assert_eq!(r.native.app_id.as_deref(), Some("com.example.app"));
    assert!(!r.native.default_action);
    assert_eq!(r.native.application, None);
}

#[test]
fn windows_build_directory_gets_no_app_id() {
    for dir in ["C:\\src\\app\\target\\debug", "C:\\src\\app\\target\\release"] {
        let p = Platform::Windows { exe_dir: dir.to_string(), version: WIN10 };
        let r = NotificationBuilder { app: config(None), data: data() }.show(p);
        assert_eq!(r.native.app_id, None);
    }
}

#[test]
fn macos_application_depends_on_dev_mode() {
    let r = NotificationBuilder { app: config(None), data: data() }.show(Platform::MacOs { dev: true });
    assert_eq!(r.native.application.as_deref(), Some("com.apple.Terminal"));
    assert!(!r.native.default_action);
    let r = NotificationBuilder { app: config(None), data: data() }.show(Platform::MacOs { dev: false });
    assert_eq!(r.native.application.as_deref(), Some("com.example.app"));
}

#[test]
fn installed_directory_check() {
    assert!(is_installed_dir("C:\\Program Files\\App"));
    assert!(!is_installed_dir("\\target\\debug"));
    assert!(is_installed_dir("target\\debug"));
    assert!(is_installed_dir("C:\\x\\target\\debug\\deps"));
    assert!(!is_installed_dir("D:\\w\\target\\release"));
    assert!(is_installed_dir(""));
}

#[test]
fn responses_map_to_actions() {
    assert_eq!(response_action(&NotificationResponse::Default), ("tap".to_string(), None));
    assert_eq!(
        response_action(&NotificationResponse::Action("archive".to_string())),
        ("archive".to_string(), None)
    );
    assert_eq!(
        response_action(&NotificationResponse::Reply("on my way".to_string())),
        ("tap".to_string(), Some("on my way".to_string()))
    );
    assert_eq!(response_action(&NotificationResponse::Closed), ("dismiss".to_string(), None));
}

#[test]
fn answers_are_reported_only_with_payload_and_emitter() {
    let r = NotificationBuilder { app: config(None), data: data() }.show(Platform::Xdg);
    assert_eq!(r.action_for(&NotificationResponse::Closed), Some(("dismiss".to_string(), None)));
    let bare = imp::Notification::new("id".to_string()).title("t".to_string()).show(Platform::Xdg);
    assert_eq!(bare.action_for(&NotificationResponse::Default), None);
    let no_emitter = imp::Notification::new("id".to_string())
        .action_payload(r.action_payload.clone().unwrap())
        .show(Platform::Xdg);
    assert_eq!(no_emitter.action_for(&NotificationResponse::Default), None);
    let no_payload = imp::Notification::new("id".to_string()).action_emitter().show(Platform::Xdg);
    assert_eq!(no_payload.action_for(&NotificationResponse::Default), None);
}

#[test]
fn desktop_notification_setters() {
    let r = imp::Notification::new("id".to_string())
        .body("b".to_string())
        .body("b2".to_string())
        .icon("i".to_string())
        .sound("s".to_string())
        .title("t".to_string())
        .show(Platform::Xdg);
    assert_eq!(r.native.body.as_deref(), Some("b2"));
    assert_eq!(r.native.icon.as_deref(), Some("i"));
    assert_eq!(r.native.sound_name.as_deref(), Some("s"));
    assert_eq!(r.native.summary.as_deref(), Some("t"));
    assert!(r.action_payload.is_none());
    assert!(!r.action_emitter);
}

#[test]
fn notify_uses_the_windows_7_window_only_there() {
    assert!(is_windows_7(WindowsVersion { major: 6, minor: 1 }));
    assert!(!is_windows_7(WindowsVersion { major: 6, minor: 2 }));
    assert!(!is_windows_7(WindowsVersion { major: 10, minor: 0 }));
    let n = imp::Notification::new("id".to_string()).title("t".to_string()).body("b".to_string());
    match n.notify(win(WIN7)) {
        NotifyRequest::Windows7(w) => {
            assert_eq!(w.summary.as_deref(), Some("t"));
            assert_eq!(w.body.as_deref(), Some("b"));
        }
        NotifyRequest::Native(_) => panic!("expected the Windows 7 window"),
    }
    let n = imp::Notification::new("id".to_string()).title("t".to_string());
    match n.notify(win(WIN10)) {
        NotifyRequest::Native(r) => assert_eq!(r.native.summary.as_deref(), Some("t")),
        NotifyRequest::Windows7(_) => panic!("expected a native notification"),
    }
    let n = imp::Notification::new("id".to_string());
    assert!(matches!(n.notify(Platform::Xdg), NotifyRequest::Native(_)));
}

#[test]
fn action_performed_goes_to_its_listeners() {
    let mut n = init(config(None)).unwrap();
    n.register_event_listener("actionPerformed".to_string(), 7);
    n.register_event_listener("other".to_string(), 8);
    n.register_event_listener("actionPerformed".to_string(), 9);
    let r = NotificationBuilder { app: config(None), data: data() }.show(Platform::Xdg);
    let payload = r.action_payload.unwrap();
    let e = emit_action_performed(&n, "tap", Some("hello".to_string()), &payload);
    assert_eq!(e.event, "actionPerformed");
    assert_eq!(e.channels, vec![7, 9]);
    assert_eq!(e.value.action_id, "tap");
    assert_eq!(e.value.input_value.as_deref(), Some("hello"));
    assert_eq!(e.value.notification.id, 42);
    assert_eq!(e.value.notification.extra.entries(), payload.extra.entries());
    let e = emit_action_performed(&n, "dismiss", None, &payload);
    assert_eq!(e.value.input_value, None);
    assert_eq!(e.value.action_id, "dismiss");
}

#[test]
fn debug_form_lists_fields_in_order() {
    let n = imp::Notification::new("com.example.app".to_string()).title("t".to_string()).action_emitter();
    let text = format!("{:?}", n);
    assert_eq!(
        text,
        "Notification { body: None, title: Some(\"t\"), icon: None, sound: None, identifier: \"com.example.app\", action_payload: None, action_emitter: true }"
    );
}

#[test]
fn builder_notify_attaches_no_payload() {
    let b = NotificationBuilder { app: config(Some("Example")), data: data() };
    match b.notify(Platform::Xdg) {
        NotifyRequest::Native(r) => {
            assert_eq!(r.native.summary.as_deref(), Some("New message"));
            assert_eq!(r.native.body.as_deref(), Some("You've got a new message."));
            assert_eq!(r.native.sound_name.as_deref(), Some("message-new-instant"));
            assert!(r.native.default_action);
            assert!(r.action_payload.is_none());
            assert!(!r.action_emitter);
            assert_eq!(r.action_for(&NotificationResponse::Default), None);
        }
        NotifyRequest::Windows7(_) => panic!("expected a native notification"),
    }
}

#[test]
fn builder_notify_on_windows_7_uses_the_window_with_fallback_title() {
    let mut d = data();
    d.title = None;
    let b = NotificationBuilder { app: config(Some("Example")), data: d };
    match b.notify(win(WIN7)) {
        NotifyRequest::Windows7(w) => {
            assert_eq!(w.summary.as_deref(), Some("Example"));
            assert_eq!(w.body.as_deref(), Some("You've got a new message."));
        }
        NotifyRequest::Native(_) => panic!("expected the Windows 7 window"),
    }
}

#[test]
fn windows_10_notify_shows_natively_with_app_id() {
    let n = imp::Notification::new("id".to_string()).title("t".to_string());
    match n.notify(win(WIN10)) {
        NotifyRequest::Native(r) => assert_eq!(r.native.app_id.as_deref(), Some("id")),
        NotifyRequest::Windows7(_) => panic!("expected a native notification"),
    }
}

#[test]
fn extra_payload_keeps_each_key_once() {
    let mut e = ExtraPayload::new();
    e.insert("a".to_string(), "1".to_string());
    e.insert("b".to_string(), "2".to_string());
    e.insert("a".to_string(), "3".to_string());
    assert_eq!(e.entries(), vec![("a".to_string(), "3".to_string()), ("b".to_string(), "2".to_string())]);
    assert_eq!(e.clone().entries(), e.entries());
}

#[test]
fn answers_become_emissions_to_action_listeners() {
    let mut n = init(config(None)).unwrap();
    n.register_event_listener("actionPerformed".to_string(), 4);
    let r = NotificationBuilder { app: config(None), data: data() }.show(Platform::Xdg);
    let e = action_performed_for(&n, &r, &NotificationResponse::Action("archive".to_string())).unwrap();
    assert_eq!(e.event, "actionPerformed");
    assert_eq!(e.channels, vec![4]);
    assert_eq!(e.value.action_id, "archive");
    assert_eq!(e.value.input_value, None);
    assert_eq!(e.value.notification.id, 42);
    let e = action_performed_for(&n, &r, &NotificationResponse::Reply("ok".to_string())).unwrap();
    assert_eq!(e.value.action_id, "tap");
    assert_eq!(e.value.input_value.as_deref(), Some("ok"));
    match (NotificationBuilder { app: config(None), data: data() }).notify(Platform::Xdg) {
        NotifyRequest::Native(plain) => {
            assert!(action_performed_for(&n, &plain, &NotificationResponse::Default).is_none())
        }
        NotifyRequest::Windows7(_) => panic!("expected a native notification"),
    }
}
