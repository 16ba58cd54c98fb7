//! The plugin's handle on desktop: permissions, event listeners, and the
//! notification that a builder shows.
pub mod imp;

use vstd::prelude::*;

use crate::desktop::imp::{
    notify_spec, reported_action, show_spec, NotificationModel, NotificationResponse,
    NotifyRequest, Platform, ShowRequest,
};
use crate::listeners::{listeners_of, registered, unregistered, ListenerRegistry};
use crate::models::{
    copy_text, opt_text, ExtraPayload, AppConfig, Error, NotificationBuilder,
    NotificationData, PermissionState,
};

verus! {

/// The payload reported to the listeners when an action is performed on a notification.
#[derive(Clone, Debug)]
pub struct ActionPerformedNotification {
    pub id: i32,
    pub title: Option<String>,
    pub body: Option<String>,
    pub action_type_id: Option<String>,
    /// Each key with the JSON text of its value.
    pub extra: ExtraPayload,
}

/// An action payload, as texts.
pub struct ActionPerformedView {
    pub id: i32,
    pub title: Option<Seq<char>>,
    pub body: Option<Seq<char>>,
    pub action_type_id: Option<Seq<char>>,
    pub extra: Map<Seq<char>, Seq<char>>,
}

impl View for ActionPerformedNotification {
    type V = ActionPerformedView;

    open spec fn view(&self) -> ActionPerformedView {
        ActionPerformedView {
            id: self.id,
            title: opt_text(self.title),
            body: opt_text(self.body),
            action_type_id: opt_text(self.action_type_id),
            extra: self.extra@,
        }
    }
}

impl ActionPerformedNotification {
    /// A copy of the payload.
    pub fn duplicate(&self) -> (r: Self)
        ensures
            r@ == self@,
    {
        let extra = self.extra.duplicate();
        ActionPerformedNotification {
            id: self.id,
            title: copy_text(&self.title),
            body: copy_text(&self.body),
            action_type_id: copy_text(&self.action_type_id),
            extra,
        }
    }
}

/// What an action on a notification is reported as: the payload, the action
/// id, and the text the user entered, if any.
#[derive(Clone, Debug)]
pub struct ActionPerformedEvent {
    pub notification: ActionPerformedNotification,
    pub action_id: String,
    pub input_value: Option<String>,
}

/// An event to send: its name, its value, and the channels it goes to, in order.
#[derive(Clone, Debug)]
pub struct ActionPerformedEmission {
    pub event: String,
    pub value: ActionPerformedEvent,
    pub channels: Vec<u32>,
}

/// The payload that a notification with options `data` reports its actions with.
pub open spec fn payload_of(data: NotificationData) -> ActionPerformedView {
    ActionPerformedView {
        id: data.id,
        title: opt_text(data.title),
        body: opt_text(data.body),
        action_type_id: opt_text(data.action_type_id),
        extra: data.extra@,
    }
}

/// The title a notification is shown with: its own, else the product name.
pub open spec fn shown_title(app: AppConfig, data: NotificationData) -> Option<Seq<char>> {
    match data.title {
        Some(t) => Some(t@),
        None => opt_text(app.product_name),
    }
}

/// The desktop notification that a builder with `app` and `data` makes,
/// before any payload or emitter is attached.
pub open spec fn plain_notification(app: AppConfig, data: NotificationData) -> NotificationModel {
    NotificationModel {
        body: opt_text(data.body),
        title: shown_title(app, data),
        icon: opt_text(data.icon),
        sound: opt_text(data.sound),
        identifier: app.identifier@,
        action_payload: None,
        action_emitter: false,
    }
}

/// The desktop notification that a builder with `app` and `data` shows:
/// reporting actions with the notification's payload.
pub open spec fn built_notification(app: AppConfig, data: NotificationData) -> NotificationModel {
    NotificationModel {
        action_payload: Some(payload_of(data)),
        action_emitter: true,
        ..plain_notification(app, data)
    }
}

/// The desktop notification of the application `identifier`, titled by
/// `title`, else by `product_name`, with `body`, `icon` and `sound`.
fn plain_desktop_notification(
    identifier: String,
    product_name: Option<String>,
    title: &Option<String>,
    body: &Option<String>,
    icon: Option<String>,
    sound: Option<String>,
) -> (r: imp::Notification)
    ensures
        r@ == (NotificationModel {
            body: opt_text(*body),
            title: match *title {
                Some(t) => Some(t@),
                None => opt_text(product_name),
            },
            icon: opt_text(icon),
            sound: opt_text(sound),
            identifier: identifier@,
            action_payload: None,
            action_emitter: false,
        }),
{
    let mut notification = imp::Notification::new(identifier);
    let shown = match title {
        Some(t) => Some(t.clone()),
        None => product_name,
    };
    if let Some(t) = shown {
        notification = notification.title(t);
    }
    if let Some(b) = copy_text(body) {
        notification = notification.body(b);
    }
    if let Some(i) = icon {
        notification = notification.icon(i);
    }
    if let Some(s) = sound {
        notification = notification.sound(s);
    }
    notification
}

impl NotificationBuilder {
    /// Shows the notification on `platform`: titled by its title, else by
    /// the product name, reporting actions with its id, title, body, action
    /// type and extra payload.
    pub fn show(self, platform: Platform) -> (r: ShowRequest)
        ensures
            r@ == show_spec(built_notification(self.app, self.data), platform),
    {
        let ghost app0 = self.app;
        let ghost data0 = self.data;
        let NotificationBuilder { app, data } = self;
        let NotificationData { id, title, body, icon, sound, action_type_id, extra } = data;
        let AppConfig { identifier, product_name } = app;
        let mut notification = plain_desktop_notification(
            identifier,
            product_name,
            &title,
            &body,
            icon,
            sound,
        );
        let payload = ActionPerformedNotification { id, title, body, action_type_id, extra };
        notification = notification.action_payload(payload).action_emitter();
        proof {
            assert(notification@ == built_notification(app0, data0));
        }
        notification.show(platform)
    }

    /// Shows the notification as `show` does where Windows 7 has to be
    /// served too: the same notification, titled by its title, else by the
    /// product name, but with no payload and no emitter, so that no action
    /// on it is reported; on Windows 7 by the Windows 7 notification window.
    pub fn notify(self, platform: Platform) -> (r: NotifyRequest)
        ensures
            r@ == notify_spec(plain_notification(self.app, self.data), platform),
    {
        let NotificationBuilder { app, data } = self;
        let notification = plain_desktop_notification(
            app.identifier,
            app.product_name,
            &data.title,
            &data.body,
            data.icon,
            data.sound,
        );
        notification.notify(platform)
    }
}

/// Access to the notification APIs.
pub struct Notification {
    app: AppConfig,
    event_listeners: ListenerRegistry,
}

/// The plugin's handle for the application `app`, with no listener yet.
pub fn init(app: AppConfig) -> (r: Result<Notification, Error>)
    ensures
        r matches Ok(n) && n.app_config() == app && n.listeners() == Map::<
            Seq<char>,
            Seq<u32>,
        >::empty(),
{
    Ok(Notification { app, event_listeners: ListenerRegistry::new() })
}

/// The name under which actions on notifications are emitted.
pub open spec fn action_performed_event() -> Seq<char> {
    "actionPerformed"@
}

/// Reports an action on a notification to the listeners of "actionPerformed":
/// the payload with the action id and, if there is one, the text entered.
pub fn emit_action_performed(
    notification: &Notification,
    action_id: &str,
    input_value: Option<String>,
    payload: &ActionPerformedNotification,
) -> (r: ActionPerformedEmission)
    ensures
        r.event@ == action_performed_event(),
        r.value.notification@ == payload@,
        r.value.action_id@ == action_id@,
        r.value.input_value == input_value,
        r.channels@ == listeners_of(notification.listeners(), action_performed_event()),
{
    let event = "actionPerformed";
    let channels = notification.emit_to_listeners(event);
    ActionPerformedEmission {
        event: event.to_owned(),
        value: ActionPerformedEvent {
            notification: payload.duplicate(),
            action_id: action_id.to_owned(),
            input_value,
        },
        channels,
    }
}

/// What the answer `response` to a notification shown by `request` is
/// reported as: the emission of "actionPerformed" with the request's payload
/// and the answer's action id and input value, when the request reports
/// answers (it has a payload and an emitter); nothing otherwise.
pub fn action_performed_for(
    notification: &Notification,
    request: &ShowRequest,
    response: &NotificationResponse,
) -> (r: Option<ActionPerformedEmission>)
    ensures
        r is Some <==> reported_action(request@, *response) is Some,
        r matches Some(e) ==> {
            &&& e.event@ == action_performed_event()
            &&& request.action_payload matches Some(p) && e.value.notification@ == p@
            &&& reported_action(request@, *response) == Some(
                (e.value.action_id@, opt_text(e.value.input_value)),
            )
            &&& e.channels@ == listeners_of(notification.listeners(), action_performed_event())
        },
{
    match request.action_for(response) {
        Some(action) => match &request.action_payload {
            Some(payload) => {
                let (action_id, input_value) = action;
                Some(emit_action_performed(notification, action_id.as_str(), input_value, payload))
            },
            None => None,
        },
        None => None,
    }
}

impl Notification {
    /// The application's configuration.
    pub closed spec fn app_config(&self) -> AppConfig {
        self.app
    }

    /// The listeners, by event name.
    pub closed spec fn listeners(&self) -> Map<Seq<char>, Seq<u32>> {
        self.event_listeners.view()
    }

    /// A builder for a notification of this application, with nothing set.
    pub fn builder(&self) -> (r: NotificationBuilder)
        ensures
            r.app == self.app_config(),
            r.data.is_blank(0),
    {
        let app = AppConfig {
            identifier: self.app.identifier.clone(),
            product_name: copy_text(&self.app.product_name),
        };
        NotificationBuilder::new(app)
    }

    /// The permission to show notifications, once asked for: always granted on desktop.
    pub fn request_permission(&self) -> (r: Result<PermissionState, Error>)
        ensures
            r == Ok::<PermissionState, Error>(PermissionState::Granted),
    {
        Ok(PermissionState::Granted)
    }

    /// The permission to show notifications: always granted on desktop.
    pub fn permission_state(&self) -> (r: Result<PermissionState, Error>)
        ensures
            r == Ok::<PermissionState, Error>(PermissionState::Granted),
    {
        Ok(PermissionState::Granted)
    }

    /// Registers the channel `channel_id` as a listener of `event`, after
    /// those registered before.
    pub fn register_event_listener(&mut self, event: String, channel_id: u32)
        ensures
            final(self).app_config() == old(self).app_config(),
            final(self).listeners() == registered(old(self).listeners(), event@, channel_id),
    {
        self.event_listeners.register(event, channel_id);
    }

    /// Removes every registration of the channel `channel_id` as a listener of `event`.
    pub fn remove_event_listener(&mut self, event: &str, channel_id: u32)
        ensures
            final(self).app_config() == old(self).app_config(),
            final(self).listeners() == unregistered(old(self).listeners(), event@, channel_id),
    {
        self.event_listeners.remove(event, channel_id);
    }

    /// The channels that a payload emitted under `event` is sent to, in order.
    pub fn emit_to_listeners(&self, event: &str) -> (r: Vec<u32>)
        ensures
            r@ == listeners_of(self.listeners(), event@),
    {
        self.event_listeners.channels_of(event)
    }
}

} // verus!
