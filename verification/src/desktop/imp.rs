//! Desktop notifications: what is shown, how, and what an answer of the
//! user is reported as.
use vstd::prelude::*;

use crate::desktop::{ActionPerformedNotification, ActionPerformedView};
use crate::models::opt_text;

verus! {

/// The desktop platform a notification is shown on, with what the platform's
/// branch of `show` reads of the running process.
pub enum Platform {
    /// Windows, with the directory of the running executable and the version
    /// of Windows.
    Windows { exe_dir: String, version: WindowsVersion },
    /// macOS, and whether the application runs in development mode.
    MacOs { dev: bool },
    /// A Unix desktop that speaks the XDG notification protocol.
    Xdg,
}

/// A version of Windows.
#[derive(Clone, Copy, Debug, PartialEq, Eq, Structural)]
pub struct WindowsVersion {
    pub major: u32,
    pub minor: u32,
}

/// The answer of the user to a notification.
#[derive(Clone, Debug)]
pub enum NotificationResponse {
    /// The notification itself was activated.
    Default,
    /// A named action button was activated.
    Action(String),
    /// A text reply was submitted.
    Reply(String),
    /// The notification was closed without any action.
    Closed,
}

/// The calls to make on the operating system's notification: each field is
/// one setter to call, `None` or `false` for a setter not to call.
#[derive(Debug)]
pub struct NativeNotification {
    /// The body to set.
    pub body: Option<String>,
    /// The summary (title) to set.
    pub summary: Option<String>,
    /// The icon to set; `None` means the icon is chosen automatically.
    pub icon: Option<String>,
    /// The sound name to set.
    pub sound_name: Option<String>,
    /// The application user model id to set (Windows).
    pub app_id: Option<String>,
    /// The application to show the notification as (macOS).
    pub application: Option<String>,
    /// Whether to declare the "default" action, so that a click on the body is reported (XDG).
    pub default_action: bool,
}

/// A notification ready to be shown, with what is needed to report the
/// user's answer to it.
#[derive(Debug)]
pub struct ShowRequest {
    /// The calls to make on the operating system's notification.
    pub native: NativeNotification,
    /// The payload reported with an action on the notification.
    pub action_payload: Option<ActionPerformedNotification>,
    /// Whether actions on the notification are reported.
    pub action_emitter: bool,
}

/// A notification shown by the Windows 7 notification window.
#[derive(Debug)]
pub struct Win7Notification {
    pub body: Option<String>,
    pub summary: Option<String>,
}

/// How `notify` shows a notification.
#[derive(Debug)]
pub enum NotifyRequest {
    /// By the Windows 7 notification window.
    Windows7(Win7Notification),
    /// By the operating system's notification service, as `show` does.
    Native(ShowRequest),
}

/// The state of a desktop notification, as texts.
pub struct NotificationModel {
    pub body: Option<Seq<char>>,
    pub title: Option<Seq<char>>,
    pub icon: Option<Seq<char>>,
    pub sound: Option<Seq<char>>,
    pub identifier: Seq<char>,
    pub action_payload: Option<ActionPerformedView>,
    pub action_emitter: bool,
}

/// `s` ends with `suffix`.
pub open spec fn text_ends_with(s: Seq<char>, suffix: Seq<char>) -> bool {
    suffix.len() <= s.len() && s.subrange(s.len() - suffix.len(), s.len() as int) == suffix
}

/// Whether `s` ends with `suffix`.
pub fn ends_with(s: &str, suffix: &str) -> (r: bool)
    ensures
        r == text_ends_with(s@, suffix@),
{
    let n = s.unicode_len();
    let m = suffix.unicode_len();
    if m > n {
        return false;
    }
    let start = n - m;
    let mut i: usize = 0;
    while i < m
        invariant
            n == s@.len(),
            m == suffix@.len(),
            m <= n,
            start == n - m,
            i <= m,
            forall|j: int| 0 <= j < i ==> s@[start + j] == suffix@[j],
        decreases m - i,
    {
        if s.get_char(start + i) != suffix.get_char(i) {
            assert(s@.subrange(start as int, n as int)[i as int] != suffix@[i as int]);
            return false;
        }
        i = i + 1;
    }
    assert(s@.subrange(start as int, n as int) =~= suffix@);
    true
}

/// The application is run from its installation, and not from a build
/// directory of the project: `dir` ends neither in `\target\debug` nor in
/// `\target\release`.
pub open spec fn runs_installed(dir: Seq<char>) -> bool {
    !(text_ends_with(dir, "\\target\\debug"@) || text_ends_with(dir, "\\target\\release"@))
}

/// Whether the executable's directory `dir` is that of an installed application.
pub fn is_installed_dir(dir: &str) -> (r: bool)
    ensures
        r == runs_installed(dir@),
{
    !(ends_with(dir, "\\target\\debug") || ends_with(dir, "\\target\\release"))
}

/// The version is that of Windows 7 (6.1).
pub open spec fn windows_7(v: WindowsVersion) -> bool {
    v.major == 6 && v.minor == 1
}

/// Whether `v` is Windows 7.
pub fn is_windows_7(v: WindowsVersion) -> (r: bool)
    ensures
        r == windows_7(v),
{
    v.major == 6 && v.minor == 1
}

/// The action id and the input value that an answer is reported with:
/// activation is "tap", a named action its name, a reply "tap" with the reply
/// as input value, a close "dismiss".
pub open spec fn response_action_spec(response: NotificationResponse) -> (Seq<char>, Option<Seq<char>>) {
    match response {
        NotificationResponse::Default => ("tap"@, None),
        NotificationResponse::Action(id) => (id@, None),
        NotificationResponse::Reply(text) => ("tap"@, Some(text@)),
        NotificationResponse::Closed => ("dismiss"@, None),
    }
}

/// The action id and input value that `response` is reported with.
pub fn response_action(response: &NotificationResponse) -> (r: (String, Option<String>))
    ensures
        (r.0@, opt_text(r.1)) == response_action_spec(*response),
{
    match response {
        NotificationResponse::Default => ("tap".to_owned(), None),
        NotificationResponse::Action(id) => (id.clone(), None),
        NotificationResponse::Reply(text) => ("tap".to_owned(), Some(text.clone())),
        NotificationResponse::Closed => ("dismiss".to_owned(), None),
    }
}

/// The desktop notification definition: what is shown, and how the user's
/// answer is reported. Its debug form shows whether an emitter is set.
#[derive(Debug)]
pub struct Notification {
    body: Option<String>,
    title: Option<String>,
    icon: Option<String>,
    sound: Option<String>,
    identifier: String,
    action_payload: Option<ActionPerformedNotification>,
    action_emitter: bool,
}

impl View for Notification {
    type V = NotificationModel;

    closed spec fn view(&self) -> NotificationModel {
        NotificationModel {
            body: opt_text(self.body),
            title: opt_text(self.title),
            icon: opt_text(self.icon),
            sound: opt_text(self.sound),
            identifier: self.identifier@,
            action_payload: match self.action_payload {
                Some(p) => Some(p@),
                None => None,
            },
            action_emitter: self.action_emitter,
        }
    }
}

/// The calls that `show` makes for a notification in state `n` on `platform`.
pub open spec fn native_spec(n: NotificationModel, platform: Platform) -> NativeModel {
    NativeModel {
        body: n.body,
        summary: n.title,
        icon: n.icon,
        sound_name: n.sound,
        app_id: match platform {
            Platform::Windows { exe_dir, .. } => if runs_installed(exe_dir@) {
                Some(n.identifier)
            } else {
                None
            },
            _ => None,
        },
        application: match platform {
            Platform::MacOs { dev } => if dev {
                Some("com.apple.Terminal"@)
            } else {
                Some(n.identifier)
            },
            _ => None,
        },
        default_action: platform is Xdg,
    }
}

/// The calls to make on the operating system's notification, as texts.
pub struct NativeModel {
    pub body: Option<Seq<char>>,
    pub summary: Option<Seq<char>>,
    pub icon: Option<Seq<char>>,
    pub sound_name: Option<Seq<char>>,
    pub app_id: Option<Seq<char>>,
    pub application: Option<Seq<char>>,
    pub default_action: bool,
}

impl View for NativeNotification {
    type V = NativeModel;

    open spec fn view(&self) -> NativeModel {
        NativeModel {
            body: opt_text(self.body),
            summary: opt_text(self.summary),
            icon: opt_text(self.icon),
            sound_name: opt_text(self.sound_name),
            app_id: opt_text(self.app_id),
            application: opt_text(self.application),
            default_action: self.default_action,
        }
    }
}

/// An optional payload as its view.
pub open spec fn payload_view(p: Option<ActionPerformedNotification>) -> Option<ActionPerformedView> {
    match p {
        Some(p) => Some(p@),
        None => None,
    }
}

/// What an answer `response` to a notification shown by `request` is
/// reported with: the action id and input value of the answer when the
/// request has both a payload and an emitter, nothing otherwise.
pub open spec fn reported_action(request: ShowModel, response: NotificationResponse) -> Option<
    (Seq<char>, Option<Seq<char>>),
> {
    if request.action_payload is Some && request.action_emitter {
        Some(response_action_spec(response))
    } else {
        None
    }
}

/// A notification ready to be shown, as texts.
pub struct ShowModel {
    pub native: NativeModel,
    pub action_payload: Option<ActionPerformedView>,
    pub action_emitter: bool,
}

impl View for ShowRequest {
    type V = ShowModel;

    open spec fn view(&self) -> ShowModel {
        ShowModel {
            native: self.native@,
            action_payload: payload_view(self.action_payload),
            action_emitter: self.action_emitter,
        }
    }
}

/// How `notify` shows a notification, as texts.
pub enum NotifyModel {
    Windows7 { body: Option<Seq<char>>, summary: Option<Seq<char>> },
    Native(ShowModel),
}

impl View for NotifyRequest {
    type V = NotifyModel;

    open spec fn view(&self) -> NotifyModel {
        match self {
            NotifyRequest::Windows7(w) => NotifyModel::Windows7 {
                body: opt_text(w.body),
                summary: opt_text(w.summary),
            },
            NotifyRequest::Native(s) => NotifyModel::Native(s@),
        }
    }
}

/// What `show` gives for a notification in state `n` on `platform`: the
/// calls on the operating system's notification, with the notification's
/// payload and emitter.
pub open spec fn show_spec(n: NotificationModel, platform: Platform) -> ShowModel {
    ShowModel {
        native: native_spec(n, platform),
        action_payload: n.action_payload,
        action_emitter: n.action_emitter,
    }
}

/// `platform` is Windows 7.
pub open spec fn on_windows_7(platform: Platform) -> bool {
    platform matches Platform::Windows { version, .. } && windows_7(version)
}

/// What `notify` gives for a notification in state `n` on `platform`: on
/// Windows 7 the Windows 7 notification window with the body and title;
/// elsewhere what `show` gives.
pub open spec fn notify_spec(n: NotificationModel, platform: Platform) -> NotifyModel {
    if on_windows_7(platform) {
        NotifyModel::Windows7 { body: n.body, summary: n.title }
    } else {
        NotifyModel::Native(show_spec(n, platform))
    }
}

/// An optional action id and input value as texts.
pub open spec fn action_text(a: Option<(String, Option<String>)>) -> Option<(Seq<char>, Option<Seq<char>>)> {
    match a {
        Some(a) => Some((a.0@, opt_text(a.1))),
        None => None,
    }
}

impl ShowRequest {
    /// The action id and input value reported for `response`: none unless
    /// the notification has both a payload and an emitter.
    pub fn action_for(&self, response: &NotificationResponse) -> (r: Option<(String, Option<String>)>)
        ensures
            action_text(r) == reported_action(self@, *response),
    {
        if self.action_payload.is_some() && self.action_emitter {
            Some(response_action(response))
        } else {
            None
        }
    }
}

impl Notification {
    /// A notification for the application `identifier`, with nothing else set.
    pub fn new(identifier: String) -> (r: Self)
        ensures
            r@ == (NotificationModel {
                body: None,
                title: None,
                icon: None,
                sound: None,
                identifier: identifier@,
                action_payload: None,
                action_emitter: false,
            }),
    {
        Notification {
            body: None,
            title: None,
            icon: None,
            sound: None,
            identifier,
            action_payload: None,
            action_emitter: false,
        }
    }

    /// Sets the notification body.
    pub fn body(self, body: String) -> (r: Self)
        ensures
            r@ == (NotificationModel { body: Some(body@), ..self@ }),
    {
        Notification { body: Some(body), ..self }
    }

    /// Sets the notification title.
    pub fn title(self, title: String) -> (r: Self)
        ensures
            r@ == (NotificationModel { title: Some(title@), ..self@ }),
    {
        Notification { title: Some(title), ..self }
    }

    /// Sets the notification icon.
    pub fn icon(self, icon: String) -> (r: Self)
        ensures
            r@ == (NotificationModel { icon: Some(icon@), ..self@ }),
    {
        Notification { icon: Some(icon), ..self }
    }

    /// Sets the notification sound file.
    pub fn sound(self, sound: String) -> (r: Self)
        ensures
            r@ == (NotificationModel { sound: Some(sound@), ..self@ }),
    {
        Notification { sound: Some(sound), ..self }
    }

    /// Sets the action payload.
    pub fn action_payload(self, payload: ActionPerformedNotification) -> (r: Self)
        ensures
            r@ == (NotificationModel { action_payload: Some(payload@), ..self@ }),
    {
        Notification { action_payload: Some(payload), ..self }
    }

    /// Has actions on the notification reported to the application's listeners.
    pub fn action_emitter(self) -> (r: Self)
        ensures
            r@ == (NotificationModel { action_emitter: true, ..self@ }),
    {
        Notification { action_emitter: true, ..self }
    }

    /// Shows the notification: the calls to make on the operating system's
    /// notification on `platform`, with the payload and emitter that report
    /// the user's answer.
    pub fn show(self, platform: Platform) -> (r: ShowRequest)
        ensures
            r@ == show_spec(self@, platform),
    {
        let app_id = match &platform {
            Platform::Windows { exe_dir, .. } => if is_installed_dir(exe_dir.as_str()) {
                Some(self.identifier.clone())
            } else {
                None
            },
            _ => None,
        };
        let application = match &platform {
            Platform::MacOs { dev } => if *dev {
                Some("com.apple.Terminal".to_owned())
            } else {
                Some(self.identifier.clone())
            },
            _ => None,
        };
        let default_action = match &platform {
            Platform::Xdg => true,
            _ => false,
        };
        let native = NativeNotification {
            body: self.body,
            summary: self.title,
            icon: self.icon,
            sound_name: self.sound,
            app_id,
            application,
            default_action,
        };
        ShowRequest {
            native,
            action_payload: self.action_payload,
            action_emitter: self.action_emitter,
        }
    }

    /// Shows the notification, also on Windows 7: there by the Windows 7
    /// notification window, with the body and title only; elsewhere as `show` does.
    pub fn notify(self, platform: Platform) -> (r: NotifyRequest)
        ensures
            r@ == notify_spec(self@, platform),
    {
        let win7 = match &platform {
            Platform::Windows { version, .. } => is_windows_7(*version),
            _ => false,
        };
        if win7 {
            NotifyRequest::Windows7(Win7Notification { body: self.body, summary: self.title })
        } else {
            NotifyRequest::Native(self.show(platform))
        }
    }
}

} // verus!
