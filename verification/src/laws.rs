//! What holds across the operations on the listener table, and what a
//! shown notification is made of.
use vstd::prelude::*;

use crate::desktop::imp::{
    notify_spec, reported_action, response_action_spec, show_spec, text_ends_with,
    NotificationModel, NotificationResponse, NotifyModel, Platform,
};
use crate::desktop::{built_notification, payload_of, plain_notification, ActionPerformedView};
use crate::models::opt_text;
use crate::listeners::{listeners_of, other_than, registered, unregistered, without_channel};
use crate::models::{AppConfig, NotificationData};

verus! {

/// After `channel` is registered for `event`, an emission under `event`
/// reaches the channels it reached before and then `channel`; an emission
/// under any other name reaches what it reached before.
pub proof fn law_register_then_emit(
    table: Map<Seq<char>, Seq<u32>>,
    event: Seq<char>,
    channel: u32,
    other: Seq<char>,
)
    ensures
        listeners_of(registered(table, event, channel), event) == listeners_of(table, event).push(
            channel,
        ),
        other != event ==> listeners_of(registered(table, event, channel), other) == listeners_of(
            table,
            other,
        ),
{
}

/// After `channel` is removed from the listeners of `event`, an emission
/// under `event` no longer reaches it, still reaches every other channel it
/// reached, in the same order; an emission under any other name is unchanged.
pub proof fn law_remove_then_emit(
    table: Map<Seq<char>, Seq<u32>>,
    event: Seq<char>,
    channel: u32,
    kept: u32,
    other: Seq<char>,
)
    ensures
        listeners_of(unregistered(table, event, channel), event) == without_channel(
            listeners_of(table, event),
            channel,
        ),
        !listeners_of(unregistered(table, event, channel), event).contains(channel),
        kept != channel ==> (listeners_of(unregistered(table, event, channel), event).contains(kept)
            <==> listeners_of(table, event).contains(kept)),
        other != event ==> listeners_of(unregistered(table, event, channel), other)
            == listeners_of(table, other),
{
    let s = listeners_of(table, event);
    let r = without_channel(s, channel);
    assert(listeners_of(unregistered(table, event, channel), event) == r) by {
        if !table.contains_key(event) {
            reveal(Seq::filter);
            assert(s.len() == 0);
        }
    }
    broadcast use vstd::seq_lib::group_filter_ensures;

    if r.contains(channel) {
        let i = choose|i: int| 0 <= i < r.len() && r[i] == channel;
        assert(other_than(channel)(r[i]));
    }
    if kept != channel {
        if s.contains(kept) {
            let i = choose|i: int| 0 <= i < s.len() && s[i] == kept;
            assert(other_than(channel)(s[i]));
        }
        if r.contains(kept) {
            lemma_without_channel_within(s, channel, kept);
        }
    }
}

proof fn lemma_without_channel_within(s: Seq<u32>, channel: u32, x: u32)
    requires
        without_channel(s, channel).contains(x),
    ensures
        s.contains(x),
    decreases s.len(),
{
    reveal(Seq::filter);
    if s.len() > 0 {
        let t = s.drop_last();
        if x == s.last() {
            assert(s[s.len() - 1] == x);
        } else {
            let r = without_channel(s, channel);
            let rt = without_channel(t, channel);
            assert(r == rt || r == rt.push(s.last()));
            if r == rt.push(s.last()) {
                let i = choose|i: int| 0 <= i < r.len() && r[i] == x;
                assert(i < rt.len());
                assert(rt[i] == x);
            }
            lemma_without_channel_within(t, channel, x);
            let j = choose|j: int| 0 <= j < t.len() && t[j] == x;
            assert(s[j] == x);
        }
    }
}

proof fn lemma_without_channel_twice(s: Seq<u32>, channel: u32)
    ensures
        without_channel(without_channel(s, channel), channel) == without_channel(s, channel),
    decreases s.len(),
{
    reveal(Seq::filter);
    if s.len() > 0 {
        lemma_without_channel_twice(s.drop_last(), channel);
        let t = without_channel(s.drop_last(), channel);
        if s.last() != channel {
            t.lemma_filter_push(s.last(), other_than(channel));
        }
    }
}

/// Removing a channel from the listeners of an event a second time changes nothing.
pub proof fn law_remove_twice(table: Map<Seq<char>, Seq<u32>>, event: Seq<char>, channel: u32)
    ensures
        unregistered(unregistered(table, event, channel), event, channel) == unregistered(
            table,
            event,
            channel,
        ),
{
    if table.contains_key(event) {
        lemma_without_channel_twice(table[event], channel);
        assert(unregistered(unregistered(table, event, channel), event, channel) =~= unregistered(
            table,
            event,
            channel,
        ));
    }
}

/// Registering a channel for an event and removing it again leaves an
/// emission under that event reaching what it reaches once the channel is
/// removed: the registration leaves no trace.
pub proof fn law_register_then_remove(
    table: Map<Seq<char>, Seq<u32>>,
    event: Seq<char>,
    channel: u32,
)
    ensures
        listeners_of(unregistered(registered(table, event, channel), event, channel), event)
            == listeners_of(unregistered(table, event, channel), event),
{
    let s = listeners_of(table, event);
    s.lemma_filter_push(channel, other_than(channel));
    if !table.contains_key(event) {
        reveal(Seq::filter);
    }
}

/// A notification shown through a builder reports every answer of the user,
/// with the answer's action id and input value, as `response_action` maps it.
pub proof fn law_builder_reports_answers(
    app: AppConfig,
    data: NotificationData,
    platform: Platform,
    response: NotificationResponse,
)
    ensures
        reported_action(show_spec(built_notification(app, data), platform), response) == Some(
            response_action_spec(response),
        ),
        show_spec(built_notification(app, data), platform).action_payload == Some(payload_of(data)),
{
}

/// Where Windows 7 has to be served, a builder shows what the desktop
/// notification built from its options (identifier, title or else product
/// name, body, icon, sound) shows through `notify`, with no payload and no
/// emitter attached: no answer of the user to it is ever reported.
pub proof fn law_builder_notify_reports_nothing(
    app: AppConfig,
    data: NotificationData,
    platform: Platform,
    response: NotificationResponse,
)
    ensures
        plain_notification(app, data).action_payload is None,
        !plain_notification(app, data).action_emitter,
        plain_notification(app, data) == (NotificationModel {
            action_payload: None,
            action_emitter: false,
            ..built_notification(app, data)
        }),
        notify_spec(plain_notification(app, data), platform) matches NotifyModel::Native(s)
            ==> reported_action(s, response) is None,
{
}

/// On every platform, `show` sets the body, summary, icon and sound of the
/// operating system's notification to the notification's own body, title,
/// icon and sound, and hands on its payload and emitter unchanged.
pub proof fn law_show_passes_content_on(n: NotificationModel, platform: Platform)
    ensures
        show_spec(n, platform).native.body == n.body,
        show_spec(n, platform).native.summary == n.title,
        show_spec(n, platform).native.icon == n.icon,
        show_spec(n, platform).native.sound_name == n.sound,
        show_spec(n, platform).action_payload == n.action_payload,
        show_spec(n, platform).action_emitter == n.action_emitter,
{
}

/// The "default" action is declared exactly on XDG desktops: neither on
/// macOS, where it would be a visible button, nor on Windows.
pub proof fn law_default_action_only_on_xdg(n: NotificationModel, platform: Platform)
    ensures
        show_spec(n, platform).native.default_action <==> platform is Xdg,
        show_spec(n, Platform::MacOs { dev: false }).native.default_action == false,
        show_spec(n, Platform::MacOs { dev: true }).native.default_action == false,
{
}

/// The application user model id is set only on Windows, and there to the
/// identifier exactly when the executable's directory ends neither in
/// `\target\debug` nor in `\target\release`.
pub proof fn law_app_id_only_for_installed_windows_apps(n: NotificationModel, platform: Platform)
    ensures
        show_spec(n, platform).native.app_id == (match platform {
            Platform::Windows { exe_dir, .. } => if !text_ends_with(exe_dir@, "\\target\\debug"@)
                && !text_ends_with(exe_dir@, "\\target\\release"@) {
                Some(n.identifier)
            } else {
                None
            },
            _ => None,
        }),
{
}

/// The application a notification is shown as is set only on macOS: the
/// Terminal in development mode, the application's identifier otherwise.
pub proof fn law_application_only_on_macos(n: NotificationModel, platform: Platform)
    ensures
        show_spec(n, platform).native.application == (match platform {
            Platform::MacOs { dev } => if dev {
                Some("com.apple.Terminal"@)
            } else {
                Some(n.identifier)
            },
            _ => None,
        }),
{
}

/// `notify` uses the Windows 7 notification window exactly on Windows 6.1,
/// with the notification's body and title; on every other platform and
/// version it gives what `show` gives.
pub proof fn law_notify_windows_7_window_only_on_6_1(n: NotificationModel, platform: Platform)
    ensures
        (notify_spec(n, platform) is Windows7) <==> (platform matches Platform::Windows {
            version,
            ..
        } && version.major == 6 && version.minor == 1),
        notify_spec(n, platform) matches NotifyModel::Windows7 { body, summary } ==> body == n.body
            && summary == n.title,
        !(notify_spec(n, platform) is Windows7) ==> notify_spec(n, platform) == NotifyModel::Native(
            show_spec(n, platform),
        ),
{
}

/// A builder shows its notification titled by its own title whenever it has
/// one, and by the product name only when it has none; the body, icon and
/// sound are the options' own, and the identifier is the application's.
pub proof fn law_builder_title_and_content(app: AppConfig, data: NotificationData, platform: Platform)
    ensures
        data.title matches Some(t) ==> built_notification(app, data).title == Some(t@),
        data.title is None ==> built_notification(app, data).title == opt_text(app.product_name),
        built_notification(app, data).body == opt_text(data.body),
        built_notification(app, data).icon == opt_text(data.icon),
        built_notification(app, data).sound == opt_text(data.sound),
        built_notification(app, data).identifier == app.identifier@,
        data.title matches Some(t) ==> show_spec(built_notification(app, data), platform).native.summary
            == Some(t@),
        show_spec(built_notification(app, data), platform).native.body == opt_text(data.body),
{
}

/// The payload that a builder's notification reports actions with is made of
/// the options' own id, title, body, action type and extra payload, whatever
/// the title shown; and actions are reported.
pub proof fn law_builder_payload_is_the_options(
    app: AppConfig,
    data: NotificationData,
    platform: Platform,
)
    ensures
        show_spec(built_notification(app, data), platform).action_payload == Some(
            ActionPerformedView {
                id: data.id,
                title: opt_text(data.title),
                body: opt_text(data.body),
                action_type_id: opt_text(data.action_type_id),
                extra: data.extra@,
            },
        ),
        show_spec(built_notification(app, data), platform).action_emitter,
{
}

} // verus!
