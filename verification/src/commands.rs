//! The plugin's commands: each does what the application's front end asks.
use vstd::prelude::*;

use crate::desktop::imp::{show_spec, Platform, ShowRequest};
use crate::desktop::{built_notification, Notification};
use crate::listeners::{registered, unregistered};
use crate::models::{ActiveNotification, Error, NotificationData, PermissionState};

verus! {

/// The answer to "is permission granted?" in a permission state: yes when
/// granted, no when denied, unknown while the user still has to be asked.
pub open spec fn granted_answer(state: PermissionState) -> Option<bool> {
    match state {
        PermissionState::Granted => Some(true),
        PermissionState::Denied => Some(false),
        PermissionState::Prompt => None,
        PermissionState::PromptWithRationale => None,
    }
}

/// Whether permission is granted in `state`, unknown while the user still has to be asked.
pub fn permission_granted(state: PermissionState) -> (r: Option<bool>)
    ensures
        r == granted_answer(state),
{
    match state {
        PermissionState::Granted => Some(true),
        PermissionState::Denied => Some(false),
        PermissionState::Prompt | PermissionState::PromptWithRationale => None,
    }
}

/// Whether permission to show notifications is granted: always on desktop.
pub fn is_permission_granted(notification: &Notification) -> (r: Result<Option<bool>, Error>)
    ensures
        r == Ok::<Option<bool>, Error>(Some(true)),
{
    let state = notification.permission_state()?;
    Ok(permission_granted(state))
}

/// Asks for permission to show notifications: granted on desktop.
pub fn request_permission(notification: &Notification) -> (r: Result<PermissionState, Error>)
    ensures
        r == Ok::<PermissionState, Error>(PermissionState::Granted),
{
    notification.request_permission()
}

/// Shows a notification with the options `options` on `platform`.
pub fn notify(notification: &Notification, options: NotificationData, platform: Platform) -> (r:
    ShowRequest)
    ensures
        r@ == show_spec(built_notification(notification.app_config(), options), platform),
{
    let mut builder = notification.builder();
    builder.data = options;
    builder.show(platform)
}

/// Registers the channel `channel_id` as a listener of `event`.
pub fn register_listener(notification: &mut Notification, event: String, channel_id: u32) -> (r:
    Result<(), Error>)
    ensures
        r is Ok,
        final(notification).app_config() == old(notification).app_config(),
        final(notification).listeners() == registered(old(notification).listeners(), event@, channel_id),
{
    notification.register_event_listener(event, channel_id);
    Ok(())
}

/// Removes the channel `channel_id` from the listeners of `event`.
pub fn remove_listener(notification: &mut Notification, event: String, channel_id: u32) -> (r:
    Result<(), Error>)
    ensures
        r is Ok,
        final(notification).app_config() == old(notification).app_config(),
        final(notification).listeners() == unregistered(old(notification).listeners(), event@, channel_id),
{
    notification.remove_event_listener(event.as_str(), channel_id);
    Ok(())
}

/// The notifications still shown: none is tracked on desktop.
pub fn get_active(notification: &Notification) -> (r: Result<Vec<ActiveNotification>, Error>)
    ensures
        r matches Ok(v) && v@.len() == 0,
{
    Ok(Vec::new())
}

/// Withdraws shown notifications: nothing to do on desktop, where shown
/// notifications are not tracked.
pub fn remove_active(notification: &Notification, notifications: Option<Vec<i32>>) -> (r: Result<
    (),
    Error,
>)
    ensures
        r is Ok,
{
    Ok(())
}

} // verus!
