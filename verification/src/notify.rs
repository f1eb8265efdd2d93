//! The notify-OS command.
//!
//! Displaying the notification is native work performed outside the library;
//! this module holds the command's logic: what is asked of the notification
//! service, and what the command returns for each outcome of the display
//! call. A failure is returned to the caller as a descriptive error, never
//! raised as a fatal condition.

use vstd::prelude::*;

verus! {

/// What the command asks the native notification service to display: a title
/// and a body. The command's optional icon input is accepted but carries no
/// field here: the command ignores it.
#[derive(Debug, PartialEq, Eq)]
pub struct NotificationRequest {
    pub title: String,
    pub body: String,
}

/// The notify-OS command's request construction. The request is determined by
/// the title and the body alone: the icon, present, empty or missing, has no
/// effect on what is displayed.
pub fn notify_os(title: String, body: String, icon: Option<String>) -> (req: NotificationRequest)
    ensures
        req == (NotificationRequest { title, body }),
{
    let _ = icon;
    NotificationRequest { title, body }
}

/// What the notify-OS command returns for a given outcome of the native
/// display call: success as is, and a rejection as the rejection's own
/// description, handed back to the caller.
pub open spec fn notify_response_of(show_outcome: Result<(), String>) -> Result<(), String> {
    match show_outcome {
        Ok(unit) => Ok(unit),
        Err(message) => Err(message),
    }
}

/// Completes the notify-OS command from the outcome of the native display
/// call. Whatever the outcome, the command returns it to the caller as a
/// value: it never panics.
pub fn notify_complete(show_outcome: Result<(), String>) -> (r: Result<(), String>)
    ensures
        r == notify_response_of(show_outcome),
{
    match show_outcome {
        Ok(unit) => Ok(unit),
        Err(message) => Err(message),
    }
}

} // verus!
