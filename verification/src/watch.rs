//! What to do with a delivery from the file watcher.

use vstd::prelude::*;

verus! {

/// What the watcher's channel handed over, reduced to what the controller
/// reads of it.
#[derive(Clone, Copy, Debug, PartialEq, Eq, Structural)]
pub enum Delivery {
    /// A change notification, which may carry a path and whose operation is
    /// either known or an error.
    Notification { has_path: bool, operation_ok: bool },
    /// The channel could not deliver anything.
    Failed,
}

/// What the observer does next.
#[derive(Clone, Copy, Debug, PartialEq, Eq, Structural)]
pub enum ObserverAction {
    /// Read the hardware's change report and record the level it holds.
    ReadBrightness,
    /// Log the notification as broken and leave the state alone.
    ReportBrokenEvent,
    /// Log the failure of the watch and leave the state alone.
    ReportWatchError,
}

/// The action that a delivery calls for.
pub open spec fn action_for(delivery: Delivery) -> ObserverAction {
    match delivery {
        Delivery::Notification { has_path, operation_ok } => if has_path && operation_ok {
            ObserverAction::ReadBrightness
        } else {
            ObserverAction::ReportBrokenEvent
        },
        Delivery::Failed => ObserverAction::ReportWatchError,
    }
}

/// Decides what to do with a delivery. Only a notification that names a path
/// and carries no error makes the observer read the brightness; anything else
/// is reported and ignored.
pub fn observer_action(delivery: Delivery) -> (action: ObserverAction)
    ensures
        action == action_for(delivery),
        action == ObserverAction::ReadBrightness <==> delivery == (Delivery::Notification {
            has_path: true,
            operation_ok: true,
        }),
        action == ObserverAction::ReportWatchError <==> delivery == Delivery::Failed,
{
    match delivery {
        Delivery::Notification { has_path: true, operation_ok: true } => ObserverAction::ReadBrightness,
        Delivery::Notification { .. } => ObserverAction::ReportBrokenEvent,
        Delivery::Failed => ObserverAction::ReportWatchError,
    }
}

} // verus!
