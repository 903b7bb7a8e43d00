//! Decision logic of the autolaunch toggle command: which request the
//! handler forwards to the startup-registration subsystem. Performing the
//! request is the host framework's business and happens outside the library.

use vstd::prelude::*;

verus! {

/// A request to the startup-registration subsystem.
#[derive(Clone, Copy, Debug, PartialEq, Eq, Structural)]
pub enum AutolaunchAction {
    /// Register the application to launch at login.
    Enable,
    /// Remove the launch-at-login registration.
    Disable,
}

/// The request that a toggle to `enabled` stands for.
pub open spec fn action_for(enabled: bool) -> AutolaunchAction {
    if enabled {
        AutolaunchAction::Enable
    } else {
        AutolaunchAction::Disable
    }
}

/// Decides which registration request a toggle to `enabled` makes:
/// `Enable` exactly when `enabled` is true, `Disable` otherwise.
pub fn autolaunch_action(enabled: bool) -> (a: AutolaunchAction)
    ensures
        a == action_for(enabled),
{
    if enabled {
        AutolaunchAction::Enable
    } else {
        AutolaunchAction::Disable
    }
}

} // verus!
