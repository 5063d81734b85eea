//! Launching at login: the stored preference and how the system setting
//! follows it.

use vstd::prelude::*;

verus! {

/// What to do to the system's launch-at-login setting.
#[derive(Debug, Clone, Copy, PartialEq, Eq, Structural)]
pub enum AutostartChange {
    Enable,
    Disable,
    Keep,
}

/// The preference in effect: the stored one, or launching at login where
/// none is stored.
pub fn preferred_autostart(stored: Option<bool>) -> (r: bool)
    ensures
        r == match stored {
            Some(b) => b,
            None => true,
        },
{
    match stored {
        Some(b) => b,
        None => true,
    }
}

/// The change that brings the system setting in line with the preference;
/// nothing where they already agree.
pub fn autostart_change(should_autostart: bool, currently_enabled: bool) -> (r: AutostartChange)
    ensures
        should_autostart && !currently_enabled ==> r == AutostartChange::Enable,
        !should_autostart && currently_enabled ==> r == AutostartChange::Disable,
        should_autostart == currently_enabled ==> r == AutostartChange::Keep,
{
    if should_autostart && !currently_enabled {
        AutostartChange::Enable
    } else if !should_autostart && currently_enabled {
        AutostartChange::Disable
    } else {
        AutostartChange::Keep
    }
}

} // verus!
