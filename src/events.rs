//! The closed set of events that travel on the bus, with typed payloads.

use vstd::prelude::*;

verus! {

/// The kinds of event that subscribers register for.
#[derive(Debug, Clone, Copy, PartialEq, Eq, Hash, Structural)]
pub enum CustomEvent {
    /// A login succeeded or the user logged out.
    Authentication,
    /// A new task should be captured.
    QuickAdd,
    /// The launch-at-login preference changed.
    Autostart,
}

impl CustomEvent {
    /// The event's name on the UI boundary.
    pub open spec fn spec_name(self) -> Seq<char> {
        match self {
            CustomEvent::Authentication => "authentication"@,
            CustomEvent::QuickAdd => "quick-add"@,
            CustomEvent::Autostart => "autostart"@,
        }
    }

    /// Returns the event's name on the UI boundary.
    pub fn name(&self) -> (r: &'static str)
        ensures
            r@ == self.spec_name(),
    {
        match self {
            CustomEvent::Authentication => "authentication",
            CustomEvent::QuickAdd => "quick-add",
            CustomEvent::Autostart => "autostart",
        }
    }
}

/// One authentication transition: logged in (`true`) or logged out (`false`).
#[derive(Debug, Clone, Copy, PartialEq, Eq, Structural)]
pub struct AuthEvent {
    pub authenticated: bool,
}

/// A change of the launch-at-login preference.
#[derive(Debug, Clone, Copy, PartialEq, Eq, Structural)]
pub struct AutostartEvent {
    pub should_autostart: bool,
}

/// An event with its payload.
#[derive(Debug, Clone, Copy, PartialEq, Eq, Structural)]
pub enum AppEvent {
    Authentication(AuthEvent),
    QuickAdd,
    Autostart(AutostartEvent),
}

impl AppEvent {
    /// The kind under which the event is delivered.
    pub open spec fn spec_kind(self) -> CustomEvent {
        match self {
            AppEvent::Authentication(_) => CustomEvent::Authentication,
            AppEvent::QuickAdd => CustomEvent::QuickAdd,
            AppEvent::Autostart(_) => CustomEvent::Autostart,
        }
    }

    /// Returns the kind under which the event is delivered.
    pub fn kind(&self) -> (r: CustomEvent)
        ensures
            r == self.spec_kind(),
    {
        match self {
            AppEvent::Authentication(_) => CustomEvent::Authentication,
            AppEvent::QuickAdd => CustomEvent::QuickAdd,
            AppEvent::Autostart(_) => CustomEvent::Autostart,
        }
    }
}

} // verus!
