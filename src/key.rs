//! Logical keys under which values are persisted.

use vstd::prelude::*;

verus! {

/// The keys used for storing and retrieving values.
#[derive(Debug, Clone, Copy, PartialEq, Eq, Hash, Structural)]
pub enum StorageKey {
    /// The access token of the task-tracking service.
    TodoistToken,
    /// Whether the application should be launched at login.
    Autostart,
}

impl StorageKey {
    /// The text under which the key is stored.
    pub open spec fn spec_name(self) -> Seq<char> {
        match self {
            StorageKey::TodoistToken => "TODOIST_TOKEN"@,
            StorageKey::Autostart => "AUTOSTART"@,
        }
    }

    /// Returns the text under which the key is stored.
    pub fn name(&self) -> (r: &'static str)
        ensures
            r@ == self.spec_name(),
    {
        match self {
            StorageKey::TodoistToken => "TODOIST_TOKEN",
            StorageKey::Autostart => "AUTOSTART",
        }
    }
}

} // verus!
