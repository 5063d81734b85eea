//! Command-line arguments of the application.

use crate::text::same_text;
use vstd::prelude::*;

verus! {

/// The flag that starts the application minimized to the tray.
pub const MINIMIZE_ARG: &'static str = "--minimize";

/// A command-line argument of the application.
#[derive(Debug, Clone, Copy, PartialEq, Eq, Structural)]
pub enum Argument {
    /// Start minimized to the system tray.
    Minimize,
    /// Open the quick-add window on startup.
    QuickAdd,
}

impl Argument {
    /// The argument's name.
    pub open spec fn spec_name(self) -> Seq<char> {
        match self {
            Argument::Minimize => "minimize"@,
            Argument::QuickAdd => "quick-add"@,
        }
    }

    /// Returns the argument's name.
    pub fn name(&self) -> (r: &'static str)
        ensures
            r@ == self.spec_name(),
    {
        match self {
            Argument::Minimize => "minimize",
            Argument::QuickAdd => "quick-add",
        }
    }

    /// The argument named `value`, if any.
    pub fn from_name(value: &str) -> (r: Option<Argument>)
        ensures
            r matches Some(a) ==> a.spec_name() == value@,
            r is None ==> forall|a: Argument| a.spec_name() != value@,
    {
        if same_text(value, Argument::Minimize.name()) {
            Some(Argument::Minimize)
        } else if same_text(value, Argument::QuickAdd.name()) {
            Some(Argument::QuickAdd)
        } else {
            None
        }
    }
}

} // verus!
