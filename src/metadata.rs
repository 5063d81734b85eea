//! Names of the application.

use vstd::prelude::*;

verus! {

/// The application's identifier; also the scheme of its deep links.
pub const APP_ID: &'static str = "capturist";

/// The application's human-readable name.
pub const APP_TITLE: &'static str = "Capturist";

} // verus!
