//! The single source of truth for "is the user logged in", with the nonce of
//! the login flow in progress.

use crate::events::{AppEvent, AuthEvent};
use vstd::prelude::*;

verus! {

/// The authentication state as a value: the flag and the pending nonce.
pub struct AuthModel {
    pub authenticated: bool,
    pub pending: Option<Seq<char>>,
}

/// Process-wide authentication state. The host keeps one value of it behind
/// a lock and hands it by reference to every component that needs it. Only
/// the bus writes the flag, and only the start of a login flow or an
/// authentication event writes the nonce.
pub struct AppState {
    /// Whether a token is stored.
    authenticated: bool,
    /// The CSRF nonce of the login flow in progress, if any.
    csrf_state: Option<String>,
}

/// The view of an optional string.
pub open spec fn opt_view(s: Option<String>) -> Option<Seq<char>> {
    match s {
        Some(v) => Some(v@),
        None => None,
    }
}

/// The state after the canonical subscriber has seen an authentication
/// event: the flag follows the event and the nonce is gone.
pub open spec fn after_auth_event(s: AuthModel, e: AuthEvent) -> AuthModel {
    AuthModel { authenticated: e.authenticated, pending: None }
}

/// The state after an event is published: only authentication events
/// change it.
pub open spec fn after_event(s: AuthModel, e: AppEvent) -> AuthModel {
    match e {
        AppEvent::Authentication(a) => after_auth_event(s, a),
        _ => s,
    }
}

impl View for AppState {
    type V = AuthModel;

    closed spec fn view(&self) -> AuthModel {
        AuthModel { authenticated: self.authenticated, pending: opt_view(self.csrf_state) }
    }
}

impl AppState {
    /// The state at startup: `authenticated` is whether a token was found,
    /// and no login flow is in progress.
    pub fn new(authenticated: bool) -> (r: AppState)
        ensures
            r@ == (AuthModel { authenticated, pending: None }),
    {
        AppState { authenticated, csrf_state: None }
    }

    /// Whether the user is logged in.
    pub fn authenticated(&self) -> (r: bool)
        ensures
            r == self@.authenticated,
    {
        self.authenticated
    }

    /// The nonce of the login flow in progress, if any.
    pub fn csrf_state(&self) -> (r: &Option<String>)
        ensures
            opt_view(*r) == self@.pending,
    {
        &self.csrf_state
    }

    /// Records the nonce of a new login flow, replacing any earlier one.
    pub(crate) fn set_pending_nonce(&mut self, nonce: String)
        ensures
            final(self)@ == (AuthModel { authenticated: old(self)@.authenticated, pending: Some(nonce@) }),
    {
        self.csrf_state = Some(nonce);
    }

    /// The canonical subscriber to authentication events: sets the flag to
    /// the event's value and clears the pending nonce.
    pub(crate) fn apply_auth_event(&mut self, event: AuthEvent)
        ensures
            final(self)@ == after_auth_event(old(self)@, event),
    {
        self.authenticated = event.authenticated;
        self.csrf_state = None;
    }
}

impl Default for AppState {
    fn default() -> (r: AppState)
        ensures
            r@ == (AuthModel { authenticated: false, pending: None }),
    {
        AppState::new(false)
    }
}

} // verus!
