//! Authentication lifecycle and cross-surface state synchronization for a
//! desktop task-capture companion: the OAuth authorization-code flow with its
//! CSRF nonce, the tiered credential store, the process-wide authentication
//! state and the typed event bus that keeps every surface consistent with it.

pub mod autostart;
pub mod bus;
pub mod cli;
pub mod credential;
pub mod deeplink;
pub mod error;
pub mod events;
pub mod key;
pub mod metadata;
pub mod notify;
pub mod oauth;
pub mod state;
pub mod surface;
pub mod text;
pub mod tray;
