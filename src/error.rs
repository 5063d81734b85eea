//! Error kinds of the authentication flow and of the credential store.

use vstd::prelude::*;

verus! {

/// Why an authentication step or a store operation failed.
#[derive(Debug, Clone, Copy, PartialEq, Eq, Structural)]
pub enum AppError {
    /// The OAuth callback lacks its query, or `code` / `state` in it.
    InvalidCallback,
    /// The callback's `state` is not the pending nonce.
    CsrfMismatch,
    /// The token endpoint could not be reached, or its answer held no token.
    TokenExchangeFailed,
    /// Neither the secure nor the fallback tier could serve the operation.
    PersistenceFailed,
    /// A credential that a caller asked for is not stored.
    NotFound,
    /// The authorization URL could not be built from its base.
    InvalidAuthorizationUrl,
}

impl AppError {
    /// The text shown to a user for this error.
    pub open spec fn spec_message(self) -> Seq<char> {
        match self {
            AppError::InvalidCallback => "Invalid OAuth callback: missing or malformed query parameters"@,
            AppError::CsrfMismatch => "OAuth state mismatch. Potential CSRF attack detected"@,
            AppError::TokenExchangeFailed => "Failed to exchange the authorization code for a token"@,
            AppError::PersistenceFailed => "Failed to persist the credential in any storage tier"@,
            AppError::NotFound => "Todoist token not found"@,
            AppError::InvalidAuthorizationUrl => "Failed to build the Todoist authorization URL"@,
        }
    }

    /// Returns the text shown to a user for this error.
    pub fn message(&self) -> (r: &'static str)
        ensures
            r@ == self.spec_message(),
    {
        match self {
            AppError::InvalidCallback => "Invalid OAuth callback: missing or malformed query parameters",
            AppError::CsrfMismatch => "OAuth state mismatch. Potential CSRF attack detected",
            AppError::TokenExchangeFailed => "Failed to exchange the authorization code for a token",
            AppError::PersistenceFailed => "Failed to persist the credential in any storage tier",
            AppError::NotFound => "Todoist token not found",
            AppError::InvalidAuthorizationUrl => "Failed to build the Todoist authorization URL",
        }
    }
}

/// An error as a plain message, the one shape the UI layer receives.
#[derive(Debug, Clone)]
pub struct AppSerializableError {
    pub message: String,
}

impl AppSerializableError {
    /// The message form of an error, as handed to the UI layer.
    pub fn from_error(error: AppError) -> (r: AppSerializableError)
        ensures
            r.message@ == error.spec_message(),
    {
        AppSerializableError { message: error.message().to_owned() }
    }
}

} // verus!
