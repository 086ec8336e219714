//! What the credential store hands to the login, and takes from it.

use vstd::prelude::*;

verus! {

#[derive(Debug)]
pub enum StorageError {
    Busy,
    AuthChanged,
    InvalidState(String),
    NotAuthenticated,
    UnsupportedPlatform,
    Unavailable(String),
    RollbackFailed,
}

#[derive(Clone, Copy, Debug, PartialEq, Eq, Structural)]
pub enum AuthStatusReason {
    Ready,
    StateMissing,
}

impl AuthStatusReason {
    pub open spec fn name(self) -> Seq<char> {
        match self {
            AuthStatusReason::Ready => "ready"@,
            AuthStatusReason::StateMissing => "state_missing"@,
        }
    }

    pub fn as_str(self) -> (text: &'static str)
        ensures
            text@ == self.name(),
    {
        match self {
            AuthStatusReason::Ready => "ready",
            AuthStatusReason::StateMissing => "state_missing",
        }
    }
}

/// What is known of the stored credentials. It holds no secret.
#[derive(Debug)]
pub struct AuthStatus {
    pub authenticated: bool,
    pub reason: AuthStatusReason,
    pub account_hash: Option<String>,
    pub expires_at: Option<i64>,
    pub auth_epoch: Option<String>,
    pub auth_generation: u64,
}

/// Tokens of a new login.
pub struct NewOAuthTokens {
    pub access_token: String,
    pub refresh_token: String,
    pub id_token: String,
    pub account_id: String,
    pub expires_at: Option<i64>,
}

/// What a refresh changes. A field that is absent stays as it was.
pub struct RefreshUpdate {
    pub access_token: Option<String>,
    pub refresh_token: Option<String>,
    pub id_token: Option<String>,
    pub account_id: Option<String>,
    pub expires_at: Option<i64>,
}

/// The stored credentials as a refresh finds them.
pub struct RefreshSnapshot {
    pub auth_generation: u64,
    pub refresh_token: String,
}

#[derive(Clone, Copy, Debug, PartialEq, Eq, Structural)]
pub enum RevokeTokenKind {
    Refresh,
    Access,
}

/// A token to be revoked at logout.
pub struct RevokeToken {
    pub kind: RevokeTokenKind,
    pub token: String,
}

} // verus!
