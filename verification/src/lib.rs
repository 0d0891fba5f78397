//! Local-loopback authentication capture for a single-account chat client.
//!
//! The crate verifies the token-capture flow: composing the identity
//! provider's redirect URL, reserving a local port, the callback listener's
//! state machine, extracting the one-time login token from a raw request,
//! persisting the authenticated session, and the single current-client slot.

use vstd::prelude::*;
use vstd::string::StringExecFns;

pub mod compose;
pub mod listener;
pub mod login;
pub mod profile;
pub mod provider;
pub mod registry;
pub mod session;
pub mod store;
pub mod token;

verus! {

/// Failures of the capture and login flow.
#[derive(Clone, Debug)]
pub enum AuthError {
    /// No free local port could be reserved for the callback listener.
    NoPortAvailable,
    /// The callback listener could not bind its reserved port.
    BindFailed,
    /// A command needed the current client, but no session is live.
    NotLoggedIn,
    /// The token exchange was rejected; carries the server-reported reason.
    AuthExchange(String),
}

/// What `message` says for each failure; a server-reported reason is
/// preserved for display.
pub open spec fn auth_error_message_spec(e: &AuthError) -> Seq<char> {
    match e {
        AuthError::NoPortAvailable => "cannot start login: no free local port"@,
        AuthError::BindFailed => "cannot start login: the callback listener could not bind its port"@,
        AuthError::NotLoggedIn => "not logged in"@,
        AuthError::AuthExchange(m) => "failed to log in: "@ + m@,
    }
}

impl AuthError {
    /// A human-readable description of the failure.
    pub fn message(&self) -> (r: String)
        ensures
            r@ == auth_error_message_spec(self),
    {
        match self {
            AuthError::NoPortAvailable => "cannot start login: no free local port".to_owned(),
            AuthError::BindFailed => {
                "cannot start login: the callback listener could not bind its port".to_owned()
            },
            AuthError::NotLoggedIn => "not logged in".to_owned(),
            AuthError::AuthExchange(m) => {
                let mut s = "failed to log in: ".to_owned();
                s.append(m.as_str());
                s
            },
        }
    }
}

/// Failures of the durable session store.
#[derive(Clone, Debug)]
pub enum StoreError {
    /// A session field's encoding does not fit the length prefix.
    TooLarge,
    /// The backing store reported an I/O failure.
    Io,
}

} // verus!
