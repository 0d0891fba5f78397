//! Session lifecycle decisions around the token exchange.
//!
//! The exchange itself — trading the captured token for credentials and
//! running the first synchronization — is a network conversation the
//! caller holds with the homeserver. What is decided here, and verified:
//! a successful exchange is published all-or-nothing (the session is
//! persisted, then the client becomes the one live client; on any failure
//! the registry is left untouched), and logout withdraws the live client
//! before its credentials are released.

use vstd::prelude::*;
use crate::registry::Registry;
use crate::session::{encode_spec, session_fits, AuthSession};
use crate::store::{session_key, SessionStore};
use crate::{AuthError, StoreError};

verus! {

/// Completes a successful token exchange: persists the session, then
/// publishes the client as the one live client — replacing any prior
/// occupant, since only one session may be live. On failure nothing is
/// published: the registry is exactly as it was.
pub fn publish_session<C>(
    registry: &mut Registry<C>,
    store: &mut SessionStore,
    client: C,
    session: &AuthSession,
) -> (r: Result<(), StoreError>)
    ensures
        r is Ok ==> final(registry)@ == Some(client) && final(store)@ == old(store)@.insert(
            session_key(),
            encode_spec(session),
        ),
        r is Err ==> final(registry)@ == old(registry)@,
        (r matches Err(e) && e is TooLarge) <==> !session_fits(session),
{
    match store.save(session) {
        Err(e) => Err(e),
        Ok(_) => {
            registry.replace(client);
            Ok(())
        },
    }
}

/// Begins logout: withdraws the live client from the registry so the
/// caller can release it with the homeserver, failing with `NotLoggedIn`
/// when no session is live. Either way the registry ends empty.
pub fn begin_logout<C>(registry: &mut Registry<C>) -> (r: Result<C, AuthError>)
    ensures
        final(registry)@ is None,
        old(registry)@ matches Some(c) ==> (r matches Ok(v) && v == c),
        old(registry)@ is None ==> (r matches Err(e) && e is NotLoggedIn),
{
    match registry.take() {
        Some(c) => Ok(c),
        None => Err(AuthError::NotLoggedIn),
    }
}

} // verus!
