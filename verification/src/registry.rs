//! The current-client registry: a single-occupancy slot holding at most
//! one live authenticated client per process.
//!
//! `replace` and `take` are the only mutators (login and logout use them);
//! every other command observes the occupant through `with_client`, which
//! borrows the registry, so the occupant cannot change underneath it.

use vstd::prelude::*;
use crate::AuthError;

verus! {

/// The slot after `replace(client)`: it holds exactly `client`.
pub open spec fn replaced<C>(before: Option<C>, client: C) -> Option<C> {
    Some(client)
}

/// The slot after `take()`: empty, the logged-out state.
pub open spec fn taken<C>(before: Option<C>) -> Option<C> {
    None
}

/// What `with_client` observes of a slot state: the occupant, or nothing.
pub open spec fn observed<C>(state: Option<C>) -> Option<C> {
    state
}

/// The single-occupancy, exclusively held slot for the one live client.
pub struct Registry<C> {
    slot: Option<C>,
}

impl<C> View for Registry<C> {
    type V = Option<C>;

    closed spec fn view(&self) -> Option<C> {
        self.slot
    }
}

impl<C> Registry<C> {
    /// A fresh, empty registry: the logged-out state.
    pub fn new() -> (r: Self)
        ensures
            r@ is None,
    {
        Registry { slot: None }
    }

    /// Whether a session is live.
    pub fn is_logged_in(&self) -> (r: bool)
        ensures
            r == (self@ is Some),
    {
        self.slot.is_some()
    }

    /// Publishes `client` as the one live client, returning any prior
    /// occupant (at most one session may be live).
    pub fn replace(&mut self, client: C) -> (r: Option<C>)
        ensures
            final(self)@ == replaced(old(self)@, client),
            r == old(self)@,
    {
        let mut tmp = Some(client);
        core::mem::swap(&mut self.slot, &mut tmp);
        tmp
    }

    /// Empties the slot, returning the occupant; used by logout.
    pub fn take(&mut self) -> (r: Option<C>)
        ensures
            final(self)@ == taken::<C>(old(self)@),
            r == old(self)@,
    {
        let mut tmp = None;
        core::mem::swap(&mut self.slot, &mut tmp);
        tmp
    }

    /// Runs `op` with exclusive access to the live client, or fails with
    /// `NotLoggedIn` when the slot is empty.
    pub fn with_client<R, F: FnOnce(&C) -> R>(&self, op: F) -> (r: Result<R, AuthError>)
        requires
            observed(self@) matches Some(c) ==> call_requires(op, (&c,)),
        ensures
            observed(self@) is None <==> r is Err,
            r matches Err(e) ==> e is NotLoggedIn,
            observed(self@) matches Some(c) ==> (r matches Ok(v) ==> call_ensures(
                op,
                (&c,),
                v,
            )),
    {
        match &self.slot {
            Some(c) => Ok(op(c)),
            None => Err(AuthError::NotLoggedIn),
        }
    }
}

/// After `replace(client)`, `with_client` observes exactly that client; the
/// slot is private and `replace` and `take` are its only mutators, so the
/// observation stands until one of them runs next.
pub proof fn lemma_observe_after_replace<C>(before: Option<C>, client: C)
    ensures
        observed(replaced(before, client)) == Some(client),
{
}

/// After `take()`, `with_client` finds the slot empty — and so fails with
/// `NotLoggedIn` — until another `replace`.
pub proof fn lemma_observe_after_take<C>(before: Option<C>)
    ensures
        observed(taken::<C>(before)) is None,
{
}

} // verus!
