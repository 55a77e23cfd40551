//! What every transition is given, and how its result is stated.

use vstd::prelude::*;
use crate::identity::Identity;

verus! {

/// What a transition is given besides its arguments: the program under which
/// addresses are derived, the accounts, and the time observed, which is read
/// once for the whole transition.
#[derive(Clone, Debug, PartialEq, Eq)]
pub struct Context<T> {
    pub program_id: Identity,
    pub accounts: T,
    pub now: i64,
}

/// How the result and the state after a transition follow from what the
/// transition is to do: on success the state is the new one, on failure the
/// error is the expected one and the state is untouched.
pub open spec fn outcome<T, E>(before: T, after: T, r: Result<(), E>, expected: Result<T, E>) -> bool {
    match expected {
        Ok(next) => r is Ok && after == next,
        Err(e) => r == Err::<(), E>(e) && after == before,
    }
}

} // verus!
