//! Who may ask for what. The owner's actions need the caller to be the
//! recorded owner; a claim needs the recipient to be the recorded
//! beneficiary, who does not have to take part.

use vstd::prelude::*;
use crate::identity::Identity;
use crate::switch::DeadManSwitch;

verus! {

/// The actions that are bound to an identity on the record.
#[derive(Clone, Copy, Debug, PartialEq, Eq, Structural)]
pub enum Action {
    Deposit,
    CheckIn,
    Claim,
    Cancel,
}

/// The identity on the record that the action is bound to: the beneficiary
/// for a claim, the owner for the others.
pub open spec fn bound_to(action: Action, switch: DeadManSwitch) -> Identity {
    match action {
        Action::Claim => switch.beneficiary,
        _ => switch.owner,
    }
}

/// The identity is the one that the action is bound to.
pub open spec fn authorized(action: Action, who: Identity, switch: DeadManSwitch) -> bool {
    who == bound_to(action, switch)
}

/// Tells whether `who` may take the action on the switch: for a deposit, a
/// check-in or a cancellation `who` is the caller and must be the owner; for
/// a claim `who` is the recipient and must be the beneficiary.
pub fn authorize(action: Action, who: &Identity, switch: &DeadManSwitch) -> (r: bool)
    ensures
        r == authorized(action, *who, *switch),
{
    match action {
        Action::Claim => *who == switch.beneficiary,
        Action::Deposit => *who == switch.owner,
        Action::CheckIn => *who == switch.owner,
        Action::Cancel => *who == switch.owner,
    }
}

} // verus!
