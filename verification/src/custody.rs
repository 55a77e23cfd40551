//! Custody of funds: the balances of holdings and the two ways in which a
//! balance moves. A deposit moves a chosen amount into a holding; a sweep
//! moves the whole balance of a holding out of it. Neither moves a part.

use vstd::prelude::*;
use crate::identity::Identity;
use crate::switch::SwitchError;

verus! {

/// A location that holds funds: its address and its balance.
#[derive(Clone, Copy, Debug, PartialEq, Eq)]
pub struct Wallet {
    pub key: Identity,
    pub lamports: u64,
}

/// The funds that two locations hold together.
pub open spec fn total(a: Wallet, b: Wallet) -> int {
    a.lamports + b.lamports
}

/// The location with its balance emptied.
pub open spec fn emptied(w: Wallet) -> Wallet {
    Wallet { key: w.key, lamports: 0 }
}

/// The location with `amount` more in it.
pub open spec fn credited(w: Wallet, amount: int) -> Wallet
    recommends
        0 <= w.lamports + amount <= u64::MAX,
{
    Wallet { key: w.key, lamports: (w.lamports + amount) as u64 }
}

/// Why a deposit of `amount` from `source` moves nothing, if it does not.
pub open spec fn transfer_in_error(source: Wallet, amount: u64) -> Option<SwitchError> {
    if amount == 0 {
        Some(SwitchError::InvalidAmount)
    } else if source.lamports < amount {
        Some(SwitchError::InsufficientFunds)
    } else {
        None
    }
}

/// Moves the whole balance of `holding` to `destination` and returns the
/// amount moved. The holding is left empty.
pub fn sweep(holding: &mut Wallet, destination: &mut Wallet) -> (amount: u64)
    requires
        total(*old(holding), *old(destination)) <= u64::MAX,
    ensures
        amount == old(holding).lamports,
        *final(holding) == emptied(*old(holding)),
        *final(destination) == credited(*old(destination), amount as int),
        total(*final(holding), *final(destination)) == total(*old(holding), *old(destination)),
{
    let amount: u64 = holding.lamports;
    holding.lamports = 0;
    destination.lamports = destination.lamports + amount;
    amount
}

/// Moves `amount` from `source` into `holding`, or moves nothing and says
/// why: a zero amount is refused, and so is one that the source does not hold.
pub fn transfer_in(source: &mut Wallet, holding: &mut Wallet, amount: u64) -> (r: Result<
    (),
    SwitchError,
>)
    requires
        total(*old(source), *old(holding)) <= u64::MAX,
    ensures
        match transfer_in_error(*old(source), amount) {
            Some(e) => r == Err::<(), SwitchError>(e) && *final(source) == *old(source)
                && *final(holding) == *old(holding),
            None => r is Ok && *final(source) == credited(*old(source), -(amount as int))
                && *final(holding) == credited(*old(holding), amount as int),
        },
        total(*final(source), *final(holding)) == total(*old(source), *old(holding)),
{
    if amount == 0 {
        return Err(SwitchError::InvalidAmount);
    }
    if source.lamports < amount {
        return Err(SwitchError::InsufficientFunds);
    }
    source.lamports = source.lamports - amount;
    holding.lamports = holding.lamports + amount;
    Ok(())
}

} // verus!
