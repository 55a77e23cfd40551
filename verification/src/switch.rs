//! The custody switch with a derived escrow: its record, the accounts that
//! each transition is given, and the five transitions.
//!
//! A transition either takes effect as a whole or fails and changes nothing.
//! Each is decided from the accounts it is given, its arguments and the time
//! in its context, which is read once.

use vstd::prelude::*;
use crate::identity::Identity;
use crate::context::Context;
use crate::context::outcome;
use crate::identity::lemma_identity_by_bytes;
use crate::custody::Wallet;
use crate::custody::emptied;
use crate::custody::credited;
use crate::custody::total;
use crate::custody::sweep;
use crate::custody::transfer_in;
use crate::custody::transfer_in_error;
use crate::guard::Action;
use crate::guard::authorize;
use crate::guard::authorized;
use crate::address::found_view;
use crate::address::address_view;
use crate::address::switch_address;
use crate::address::switch_address_at;
use crate::address::escrow_address;
use crate::address::escrow_address_at;
use crate::address::derive_switch;
use crate::address::derive_escrow;
use crate::address::rederive_switch;
use crate::address::rederive_escrow;

verus! {

/// Where a switch stands in its life. `Claimed` and `Cancelled` are final.
#[derive(Clone, Copy, Debug, PartialEq, Eq, Structural)]
pub enum SwitchState {
    Active,
    Claimed,
    Cancelled,
}

/// Why a transition was refused.
#[derive(Clone, Copy, Debug, PartialEq, Eq, Structural)]
pub enum SwitchError {
    /// The caller is not the recorded owner.
    Unauthorized,
    /// The switch has been claimed or cancelled.
    SwitchInactive,
    /// A claim came before the deadline.
    DeadlineNotReached,
    /// A check-in came at or after the deadline.
    DeadlineReached,
    /// The amount of a deposit is zero.
    InvalidAmount,
    /// The deadline supplied is not strictly in the future.
    InvalidDeadline,
    /// The recipient of a claim is not the recorded beneficiary.
    BeneficiaryMismatch,
    /// An address given does not match the one derived for it.
    AddressMismatch,
    /// The source of a deposit holds less than the amount.
    InsufficientFunds,
}

/// The record of one switch.
#[derive(Clone, Debug, PartialEq, Eq)]
pub struct DeadManSwitch {
    pub owner: Identity,
    pub beneficiary: Identity,
    pub deadline: i64,
    pub state: SwitchState,
    pub bump: u8,
    pub escrow_bump: u8,
    pub seed: String,
    pub last_activity: i64,
}

/// A switch in storage: its address and its record.
#[derive(Clone, Debug, PartialEq, Eq)]
pub struct SwitchAccount {
    pub key: Identity,
    pub data: DeadManSwitch,
}

impl DeadManSwitch {
    /// The switch is neither claimed nor cancelled.
    pub open spec fn active(&self) -> bool {
        self.state == SwitchState::Active
    }

    /// The switch is neither claimed nor cancelled.
    pub fn is_active(&self) -> (r: bool)
        ensures
            r == self.active(),
    {
        match self.state {
            SwitchState::Active => true,
            SwitchState::Claimed => false,
            SwitchState::Cancelled => false,
        }
    }
}

/// The search gave an address, and it is the one of `key`.
pub open spec fn found_at(pda: Option<(Seq<u8>, u8)>, key: Identity) -> bool {
    pda matches Some((a, _)) && a == key@
}

/// The bump that the search gave.
pub open spec fn found_bump(pda: Option<(Seq<u8>, u8)>) -> u8
    recommends
        pda is Some,
{
    match pda {
        Some((_, bump)) => bump,
        None => 0,
    }
}

fn is_found_at(pda: &Option<(Identity, u8)>, key: &Identity) -> (r: bool)
    ensures
        r == found_at(found_view(*pda), *key),
{
    match pda {
        Some((a, _)) => {
            proof {
                lemma_identity_by_bytes(*a, *key);
            }
            *a == *key
        },
        None => false,
    }
}

fn is_address_of(pda: &Option<Identity>, key: &Identity) -> (r: bool)
    ensures
        r == (address_view(*pda) == Some(key@)),
{
    match pda {
        Some(a) => {
            proof {
                lemma_identity_by_bytes(*a, *key);
            }
            *a == *key
        },
        None => false,
    }
}

/// The accounts of a creation: the owner, the address at which the switch
/// is to stand, and the address of its escrow.
#[derive(Clone, Debug, PartialEq, Eq)]
pub struct CreateSwitch {
    pub owner: Identity,
    pub switch: Identity,
    pub escrow: Identity,
}

/// What a creation is to do, given what the derivations of the switch's and
/// the escrow's address gave: it is refused for a deadline that is not in
/// the future, then for an address that is not the derived one; otherwise
/// it gives an active switch that records its arguments, the two bumps and
/// the time.
pub open spec fn create_switch_result(
    ctx: Context<CreateSwitch>,
    deadline: i64,
    beneficiary: Identity,
    seed: String,
    switch_pda: Option<(Seq<u8>, u8)>,
    escrow_pda: Option<(Seq<u8>, u8)>,
) -> Result<SwitchAccount, SwitchError> {
    if deadline <= ctx.now {
        Err(SwitchError::InvalidDeadline)
    } else if !found_at(switch_pda, ctx.accounts.switch) {
        Err(SwitchError::AddressMismatch)
    } else if !found_at(escrow_pda, ctx.accounts.escrow) {
        Err(SwitchError::AddressMismatch)
    } else {
        Ok(
            SwitchAccount {
                key: ctx.accounts.switch,
                data: DeadManSwitch {
                    owner: ctx.accounts.owner,
                    beneficiary,
                    deadline,
                    state: SwitchState::Active,
                    bump: found_bump(switch_pda),
                    escrow_bump: found_bump(escrow_pda),
                    seed,
                    last_activity: ctx.now,
                },
            },
        )
    }
}

/// The bumps on the record give the switch's own address and the address
/// `escrow` when the two are computed again.
pub open spec fn addresses_hold(switch: SwitchAccount, escrow: Identity, program: Identity) -> bool {
    &&& switch_address_at(switch.data.owner, switch.data.seed@, switch.data.bump, program) == Some(
        switch.key@,
    )
    &&& escrow_address_at(switch.key, switch.data.escrow_bump, program) == Some(escrow@)
}

/// Creates a switch, given what the derivations of its address and of its
/// escrow's address gave.
pub fn create_switch_with(
    ctx: &Context<CreateSwitch>,
    deadline: i64,
    beneficiary: Identity,
    seed: String,
    switch_pda: Option<(Identity, u8)>,
    escrow_pda: Option<(Identity, u8)>,
) -> (r: Result<SwitchAccount, SwitchError>)
    ensures
        r == create_switch_result(
            *ctx,
            deadline,
            beneficiary,
            seed,
            found_view(switch_pda),
            found_view(escrow_pda),
        ),
{
    if deadline <= ctx.now {
        return Err(SwitchError::InvalidDeadline);
    }
    if !is_found_at(&switch_pda, &ctx.accounts.switch) {
        return Err(SwitchError::AddressMismatch);
    }
    if !is_found_at(&escrow_pda, &ctx.accounts.escrow) {
        return Err(SwitchError::AddressMismatch);
    }
    match (switch_pda, escrow_pda) {
        (Some((_, bump)), Some((_, escrow_bump))) => Ok(
            SwitchAccount {
                key: ctx.accounts.switch,
                data: DeadManSwitch {
                    owner: ctx.accounts.owner,
                    beneficiary,
                    deadline,
                    state: SwitchState::Active,
                    bump,
                    escrow_bump,
                    seed,
                    last_activity: ctx.now,
                },
            },
        ),
        _ => Err(SwitchError::AddressMismatch),
    }
}

/// Creates a switch for the owner and the seed at the address derived from
/// them, with its escrow at the address derived from the switch's.
pub fn create_switch(
    ctx: &Context<CreateSwitch>,
    deadline: i64,
    beneficiary: Identity,
    seed: String,
) -> (r: Result<SwitchAccount, SwitchError>)
    ensures
        r == create_switch_result(
            *ctx,
            deadline,
            beneficiary,
            seed,
            switch_address(ctx.accounts.owner, seed@, ctx.program_id),
            escrow_address(ctx.accounts.switch, ctx.program_id),
        ),
        r matches Ok(switch) ==> addresses_hold(switch, ctx.accounts.escrow, ctx.program_id),
{
    let switch_pda = derive_switch(&ctx.accounts.owner, seed.as_str(), &ctx.program_id);
    let escrow_pda = derive_escrow(&ctx.accounts.switch, &ctx.program_id);
    create_switch_with(ctx, deadline, beneficiary, seed, switch_pda, escrow_pda)
}

/// The accounts of a deposit: the owner, who pays, the switch and its
/// escrow.
#[derive(Clone, Debug, PartialEq, Eq)]
pub struct DepositFunds {
    pub owner: Wallet,
    pub switch: SwitchAccount,
    pub escrow: Wallet,
}

/// What a deposit is to do, given the escrow's address as computed again:
/// it is refused for a switch that is not active, then for a payer who is
/// not the owner, then for an escrow at another address, then for an amount
/// of zero, then for an amount that the owner does not hold; otherwise the
/// amount moves from the owner to the escrow.
pub open spec fn deposit_funds_result(
    ctx: Context<DepositFunds>,
    amount: u64,
    escrow_pda: Option<Seq<u8>>,
) -> Result<Context<DepositFunds>, SwitchError> {
    let accounts = ctx.accounts;
    if !accounts.switch.data.active() {
        Err(SwitchError::SwitchInactive)
    } else if !authorized(Action::Deposit, accounts.owner.key, accounts.switch.data) {
        Err(SwitchError::Unauthorized)
    } else if escrow_pda != Some(accounts.escrow.key@) {
        Err(SwitchError::AddressMismatch)
    } else {
        match transfer_in_error(accounts.owner, amount) {
            Some(e) => Err(e),
            None => Ok(
                Context {
                    accounts: DepositFunds {
                        owner: credited(accounts.owner, -(amount as int)),
                        escrow: credited(accounts.escrow, amount as int),
                        ..accounts
                    },
                    ..ctx
                },
            ),
        }
    }
}

/// Deposits into the escrow, given the escrow's address as computed again.
pub fn deposit_funds_with(
    ctx: &mut Context<DepositFunds>,
    amount: u64,
    escrow_pda: Option<Identity>,
) -> (r: Result<(), SwitchError>)
    requires
        total(old(ctx).accounts.owner, old(ctx).accounts.escrow) <= u64::MAX,
    ensures
        outcome(
            *old(ctx),
            *final(ctx),
            r,
            deposit_funds_result(*old(ctx), amount, address_view(escrow_pda)),
        ),
{
    if !ctx.accounts.switch.data.is_active() {
        return Err(SwitchError::SwitchInactive);
    }
    if !authorize(Action::Deposit, &ctx.accounts.owner.key, &ctx.accounts.switch.data) {
        return Err(SwitchError::Unauthorized);
    }
    if !is_address_of(&escrow_pda, &ctx.accounts.escrow.key) {
        return Err(SwitchError::AddressMismatch);
    }
    transfer_in(&mut ctx.accounts.owner, &mut ctx.accounts.escrow, amount)
}

/// The owner deposits `amount` into the escrow of the switch.
pub fn deposit_funds(ctx: &mut Context<DepositFunds>, amount: u64) -> (r: Result<(), SwitchError>)
    requires
        total(old(ctx).accounts.owner, old(ctx).accounts.escrow) <= u64::MAX,
    ensures
        outcome(
            *old(ctx),
            *final(ctx),
            r,
            deposit_funds_result(
                *old(ctx),
                amount,
                escrow_address_at(
                    old(ctx).accounts.switch.key,
                    old(ctx).accounts.switch.data.escrow_bump,
                    old(ctx).program_id,
                ),
            ),
        ),
{
    let escrow_pda = rederive_escrow(
        &ctx.accounts.switch.key,
        ctx.accounts.switch.data.escrow_bump,
        &ctx.program_id,
    );
    deposit_funds_with(ctx, amount, escrow_pda)
}

/// The accounts of a check-in: the caller and the switch.
#[derive(Clone, Debug, PartialEq, Eq)]
pub struct CheckIn {
    pub owner: Identity,
    pub switch: SwitchAccount,
}

/// What a check-in is to do: it is refused for a caller who is not the
/// owner, then for a switch that is not active, then at or after the
/// deadline, then for a new deadline that is not in the future; otherwise
/// the deadline becomes the new one and the time is recorded.
pub open spec fn check_in_result(ctx: Context<CheckIn>, new_deadline: i64) -> Result<
    Context<CheckIn>,
    SwitchError,
> {
    let switch = ctx.accounts.switch.data;
    if !authorized(Action::CheckIn, ctx.accounts.owner, switch) {
        Err(SwitchError::Unauthorized)
    } else if !switch.active() {
        Err(SwitchError::SwitchInactive)
    } else if ctx.now >= switch.deadline {
        Err(SwitchError::DeadlineReached)
    } else if new_deadline <= ctx.now {
        Err(SwitchError::InvalidDeadline)
    } else {
        Ok(
            Context {
                accounts: CheckIn {
                    switch: SwitchAccount {
                        data: DeadManSwitch {
                            deadline: new_deadline,
                            last_activity: ctx.now,
                            ..switch
                        },
                        ..ctx.accounts.switch
                    },
                    ..ctx.accounts
                },
                ..ctx
            },
        )
    }
}

/// The owner shows presence and sets a new deadline.
pub fn check_in(ctx: &mut Context<CheckIn>, new_deadline: i64) -> (r: Result<(), SwitchError>)
    ensures
        outcome(*old(ctx), *final(ctx), r, check_in_result(*old(ctx), new_deadline)),
{
    if !authorize(Action::CheckIn, &ctx.accounts.owner, &ctx.accounts.switch.data) {
        return Err(SwitchError::Unauthorized);
    }
    if !ctx.accounts.switch.data.is_active() {
        return Err(SwitchError::SwitchInactive);
    }
    if ctx.now >= ctx.accounts.switch.data.deadline {
        return Err(SwitchError::DeadlineReached);
    }
    if new_deadline <= ctx.now {
        return Err(SwitchError::InvalidDeadline);
    }
    ctx.accounts.switch.data.deadline = new_deadline;
    ctx.accounts.switch.data.last_activity = ctx.now;
    Ok(())
}

/// The accounts of a claim: the switch, its owner, its escrow and the
/// recipient.
#[derive(Clone, Debug, PartialEq, Eq)]
pub struct ExecuteTransfer {
    pub switch: SwitchAccount,
    pub owner: Identity,
    pub escrow: Wallet,
    pub beneficiary: Wallet,
}

/// What a claim is to do, given the switch's and the escrow's address as
/// computed again: it is refused for a switch that is not active, then for
/// a switch at another address than the one of the owner given and the
/// seed, then for a recipient who is not the beneficiary, then for an
/// escrow at another address, then before the deadline; otherwise the whole
/// balance of the escrow moves to the recipient and the switch is claimed.
pub open spec fn execute_transfer_result(
    ctx: Context<ExecuteTransfer>,
    switch_pda: Option<Seq<u8>>,
    escrow_pda: Option<Seq<u8>>,
) -> Result<Context<ExecuteTransfer>, SwitchError> {
    let accounts = ctx.accounts;
    let switch = accounts.switch.data;
    if !switch.active() {
        Err(SwitchError::SwitchInactive)
    } else if switch_pda != Some(accounts.switch.key@) {
        Err(SwitchError::AddressMismatch)
    } else if !authorized(Action::Claim, accounts.beneficiary.key, switch) {
        Err(SwitchError::BeneficiaryMismatch)
    } else if escrow_pda != Some(accounts.escrow.key@) {
        Err(SwitchError::AddressMismatch)
    } else if ctx.now < switch.deadline {
        Err(SwitchError::DeadlineNotReached)
    } else {
        Ok(
            Context {
                accounts: ExecuteTransfer {
                    switch: SwitchAccount {
                        data: DeadManSwitch { state: SwitchState::Claimed, ..switch },
                        ..accounts.switch
                    },
                    escrow: emptied(accounts.escrow),
                    beneficiary: credited(accounts.beneficiary, accounts.escrow.lamports as int),
                    ..accounts
                },
                ..ctx
            },
        )
    }
}

/// Claims the switch, given its address and the escrow's as computed again.
pub fn execute_transfer_with(
    ctx: &mut Context<ExecuteTransfer>,
    switch_pda: Option<Identity>,
    escrow_pda: Option<Identity>,
) -> (r: Result<(), SwitchError>)
    requires
        total(old(ctx).accounts.escrow, old(ctx).accounts.beneficiary) <= u64::MAX,
    ensures
        outcome(
            *old(ctx),
            *final(ctx),
            r,
            execute_transfer_result(*old(ctx), address_view(switch_pda), address_view(escrow_pda)),
        ),
{
    if !ctx.accounts.switch.data.is_active() {
        return Err(SwitchError::SwitchInactive);
    }
    if !is_address_of(&switch_pda, &ctx.accounts.switch.key) {
        return Err(SwitchError::AddressMismatch);
    }
    if !authorize(Action::Claim, &ctx.accounts.beneficiary.key, &ctx.accounts.switch.data) {
        return Err(SwitchError::BeneficiaryMismatch);
    }
    if !is_address_of(&escrow_pda, &ctx.accounts.escrow.key) {
        return Err(SwitchError::AddressMismatch);
    }
    if ctx.now < ctx.accounts.switch.data.deadline {
        return Err(SwitchError::DeadlineNotReached);
    }
    sweep(&mut ctx.accounts.escrow, &mut ctx.accounts.beneficiary);
    ctx.accounts.switch.data.state = SwitchState::Claimed;
    Ok(())
}

/// Once the deadline has passed, moves the whole balance of the escrow to
/// the beneficiary and ends the switch.
pub fn execute_transfer(ctx: &mut Context<ExecuteTransfer>) -> (r: Result<(), SwitchError>)
    requires
        total(old(ctx).accounts.escrow, old(ctx).accounts.beneficiary) <= u64::MAX,
    ensures
        outcome(
            *old(ctx),
            *final(ctx),
            r,
            execute_transfer_result(
                *old(ctx),
                switch_address_at(
                    old(ctx).accounts.owner,
                    old(ctx).accounts.switch.data.seed@,
                    old(ctx).accounts.switch.data.bump,
                    old(ctx).program_id,
                ),
                escrow_address_at(
                    old(ctx).accounts.switch.key,
                    old(ctx).accounts.switch.data.escrow_bump,
                    old(ctx).program_id,
                ),
            ),
        ),
{
    let switch_pda = rederive_switch(
        &ctx.accounts.owner,
        ctx.accounts.switch.data.seed.as_str(),
        ctx.accounts.switch.data.bump,
        &ctx.program_id,
    );
    let escrow_pda = rederive_escrow(
        &ctx.accounts.switch.key,
        ctx.accounts.switch.data.escrow_bump,
        &ctx.program_id,
    );
    execute_transfer_with(ctx, switch_pda, escrow_pda)
}

/// The accounts of a cancellation: the owner, who calls and receives, the
/// switch and its escrow.
#[derive(Clone, Debug, PartialEq, Eq)]
pub struct CancelSwitch {
    pub owner: Wallet,
    pub switch: SwitchAccount,
    pub escrow: Wallet,
}

/// What a cancellation is to do, given the escrow's address as computed
/// again: it is refused for a caller who is not the owner, then for a
/// switch that is not active, then for an escrow at another address;
/// otherwise the whole balance of the escrow moves back to the owner and
/// the switch is cancelled.
pub open spec fn cancel_switch_result(ctx: Context<CancelSwitch>, escrow_pda: Option<Seq<u8>>) -> Result<
    Context<CancelSwitch>,
    SwitchError,
> {
    let accounts = ctx.accounts;
    let switch = accounts.switch.data;
    if !authorized(Action::Cancel, accounts.owner.key, switch) {
        Err(SwitchError::Unauthorized)
    } else if !switch.active() {
        Err(SwitchError::SwitchInactive)
    } else if escrow_pda != Some(accounts.escrow.key@) {
        Err(SwitchError::AddressMismatch)
    } else {
        Ok(
            Context {
                accounts: CancelSwitch {
                    owner: credited(accounts.owner, accounts.escrow.lamports as int),
                    switch: SwitchAccount {
                        data: DeadManSwitch { state: SwitchState::Cancelled, ..switch },
                        ..accounts.switch
                    },
                    escrow: emptied(accounts.escrow),
                },
                ..ctx
            },
        )
    }
}

/// Cancels the switch, given the escrow's address as computed again.
pub fn cancel_switch_with(ctx: &mut Context<CancelSwitch>, escrow_pda: Option<Identity>) -> (r:
    Result<(), SwitchError>)
    requires
        total(old(ctx).accounts.escrow, old(ctx).accounts.owner) <= u64::MAX,
    ensures
        outcome(
            *old(ctx),
            *final(ctx),
            r,
            cancel_switch_result(*old(ctx), address_view(escrow_pda)),
        ),
{
    if !authorize(Action::Cancel, &ctx.accounts.owner.key, &ctx.accounts.switch.data) {
        return Err(SwitchError::Unauthorized);
    }
    if !ctx.accounts.switch.data.is_active() {
        return Err(SwitchError::SwitchInactive);
    }
    if !is_address_of(&escrow_pda, &ctx.accounts.escrow.key) {
        return Err(SwitchError::AddressMismatch);
    }
    sweep(&mut ctx.accounts.escrow, &mut ctx.accounts.owner);
    ctx.accounts.switch.data.state = SwitchState::Cancelled;
    Ok(())
}

/// The owner ends the switch and takes the whole balance of the escrow
/// back.
pub fn cancel_switch(ctx: &mut Context<CancelSwitch>) -> (r: Result<(), SwitchError>)
    requires
        total(old(ctx).accounts.escrow, old(ctx).accounts.owner) <= u64::MAX,
    ensures
        outcome(
            *old(ctx),
            *final(ctx),
            r,
            cancel_switch_result(
                *old(ctx),
                escrow_address_at(
                    old(ctx).accounts.switch.key,
                    old(ctx).accounts.switch.data.escrow_bump,
                    old(ctx).program_id,
                ),
            ),
        ),
{
    let escrow_pda = rederive_escrow(
        &ctx.accounts.switch.key,
        ctx.accounts.switch.data.escrow_bump,
        &ctx.program_id,
    );
    cancel_switch_with(ctx, escrow_pda)
}

} // verus!
