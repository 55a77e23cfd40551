//! What holds of the transitions taken together. Each law is stated over
//! the functions that say what a transition is to do, for every state,
//! every argument and every result of a derivation.

use vstd::prelude::*;
use crate::identity::Identity;
use crate::context::Context;
use crate::custody::total;
use crate::address::switch_address;
use crate::address::escrow_address;
use crate::address::escrow_address_at;
use crate::address::switch_address_at;
use crate::switch::addresses_hold;
use crate::switch::SwitchAccount;
use crate::switch::SwitchError;
use crate::switch::SwitchState;
use crate::switch::CheckIn;
use crate::switch::CreateSwitch;
use crate::switch::DepositFunds;
use crate::switch::ExecuteTransfer;
use crate::switch::CancelSwitch;
use crate::switch::check_in_result;
use crate::switch::create_switch_result;
use crate::switch::deposit_funds_result;
use crate::switch::execute_transfer_result;
use crate::switch::cancel_switch_result;
use crate::timer::ErrorCode;
use crate::timer::Initialize;
use crate::timer::ResetTimer;
use crate::timer::TriggerPayout;
use crate::timer::initialize_result;
use crate::timer::reset_timer_result;
use crate::timer::trigger_payout_result;

verus! {

/// A creation succeeds only with a deadline strictly after the time
/// observed, and with any other deadline it fails with `InvalidDeadline`,
/// whatever the addresses are. The switch it gives is active and carries
/// that deadline.
pub proof fn law_create_needs_future_deadline(
    ctx: Context<CreateSwitch>,
    deadline: i64,
    beneficiary: Identity,
    seed: String,
    switch_pda: Option<(Seq<u8>, u8)>,
    escrow_pda: Option<(Seq<u8>, u8)>,
)
    ensures
        deadline <= ctx.now ==> create_switch_result(
            ctx,
            deadline,
            beneficiary,
            seed,
            switch_pda,
            escrow_pda,
        ) == Err::<SwitchAccount, SwitchError>(SwitchError::InvalidDeadline),
        create_switch_result(ctx, deadline, beneficiary, seed, switch_pda, escrow_pda) matches Ok(
            switch,
        ) ==> {
            &&& deadline > ctx.now
            &&& switch.data.deadline == deadline
            &&& switch.data.active()
            &&& switch.data.owner == ctx.accounts.owner
            &&& switch.data.beneficiary == beneficiary
        },
{
}

/// A check-in succeeds only with a new deadline strictly after the time
/// observed, and with any other it fails: with `InvalidDeadline` where the
/// caller is the owner and the switch is active and not yet due. After a
/// success the deadline on the record is the new one, still in the future.
pub proof fn law_check_in_needs_future_deadline(ctx: Context<CheckIn>, new_deadline: i64)
    ensures
        new_deadline <= ctx.now ==> check_in_result(ctx, new_deadline) is Err,
        new_deadline <= ctx.now && ctx.accounts.owner == ctx.accounts.switch.data.owner
            && ctx.accounts.switch.data.active() && ctx.now < ctx.accounts.switch.data.deadline
            ==> check_in_result(ctx, new_deadline) == Err::<Context<CheckIn>, SwitchError>(
            SwitchError::InvalidDeadline,
        ),
        check_in_result(ctx, new_deadline) matches Ok(after) ==> {
            &&& new_deadline > ctx.now
            &&& after.accounts.switch.data.deadline == new_deadline
            &&& after.accounts.switch.data.deadline > after.now
            &&& after.accounts.switch.data.last_activity == ctx.now
        },
{
}

/// At any time exactly one of the two windows is open: a check-in on a
/// switch fails as too late exactly when a claim on it does not fail as too
/// early. Here the caller of the check-in is the owner, the switch is
/// active, and the claim names the switch's addresses and its beneficiary,
/// so that only the time decides.
pub proof fn law_windows_partition_time(
    check: Context<CheckIn>,
    new_deadline: i64,
    claim: Context<ExecuteTransfer>,
    switch_pda: Option<Seq<u8>>,
    escrow_pda: Option<Seq<u8>>,
)
    requires
        check.accounts.switch == claim.accounts.switch,
        check.now == claim.now,
        check.accounts.switch.data.active(),
        check.accounts.owner == check.accounts.switch.data.owner,
        switch_pda == Some(claim.accounts.switch.key@),
        escrow_pda == Some(claim.accounts.escrow.key@),
        claim.accounts.beneficiary.key == claim.accounts.switch.data.beneficiary,
    ensures
        (check_in_result(check, new_deadline) == Err::<Context<CheckIn>, SwitchError>(
            SwitchError::DeadlineReached,
        )) <==> execute_transfer_result(claim, switch_pda, escrow_pda) is Ok,
        (execute_transfer_result(claim, switch_pda, escrow_pda) == Err::<
            Context<ExecuteTransfer>,
            SwitchError,
        >(SwitchError::DeadlineNotReached)) <==> !(check_in_result(check, new_deadline) == Err::<
            Context<CheckIn>,
            SwitchError,
        >(SwitchError::DeadlineReached)),
{
}

/// Whatever else is given, a check-in and a claim on one switch at one time
/// are never refused for the time both: where the check-in is too late the
/// claim is not too early, and where the claim is too early the check-in is
/// not too late.
pub proof fn law_windows_never_both_closed(
    check: Context<CheckIn>,
    new_deadline: i64,
    claim: Context<ExecuteTransfer>,
    switch_pda: Option<Seq<u8>>,
    escrow_pda: Option<Seq<u8>>,
)
    requires
        check.accounts.switch == claim.accounts.switch,
        check.now == claim.now,
    ensures
        !(check_in_result(check, new_deadline) == Err::<Context<CheckIn>, SwitchError>(
            SwitchError::DeadlineReached,
        ) && execute_transfer_result(claim, switch_pda, escrow_pda) == Err::<
            Context<ExecuteTransfer>,
            SwitchError,
        >(SwitchError::DeadlineNotReached)),
        !(check_in_result(check, new_deadline) is Ok && execute_transfer_result(
            claim,
            switch_pda,
            escrow_pda,
        ) is Ok),
{
}

/// A deposit keeps the funds of the owner and the escrow together what they
/// were: what leaves the owner is the amount, and it arrives in the escrow.
/// Nothing but the two balances changes.
pub proof fn law_deposit_conserves(
    ctx: Context<DepositFunds>,
    amount: u64,
    escrow_pda: Option<Seq<u8>>,
)
    requires
        total(ctx.accounts.owner, ctx.accounts.escrow) <= u64::MAX,
    ensures
        deposit_funds_result(ctx, amount, escrow_pda) matches Ok(after) ==> {
            &&& amount > 0
            &&& after.accounts.escrow.lamports == ctx.accounts.escrow.lamports + amount
            &&& after.accounts.owner.lamports == ctx.accounts.owner.lamports - amount
            &&& total(after.accounts.owner, after.accounts.escrow) == total(
                ctx.accounts.owner,
                ctx.accounts.escrow,
            )
            &&& after.accounts.switch == ctx.accounts.switch
            &&& after.accounts.owner.key == ctx.accounts.owner.key
            &&& after.accounts.escrow.key == ctx.accounts.escrow.key
        },
{
}

/// A claim leaves the escrow with a balance of exactly zero and raises the
/// beneficiary's balance by exactly what the escrow held.
pub proof fn law_claim_sweeps_all(
    ctx: Context<ExecuteTransfer>,
    switch_pda: Option<Seq<u8>>,
    escrow_pda: Option<Seq<u8>>,
)
    requires
        total(ctx.accounts.escrow, ctx.accounts.beneficiary) <= u64::MAX,
    ensures
        execute_transfer_result(ctx, switch_pda, escrow_pda) matches Ok(after) ==> {
            &&& after.accounts.escrow.lamports == 0
            &&& after.accounts.beneficiary.lamports == ctx.accounts.beneficiary.lamports
                + ctx.accounts.escrow.lamports
            &&& total(after.accounts.escrow, after.accounts.beneficiary) == total(
                ctx.accounts.escrow,
                ctx.accounts.beneficiary,
            )
            &&& after.accounts.switch.data.state == SwitchState::Claimed
        },
{
}

/// A cancellation leaves the escrow with a balance of exactly zero and
/// raises the owner's balance by exactly what the escrow held.
pub proof fn law_cancel_sweeps_all(ctx: Context<CancelSwitch>, escrow_pda: Option<Seq<u8>>)
    requires
        total(ctx.accounts.escrow, ctx.accounts.owner) <= u64::MAX,
    ensures
        cancel_switch_result(ctx, escrow_pda) matches Ok(after) ==> {
            &&& after.accounts.escrow.lamports == 0
            &&& after.accounts.owner.lamports == ctx.accounts.owner.lamports
                + ctx.accounts.escrow.lamports
            &&& total(after.accounts.escrow, after.accounts.owner) == total(
                ctx.accounts.escrow,
                ctx.accounts.owner,
            )
            &&& after.accounts.switch.data.state == SwitchState::Cancelled
        },
{
}

/// A check-in by anyone but the recorded owner fails with `Unauthorized`,
/// in every state of the switch and at every time.
pub proof fn law_check_in_is_the_owners(ctx: Context<CheckIn>, new_deadline: i64)
    requires
        ctx.accounts.owner != ctx.accounts.switch.data.owner,
    ensures
        check_in_result(ctx, new_deadline) == Err::<Context<CheckIn>, SwitchError>(
            SwitchError::Unauthorized,
        ),
{
}

/// A cancellation by anyone but the recorded owner fails with
/// `Unauthorized`, in every state of the switch.
pub proof fn law_cancel_is_the_owners(ctx: Context<CancelSwitch>, escrow_pda: Option<Seq<u8>>)
    requires
        ctx.accounts.owner.key != ctx.accounts.switch.data.owner,
    ensures
        cancel_switch_result(ctx, escrow_pda) == Err::<Context<CancelSwitch>, SwitchError>(
            SwitchError::Unauthorized,
        ),
{
}

/// The owner and the beneficiary on a record never change, and a switch
/// that is not active never becomes active again: whatever a check-in, a
/// deposit, a claim or a cancellation does, the record afterwards names the
/// same owner, beneficiary, seed and bumps, at the same address.
pub proof fn law_record_keeps_its_parties(
    check: Context<CheckIn>,
    new_deadline: i64,
    deposit: Context<DepositFunds>,
    amount: u64,
    claim: Context<ExecuteTransfer>,
    cancel: Context<CancelSwitch>,
    switch_pda: Option<Seq<u8>>,
    escrow_pda: Option<Seq<u8>>,
)
    ensures
        check_in_result(check, new_deadline) matches Ok(after) ==> same_parties(
            check.accounts.switch,
            after.accounts.switch,
        ),
        deposit_funds_result(deposit, amount, escrow_pda) matches Ok(after) ==> same_parties(
            deposit.accounts.switch,
            after.accounts.switch,
        ),
        execute_transfer_result(claim, switch_pda, escrow_pda) matches Ok(after) ==> same_parties(
            claim.accounts.switch,
            after.accounts.switch,
        ),
        cancel_switch_result(cancel, escrow_pda) matches Ok(after) ==> same_parties(
            cancel.accounts.switch,
            after.accounts.switch,
        ),
{
}

/// Two records of one switch: the same address, owner, beneficiary, seed
/// and bumps.
pub open spec fn same_parties(before: SwitchAccount, after: SwitchAccount) -> bool {
    &&& after.key == before.key
    &&& after.data.owner == before.data.owner
    &&& after.data.beneficiary == before.data.beneficiary
    &&& after.data.seed == before.data.seed
    &&& after.data.bump == before.data.bump
    &&& after.data.escrow_bump == before.data.escrow_bump
}

/// Once a switch is claimed or cancelled, every transition on it fails with
/// `SwitchInactive`: a deposit and a claim whoever calls and whatever else
/// is given, a check-in and a cancellation where the caller is the owner
/// (any other caller is refused as unauthorized before the state is looked
/// at).
pub proof fn law_ended_stays_ended(
    switch: SwitchAccount,
    check: Context<CheckIn>,
    new_deadline: i64,
    deposit: Context<DepositFunds>,
    amount: u64,
    claim: Context<ExecuteTransfer>,
    cancel: Context<CancelSwitch>,
    switch_pda: Option<Seq<u8>>,
    escrow_pda: Option<Seq<u8>>,
)
    requires
        !switch.data.active(),
        check.accounts.switch == switch,
        deposit.accounts.switch == switch,
        claim.accounts.switch == switch,
        cancel.accounts.switch == switch,
    ensures
        deposit_funds_result(deposit, amount, escrow_pda) == Err::<
            Context<DepositFunds>,
            SwitchError,
        >(SwitchError::SwitchInactive),
        execute_transfer_result(claim, switch_pda, escrow_pda) == Err::<
            Context<ExecuteTransfer>,
            SwitchError,
        >(SwitchError::SwitchInactive),
        check.accounts.owner == switch.data.owner ==> check_in_result(check, new_deadline) == Err::<
            Context<CheckIn>,
            SwitchError,
        >(SwitchError::SwitchInactive),
        cancel.accounts.owner.key == switch.data.owner ==> cancel_switch_result(cancel, escrow_pda)
            == Err::<Context<CancelSwitch>, SwitchError>(SwitchError::SwitchInactive),
        check_in_result(check, new_deadline) is Err,
        cancel_switch_result(cancel, escrow_pda) is Err,
{
}

/// A claim and a cancellation that succeed end the switch; a check-in and a
/// deposit that succeed leave it active.
pub proof fn law_claim_and_cancel_end(
    check: Context<CheckIn>,
    new_deadline: i64,
    deposit: Context<DepositFunds>,
    amount: u64,
    claim: Context<ExecuteTransfer>,
    cancel: Context<CancelSwitch>,
    switch_pda: Option<Seq<u8>>,
    escrow_pda: Option<Seq<u8>>,
)
    ensures
        execute_transfer_result(claim, switch_pda, escrow_pda) matches Ok(after)
            ==> !after.accounts.switch.data.active(),
        cancel_switch_result(cancel, escrow_pda) matches Ok(after)
            ==> !after.accounts.switch.data.active(),
        check_in_result(check, new_deadline) matches Ok(after)
            ==> after.accounts.switch.data.active(),
        deposit_funds_result(deposit, amount, escrow_pda) matches Ok(after)
            ==> after.accounts.switch.data.active(),
{
}

/// The address of a switch and the address of its escrow are functions of
/// what they are derived from: the same owner, seed and program give the
/// same address and bump.
pub proof fn law_derivation_is_a_function(
    owner_a: Identity,
    seed_a: Seq<char>,
    program_a: Identity,
    owner_b: Identity,
    seed_b: Seq<char>,
    program_b: Identity,
)
    requires
        owner_a == owner_b,
        seed_a == seed_b,
        program_a == program_b,
    ensures
        switch_address(owner_a, seed_a, program_a) == switch_address(owner_b, seed_b, program_b),
        escrow_address(owner_a, program_a) == escrow_address(owner_b, program_b),
{
}

/// A record whose bumps give its own address and its escrow's is never
/// refused for an address: a deposit and a cancellation that name that
/// escrow, and a claim that names it and the recorded owner, do not fail
/// with `AddressMismatch`, and after each of them the bumps still give the
/// addresses. A creation gives such a record.
pub proof fn law_addresses_keep_holding(
    deposit: Context<DepositFunds>,
    amount: u64,
    claim: Context<ExecuteTransfer>,
    cancel: Context<CancelSwitch>,
)
    requires
        addresses_hold(deposit.accounts.switch, deposit.accounts.escrow.key, deposit.program_id),
        addresses_hold(claim.accounts.switch, claim.accounts.escrow.key, claim.program_id),
        addresses_hold(cancel.accounts.switch, cancel.accounts.escrow.key, cancel.program_id),
        claim.accounts.owner == claim.accounts.switch.data.owner,
    ensures
        match deposit_funds_result(
            deposit,
            amount,
            escrow_address_at(
                deposit.accounts.switch.key,
                deposit.accounts.switch.data.escrow_bump,
                deposit.program_id,
            ),
        ) {
            Ok(after) => addresses_hold(
                after.accounts.switch,
                after.accounts.escrow.key,
                after.program_id,
            ),
            Err(e) => e != SwitchError::AddressMismatch,
        },
        match execute_transfer_result(
            claim,
            switch_address_at(
                claim.accounts.owner,
                claim.accounts.switch.data.seed@,
                claim.accounts.switch.data.bump,
                claim.program_id,
            ),
            escrow_address_at(
                claim.accounts.switch.key,
                claim.accounts.switch.data.escrow_bump,
                claim.program_id,
            ),
        ) {
            Ok(after) => addresses_hold(
                after.accounts.switch,
                after.accounts.escrow.key,
                after.program_id,
            ),
            Err(e) => e != SwitchError::AddressMismatch,
        },
        match cancel_switch_result(
            cancel,
            escrow_address_at(
                cancel.accounts.switch.key,
                cancel.accounts.switch.data.escrow_bump,
                cancel.program_id,
            ),
        ) {
            Ok(after) => addresses_hold(
                after.accounts.switch,
                after.accounts.escrow.key,
                after.program_id,
            ),
            Err(e) => e != SwitchError::AddressMismatch,
        },
{
}

/// A check-in keeps the bumps of a record giving its addresses.
pub proof fn law_check_in_keeps_addresses(
    ctx: Context<CheckIn>,
    new_deadline: i64,
    escrow: Identity,
)
    requires
        addresses_hold(ctx.accounts.switch, escrow, ctx.program_id),
    ensures
        check_in_result(ctx, new_deadline) matches Ok(after) ==> addresses_hold(
            after.accounts.switch,
            escrow,
            after.program_id,
        ),
{
}

/// With a timer, a creation succeeds only with a positive duration, and the
/// deadline of the switch it gives is strictly after the time observed.
pub proof fn law_initialize_needs_future_deadline(ctx: Context<Initialize>, timer_duration: i64)
    ensures
        timer_duration <= 0 ==> initialize_result(ctx, timer_duration) == Err::<
            crate::timer::DeadMansSwitch,
            ErrorCode,
        >(ErrorCode::InvalidDeadline),
        initialize_result(ctx, timer_duration) matches Ok(switch) ==> {
            &&& switch.deadline() > ctx.now
            &&& switch.is_active
            &&& switch.owner == ctx.accounts.owner
        },
{
}

/// With a timer, after a check-in that succeeds the deadline is strictly
/// after the time observed, and the owner and the duration are unchanged.
pub proof fn law_reset_timer_sets_future_deadline(ctx: Context<ResetTimer>)
    ensures
        reset_timer_result(ctx) matches Ok(after) ==> {
            &&& after.accounts.switch.deadline() > ctx.now
            &&& after.accounts.switch.last_activity == ctx.now
            &&& after.accounts.switch.owner == ctx.accounts.switch.owner
            &&& after.accounts.switch.timer_duration == ctx.accounts.switch.timer_duration
            &&& after.accounts.switch.is_active
        },
{
}

/// With a timer, a check-in by anyone but the recorded owner fails with
/// `Unauthorized` in every state, and the two windows partition time: for
/// the owner of an active switch the check-in is too late exactly when a
/// payout is due.
pub proof fn law_timer_guards(reset: Context<ResetTimer>, payout: Context<TriggerPayout>)
    requires
        reset.accounts.switch == payout.accounts.switch,
        reset.now == payout.now,
    ensures
        reset.accounts.owner != reset.accounts.switch.owner ==> reset_timer_result(reset) == Err::<
            Context<ResetTimer>,
            ErrorCode,
        >(ErrorCode::Unauthorized),
        reset.accounts.owner == reset.accounts.switch.owner && reset.accounts.switch.is_active ==> (
        (reset_timer_result(reset) == Err::<Context<ResetTimer>, ErrorCode>(
            ErrorCode::DeadlineReached,
        )) <==> trigger_payout_result(payout) is Ok),
        !(reset_timer_result(reset) is Ok && trigger_payout_result(payout) is Ok),
{
}

/// With a timer, once a switch has paid out every transition on it fails
/// with `SwitchInactive`: a payout whoever calls, a check-in where the
/// caller is the owner.
pub proof fn law_timer_ended_stays_ended(reset: Context<ResetTimer>, payout: Context<TriggerPayout>)
    requires
        reset.accounts.switch == payout.accounts.switch,
        !reset.accounts.switch.is_active,
    ensures
        trigger_payout_result(payout) == Err::<Context<TriggerPayout>, ErrorCode>(
            ErrorCode::SwitchInactive,
        ),
        reset.accounts.owner == reset.accounts.switch.owner ==> reset_timer_result(reset) == Err::<
            Context<ResetTimer>,
            ErrorCode,
        >(ErrorCode::SwitchInactive),
        reset_timer_result(reset) is Err,
{
}

} // verus!
