//! The switch with a timer: one switch, no escrow. The owner sets a
//! duration; the deadline is the duration after the last activity, and each
//! check-in moves it by recording the time.

use vstd::prelude::*;
use crate::identity::Identity;
use crate::context::Context;
use crate::context::outcome;

verus! {

/// Why a transition was refused.
#[derive(Clone, Copy, Debug, PartialEq, Eq, Structural)]
pub enum ErrorCode {
    /// The switch has paid out.
    SwitchInactive,
    /// The caller is not the recorded owner.
    Unauthorized,
    /// A payout was asked for before the deadline.
    TimerNotExpired,
    /// A check-in came at or after the deadline.
    DeadlineReached,
    /// The duration is not positive, so the deadline would not be strictly
    /// in the future.
    InvalidDeadline,
}

/// The record of one switch.
#[derive(Clone, Copy, Debug, PartialEq, Eq)]
pub struct DeadMansSwitch {
    pub owner: Identity,
    pub last_activity: i64,
    pub timer_duration: i64,
    pub is_active: bool,
}

impl DeadMansSwitch {
    /// The time from which a payout is due.
    pub open spec fn deadline(&self) -> int {
        self.last_activity + self.timer_duration
    }

    /// The deadline has come at `now`.
    pub open spec fn expired(&self, now: i64) -> bool {
        now >= self.deadline()
    }

    /// Tells whether the deadline has come at `now`.
    pub fn is_expired(&self, now: i64) -> (r: bool)
        ensures
            r == self.expired(now),
    {
        let elapsed: i128 = now as i128 - self.last_activity as i128;
        elapsed >= self.timer_duration as i128
    }
}

/// The accounts of a creation: the owner.
#[derive(Clone, Copy, Debug, PartialEq, Eq)]
pub struct Initialize {
    pub owner: Identity,
}

/// The accounts of a check-in: the switch and the caller.
#[derive(Clone, Copy, Debug, PartialEq, Eq)]
pub struct ResetTimer {
    pub switch: DeadMansSwitch,
    pub owner: Identity,
}

/// The accounts of a payout: the switch.
#[derive(Clone, Copy, Debug, PartialEq, Eq)]
pub struct TriggerPayout {
    pub switch: DeadMansSwitch,
}

/// What a creation is to do: it is refused for a duration that is not
/// positive; otherwise it gives an active switch of the owner with that
/// duration, last active now.
pub open spec fn initialize_result(ctx: Context<Initialize>, timer_duration: i64) -> Result<
    DeadMansSwitch,
    ErrorCode,
> {
    if timer_duration <= 0 {
        Err(ErrorCode::InvalidDeadline)
    } else {
        Ok(
            DeadMansSwitch {
                owner: ctx.accounts.owner,
                last_activity: ctx.now,
                timer_duration,
                is_active: true,
            },
        )
    }
}

/// Creates a switch of the owner whose deadline is `timer_duration` after
/// the last activity.
pub fn initialize(ctx: &Context<Initialize>, timer_duration: i64) -> (r: Result<
    DeadMansSwitch,
    ErrorCode,
>)
    ensures
        r == initialize_result(*ctx, timer_duration),
{
    if timer_duration <= 0 {
        return Err(ErrorCode::InvalidDeadline);
    }
    Ok(
        DeadMansSwitch {
            owner: ctx.accounts.owner,
            last_activity: ctx.now,
            timer_duration,
            is_active: true,
        },
    )
}

/// What a check-in is to do: it is refused for a caller who is not the
/// owner, then for a switch that is not active, then at or after the
/// deadline, then for a duration that is not positive; otherwise the time
/// is recorded as the last activity.
pub open spec fn reset_timer_result(ctx: Context<ResetTimer>) -> Result<
    Context<ResetTimer>,
    ErrorCode,
> {
    let switch = ctx.accounts.switch;
    if switch.owner != ctx.accounts.owner {
        Err(ErrorCode::Unauthorized)
    } else if !switch.is_active {
        Err(ErrorCode::SwitchInactive)
    } else if switch.expired(ctx.now) {
        Err(ErrorCode::DeadlineReached)
    } else if switch.timer_duration <= 0 {
        Err(ErrorCode::InvalidDeadline)
    } else {
        Ok(
            Context {
                accounts: ResetTimer {
                    switch: DeadMansSwitch { last_activity: ctx.now, ..switch },
                    ..ctx.accounts
                },
                ..ctx
            },
        )
    }
}

/// The owner shows presence: the timer starts again from now.
pub fn reset_timer(ctx: &mut Context<ResetTimer>) -> (r: Result<(), ErrorCode>)
    ensures
        outcome(*old(ctx), *final(ctx), r, reset_timer_result(*old(ctx))),
{
    if ctx.accounts.switch.owner != ctx.accounts.owner {
        return Err(ErrorCode::Unauthorized);
    }
    if !ctx.accounts.switch.is_active {
        return Err(ErrorCode::SwitchInactive);
    }
    if ctx.accounts.switch.is_expired(ctx.now) {
        return Err(ErrorCode::DeadlineReached);
    }
    if ctx.accounts.switch.timer_duration <= 0 {
        return Err(ErrorCode::InvalidDeadline);
    }
    ctx.accounts.switch.last_activity = ctx.now;
    Ok(())
}

/// What a payout is to do: it is refused for a switch that is not active,
/// then before the deadline; otherwise the switch ends.
pub open spec fn trigger_payout_result(ctx: Context<TriggerPayout>) -> Result<
    Context<TriggerPayout>,
    ErrorCode,
> {
    let switch = ctx.accounts.switch;
    if !switch.is_active {
        Err(ErrorCode::SwitchInactive)
    } else if !switch.expired(ctx.now) {
        Err(ErrorCode::TimerNotExpired)
    } else {
        Ok(
            Context {
                accounts: TriggerPayout { switch: DeadMansSwitch { is_active: false, ..switch } },
                ..ctx
            },
        )
    }
}

/// Once the deadline has come, ends the switch.
pub fn trigger_payout(ctx: &mut Context<TriggerPayout>) -> (r: Result<(), ErrorCode>)
    ensures
        outcome(*old(ctx), *final(ctx), r, trigger_payout_result(*old(ctx))),
{
    if !ctx.accounts.switch.is_active {
        return Err(ErrorCode::SwitchInactive);
    }
    if !ctx.accounts.switch.is_expired(ctx.now) {
        return Err(ErrorCode::TimerNotExpired);
    }
    ctx.accounts.switch.is_active = false;
    Ok(())
}

} // verus!
