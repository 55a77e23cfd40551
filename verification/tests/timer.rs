use dead_mans_switch::context::Context;
use dead_mans_switch::identity::Identity;
use dead_mans_switch::timer::{
    initialize, reset_timer, trigger_payout, DeadMansSwitch, ErrorCode, Initialize, ResetTimer,
    TriggerPayout,
};

const T0: i64 = 1_700_000_000;

fn id(byte: u8) -> Identity {
    Identity::new([byte; 32])
}

fn at<T>(accounts: T, now: i64) -> Context<T> {
    Context { program_id: id(7), accounts, now }
}

fn started() -> DeadMansSwitch {
    initialize(&at(Initialize { owner: id(1) }, T0), 1000).expect("a switch")
}

#[test]
fn initialize_records_owner_time_and_duration() {
    assert_eq!(
        started(),
        DeadMansSwitch { owner: id(1), last_activity: T0, timer_duration: 1000, is_active: true }
    );
}

#[test]
fn initialize_refuses_a_duration_that_is_not_positive() {
    let ctx = at(Initialize { owner: id(1) }, T0);
    assert_eq!(initialize(&ctx, 0), Err(ErrorCode::InvalidDeadline));
    assert_eq!(initialize(&ctx, -1), Err(ErrorCode::InvalidDeadline));
    assert_eq!(initialize(&ctx, i64::MIN), Err(ErrorCode::InvalidDeadline));
    assert!(initialize(&ctx, 1).is_ok());
    assert!(initialize(&ctx, i64::MAX).is_ok());
}

#[test]
fn is_expired_from_the_deadline_on() {
    let switch = started();
    assert!(!switch.is_expired(T0));
    assert!(!switch.is_expired(T0 + 999));
    assert!(switch.is_expired(T0 + 1000));
    assert!(switch.is_expired(T0 + 1001));
    assert!(switch.is_expired(i64::MAX));
    assert!(!switch.is_expired(i64::MIN));
}

#[test]
fn is_expired_does_not_overflow() {
    let late = DeadMansSwitch {
        owner: id(1),
        last_activity: i64::MAX,
        timer_duration: i64::MAX,
        is_active: true,
    };
    assert!(!late.is_expired(i64::MAX));
    assert!(!late.is_expired(i64::MIN));
    let early = DeadMansSwitch {
        owner: id(1),
        last_activity: i64::MIN,
        timer_duration: 1,
        is_active: true,
    };
    assert!(early.is_expired(i64::MAX));
    assert!(early.is_expired(i64::MIN + 1));
    assert!(!early.is_expired(i64::MIN));
    let back = DeadMansSwitch {
        owner: id(1),
        last_activity: 0,
        timer_duration: i64::MIN,
        is_active: true,
    };
    assert!(back.is_expired(i64::MIN));
    let far = DeadMansSwitch {
        owner: id(1),
        last_activity: -2,
        timer_duration: i64::MAX,
        is_active: true,
    };
    assert!(!far.is_expired(i64::MAX - 3));
    assert!(far.is_expired(i64::MAX - 2));
}

#[test]
fn reset_timer_records_the_time() {
    let mut ctx = at(ResetTimer { switch: started(), owner: id(1) }, T0 + 999);
    assert_eq!(reset_timer(&mut ctx), Ok(()));
    assert_eq!(
        ctx.accounts.switch,
        DeadMansSwitch {
            owner: id(1),
            last_activity: T0 + 999,
            timer_duration: 1000,
            is_active: true
        }
    );
    assert!(!ctx.accounts.switch.is_expired(T0 + 1998));
    assert!(ctx.accounts.switch.is_expired(T0 + 1999));
}

#[test]
fn reset_timer_refusals_in_order() {
    let mut ended = started();
    ended.is_active = false;
    let mut ctx = at(ResetTimer { switch: ended, owner: id(2) }, T0 + 5000);
    let before = ctx.clone();
    assert_eq!(reset_timer(&mut ctx), Err(ErrorCode::Unauthorized));
    assert_eq!(ctx, before);

    let mut ctx = at(ResetTimer { switch: ended, owner: id(1) }, T0 + 5000);
    let before = ctx.clone();
    assert_eq!(reset_timer(&mut ctx), Err(ErrorCode::SwitchInactive));
    assert_eq!(ctx, before);

    let mut ctx = at(ResetTimer { switch: started(), owner: id(1) }, T0 + 1000);
    let before = ctx.clone();
    assert_eq!(reset_timer(&mut ctx), Err(ErrorCode::DeadlineReached));
    assert_eq!(ctx, before);

    let odd = DeadMansSwitch { owner: id(1), last_activity: T0, timer_duration: 0, is_active: true };
    let mut ctx = at(ResetTimer { switch: odd, owner: id(1) }, T0 - 1);
    let before = ctx.clone();
    assert_eq!(reset_timer(&mut ctx), Err(ErrorCode::InvalidDeadline));
    assert_eq!(ctx, before);
}

#[test]
fn trigger_payout_ends_the_switch_from_the_deadline_on() {
    let mut ctx = at(TriggerPayout { switch: started() }, T0 + 999);
    let before = ctx.clone();
    assert_eq!(trigger_payout(&mut ctx), Err(ErrorCode::TimerNotExpired));
    assert_eq!(ctx, before);
    ctx.now = T0 + 1000;
    assert_eq!(trigger_payout(&mut ctx), Ok(()));
    assert_eq!(
        ctx.accounts.switch,
        DeadMansSwitch { owner: id(1), last_activity: T0, timer_duration: 1000, is_active: false }
    );
    let after = ctx.clone();
    assert_eq!(trigger_payout(&mut ctx), Err(ErrorCode::SwitchInactive));
    assert_eq!(ctx, after);
}

#[test]
fn timer_windows_meet_at_the_deadline() {
    for (now, due) in [(T0 + 999, false), (T0 + 1000, true), (T0 + 1001, true)] {
        let mut reset = at(ResetTimer { switch: started(), owner: id(1) }, now);
        let mut payout = at(TriggerPayout { switch: started() }, now);
        let checked = reset_timer(&mut reset);
        let paid = trigger_payout(&mut payout);
        if due {
            assert_eq!(checked, Err(ErrorCode::DeadlineReached));
            assert_eq!(paid, Ok(()));
        } else {
            assert_eq!(checked, Ok(()));
            assert_eq!(paid, Err(ErrorCode::TimerNotExpired));
        }
    }
}

#[test]
fn reset_timer_keeps_a_payout_away() {
    let mut reset = at(ResetTimer { switch: started(), owner: id(1) }, T0 + 900);
    assert_eq!(reset_timer(&mut reset), Ok(()));
    let mut payout = at(TriggerPayout { switch: reset.accounts.switch }, T0 + 1500);
    assert_eq!(trigger_payout(&mut payout), Err(ErrorCode::TimerNotExpired));
    payout.now = T0 + 1900;
    assert_eq!(trigger_payout(&mut payout), Ok(()));
    let mut reset = at(ResetTimer { switch: payout.accounts.switch, owner: id(1) }, T0 + 1901);
    assert_eq!(reset_timer(&mut reset), Err(ErrorCode::SwitchInactive));
}
