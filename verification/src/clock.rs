//! Time as the library sees it: nanoseconds of a monotonic clock that the
//! caller reads.
use vstd::prelude::*;

verus! {

pub const MILLISECOND: u64 = 1_000_000;

pub const SECOND: u64 = 1_000_000_000;

/// How long ago `since` was; a moment that is still to come counts as now.
pub open spec fn elapsed_spec(now: u64, since: u64) -> int {
    if now >= since {
        now - since
    } else {
        0
    }
}

pub fn elapsed(now: u64, since: u64) -> (span: u64)
    ensures
        span == elapsed_spec(now, since),
{
    if now >= since {
        now - since
    } else {
        0
    }
}

/// Whether a recorded moment lies at least `span` back.
pub open spec fn passed_spec(now: u64, since: Option<u64>, span: u64) -> bool {
    since is Some && elapsed_spec(now, since->0) >= span
}

pub fn passed(now: u64, since: Option<u64>, span: u64) -> (over: bool)
    ensures
        over == passed_spec(now, since, span),
{
    match since {
        Some(moment) => elapsed(now, moment) >= span,
        None => false,
    }
}

/// Whether a recorded moment lies less than `span` back.
pub open spec fn within_spec(now: u64, since: Option<u64>, span: u64) -> bool {
    since is Some && elapsed_spec(now, since->0) < span
}

pub fn within(now: u64, since: Option<u64>, span: u64) -> (recent: bool)
    ensures
        recent == within_spec(now, since, span),
{
    match since {
        Some(moment) => elapsed(now, moment) < span,
        None => false,
    }
}

/// The moment that lies `span` ahead, or the end of time.
pub open spec fn later_spec(now: u64, span: u64) -> u64 {
    if now + span <= u64::MAX {
        (now + span) as u64
    } else {
        u64::MAX
    }
}

pub fn later(now: u64, span: u64) -> (moment: u64)
    ensures
        moment == later_spec(now, span),
{
    if span <= u64::MAX - now {
        now + span
    } else {
        u64::MAX
    }
}

/// A kernel time stamp in microseconds since the epoch, from whole seconds
/// and microseconds. Moments before the epoch count as the epoch itself.
pub fn systime_to_usec(seconds: i64, microseconds: u32) -> (usec: u64)
    requires
        microseconds < 1_000_000,
    ensures
        seconds < 0 ==> usec == 0,
        0 <= seconds && seconds * 1_000_000 + microseconds <= u64::MAX ==> usec == seconds * 1_000_000
            + microseconds,
        0 <= seconds ==> usec == (seconds * 1_000_000 + microseconds) % 0x1_0000_0000_0000_0000,
{
    if seconds < 0 {
        return 0;
    }
    let wide: u128 = (seconds as u128) * 1_000_000 + (microseconds as u128);
    let low: u128 = wide % 0x1_0000_0000_0000_0000;
    low as u64
}

/// A timer's setting: whole seconds, and nanoseconds. Both are 0 for a timer
/// that never fires.
#[derive(Clone, Copy, Debug, PartialEq, Eq, Structural)]
pub struct TimerSetting {
    pub seconds: u64,
    pub nanos: u64,
}

pub open spec fn timer_setting_spec(left: Option<u64>) -> TimerSetting {
    match left {
        None => TimerSetting { seconds: 0, nanos: 0 },
        Some(left) => TimerSetting {
            seconds: left / SECOND,
            nanos: if left % SECOND == 0 {
                1
            } else {
                left % SECOND
            },
        },
    }
}

/// Sets a timer to fire when the time that is left has passed, if there is
/// anything to wait for. A timer that is due at once fires as soon as it can.
pub fn timer_setting(left: Option<u64>) -> (setting: TimerSetting)
    ensures
        setting == timer_setting_spec(left),
{
    match left {
        None => TimerSetting { seconds: 0, nanos: 0 },
        Some(left) => TimerSetting {
            seconds: left / SECOND,
            nanos: if left % SECOND == 0 {
                1
            } else {
                left % SECOND
            },
        },
    }
}

/// A timer with something to wait for does fire: never before its time, and
/// hardly after it.
pub proof fn law_timers_fire(left: u64)
    ensures
        ({
            let setting = timer_setting_spec(Some(left));
            let fires = setting.seconds * SECOND + setting.nanos;
            &&& setting.nanos > 0
            &&& left <= fires <= left + 1
            &&& setting.nanos < SECOND
        }),
{
    assert(left == (left / SECOND) * SECOND + left % SECOND) by (nonlinear_arith)
        requires
            SECOND == 1_000_000_000u64,
    ;
}

} // verus!
