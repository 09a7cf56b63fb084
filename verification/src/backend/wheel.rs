//! High-resolution wheel filtering: small movements are held back until the
//! wheel has clearly been turned.
use vstd::prelude::*;
use crate::clock::{passed, passed_spec, MILLISECOND};

verus! {

pub const WHEEL_TIMEOUT: u64 = 500 * MILLISECOND;

/// The largest movement that one frame can add up to.
pub const FRAME_LIMIT: i64 = 0x0080_0000_0000_0000;

#[derive(Clone, Copy, Debug, PartialEq, Eq, Structural)]
pub enum WheelPhase {
    Idle,
    Accumulating,
    Scrolling,
}

/// What a wheel was last seen turning: which axis, and which way.
#[derive(Clone, Copy, Debug, PartialEq, Eq, Structural)]
pub enum WheelDirection {
    Unknown,
    Up,
    Down,
    Right,
    Left,
}

#[derive(Clone, Copy, Debug, PartialEq, Eq, Structural)]
pub struct WheelState {
    pub supports_hi_res_vertical: bool,
    pub supports_hi_res_horizontal: bool,
    pub warned_missing_hi_res_vertical: bool,
    pub warned_missing_hi_res_horizontal: bool,
    pub is_virtual: bool,
    pub phase: WheelPhase,
    pub min_movement: i64,
    pub accum_vertical: i64,
    pub accum_horizontal: i64,
    pub direction: WheelDirection,
    pub last_emit: Option<u64>,
}

pub open spec fn abs_spec(x: int) -> int {
    if x < 0 {
        -x
    } else {
        x
    }
}

/// The direction of a movement of `value` on `axis` (0 is vertical).
pub open spec fn direction_spec(axis: u32, value: int) -> WheelDirection {
    if axis == 0 {
        if value > 0 {
            WheelDirection::Up
        } else {
            WheelDirection::Down
        }
    } else if axis == 1 {
        if value > 0 {
            WheelDirection::Right
        } else {
            WheelDirection::Left
        }
    } else {
        WheelDirection::Unknown
    }
}

impl WheelState {
    /// The accumulators never outgrow the smallest movement seen.
    pub open spec fn wf(self) -> bool {
        &&& 0 <= self.min_movement <= 47
        &&& -47 <= self.accum_vertical <= 47
        &&& -47 <= self.accum_horizontal <= 47
    }

    pub open spec fn accum(self, axis: u32) -> i64 {
        if axis == 0 {
            self.accum_vertical
        } else {
            self.accum_horizontal
        }
    }

    pub open spec fn with_accum(self, axis: u32, value: i64) -> WheelState {
        if axis == 0 {
            WheelState { accum_vertical: value, ..self }
        } else {
            WheelState { accum_horizontal: value, ..self }
        }
    }

    /// The wheel back at rest, nothing accumulated.
    pub open spec fn rested(self) -> WheelState {
        WheelState { phase: WheelPhase::Idle, accum_vertical: 0, accum_horizontal: 0, ..self }
    }

    /// A wheel that has been still for long starts over.
    pub open spec fn after_pause(self, now: u64) -> WheelState {
        if passed_spec(now, self.last_emit, WHEEL_TIMEOUT) {
            WheelState { last_emit: None, ..self.rested() }
        } else {
            self
        }
    }

    /// The smallest movement seen, this one included.
    pub open spec fn measured(self, value: i64) -> WheelState {
        WheelState {
            min_movement: if abs_spec(value as int) < self.min_movement {
                abs_spec(value as int) as i64
            } else {
                self.min_movement
            },
            ..self
        }
    }

    /// A change of direction starts over.
    pub open spec fn turned(self, axis: u32, value: i64) -> WheelState {
        if direction_spec(axis, value as int) != self.direction {
            WheelState { direction: direction_spec(axis, value as int), ..self.rested() }
        } else {
            self
        }
    }

    pub open spec fn scrolling(self, now: u64) -> WheelState {
        WheelState { phase: WheelPhase::Scrolling, last_emit: Some(now), ..self }
    }

    /// What the filter does with one movement: the new state, and the amount
    /// to report, if any.
    pub open spec fn filtered(self, axis: u32, value: i64, now: u64) -> (WheelState, Option<i64>) {
        if value == 0 {
            (self, None)
        } else if self.is_virtual {
            (self, Some(value))
        } else {
            let w = self.after_pause(now).measured(value).turned(axis, value);
            if w.min_movement >= 30 || w.phase == WheelPhase::Scrolling {
                (w.scrolling(now), Some(value))
            } else {
                let total = w.accum(axis) + value;
                if abs_spec(total) > w.min_movement {
                    (w.with_accum(axis, 0).scrolling(now), Some(total as i64))
                } else {
                    (
                        WheelState {
                            phase: WheelPhase::Accumulating,
                            ..w.with_accum(axis, total as i64)
                        },
                        None,
                    )
                }
            }
        }
    }

    /// A wheel that has not turned yet.
    pub open spec fn start_spec(
        supports_hi_res_vertical: bool,
        supports_hi_res_horizontal: bool,
    ) -> WheelState {
        WheelState {
            supports_hi_res_vertical,
            supports_hi_res_horizontal,
            warned_missing_hi_res_vertical: false,
            warned_missing_hi_res_horizontal: false,
            is_virtual: false,
            phase: WheelPhase::Idle,
            min_movement: 47,
            accum_vertical: 0,
            accum_horizontal: 0,
            direction: WheelDirection::Unknown,
            last_emit: None,
        }
    }

    pub fn new(supports_hi_res_vertical: bool, supports_hi_res_horizontal: bool) -> (w: WheelState)
        ensures
            w.wf(),
            w == WheelState::start_spec(supports_hi_res_vertical, supports_hi_res_horizontal),
    {
        WheelState {
            supports_hi_res_vertical,
            supports_hi_res_horizontal,
            warned_missing_hi_res_vertical: false,
            warned_missing_hi_res_horizontal: false,
            is_virtual: false,
            phase: WheelPhase::Idle,
            min_movement: 47,
            accum_vertical: 0,
            accum_horizontal: 0,
            direction: WheelDirection::Unknown,
            last_emit: None,
        }
    }

    /// Filters one high-resolution movement and gives back the amount to
    /// report. Wheels whose steps are coarse report at once; fine-grained
    /// wheels report once their movements add up to more than the smallest
    /// step seen.
    pub fn filter_hi_res_wheel(&mut self, axis: u32, value: i64, now: u64) -> (amount: Option<i64>)
        requires
            old(self).wf(),
            -FRAME_LIMIT <= value <= FRAME_LIMIT,
        ensures
            final(self).wf(),
            *final(self) == old(self).filtered(axis, value, now).0,
            amount == old(self).filtered(axis, value, now).1,
            amount matches Some(a) ==> -FRAME_LIMIT - 47 <= a <= FRAME_LIMIT + 47,
    {
        if value == 0 {
            return None;
        }
        if self.is_virtual {
            return Some(value);
        }
        let w = self.paused(now).narrowed(value).redirected(axis, value);
        if w.min_movement >= 30 || w.phase == WheelPhase::Scrolling {
            *self = WheelState { phase: WheelPhase::Scrolling, last_emit: Some(now), ..w };
            return Some(value);
        }
        let total: i64 = if axis == 0 {
            w.accum_vertical + value
        } else {
            w.accum_horizontal + value
        };
        let size: i64 = if total < 0 {
            -total
        } else {
            total
        };
        if size > w.min_movement {
            let spent = w.accumulated(axis, 0);
            *self = WheelState { phase: WheelPhase::Scrolling, last_emit: Some(now), ..spent };
            Some(total)
        } else {
            let kept = w.accumulated(axis, total);
            *self = WheelState { phase: WheelPhase::Accumulating, ..kept };
            None
        }
    }

    fn paused(self, now: u64) -> (w: WheelState)
        requires
            self.wf(),
        ensures
            w.wf(),
            w == self.after_pause(now),
    {
        if passed(now, self.last_emit, WHEEL_TIMEOUT) {
            WheelState {
                phase: WheelPhase::Idle,
                accum_vertical: 0,
                accum_horizontal: 0,
                last_emit: None,
                ..self
            }
        } else {
            self
        }
    }

    fn narrowed(self, value: i64) -> (w: WheelState)
        requires
            self.wf(),
            -FRAME_LIMIT <= value <= FRAME_LIMIT,
        ensures
            w.wf(),
            w == self.measured(value),
    {
        let magnitude: i64 = if value < 0 {
            -value
        } else {
            value
        };
        if magnitude < self.min_movement {
            WheelState { min_movement: magnitude, ..self }
        } else {
            self
        }
    }

    fn redirected(self, axis: u32, value: i64) -> (w: WheelState)
        requires
            self.wf(),
        ensures
            w.wf(),
            w == self.turned(axis, value),
    {
        let direction = direction_of(axis, value);
        if direction != self.direction {
            WheelState {
                direction,
                phase: WheelPhase::Idle,
                accum_vertical: 0,
                accum_horizontal: 0,
                ..self
            }
        } else {
            self
        }
    }

    fn accumulated(self, axis: u32, value: i64) -> (w: WheelState)
        ensures
            w == self.with_accum(axis, value),
    {
        if axis == 0 {
            WheelState { accum_vertical: value, ..self }
        } else {
            WheelState { accum_horizontal: value, ..self }
        }
    }
}

fn direction_of(axis: u32, value: i64) -> (direction: WheelDirection)
    ensures
        direction == direction_spec(axis, value as int),
{
    if axis == 0 {
        if value > 0 {
            WheelDirection::Up
        } else {
            WheelDirection::Down
        }
    } else if axis == 1 {
        if value > 0 {
            WheelDirection::Right
        } else {
            WheelDirection::Left
        }
    } else {
        WheelDirection::Unknown
    }
}

/// Movement is neither lost nor made up: while a wheel goes on turning the
/// same way, what is reported and what is kept back add up to what came in.
pub proof fn law_movement_is_reported_or_kept(w: WheelState, axis: u32, value: i64, now: u64)
    requires
        w.wf(),
        -FRAME_LIMIT <= value <= FRAME_LIMIT,
        !passed_spec(now, w.last_emit, WHEEL_TIMEOUT),
        direction_spec(axis, value as int) == w.direction,
    ensures
        ({
            let (after, amount) = w.filtered(axis, value, now);
            let reported = match amount {
                Some(a) => a as int,
                None => 0,
            };
            reported + after.accum(axis) == w.accum(axis) + value
        }),
{
}

/// What is kept back is never more than the smallest movement seen.
pub proof fn law_little_is_kept_back(w: WheelState, axis: u32, value: i64, now: u64)
    requires
        w.wf(),
        -FRAME_LIMIT <= value <= FRAME_LIMIT,
        w.filtered(axis, value, now).1 is None,
        value != 0,
    ensures
        abs_spec(w.filtered(axis, value, now).0.accum(axis) as int) <= w.filtered(
            axis,
            value,
            now,
        ).0.min_movement,
{
}

} // verus!
