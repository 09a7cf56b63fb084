//! What clients are told of a device that does not behave as it announces.
use vstd::prelude::*;
use crate::api::logging::{PRIORITY_ERROR, PRIORITY_INFO};
use crate::backend::live::TrackedDevice;
use crate::backend::tablet::PressureState;

verus! {

/// What a device has been found out about so far.
#[derive(Clone, Copy, Debug, PartialEq, Eq)]
pub struct Concerns {
    pub range_warning_at: Option<u64>,
    pub misses_hi_res_vertical: bool,
    pub misses_hi_res_horizontal: bool,
    pub pressure: PressureState,
}

/// Something that clients are told of.
#[derive(Clone, Copy, Debug, PartialEq, Eq, Structural)]
pub enum Notice {
    /// A position was outside its range.
    OutOfRange,
    /// A wheel that announces fine movement reports only coarse movement.
    MissesHiRes,
    /// A worn tool reports a pressure that is so much above the least one, of
    /// a range that is so wide.
    OffsetFound { above: i64, span: i64 },
    /// A tool reports more pressure than wear can explain.
    OffsetRejected,
}

impl Notice {
    /// How important it is to tell.
    pub open spec fn priority_spec(self) -> u32 {
        match self {
            Notice::OutOfRange => PRIORITY_INFO,
            Notice::OffsetFound { .. } => PRIORITY_INFO,
            Notice::MissesHiRes => PRIORITY_ERROR,
            Notice::OffsetRejected => PRIORITY_ERROR,
        }
    }

    pub fn priority(&self) -> (priority: u32)
        ensures
            priority == self.priority_spec(),
    {
        match self {
            Notice::OutOfRange => PRIORITY_INFO,
            Notice::OffsetFound { .. } => PRIORITY_INFO,
            Notice::MissesHiRes => PRIORITY_ERROR,
            Notice::OffsetRejected => PRIORITY_ERROR,
        }
    }
}

impl TrackedDevice {
    pub open spec fn concerns_spec(self) -> Concerns {
        Concerns {
            range_warning_at: self.touch.motion.range_warning_at,
            misses_hi_res_vertical: self.pointer.wheel.warned_missing_hi_res_vertical,
            misses_hi_res_horizontal: self.pointer.wheel.warned_missing_hi_res_horizontal,
            pressure: self.tablet.pressure,
        }
    }

    pub fn concerns(&self) -> (c: Concerns)
        ensures
            c == self.concerns_spec(),
    {
        Concerns {
            range_warning_at: self.touch.motion.range_warning_at,
            misses_hi_res_vertical: self.pointer.wheel.warned_missing_hi_res_vertical,
            misses_hi_res_horizontal: self.pointer.wheel.warned_missing_hi_res_horizontal,
            pressure: self.tablet.pressure,
        }
    }
}

pub open spec fn one_if(told: bool, notice: Notice) -> Seq<Notice> {
    if told {
        seq![notice]
    } else {
        Seq::empty()
    }
}

impl Concerns {
    pub open spec fn offset_notice(self) -> Notice {
        Notice::OffsetFound {
            above: (self.pressure.offset->0 - self.pressure.minimum()) as i64,
            span: (self.pressure.maximum() - self.pressure.minimum()) as i64,
        }
    }

    /// What clients are told when `later` is known and this was known before:
    /// everything that came to light, once.
    pub open spec fn told(self, later: Concerns) -> Seq<Notice> {
        one_if(
            later.range_warning_at is Some && later.range_warning_at != self.range_warning_at,
            Notice::OutOfRange,
        ) + one_if(
            later.misses_hi_res_vertical && !self.misses_hi_res_vertical,
            Notice::MissesHiRes,
        ) + one_if(
            later.misses_hi_res_horizontal && !self.misses_hi_res_horizontal,
            Notice::MissesHiRes,
        ) + one_if(
            later.pressure.offset is Some && self.pressure.offset is None,
            later.offset_notice(),
        ) + one_if(
            later.pressure.rejected && !self.pressure.rejected,
            Notice::OffsetRejected,
        )
    }

    fn found_offset(&self) -> (notice: Notice)
        requires
            self.pressure.offset is Some,
        ensures
            notice == self.offset_notice(),
    {
        let (minimum, maximum): (i32, i32) = match self.pressure.range {
            Some(range) => range,
            None => (0, 0),
        };
        let offset: i32 = match self.pressure.offset {
            Some(offset) => offset,
            None => 0,
        };
        Notice::OffsetFound {
            above: offset as i64 - minimum as i64,
            span: maximum as i64 - minimum as i64,
        }
    }

    /// What there is to tell clients after an event.
    pub fn notices(&self, later: &Concerns) -> (notices: Vec<Notice>)
        ensures
            notices@ == self.told(*later),
    {
        let mut notices: Vec<Notice> = Vec::new();
        let warned = match (later.range_warning_at, self.range_warning_at) {
            (Some(now), Some(before)) => now != before,
            (Some(_), None) => true,
            _ => false,
        };
        if warned {
            notices.push(Notice::OutOfRange);
        }
        if later.misses_hi_res_vertical && !self.misses_hi_res_vertical {
            notices.push(Notice::MissesHiRes);
        }
        if later.misses_hi_res_horizontal && !self.misses_hi_res_horizontal {
            notices.push(Notice::MissesHiRes);
        }
        if later.pressure.offset.is_some() && self.pressure.offset.is_none() {
            notices.push(later.found_offset());
        }
        if later.pressure.rejected && !self.pressure.rejected {
            notices.push(Notice::OffsetRejected);
        }
        assert(notices@ =~= self.told(*later));
        notices
    }
}

} // verus!
