//! Multi-touch slots: the contacts that a touch device tracks.
use vstd::prelude::*;
use crate::codes::{
    ABS_MT_DISTANCE, ABS_MT_POSITION_X, ABS_MT_POSITION_Y, ABS_MT_TOOL_TYPE, ABS_MT_TRACKING_ID,
};
use crate::backend::measure::span_fits;
use crate::ffi_types::Span;

verus! {

/// The tool type by which the kernel marks a palm.
pub const MT_TOOL_PALM: i32 = 2;

/// The largest number of slots a device is tracked with.
pub const MAX_SLOTS: usize = 256;

#[derive(Clone, Copy, Debug, PartialEq, Eq)]
pub struct MtSlot {
    pub active: bool,
    pub reported: bool,
    pub dirty: bool,
    pub palm_suppressed: bool,
    pub cancel_pending: bool,
    pub classification_pending: bool,
    pub excluded: bool,
    pub seat_slot: Option<i32>,
    pub tracking_id: i32,
    pub tool_type: i32,
    pub x: i32,
    pub y: i32,
    pub distance: i32,
}

pub open spec fn empty_slot() -> MtSlot {
    MtSlot {
        active: false,
        reported: false,
        dirty: false,
        palm_suppressed: false,
        cancel_pending: false,
        classification_pending: false,
        excluded: false,
        seat_slot: None,
        tracking_id: 0,
        tool_type: 0,
        x: 0,
        y: 0,
        distance: 0,
    }
}

/// How many of the first `n` slots satisfy `keep`.
pub open spec fn count_slots(slots: Seq<MtSlot>, n: int, keep: spec_fn(MtSlot) -> bool) -> nat
    decreases n,
{
    if n <= 0 {
        0
    } else {
        count_slots(slots, n - 1, keep) + if keep(slots[n - 1]) {
            1nat
        } else {
            0nat
        }
    }
}

/// Whether a contact counts towards gestures.
pub open spec fn eligible(slot: MtSlot, button_areas: bool) -> bool {
    slot.active && !(button_areas && slot.excluded)
}

pub open spec fn active_slots(slots: Seq<MtSlot>) -> nat {
    count_slots(slots, slots.len() as int, |slot: MtSlot| slot.active)
}

pub open spec fn eligible_slots(slots: Seq<MtSlot>, button_areas: bool) -> nat {
    count_slots(slots, slots.len() as int, |slot: MtSlot| eligible(slot, button_areas))
}

/// No more slots can be counted than there are.
pub proof fn lemma_count_bound(slots: Seq<MtSlot>, n: int, keep: spec_fn(MtSlot) -> bool)
    requires
        0 <= n,
    ensures
        count_slots(slots, n, keep) <= n,
    decreases n,
{
    if n > 0 {
        lemma_count_bound(slots, n - 1, keep);
    }
}

/// Eligible contacts are active ones.
pub proof fn lemma_eligible_bound(slots: Seq<MtSlot>, n: int, button_areas: bool)
    requires
        0 <= n,
    ensures
        count_slots(slots, n, |slot: MtSlot| eligible(slot, button_areas)) <= count_slots(
            slots,
            n,
            |slot: MtSlot| slot.active,
        ),
    decreases n,
{
    if n > 0 {
        lemma_eligible_bound(slots, n - 1, button_areas);
    }
}

/// Counts the active contacts.
pub fn active_slot_count(slots: &Vec<MtSlot>) -> (count: usize)
    ensures
        count == active_slots(slots@),
        count <= slots.len(),
{
    let ghost keep = |slot: MtSlot| slot.active;
    let mut count: usize = 0;
    let mut i: usize = 0;
    while i < slots.len()
        invariant
            i <= slots.len(),
            keep == (|slot: MtSlot| slot.active),
            count == count_slots(slots@, i as int, keep),
            count <= i,
        decreases slots.len() - i,
    {
        if slots[i].active {
            count += 1;
        }
        i += 1;
    }
    count
}

/// Counts the contacts that gestures are made of.
pub fn eligible_slot_count(slots: &Vec<MtSlot>, button_areas: bool) -> (count: usize)
    ensures
        count == eligible_slots(slots@, button_areas),
        count <= slots.len(),
{
    let ghost keep = |slot: MtSlot| eligible(slot, button_areas);
    let mut count: usize = 0;
    let mut i: usize = 0;
    while i < slots.len()
        invariant
            i <= slots.len(),
            keep == (|slot: MtSlot| eligible(slot, button_areas)),
            count == count_slots(slots@, i as int, keep),
            count <= i,
        decreases slots.len() - i,
    {
        let slot = slots[i];
        if slot.active && !(button_areas && slot.excluded) {
            count += 1;
        }
        i += 1;
    }
    count
}

/// The sums of the positions of the eligible contacts among the first `n`.
pub open spec fn position_sum(slots: Seq<MtSlot>, n: int, button_areas: bool) -> (int, int)
    decreases n,
{
    if n <= 0 {
        (0, 0)
    } else {
        let rest = position_sum(slots, n - 1, button_areas);
        if eligible(slots[n - 1], button_areas) {
            (rest.0 + slots[n - 1].x, rest.1 + slots[n - 1].y)
        } else {
            rest
        }
    }
}

/// The centre of a group of contacts, as the sums of their coordinates and
/// their number: the centre itself is the quotient.
#[derive(Clone, Copy, Debug, PartialEq, Eq, Structural)]
pub struct Centroid {
    pub sum_x: i64,
    pub sum_y: i64,
    pub count: usize,
}

impl Centroid {
    /// Whether the sums are those of so many positions.
    pub open spec fn wf(self) -> bool {
        &&& 0 < self.count <= MAX_SLOTS
        &&& -0x8000_0000 * self.count <= self.sum_x <= 0x8000_0000 * self.count
        &&& -0x8000_0000 * self.count <= self.sum_y <= 0x8000_0000 * self.count
    }

    /// How far the centre is from an earlier one, in whole units.
    pub open spec fn shift_spec(self, earlier: Centroid) -> (i32, i32) {
        let unit = self.count * earlier.count;
        (
            limited(rounded(self.sum_x * earlier.count - earlier.sum_x * self.count, unit)),
            limited(rounded(self.sum_y * earlier.count - earlier.sum_y * self.count, unit)),
        )
    }

    pub fn shift(self, earlier: Centroid) -> (distance: (i32, i32))
        requires
            self.wf(),
            earlier.wf(),
        ensures
            distance == self.shift_spec(earlier),
    {
        (
            step(self.sum_x, self.count, earlier.sum_x, earlier.count),
            step(self.sum_y, self.count, earlier.sum_y, earlier.count),
        )
    }
}

/// The whole number nearest to a quotient; halves go away from zero.
pub open spec fn rounded(dividend: int, divisor: int) -> int {
    if dividend >= 0 {
        (2 * dividend + divisor) / (2 * divisor)
    } else {
        -((2 * -dividend + divisor) / (2 * divisor))
    }
}

/// The nearest distance that can be reported.
pub open spec fn limited(distance: int) -> i32 {
    if distance > i32::MAX {
        i32::MAX
    } else if distance < i32::MIN {
        i32::MIN
    } else {
        distance as i32
    }
}

fn step(sum: i64, count: usize, earlier_sum: i64, earlier_count: usize) -> (distance: i32)
    requires
        0 < count <= MAX_SLOTS,
        0 < earlier_count <= MAX_SLOTS,
        -0x8000_0000 * count <= sum <= 0x8000_0000 * count,
        -0x8000_0000 * earlier_count <= earlier_sum <= 0x8000_0000 * earlier_count,
    ensures
        distance == limited(
            rounded(sum * earlier_count - earlier_sum * count, count * earlier_count),
        ),
{
    let n: i128 = count as i128;
    let m: i128 = earlier_count as i128;
    proof {
        lemma_products(sum as int, count as int, earlier_sum as int, earlier_count as int);
    }
    let unit: i128 = n * m;
    let a: i128 = sum as i128 * m;
    let b: i128 = earlier_sum as i128 * n;
    let dividend: i128 = a - b;
    let size: i128 = if dividend < 0 {
        -dividend
    } else {
        dividend
    };
    let whole: i128 = (2 * size + unit) / (2 * unit);
    let moved: i128 = if dividend < 0 {
        -whole
    } else {
        whole
    };
    if moved > i32::MAX as i128 {
        i32::MAX
    } else if moved < i32::MIN as i128 {
        i32::MIN
    } else {
        moved as i32
    }
}

proof fn lemma_products(sum: int, count: int, earlier_sum: int, earlier_count: int)
    requires
        0 < count <= MAX_SLOTS,
        0 < earlier_count <= MAX_SLOTS,
        -0x8000_0000 * count <= sum <= 0x8000_0000 * count,
        -0x8000_0000 * earlier_count <= earlier_sum <= 0x8000_0000 * earlier_count,
    ensures
        0 < count * earlier_count <= MAX_SLOTS * MAX_SLOTS,
        -0x8000_0000 * MAX_SLOTS * MAX_SLOTS <= sum * earlier_count <= 0x8000_0000 * MAX_SLOTS
            * MAX_SLOTS,
        -0x8000_0000 * MAX_SLOTS * MAX_SLOTS <= earlier_sum * count <= 0x8000_0000 * MAX_SLOTS
            * MAX_SLOTS,
{
    assert(0 < count * earlier_count <= MAX_SLOTS * MAX_SLOTS) by (nonlinear_arith)
        requires
            0 < count <= MAX_SLOTS,
            0 < earlier_count <= MAX_SLOTS,
    ;
    let most = 0x8000_0000 * MAX_SLOTS;
    assert(-most <= sum <= most);
    assert(-most <= earlier_sum <= most);
    assert(-most * MAX_SLOTS <= sum * earlier_count <= most * MAX_SLOTS) by (nonlinear_arith)
        requires
            -most <= sum <= most,
            0 < earlier_count <= MAX_SLOTS,
            0 <= most,
    ;
    assert(-most * MAX_SLOTS <= earlier_sum * count <= most * MAX_SLOTS) by (nonlinear_arith)
        requires
            -most <= earlier_sum <= most,
            0 < count <= MAX_SLOTS,
            0 <= most,
    ;
}

pub open spec fn centroid_spec(slots: Seq<MtSlot>, button_areas: bool) -> Option<Centroid> {
    let sum = position_sum(slots, slots.len() as int, button_areas);
    if eligible_slots(slots, button_areas) == 0 {
        None
    } else {
        Some(
            Centroid {
                sum_x: sum.0 as i64,
                sum_y: sum.1 as i64,
                count: eligible_slots(slots, button_areas) as usize,
            },
        )
    }
}

/// The centre of the contacts that gestures are made of.
pub fn gesture_centroid(slots: &Vec<MtSlot>, button_areas: bool) -> (centroid: Option<Centroid>)
    requires
        slots.len() <= MAX_SLOTS,
    ensures
        centroid == centroid_spec(slots@, button_areas),
        centroid matches Some(c) ==> c.wf(),
{
    let count: usize = eligible_slot_count(slots, button_areas);
    let ghost keep = |slot: MtSlot| eligible(slot, button_areas);
    let mut sum_x: i64 = 0;
    let mut sum_y: i64 = 0;
    let mut i: usize = 0;
    while i < slots.len()
        invariant
            i <= slots.len() <= MAX_SLOTS,
            (sum_x as int, sum_y as int) == position_sum(slots@, i as int, button_areas),
            keep == (|slot: MtSlot| eligible(slot, button_areas)),
            count_slots(slots@, i as int, keep) <= i,
            -0x8000_0000 * count_slots(slots@, i as int, keep) <= sum_x <= 0x8000_0000
                * count_slots(slots@, i as int, keep),
            -0x8000_0000 * count_slots(slots@, i as int, keep) <= sum_y <= 0x8000_0000
                * count_slots(slots@, i as int, keep),
        decreases slots.len() - i,
    {
        let slot = slots[i];
        if slot.active && !(button_areas && slot.excluded) {
            sum_x += slot.x as i64;
            sum_y += slot.y as i64;
        }
        i += 1;
    }
    if count == 0 {
        None
    } else {
        Some(Centroid { sum_x, sum_y, count })
    }
}

/// How many fingers a gesture has: the eligible contacts, and those that the
/// device senses beyond the ones it tracks.
pub open spec fn finger_count_spec(
    slots: Seq<MtSlot>,
    button_areas: bool,
    touch_fingers: u32,
) -> int {
    eligible_slots(slots, button_areas) + if touch_fingers > active_slots(slots) {
        touch_fingers - active_slots(slots)
    } else {
        0
    }
}

pub fn gesture_finger_count(
    slots: &Vec<MtSlot>,
    button_areas: bool,
    touch_fingers: u32,
) -> (fingers: u64)
    requires
        slots.len() <= MAX_SLOTS,
    ensures
        fingers == finger_count_spec(slots@, button_areas, touch_fingers),
        fingers <= 0x1_0000_00ff,
{
    let active: usize = active_slot_count(slots);
    let counted: usize = eligible_slot_count(slots, button_areas);
    let untracked: u64 = if touch_fingers as u64 > active as u64 {
        touch_fingers as u64 - active as u64
    } else {
        0
    };
    counted as u64 + untracked
}

/// Contacts that just came down are sorted once: in the button area, or not.
pub open spec fn classified(slot: MtSlot, button_areas: bool, button_top: Option<int>) -> MtSlot {
    if slot.active && slot.classification_pending {
        MtSlot {
            excluded: button_areas && button_top is Some && slot.y >= button_top->0,
            classification_pending: false,
            ..slot
        }
    } else {
        slot
    }
}

/// Where the software buttons begin: the lowest tenth of the touchpad.
pub open spec fn button_top_spec(y_range: Option<(i32, i32)>) -> Option<int> {
    match y_range {
        Some((minimum, maximum)) => Some(
            minimum + crate::backend::pointer::truncated((maximum - minimum) * 9, 10),
        ),
        None => None,
    }
}

/// Sorts the contacts that came down since the last frame.
pub fn classify_gesture_contacts(
    slots: &mut Vec<MtSlot>,
    button_areas: bool,
    y_range: Option<(i32, i32)>,
)
    ensures
        final(slots)@.len() == old(slots)@.len(),
        forall|i: int|
            0 <= i < old(slots)@.len() ==> #[trigger] final(slots)@[i] == classified(
                old(slots)@[i],
                button_areas,
                button_top_spec(y_range),
            ),
{
    let top: Option<i64> = match y_range {
        Some((minimum, maximum)) => {
            let span: i64 = (maximum as i64 - minimum as i64) * 9;
            let tenth: i64 = if span >= 0 {
                span / 10
            } else {
                -((-span) / 10)
            };
            Some(minimum as i64 + tenth)
        },
        None => None,
    };
    let mut i: usize = 0;
    while i < slots.len()
        invariant
            i <= slots.len(),
            slots@.len() == old(slots)@.len(),
            top is Some <==> button_top_spec(y_range) is Some,
            top is Some ==> top->0 == button_top_spec(y_range)->0,
            forall|j: int|
                0 <= j < i ==> #[trigger] slots@[j] == classified(
                    old(slots)@[j],
                    button_areas,
                    button_top_spec(y_range),
                ),
            forall|j: int| i <= j < slots@.len() ==> #[trigger] slots@[j] == old(slots)@[j],
        decreases slots.len() - i,
    {
        let slot = slots[i];
        if slot.active && slot.classification_pending {
            let low = match top {
                Some(edge) => slot.y as i64 >= edge,
                None => false,
            };
            slots.set(
                i,
                MtSlot { excluded: button_areas && low, classification_pending: false, ..slot },
            );
        }
        i += 1;
    }
}

/// The first active contact from slot `from` on.
pub open spec fn first_active(slots: Seq<MtSlot>, from: int) -> Option<int>
    decreases slots.len() - from,
{
    if from >= slots.len() {
        None
    } else if slots[from].active {
        Some(from)
    } else {
        first_active(slots, from + 1)
    }
}

/// The vector between the first two active contacts.
pub open spec fn span_spec(slots: Seq<MtSlot>) -> Option<Span> {
    match first_active(slots, 0) {
        Some(a) => match first_active(slots, a + 1) {
            Some(b) => Some(
                Span {
                    dx: (slots[b].x - slots[a].x) as i64,
                    dy: (slots[b].y - slots[a].y) as i64,
                },
            ),
            None => None,
        },
        None => None,
    }
}

fn find_active(slots: &Vec<MtSlot>, from: usize) -> (found: Option<usize>)
    requires
        from <= slots.len(),
    ensures
        match found {
            Some(i) => first_active(slots@, from as int) == Some(i as int) && i < slots.len(),
            None => first_active(slots@, from as int) is None,
        },
{
    let mut i: usize = from;
    while i < slots.len()
        invariant
            from <= i <= slots.len(),
            first_active(slots@, from as int) == first_active(slots@, i as int),
        decreases slots.len() - i,
    {
        if slots[i].active {
            return Some(i);
        }
        i += 1;
    }
    None
}

/// Measures between the first two active contacts.
pub fn primary_span(slots: &Vec<MtSlot>) -> (span: Option<Span>)
    ensures
        span == span_spec(slots@),
        span matches Some(s) ==> span_fits(s),
{
    match find_active(slots, 0) {
        None => None,
        Some(a) => match find_active(slots, a + 1) {
            None => None,
            Some(b) => {
                let first = slots[a];
                let second = slots[b];
                Some(
                    Span {
                        dx: second.x as i64 - first.x as i64,
                        dy: second.y as i64 - first.y as i64,
                    },
                )
            },
        },
    }
}

/// What one axis event does to the current slot.
pub open spec fn slot_after(
    slot: MtSlot,
    code: u16,
    value: i32,
    x_fuzz: i32,
    y_fuzz: i32,
    suppressed: bool,
) -> MtSlot {
    if code == ABS_MT_TRACKING_ID {
        if value >= 0 {
            MtSlot {
                active: true,
                tracking_id: value,
                classification_pending: true,
                excluded: false,
                palm_suppressed: slot.tool_type == MT_TOOL_PALM || suppressed,
                cancel_pending: false,
                dirty: true,
                ..slot
            }
        } else {
            MtSlot {
                active: false,
                tracking_id: value,
                classification_pending: false,
                excluded: false,
                dirty: true,
                ..slot
            }
        }
    } else if code == ABS_MT_POSITION_X {
        if !slot.reported || slot.x - value > x_fuzz || value - slot.x > x_fuzz {
            MtSlot { x: value, dirty: true, ..slot }
        } else {
            slot
        }
    } else if code == ABS_MT_POSITION_Y {
        if !slot.reported || slot.y - value > y_fuzz || value - slot.y > y_fuzz {
            MtSlot { y: value, dirty: true, ..slot }
        } else {
            slot
        }
    } else if code == ABS_MT_DISTANCE {
        MtSlot { distance: value, ..slot }
    } else if code == ABS_MT_TOOL_TYPE {
        if value == MT_TOOL_PALM {
            MtSlot {
                tool_type: value,
                cancel_pending: slot.cancel_pending || (slot.active && slot.reported),
                palm_suppressed: true,
                dirty: true,
                ..slot
            }
        } else {
            MtSlot { tool_type: value, ..slot }
        }
    } else {
        slot
    }
}

/// Applies one axis event to a slot.
pub fn apply_to_slot(
    slot: MtSlot,
    code: u16,
    value: i32,
    x_fuzz: i32,
    y_fuzz: i32,
    suppressed: bool,
) -> (after: MtSlot)
    ensures
        after == slot_after(slot, code, value, x_fuzz, y_fuzz, suppressed),
{
    if code == ABS_MT_TRACKING_ID {
        if value >= 0 {
            MtSlot {
                active: true,
                tracking_id: value,
                classification_pending: true,
                excluded: false,
                palm_suppressed: slot.tool_type == MT_TOOL_PALM || suppressed,
                cancel_pending: false,
                dirty: true,
                ..slot
            }
        } else {
            MtSlot {
                active: false,
                tracking_id: value,
                classification_pending: false,
                excluded: false,
                dirty: true,
                ..slot
            }
        }
    } else if code == ABS_MT_POSITION_X {
        let back: i64 = slot.x as i64 - value as i64;
        if !slot.reported || back > x_fuzz as i64 || -back > x_fuzz as i64 {
            MtSlot { x: value, dirty: true, ..slot }
        } else {
            slot
        }
    } else if code == ABS_MT_POSITION_Y {
        let back: i64 = slot.y as i64 - value as i64;
        if !slot.reported || back > y_fuzz as i64 || -back > y_fuzz as i64 {
            MtSlot { y: value, dirty: true, ..slot }
        } else {
            slot
        }
    } else if code == ABS_MT_DISTANCE {
        MtSlot { distance: value, ..slot }
    } else if code == ABS_MT_TOOL_TYPE {
        if value == MT_TOOL_PALM {
            MtSlot {
                tool_type: value,
                cancel_pending: slot.cancel_pending || (slot.active && slot.reported),
                palm_suppressed: true,
                dirty: true,
                ..slot
            }
        } else {
            MtSlot { tool_type: value, ..slot }
        }
    } else {
        slot
    }
}

/// Whether any contact is down.
pub open spec fn any_active_spec(slots: Seq<MtSlot>) -> bool {
    exists|i: int| 0 <= i < slots.len() && (#[trigger] slots[i]).active
}

pub fn any_active(slots: &Vec<MtSlot>) -> (found: bool)
    ensures
        found == any_active_spec(slots@),
{
    let mut i: usize = 0;
    while i < slots.len()
        invariant
            i <= slots.len(),
            forall|j: int| 0 <= j < i ==> !(#[trigger] slots@[j]).active,
        decreases slots.len() - i,
    {
        if slots[i].active {
            assert(slots@[i as int].active);
            return true;
        }
        i += 1;
    }
    false
}

} // verus!
