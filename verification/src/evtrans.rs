//! Translation policy shared by every device role: which key codes are
//! buttons, how often each code is held down on a seat, and when a button
//! changes state.
use vstd::prelude::*;

verus! {

pub const KEY_MAX: usize = 0x2ff;

/// Number of key codes a seat counts.
pub const SEAT_CODES: usize = 0x300;

/// For each key code, how many devices of a seat hold it down.
pub type SeatCodeCounts = [u32; SEAT_CODES];

/// The count of `code`; codes beyond the table are never held.
pub open spec fn seat_count(counts: Seq<u32>, code: u16) -> u32 {
    if code < counts.len() {
        counts[code as int]
    } else {
        0
    }
}

/// A count after one press or one release: counts saturate at both ends.
pub open spec fn counted(count: u32, pressed: bool) -> u32 {
    if pressed {
        if count < u32::MAX {
            (count + 1) as u32
        } else {
            count
        }
    } else {
        if count > 0 {
            (count - 1) as u32
        } else {
            count
        }
    }
}

/// The table after `code` was pressed or released once.
pub open spec fn seat_counts_after(counts: Seq<u32>, code: u16, pressed: bool) -> Seq<u32> {
    if code < counts.len() {
        counts.update(code as int, counted(counts[code as int], pressed))
    } else {
        counts
    }
}

pub fn empty_seat_code_counts() -> (counts: SeatCodeCounts)
    ensures
        counts@ == Seq::new(SEAT_CODES as nat, |i: int| 0u32),
{
    [0u32; SEAT_CODES]
}

/// Whether a key code stands for a button rather than for a keyboard key.
pub open spec fn is_button(code: u16) -> bool {
    0x100 <= code <= 0x15f || 0x2c0 <= code <= 0x2ff
}

pub fn is_button_code(code: u16) -> (button: bool)
    ensures
        button == is_button(code),
{
    (0x100 <= code && code <= 0x15f) || (0x2c0 <= code && code <= 0x2ff)
}

/// Counts one press or release of `code` and gives back its new count.
pub fn update_seat_count(counts: &mut SeatCodeCounts, code: u16, pressed: bool) -> (count: u32)
    ensures
        final(counts)@ == seat_counts_after(old(counts)@, code, pressed),
        count == seat_count(final(counts)@, code),
{
    let index: usize = code as usize;
    if index >= SEAT_CODES {
        return 0;
    }
    let before: u32 = counts[index];
    let after: u32 = if pressed {
        before.saturating_add(1)
    } else {
        before.saturating_sub(1)
    };
    counts[index] = after;
    after
}

/// The codes other than `code`, in their order.
pub open spec fn without(codes: Seq<u16>, code: u16) -> Seq<u16> {
    codes.filter(|c: u16| c != code)
}

/// The held codes after one accepted or ignored transition.
pub open spec fn held_after(held: Seq<u16>, code: u16, pressed: bool) -> Seq<u16> {
    if pressed {
        if held.contains(code) {
            held
        } else {
            held.push(code)
        }
    } else {
        without(held, code)
    }
}

/// Whether a vector of codes holds `code`.
pub fn contains_code(codes: &Vec<u16>, code: u16) -> (found: bool)
    ensures
        found == codes@.contains(code),
{
    let mut i: usize = 0;
    while i < codes.len()
        invariant
            i <= codes.len(),
            forall|j: int| 0 <= j < i ==> codes@[j] != code,
        decreases codes.len() - i,
    {
        if codes[i] == code {
            assert(codes@[i as int] == code);
            return true;
        }
        i += 1;
    }
    false
}

/// Removes every occurrence of `code`.
pub fn remove_code(codes: &mut Vec<u16>, code: u16)
    ensures
        final(codes)@ == without(old(codes)@, code),
{
    let mut kept: Vec<u16> = Vec::new();
    let mut i: usize = 0;
    proof {
        assert(codes@.take(0) =~= Seq::<u16>::empty());
        reveal(Seq::filter);
    }
    while i < codes.len()
        invariant
            i <= codes.len(),
            kept@ == without(codes@.take(i as int), code),
        decreases codes.len() - i,
    {
        let current: u16 = codes[i];
        proof {
            reveal(Seq::filter);
            assert(codes@.take(i + 1).drop_last() =~= codes@.take(i as int));
            assert(codes@.take(i + 1).last() == current);
        }
        if current != code {
            kept.push(current);
        }
        i += 1;
    }
    assert(codes@.take(i as int) =~= codes@);
    *codes = kept;
}

/// Applies one button transition. Repeated presses and unmatched releases
/// are ignored; the result says whether the state changed.
pub fn transition_button(held: &mut Vec<u16>, code: u16, pressed: bool) -> (changed: bool)
    ensures
        changed == (old(held)@.contains(code) != pressed),
        final(held)@ == (if changed { held_after(old(held)@, code, pressed) } else { old(held)@ }),
{
    if pressed {
        if contains_code(held, code) {
            return false;
        }
        held.push(code);
    } else {
        if !contains_code(held, code) {
            return false;
        }
        remove_code(held, code);
    }
    true
}

/// What `without` keeps: every other code, exactly as often as before.
pub proof fn lemma_without(codes: Seq<u16>, code: u16)
    ensures
        !without(codes, code).contains(code),
        forall|c: u16| c != code ==> (without(codes, code).contains(c) <==> codes.contains(c)),
        codes.no_duplicates() ==> without(codes, code).no_duplicates(),
        !codes.contains(code) ==> without(codes, code) == codes,
        without(codes, code).len() <= codes.len(),
    decreases codes.len(),
{
    reveal(Seq::filter);
    if codes.len() > 0 {
        let rest = codes.drop_last();
        lemma_without(rest, code);
        let short = without(rest, code);
        assert(codes =~= rest.push(codes.last()));
        assert forall|c: u16| codes.contains(c) <==> (rest.contains(c) || c == codes.last()) by {
            if rest.contains(c) {
                let i = choose|i: int| 0 <= i < rest.len() && rest[i] == c;
                assert(codes[i] == c);
            }
            if c == codes.last() {
                assert(codes[codes.len() - 1] == c);
            }
        }
        if codes.last() != code {
            let full = short.push(codes.last());
            assert(without(codes, code) == full);
            assert forall|c: u16| full.contains(c) <==> (short.contains(c) || c == codes.last()) by {
                if short.contains(c) {
                    let i = choose|i: int| 0 <= i < short.len() && short[i] == c;
                    assert(full[i] == c);
                }
                if c == codes.last() {
                    assert(full[full.len() - 1] == c);
                }
            }
            if codes.no_duplicates() {
                assert(rest.no_duplicates());
                assert(!rest.contains(codes.last()));
                assert(!short.contains(codes.last()));
                assert(full.no_duplicates());
            }
        } else {
            assert(without(codes, code) == short);
        }
    }
}

/// A press that was accepted is undone by the matching release.
pub proof fn law_release_undoes_press(held: Seq<u16>, code: u16)
    requires
        !held.contains(code),
    ensures
        held_after(held_after(held, code, true), code, false) == held,
{
    reveal(Seq::filter);
    lemma_without(held, code);
    assert(held.push(code).drop_last() =~= held);
}

/// No transition makes a button held twice.
pub proof fn law_transitions_keep_buttons_unique(held: Seq<u16>, code: u16, pressed: bool)
    requires
        held.no_duplicates(),
    ensures
        held_after(held, code, pressed).no_duplicates(),
{
    lemma_without(held, code);
}

/// After a transition exactly the addressed button has the requested state,
/// and every other button keeps its own.
pub proof fn law_transition_is_local(held: Seq<u16>, code: u16, pressed: bool, other: u16)
    ensures
        held_after(held, code, pressed).contains(code) == pressed,
        other != code ==> (held_after(held, code, pressed).contains(other) <==> held.contains(other)),
{
    lemma_without(held, code);
    let pushed = held.push(code);
    assert(pushed[held.len() as int] == code);
    if held.contains(other) {
        let i = choose|i: int| 0 <= i < held.len() && held[i] == other;
        assert(pushed[i] == other);
    }
}

/// Repeating a transition changes nothing more.
pub proof fn law_transitions_are_idempotent(held: Seq<u16>, code: u16, pressed: bool)
    ensures
        held_after(held_after(held, code, pressed), code, pressed) == held_after(held, code, pressed),
{
    law_transition_is_local(held, code, pressed, code);
    lemma_without(held_after(held, code, pressed), code);
}

/// Counting one code leaves the counts of all others alone.
pub proof fn law_seat_counts_are_independent(
    counts: Seq<u32>,
    code: u16,
    pressed: bool,
    other: u16,
)
    requires
        other != code,
    ensures
        seat_count(seat_counts_after(counts, code, pressed), other) == seat_count(counts, other),
{
}

/// A release takes back the press before it.
pub proof fn law_seat_release_undoes_press(counts: Seq<u32>, code: u16)
    requires
        seat_count(counts, code) < u32::MAX,
    ensures
        seat_counts_after(seat_counts_after(counts, code, true), code, false) == counts,
{
    assert(seat_counts_after(seat_counts_after(counts, code, true), code, false) =~= counts);
}

/// A release of a code that nothing holds, and any transition of a code
/// beyond the table, leave the seat as it was.
pub proof fn law_unmatched_releases_are_safe(counts: Seq<u32>, code: u16, pressed: bool)
    requires
        seat_count(counts, code) == 0,
        pressed ==> code >= counts.len(),
    ensures
        seat_counts_after(counts, code, pressed) == counts,
{
    assert(seat_counts_after(counts, code, pressed) =~= counts);
}

} // verus!
