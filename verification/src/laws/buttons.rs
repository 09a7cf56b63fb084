//! Pointer buttons: what is reported of a button follows whether it is held,
//! and which button it is follows the hand and the way buttons are used.
use vstd::prelude::*;
use crate::backend::debounce::{
    lemma_state_of, others_active, state_of, tracking, tracks, unique, updated, DebounceButton,
};
use crate::backend::buttons::{ButtonStep, DebounceStep};
use crate::backend::pointer::{KeyStep, PointerState};
use crate::backend::tablet::FrameTime;
use crate::backend::timers::{delivered, due_changes, is_due};
use crate::codes::InputEvent;
use crate::evtrans::{lemma_without, without};
use crate::ffi_types::{DeviceId, EventPayload, LibinputDevice, LibinputEvent};
use crate::laws::taps::tells_button;

verus! {

/// Whether clients that have read these events take a button to be down: the
/// last that they heard of it is a press.
pub open spec fn button_taken_to_be_down(
    out: Seq<LibinputEvent>,
    device: DeviceId,
    button: u32,
) -> bool
    decreases out.len(),
{
    if out.len() == 0 {
        false
    } else {
        match out.last().payload {
            EventPayload::PointerButton(e) if out.last().device == device && e.button == button =>
                e.state == 1,
            _ => button_taken_to_be_down(out.drop_last(), device, button),
        }
    }
}

/// Whether clients know which buttons are held.
pub open spec fn clients_know_buttons(
    held: Seq<u16>,
    out: Seq<LibinputEvent>,
    device: DeviceId,
) -> bool {
    forall|code: u16| #[trigger]
        held.contains(code) <==> button_taken_to_be_down(out, device, code as u32)
}

/// Left and right trade places for the left hand; no other button does.
pub open spec fn handed(left_handed: bool, code: u16) -> u16 {
    if left_handed && code == 0x110 {
        0x111
    } else if left_handed && code == 0x111 {
        0x110
    } else {
        code
    }
}

/// Whatever buttons change, clients that read the events know which are held:
/// a button is told of exactly when it goes down or comes up, once, as the
/// button that it is for the hand in use.
pub proof fn law_clients_know_which_buttons_are_held(
    s: ButtonStep,
    dev: LibinputDevice,
    time_usec: u64,
    code: u16,
    down: bool,
)
    requires
        clients_know_buttons(s.held, s.out, dev.id),
    ensures
        ({
            let after = s.button(dev, time_usec, code, down);
            let hand = s.rehanded(dev).left_handed;
            let button = handed(hand, code);
            &&& clients_know_buttons(after.held, after.out, dev.id)
            &&& after.held.contains(button) == down
            &&& forall|other: u16|
                other != button ==> (#[trigger] after.held.contains(other) <==> s.held.contains(
                    other,
                ))
            &&& s.held.contains(button) == down ==> after.out == s.out
            &&& s.held.contains(button) != down ==> after.out.len() == s.out.len() + 1
                && after.out.drop_last() == s.out && tells_button(
                after.out.last(),
                dev.id,
                time_usec,
                button as int,
                down,
            )
            &&& after.middle == s.middle
        }),
{
    reveal(ButtonStep::button);
    let after = s.button(dev, time_usec, code, down);
    let hand = s.rehanded(dev).left_handed;
    let button = handed(hand, code);
    lemma_without(s.held, button);
    if s.held.contains(button) != down {
        assert(after.out.drop_last() =~= s.out);
        assert forall|other: u16| other != button implies (#[trigger] after.held.contains(other)
            <==> s.held.contains(other)) by {
            if down {
                lemma_pushed(s.held, button, other);
            }
        }
        if down {
            lemma_pushed(s.held, button, button);
        }
    }
    assert forall|other: u16| #[trigger] after.held.contains(other) <==> button_taken_to_be_down(
        after.out,
        dev.id,
        other as u32,
    ) by {
        assert(s.held.contains(other) <==> button_taken_to_be_down(
            s.out,
            dev.id,
            other as u32,
        ));
    }
}

proof fn lemma_pushed(held: Seq<u16>, code: u16, other: u16)
    ensures
        held.push(code).contains(other) <==> held.contains(other) || other == code,
{
    let all = held.push(code);
    if held.contains(other) {
        let i = choose|i: int| 0 <= i < held.len() && held[i] == other;
        assert(all[i] == other);
    }
    if other == code {
        assert(all[held.len() as int] == other);
    }
    if all.contains(other) && other != code {
        let i = choose|i: int| 0 <= i < all.len() && all[i] == other;
        assert(held[i] == other);
    }
}

/// The hand changes only while no button is in use: what went down with one
/// hand comes up with it.
pub proof fn law_the_hand_stays_while_buttons_are_held(
    s: ButtonStep,
    dev: LibinputDevice,
    later: LibinputDevice,
    time_usec: u64,
    code: u16,
    other: u16,
)
    requires
        dev.id == later.id,
        s.held.len() == 0 && !s.middle.left_down && !s.middle.right_down && s.middle.pending_button
            is None,
    ensures
        ({
            let pressed = s.button(dev, time_usec, code, true);
            let released = pressed.button(later, time_usec, code, false);
            let button = handed(dev.left_handed, code);
            &&& pressed.left_handed == dev.left_handed
            &&& pressed.held == seq![button]
            &&& released.held.len() == 0
            &&& pressed.out.len() == s.out.len() + 1
            &&& released.out.len() == s.out.len() + 2
            &&& forall|i: int| 0 <= i < s.out.len() ==> #[trigger] released.out[i] == s.out[i]
            &&& tells_button(pressed.out.last(), dev.id, time_usec, button as int, true)
            &&& tells_button(released.out.last(), dev.id, time_usec, button as int, false)
            &&& released.left_handed == later.left_handed
        }),
{
    reveal(ButtonStep::button);
    let button = handed(dev.left_handed, code);
    let pressed = s.button(dev, time_usec, code, true);
    assert(s.held =~= Seq::<u16>::empty());
    assert(pressed.held =~= seq![button]);
    assert(pressed.held[0] == button);
    assert(pressed.held.contains(button));
    lemma_without(pressed.held, button);
    let left = without(pressed.held, button);
    if left.len() > 0 {
        assert(left.contains(left[0]));
        assert(pressed.held.contains(left[0]));
    }
}

// ---------------------------------------------------------------------------
// Debouncing
// ---------------------------------------------------------------------------
/// The first press of a button that has been at rest is told of at once; a
/// release within 25 milliseconds is held back, and dropped if the button is
/// pressed again; one that comes later is told of at once.
pub proof fn law_bouncing_buttons_are_pressed_once(
    s: DebounceStep,
    dev: LibinputDevice,
    time_usec: u64,
    now: u64,
    soon: u64,
    code: u16,
)
    requires
        s.known.len() == 0 && !s.bypass,
        s.step.held.len() == 0 && !s.step.middle.left_down && !s.step.middle.right_down
            && s.step.middle.pending_button is None,
        now <= soon,
    ensures
        ({
            let pressed = s.delivered(dev, time_usec, now, false, code, true);
            let released = pressed.delivered(dev, time_usec, soon, false, code, false);
            let again = released.delivered(dev, time_usec, soon, false, code, true);
            let button = handed(dev.left_handed, code);
            &&& pressed.step.out.len() == s.step.out.len() + 1
            &&& tells_button(pressed.step.out.last(), dev.id, time_usec, button as int, true)
            &&& soon - now < 25_000_000 ==> released.step == pressed.step && again.step
                == pressed.step
            &&& soon - now >= 25_000_000 ==> released.step.out.len() == s.step.out.len() + 2
                && tells_button(
                released.step.out.last(),
                dev.id,
                time_usec,
                button as int,
                false,
            )
        }),
{
    reveal(DebounceStep::bypassing);
    reveal(DebounceStep::debounced);
    assert(!others_active(s.known, code, now));
    assert(!tracks(s.known, code));
    let first = DebounceButton {
        code,
        delivered_down: true,
        window_since: Some(now),
        pending_down: None,
        pending_since: None,
    };
    let pressed = s.delivered(dev, time_usec, now, false, code, true);
    lemma_one(s.known, first);
    assert(pressed.known =~= seq![first]);
    lemma_alone(first, code, soon);
    law_the_hand_stays_while_buttons_are_held(s.step, dev, dev, time_usec, code, code);
    let released = pressed.delivered(dev, time_usec, soon, false, code, false);
    if soon - now < 25_000_000 {
        let waiting = DebounceButton {
            pending_down: Some(false),
            pending_since: Some(soon),
            ..first
        };
        lemma_one(pressed.known, waiting);
        assert(released.known =~= seq![waiting]);
        lemma_alone(waiting, code, soon);
    }
}

proof fn lemma_one(known: Seq<DebounceButton>, b: DebounceButton)
    requires
        known.len() == 0 || (known.len() == 1 && known[0].code == b.code),
    ensures
        updated(known, b) == seq![b],
{
    if known.len() == 1 {
        assert(tracks(known, b.code));
    } else {
        assert(!tracks(known, b.code));
    }
    assert(updated(known, b) =~= seq![b]);
}

proof fn lemma_alone(b: DebounceButton, code: u16, now: u64)
    requires
        b.code == code,
    ensures
        !others_active(seq![b], code, now),
        state_of(seq![b], code) == b,
        tracks(seq![b], code),
{
    let one = seq![b];
    assert(one[0].code == code);
    assert(unique(one));
    lemma_state_of(one, code, 0);
}

/// What was held back is told of once it has waited for 25 milliseconds.
pub proof fn law_held_back_changes_come_in_time(b: DebounceButton, now: u64, since: u64, down: bool)
    requires
        b.pending_down == Some(down),
        b.pending_since == Some(since) && since <= now,
    ensures
        now - since >= 25_000_000 ==> delivered(b, now).delivered_down == down && delivered(
            b,
            now,
        ).pending_down is None && due_changes(seq![b], now) == seq![(b.code, down)],
        now - since < 25_000_000 ==> delivered(b, now) == b && due_changes(seq![b], now).len() == 0,
{
    reveal_with_fuel(due_changes, 2);
    assert(seq![b].drop_last() =~= Seq::<DebounceButton>::empty());
    assert(due_changes(seq![b], now) =~= if is_due(b, now) {
        seq![(b.code, down)]
    } else {
        Seq::empty()
    });
}

// ---------------------------------------------------------------------------
// Middle button
// ---------------------------------------------------------------------------
/// Buttons that nobody uses.
pub open spec fn at_rest(s: ButtonStep) -> bool {
    &&& s.held.len() == 0
    &&& !s.middle.left_down && !s.middle.right_down && !s.middle.chord_active
        && !s.middle.real_down
    &&& !s.middle.suppressed_left && !s.middle.suppressed_right
    &&& s.middle.pending_button is None
}

/// Where the middle button is emulated, left and right together are the middle
/// button: one press when the second goes down, and one release when the first
/// comes up; the other one comes up silently.
pub proof fn law_left_and_right_are_middle(
    s: ButtonStep,
    dev: LibinputDevice,
    time_usec: u64,
    now: u64,
    left_first: bool,
    left_up_first: bool,
)
    requires
        at_rest(s),
    ensures
        ({
            let one: u16 = if left_first {
                0x110
            } else {
                0x111
            };
            let two: u16 = if left_first {
                0x111
            } else {
                0x110
            };
            let up: u16 = if left_up_first {
                0x110
            } else {
                0x111
            };
            let last: u16 = if left_up_first {
                0x111
            } else {
                0x110
            };
            let a = s.emulated(dev, time_usec, now, one, true);
            let b = a.emulated(dev, time_usec, now, two, true);
            let c = b.emulated(dev, time_usec, now, up, false);
            let d = c.emulated(dev, time_usec, now, last, false);
            &&& a.out == s.out && a.middle.pending_button == Some(one)
            &&& b.out.len() == s.out.len() + 1
            &&& tells_button(b.out.last(), dev.id, time_usec, 0x112, true)
            &&& c.out.len() == s.out.len() + 2
            &&& tells_button(c.out.last(), dev.id, time_usec, 0x112, false)
            &&& d.out == c.out
            &&& at_rest(d)
        }),
{
    reveal(ButtonStep::button);
    assert(s.held =~= Seq::<u16>::empty());
    let one: u16 = if left_first {
        0x110
    } else {
        0x111
    };
    let two: u16 = if left_first {
        0x111
    } else {
        0x110
    };
    let a = s.emulated(dev, time_usec, now, one, true);
    let b = a.emulated(dev, time_usec, now, two, true);
    assert(b.held =~= seq![0x112u16]);
    assert(b.held[0] == 0x112u16);
    assert(b.held.contains(0x112));
    assert(!b.held.contains(0x110) && !b.held.contains(0x111));
    lemma_without(b.held, 0x112);
    let left = without(b.held, 0x112);
    if left.len() > 0 {
        assert(left.contains(left[0]));
        assert(b.held.contains(left[0]));
    }
    assert(left =~= Seq::<u16>::empty());
}

/// A lone press of left or right is that button: told of when it comes up
/// again or when it has waited for 50 milliseconds.
pub proof fn law_lone_presses_are_themselves(
    s: ButtonStep,
    dev: LibinputDevice,
    time_usec: u64,
    now: u64,
    code: u16,
)
    requires
        at_rest(s),
        code == 0x110 || code == 0x111,
    ensures
        ({
            let a = s.emulated(dev, time_usec, now, code, true);
            let b = a.emulated(dev, time_usec, now, code, false);
            let button = handed(dev.left_handed, code) as int;
            &&& a.out == s.out && a.middle.pending_button == Some(code)
                && a.middle.pending_since == Some(now)
            &&& b.out.len() == s.out.len() + 2
            &&& tells_button(b.out[s.out.len() as int], dev.id, time_usec, button, true)
            &&& tells_button(b.out.last(), dev.id, time_usec, button, false)
            &&& b.held.len() == 0 && b.middle.pending_button is None
        }),
{
    reveal(ButtonStep::button);
    assert(s.held =~= Seq::<u16>::empty());
    let button = handed(dev.left_handed, code);
    let pressed = seq![button];
    assert(s.held.push(button) =~= pressed);
    assert(pressed[0] == button);
    assert(pressed.contains(button));
    lemma_without(pressed, button);
    let left = without(pressed, button);
    if left.len() > 0 {
        assert(left.contains(left[0]));
        assert(pressed.contains(left[0]));
    }
    assert(left =~= Seq::<u16>::empty());
}

/// A lone press that has waited for 50 milliseconds for the other button is
/// told of as itself.
pub proof fn law_lone_presses_do_not_wait_long(
    p: PointerState,
    dev: LibinputDevice,
    at: FrameTime,
    out: Seq<LibinputEvent>,
    code: u16,
    since: u64,
)
    requires
        p.buttons.middle.pending_button == Some(code),
        p.buttons.middle.pending_since == Some(since) && since <= at.now,
        p.buttons.held_buttons@.len() == 0,
    ensures
        ({
            let after = p.lone_pressed(dev, at, out);
            &&& at.now - since < 50_000_000 ==> after.out == out
            &&& at.now - since >= 50_000_000 ==> after.out.len() == out.len() + 1
                && after.out.drop_last() == out && tells_button(
                after.out.last(),
                dev.id,
                at.time_usec,
                handed(after.left_handed, code) as int,
                true,
            ) && after.middle.pending_button is None
        }),
{
    reveal(ButtonStep::button);
    let after = p.lone_pressed(dev, at, out);
    if after.out.len() == out.len() + 1 {
        assert(after.out.drop_last() =~= out);
    }
}

// ---------------------------------------------------------------------------
// Mice
// ---------------------------------------------------------------------------
/// A mouse on which nothing is held reports a button that goes down as that
/// button, left and right swapped for the left hand. 0x100 to 0x109 and 0x110
/// to 0x117 are its buttons; other keys are none.
pub proof fn law_mice_report_their_buttons(
    p: PointerState,
    dev: LibinputDevice,
    ev: InputEvent,
    time_usec: u64,
    now: u64,
    out: Seq<LibinputEvent>,
    after: PointerState,
    reported: Seq<LibinputEvent>,
)
    requires
        ev.kind == 1 && ev.value == 1,
        p.buttons.held_buttons@.len() == 0,
        !p.buttons.middle.left_down && !p.buttons.middle.right_down
            && p.buttons.middle.pending_button is None,
        p.debouncer.known@.len() == 0 && !p.debouncer.bypass && !p.debouncer.spurious,
        !dev.middle_emulation && dev.scroll_method != 4,
        p.processed(dev, ev, time_usec, now, out, after, reported),
    ensures
        ({
            let is_button = 0x100 <= ev.code <= 0x109 || 0x110 <= ev.code <= 0x117;
            &&& is_button ==> {
                &&& reported.len() == out.len() + 1
                &&& tells_button(
                    reported.last(),
                    dev.id,
                    time_usec,
                    handed(dev.left_handed, ev.code) as int,
                    true,
                )
                &&& after.buttons.held_buttons@ == seq![handed(dev.left_handed, ev.code)]
            }
            &&& !is_button ==> reported == out && after.buttons.held_buttons@.len() == 0
            &&& after.rel == p.rel && after.scroll == p.scroll
        }),
{
    reveal(PointerState::processed);
    reveal(KeyStep::plain);
    let k = p.key_step(out);
    let done = after.key_step(reported);
    assert(done.debounce.step.out == reported);
    assert(done.debounce.step.held == after.buttons.held_buttons@);
    assert(k.debounce.step.out == out);
    law_bouncing_buttons_are_pressed_once(k.debounce, dev, time_usec, now, now, ev.code);
    law_the_hand_stays_while_buttons_are_held(
        k.debounce.step,
        dev,
        dev,
        time_usec,
        ev.code,
        ev.code,
    );
    reveal(DebounceStep::bypassing);
    reveal(DebounceStep::debounced);
}

/// As soon as a second button is used, nothing is held back any more: what was
/// held back of the others is told first and counts from then on.
pub proof fn law_what_is_held_back_is_told_first(other: DebounceButton, code: u16, down: bool)
    requires
        other.code != code,
        other.pending_down == Some(down),
    ensures
        crate::backend::debounce::pending_changes(seq![other], code) == seq![(other.code, down)],
        crate::backend::debounce::settled(seq![other], code)[0].delivered_down == down,
        crate::backend::debounce::settled(seq![other], code)[0].pending_down is None,
        crate::backend::debounce::settled(seq![other], code)[0].code == other.code,
        crate::backend::debounce::pending_changes(seq![other], other.code).len() == 0,
        crate::backend::debounce::settled(seq![other], other.code)[0].delivered_down
            == other.delivered_down,
{
    reveal_with_fuel(crate::backend::debounce::pending_changes, 2);
    assert(seq![other].drop_last() =~= Seq::<DebounceButton>::empty());
    assert(crate::backend::debounce::pending_changes(seq![other], code) =~= seq![
        (other.code, down),
    ]);
}

/// While another button is down, a button is told of at once, and no button is
/// debounced until all are up.
pub proof fn law_two_buttons_are_not_debounced(
    s: DebounceStep,
    dev: LibinputDevice,
    time_usec: u64,
    now: u64,
    other: DebounceButton,
    code: u16,
)
    requires
        s.known == seq![other],
        !s.bypass,
        other.code != code,
        other.delivered_down && other.pending_down is None,
    ensures
        ({
            let pressed = s.delivered(dev, time_usec, now, false, code, true);
            let released = pressed.delivered(dev, time_usec, now, false, code, false);
            let all_up = released.delivered(dev, time_usec, now, false, other.code, false);
            &&& pressed.bypass && released.bypass
            &&& pressed.step == s.step.button(dev, time_usec, code, true)
            &&& released.step == pressed.step.button(dev, time_usec, code, false)
            &&& all_up.step == released.step.button(dev, time_usec, other.code, false)
            &&& !all_up.bypass
        }),
{
    reveal(DebounceStep::bypassing);
    reveal(DebounceStep::undebounced);
    let quiet = DebounceButton { window_since: None, pending_since: None, ..other };
    let mine = DebounceButton {
        code,
        delivered_down: false,
        window_since: None,
        pending_down: None,
        pending_since: None,
    };
    assert(s.known[0] == other);
    assert(others_active(s.known, code, now));
    reveal_with_fuel(crate::backend::debounce::pending_changes, 2);
    assert(s.known.drop_last() =~= Seq::<DebounceButton>::empty());
    assert(crate::backend::debounce::settled(s.known, code) =~= seq![quiet]);
    let begun = s.bypassing(dev, time_usec, now, code);
    assert(begun.known == seq![quiet]);
    assert(begun.step == s.step.buttons(dev, time_usec, Seq::empty()));
    assert(!tracks(begun.known, code));
    let pressed = s.delivered(dev, time_usec, now, false, code, true);
    let down = DebounceButton { delivered_down: true, ..mine };
    assert(tracking(begun.known, code) =~= seq![quiet, mine]);
    assert(updated(begun.known, down) =~= seq![quiet, down]);
    assert(pressed.known == seq![quiet, down]);
    lemma_two(quiet, down);
    let released = pressed.delivered(dev, time_usec, now, false, code, false);
    assert(updated(pressed.known, mine) =~= seq![quiet, mine]);
    assert(released.known == seq![quiet, mine]);
    assert(released.known[0].delivered_down);
    lemma_two(quiet, mine);
    let up = DebounceButton { delivered_down: false, ..quiet };
    assert(updated(released.known, up) =~= seq![up, mine]);
    assert(crate::backend::debounce::all_quiet(seq![up, mine]));
}

proof fn lemma_two(a: DebounceButton, b: DebounceButton)
    requires
        a.code != b.code,
    ensures
        tracks(seq![a, b], a.code),
        tracks(seq![a, b], b.code),
        state_of(seq![a, b], a.code) == a,
        state_of(seq![a, b], b.code) == b,
        tracking(seq![a, b], a.code) == seq![a, b],
        tracking(seq![a, b], b.code) == seq![a, b],
{
    let two = seq![a, b];
    assert(two[0] == a && two[1] == b);
    assert(unique(two));
    assert(tracks(two, a.code)) by {
        assert(two[0].code == a.code);
    }
    assert(tracks(two, b.code)) by {
        assert(two[1].code == b.code);
    }
    lemma_state_of(two, a.code, 0);
    lemma_state_of(two, b.code, 1);
}

/// Buttons that were never used are up, for the right hand, and wait for
/// nothing.
pub proof fn law_buttons_start_at_rest()
    ensures
        at_rest(crate::backend::buttons::ButtonState::start_step()),
        !crate::backend::buttons::ButtonState::start_step().left_handed,
        crate::backend::buttons::ButtonState::start_step().out.len() == 0,
{
}

/// A middle button of its own is known to be down while it is.
pub proof fn law_real_middle_buttons_are_known(
    s: ButtonStep,
    dev: LibinputDevice,
    time_usec: u64,
    down: bool,
)
    ensures
        s.real_middle(dev, time_usec, down).middle.real_down == down,
        down ==> !s.real_middle(dev, time_usec, down).middle.chord_active
            && s.real_middle(dev, time_usec, down).middle.pending_button is None,
{
    reveal(ButtonStep::button);
}

/// Left and right make the middle button only where that is switched on, and
/// not while a button scrolls; elsewhere they are themselves.
pub proof fn law_emulation_can_be_off(
    k: KeyStep,
    dev: LibinputDevice,
    time_usec: u64,
    now: u64,
    spurious: bool,
    code: u16,
    down: bool,
)
    ensures
        !dev.middle_emulation ==> k.key(dev, time_usec, now, spurious, code, down) == k.plain(
            dev,
            time_usec,
            now,
            spurious,
            code,
            down,
        ),
        dev.middle_emulation && dev.scroll_method == 4 && dev.scroll_button != 0x110
            && dev.scroll_button != 0x112 ==> k.key(dev, time_usec, now, spurious, code, down)
            == k.plain(dev, time_usec, now, spurious, code, down),
        dev.middle_emulation && dev.scroll_method != 4 && (code == 0x110 || code == 0x111)
            ==> k.key(dev, time_usec, now, spurious, code, down) == k.with_step(
            k.debounce.step.emulated(dev, time_usec, now, code, down),
        ),
{
}

} // verus!
