//! Button debouncing: what is remembered of each button.
use vstd::prelude::*;
use crate::clock::{within, within_spec, MILLISECOND};

verus! {

/// How long a button's contacts may bounce.
pub const DEBOUNCE_TIMEOUT: u64 = 25 * MILLISECOND;

/// One button's debouncing state: what was delivered, since when its window
/// is open, and a change that is held back.
#[derive(Clone, Copy, Debug, PartialEq, Eq, Structural)]
pub struct DebounceButton {
    pub code: u16,
    pub delivered_down: bool,
    pub window_since: Option<u64>,
    pub pending_down: Option<bool>,
    pub pending_since: Option<u64>,
}

pub open spec fn fresh(code: u16) -> DebounceButton {
    DebounceButton {
        code,
        delivered_down: false,
        window_since: None,
        pending_down: None,
        pending_since: None,
    }
}

/// No button is remembered twice.
pub open spec fn unique(buttons: Seq<DebounceButton>) -> bool {
    forall|i: int, j: int|
        0 <= i < j < buttons.len() ==> #[trigger] buttons[i].code != #[trigger] buttons[j].code
}

pub open spec fn tracks(buttons: Seq<DebounceButton>, code: u16) -> bool {
    exists|i: int| 0 <= i < buttons.len() && #[trigger] buttons[i].code == code
}

/// The buttons with `code` among them, newly remembered if need be.
pub open spec fn tracking(buttons: Seq<DebounceButton>, code: u16) -> Seq<DebounceButton> {
    if tracks(buttons, code) {
        buttons
    } else {
        buttons.push(fresh(code))
    }
}

/// What is remembered of `code`.
pub open spec fn state_of(buttons: Seq<DebounceButton>, code: u16) -> DebounceButton {
    if tracks(buttons, code) {
        buttons[choose|i: int| 0 <= i < buttons.len() && #[trigger] buttons[i].code == code]
    } else {
        fresh(code)
    }
}

/// The buttons with `button` in place of what was remembered of its code.
pub open spec fn updated(buttons: Seq<DebounceButton>, button: DebounceButton) -> Seq<DebounceButton> {
    let all = tracking(buttons, button.code);
    Seq::new(
        all.len(),
        |i: int|
            if all[i].code == button.code {
                button
            } else {
                all[i]
            },
    )
}

/// Whether some button other than `code` is in use, so that bouncing can no
/// longer be told from fast clicking.
pub open spec fn others_active(buttons: Seq<DebounceButton>, code: u16, now: u64) -> bool {
    exists|i: int|
        0 <= i < buttons.len() && (#[trigger] buttons[i]).code != code && (buttons[i].delivered_down
            || buttons[i].pending_down is Some || within_spec(
            now,
            buttons[i].window_since,
            DEBOUNCE_TIMEOUT,
        ))
}

/// The held-back changes of all buttons but `code`.
pub open spec fn pending_changes(buttons: Seq<DebounceButton>, code: u16) -> Seq<(u16, bool)>
    decreases buttons.len(),
{
    if buttons.len() == 0 {
        Seq::empty()
    } else {
        let rest = pending_changes(buttons.drop_last(), code);
        let last = buttons.last();
        if last.code != code && last.pending_down is Some {
            rest.push((last.code, last.pending_down->0))
        } else {
            rest
        }
    }
}

/// The button once nothing is held back: of the other buttons the held-back
/// change counts as delivered.
pub open spec fn settled_button(button: DebounceButton, code: u16) -> DebounceButton {
    DebounceButton {
        code: button.code,
        delivered_down: if button.code != code && button.pending_down is Some {
            button.pending_down->0
        } else {
            button.delivered_down
        },
        window_since: None,
        pending_down: None,
        pending_since: None,
    }
}

pub open spec fn settled(buttons: Seq<DebounceButton>, code: u16) -> Seq<DebounceButton> {
    Seq::new(buttons.len(), |i: int| settled_button(buttons[i], code))
}

/// Whether no button is down and nothing is held back.
pub open spec fn all_quiet(buttons: Seq<DebounceButton>) -> bool {
    forall|i: int|
        0 <= i < buttons.len() ==> !(#[trigger] buttons[i]).delivered_down
            && buttons[i].pending_down is None
}

/// What is remembered of a code does not depend on the order of looking.
pub proof fn lemma_state_of(buttons: Seq<DebounceButton>, code: u16, index: int)
    requires
        unique(buttons),
        0 <= index < buttons.len(),
        buttons[index].code == code,
    ensures
        state_of(buttons, code) == buttons[index],
{
    assert(tracks(buttons, code));
    let found = choose|i: int| 0 <= i < buttons.len() && #[trigger] buttons[i].code == code;
    if found < index {
        assert(buttons[found].code != buttons[index].code);
    } else if index < found {
        assert(buttons[index].code != buttons[found].code);
    }
}

/// Remembering a code twice is remembering it once.
pub proof fn lemma_tracking_twice(buttons: Seq<DebounceButton>, button: DebounceButton)
    ensures
        updated(tracking(buttons, button.code), button) == updated(buttons, button),
{
    let all = tracking(buttons, button.code);
    if !tracks(buttons, button.code) {
        assert(all[buttons.len() as int].code == button.code);
    }
    assert(tracks(all, button.code));
}

/// Where `code` is remembered; a code seen for the first time is added.
pub fn entry(buttons: &mut Vec<DebounceButton>, code: u16) -> (index: usize)
    requires
        unique(old(buttons)@),
    ensures
        unique(final(buttons)@),
        final(buttons)@ == tracking(old(buttons)@, code),
        index < final(buttons).len(),
        final(buttons)@[index as int].code == code,
        final(buttons)@[index as int] == state_of(old(buttons)@, code),
{
    let mut i: usize = 0;
    while i < buttons.len()
        invariant
            i <= buttons.len(),
            buttons@ == old(buttons)@,
            unique(buttons@),
            forall|j: int| 0 <= j < i ==> (#[trigger] buttons@[j]).code != code,
        decreases buttons.len() - i,
    {
        if buttons[i].code == code {
            proof {
                lemma_state_of(buttons@, code, i as int);
            }
            return i;
        }
        i += 1;
    }
    buttons.push(
        DebounceButton {
            code,
            delivered_down: false,
            window_since: None,
            pending_down: None,
            pending_since: None,
        },
    );
    buttons.len() - 1
}

/// Replaces what is remembered of a button.
pub fn store(buttons: &mut Vec<DebounceButton>, button: DebounceButton)
    requires
        unique(old(buttons)@),
    ensures
        unique(final(buttons)@),
        final(buttons)@ == updated(old(buttons)@, button),
{
    let index: usize = entry(buttons, button.code);
    let ghost all = buttons@;
    buttons.set(index, button);
    proof {
        assert forall|i: int| 0 <= i < all.len() implies buttons@[i] == updated(
            old(buttons)@,
            button,
        )[i] by {
            if i < index {
                assert(all[i].code != all[index as int].code);
            } else if index < i {
                assert(all[index as int].code != all[i].code);
            }
        }
        assert forall|i: int, j: int| 0 <= i < j < buttons@.len() implies #[trigger] buttons@[i].code
            != #[trigger] buttons@[j].code by {
            assert(all[i].code != all[j].code);
        }
    }
}

pub fn any_other_active(buttons: &Vec<DebounceButton>, code: u16, now: u64) -> (active: bool)
    ensures
        active == others_active(buttons@, code, now),
{
    let mut i: usize = 0;
    while i < buttons.len()
        invariant
            i <= buttons.len(),
            forall|j: int|
                0 <= j < i ==> !((#[trigger] buttons@[j]).code != code && (buttons@[j].delivered_down
                    || buttons@[j].pending_down is Some || within_spec(
                    now,
                    buttons@[j].window_since,
                    DEBOUNCE_TIMEOUT,
                ))),
        decreases buttons.len() - i,
    {
        let button = buttons[i];
        if button.code != code && (button.delivered_down || button.pending_down.is_some() || within(
            now,
            button.window_since,
            DEBOUNCE_TIMEOUT,
        )) {
            assert(buttons@[i as int].code != code);
            return true;
        }
        i += 1;
    }
    false
}

/// Takes the held-back changes of all buttons but `code`, and closes every
/// window.
pub fn settle(buttons: &mut Vec<DebounceButton>, code: u16) -> (changes: Vec<(u16, bool)>)
    requires
        unique(old(buttons)@),
    ensures
        unique(final(buttons)@),
        final(buttons)@ == settled(old(buttons)@, code),
        changes@ == pending_changes(old(buttons)@, code),
{
    let mut changes: Vec<(u16, bool)> = Vec::new();
    let mut i: usize = 0;
    let ghost all = buttons@;
    assert(all.take(0) =~= Seq::<DebounceButton>::empty());
    while i < buttons.len()
        invariant
            i <= buttons.len(),
            all == old(buttons)@,
            buttons@.len() == all.len(),
            forall|j: int| 0 <= j < i ==> #[trigger] buttons@[j] == settled_button(all[j], code),
            forall|j: int| i <= j < all.len() ==> #[trigger] buttons@[j] == all[j],
            changes@ == pending_changes(all.take(i as int), code),
        decreases buttons.len() - i,
    {
        let button = buttons[i];
        proof {
            assert(all.take(i + 1).drop_last() =~= all.take(i as int));
            assert(all.take(i + 1).last() == button);
        }
        let mut delivered = button.delivered_down;
        if button.code != code {
            if let Some(down) = button.pending_down {
                changes.push((button.code, down));
                delivered = down;
            }
        }
        buttons.set(
            i,
            DebounceButton {
                code: button.code,
                delivered_down: delivered,
                window_since: None,
                pending_down: None,
                pending_since: None,
            },
        );
        i += 1;
    }
    proof {
        assert(all.take(i as int) =~= all);
        assert(buttons@ =~= settled(all, code));
        assert forall|a: int, b: int| 0 <= a < b < buttons@.len() implies #[trigger] buttons@[a].code
            != #[trigger] buttons@[b].code by {
            assert(all[a].code != all[b].code);
        }
    }
    changes
}

pub fn nothing_delivered(buttons: &Vec<DebounceButton>) -> (quiet: bool)
    ensures
        quiet == all_quiet(buttons@),
{
    let mut i: usize = 0;
    while i < buttons.len()
        invariant
            i <= buttons.len(),
            forall|j: int|
                0 <= j < i ==> !(#[trigger] buttons@[j]).delivered_down
                    && buttons@[j].pending_down is None,
        decreases buttons.len() - i,
    {
        let button = buttons[i];
        if button.delivered_down || button.pending_down.is_some() {
            assert(buttons@[i as int] == button);
            return false;
        }
        i += 1;
    }
    true
}

} // verus!
