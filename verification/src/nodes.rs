//! Names of event nodes and of quirks files, in order.
use vstd::prelude::*;
use crate::text::{equal, letters, same_text, strip, stripped};

verus! {

pub open spec fn is_digit(c: char) -> bool {
    '0' <= c <= '9'
}

pub open spec fn all_decimal(text: Seq<char>) -> bool {
    forall|i: int| 0 <= i < text.len() ==> is_digit(#[trigger] text[i])
}

pub fn only_digits(text: &[char]) -> (only: bool)
    ensures
        only == all_decimal(text@),
{
    let mut i: usize = 0;
    while i < text.len()
        invariant
            i <= text.len(),
            forall|j: int| 0 <= j < i ==> is_digit(#[trigger] text@[j]),
        decreases text.len() - i,
    {
        if !('0' <= text[i] && text[i] <= '9') {
            assert(!is_digit(text@[i as int]));
            return false;
        }
        i += 1;
    }
    true
}

/// Whether a name is that of an event node: `event` and a number.
pub open spec fn is_event_name(name: Seq<char>) -> bool {
    match stripped(name, "event"@) {
        Some(number) => number.len() > 0 && all_decimal(number),
        None => false,
    }
}

pub fn is_event_node(name: &str) -> (is: bool)
    ensures
        is == is_event_name(name@),
{
    let chars = letters(name);
    match strip(chars.as_slice(), "event") {
        Some(number) => number.len() > 0 && only_digits(number),
        None => false,
    }
}

/// The name of a file with quirks: something, and its ending.
pub open spec fn is_quirk_name(name: Seq<char>) -> bool {
    name.len() > 7 && name.skip(name.len() - 7) == ".quirks"@
}

fn is_quirk_file(name: &str) -> (is: bool)
    ensures
        is == is_quirk_name(name@),
{
    let chars = letters(name);
    let n: usize = chars.len();
    if n <= 7 {
        return false;
    }
    let ending = vstd::slice::slice_subrange(chars.as_slice(), n - 7, n);
    assert(ending@ =~= name@.skip(n - 7));
    same_text(ending, ".quirks")
}

// ---------------------------------------------------------------------------
// Order
// ---------------------------------------------------------------------------
/// Whether a text comes before another in the order of their characters.
pub open spec fn precedes(a: Seq<char>, b: Seq<char>) -> bool
    decreases a.len(),
{
    if b.len() == 0 {
        false
    } else if a.len() == 0 {
        true
    } else if a[0] != b[0] {
        a[0] < b[0]
    } else {
        precedes(a.skip(1), b.skip(1))
    }
}

proof fn lemma_precedes_total(a: Seq<char>, b: Seq<char>)
    ensures
        precedes(a, b) || precedes(b, a) || a == b,
        !(precedes(a, b) && precedes(b, a)),
        a == b ==> !precedes(a, b),
    decreases a.len(),
{
    if a.len() > 0 && b.len() > 0 && a[0] == b[0] {
        lemma_precedes_total(a.skip(1), b.skip(1));
        if a.skip(1) == b.skip(1) {
            assert(a =~= b) by {
                assert forall|i: int| 0 <= i < a.len() implies a[i] == b[i] by {
                    if i > 0 {
                        assert(a[i] == a.skip(1)[i - 1]);
                        assert(b[i] == b.skip(1)[i - 1]);
                    }
                }
                assert(a.len() == a.skip(1).len() + 1);
            }
        }
    } else if a.len() == 0 && b.len() == 0 {
        assert(a =~= b);
    }
}

proof fn lemma_precedes_transitive(a: Seq<char>, b: Seq<char>, c: Seq<char>)
    requires
        precedes(a, b),
        precedes(b, c),
    ensures
        precedes(a, c),
    decreases a.len(),
{
    if a.len() > 0 && a[0] == b[0] && b[0] == c[0] {
        lemma_precedes_transitive(a.skip(1), b.skip(1), c.skip(1));
    }
}

fn comes_before(a: &str, b: &str) -> (before: bool)
    ensures
        before == precedes(a@, b@),
{
    let left = letters(a);
    let right = letters(b);
    let mut i: usize = 0;
    assert(left@.skip(0) =~= left@);
    assert(right@.skip(0) =~= right@);
    while i < left.len() && i < right.len()
        invariant
            i <= left.len(),
            i <= right.len(),
            left@ == a@,
            right@ == b@,
            precedes(a@, b@) == precedes(left@.skip(i as int), right@.skip(i as int)),
        decreases left.len() - i,
    {
        if left[i] != right[i] {
            return left[i] < right[i];
        }
        proof {
            assert(left@.skip(i as int).skip(1) =~= left@.skip(i + 1));
            assert(right@.skip(i as int).skip(1) =~= right@.skip(i + 1));
        }
        i += 1;
    }
    i < right.len()
}

pub open spec fn names(list: Seq<String>) -> Seq<Seq<char>> {
    Seq::new(list.len(), |i: int| list[i]@)
}

/// Whether a list is in order, with no name twice.
pub open spec fn in_order(list: Seq<Seq<char>>) -> bool {
    forall|i: int, j: int|
        0 <= i < j < list.len() ==> precedes(#[trigger] list[i], #[trigger] list[j])
}

/// Adds a name to an ordered list.
pub(crate) fn insert_name(list: &mut Vec<String>, name: String)
    requires
        in_order(names(old(list)@)),
    ensures
        in_order(names(final(list)@)),
        forall|text: Seq<char>| #[trigger]
            names(final(list)@).contains(text) <==> names(old(list)@).contains(text) || text
                == name@,
{
    let ghost before = names(list@);
    let ghost added = name@;
    let mut i: usize = 0;
    while i < list.len() && comes_before(list[i].as_str(), name.as_str())
        invariant
            i <= list.len(),
            names(list@) == before,
            name@ == added,
            forall|j: int| 0 <= j < i ==> precedes(#[trigger] before[j], added),
        decreases list.len() - i,
    {
        assert(before[i as int] == list@[i as int]@);
        i += 1;
    }
    if i < list.len() {
        assert(before[i as int] == list@[i as int]@);
        if equal(list[i].as_str(), name.as_str()) {
            assert(before.contains(added));
            return;
        }
    }
    list.insert(i, name);
    proof {
        let after = names(list@);
        assert(after =~= before.insert(i as int, added));
        assert forall|j: int| i <= j < before.len() implies precedes(added, #[trigger] before[j]) by {
            lemma_precedes_total(before[i as int], added);
            if j > i {
                lemma_precedes_transitive(added, before[i as int], before[j]);
            }
        }
        assert forall|a: int, b: int| 0 <= a < b < after.len() implies precedes(
            #[trigger] after[a],
            #[trigger] after[b],
        ) by {
            let before_a = if a < i {
                a
            } else {
                a - 1
            };
            let before_b = if b < i {
                b
            } else {
                b - 1
            };
            if a != i && b != i {
                assert(after[a] == before[before_a]);
                assert(after[b] == before[before_b]);
            } else if a == i {
                assert(after[b] == before[before_b]);
            } else {
                assert(after[a] == before[before_a]);
            }
        }
        assert forall|text: Seq<char>| #[trigger]
            after.contains(text) <==> before.contains(text) || text == added by {
            if before.contains(text) {
                let j = choose|j: int| 0 <= j < before.len() && before[j] == text;
                if j < i {
                    assert(after[j] == text);
                } else {
                    assert(after[j + 1] == text);
                }
            }
            if text == added {
                assert(after[i as int] == text);
            }
            if after.contains(text) {
                let j = choose|j: int| 0 <= j < after.len() && after[j] == text;
                if j < i {
                    assert(before[j] == text);
                } else if j > i {
                    assert(before[j - 1] == text);
                }
            }
        }
    }
}

/// The names of event nodes among those of a directory, without opening
/// anything: whether a node can be opened does not matter.
pub fn event_nodes(entries: &Vec<String>) -> (out: Vec<String>)
    ensures
        in_order(names(out@)),
        forall|text: Seq<char>| #[trigger]
            names(out@).contains(text) <==> names(entries@).contains(text) && is_event_name(text),
{
    let mut found: Vec<String> = Vec::new();
    let mut i: usize = 0;
    while i < entries.len()
        invariant
            i <= entries.len(),
            in_order(names(found@)),
            forall|text: Seq<char>| #[trigger]
                names(found@).contains(text) <==> names(entries@).take(i as int).contains(text)
                    && is_event_name(text),
        decreases entries.len() - i,
    {
        proof {
            let all = names(entries@);
            assert(all.take(i + 1) =~= all.take(i as int).push(entries@[i as int]@));
            assert forall|text: Seq<char>| #[trigger]
                all.take(i + 1).contains(text) <==> all.take(i as int).contains(text) || text
                    == entries@[i as int]@ by {
                if all.take(i as int).contains(text) {
                    let j = choose|j: int|
                        0 <= j < all.take(i as int).len() && all.take(i as int)[j] == text;
                    assert(all.take(i + 1)[j] == text);
                }
                if text == entries@[i as int]@ {
                    assert(all.take(i + 1)[i as int] == text);
                }
            }
        }
        if is_event_node(entries[i].as_str()) {
            insert_name(&mut found, entries[i].clone());
        }
        i += 1;
    }
    assert(names(entries@).take(i as int) =~= names(entries@));
    found
}

/// The names of quirks files among those of a directory.
pub fn quirk_names(entries: &Vec<String>) -> (out: Vec<String>)
    ensures
        in_order(names(out@)),
        forall|text: Seq<char>| #[trigger]
            names(out@).contains(text) <==> names(entries@).contains(text) && is_quirk_name(text),
{
    let mut found: Vec<String> = Vec::new();
    let mut i: usize = 0;
    while i < entries.len()
        invariant
            i <= entries.len(),
            in_order(names(found@)),
            forall|text: Seq<char>| #[trigger]
                names(found@).contains(text) <==> names(entries@).take(i as int).contains(text)
                    && is_quirk_name(text),
        decreases entries.len() - i,
    {
        proof {
            let all = names(entries@);
            assert(all.take(i + 1) =~= all.take(i as int).push(entries@[i as int]@));
            assert forall|text: Seq<char>| #[trigger]
                all.take(i + 1).contains(text) <==> all.take(i as int).contains(text) || text
                    == entries@[i as int]@ by {
                if all.take(i as int).contains(text) {
                    let j = choose|j: int|
                        0 <= j < all.take(i as int).len() && all.take(i as int)[j] == text;
                    assert(all.take(i + 1)[j] == text);
                }
                if text == entries@[i as int]@ {
                    assert(all.take(i + 1)[i as int] == text);
                }
            }
        }
        if is_quirk_file(entries[i].as_str()) {
            insert_name(&mut found, entries[i].clone());
        }
        i += 1;
    }
    assert(names(entries@).take(i as int) =~= names(entries@));
    found
}

/// An ordered list is determined by what it holds.
pub proof fn law_order_is_unique(a: Seq<Seq<char>>, b: Seq<Seq<char>>)
    requires
        in_order(a),
        in_order(b),
        forall|text: Seq<char>| #[trigger] a.contains(text) <==> b.contains(text),
    ensures
        a == b,
    decreases a.len(),
{
    if a.len() == 0 {
        if b.len() > 0 {
            assert(b.contains(b[0]));
            assert(a.contains(b[0]));
        }
        assert(a =~= b);
    } else {
        assert(a.contains(a[0]));
        let i = choose|i: int| 0 <= i < b.len() && b[i] == a[0];
        assert(b.contains(b[0]));
        assert(a.contains(b[0]));
        let j = choose|j: int| 0 <= j < a.len() && a[j] == b[0];
        lemma_precedes_total(a[0], b[0]);
        if a[0] != b[0] {
            assert(precedes(b[0], b[i]));
            assert(precedes(a[0], a[j]));
        }
        let ta = a.skip(1);
        let tb = b.skip(1);
        assert forall|x: int, y: int| 0 <= x < y < ta.len() implies precedes(
            #[trigger] ta[x],
            #[trigger] ta[y],
        ) by {
            assert(ta[x] == a[x + 1] && ta[y] == a[y + 1]);
        }
        assert forall|x: int, y: int| 0 <= x < y < tb.len() implies precedes(
            #[trigger] tb[x],
            #[trigger] tb[y],
        ) by {
            assert(tb[x] == b[x + 1] && tb[y] == b[y + 1]);
        }
        assert forall|text: Seq<char>| #[trigger] ta.contains(text) <==> tb.contains(text) by {
            lemma_tail(a, text);
            lemma_tail(b, text);
            assert(a.contains(text) <==> b.contains(text));
        }
        law_order_is_unique(ta, tb);
        assert(a =~= seq![a[0]] + ta);
        assert(b =~= seq![b[0]] + tb);
    }
}

proof fn lemma_tail(list: Seq<Seq<char>>, text: Seq<char>)
    requires
        in_order(list),
        list.len() > 0,
    ensures
        list.skip(1).contains(text) <==> list.contains(text) && text != list[0],
{
    let tail = list.skip(1);
    if tail.contains(text) {
        let i = choose|i: int| 0 <= i < tail.len() && tail[i] == text;
        assert(list[i + 1] == text);
        assert(precedes(list[0], list[i + 1]));
        lemma_precedes_total(list[0], text);
    }
    if list.contains(text) && text != list[0] {
        let i = choose|i: int| 0 <= i < list.len() && list[i] == text;
        assert(tail[i - 1] == text);
    }
}

} // verus!
