//! Text: what cutting, trimming, folding and reading numbers mean.
use vstd::prelude::*;
use crate::text::{
    all_digits, contains, digit_value, found_at, halves, is_space, last_place, lines_of, lower,
    lowered, numeral, parsed, part_place, parts, place_of, solid_from, solid_to, stripped, trimmed,
    uncarried, words_from,
};
use crate::clock::{elapsed_spec, later_spec, passed_spec, within_spec};
use crate::hwdetect::properties_after;

verus! {

proof fn lemma_first(text: Seq<char>, c: char, from: int)
    requires
        0 <= from <= text.len(),
    ensures
        from <= place_of(text, c, from) <= text.len(),
        place_of(text, c, from) < text.len() ==> text[place_of(text, c, from)] == c,
        forall|i: int| from <= i < place_of(text, c, from) ==> text[i] != c,
    decreases text.len() - from,
{
    if from < text.len() && text[from] != c {
        lemma_first(text, c, from + 1);
    }
}

/// A text is cut at the first separator: the halves and the separator between
/// them are the text, and the first half has none. What cannot be cut has
/// none.
pub proof fn law_halves_make_the_text(text: Seq<char>, c: char)
    ensures
        match halves(text, c) {
            Some((first, second)) => text == first + seq![c] + second && !first.contains(c),
            None => !text.contains(c),
        },
{
    lemma_first(text, c, 0);
    if let Some((first, second)) = halves(text, c) {
        assert(text =~= first + seq![c] + second);
    }
}

/// The parts of a text with separators between them.
pub open spec fn joined(list: Seq<Seq<char>>, c: char) -> Seq<char>
    decreases list.len(),
{
    if list.len() == 0 {
        Seq::empty()
    } else if list.len() == 1 {
        list[0]
    } else {
        list[0] + seq![c] + joined(list.skip(1), c)
    }
}

/// A text is its parts with the separators between them, and no part holds a
/// separator.
pub proof fn law_parts_make_the_text(text: Seq<char>, c: char)
    ensures
        parts(text, c).len() >= 1,
        joined(parts(text, c), c) == text,
        forall|i: int| 0 <= i < parts(text, c).len() ==> !(#[trigger] parts(text, c)[i]).contains(c),
    decreases text.len(),
{
    lemma_first(text, c, 0);
    let at = place_of(text, c, 0);
    let all = parts(text, c);
    if at < text.len() {
        let rest = text.skip(at + 1);
        law_parts_make_the_text(rest, c);
        let more = parts(rest, c);
        assert(all == seq![text.take(at)] + more);
        assert(all.skip(1) =~= more);
        assert(text =~= text.take(at) + seq![c] + rest);
        assert forall|i: int| 0 <= i < all.len() implies !(#[trigger] all[i]).contains(c) by {
            if i > 0 {
                assert(all[i] == more[i - 1]);
            }
        }
    } else {
        assert(all =~= seq![text]);
    }
}

/// A text begins with another exactly if it is that one and a rest, and the
/// rest is what is left of it.
pub proof fn law_stripping_takes_the_beginning(text: Seq<char>, part: Seq<char>)
    ensures
        stripped(part + text, part) == Some(text),
        stripped(text, part) matches Some(rest) ==> text == part + rest,
{
    let whole = part + text;
    assert(whole.subrange(0, part.len() as int) =~= part);
    assert(whole.skip(part.len() as int) =~= text);
    if let Some(rest) = stripped(text, part) {
        assert(text =~= part + rest);
    }
}

/// A text holds another exactly if it is something, that one, and something.
pub proof fn law_parts_are_found_anywhere(before: Seq<char>, part: Seq<char>, after: Seq<char>)
    ensures
        contains(before + part + after, part),
{
    let whole = before + part + after;
    let at = before.len() as int;
    assert(whole.subrange(at, at + part.len()) =~= part);
    assert(found_at(whole, part, at));
}

/// What is found in a text is in it.
pub proof fn law_what_is_found_is_there(text: Seq<char>, part: Seq<char>)
    requires
        contains(text, part),
    ensures
        exists|before: Seq<char>, after: Seq<char>| #[trigger] (before + part + after) == text,
{
    let at = choose|at: int| found_at(text, part, at);
    let before = text.take(at);
    let after = text.skip(at + part.len());
    assert(before + part + after =~= text);
}

proof fn lemma_solid_ends(text: Seq<char>, from: int, to: int)
    requires
        0 <= from <= text.len(),
        0 <= to <= text.len(),
    ensures
        from <= solid_from(text, from) <= text.len(),
        forall|i: int| from <= i < solid_from(text, from) ==> is_space(#[trigger] text[i]),
        solid_from(text, from) < text.len() ==> !is_space(text[solid_from(text, from)]),
        0 <= solid_to(text, to) <= to,
        forall|i: int| solid_to(text, to) <= i < to ==> is_space(#[trigger] text[i]),
        solid_to(text, to) > 0 ==> !is_space(text[solid_to(text, to) - 1]),
    decreases text.len() - from, to,
{
    if from < text.len() {
        lemma_solid_ends(text, from + 1, to);
    }
    if to > 0 && from == text.len() {
        lemma_solid_ends(text, from, to - 1);
    }
}

/// Trimming takes white space off both ends and nothing else: what is left
/// neither begins nor ends with any, and what was taken is nothing but that.
pub proof fn law_trimming_takes_white_space(text: Seq<char>) -> (r: (int, int))
    ensures
        ({
            let (from, to) = r;
            let kept = trimmed(text);
            &&& 0 <= from <= to <= text.len()
            &&& kept == text.subrange(from, to)
            &&& forall|i: int| 0 <= i < from ==> is_space(#[trigger] text[i])
            &&& forall|i: int| to <= i < text.len() ==> is_space(#[trigger] text[i])
            &&& kept.len() > 0 ==> !is_space(kept[0]) && !is_space(kept.last())
        }),
{
    lemma_solid_ends(text, 0, text.len() as int);
    let from = solid_from(text, 0);
    let to = solid_to(text, text.len() as int);
    if from < to {
        (from, to)
    } else {
        assert(text.subrange(text.len() as int, text.len() as int) =~= trimmed(text));
        assert forall|i: int| 0 <= i < text.len() implies is_space(#[trigger] text[i]) by {
            if i >= from {
                assert(to <= i);
            }
        }
        (text.len() as int, text.len() as int)
    }
}

/// Words are what stands between white space: none of them holds any, and
/// none is empty.
pub proof fn law_words_hold_no_white_space(text: Seq<char>, from: int)
    requires
        0 <= from <= text.len(),
    ensures
        forall|i: int|
            0 <= i < words_from(text, from).len() ==> (#[trigger] words_from(text, from)[i]).len()
                > 0 && !is_space(words_from(text, from)[i][0]),
    decreases text.len() - from,
{
    lemma_solid_ends(text, from, 0);
    let start = solid_from(text, from);
    if start < text.len() {
        lemma_word_end(text, start);
        let end = crate::text::space_from(text, start);
        law_words_hold_no_white_space(text, end);
        let rest = words_from(text, end);
        let all = words_from(text, from);
        assert(all == seq![text.subrange(start, end)] + rest);
        assert forall|i: int| 0 <= i < all.len() implies (#[trigger] all[i]).len() > 0 && !is_space(
            all[i][0],
        ) by {
            if i > 0 {
                assert(all[i] == rest[i - 1]);
            }
        }
    }
}

proof fn lemma_word_end(text: Seq<char>, start: int)
    requires
        0 <= start < text.len(),
        !is_space(text[start]),
    ensures
        start < crate::text::space_from(text, start) <= text.len(),
        forall|i: int|
            start <= i < crate::text::space_from(text, start) ==> !is_space(#[trigger] text[i]),
    decreases text.len() - start,
{
    if start + 1 < text.len() && !is_space(text[start + 1]) {
        lemma_word_end(text, start + 1);
    } else if start + 1 < text.len() {
        assert(crate::text::space_from(text, start + 1) == start + 1);
    } else {
        assert(crate::text::space_from(text, start + 1) == text.len());
    }
}

/// Folding changes the letters from A to Z into those from a to z, and nothing
/// else; folding twice is folding once.
pub proof fn law_folding_lowers_letters(text: Seq<char>, i: int)
    requires
        0 <= i < text.len(),
    ensures
        lowered(text).len() == text.len(),
        'A' <= text[i] <= 'Z' ==> lowered(text)[i] as u32 - text[i] as u32 == 32,
        !('A' <= text[i] <= 'Z') ==> lowered(text)[i] == text[i],
        lowered(lowered(text)) == lowered(text),
{
    assert forall|k: int| 0 <= k < text.len() implies lower(#[trigger] lower(text[k])) == lower(
        text[k],
    ) by {
        lemma_lower(text[k]);
    }
    lemma_lower(text[i]);
    assert(lowered(lowered(text)) =~= lowered(text));
}

proof fn lemma_lower(c: char)
    ensures
        'A' <= c <= 'Z' ==> lower(c) as u32 - c as u32 == 32 && 'a' <= lower(c) <= 'z',
        !('A' <= c <= 'Z') ==> lower(c) == c,
        lower(lower(c)) == lower(c),
{
}

/// A carriage return is taken off the end of a line once.
pub proof fn law_carriage_returns_are_taken_off(line: Seq<char>)
    ensures
        uncarried(line.push('\r')) == line,
        line.len() == 0 || line.last() != '\r' ==> uncarried(line) == line,
{
    assert(line.push('\r').drop_last() =~= line);
}

/// A digit that is written behind a number makes it that many times as large
/// as the base says, and adds what the digit is worth.
pub proof fn law_digits_count_by_their_place(text: Seq<char>, c: char, base: int)
    ensures
        numeral(text.push(c), base) == numeral(text, base) * base + digit_value(c),
        '0' <= c <= '9' ==> digit_value(c) == c as u32 - 48,
        'a' <= c <= 'z' ==> digit_value(c) == c as u32 - 97 + 10,
        'A' <= c <= 'Z' ==> digit_value(c) == c as u32 - 65 + 10,
        numeral(Seq::empty(), base) == 0,
{
    assert(text.push(c).drop_last() =~= text);
}

/// A minus makes a number negative and a plus changes nothing; a number that
/// cannot be negative has no minus. A number is one only with at least one
/// digit, nothing but digits, and within its bounds.
pub proof fn law_signs_stand_in_front(text: Seq<char>, base: int, low: int, high: int)
    requires
        2 <= base <= 36,
        text.len() > 0,
        all_digits(text, base),
    ensures
        ({
            let n = numeral(text, base);
            let minus = seq!['-'] + text;
            let plus = seq!['+'] + text;
            &&& low <= n <= high ==> parsed(text, base, true, low, high) == Some(n)
            &&& low <= n <= high ==> parsed(text, base, false, low, high) == Some(n)
            &&& low <= n <= high ==> parsed(plus, base, true, low, high) == Some(n)
            &&& low <= -n <= high ==> parsed(minus, base, true, low, high) == Some(-n)
            &&& parsed(minus, base, false, low, high) is None
            &&& n < low || n > high ==> parsed(text, base, true, low, high) is None
            &&& parsed(Seq::empty(), base, true, low, high) is None
        }),
{
    let minus = seq!['-'] + text;
    let plus = seq!['+'] + text;
    assert(minus.skip(1) =~= text);
    assert(plus.skip(1) =~= text);
    assert(minus[0] == '-' && plus[0] == '+');
    assert(digit_value(text[0]) < base);
    assert(digit_value('-') == 99 && digit_value('+') == 99);
    assert(digit_value(minus[0]) == 99);
}

/// The first place of a part is the first: it is found there and nowhere
/// before.
pub proof fn law_the_first_place_is_the_first(text: Seq<char>, part: Seq<char>, from: int)
    requires
        0 <= from <= text.len(),
    ensures
        from <= part_place(text, part, from) <= text.len(),
        part_place(text, part, from) < text.len() ==> found_at(
            text,
            part,
            part_place(text, part, from),
        ),
        forall|i: int|
            from <= i < part_place(text, part, from) ==> !#[trigger] found_at(text, part, i),
    decreases text.len() - from,
{
    if from < text.len() && !found_at(text, part, from) {
        law_the_first_place_is_the_first(text, part, from + 1);
    }
}

/// The last place of a character is the last.
pub proof fn law_the_last_place_is_the_last(text: Seq<char>, c: char, to: int)
    requires
        0 <= to <= text.len(),
    ensures
        match last_place(text, c, to) {
            Some(at) => 0 <= at < to && text[at] == c && forall|i: int|
                at < i < to ==> text[i] != c,
            None => forall|i: int| 0 <= i < to ==> text[i] != c,
        },
    decreases to,
{
    if to > 0 && text[to - 1] != c {
        law_the_last_place_is_the_last(text, c, to - 1);
    }
}

/// A property line sets the property that it names to its value; the latest
/// line counts, and other lines set nothing.
pub proof fn law_property_lines_set_properties(
    rows: Seq<Seq<char>>,
    known: Map<Seq<char>, Seq<char>>,
    name: Seq<char>,
    value: Seq<char>,
)
    requires
        !name.contains('='),
    ensures
        ({
            let line = "E:"@ + name + seq!['='] + value;
            let more = rows.push(line);
            properties_after(more, more.len() as int, known) == properties_after(
                rows,
                rows.len() as int,
                known,
            ).insert(name, value)
        }),
{
    let line = "E:"@ + name + seq!['='] + value;
    let more = rows.push(line);
    let rest = name + seq!['='] + value;
    assert(line =~= "E:"@ + rest);
    law_stripping_takes_the_beginning(rest, "E:"@);
    lemma_first(rest, '=', 0);
    assert(rest[name.len() as int] == '=');
    let at = place_of(rest, '=', 0);
    assert(at <= name.len());
    if at < name.len() {
        assert(name[at] == rest[at]);
        assert(name.contains('='));
    }
    assert(rest.take(at) =~= name);
    assert(rest.skip(at + 1) =~= value);
    assert(more[more.len() - 1] == line);
    lemma_prefix(rows, more, rows.len() as int, known);
}

proof fn lemma_prefix(
    a: Seq<Seq<char>>,
    b: Seq<Seq<char>>,
    n: int,
    known: Map<Seq<char>, Seq<char>>,
)
    requires
        0 <= n <= a.len() <= b.len(),
        forall|i: int| 0 <= i < n ==> #[trigger] a[i] == b[i],
    ensures
        properties_after(a, n, known) == properties_after(b, n, known),
    decreases n,
{
    if n > 0 {
        lemma_prefix(a, b, n - 1, known);
        assert(a[n - 1] == b[n - 1]);
    }
}

/// A span is over exactly when the moment that lies that far ahead has come,
/// and until then it is not.
pub proof fn law_spans_end_in_time(start: u64, span: u64, now: u64)
    requires
        start <= now,
        start + span <= u64::MAX,
    ensures
        later_spec(start, span) == start + span,
        passed_spec(now, Some(start), span) <==> now >= start + span,
        within_spec(now, Some(start), span) <==> now < start + span,
        !passed_spec(now, None, span) && !within_spec(now, None, span),
        elapsed_spec(now, start) + start == now,
        elapsed_spec(start, now) == 0,
{
}

proof fn lemma_parts_of_line(line: Seq<char>, rest: Seq<char>, c: char)
    requires
        !line.contains(c),
    ensures
        parts(line + seq![c] + rest, c) == seq![line] + parts(rest, c),
        parts(line, c) == seq![line],
{
    let text = line + seq![c] + rest;
    lemma_first(text, c, 0);
    let at = place_of(text, c, 0);
    assert(text[line.len() as int] == c);
    if at < line.len() {
        assert(line[at] == c);
    }
    assert(at == line.len());
    assert(text.take(at) =~= line);
    assert(text.skip(at + 1) =~= rest);
    lemma_first(line, c, 0);
    if place_of(line, c, 0) < line.len() {
        assert(line.contains(c));
    }
}

/// A line ends with a line feed, or with a carriage return and a line feed; the
/// lines of what follows come after it. What no line feed ends is a line too,
/// unless it is empty.
pub proof fn law_lines_end_with_line_feeds(line: Seq<char>, rest: Seq<char>)
    requires
        !line.contains('\n'),
    ensures
        lines_of(line + seq!['\n'] + rest) == seq![uncarried(line)] + lines_of(rest),
        line.len() > 0 ==> lines_of(line) == seq![line],
        lines_of(Seq::empty()).len() == 0,
{
    let text = line + seq!['\n'] + rest;
    lemma_parts_of_line(line, rest, '\n');
    law_parts_make_the_text(rest, '\n');
    let more = parts(rest, '\n');
    let all = parts(text, '\n');
    assert(all.len() == more.len() + 1);
    assert(all.last() == more.last());
    assert(all[0] == line);
    assert forall|i: int| 1 <= i < all.len() implies all[i] == more[i - 1] by {}
    assert(lines_of(text) =~= seq![uncarried(line)] + lines_of(rest));
    assert(lines_of(line) =~= if line.len() > 0 {
        seq![line]
    } else {
        Seq::empty()
    });
    let none = Seq::<char>::empty();
    lemma_parts_of_line(none, rest, '\n');
    assert(lines_of(none) =~= Seq::<Seq<char>>::empty());
}

/// Blanks, tabs and the ends of lines are white space; what can be seen in
/// ASCII is not.
pub proof fn law_white_space_cannot_be_seen(c: char)
    ensures
        is_space(' ') && is_space('\t') && is_space('\n') && is_space('\r'),
        '!' <= c <= '~' ==> !is_space(c),
{
}

} // verus!
