//! Text as sequences of characters: trimming, splitting, comparing and
//! reading numbers.
use vstd::prelude::*;
use vstd::slice::slice_subrange;

verus! {

/// Appends one character, as `String::push` does.
pub assume_specification[ String::push ](text: &mut String, c: char)
    ensures
        final(text)@ == old(text)@.push(c),
;

/// The characters of a text.
pub fn letters(text: &str) -> (chars: Vec<char>)
    ensures
        chars@ == text@,
{
    let mut chars: Vec<char> = Vec::new();
    for c in iter: text.chars()
        invariant
            iter.seq() == text@,
            chars@ == text@.take(iter.index() as int),
    {
        proof {
            assert(text@.take(iter.index() + 1) =~= text@.take(iter.index() as int).push(c));
        }
        chars.push(c);
    }
    assert(text@.take(text@.len() as int) =~= text@);
    chars
}

/// The text that characters make up.
pub fn string_of(chars: &[char]) -> (text: String)
    ensures
        text@ == chars@,
{
    let mut text = String::new();
    let mut i: usize = 0;
    while i < chars.len()
        invariant
            i <= chars.len(),
            text@ == chars@.take(i as int),
        decreases chars.len() - i,
    {
        proof {
            assert(chars@.take(i + 1) =~= chars@.take(i as int).push(chars@[i as int]));
        }
        text.push(chars[i]);
        i += 1;
    }
    assert(chars@.take(i as int) =~= chars@);
    text
}

// ---------------------------------------------------------------------------
// Comparing
// ---------------------------------------------------------------------------
fn same_letters(a: &[char], b: &[char]) -> (same: bool)
    ensures
        same == (a@ == b@),
{
    if a.len() != b.len() {
        return false;
    }
    let mut i: usize = 0;
    while i < a.len()
        invariant
            i <= a.len() == b.len(),
            forall|j: int| 0 <= j < i ==> a@[j] == b@[j],
        decreases a.len() - i,
    {
        if a[i] != b[i] {
            return false;
        }
        i += 1;
    }
    assert(a@ =~= b@);
    true
}

/// Whether characters spell a text.
pub fn same_text(chars: &[char], text: &str) -> (same: bool)
    ensures
        same == (chars@ == text@),
{
    let other = letters(text);
    same_letters(chars, other.as_slice())
}

/// Whether two texts are equal.
pub fn equal(a: &str, b: &str) -> (same: bool)
    ensures
        same == (a@ == b@),
{
    let left = letters(a);
    same_text(left.as_slice(), b)
}

/// The ASCII lower case of a character.
pub open spec fn lower(c: char) -> char {
    if 'A' <= c <= 'Z' {
        (c as u8 + 32) as char
    } else {
        c
    }
}

pub open spec fn lowered(text: Seq<char>) -> Seq<char> {
    Seq::new(text.len(), |i: int| lower(text[i]))
}

fn lower_letter(c: char) -> (l: char)
    ensures
        l == lower(c),
{
    if 'A' <= c && c <= 'Z' {
        let code: u8 = c as u8;
        (code + 32) as char
    } else {
        c
    }
}

/// A text in ASCII lower case.
pub fn to_lower(chars: &[char]) -> (out: Vec<char>)
    ensures
        out@ == lowered(chars@),
{
    let mut out: Vec<char> = Vec::new();
    let mut i: usize = 0;
    while i < chars.len()
        invariant
            i <= chars.len(),
            out@ == lowered(chars@).take(i as int),
        decreases chars.len() - i,
    {
        proof {
            assert(lowered(chars@).take(i + 1) =~= lowered(chars@).take(i as int).push(
                lowered(chars@)[i as int],
            ));
        }
        out.push(lower_letter(chars[i]));
        i += 1;
    }
    assert(lowered(chars@).take(i as int) =~= lowered(chars@));
    out
}

/// Whether two texts differ at most in ASCII case.
pub open spec fn same_folded(a: Seq<char>, b: Seq<char>) -> bool {
    lowered(a) == lowered(b)
}

pub fn equal_folded(chars: &[char], text: &str) -> (same: bool)
    ensures
        same == same_folded(chars@, text@),
{
    let other = letters(text);
    let a = to_lower(chars);
    let b = to_lower(other.as_slice());
    same_letters(a.as_slice(), b.as_slice())
}

// ---------------------------------------------------------------------------
// Finding
// ---------------------------------------------------------------------------
/// Whether `part` stands in `text` at `at`.
pub open spec fn found_at(text: Seq<char>, part: Seq<char>, at: int) -> bool {
    0 <= at && at + part.len() <= text.len() && text.subrange(at, at + part.len()) == part
}

/// Whether `part` stands anywhere in `text`.
pub open spec fn contains(text: Seq<char>, part: Seq<char>) -> bool {
    exists|at: int| found_at(text, part, at)
}

fn is_at(text: &[char], part: &[char], at: usize) -> (found: bool)
    requires
        at + part.len() <= text.len(),
    ensures
        found == found_at(text@, part@, at as int),
{
    same_letters(slice_subrange(text, at, at + part.len()), part)
}

pub fn contains_text(text: &[char], part: &str) -> (found: bool)
    ensures
        found == contains(text@, part@),
{
    let wanted = letters(part);
    if wanted.len() > text.len() {
        return false;
    }
    let last: usize = text.len() - wanted.len();
    let mut at: usize = 0;
    while at <= last
        invariant
            at <= last + 1,
            last == text.len() - wanted.len(),
            wanted@ == part@,
            forall|i: int| 0 <= i < at ==> !found_at(text@, part@, i),
        decreases last + 1 - at,
    {
        if is_at(text, wanted.as_slice(), at) {
            return true;
        }
        if at == last {
            assert forall|i: int| !found_at(text@, part@, i) by {
                if 0 <= i <= last {
                    assert(i < at || i == at);
                }
            }
            return false;
        }
        at += 1;
    }
    false
}

pub open spec fn begins(text: Seq<char>, part: Seq<char>) -> bool {
    found_at(text, part, 0)
}

pub fn begins_with(text: &[char], part: &str) -> (found: bool)
    ensures
        found == begins(text@, part@),
{
    let wanted = letters(part);
    wanted.len() <= text.len() && is_at(text, wanted.as_slice(), 0)
}

/// What follows a beginning.
pub open spec fn stripped(text: Seq<char>, part: Seq<char>) -> Option<Seq<char>> {
    if begins(text, part) {
        Some(text.skip(part.len() as int))
    } else {
        None
    }
}

/// What follows the beginning `part` of a text, if that is how it begins.
pub fn strip<'a>(text: &'a [char], part: &str) -> (rest: Option<&'a [char]>)
    ensures
        match rest {
            Some(rest) => stripped(text@, part@) == Some(rest@),
            None => stripped(text@, part@) is None,
        },
{
    let wanted = letters(part);
    if wanted.len() <= text.len() && is_at(text, wanted.as_slice(), 0) {
        proof {
            assert(text@.skip(part@.len() as int) =~= text@.subrange(
                part@.len() as int,
                text@.len() as int,
            ));
        }
        Some(slice_subrange(text, wanted.len(), text.len()))
    } else {
        None
    }
}

/// The first place of a character from `from` on, or the end.
pub open spec fn place_of(text: Seq<char>, c: char, from: int) -> int
    decreases text.len() - from,
{
    if from >= text.len() {
        text.len() as int
    } else if text[from] == c {
        from
    } else {
        place_of(text, c, from + 1)
    }
}

proof fn lemma_place(text: Seq<char>, c: char, from: int)
    requires
        0 <= from <= text.len(),
    ensures
        from <= place_of(text, c, from) <= text.len(),
        place_of(text, c, from) < text.len() ==> text[place_of(text, c, from)] == c,
    decreases text.len() - from,
{
    if from < text.len() && text[from] != c {
        lemma_place(text, c, from + 1);
    }
}

fn find(text: &[char], c: char, from: usize) -> (place: usize)
    requires
        from <= text.len(),
    ensures
        place == place_of(text@, c, from as int),
        from <= place <= text.len(),
{
    let mut i: usize = from;
    while i < text.len()
        invariant
            from <= i <= text.len(),
            place_of(text@, c, from as int) == place_of(text@, c, i as int),
        decreases text.len() - i,
    {
        if text[i] == c {
            return i;
        }
        i += 1;
    }
    i
}

/// What stands before and after the first `c`.
pub open spec fn halves(text: Seq<char>, c: char) -> Option<(Seq<char>, Seq<char>)> {
    let at = place_of(text, c, 0);
    if at < text.len() {
        Some((text.take(at), text.skip(at + 1)))
    } else {
        None
    }
}

pub fn split_once<'a>(text: &'a [char], c: char) -> (parts: Option<(&'a [char], &'a [char])>)
    ensures
        match parts {
            Some((a, b)) => halves(text@, c) == Some((a@, b@)),
            None => halves(text@, c) is None,
        },
{
    let at: usize = find(text, c, 0);
    if at < text.len() {
        proof {
            assert(text@.take(at as int) =~= text@.subrange(0, at as int));
            assert(text@.skip(at + 1) =~= text@.subrange(at + 1, text@.len() as int));
        }
        Some((slice_subrange(text, 0, at), slice_subrange(text, at + 1, text.len())))
    } else {
        None
    }
}

/// The contents of borrowed texts.
pub open spec fn texts(parts: Seq<&[char]>) -> Seq<Seq<char>> {
    Seq::new(parts.len(), |i: int| parts[i]@)
}

/// The parts between the occurrences of `c`.
pub open spec fn parts(text: Seq<char>, c: char) -> Seq<Seq<char>>
    decreases text.len(),
    via parts_decreases
{
    let at = place_of(text, c, 0);
    if at < text.len() {
        seq![text.take(at)] + parts(text.skip(at + 1), c)
    } else {
        seq![text]
    }
}

#[via_fn]
proof fn parts_decreases(text: Seq<char>, c: char) {
    lemma_place(text, c, 0);
}

proof fn lemma_place_shift(text: Seq<char>, c: char, start: int, from: int)
    requires
        0 <= start <= from <= text.len(),
    ensures
        place_of(text.skip(start), c, from - start) == place_of(text, c, from) - start,
    decreases text.len() - from,
{
    if from < text.len() && text[from] != c {
        lemma_place_shift(text, c, start, from + 1);
    }
}

pub fn split<'a>(text: &'a [char], c: char) -> (out: Vec<&'a [char]>)
    ensures
        texts(out@) == parts(text@, c),
{
    let mut out: Vec<&'a [char]> = Vec::new();
    let mut start: usize = 0;
    assert(text@.skip(0) =~= text@);
    assert(texts(out@) + parts(text@, c) =~= parts(text@, c));
    loop
        invariant
            start <= text.len(),
            texts(out@) + parts(text@.skip(start as int), c) == parts(text@, c),
        decreases text.len() - start,
    {
        let at: usize = find(text, c, start);
        let ghost before = out@;
        let ghost rest = text@.skip(start as int);
        proof {
            lemma_place_shift(text@, c, start as int, start as int);
            assert(text@.subrange(start as int, at as int) =~= rest.take(at - start));
        }
        out.push(slice_subrange(text, start, at));
        assert(texts(out@) =~= texts(before).push(rest.take(at - start)));
        if at >= text.len() {
            proof {
                assert(rest.take(at - start) =~= rest);
                assert(texts(out@) =~= texts(before) + seq![rest]);
            }
            return out;
        }
        proof {
            assert(text@.skip(at + 1) =~= rest.skip(at - start + 1));
            assert(texts(out@) + parts(text@.skip(at + 1), c) =~= texts(before) + (seq![
                rest.take(at - start),
            ] + parts(rest.skip(at - start + 1), c)));
        }
        start = at + 1;
    }
}

// ---------------------------------------------------------------------------
// White space
// ---------------------------------------------------------------------------
/// The characters that Unicode calls white space.
pub open spec fn is_space(c: char) -> bool {
    let code = c as u32;
    9 <= code <= 13 || code == 0x20 || code == 0x85 || code == 0xa0 || code == 0x1680 || 0x2000
        <= code <= 0x200a || code == 0x2028 || code == 0x2029 || code == 0x202f || code == 0x205f
        || code == 0x3000
}

pub fn is_white(c: char) -> (white: bool)
    ensures
        white == is_space(c),
{
    let code: u32 = c as u32;
    (9 <= code && code <= 13) || code == 0x20 || code == 0x85 || code == 0xa0 || code == 0x1680
        || (0x2000 <= code && code <= 0x200a) || code == 0x2028 || code == 0x2029 || code == 0x202f
        || code == 0x205f || code == 0x3000
}

/// The first place from `from` on that is not white space, or the end.
pub open spec fn solid_from(text: Seq<char>, from: int) -> int
    decreases text.len() - from,
{
    if from >= text.len() {
        text.len() as int
    } else if is_space(text[from]) {
        solid_from(text, from + 1)
    } else {
        from
    }
}

/// The end of what precedes the white space that ends at `to`.
pub open spec fn solid_to(text: Seq<char>, to: int) -> int
    decreases to,
{
    if to <= 0 {
        0
    } else if is_space(text[to - 1]) {
        solid_to(text, to - 1)
    } else {
        to
    }
}

/// A text without the white space around it.
pub open spec fn trimmed(text: Seq<char>) -> Seq<char> {
    let from = solid_from(text, 0);
    let to = solid_to(text, text.len() as int);
    if from < to {
        text.subrange(from, to)
    } else {
        Seq::empty()
    }
}

pub fn trim<'a>(text: &'a [char]) -> (out: &'a [char])
    ensures
        out@ == trimmed(text@),
{
    let mut from: usize = 0;
    while from < text.len() && is_white(text[from])
        invariant
            from <= text.len(),
            solid_from(text@, 0) == solid_from(text@, from as int),
        decreases text.len() - from,
    {
        from += 1;
    }
    let mut to: usize = text.len();
    while to > 0 && is_white(text[to - 1])
        invariant
            to <= text.len(),
            solid_to(text@, text@.len() as int) == solid_to(text@, to as int),
        decreases to,
    {
        to -= 1;
    }
    if from < to {
        slice_subrange(text, from, to)
    } else {
        proof {
            assert(text@.subrange(0, 0) =~= Seq::<char>::empty());
        }
        slice_subrange(text, 0, 0)
    }
}

/// The first white space from `from` on, or the end.
pub open spec fn space_from(text: Seq<char>, from: int) -> int
    decreases text.len() - from,
{
    if from >= text.len() {
        text.len() as int
    } else if is_space(text[from]) {
        from
    } else {
        space_from(text, from + 1)
    }
}

proof fn lemma_solid(text: Seq<char>, from: int)
    requires
        0 <= from <= text.len(),
    ensures
        from <= solid_from(text, from) <= text.len(),
        from <= space_from(text, from) <= text.len(),
        solid_from(text, from) < text.len() ==> !is_space(text[solid_from(text, from)]),
    decreases text.len() - from,
{
    if from < text.len() {
        lemma_solid(text, from + 1);
    }
}

/// The words from `from` on: what stands between white space.
pub open spec fn words_from(text: Seq<char>, from: int) -> Seq<Seq<char>>
    decreases text.len() - from,
    via words_decreases
{
    if 0 <= from <= text.len() && solid_from(text, from) < text.len() {
        let start = solid_from(text, from);
        let end = space_from(text, start);
        seq![text.subrange(start, end)] + words_from(text, end)
    } else {
        Seq::empty()
    }
}

#[via_fn]
proof fn words_decreases(text: Seq<char>, from: int) {
    if 0 <= from <= text.len() && solid_from(text, from) < text.len() {
        lemma_solid(text, from);
        lemma_solid(text, solid_from(text, from) + 1);
    }
}

/// The words of a text.
pub fn words<'a>(text: &'a [char]) -> (out: Vec<&'a [char]>)
    ensures
        texts(out@) == words_from(text@, 0),
{
    let mut out: Vec<&'a [char]> = Vec::new();
    let mut at: usize = 0;
    assert(texts(out@) + words_from(text@, 0) =~= words_from(text@, 0));
    loop
        invariant
            at <= text.len(),
            texts(out@) + words_from(text@, at as int) == words_from(text@, 0),
        decreases text.len() - at,
    {
        let ghost before = out@;
        let ghost began = at as int;
        let mut start: usize = at;
        while start < text.len() && is_white(text[start])
            invariant
                began <= start <= text.len(),
                solid_from(text@, began) == solid_from(text@, start as int),
            decreases text.len() - start,
        {
            start += 1;
        }
        if start >= text.len() {
            assert(texts(out@) =~= texts(out@) + words_from(text@, began));
            return out;
        }
        let mut end: usize = start;
        while end < text.len() && !is_white(text[end])
            invariant
                start <= end <= text.len(),
                space_from(text@, start as int) == space_from(text@, end as int),
            decreases text.len() - end,
        {
            end += 1;
        }
        proof {
            lemma_solid(text@, start + 1);
            assert(texts(before) + (seq![text@.subrange(start as int, end as int)] + words_from(
                text@,
                end as int,
            )) =~= texts(before).push(text@.subrange(start as int, end as int)) + words_from(
                text@,
                end as int,
            ));
        }
        out.push(slice_subrange(text, start, end));
        assert(texts(out@) =~= texts(before).push(text@.subrange(start as int, end as int)));
        at = end;
    }
}

// ---------------------------------------------------------------------------
// Lines
// ---------------------------------------------------------------------------
/// A line without the carriage return at its end.
pub open spec fn uncarried(line: Seq<char>) -> Seq<char> {
    if line.len() > 0 && line.last() == '\r' {
        line.drop_last()
    } else {
        line
    }
}

/// The lines of a text. A line feed, or a carriage return and a line feed,
/// ends a line; nothing follows the last one.
pub open spec fn lines_of(text: Seq<char>) -> Seq<Seq<char>> {
    let pieces = parts(text, '\n');
    let ended = Seq::new((pieces.len() - 1) as nat, |i: int| uncarried(pieces[i]));
    if pieces.last().len() == 0 {
        ended
    } else {
        ended.push(pieces.last())
    }
}

fn without_carriage_return<'a>(line: &'a [char]) -> (out: &'a [char])
    ensures
        out@ == uncarried(line@),
{
    let n: usize = line.len();
    if n > 0 && line[n - 1] == '\r' {
        proof {
            assert(line@.drop_last() =~= line@.subrange(0, n - 1));
        }
        slice_subrange(line, 0, n - 1)
    } else {
        line
    }
}

proof fn lemma_parts_nonempty(text: Seq<char>, c: char)
    ensures
        parts(text, c).len() >= 1,
{
}

pub fn lines<'a>(text: &'a [char]) -> (out: Vec<&'a [char]>)
    ensures
        texts(out@) == lines_of(text@),
{
    let pieces: Vec<&'a [char]> = split(text, '\n');
    proof {
        lemma_parts_nonempty(text@, '\n');
        assert(texts(pieces@).len() == pieces@.len());
    }
    let ghost all = parts(text@, '\n');
    let mut out: Vec<&'a [char]> = Vec::new();
    let mut i: usize = 0;
    while i < pieces.len() - 1
        invariant
            i <= pieces.len() - 1,
            pieces.len() >= 1,
            texts(pieces@) == all,
            out.len() == i,
            forall|j: int| 0 <= j < i ==> (#[trigger] out@[j])@ == uncarried(all[j]),
        decreases pieces.len() - i,
    {
        assert(pieces@[i as int]@ == all[i as int]);
        out.push(without_carriage_return(pieces[i]));
        i += 1;
    }
    let last: &'a [char] = pieces[pieces.len() - 1];
    assert(last@ == all.last());
    if last.len() > 0 {
        out.push(last);
    }
    assert(texts(out@) =~= lines_of(text@));
    out
}

// ---------------------------------------------------------------------------
// Numbers
// ---------------------------------------------------------------------------
/// What a digit is worth, whatever the base.
pub open spec fn digit_value(c: char) -> int {
    if '0' <= c <= '9' {
        c as u32 - '0' as u32
    } else if 'a' <= c <= 'z' {
        c as u32 - 'a' as u32 + 10
    } else if 'A' <= c <= 'Z' {
        c as u32 - 'A' as u32 + 10
    } else {
        99
    }
}

pub open spec fn all_digits(text: Seq<char>, base: int) -> bool {
    forall|i: int| 0 <= i < text.len() ==> digit_value(#[trigger] text[i]) < base
}

/// The number that digits stand for.
pub open spec fn numeral(text: Seq<char>, base: int) -> int
    decreases text.len(),
{
    if text.len() == 0 {
        0
    } else {
        numeral(text.drop_last(), base) * base + digit_value(text.last())
    }
}

/// The digits of a number, without its sign.
pub open spec fn unsigned_part(text: Seq<char>, signed: bool) -> Seq<char> {
    if text.len() > 0 && (text[0] == '+' || (signed && text[0] == '-')) {
        text.skip(1)
    } else {
        text
    }
}

/// The number that a text stands for: an optional plus sign, or a minus sign
/// where the number may be negative, and at least one digit. A number out of
/// range is none.
pub open spec fn parsed(text: Seq<char>, base: int, signed: bool, low: int, high: int) -> Option<
    int,
> {
    let digits = unsigned_part(text, signed);
    let value = if signed && text.len() > 0 && text[0] == '-' {
        -numeral(digits, base)
    } else {
        numeral(digits, base)
    };
    if digits.len() > 0 && all_digits(digits, base) && low <= value <= high {
        Some(value)
    } else {
        None
    }
}

fn value_of_digit(c: char) -> (v: u32)
    ensures
        v == digit_value(c),
        v <= 99,
{
    if '0' <= c && c <= '9' {
        c as u32 - '0' as u32
    } else if 'a' <= c && c <= 'z' {
        c as u32 - 'a' as u32 + 10
    } else if 'A' <= c && c <= 'Z' {
        c as u32 - 'A' as u32 + 10
    } else {
        99
    }
}

/// One more than the largest number that is told apart.
pub const TOO_LARGE: u128 = 0x1_0000_0000_0000_0000;

/// The number that digits stand for; anything larger than 64 bits counts as
/// the first number that is too large.
fn magnitude(digits: &[char], base: u32) -> (value: Option<u128>)
    requires
        2 <= base <= 36,
    ensures
        value is Some <==> digits.len() > 0 && all_digits(digits@, base as int),
        value matches Some(v) ==> 0 <= v <= TOO_LARGE && (v < TOO_LARGE ==> v == numeral(
            digits@,
            base as int,
        )) && (v == TOO_LARGE ==> numeral(digits@, base as int) >= TOO_LARGE),
{
    if digits.len() == 0 {
        return None;
    }
    let mut value: u128 = 0;
    let mut i: usize = 0;
    assert(digits@.take(0) =~= Seq::<char>::empty());
    while i < digits.len()
        invariant
            2 <= base <= 36,
            i <= digits.len(),
            value <= TOO_LARGE,
            forall|j: int| 0 <= j < i ==> digit_value(#[trigger] digits@[j]) < base,
            value < TOO_LARGE ==> value == numeral(digits@.take(i as int), base as int),
            value == TOO_LARGE ==> numeral(digits@.take(i as int), base as int) >= TOO_LARGE,
        decreases digits.len() - i,
    {
        let d: u32 = value_of_digit(digits[i]);
        if d >= base {
            assert(digit_value(digits@[i as int]) >= base);
            return None;
        }
        let ghost so_far = numeral(digits@.take(i as int), base as int);
        proof {
            assert(digits@.take(i + 1).drop_last() =~= digits@.take(i as int));
            assert(so_far >= TOO_LARGE ==> so_far * base >= TOO_LARGE) by (nonlinear_arith)
                requires
                    base >= 2,
            ;
            assert(value as int * base as int <= TOO_LARGE as int * 36) by (nonlinear_arith)
                requires
                    value <= TOO_LARGE,
                    base <= 36,
            ;
        }
        if value < TOO_LARGE {
            let next: u128 = value * (base as u128) + d as u128;
            value = if next < TOO_LARGE {
                next
            } else {
                TOO_LARGE
            };
        }
        i += 1;
    }
    assert(digits@.take(i as int) =~= digits@);
    Some(value)
}

/// Reads a number without a minus sign.
pub fn parse_unsigned(text: &[char], base: u32, high: u64) -> (value: Option<u64>)
    requires
        2 <= base <= 36,
    ensures
        match value {
            Some(v) => parsed(text@, base as int, false, 0, high as int) == Some(v as int),
            None => parsed(text@, base as int, false, 0, high as int) is None,
        },
{
    let digits: &[char] = if text.len() > 0 && text[0] == '+' {
        proof {
            assert(text@.skip(1) =~= text@.subrange(1, text@.len() as int));
        }
        slice_subrange(text, 1, text.len())
    } else {
        text
    };
    proof {
        lemma_numeral_nonnegative(digits@, base as int);
    }
    match magnitude(digits, base) {
        Some(v) => if v <= high as u128 {
            Some(v as u64)
        } else {
            None
        },
        None => None,
    }
}

proof fn lemma_numeral_nonnegative(text: Seq<char>, base: int)
    requires
        base >= 0,
    ensures
        numeral(text, base) >= 0,
    decreases text.len(),
{
    if text.len() > 0 {
        lemma_numeral_nonnegative(text.drop_last(), base);
        assert(numeral(text.drop_last(), base) * base >= 0) by (nonlinear_arith)
            requires
                numeral(text.drop_last(), base) >= 0,
                base >= 0,
        ;
    }
}

/// Reads a decimal number that may be negative.
pub fn parse_i32(text: &[char]) -> (value: Option<i32>)
    ensures
        match value {
            Some(v) => parsed(text@, 10, true, i32::MIN as int, i32::MAX as int) == Some(v as int),
            None => parsed(text@, 10, true, i32::MIN as int, i32::MAX as int) is None,
        },
{
    let negative = text.len() > 0 && text[0] == '-';
    let digits: &[char] = if text.len() > 0 && (text[0] == '+' || text[0] == '-') {
        proof {
            assert(text@.skip(1) =~= text@.subrange(1, text@.len() as int));
        }
        slice_subrange(text, 1, text.len())
    } else {
        text
    };
    proof {
        lemma_numeral_nonnegative(digits@, 10);
    }
    match magnitude(digits, 10) {
        Some(v) => if negative {
            if v <= 0x8000_0000 {
                let wide: i64 = -(v as i64);
                Some(wide as i32)
            } else {
                None
            }
        } else if v <= 0x7fff_ffff {
            Some(v as i32)
        } else {
            None
        },
        None => None,
    }
}

/// Whether digits have no superfluous zero in front.
pub open spec fn is_canonical(text: Seq<char>) -> bool {
    text.len() > 0 && (text.len() > 1 ==> text[0] != '0')
}

/// Whether a text is how a number is written in decimals.
pub open spec fn is_decimal(text: Seq<char>, n: int) -> bool {
    all_digits(text, 10) && is_canonical(text) && numeral(text, 10) == n
}

fn decimal_digit(d: u64) -> (c: char)
    requires
        d < 10,
    ensures
        digit_value(c) == d,
        d != 0 ==> c != '0',
{
    let code: u8 = 48 + d as u8;
    code as char
}

fn push_decimal(n: u64, chars: &mut Vec<char>)
    ensures
        exists|text: Seq<char>| #[trigger]
            is_decimal(text, n as int) && final(chars)@ == old(chars)@ + text,
    decreases n,
{
    let ghost before = chars@;
    if n < 10 {
        let c = decimal_digit(n);
        chars.push(c);
        proof {
            let text = seq![c];
            assert(text.drop_last() =~= Seq::<char>::empty());
            assert(numeral(text, 10) == n) by {
                reveal_with_fuel(numeral, 2);
            }
            assert(chars@ =~= before + text);
            assert(is_decimal(text, n as int));
        }
    } else {
        push_decimal(n / 10, chars);
        let ghost head = choose|text: Seq<char>| #[trigger]
            is_decimal(text, (n / 10) as int) && chars@ == before + text;
        let c = decimal_digit(n % 10);
        chars.push(c);
        proof {
            let text = head.push(c);
            assert(text.drop_last() =~= head);
            assert(numeral(text, 10) == n);
            assert(head[0] != '0') by {
                if head.len() == 1 {
                    assert(head.drop_last() =~= Seq::<char>::empty());
                    assert(numeral(head, 10) == digit_value(head[0])) by {
                        reveal_with_fuel(numeral, 2);
                    }
                }
            }
            assert(text[0] == head[0]);
            assert(chars@ =~= before + text);
            assert(is_decimal(text, n as int));
        }
    }
}

/// A number in decimals.
pub fn decimal(n: u64) -> (text: String)
    ensures
        is_decimal(text@, n as int),
{
    let mut chars: Vec<char> = Vec::new();
    push_decimal(n, &mut chars);
    proof {
        let text = choose|text: Seq<char>| #[trigger]
            is_decimal(text, n as int) && chars@ == Seq::<char>::empty() + text;
        assert(chars@ =~= text);
    }
    string_of(chars.as_slice())
}

/// A number is written in decimals in one way only.
pub proof fn law_decimals_are_unique(a: Seq<char>, b: Seq<char>, n: int)
    requires
        is_decimal(a, n),
        is_decimal(b, n),
    ensures
        a == b,
    decreases a.len(),
{
    lemma_decimal_digits(a, n);
    lemma_decimal_digits(b, n);
    if a.len() == 1 && b.len() == 1 {
        lemma_same_digit(a[0], b[0]);
        assert(a =~= b);
    } else if a.len() > 1 && b.len() > 1 {
        law_decimals_are_unique(a.drop_last(), b.drop_last(), n / 10);
        lemma_same_digit(a.last(), b.last());
        assert(a =~= b) by {
            assert(a =~= a.drop_last().push(a.last()));
            assert(b =~= b.drop_last().push(b.last()));
        }
    }
}

proof fn lemma_same_digit(a: char, b: char)
    requires
        digit_value(a) < 10,
        digit_value(a) == digit_value(b),
    ensures
        a == b,
{
}

proof fn lemma_decimal_digits(text: Seq<char>, n: int)
    requires
        is_decimal(text, n),
    ensures
        0 <= n,
        text.len() == 1 <==> n < 10,
        digit_value(text.last()) == n % 10,
        text.len() > 1 ==> is_decimal(text.drop_last(), n / 10),
{
    let head = text.drop_last();
    lemma_numeral_nonnegative(head, 10);
    assert(all_digits(head, 10)) by {
        assert forall|i: int| 0 <= i < head.len() implies digit_value(#[trigger] head[i]) < 10 by {
            assert(head[i] == text[i]);
        }
    }
    assert(0 <= digit_value(text.last()) < 10);
    if text.len() > 1 {
        lemma_numeral_positive(head);
        assert(is_decimal(head, n / 10));
    } else {
        assert(head =~= Seq::<char>::empty());
    }
}

proof fn lemma_numeral_positive(text: Seq<char>)
    requires
        all_digits(text, 10),
        text.len() > 0,
        text[0] != '0',
    ensures
        numeral(text, 10) > 0,
    decreases text.len(),
{
    assert(digit_value(text.last()) >= 0);
    if text.len() == 1 {
        assert(text.drop_last() =~= Seq::<char>::empty());
        assert(digit_value(text[0]) < 10);
        reveal_with_fuel(numeral, 2);
    } else {
        let head = text.drop_last();
        assert forall|i: int| 0 <= i < head.len() implies digit_value(#[trigger] head[i]) < 10 by {
            assert(head[i] == text[i]);
        }
        lemma_numeral_positive(head);
    }
}

/// Whether a text is how a number is written in hexadecimal, in lower case.
pub open spec fn is_hexadecimal(text: Seq<char>, n: int) -> bool {
    all_digits(text, 16) && is_canonical(text) && lowered(text) == text && numeral(text, 16) == n
}

fn hexadecimal_digit(d: u64) -> (c: char)
    requires
        d < 16,
    ensures
        digit_value(c) == d,
        lower(c) == c,
        d != 0 ==> c != '0',
{
    let code: u8 = if d < 10 {
        48 + d as u8
    } else {
        87 + d as u8
    };
    code as char
}

fn push_hexadecimal(n: u64, chars: &mut Vec<char>)
    ensures
        exists|text: Seq<char>| #[trigger]
            is_hexadecimal(text, n as int) && final(chars)@ == old(chars)@ + text,
    decreases n,
{
    let ghost before = chars@;
    if n < 16 {
        let c = hexadecimal_digit(n);
        chars.push(c);
        proof {
            let text = seq![c];
            assert(text.drop_last() =~= Seq::<char>::empty());
            assert(numeral(text, 16) == n) by {
                reveal_with_fuel(numeral, 2);
            }
            assert(lowered(text) =~= text);
            assert(chars@ =~= before + text);
            assert(is_hexadecimal(text, n as int));
        }
    } else {
        push_hexadecimal(n / 16, chars);
        let ghost head = choose|text: Seq<char>| #[trigger]
            is_hexadecimal(text, (n / 16) as int) && chars@ == before + text;
        let c = hexadecimal_digit(n % 16);
        chars.push(c);
        proof {
            let text = head.push(c);
            assert(text.drop_last() =~= head);
            assert(numeral(text, 16) == n);
            assert(head[0] != '0') by {
                if head.len() == 1 {
                    assert(head.drop_last() =~= Seq::<char>::empty());
                    assert(numeral(head, 16) == digit_value(head[0])) by {
                        reveal_with_fuel(numeral, 2);
                    }
                }
            }
            assert(text[0] == head[0]);
            assert(lowered(text) =~= lowered(head).push(lower(c)));
            assert(chars@ =~= before + text);
            assert(is_hexadecimal(text, n as int));
        }
    }
}

/// A number in hexadecimal.
pub fn hexadecimal(n: u64) -> (text: String)
    ensures
        is_hexadecimal(text@, n as int),
{
    let mut chars: Vec<char> = Vec::new();
    push_hexadecimal(n, &mut chars);
    proof {
        let text = choose|text: Seq<char>| #[trigger]
            is_hexadecimal(text, n as int) && chars@ == Seq::<char>::empty() + text;
        assert(chars@ =~= text);
    }
    string_of(chars.as_slice())
}

/// The first place of `part` from `from` on, or the end.
pub open spec fn part_place(text: Seq<char>, part: Seq<char>, from: int) -> int
    decreases text.len() - from,
{
    if from >= text.len() {
        text.len() as int
    } else if found_at(text, part, from) {
        from
    } else {
        part_place(text, part, from + 1)
    }
}

pub fn find_text(text: &[char], part: &str) -> (place: usize)
    ensures
        place == part_place(text@, part@, 0),
        place <= text.len(),
{
    let wanted = letters(part);
    let mut i: usize = 0;
    while i < text.len()
        invariant
            i <= text.len(),
            wanted@ == part@,
            part_place(text@, part@, 0) == part_place(text@, part@, i as int),
        decreases text.len() - i,
    {
        if wanted.len() <= text.len() - i && is_at(text, wanted.as_slice(), i) {
            return i;
        }
        i += 1;
    }
    i
}

/// The last place of a character before `to`.
pub open spec fn last_place(text: Seq<char>, c: char, to: int) -> Option<int>
    decreases to,
{
    if to <= 0 {
        None
    } else if text[to - 1] == c {
        Some(to - 1)
    } else {
        last_place(text, c, to - 1)
    }
}

pub fn find_last(text: &[char], c: char) -> (place: Option<usize>)
    ensures
        match place {
            Some(i) => i < text.len() && last_place(text@, c, text@.len() as int) == Some(i as int),
            None => last_place(text@, c, text@.len() as int) is None,
        },
{
    let mut to: usize = text.len();
    while to > 0
        invariant
            to <= text.len(),
            last_place(text@, c, text@.len() as int) == last_place(text@, c, to as int),
        decreases to,
    {
        if text[to - 1] == c {
            return Some(to - 1);
        }
        to -= 1;
    }
    None
}

} // verus!
