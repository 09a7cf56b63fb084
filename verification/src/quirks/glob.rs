//! Patterns with `*` for any text and `?` for any one byte.
use vstd::prelude::*;
use vstd::utf8::encode_utf8;

verus! {

pub const STAR: u8 = 42;
pub const QUESTION: u8 = 63;

/// Whether one byte of a pattern stands for one byte of a text.
pub open spec fn stands_for(p: u8, v: u8) -> bool {
    p == QUESTION || p == v
}

/// Whether a text is what a pattern describes.
pub open spec fn glob(pattern: Seq<u8>, value: Seq<u8>) -> bool
    decreases pattern.len() + value.len(),
{
    if pattern.len() == 0 {
        value.len() == 0
    } else if pattern[0] == STAR {
        glob(pattern.skip(1), value) || (value.len() > 0 && glob(pattern, value.skip(1)))
    } else {
        value.len() > 0 && stands_for(pattern[0], value[0]) && glob(
            pattern.skip(1),
            value.skip(1),
        )
    }
}

/// How far a comparison has come: the places in pattern and text, and the
/// last star together with the place in the text that it was tried up to.
pub struct Progress {
    pub p: int,
    pub v: int,
    pub star: Option<int>,
    pub retry: int,
}

/// The next step of a comparison that has not reached the end of the text.
/// A star in the text stands for a star in the pattern first of all.
pub open spec fn advanced(pattern: Seq<u8>, value: Seq<u8>, at: Progress) -> Option<Progress> {
    if at.p < pattern.len() && stands_for(pattern[at.p], value[at.v]) {
        Some(Progress { p: at.p + 1, v: at.v + 1, ..at })
    } else if at.p < pattern.len() && pattern[at.p] == STAR {
        Some(Progress { p: at.p + 1, v: at.v, star: Some(at.p), retry: at.v })
    } else if at.star is Some {
        Some(Progress { p: at.star->0 + 1, v: at.retry + 1, retry: at.retry + 1, ..at })
    } else {
        None
    }
}

pub open spec fn all_stars(pattern: Seq<u8>, from: int) -> bool {
    forall|i: int| from <= i < pattern.len() ==> #[trigger] pattern[i] == STAR
}

pub open spec fn in_bounds(pattern: Seq<u8>, value: Seq<u8>, at: Progress) -> bool {
    &&& 0 <= at.p <= pattern.len()
    &&& 0 <= at.retry <= at.v <= value.len()
    &&& at.star is Some ==> 0 <= at.star->0 < at.p && pattern[at.star->0] == STAR
}

/// Whether a comparison succeeds from here on.
pub open spec fn succeeds(pattern: Seq<u8>, value: Seq<u8>, at: Progress) -> bool
    decreases value.len() - at.retry, pattern.len() - at.p,
    via comparison_ends
{
    if !in_bounds(pattern, value, at) {
        false
    } else if at.v >= value.len() {
        all_stars(pattern, at.p)
    } else {
        match advanced(pattern, value, at) {
            Some(next) => succeeds(pattern, value, next),
            None => false,
        }
    }
}

#[via_fn]
proof fn comparison_ends(pattern: Seq<u8>, value: Seq<u8>, at: Progress) {
}

fn matches_bytes(pattern: &[u8], value: &[u8]) -> (matches: bool)
    ensures
        matches == succeeds(
            pattern@,
            value@,
            Progress { p: 0, v: 0, star: None, retry: 0 },
        ),
{
    let mut p: usize = 0;
    let mut v: usize = 0;
    let mut star: Option<usize> = None;
    let mut retry: usize = 0;
    let ghost start = Progress { p: 0, v: 0, star: None, retry: 0 };
    let ghost mut at = start;
    while v < value.len()
        invariant
            start == (Progress { p: 0, v: 0, star: None, retry: 0 }),
            at == (Progress {
                p: p as int,
                v: v as int,
                star: match star {
                    Some(s) => Some(s as int),
                    None => None,
                },
                retry: retry as int,
            }),
            in_bounds(pattern@, value@, at),
            succeeds(pattern@, value@, start) == succeeds(pattern@, value@, at),
        decreases value.len() - retry, pattern.len() - p,
    {
        let ghost next = advanced(pattern@, value@, at);
        if p < pattern.len() && (pattern[p] == QUESTION || pattern[p] == value[v]) {
            p += 1;
            v += 1;
        } else if p < pattern.len() && pattern[p] == STAR {
            star = Some(p);
            p += 1;
            retry = v;
        } else if let Some(place) = star {
            p = place + 1;
            retry += 1;
            v = retry;
        } else {
            return false;
        }
        proof {
            at = next->0;
        }
    }
    let ghost reached = p as int;
    while p < pattern.len() && pattern[p] == STAR
        invariant
            reached <= p <= pattern.len(),
            forall|i: int| reached <= i < p ==> #[trigger] pattern@[i] == STAR,
        decreases pattern.len() - p,
    {
        p += 1;
    }
    p == pattern.len()
}

// ---------------------------------------------------------------------------
// Texts without stars
// ---------------------------------------------------------------------------
/// Whether `n` bytes of the pattern from `p` on are no stars and stand for
/// the bytes of the text from `v` on.
spec fn segment(pattern: Seq<u8>, p: int, value: Seq<u8>, v: int, n: int) -> bool {
    &&& 0 <= n
    &&& 0 <= p && p + n <= pattern.len()
    &&& 0 <= v && v + n <= value.len()
    &&& forall|i: int|
        0 <= i < n ==> #[trigger] pattern[p + i] != STAR && stands_for(pattern[p + i], value[v + i])
}

/// Whether `n` bytes of the pattern from `p` on are no stars.
spec fn plain(pattern: Seq<u8>, p: int, n: int) -> bool {
    &&& 0 <= n
    &&& 0 <= p && p + n <= pattern.len()
    &&& forall|i: int| 0 <= i < n ==> #[trigger] pattern[p + i] != STAR
}

/// A plain beginning that matches leaves the rest to be compared.
proof fn lemma_peel(pattern: Seq<u8>, p: int, value: Seq<u8>, v: int, n: int)
    requires
        segment(pattern, p, value, v, n),
    ensures
        glob(pattern.skip(p), value.skip(v)) == glob(pattern.skip(p + n), value.skip(v + n)),
    decreases n,
{
    if n > 0 {
        assert(pattern[p + 0] != STAR && stands_for(pattern[p + 0], value[v + 0]));
        assert(pattern.skip(p).skip(1) =~= pattern.skip(p + 1));
        assert(value.skip(v).skip(1) =~= value.skip(v + 1));
        assert(segment(pattern, p + 1, value, v + 1, n - 1)) by {
            assert forall|i: int| 0 <= i < n - 1 implies #[trigger] pattern[p + 1 + i] != STAR
                && stands_for(pattern[p + 1 + i], value[v + 1 + i]) by {
                let k = i + 1;
                assert(pattern[p + k] != STAR && stands_for(pattern[p + k], value[v + k]));
            }
        }
        lemma_peel(pattern, p + 1, value, v + 1, n - 1);
    }
}

/// A text that matches begins with what a plain beginning stands for.
proof fn lemma_plain(pattern: Seq<u8>, p: int, value: Seq<u8>, v: int, n: int)
    requires
        plain(pattern, p, n),
        0 <= v <= value.len(),
        glob(pattern.skip(p), value.skip(v)),
    ensures
        v + n <= value.len(),
        glob(pattern.skip(p + n), value.skip(v + n)),
    decreases n,
{
    if n > 0 {
        assert(pattern[p + 0] != STAR);
        assert(pattern.skip(p).skip(1) =~= pattern.skip(p + 1));
        assert(value.skip(v).skip(1) =~= value.skip(v + 1));
        assert(plain(pattern, p + 1, n - 1)) by {
            assert forall|i: int| 0 <= i < n - 1 implies #[trigger] pattern[p + 1 + i] != STAR by {
                let k = i + 1;
                assert(pattern[p + k] != STAR);
            }
        }
        lemma_plain(pattern, p + 1, value, v + 1, n - 1);
    }
}

/// What a star matches further on, it matches from here on.
proof fn lemma_star_absorbs(pattern: Seq<u8>, s: int, value: Seq<u8>, v: int, later: int)
    requires
        0 <= s < pattern.len(),
        pattern[s] == STAR,
        0 <= v <= later <= value.len(),
        glob(pattern.skip(s), value.skip(later)),
    ensures
        glob(pattern.skip(s), value.skip(v)),
    decreases later - v,
{
    if v < later {
        lemma_star_absorbs(pattern, s, value, v + 1, later);
        assert(value.skip(v).skip(1) =~= value.skip(v + 1));
    }
}

/// What a star matches is matched by what follows it, somewhere.
proof fn lemma_star_unfolds(pattern: Seq<u8>, s: int, value: Seq<u8>, v: int) -> (k: int)
    requires
        0 <= s < pattern.len(),
        pattern[s] == STAR,
        0 <= v <= value.len(),
        glob(pattern.skip(s), value.skip(v)),
    ensures
        v <= k <= value.len(),
        glob(pattern.skip(s + 1), value.skip(k)),
    decreases value.len() - v,
{
    assert(pattern.skip(s).skip(1) =~= pattern.skip(s + 1));
    if glob(pattern.skip(s + 1), value.skip(v)) {
        v
    } else {
        assert(value.skip(v).skip(1) =~= value.skip(v + 1));
        lemma_star_unfolds(pattern, s, value, v + 1)
    }
}

/// The end of a text is matched by stars only.
proof fn lemma_end(pattern: Seq<u8>, p: int)
    requires
        0 <= p <= pattern.len(),
    ensures
        glob(pattern.skip(p), Seq::empty()) == all_stars(pattern, p),
    decreases pattern.len() - p,
{
    if p < pattern.len() {
        lemma_end(pattern, p + 1);
        assert(pattern.skip(p).skip(1) =~= pattern.skip(p + 1));
        if all_stars(pattern, p + 1) && pattern[p] == STAR {
            assert forall|i: int| p <= i < pattern.len() implies #[trigger] pattern[i] == STAR by {
                if i > p {
                    assert(pattern[i] == STAR);
                }
            }
        }
    }
}

spec fn starless(value: Seq<u8>) -> bool {
    forall|i: int| 0 <= i < value.len() ==> #[trigger] value[i] != STAR
}

/// What is known while a text without stars is compared: the last star, tried
/// from `retry` on, decides, and what follows it matches so far.
spec fn on_track(pattern: Seq<u8>, value: Seq<u8>, at: Progress) -> bool {
    &&& in_bounds(pattern, value, at)
    &&& at.star is Some ==> {
        let s = at.star->0;
        &&& at.p - (s + 1) == at.v - at.retry
        &&& segment(pattern, s + 1, value, at.retry, at.v - at.retry)
    }
}

/// What a comparison from here on is to decide.
spec fn question(pattern: Seq<u8>, value: Seq<u8>, at: Progress) -> bool {
    match at.star {
        Some(s) => glob(pattern.skip(s), value.skip(at.retry)),
        None => glob(pattern.skip(at.p), value.skip(at.v)),
    }
}

proof fn lemma_segment_grows(pattern: Seq<u8>, p: int, value: Seq<u8>, v: int, n: int)
    requires
        segment(pattern, p, value, v, n),
        p + n < pattern.len(),
        v + n < value.len(),
        pattern[p + n] != STAR,
        stands_for(pattern[p + n], value[v + n]),
    ensures
        segment(pattern, p, value, v, n + 1),
{
    assert forall|i: int| 0 <= i < n + 1 implies #[trigger] pattern[p + i] != STAR && stands_for(
        pattern[p + i],
        value[v + i],
    ) by {
        if i < n {
            assert(pattern[p + i] != STAR && stands_for(pattern[p + i], value[v + i]));
        }
    }
}

proof fn lemma_one_step(pattern: Seq<u8>, value: Seq<u8>, at: Progress)
    requires
        on_track(pattern, value, at),
        starless(value),
        at.v < value.len(),
    ensures
        match advanced(pattern, value, at) {
            Some(next) => on_track(pattern, value, next) && question(pattern, value, next)
                == question(pattern, value, at),
            None => !question(pattern, value, at),
        },
{
    let rest = pattern.skip(at.p);
    let text = value.skip(at.v);
    assert(value[at.v] != STAR);
    if at.p < pattern.len() && stands_for(pattern[at.p], value[at.v]) {
        assert(pattern[at.p] != STAR);
        if at.star is Some {
            let s = at.star->0;
            lemma_segment_grows(pattern, s + 1, value, at.retry, at.v - at.retry);
        } else {
            assert(rest.skip(1) =~= pattern.skip(at.p + 1));
            assert(text.skip(1) =~= value.skip(at.v + 1));
        }
    } else if at.p < pattern.len() && pattern[at.p] == STAR {
        if at.star is Some {
            let s = at.star->0;
            let n = at.v - at.retry;
            lemma_peel(pattern, s + 1, value, at.retry, n);
            assert(pattern.skip(s).skip(1) =~= pattern.skip(s + 1));
            if question(pattern, value, at) {
                let k = lemma_star_unfolds(pattern, s, value, at.retry);
                assert(plain(pattern, s + 1, n)) by {
                    assert forall|i: int| 0 <= i < n implies #[trigger] pattern[s + 1 + i] != STAR by {
                        assert(pattern[s + 1 + i] != STAR && stands_for(
                            pattern[s + 1 + i],
                            value[at.retry + i],
                        ));
                    }
                }
                lemma_plain(pattern, s + 1, value, k, n);
                lemma_star_absorbs(pattern, at.p, value, at.v, k + n);
            }
        }
    } else if at.star is Some {
        let s = at.star->0;
        let n = at.v - at.retry;
        lemma_peel(pattern, s + 1, value, at.retry, n);
        assert(pattern.skip(s).skip(1) =~= pattern.skip(s + 1));
        assert(value.skip(at.retry).skip(1) =~= value.skip(at.retry + 1));
        assert(!glob(rest, text));
    }
}

proof fn lemma_comparison(pattern: Seq<u8>, value: Seq<u8>, at: Progress)
    requires
        on_track(pattern, value, at),
        starless(value),
    ensures
        succeeds(pattern, value, at) == question(pattern, value, at),
    decreases value.len() - at.retry, pattern.len() - at.p,
{
    if at.v < value.len() {
        lemma_one_step(pattern, value, at);
        if let Some(next) = advanced(pattern, value, at) {
            lemma_comparison(pattern, value, next);
        }
    } else {
        lemma_end(pattern, at.p);
        assert(value.skip(at.v) =~= Seq::<u8>::empty());
        if let Some(s) = at.star {
            let n = at.v - at.retry;
            lemma_peel(pattern, s + 1, value, at.retry, n);
            assert(pattern.skip(s).skip(1) =~= pattern.skip(s + 1));
            if question(pattern, value, at) {
                let k = lemma_star_unfolds(pattern, s, value, at.retry);
                assert(plain(pattern, s + 1, n)) by {
                    assert forall|i: int| 0 <= i < n implies #[trigger] pattern[s + 1 + i] != STAR by {
                        assert(pattern[s + 1 + i] != STAR && stands_for(
                            pattern[s + 1 + i],
                            value[at.retry + i],
                        ));
                    }
                }
                lemma_plain(pattern, s + 1, value, k, n);
            }
        }
    }
}

/// Whether a text matches a pattern. For texts without stars this is exactly
/// what the pattern describes.
pub fn glob_matches(pattern: &str, value: &str) -> (matches: bool)
    ensures
        matches == glob_result(pattern@, value@),
{
    matches_bytes(pattern.as_bytes(), value.as_bytes())
}

/// The result of comparing a text with a pattern.
pub open spec fn glob_result(pattern: Seq<char>, value: Seq<char>) -> bool {
    succeeds(
        encode_utf8(pattern),
        encode_utf8(value),
        Progress { p: 0, v: 0, star: None, retry: 0 },
    )
}

/// A text without stars is compared exactly: the result says whether the
/// pattern describes it.
pub proof fn law_glob_is_exact(pattern: Seq<char>, value: Seq<char>)
    requires
        forall|i: int| 0 <= i < encode_utf8(value).len() ==> encode_utf8(value)[i] != STAR,
    ensures
        glob_result(pattern, value) == glob(encode_utf8(pattern), encode_utf8(value)),
{
    let p = encode_utf8(pattern);
    let v = encode_utf8(value);
    assert(p.skip(0) =~= p);
    assert(v.skip(0) =~= v);
    lemma_comparison(p, v, Progress { p: 0, v: 0, star: None, retry: 0 });
}

} // verus!
