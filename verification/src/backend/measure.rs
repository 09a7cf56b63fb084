//! How far contacts moved apart, compared without roots.
use vstd::prelude::*;
use crate::ffi_types::Span;

verus! {

/// The square of a vector's length.
pub open spec fn square(dx: int, dy: int) -> int {
    dx * dx + dy * dy
}

/// Whether two lengths differ by more than a third one, all of them given by
/// their squares.
pub open spec fn differ_by_more(a: int, b: int, limit: int) -> bool {
    a + b > limit && (a + b - limit) * (a + b - limit) > 4 * a * b
}

/// Whether the distance of two contacts changed by more than half a unit, and
/// by more than twice the distance that they moved along.
pub open spec fn spread_spec(base: Span, now: Span, dx: i32, dy: i32) -> bool {
    let before = square(base.dx as int, base.dy as int);
    let after = square(now.dx as int, now.dy as int);
    let along = square(dx as int, dy as int);
    differ_by_more(4 * after, 4 * before, 1) && (along == 0 || differ_by_more(
        after,
        before,
        4 * along,
    ))
}

/// Comparing squares compares the lengths themselves.
pub proof fn law_squares_compare_lengths(a: int, b: int, limit: int)
    requires
        a >= 0,
        b >= 0,
        limit >= 0,
    ensures
        differ_by_more(a * a, b * b, limit * limit) <==> (a - b > limit || b - a > limit),
{
    let gap = if a >= b {
        a - b
    } else {
        b - a
    };
    let f = a * a + b * b - limit * limit;
    let g = 2 * (a * b);
    assert(f - g == gap * gap - limit * limit) by (nonlinear_arith)
        requires
            f == a * a + b * b - limit * limit,
            g == 2 * (a * b),
            gap == a - b || gap == b - a,
    ;
    assert(gap > limit <==> gap * gap > limit * limit) by (nonlinear_arith)
        requires
            gap >= 0,
            limit >= 0,
    ;
    assert(g >= 0) by (nonlinear_arith)
        requires
            a >= 0,
            b >= 0,
            g == 2 * (a * b),
    ;
    assert(f > g <==> (f > 0 && f * f > g * g)) by (nonlinear_arith)
        requires
            g >= 0,
    ;
    assert(g * g == 4 * (a * a) * (b * b)) by (nonlinear_arith)
        requires
            g == 2 * (a * b),
    ;
}

// ---------------------------------------------------------------------------
// Long numbers
// ---------------------------------------------------------------------------
/// A number in two parts, the higher one in units of 2 to the power of 68.
#[derive(Clone, Copy, Debug, PartialEq, Eq, Structural)]
struct Long {
    high: u128,
    low: u128,
}

impl Long {
    spec fn value(self) -> int {
        self.high * 0x10_0000_0000_0000_0000 + self.low
    }

    spec fn wf(self) -> bool {
        self.low < 0x10_0000_0000_0000_0000
    }

    fn exceeds(self, other: Long) -> (more: bool)
        requires
            self.wf(),
            other.wf(),
        ensures
            more == (self.value() > other.value()),
    {
        self.high > other.high || (self.high == other.high && self.low > other.low)
    }
}

proof fn lemma_halves(a: int, b: int, a1: int, a0: int, b1: int, b0: int, half: int)
    requires
        a == a1 * half + a0,
        b == b1 * half + b0,
    ensures
        a * b == a1 * b1 * (half * half) + (a1 * b0 + a0 * b1) * half + a0 * b0,
{
    let x = a1 * half;
    let y = b1 * half;
    assert((x + a0) * (y + b0) == x * y + x * b0 + a0 * y + a0 * b0) by (nonlinear_arith);
    assert((a1 * half) * (b1 * half) == a1 * b1 * (half * half)) by (nonlinear_arith);
    assert((a1 * half) * b0 == (a1 * b0) * half) by (nonlinear_arith);
    assert(a0 * (b1 * half) == (a0 * b1) * half) by (nonlinear_arith);
    assert((a1 * b0 + a0 * b1) * half == (a1 * b0) * half + (a0 * b1) * half)
        by (nonlinear_arith);
}

proof fn lemma_bounded(a: int, b: int, top_a: int, top_b: int)
    requires
        0 <= a <= top_a,
        0 <= b <= top_b,
    ensures
        0 <= a * b <= top_a * top_b,
{
    assert(0 <= a * b <= top_a * top_b) by (nonlinear_arith)
        requires
            0 <= a <= top_a,
            0 <= b <= top_b,
    ;
}

/// The product of two numbers below 2 to the power of 72.
fn product(a: u128, b: u128) -> (p: Long)
    requires
        a < 0x100_0000_0000_0000_0000,
        b < 0x100_0000_0000_0000_0000,
    ensures
        p.wf(),
        p.value() == a * b,
{
    let half: u128 = 0x4_0000_0000;
    let a1: u128 = a / half;
    let a0: u128 = a % half;
    let b1: u128 = b / half;
    let b0: u128 = b % half;
    proof {
        lemma_halves(
            a as int,
            b as int,
            a1 as int,
            a0 as int,
            b1 as int,
            b0 as int,
            half as int,
        );
        lemma_bounded(a1 as int, b1 as int, 0x40_0000_0000, 0x40_0000_0000);
        lemma_bounded(a1 as int, b0 as int, 0x40_0000_0000, 0x4_0000_0000);
        lemma_bounded(a0 as int, b1 as int, 0x4_0000_0000, 0x40_0000_0000);
        lemma_bounded(a0 as int, b0 as int, 0x4_0000_0000, 0x4_0000_0000);
    }
    let rest: u128 = (a1 * b0 + a0 * b1) * half + a0 * b0;
    let unit: u128 = 0x10_0000_0000_0000_0000;
    let p = Long { high: a1 * b1 + rest / unit, low: rest % unit };
    assert(rest == (rest / unit) * unit + rest % unit) by (nonlinear_arith)
        requires
            unit == 0x10_0000_0000_0000_0000u128,
    ;
    assert((a1 * b1 + rest / unit) * unit == a1 * b1 * unit + (rest / unit) * unit)
        by (nonlinear_arith);
    p
}

fn lengths_differ(a: u128, b: u128, limit: u128) -> (more: bool)
    requires
        a < 0x10_0000_0000_0000_0000,
        b < 0x10_0000_0000_0000_0000,
        limit < 0x10_0000_0000_0000_0000,
    ensures
        more == differ_by_more(a as int, b as int, limit as int),
{
    let sum: u128 = a + b;
    if sum <= limit {
        return false;
    }
    let f: u128 = sum - limit;
    proof {
        assert((4 * a) * b == 4 * a * b) by (nonlinear_arith);
    }
    product(f, f).exceeds(product(4 * a, b))
}

fn magnitude(x: i64) -> (m: u128)
    requires
        -0x1_0000_0000 <= x <= 0x1_0000_0000,
    ensures
        m == (if x < 0 {
            -x
        } else {
            x as int
        }),
        m <= 0x1_0000_0000,
{
    if x < 0 {
        (-x) as u128
    } else {
        x as u128
    }
}

fn squared(dx: i64, dy: i64) -> (s: u128)
    requires
        -0x1_0000_0000 <= dx <= 0x1_0000_0000,
        -0x1_0000_0000 <= dy <= 0x1_0000_0000,
    ensures
        s == square(dx as int, dy as int),
        s <= 0x2_0000_0000_0000_0000,
{
    let x: u128 = magnitude(dx);
    let y: u128 = magnitude(dy);
    proof {
        lemma_bounded(x as int, x as int, 0x1_0000_0000, 0x1_0000_0000);
        lemma_bounded(y as int, y as int, 0x1_0000_0000, 0x1_0000_0000);
        assert(x * x == dx * dx) by (nonlinear_arith)
            requires
                x == dx || x == -dx,
        ;
        assert(y * y == dy * dy) by (nonlinear_arith)
            requires
                y == dy || y == -dy,
        ;
    }
    x * x + y * y
}

/// Whether a vector lies between two contacts at all.
pub open spec fn span_fits(span: Span) -> bool {
    &&& -0x1_0000_0000 <= span.dx <= 0x1_0000_0000
    &&& -0x1_0000_0000 <= span.dy <= 0x1_0000_0000
}

pub fn spreads(base: Span, now: Span, dx: i32, dy: i32) -> (spread: bool)
    requires
        span_fits(base),
        span_fits(now),
    ensures
        spread == spread_spec(base, now, dx, dy),
{
    let before: u128 = squared(base.dx, base.dy);
    let after: u128 = squared(now.dx, now.dy);
    let along: u128 = squared(dx as i64, dy as i64);
    lengths_differ(4 * after, 4 * before, 1) && (along == 0 || lengths_differ(
        after,
        before,
        4 * along,
    ))
}

} // verus!
