//! Fixed-point chart coordinates and their division helper.

use vstd::prelude::*;
use vstd::arithmetic::div_mod::{lemma_div_pos_is_pos, lemma_div_nonincreasing};

verus! {

/// Number of fixed-point quanta in one chart-space unit.
pub const SCALE: i64 = 1000;

/// Largest coordinate magnitude (in quanta) the engine accepts for a render
/// pass.  A viewport whose bounds leave this range is treated like a
/// non-finite one: the next render pass reports a geometry error.
pub const COORD_LIMIT: i64 = 1_000_000_000;

/// Truncating (round-toward-zero) division, the semantics of `/` on the
/// machine integers.  Only used with a positive divisor.
pub open spec fn trunc_div(a: int, b: int) -> int {
    if a >= 0 {
        a / b
    } else {
        -((-a) / b)
    }
}

/// Truncating division on `i64`, with its result pinned to `trunc_div`.
pub fn div_fixed(a: i64, b: i64) -> (q: i64)
    requires
        b > 0,
        a > i64::MIN,
    ensures
        q == trunc_div(a as int, b as int),
        a >= 0 ==> 0 <= q <= a,
        a < 0 ==> a <= q <= 0,
{
    proof {
        if a >= 0 {
            lemma_div_pos_is_pos(a as int, b as int);
            lemma_div_nonincreasing(a as int, b as int);
        } else {
            lemma_div_pos_is_pos(-(a as int), b as int);
            lemma_div_nonincreasing(-(a as int), b as int);
            assert((a as int) * -1 == -(a as int));
        }
    }
    a.checked_div(b).unwrap()
}

} // verus!
