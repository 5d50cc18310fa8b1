//! Saturating signed arithmetic.

use vstd::prelude::*;

verus! {

/// Absolute value.
pub open spec fn abs(n: int) -> int {
    if n < 0 {
        -n
    } else {
        n
    }
}

/// `n` clamped to the range of `i32`.
pub open spec fn sat_i32(n: int) -> i32 {
    if n > i32::MAX {
        i32::MAX
    } else if n < i32::MIN {
        i32::MIN
    } else {
        n as i32
    }
}

/// The sum, clamped to the range of `i32`.
pub fn saturating_add(a: i32, b: i32) -> (sum: i32)
    ensures
        sum == sat_i32(a + b),
{
    let wide: i64 = a as i64 + b as i64;
    if wide > i32::MAX as i64 {
        i32::MAX
    } else if wide < i32::MIN as i64 {
        i32::MIN
    } else {
        wide as i32
    }
}

/// The absolute value, clamped to the range of `i32`.
pub fn saturating_abs(n: i32) -> (magnitude: i32)
    ensures
        magnitude == sat_i32(abs(n as int)),
{
    if n == i32::MIN {
        i32::MAX
    } else if n < 0 {
        -n
    } else {
        n
    }
}

/// The product, clamped to the range of `i32`.
pub fn saturating_mul(a: i32, b: i32) -> (product: i32)
    ensures
        product == sat_i32(a * b),
{
    let wide: i128 = {
        assert(-0x4000_0000_0000_0000 <= a * b <= 0x4000_0000_0000_0000) by (nonlinear_arith)
            requires
                -0x8000_0000 <= a <= 0x7fff_ffff,
                -0x8000_0000 <= b <= 0x7fff_ffff,
        ;
        a as i128 * b as i128
    };
    if wide > i32::MAX as i128 {
        i32::MAX
    } else if wide < i32::MIN as i128 {
        i32::MIN
    } else {
        wide as i32
    }
}

/// The larger of two numbers.
pub fn max(a: i32, b: i32) -> (larger: i32)
    ensures
        larger == if a >= b {
            a
        } else {
            b
        },
{
    if a >= b {
        a
    } else {
        b
    }
}

/// Motion added up on each axis, without overflow, in the order given.
pub open spec fn added_up(moves: Seq<(i32, i32)>) -> (i32, i32)
    decreases moves.len(),
{
    if moves.len() == 0 {
        (0, 0)
    } else {
        let (x, y) = added_up(moves.drop_last());
        (sat_i32(x + moves.last().0), sat_i32(y + moves.last().1))
    }
}

/// Saturating keeps a number that fits, and gives the nearest end of the range for one
/// that does not; a magnitude is never negative and forgets only the sign.
pub proof fn law_saturating_is_the_nearest(n: int)
    ensures
        -0x8000_0000 <= n <= 0x7fff_ffff ==> sat_i32(n) == n,
        n > 0x7fff_ffff ==> sat_i32(n) == 0x7fff_ffff,
        n < -0x8000_0000 ==> sat_i32(n) == -0x8000_0000,
        abs(n) >= 0,
        abs(n) == n || abs(n) == -n,
{
}

/// Motion that never leaves the range adds up to its plain sum on each axis, and each
/// further motion is added with saturation to what came before.
pub proof fn law_motion_adds_up_in_order(moves: Seq<(i32, i32)>, x: i32, y: i32)
    ensures
        added_up(Seq::<(i32, i32)>::empty()) == (0i32, 0i32),
        added_up(moves.push((x, y))).0 == sat_i32(added_up(moves).0 + x),
        added_up(moves.push((x, y))).1 == sat_i32(added_up(moves).1 + y),
{
    assert(moves.push((x, y)).drop_last() == moves);
}

} // verus!
