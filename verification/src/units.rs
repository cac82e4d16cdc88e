//! The fixed-point scale shared by every quantity of the library.

use vstd::prelude::*;

verus! {

/// Thousandths of a world unit in one world unit.
pub const UNIT: i32 = 1000;

/// The distance between two numbers on the integer line.
pub open spec fn gap(a: int, b: int) -> int {
    if a >= b {
        a - b
    } else {
        b - a
    }
}

/// Computes the distance between two coordinates.
pub fn span(a: i32, b: i32) -> (d: u64)
    ensures
        d == gap(a as int, b as int),
{
    let wide_a: i64 = a as i64;
    let wide_b: i64 = b as i64;
    if wide_a >= wide_b {
        (wide_a - wide_b) as u64
    } else {
        (wide_b - wide_a) as u64
    }
}

/// The size of a number: its distance from zero.
pub open spec fn size(v: int) -> int {
    gap(v, 0)
}

/// Computes the size of a speed or coordinate.
pub fn magnitude(v: i32) -> (m: u32)
    ensures
        m == size(v as int),
{
    span(v, 0) as u32
}

/// Decides whether a number is at most `limit` in size.
pub fn within(v: i64, limit: u32) -> (small: bool)
    ensures
        small == (size(v as int) <= limit),
{
    let bound: i64 = limit as i64;
    -bound <= v && v <= bound
}

/// Turns a speed round. Every speed has an opposite, because a velocity has
/// more room than a speed.
pub fn reversed(v: i32) -> (r: i64)
    ensures
        r == -v,
{
    -(v as i64)
}

/// The quotient of `p` by a positive `q`, rounded toward zero.
pub open spec fn toward_zero(p: int, q: int) -> int {
    if p >= 0 {
        p / q
    } else {
        -((-p) / q)
    }
}

/// The part `factor / UNIT` of `amount`, rounded toward zero.
pub open spec fn scaled_spec(factor: int, amount: int) -> int {
    toward_zero(factor * amount, UNIT as int)
}

/// The part of an opposite amount is the opposite part.
pub proof fn lemma_scaled_opposite(factor: int, amount: int)
    ensures
        scaled_spec(factor, -amount) == -scaled_spec(factor, amount),
{
    assert(factor * (-amount) == -(factor * amount)) by (nonlinear_arith);
}

/// No part of nothing, and nothing of any amount.
pub proof fn lemma_scaled_nothing(factor: int, amount: int)
    ensures
        scaled_spec(factor, 0) == 0,
        scaled_spec(0, amount) == 0,
{
    assert(factor * 0 == 0) by (nonlinear_arith);
    assert(0 * amount == 0) by (nonlinear_arith);
}

/// A part of a speed, or of its opposite, has room in a velocity.
pub proof fn lemma_scaled_room(factor: int, amount: int)
    requires
        -0x8000_0000 <= factor <= 0x8000_0000,
        -0x8000_0000 <= amount <= 0x8000_0000,
    ensures
        -0x4000_0000_0000_0000 <= scaled_spec(factor, amount) <= 0x4000_0000_0000_0000,
{
    let p = factor * amount;
    assert(-0x4000_0000_0000_0000 <= p <= 0x4000_0000_0000_0000) by (nonlinear_arith)
        requires
            p == factor * amount,
            -0x8000_0000 <= factor <= 0x8000_0000,
            -0x8000_0000 <= amount <= 0x8000_0000,
    ;
}

/// Computes the part `factor / UNIT` of `amount`.
pub fn scaled(factor: i32, amount: i32) -> (part: i64)
    ensures
        part == scaled_spec(factor as int, amount as int),
        -0x4000_0000_0000_0000 <= part <= 0x4000_0000_0000_0000,
{
    let f: u64 = magnitude(factor) as u64;
    let a: u64 = magnitude(amount) as u64;
    assert(f * a <= 0x8000_0000 * 0x8000_0000) by (nonlinear_arith)
        requires
            f <= 0x8000_0000,
            a <= 0x8000_0000,
    ;
    let quotient: u64 = (f * a) / (UNIT as u64);
    proof {
        assert(size(factor as int * amount as int) == f * a) by (nonlinear_arith)
            requires
                f == size(factor as int),
                a == size(amount as int),
        ;
        assert((factor >= 0) == (amount >= 0) ==> factor as int * amount as int >= 0)
            by (nonlinear_arith);
        assert((factor >= 0) != (amount >= 0) ==> factor as int * amount as int <= 0)
            by (nonlinear_arith);
    }
    let same_sign: bool = (factor >= 0) == (amount >= 0);
    if same_sign {
        quotient as i64
    } else {
        -(quotient as i64)
    }
}

} // verus!
