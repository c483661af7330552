//! Small integer helpers: floor division and extrema.

use vstd::prelude::*;

use crate::regs::cycles_to_dots;

verus! {

/// Floor division by eight.
pub fn div8(v: i32) -> (r: i32)
    ensures
        r == v as int / 8,
{
    if v >= 0 {
        (v as u32 / 8) as i32
    } else {
        let w: u32 = (-(v + 1)) as u32;
        -((w / 8) as i32) - 1
    }
}

/// The remainder that goes with it, 0 to 7.
pub fn mod8(v: i32) -> (r: i32)
    ensures
        r == v as int % 8,
{
    if v >= 0 {
        (v as u32 % 8) as i32
    } else {
        let w: u32 = (-(v + 1)) as u32;
        7 - (w % 8) as i32
    }
}

/// The non-negative remainder of `v` by `m`.
pub fn floor_mod(v: i64, m: u32) -> (r: u32)
    requires
        m > 0,
    ensures
        r == v as int % (m as int),
        r < m,
{
    if v >= 0 {
        (v as u64 % m as u64) as u32
    } else {
        let w: u64 = (-(v + 1)) as u64;
        let r: u32 = m - 1 - (w % m as u64) as u32;
        proof {
            let q = (w / m as u64) as int;
            assert(w == q * m + w % (m as u64)) by (nonlinear_arith)
                requires
                    m > 0,
                    q == w as int / m as int,
            ;
            assert(v == (-q - 1) * m + r) by (nonlinear_arith)
                requires
                    v == -(w + 1),
                    w == q * m + w % (m as u64),
                    r == m - 1 - w % (m as u64),
            ;
            vstd::arithmetic::div_mod::lemma_fundamental_div_mod_converse(
                v as int,
                m as int,
                -q - 1,
                r as int,
            );
        }
        r
    }
}

pub open spec fn imin(a: int, b: int) -> int {
    if a <= b { a } else { b }
}

pub open spec fn imax(a: int, b: int) -> int {
    if a >= b { a } else { b }
}

/// `v` held between `lo` and `hi`.
pub open spec fn iclamp(v: int, lo: int, hi: int) -> int {
    if v < lo {
        lo
    } else if v > hi {
        hi
    } else {
        v
    }
}

pub fn min_i32(a: i32, b: i32) -> (r: i32)
    ensures
        r == imin(a as int, b as int),
{
    if a <= b { a } else { b }
}

pub fn max_i64(a: i64, b: i64) -> (r: i64)
    ensures
        r == imax(a as int, b as int),
{
    if a >= b { a } else { b }
}

pub fn clamp_i64(v: i64, lo: i64, hi: i64) -> (r: i64)
    ensures
        r == iclamp(v as int, lo as int, hi as int),
{
    if v < lo {
        lo
    } else if v > hi {
        hi
    } else {
        v
    }
}

pub fn clamp_i32(v: i32, lo: i32, hi: i32) -> (r: i32)
    ensures
        r == iclamp(v as int, lo as int, hi as int),
{
    if v < lo {
        lo
    } else if v > hi {
        hi
    } else {
        v
    }
}

/// Dots out of master-clock cycles: `v` halved at double speed.
pub fn to_dots(v: u64, ds: bool) -> (r: u64)
    ensures
        r == cycles_to_dots(v as int, ds),
{
    if ds { v / 2 } else { v }
}

/// The same for a signed span, rounding down.
pub fn to_dots_signed(v: i64, ds: bool) -> (r: i64)
    ensures
        r == cycles_to_dots(v as int, ds),
{
    if !ds {
        v
    } else if v >= 0 {
        (v as u64 / 2) as i64
    } else {
        let w: u64 = (-(v + 1)) as u64;
        -((w / 2) as i64) - 1
    }
}

} // verus!
