//! Small bit- and wraparound-arithmetic helpers shared by the core.

use vstd::prelude::*;
use crate::model::{wrap8, wrap16, sbyte};

verus! {

/// Bit `offset` of `v`, counting from the least significant bit.
pub open spec fn spec_bit(v: u8, offset: u8) -> bool {
    if offset == 0 {
        v % 2 == 1
    } else if offset == 1 {
        (v / 2) % 2 == 1
    } else if offset == 2 {
        (v / 4) % 2 == 1
    } else if offset == 3 {
        (v / 8) % 2 == 1
    } else if offset == 4 {
        (v / 16) % 2 == 1
    } else if offset == 5 {
        (v / 32) % 2 == 1
    } else if offset == 6 {
        (v / 64) % 2 == 1
    } else {
        (v / 128) % 2 == 1
    }
}

/// Tests one bit of a byte.
pub fn get_bit(input: u8, offset: u8) -> (r: bool)
    requires
        offset < 8,
    ensures
        r == spec_bit(input, offset),
{
    let divisor: u8 = match offset {
        0 => 1,
        1 => 2,
        2 => 4,
        3 => 8,
        4 => 16,
        5 => 32,
        6 => 64,
        _ => 128,
    };
    (input / divisor) % 2 == 1
}

/// 8-bit wraparound addition.
pub fn wrapping_add8(a: u8, b: u8) -> (r: u8)
    ensures
        r == wrap8(a + b),
{
    let s: u16 = a as u16 + b as u16;
    if s >= 0x100 {
        (s - 0x100) as u8
    } else {
        s as u8
    }
}

/// 8-bit wraparound subtraction.
pub fn wrapping_sub8(a: u8, b: u8) -> (r: u8)
    ensures
        r == wrap8(a - b),
{
    if a >= b {
        a - b
    } else {
        let s: u16 = 0x100 + a as u16 - b as u16;
        s as u8
    }
}

/// 16-bit wraparound addition.
pub fn wrapping_add16(a: u16, b: u16) -> (r: u16)
    ensures
        r == wrap16(a + b),
{
    let s: u32 = a as u32 + b as u32;
    if s >= 0x10000 {
        (s - 0x10000) as u16
    } else {
        s as u16
    }
}

/// The two's-complement reading of a byte as a signed offset.
pub fn to_signed8(b: u8) -> (r: i8)
    ensures
        r == sbyte(b),
{
    if b >= 0x80 {
        let t: i16 = b as i16 - 0x100;
        t as i8
    } else {
        b as i8
    }
}

/// A 16-bit word from its little-endian bytes.
pub fn word(lo: u8, hi: u8) -> (r: u16)
    ensures
        r == lo + 0x100 * hi,
{
    lo as u16 + 0x100 * hi as u16
}

} // verus!
