//! CPU register file and the packed status-flag byte.

use vstd::prelude::*;

verus! {

/// The 6502 status register: seven named flags packed into one byte.
/// Bit layout, low to high: carry, zero, interrupt-disable, decimal,
/// break, an always-readable reserved bit, overflow, negative.
#[derive(Copy, Clone, Debug, PartialEq, Eq, Structural)]
pub struct P {
    pub c: bool,
    pub z: bool,
    pub i: bool,
    pub d: bool,
    pub b: bool,
    pub v: bool,
    pub n: bool,
}

/// The byte view of the status register. The reserved bit (bit 5) always
/// reads as set; every other bit mirrors the corresponding flag.
pub open spec fn p_bits(p: P) -> u8 {
    (if p.n { 0x80u8 } else { 0u8 }) | (if p.v { 0x40u8 } else { 0u8 }) | 0x20u8
        | (if p.b { 0x10u8 } else { 0u8 }) | (if p.d { 0x08u8 } else { 0u8 })
        | (if p.i { 0x04u8 } else { 0u8 }) | (if p.z { 0x02u8 } else { 0u8 })
        | (if p.c { 0x01u8 } else { 0u8 })
}

/// The byte a push of the status register places on the stack: the byte
/// view with the break bit forced set, as the hardware documents for an
/// explicit push.
pub open spec fn p_push_bits(p: P) -> u8 {
    p_bits(p) | 0x10
}

/// The flag set a pop of the status register restores from a stack byte:
/// every flag mirrors its bit; the reserved bit is not stored.
pub open spec fn p_from_bits(v: u8) -> P {
    P {
        c: v & 0x01 == 0x01,
        z: v & 0x02 == 0x02,
        i: v & 0x04 == 0x04,
        d: v & 0x08 == 0x08,
        b: v & 0x10 == 0x10,
        v: v & 0x40 == 0x40,
        n: v & 0x80 == 0x80,
    }
}

impl P {
    /// All flags clear, as at power-on.
    pub fn new() -> (r: P)
        ensures
            r == (P { c: false, z: false, i: false, d: false, b: false, v: false, n: false }),
    {
        P { c: false, z: false, i: false, d: false, b: false, v: false, n: false }
    }

    /// The byte view of the flags, reserved bit set.
    pub fn to_bits(&self) -> (r: u8)
        ensures
            r == p_bits(*self),
    {
        (if self.n { 0x80u8 } else { 0u8 }) | (if self.v { 0x40u8 } else { 0u8 }) | 0x20u8
            | (if self.b { 0x10u8 } else { 0u8 }) | (if self.d { 0x08u8 } else { 0u8 })
            | (if self.i { 0x04u8 } else { 0u8 }) | (if self.z { 0x02u8 } else { 0u8 })
            | (if self.c { 0x01u8 } else { 0u8 })
    }

    /// The byte an explicit push places on the stack: break bit forced set.
    pub fn to_push_bits(&self) -> (r: u8)
        ensures
            r == p_push_bits(*self),
    {
        self.to_bits() | 0x10
    }

    /// Restore the flags from a stack byte.
    pub fn from_bits(v: u8) -> (r: P)
        ensures
            r == p_from_bits(v),
    {
        P {
            c: v & 0x01 == 0x01,
            z: v & 0x02 == 0x02,
            i: v & 0x04 == 0x04,
            d: v & 0x08 == 0x08,
            b: v & 0x10 == 0x10,
            v: v & 0x40 == 0x40,
            n: v & 0x80 == 0x80,
        }
    }
}

/// Restoring the flags from any byte and pushing them back yields that
/// byte with the break and reserved bits forced set: the push/pop path
/// reproduces every stored bit and forces exactly those two.
pub proof fn lemma_flag_roundtrip(v: u8)
    ensures
        p_push_bits(p_from_bits(v)) == v | 0x30,
{
    let p = p_from_bits(v);
    assert(((if v & 0x80 == 0x80 { 0x80u8 } else { 0u8 }) | (if v & 0x40 == 0x40 {
        0x40u8
    } else {
        0u8
    }) | 0x20u8 | (if v & 0x10 == 0x10 { 0x10u8 } else { 0u8 }) | (if v & 0x08 == 0x08 {
        0x08u8
    } else {
        0u8
    }) | (if v & 0x04 == 0x04 { 0x04u8 } else { 0u8 }) | (if v & 0x02 == 0x02 {
        0x02u8
    } else {
        0u8
    }) | (if v & 0x01 == 0x01 { 0x01u8 } else { 0u8 })) | 0x10 == v | 0x30) by (bit_vector);
}

/// A byte already carrying the break and reserved bits round-trips exactly.
pub proof fn lemma_flag_roundtrip_fixed(v: u8)
    requires
        v & 0x30 == 0x30,
    ensures
        p_push_bits(p_from_bits(v)) == v,
{
    lemma_flag_roundtrip(v);
    assert(v & 0x30 == 0x30 ==> v | 0x30 == v) by (bit_vector);
}

/// The CPU register file: accumulator, the two index registers, the stack
/// pointer (an offset into the fixed page at 0x0100), the status flags,
/// and the program counter.
#[derive(Copy, Clone, Debug, PartialEq, Eq, Structural)]
pub struct Cpu {
    pub a: u8,
    pub x: u8,
    pub y: u8,
    pub s: u8,
    pub p: P,
    pub pc: u16,
}

} // verus!
