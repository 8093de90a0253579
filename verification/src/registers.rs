//! The register file: seven independent 8-bit registers plus the packed flags
//! register, with the four virtual 16-bit register pairs derived from them.

use vstd::prelude::*;

verus! {

/// The flags register: four booleans with a canonical packed byte form.
/// In the packed byte, bit 7 is `zero`, bit 6 is `subtract`, bit 5 is
/// `half_carry`, bit 4 is `carry`, and bits 3 to 0 are always zero.
#[derive(Clone, Copy, PartialEq, Eq, Structural, Debug)]
pub struct FlagsRegister {
    pub zero: bool,
    pub subtract: bool,
    pub half_carry: bool,
    pub carry: bool,
}

/// The eight-bit registers a, b, c, d, e, h and l, plus the flags register f.
#[derive(Clone, Copy, PartialEq, Eq, Structural, Debug)]
pub struct Registers {
    pub a: u8,
    pub b: u8,
    pub c: u8,
    pub d: u8,
    pub e: u8,
    pub f: FlagsRegister,
    pub h: u8,
    pub l: u8,
}

/// The packed byte form of the flags: each set flag contributes its bit,
/// and the low nibble is always zero.
pub open spec fn spec_flags_to_byte(f: FlagsRegister) -> u8 {
    ((if f.zero { 0x80int } else { 0int }) + (if f.subtract { 0x40int } else { 0int })
        + (if f.half_carry { 0x20int } else { 0int }) + (if f.carry { 0x10int } else { 0int })) as u8
}

/// The flags read out of a packed byte: each flag is its bit; the low
/// nibble is ignored.
pub open spec fn spec_byte_to_flags(b: u8) -> FlagsRegister {
    FlagsRegister {
        zero: b & 0x80 != 0,
        subtract: b & 0x40 != 0,
        half_carry: b & 0x20 != 0,
        carry: b & 0x10 != 0,
    }
}

/// The 16-bit value of a register pair: high register first.
pub open spec fn spec_concat(hi: u8, lo: u8) -> u16 {
    (hi * 256 + lo) as u16
}

/// The high half of a 16-bit value.
pub open spec fn spec_high_byte(v: u16) -> u8 {
    (v / 256) as u8
}

/// The low half of a 16-bit value.
pub open spec fn spec_low_byte(v: u16) -> u8 {
    (v % 256) as u8
}

/// Packs the four flag booleans into their canonical byte form.
pub fn flags_to_byte(f: FlagsRegister) -> (r: u8)
    ensures
        r == spec_flags_to_byte(f),
{
    (if f.zero { 0x80u8 } else { 0u8 }) + (if f.subtract { 0x40u8 } else { 0u8 })
        + (if f.half_carry { 0x20u8 } else { 0u8 }) + (if f.carry { 0x10u8 } else { 0u8 })
}

/// Reads the four flag booleans out of a packed byte, ignoring the low nibble.
pub fn byte_to_flags(b: u8) -> (r: FlagsRegister)
    ensures
        r == spec_byte_to_flags(b),
{
    FlagsRegister {
        zero: b & 0x80 != 0,
        subtract: b & 0x40 != 0,
        half_carry: b & 0x20 != 0,
        carry: b & 0x10 != 0,
    }
}

impl Registers {
    /// Reads the virtual 16-bit register af: register a as the high byte and
    /// the packed flags register as the low byte.
    pub fn get_af(&self) -> (v: u16)
        ensures
            v == spec_concat(self.a, spec_flags_to_byte(self.f)),
    {
        let hi = self.a;
        let lo = flags_to_byte(self.f);
        proof {
            assert(((hi as u16) << 8) | (lo as u16) == (hi * 256 + lo) as u16) by (bit_vector);
        }
        ((hi as u16) << 8) | (lo as u16)
    }

    /// Writes the virtual 16-bit register af: the high byte into register a,
    /// the flag bits of the low byte into the flags register (whose low
    /// nibble the hardware always keeps zero). No other register changes.
    pub fn set_af(&mut self, value: u16)
        ensures
            final(self).a == spec_high_byte(value),
            final(self).f == spec_byte_to_flags(spec_low_byte(value)),
            final(self).b == old(self).b,
            final(self).c == old(self).c,
            final(self).d == old(self).d,
            final(self).e == old(self).e,
            final(self).h == old(self).h,
            final(self).l == old(self).l,
    {
        proof {
            assert(((value & 0xFF00) >> 8) as u8 == (value / 256) as u8) by (bit_vector);
            assert((value & 0xFF) as u8 == (value % 256) as u8) by (bit_vector);
        }
        self.a = ((value & 0xFF00) >> 8) as u8;
        self.f = byte_to_flags((value & 0xFF) as u8);
    }

    /// Reads the virtual 16-bit register bc: register b high, register c low.
    pub fn get_bc(&self) -> (v: u16)
        ensures
            v == spec_concat(self.b, self.c),
    {
        let hi = self.b;
        let lo = self.c;
        proof {
            assert(((hi as u16) << 8) | (lo as u16) == (hi * 256 + lo) as u16) by (bit_vector);
        }
        ((hi as u16) << 8) | (lo as u16)
    }

    /// Writes the virtual 16-bit register bc: the high byte into register b,
    /// the low byte into register c. No other register changes.
    pub fn set_bc(&mut self, value: u16)
        ensures
            final(self).b == spec_high_byte(value),
            final(self).c == spec_low_byte(value),
            final(self).a == old(self).a,
            final(self).d == old(self).d,
            final(self).e == old(self).e,
            final(self).f == old(self).f,
            final(self).h == old(self).h,
            final(self).l == old(self).l,
    {
        proof {
            assert(((value & 0xFF00) >> 8) as u8 == (value / 256) as u8) by (bit_vector);
            assert((value & 0xFF) as u8 == (value % 256) as u8) by (bit_vector);
        }
        self.b = ((value & 0xFF00) >> 8) as u8;
        self.c = (value & 0xFF) as u8;
    }

    /// Reads the virtual 16-bit register de: register d high, register e low.
    pub fn get_de(&self) -> (v: u16)
        ensures
            v == spec_concat(self.d, self.e),
    {
        let hi = self.d;
        let lo = self.e;
        proof {
            assert(((hi as u16) << 8) | (lo as u16) == (hi * 256 + lo) as u16) by (bit_vector);
        }
        ((hi as u16) << 8) | (lo as u16)
    }

    /// Writes the virtual 16-bit register de: the high byte into register d,
    /// the low byte into register e. No other register changes.
    pub fn set_de(&mut self, value: u16)
        ensures
            final(self).d == spec_high_byte(value),
            final(self).e == spec_low_byte(value),
            final(self).a == old(self).a,
            final(self).b == old(self).b,
            final(self).c == old(self).c,
            final(self).f == old(self).f,
            final(self).h == old(self).h,
            final(self).l == old(self).l,
    {
        proof {
            assert(((value & 0xFF00) >> 8) as u8 == (value / 256) as u8) by (bit_vector);
            assert((value & 0xFF) as u8 == (value % 256) as u8) by (bit_vector);
        }
        self.d = ((value & 0xFF00) >> 8) as u8;
        self.e = (value & 0xFF) as u8;
    }

    /// Reads the virtual 16-bit register hl: register h high, register l low.
    pub fn get_hl(&self) -> (v: u16)
        ensures
            v == spec_concat(self.h, self.l),
    {
        let hi = self.h;
        let lo = self.l;
        proof {
            assert(((hi as u16) << 8) | (lo as u16) == (hi * 256 + lo) as u16) by (bit_vector);
        }
        ((hi as u16) << 8) | (lo as u16)
    }

    /// Writes the virtual 16-bit register hl: the high byte into register h,
    /// the low byte into register l. No other register changes.
    pub fn set_hl(&mut self, value: u16)
        ensures
            final(self).h == spec_high_byte(value),
            final(self).l == spec_low_byte(value),
            final(self).a == old(self).a,
            final(self).b == old(self).b,
            final(self).c == old(self).c,
            final(self).d == old(self).d,
            final(self).e == old(self).e,
            final(self).f == old(self).f,
    {
        proof {
            assert(((value & 0xFF00) >> 8) as u8 == (value / 256) as u8) by (bit_vector);
            assert((value & 0xFF) as u8 == (value % 256) as u8) by (bit_vector);
        }
        self.h = ((value & 0xFF00) >> 8) as u8;
        self.l = (value & 0xFF) as u8;
    }
}

/// Bit-level core of the packing bijection: a byte assembled from four bit
/// weights has exactly those bits set.
proof fn lemma_pack_bits(zb: u8, sb: u8, hb: u8, cb: u8, y: u8)
    by (bit_vector)
    requires
        zb <= 1,
        sb <= 1,
        hb <= 1,
        cb <= 1,
        y == zb * 0x80 + sb * 0x40 + hb * 0x20 + cb * 0x10,
    ensures
        (y & 0x80 != 0) == (zb == 1),
        (y & 0x40 != 0) == (sb == 1),
        (y & 0x20 != 0) == (hb == 1),
        (y & 0x10 != 0) == (cb == 1),
        y % 16 == 0,
{
}

/// Law: packing flags into a byte and unpacking again gives back the same
/// flags, for every flag combination.
pub proof fn lemma_flags_pack_unpack(f: FlagsRegister)
    ensures
        spec_byte_to_flags(spec_flags_to_byte(f)) == f,
{
    let zb: u8 = if f.zero { 1 } else { 0 };
    let sb: u8 = if f.subtract { 1 } else { 0 };
    let hb: u8 = if f.half_carry { 1 } else { 0 };
    let cb: u8 = if f.carry { 1 } else { 0 };
    let y: u8 = spec_flags_to_byte(f);
    assert(y == zb * 0x80 + sb * 0x40 + hb * 0x20 + cb * 0x10);
    lemma_pack_bits(zb, sb, hb, cb, y);
}

/// Law: converting a byte to flags, back to a byte, and to flags again gives
/// the same flags as the single conversion — the low nibble of the byte is
/// ignored, not preserved.
pub proof fn lemma_flags_byte_round_trip(x: u8)
    ensures
        spec_byte_to_flags(spec_flags_to_byte(spec_byte_to_flags(x))) == spec_byte_to_flags(x),
{
    lemma_flags_pack_unpack(spec_byte_to_flags(x));
}

/// Law: the packed byte form of any flag combination has a zero low nibble.
pub proof fn lemma_flags_byte_low_nibble(f: FlagsRegister)
    ensures
        spec_flags_to_byte(f) % 16 == 0,
{
    let zb: u8 = if f.zero { 1 } else { 0 };
    let sb: u8 = if f.subtract { 1 } else { 0 };
    let hb: u8 = if f.half_carry { 1 } else { 0 };
    let cb: u8 = if f.carry { 1 } else { 0 };
    let y: u8 = spec_flags_to_byte(f);
    assert(y == zb * 0x80 + sb * 0x40 + hb * 0x20 + cb * 0x10);
    lemma_pack_bits(zb, sb, hb, cb, y);
}

/// Law: splitting a 16-bit value into its high and low bytes and
/// concatenating them again gives the value back. With the frame conditions
/// of each pair setter, this is the set-then-get round trip for the bc, de
/// and hl pairs.
pub proof fn lemma_pair_round_trip(v: u16)
    ensures
        spec_concat(spec_high_byte(v), spec_low_byte(v)) == v,
{
    assert(v == 256 * (v / 256) + v % 256) by {
        vstd::arithmetic::div_mod::lemma_fundamental_div_mod(v as int, 256);
    };
}

/// Bit-level fact: the flag-bit weights of a byte whose low nibble is zero
/// sum back to the byte itself.
proof fn lemma_unpack_pack_bits(b: u8, zb: u8, sb: u8, hb: u8, cb: u8)
    by (bit_vector)
    requires
        b % 16 == 0,
        zb == (if b & 0x80 != 0 { 1u8 } else { 0u8 }),
        sb == (if b & 0x40 != 0 { 1u8 } else { 0u8 }),
        hb == (if b & 0x20 != 0 { 1u8 } else { 0u8 }),
        cb == (if b & 0x10 != 0 { 1u8 } else { 0u8 }),
    ensures
        zb * 0x80 + sb * 0x40 + hb * 0x20 + cb * 0x10 == b,
{
}

/// Law: unpacking a byte whose low nibble is zero into flags and packing the
/// flags again gives the byte back (the other direction of the bijection).
pub proof fn lemma_byte_pack_round_trip(b: u8)
    requires
        b % 16 == 0,
    ensures
        spec_flags_to_byte(spec_byte_to_flags(b)) == b,
{
    let zb: u8 = if b & 0x80 != 0 { 1 } else { 0 };
    let sb: u8 = if b & 0x40 != 0 { 1 } else { 0 };
    let hb: u8 = if b & 0x20 != 0 { 1 } else { 0 };
    let cb: u8 = if b & 0x10 != 0 { 1 } else { 0 };
    lemma_unpack_pack_bits(b, zb, sb, hb, cb);
    assert(spec_flags_to_byte(spec_byte_to_flags(b)) == zb * 0x80 + sb * 0x40 + hb * 0x20
        + cb * 0x10);
}

/// Bit-level fact: the low byte of a 16-bit value whose low nibble is zero
/// itself has a zero low nibble.
proof fn lemma_low_byte_nibble(v: u16)
    by (bit_vector)
    requires
        v % 16 == 0,
    ensures
        (v % 256) % 16 == 0,
{
}

/// Law: the set-then-get round trip for the af pair. Because the hardware
/// keeps the low nibble of the flags register at zero, writing af discards
/// the low nibble of the written value; the round trip therefore holds
/// exactly for values whose low nibble is zero.
pub proof fn lemma_af_round_trip(v: u16)
    requires
        v % 16 == 0,
    ensures
        spec_concat(
            spec_high_byte(v),
            spec_flags_to_byte(spec_byte_to_flags(spec_low_byte(v))),
        ) == v,
{
    lemma_low_byte_nibble(v);
    assert(spec_low_byte(v) % 16 == 0);
    lemma_byte_pack_round_trip(spec_low_byte(v));
    lemma_pair_round_trip(v);
}

} // verus!
