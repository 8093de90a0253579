//! The instruction decoder: maps a raw opcode byte, together with the flag
//! saying whether it followed the reserved prefix marker, to a tagged
//! instruction value, or to nothing where the selected table has no entry.

use vstd::prelude::*;

verus! {

/// The register an arithmetic instruction reads its operand from.
#[derive(Clone, Copy, PartialEq, Eq, Structural, Debug)]
pub enum ArithmeticTarget {
    A,
    B,
    C,
    D,
    E,
    H,
    L,
}

/// The condition a jump instruction tests against the current flags.
#[derive(Clone, Copy, PartialEq, Eq, Structural, Debug)]
pub enum JumpTest {
    NotZero,
    Zero,
    NotCarry,
    Carry,
    Always,
}

/// A decoded instruction: what to execute and on which operand.
/// Instructions are produced only by decoding and carry no behaviour of
/// their own beyond being a dispatch key.
#[derive(Clone, Copy, PartialEq, Eq, Structural, Debug)]
pub enum Instruction {
    ADD(ArithmeticTarget),
    JP(JumpTest),
}

/// The base opcode table: the entry for each byte decoded without the
/// prefix marker, or `None` where the table has no entry for the byte.
pub open spec fn spec_from_byte_not_prefixed(byte: u8) -> Option<Instruction> {
    if byte == 0x80 {
        Some(Instruction::ADD(ArithmeticTarget::B))
    } else if byte == 0x81 {
        Some(Instruction::ADD(ArithmeticTarget::C))
    } else if byte == 0x82 {
        Some(Instruction::ADD(ArithmeticTarget::D))
    } else if byte == 0x83 {
        Some(Instruction::ADD(ArithmeticTarget::E))
    } else if byte == 0x84 {
        Some(Instruction::ADD(ArithmeticTarget::H))
    } else if byte == 0x85 {
        Some(Instruction::ADD(ArithmeticTarget::L))
    } else if byte == 0x87 {
        Some(Instruction::ADD(ArithmeticTarget::A))
    } else if byte == 0xC2 {
        Some(Instruction::JP(JumpTest::NotZero))
    } else if byte == 0xC3 {
        Some(Instruction::JP(JumpTest::Always))
    } else if byte == 0xCA {
        Some(Instruction::JP(JumpTest::Zero))
    } else if byte == 0xD2 {
        Some(Instruction::JP(JumpTest::NotCarry))
    } else if byte == 0xDA {
        Some(Instruction::JP(JumpTest::Carry))
    } else {
        None
    }
}

/// The secondary opcode table, selected by the prefix marker: none of the
/// instruction forms covered by this core live there, so every byte is an
/// undefined slot.
pub open spec fn spec_from_byte_prefixed(byte: u8) -> Option<Instruction> {
    None
}

/// What decoding returns for a byte and a prefix flag: a pure lookup in the
/// table the flag selects.
pub open spec fn spec_from_byte(byte: u8, prefixed: bool) -> Option<Instruction> {
    if prefixed {
        spec_from_byte_prefixed(byte)
    } else {
        spec_from_byte_not_prefixed(byte)
    }
}

impl Instruction {
    /// Decodes one opcode byte against the table that `prefixed` selects.
    /// Returns `None` exactly on the bytes that have no entry there: a
    /// legitimate outcome the caller must handle, since real opcode tables
    /// have undefined slots. The result is a pure function of the two
    /// arguments, so decoding the same input twice yields equal instructions.
    pub fn from_byte(byte: u8, prefixed: bool) -> (r: Option<Instruction>)
        ensures
            r == spec_from_byte(byte, prefixed),
    {
        if prefixed {
            Instruction::from_byte_prefixed(byte)
        } else {
            Instruction::from_byte_not_prefixed(byte)
        }
    }

    /// Looks a byte up in the base opcode table.
    pub fn from_byte_not_prefixed(byte: u8) -> (r: Option<Instruction>)
        ensures
            r == spec_from_byte_not_prefixed(byte),
    {
        if byte == 0x80 {
            Some(Instruction::ADD(ArithmeticTarget::B))
        } else if byte == 0x81 {
            Some(Instruction::ADD(ArithmeticTarget::C))
        } else if byte == 0x82 {
            Some(Instruction::ADD(ArithmeticTarget::D))
        } else if byte == 0x83 {
            Some(Instruction::ADD(ArithmeticTarget::E))
        } else if byte == 0x84 {
            Some(Instruction::ADD(ArithmeticTarget::H))
        } else if byte == 0x85 {
            Some(Instruction::ADD(ArithmeticTarget::L))
        } else if byte == 0x87 {
            Some(Instruction::ADD(ArithmeticTarget::A))
        } else if byte == 0xC2 {
            Some(Instruction::JP(JumpTest::NotZero))
        } else if byte == 0xC3 {
            Some(Instruction::JP(JumpTest::Always))
        } else if byte == 0xCA {
            Some(Instruction::JP(JumpTest::Zero))
        } else if byte == 0xD2 {
            Some(Instruction::JP(JumpTest::NotCarry))
        } else if byte == 0xDA {
            Some(Instruction::JP(JumpTest::Carry))
        } else {
            None
        }
    }

    /// Looks a byte up in the secondary opcode table.
    pub fn from_byte_prefixed(byte: u8) -> (r: Option<Instruction>)
        ensures
            r == spec_from_byte_prefixed(byte),
    {
        None
    }
}

/// Law: decoding is deterministic. Any two results that decoding yields for
/// the same byte and prefix flag are equal — in particular, decoding a byte
/// the base table defines twice from the same input yields equal
/// instructions.
pub proof fn lemma_decode_deterministic(
    byte: u8,
    prefixed: bool,
    r1: Option<Instruction>,
    r2: Option<Instruction>,
)
    requires
        r1 == spec_from_byte(byte, prefixed),
        r2 == spec_from_byte(byte, prefixed),
    ensures
        r1 == r2,
{
}

} // verus!
