//! The CPU engine: owns the register file and the program counter, reads
//! code bytes through a memory device, and drives the fetch-decode-execute
//! cycle. All 8-bit and 16-bit arithmetic wraps around by design; overflow
//! is observable through the flags and is never an error.

use vstd::prelude::*;

use crate::instruction::{ArithmeticTarget, Instruction, JumpTest};
use crate::instruction::spec_from_byte;
use crate::memory::MemoryDevice;
use crate::registers::spec_concat;
use crate::registers::{FlagsRegister, Registers};

verus! {

/// The reserved opcode value announcing that the following byte must be
/// decoded against the secondary opcode table.
pub const PREFIX_MARKER: u8 = 0xCB;

/// A decode failure: the fetched byte has no entry in the table it was
/// looked up in. Carries the offending byte and which table was selected,
/// so a caller such as a debugger or disassembler can observe and recover.
#[derive(Clone, Copy, PartialEq, Eq, Structural, Debug)]
pub struct DecodeError {
    pub opcode: u8,
    pub prefixed: bool,
}

/// The wrapped 8-bit sum an addition stores into register a.
pub open spec fn spec_add_result(a: u8, value: u8) -> u8 {
    ((a + value) % 256) as u8
}

/// The flags an addition produces: zero iff the wrapped sum is zero, the
/// subtract flag cleared, carry iff the unsigned sum exceeds 255, and
/// half-carry iff the low nibbles alone sum past 0xF.
pub open spec fn spec_add_flags(a: u8, value: u8) -> FlagsRegister {
    FlagsRegister {
        zero: spec_add_result(a, value) == 0,
        subtract: false,
        half_carry: (a % 16) + (value % 16) > 0xF,
        carry: a + value > 0xFF,
    }
}

/// The operand byte an arithmetic instruction reads from the register file.
pub open spec fn spec_target_value(regs: Registers, target: ArithmeticTarget) -> u8 {
    match target {
        ArithmeticTarget::A => regs.a,
        ArithmeticTarget::B => regs.b,
        ArithmeticTarget::C => regs.c,
        ArithmeticTarget::D => regs.d,
        ArithmeticTarget::E => regs.e,
        ArithmeticTarget::H => regs.h,
        ArithmeticTarget::L => regs.l,
    }
}

/// Whether a jump condition holds under the current flags.
pub open spec fn spec_jump_condition(f: FlagsRegister, test: JumpTest) -> bool {
    match test {
        JumpTest::NotZero => !f.zero,
        JumpTest::Zero => f.zero,
        JumpTest::NotCarry => !f.carry,
        JumpTest::Carry => f.carry,
        JumpTest::Always => true,
    }
}

/// The CPU: the register file, the 16-bit program counter, and the memory
/// device it fetches code bytes from.
pub struct CPU<M: MemoryDevice> {
    pub registers: Registers,
    pub pc: u16,
    pub bus: M,
}

impl<M: MemoryDevice> CPU<M> {
    /// Whether the byte at the program counter is the prefix marker.
    pub open spec fn spec_prefixed(self) -> bool {
        self.bus.spec_read(self.pc) == PREFIX_MARKER
    }

    /// The byte the current cycle decodes: the byte at the program counter,
    /// or the one after it when the first is the prefix marker.
    pub open spec fn spec_instruction_byte(self) -> u8 {
        if self.spec_prefixed() {
            self.bus.spec_read(self.pc.wrapping_add(1))
        } else {
            self.bus.spec_read(self.pc)
        }
    }

    /// The little-endian jump target encoded in the two bytes after the
    /// opcode byte: the low address byte first, then the high one.
    pub open spec fn spec_jump_target(self) -> u16 {
        spec_concat(
            self.bus.spec_read(self.pc.wrapping_add(2)),
            self.bus.spec_read(self.pc.wrapping_add(1)),
        )
    }

    /// The register file and next program-counter value one instruction
    /// produces from the current state. Every instruction form yields an
    /// explicit next address: an addition advances past its one byte, a jump
    /// either loads its little-endian target or advances past its three
    /// bytes.
    pub open spec fn spec_execute(self, instruction: Instruction) -> (Registers, u16) {
        match instruction {
            Instruction::ADD(target) => {
                let value = spec_target_value(self.registers, target);
                let regs = Registers {
                    a: spec_add_result(self.registers.a, value),
                    f: spec_add_flags(self.registers.a, value),
                    ..self.registers
                };
                (regs, self.pc.wrapping_add(1))
            },
            Instruction::JP(test) => {
                let next_pc = if spec_jump_condition(self.registers.f, test) {
                    self.spec_jump_target()
                } else {
                    self.pc.wrapping_add(3)
                };
                (self.registers, next_pc)
            },
        }
    }

    /// Builds a CPU at emulator startup: registers and flags cleared and the
    /// program counter at the entry address.
    pub fn new(bus: M, entry: u16) -> (cpu: CPU<M>)
        ensures
            cpu.registers == (Registers {
                a: 0,
                b: 0,
                c: 0,
                d: 0,
                e: 0,
                f: FlagsRegister { zero: false, subtract: false, half_carry: false, carry: false },
                h: 0,
                l: 0,
            }),
            cpu.pc == entry,
            cpu.bus == bus,
    {
        CPU {
            registers: Registers {
                a: 0,
                b: 0,
                c: 0,
                d: 0,
                e: 0,
                f: FlagsRegister { zero: false, subtract: false, half_carry: false, carry: false },
                h: 0,
                l: 0,
            },
            pc: entry,
            bus,
        }
    }

    /// One fetch-decode-execute cycle. Reads the byte at the program
    /// counter; when it is the prefix marker, reads the following byte and
    /// decodes it against the secondary table, otherwise decodes the byte
    /// itself against the base table. A decoded instruction is executed and
    /// the program counter moves to the address the instruction yields. A
    /// byte with no table entry leaves the whole state untouched and reports
    /// the byte and the selected table to the caller.
    pub fn step(&mut self) -> (r: Result<(), DecodeError>)
        ensures
            ({
                let prefixed = old(self).spec_prefixed();
                let byte = old(self).spec_instruction_byte();
                match spec_from_byte(byte, prefixed) {
                    Some(instruction) => {
                        &&& r is Ok
                        &&& final(self).registers == old(self).spec_execute(instruction).0
                        &&& final(self).pc == old(self).spec_execute(instruction).1
                        &&& final(self).bus == old(self).bus
                    },
                    None => {
                        let e = DecodeError { opcode: byte, prefixed };
                        &&& r == Err::<(), DecodeError>(e)
                        &&& *final(self) == *old(self)
                    },
                }
            }),
    {
        let mut instruction_byte = self.bus.read_byte(self.pc);
        let prefixed = instruction_byte == PREFIX_MARKER;
        if prefixed {
            instruction_byte = self.bus.read_byte(self.pc.wrapping_add(1));
        }

        match Instruction::from_byte(instruction_byte, prefixed) {
            Some(instruction) => {
                let next_pc = self.execute(instruction);
                self.pc = next_pc;
                Ok(())
            },
            None => Err(DecodeError { opcode: instruction_byte, prefixed }),
        }
    }

    /// Dispatches one decoded instruction: mutates the register file as the
    /// instruction demands and returns the next program-counter value. The
    /// program counter itself and the memory device are left to the caller.
    pub fn execute(&mut self, instruction: Instruction) -> (next_pc: u16)
        ensures
            final(self).registers == old(self).spec_execute(instruction).0,
            next_pc == old(self).spec_execute(instruction).1,
            final(self).pc == old(self).pc,
            final(self).bus == old(self).bus,
    {
        match instruction {
            Instruction::ADD(target) => {
                let value = match target {
                    ArithmeticTarget::A => self.registers.a,
                    ArithmeticTarget::B => self.registers.b,
                    ArithmeticTarget::C => self.registers.c,
                    ArithmeticTarget::D => self.registers.d,
                    ArithmeticTarget::E => self.registers.e,
                    ArithmeticTarget::H => self.registers.h,
                    ArithmeticTarget::L => self.registers.l,
                };
                let new_value = self.add(value);
                self.registers.a = new_value;
                self.pc.wrapping_add(1)
            },
            Instruction::JP(test) => {
                let jump_condition = match test {
                    JumpTest::NotZero => !self.registers.f.zero,
                    JumpTest::Zero => self.registers.f.zero,
                    JumpTest::NotCarry => !self.registers.f.carry,
                    JumpTest::Carry => self.registers.f.carry,
                    JumpTest::Always => true,
                };
                self.jump(jump_condition)
            },
        }
    }

    /// Adds a value to register a with 8-bit wraparound, setting all four
    /// flags, and returns the wrapped sum for the caller to store. Register
    /// a itself is not yet written, so the half-carry test still sees its
    /// old value.
    pub fn add(&mut self, value: u8) -> (new_value: u8)
        ensures
            new_value == spec_add_result(old(self).registers.a, value),
            final(self).registers.f == spec_add_flags(old(self).registers.a, value),
            final(self).registers.a == old(self).registers.a,
            final(self).registers.b == old(self).registers.b,
            final(self).registers.c == old(self).registers.c,
            final(self).registers.d == old(self).registers.d,
            final(self).registers.e == old(self).registers.e,
            final(self).registers.h == old(self).registers.h,
            final(self).registers.l == old(self).registers.l,
            final(self).pc == old(self).pc,
            final(self).bus == old(self).bus,
    {
        let a = self.registers.a;
        let sum: u16 = a as u16 + value as u16;
        let new_value: u8 = (sum % 256) as u8;
        self.registers.f.zero = new_value == 0;
        self.registers.f.subtract = false;
        self.registers.f.carry = sum > 0xFF;
        self.registers.f.half_carry = (a % 16) + (value % 16) > 0xF;
        new_value
    }

    /// Computes the next program-counter value of a jump whose condition has
    /// already been evaluated. A taken jump reads the two bytes after the
    /// opcode — low address byte first, then high (little-endian) — and
    /// yields their 16-bit value; a jump not taken yields the address past
    /// the instruction's three bytes, skipping the address bytes.
    pub fn jump(&self, should_jump: bool) -> (next_pc: u16)
        ensures
            should_jump ==> next_pc == self.spec_jump_target(),
            !should_jump ==> next_pc == self.pc.wrapping_add(3),
    {
        if should_jump {
            let least_significant_byte = self.bus.read_byte(self.pc.wrapping_add(1));
            let most_significant_byte = self.bus.read_byte(self.pc.wrapping_add(2));
            proof {
                let hi = most_significant_byte;
                let lo = least_significant_byte;
                assert(((hi as u16) << 8) | (lo as u16) == (hi * 256 + lo) as u16) by (bit_vector);
            }
            ((most_significant_byte as u16) << 8) | (least_significant_byte as u16)
        } else {
            self.pc.wrapping_add(3)
        }
    }
}

} // verus!
