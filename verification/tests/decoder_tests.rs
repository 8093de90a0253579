use gb_cpu::instruction::{ArithmeticTarget, Instruction, JumpTest};

#[test]
fn base_table_add_entries() {
    assert_eq!(Instruction::from_byte(0x80, false), Some(Instruction::ADD(ArithmeticTarget::B)));
    assert_eq!(Instruction::from_byte(0x81, false), Some(Instruction::ADD(ArithmeticTarget::C)));
    assert_eq!(Instruction::from_byte(0x82, false), Some(Instruction::ADD(ArithmeticTarget::D)));
    assert_eq!(Instruction::from_byte(0x83, false), Some(Instruction::ADD(ArithmeticTarget::E)));
    assert_eq!(Instruction::from_byte(0x84, false), Some(Instruction::ADD(ArithmeticTarget::H)));
    assert_eq!(Instruction::from_byte(0x85, false), Some(Instruction::ADD(ArithmeticTarget::L)));
    assert_eq!(Instruction::from_byte(0x87, false), Some(Instruction::ADD(ArithmeticTarget::A)));
}

#[test]
fn base_table_jump_entries() {
    assert_eq!(Instruction::from_byte(0xC2, false), Some(Instruction::JP(JumpTest::NotZero)));
    assert_eq!(Instruction::from_byte(0xC3, false), Some(Instruction::JP(JumpTest::Always)));
    assert_eq!(Instruction::from_byte(0xCA, false), Some(Instruction::JP(JumpTest::Zero)));
    assert_eq!(Instruction::from_byte(0xD2, false), Some(Instruction::JP(JumpTest::NotCarry)));
    assert_eq!(Instruction::from_byte(0xDA, false), Some(Instruction::JP(JumpTest::Carry)));
}

#[test]
fn base_table_undefined_slots() {
    assert_eq!(Instruction::from_byte(0x00, false), None);
    assert_eq!(Instruction::from_byte(0x86, false), None);
    assert_eq!(Instruction::from_byte(0xFF, false), None);
}

#[test]
fn prefixed_table_has_no_covered_forms() {
    for b in 0..=255u8 {
        assert_eq!(Instruction::from_byte(b, true), None);
    }
}

#[test]
fn decoding_is_deterministic() {
    for b in 0..=255u8 {
        for &prefixed in &[false, true] {
            let first = Instruction::from_byte(b, prefixed);
            let second = Instruction::from_byte(b, prefixed);
            assert_eq!(first, second);
        }
    }
}
