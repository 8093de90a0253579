use gb_cpu::registers::{byte_to_flags, flags_to_byte, FlagsRegister, Registers};

fn sample_registers() -> Registers {
    Registers {
        a: 0x11,
        b: 0x22,
        c: 0x33,
        d: 0x44,
        e: 0x55,
        f: FlagsRegister { zero: true, subtract: false, half_carry: true, carry: false },
        h: 0x66,
        l: 0x77,
    }
}

#[test]
fn flags_round_trip_all_bytes() {
    for x in 0..=255u8 {
        let once = byte_to_flags(x);
        let again = byte_to_flags(flags_to_byte(byte_to_flags(x)));
        assert_eq!(once, again);
    }
}

#[test]
fn flags_to_byte_exact_values() {
    let none = FlagsRegister { zero: false, subtract: false, half_carry: false, carry: false };
    assert_eq!(flags_to_byte(none), 0x00);
    let all = FlagsRegister { zero: true, subtract: true, half_carry: true, carry: true };
    assert_eq!(flags_to_byte(all), 0xF0);
    let zero_only = FlagsRegister { zero: true, subtract: false, half_carry: false, carry: false };
    assert_eq!(flags_to_byte(zero_only), 0x80);
    let subtract_only = FlagsRegister { zero: false, subtract: true, half_carry: false, carry: false };
    assert_eq!(flags_to_byte(subtract_only), 0x40);
    let half_carry_only = FlagsRegister { zero: false, subtract: false, half_carry: true, carry: false };
    assert_eq!(flags_to_byte(half_carry_only), 0x20);
    let carry_only = FlagsRegister { zero: false, subtract: false, half_carry: false, carry: true };
    assert_eq!(flags_to_byte(carry_only), 0x10);
}

#[test]
fn byte_to_flags_exact_values() {
    let f = byte_to_flags(0xB0);
    assert_eq!(f, FlagsRegister { zero: true, subtract: false, half_carry: true, carry: true });
    let g = byte_to_flags(0x40);
    assert_eq!(g, FlagsRegister { zero: false, subtract: true, half_carry: false, carry: false });
}

#[test]
fn byte_to_flags_ignores_low_nibble() {
    for x in 0..=255u8 {
        assert_eq!(byte_to_flags(x), byte_to_flags(x & 0xF0));
    }
}

#[test]
fn flags_byte_low_nibble_always_zero() {
    for x in 0..=255u8 {
        assert_eq!(flags_to_byte(byte_to_flags(x)) & 0x0F, 0);
    }
}

#[test]
fn pair_round_trip_bc_de_hl() {
    for &v in &[0x0000u16, 0x0001, 0x00FF, 0xFF00, 0xABCD, 0x1234, 0xFFFF] {
        let mut regs = sample_registers();
        regs.set_bc(v);
        assert_eq!(regs.get_bc(), v);
        let mut regs = sample_registers();
        regs.set_de(v);
        assert_eq!(regs.get_de(), v);
        let mut regs = sample_registers();
        regs.set_hl(v);
        assert_eq!(regs.get_hl(), v);
    }
}

#[test]
fn pair_round_trip_af() {
    for &v in &[0x0000u16, 0x00F0, 0xAB50, 0x1230, 0xFFF0] {
        let mut regs = sample_registers();
        regs.set_af(v);
        assert_eq!(regs.get_af(), v);
    }
}

#[test]
fn af_discards_low_nibble() {
    let mut regs = sample_registers();
    regs.set_af(0xABFF);
    assert_eq!(regs.get_af(), 0xABF0);
    assert_eq!(regs.a, 0xAB);
    assert_eq!(
        regs.f,
        FlagsRegister { zero: true, subtract: true, half_carry: true, carry: true },
    );
}

#[test]
fn set_bc_touches_only_b_and_c() {
    let before = sample_registers();
    let mut regs = before;
    regs.set_bc(0x9876);
    assert_eq!(regs.b, 0x98);
    assert_eq!(regs.c, 0x76);
    assert_eq!(regs.a, before.a);
    assert_eq!(regs.d, before.d);
    assert_eq!(regs.e, before.e);
    assert_eq!(regs.f, before.f);
    assert_eq!(regs.h, before.h);
    assert_eq!(regs.l, before.l);
}

#[test]
fn set_de_touches_only_d_and_e() {
    let before = sample_registers();
    let mut regs = before;
    regs.set_de(0x9876);
    assert_eq!(regs.d, 0x98);
    assert_eq!(regs.e, 0x76);
    assert_eq!(regs.a, before.a);
    assert_eq!(regs.b, before.b);
    assert_eq!(regs.c, before.c);
    assert_eq!(regs.f, before.f);
    assert_eq!(regs.h, before.h);
    assert_eq!(regs.l, before.l);
}

#[test]
fn set_hl_touches_only_h_and_l() {
    let before = sample_registers();
    let mut regs = before;
    regs.set_hl(0x9876);
    assert_eq!(regs.h, 0x98);
    assert_eq!(regs.l, 0x76);
    assert_eq!(regs.a, before.a);
    assert_eq!(regs.b, before.b);
    assert_eq!(regs.c, before.c);
    assert_eq!(regs.d, before.d);
    assert_eq!(regs.e, before.e);
    assert_eq!(regs.f, before.f);
}

#[test]
fn set_af_touches_only_a_and_f() {
    let before = sample_registers();
    let mut regs = before;
    regs.set_af(0x9870);
    assert_eq!(regs.a, 0x98);
    assert_eq!(regs.f, byte_to_flags(0x70));
    assert_eq!(regs.b, before.b);
    assert_eq!(regs.c, before.c);
    assert_eq!(regs.d, before.d);
    assert_eq!(regs.e, before.e);
    assert_eq!(regs.h, before.h);
    assert_eq!(regs.l, before.l);
}
