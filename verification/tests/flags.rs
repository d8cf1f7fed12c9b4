use gb_registers::{Flag, Registers};

/// Sets all four condition flags, bringing the flags register to 0xF0.
fn set_all_flags(registers: &mut Registers) {
    registers.set_flag(Flag::Zero, true);
    registers.set_flag(Flag::Addition, true);
    registers.set_flag(Flag::HalfCarry, true);
    registers.set_flag(Flag::Carry, true);
}

#[test]
fn set_flag_zero_on() {
    let mut registers = Registers::new();

    assert_eq!(registers.f(), 0);
    registers.set_flag(Flag::Zero, true);
    assert_eq!(0b1000_0000, registers.f());
}

#[test]
fn set_flag_zero_off() {
    let mut registers = Registers::new();

    set_all_flags(&mut registers);
    registers.set_flag(Flag::Zero, false);
    assert_eq!(0b0111_0000, registers.f());
}

#[test]
fn set_flag_addition_on() {
    let mut registers = Registers::new();

    assert_eq!(registers.f(), 0);
    registers.set_flag(Flag::Addition, true);
    assert_eq!(0b0100_0000, registers.f());
}

#[test]
fn set_flag_addition_off() {
    let mut registers = Registers::new();

    set_all_flags(&mut registers);
    registers.set_flag(Flag::Addition, false);
    assert_eq!(0b1011_0000, registers.f());
}

#[test]
fn set_flag_halfcarry_on() {
    let mut registers = Registers::new();

    assert_eq!(registers.f(), 0);
    registers.set_flag(Flag::HalfCarry, true);
    assert_eq!(0b0010_0000, registers.f());
}

#[test]
fn set_flag_halfcarry_off() {
    let mut registers = Registers::new();

    set_all_flags(&mut registers);
    registers.set_flag(Flag::HalfCarry, false);
    assert_eq!(0b1101_0000, registers.f());
}

#[test]
fn set_flag_carry_on() {
    let mut registers = Registers::new();

    assert_eq!(registers.f(), 0);
    registers.set_flag(Flag::Carry, true);
    assert_eq!(0b0001_0000, registers.f());
}

#[test]
fn set_flag_carry_off() {
    let mut registers = Registers::new();

    set_all_flags(&mut registers);
    registers.set_flag(Flag::Carry, false);
    assert_eq!(0b1110_0000, registers.f());
}

#[test]
fn set_multiple_flags_on() {
    let mut registers = Registers::new();

    assert_eq!(registers.f(), 0);
    registers.set_flag(Flag::Addition, true);
    registers.set_flag(Flag::Carry, true);
    assert_eq!(0b0101_0000, registers.f());
}

#[test]
fn set_multiple_flags_off() {
    let mut registers = Registers::new();

    set_all_flags(&mut registers);
    registers.set_flag(Flag::Addition, false);
    registers.set_flag(Flag::Carry, false);
    assert_eq!(0b1010_0000, registers.f());
}

#[test]
fn new_registers_are_all_zero() {
    let registers = Registers::new();

    assert_eq!(registers.a(), 0);
    assert_eq!(registers.f(), 0);
    assert_eq!(registers.b(), 0);
    assert_eq!(registers.c(), 0);
    assert_eq!(registers.d(), 0);
    assert_eq!(registers.e(), 0);
    assert_eq!(registers.sp(), 0);
    assert_eq!(registers.pc(), 0);
    assert!(!registers.get_flag(Flag::Zero));
    assert!(!registers.get_flag(Flag::Addition));
    assert!(!registers.get_flag(Flag::HalfCarry));
    assert!(!registers.get_flag(Flag::Carry));
}

#[test]
fn get_flag_returns_written_value() {
    let mut registers = Registers::new();

    registers.set_flag(Flag::Zero, true);
    assert!(registers.get_flag(Flag::Zero));
    registers.set_flag(Flag::Zero, false);
    assert!(!registers.get_flag(Flag::Zero));

    set_all_flags(&mut registers);
    registers.set_flag(Flag::HalfCarry, false);
    assert!(!registers.get_flag(Flag::HalfCarry));
    registers.set_flag(Flag::HalfCarry, true);
    assert!(registers.get_flag(Flag::HalfCarry));
}

#[test]
fn set_flag_leaves_other_flags_alone() {
    let mut registers = Registers::new();

    set_all_flags(&mut registers);
    registers.set_flag(Flag::Addition, false);
    assert!(registers.get_flag(Flag::Zero));
    assert!(registers.get_flag(Flag::HalfCarry));
    assert!(registers.get_flag(Flag::Carry));

    let mut fresh = Registers::new();
    fresh.set_flag(Flag::Carry, true);
    assert!(!fresh.get_flag(Flag::Zero));
    assert!(!fresh.get_flag(Flag::Addition));
    assert!(!fresh.get_flag(Flag::HalfCarry));
}

#[test]
fn low_nibble_stays_clear() {
    let mut registers = Registers::new();

    assert_eq!(registers.f() & 0x0F, 0);
    registers.set_flag(Flag::Zero, true);
    assert_eq!(registers.f() & 0x0F, 0);
    registers.set_flag(Flag::Carry, true);
    assert_eq!(registers.f() & 0x0F, 0);
    registers.set_flag(Flag::Zero, false);
    assert_eq!(registers.f() & 0x0F, 0);
    set_all_flags(&mut registers);
    assert_eq!(registers.f() & 0x0F, 0);
    registers.set_flag(Flag::HalfCarry, false);
    assert_eq!(registers.f() & 0x0F, 0);
}

#[test]
fn set_flag_twice_matches_once() {
    let mut once = Registers::new();
    let mut twice = Registers::new();

    set_all_flags(&mut once);
    set_all_flags(&mut twice);
    once.set_flag(Flag::Carry, false);
    twice.set_flag(Flag::Carry, false);
    twice.set_flag(Flag::Carry, false);
    assert_eq!(once.f(), twice.f());

    once.set_flag(Flag::Zero, true);
    twice.set_flag(Flag::Zero, true);
    twice.set_flag(Flag::Zero, true);
    assert_eq!(once.f(), twice.f());
}
