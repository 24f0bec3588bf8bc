use gb_core::registers::CPU;

#[test]
fn reset_values() {
    let cpu = CPU::new();
    assert_eq!(cpu.a, 0);
    assert_eq!(cpu.b, 0);
    assert_eq!(cpu.c, 0);
    assert_eq!(cpu.d, 0);
    assert_eq!(cpu.e, 0);
    assert_eq!(cpu.h, 0);
    assert_eq!(cpu.l, 0);
    assert_eq!(cpu.sp, 0xFFFE);
    assert_eq!(cpu.pc, 0x0000);
    assert!(cpu.interrupt_enabled);
    assert!(!cpu.flags.zero);
    assert!(!cpu.flags.subtraction);
    assert!(!cpu.flags.half_carry);
    assert!(!cpu.flags.carry);
}

#[test]
fn pair_bc_round_trips() {
    let mut cpu = CPU::new();
    cpu.set_bc(0xABCD);
    assert_eq!(cpu.b, 0xAB);
    assert_eq!(cpu.c, 0xCD);
    assert_eq!(cpu.get_bc(), 0xABCD);
}

#[test]
fn pair_de_round_trips() {
    let mut cpu = CPU::new();
    cpu.set_de(0x1234);
    assert_eq!(cpu.d, 0x12);
    assert_eq!(cpu.e, 0x34);
    assert_eq!(cpu.get_de(), 0x1234);
}

#[test]
fn pair_hl_round_trips() {
    let mut cpu = CPU::new();
    cpu.set_hl(0xFF01);
    assert_eq!(cpu.h, 0xFF);
    assert_eq!(cpu.l, 0x01);
    assert_eq!(cpu.get_hl(), 0xFF01);
}

#[test]
fn pair_round_trips_at_extremes() {
    let mut cpu = CPU::new();
    cpu.set_hl(0x0000);
    assert_eq!(cpu.get_hl(), 0x0000);
    cpu.set_hl(0xFFFF);
    assert_eq!(cpu.get_hl(), 0xFFFF);
    cpu.set_hl(0x00FF);
    assert_eq!(cpu.h, 0x00);
    assert_eq!(cpu.l, 0xFF);
    assert_eq!(cpu.get_hl(), 0x00FF);
}

#[test]
fn flags_pack_into_conventional_byte() {
    let mut cpu = CPU::new();
    cpu.flags.zero = true;
    cpu.flags.carry = true;
    assert_eq!(cpu.get_flags_byte(), 0b1001_0000);
    cpu.flags.subtraction = true;
    cpu.flags.half_carry = true;
    assert_eq!(cpu.get_flags_byte(), 0b1111_0000);
}

#[test]
fn flags_byte_round_trips() {
    let mut cpu = CPU::new();
    cpu.set_flags_byte(0b1010_0000);
    assert!(cpu.flags.zero);
    assert!(!cpu.flags.subtraction);
    assert!(cpu.flags.half_carry);
    assert!(!cpu.flags.carry);
    let b = cpu.get_flags_byte();
    assert_eq!(b, 0b1010_0000);
    // the low nibble of a restored byte is ignored
    cpu.set_flags_byte(0b0101_1111);
    assert!(!cpu.flags.zero);
    assert!(cpu.flags.subtraction);
    assert!(!cpu.flags.half_carry);
    assert!(cpu.flags.carry);
    assert_eq!(cpu.get_flags_byte(), 0b0101_0000);
}
