use gb_core::executor::Emulator;
use gb_core::EmuError;

/// An emulator with the given bytes placed in the cartridge at `at`, the
/// program counter set there, and a cartridge large enough around them.
fn with_program(at: u16, bytes: &[u8]) -> Emulator {
    let mut e = Emulator::new();
    let mut cart = vec![0u8; 0x4000];
    for (i, b) in bytes.iter().enumerate() {
        cart[at as usize + i] = *b;
    }
    e.memory.load_cartridge(&cart);
    e.cpu.pc = at;
    e
}

#[test]
fn nop_only_advances_pc() {
    let mut e = with_program(0x0100, &[0x00]);
    let before = e.cpu;
    assert_eq!(e.step(), None);
    assert_eq!(e.cpu.pc, 0x0101);
    assert_eq!(e.cpu.a, before.a);
    assert_eq!(e.cpu.flags, before.flags);
}

#[test]
fn absolute_jump_sets_pc_little_endian() {
    let mut e = with_program(0x0100, &[0xC3, 0x50, 0x01]);
    assert_eq!(e.step(), None);
    assert_eq!(e.cpu.pc, 0x0150);
}

#[test]
fn xor_a_clears_accumulator_and_sets_zero() {
    let mut e = with_program(0x0100, &[0xAF, 0xAF]);
    e.cpu.a = 0x5A;
    e.cpu.flags.subtraction = true;
    e.cpu.flags.half_carry = true;
    e.cpu.flags.carry = true;
    // self-xor is idempotent: accumulator 0 and zero flag set, both times
    assert_eq!(e.step(), None);
    assert_eq!(e.cpu.a, 0);
    assert!(e.cpu.flags.zero);
    assert!(!e.cpu.flags.subtraction);
    assert!(!e.cpu.flags.half_carry);
    assert!(!e.cpu.flags.carry);
    assert_eq!(e.step(), None);
    assert_eq!(e.cpu.a, 0);
    assert!(e.cpu.flags.zero);
    assert_eq!(e.cpu.pc, 0x0102);
}

#[test]
fn immediate_loads_into_pairs_and_sp() {
    let mut e = with_program(0x0100, &[0x21, 0xCD, 0xAB, 0x11, 0x34, 0x12, 0x31, 0xFE, 0xFF]);
    assert_eq!(e.step(), None);
    assert_eq!(e.cpu.h, 0xAB);
    assert_eq!(e.cpu.l, 0xCD);
    assert_eq!(e.cpu.pc, 0x0103);
    assert_eq!(e.step(), None);
    assert_eq!(e.cpu.d, 0x12);
    assert_eq!(e.cpu.e, 0x34);
    assert_eq!(e.cpu.pc, 0x0106);
    assert_eq!(e.step(), None);
    assert_eq!(e.cpu.sp, 0xFFFE);
    assert_eq!(e.cpu.pc, 0x0109);
}

#[test]
fn immediate_loads_into_registers() {
    let mut e = with_program(0x0100, &[0x3E, 0x7F, 0x06, 0x40, 0x0E, 0x99]);
    assert_eq!(e.step(), None);
    assert_eq!(e.cpu.a, 0x7F);
    assert_eq!(e.step(), None);
    assert_eq!(e.cpu.b, 0x40);
    assert_eq!(e.step(), None);
    assert_eq!(e.cpu.c, 0x99);
    assert_eq!(e.cpu.pc, 0x0106);
}

#[test]
fn indirect_load_from_de() {
    let mut e = with_program(0x0100, &[0x1A]);
    e.memory.write_byte(0xC050, 0x42).unwrap();
    e.cpu.set_de(0xC050);
    assert_eq!(e.step(), None);
    assert_eq!(e.cpu.a, 0x42);
    assert_eq!(e.cpu.pc, 0x0101);
}

#[test]
fn indirect_store_to_hl() {
    let mut e = with_program(0x0100, &[0x77]);
    e.cpu.a = 0x66;
    e.cpu.set_hl(0x8123);
    assert_eq!(e.step(), None);
    assert_eq!(e.memory.read_byte(0x8123), 0x66);
    assert_eq!(e.cpu.get_hl(), 0x8123);
    assert_eq!(e.cpu.pc, 0x0101);
}

#[test]
fn indirect_store_with_post_decrement() {
    let mut e = with_program(0x0100, &[0x32, 0x32]);
    e.cpu.a = 0x31;
    e.cpu.set_hl(0x9FFF);
    assert_eq!(e.step(), None);
    assert_eq!(e.memory.read_byte(0x9FFF), 0x31);
    assert_eq!(e.cpu.get_hl(), 0x9FFE);
    assert_eq!(e.step(), None);
    assert_eq!(e.memory.read_byte(0x9FFE), 0x31);
    assert_eq!(e.cpu.get_hl(), 0x9FFD);
}

#[test]
fn post_decrement_wraps_at_zero() {
    let mut e = with_program(0x0100, &[0x32]);
    e.cpu.a = 0x01;
    e.cpu.set_hl(0x0000);
    e.strict = false; // the store itself targets ROM and is ignored
    assert_eq!(e.step(), None);
    assert_eq!(e.cpu.get_hl(), 0xFFFF);
}

#[test]
fn strict_store_into_rom_halts_without_effect() {
    let mut e = with_program(0x0100, &[0x77]);
    e.cpu.a = 0x66;
    e.cpu.set_hl(0x1234);
    let before_pc = e.cpu.pc;
    assert_eq!(e.step(), Some(EmuError::WriteToReadOnlyRegion(0x1234)));
    assert_eq!(e.cpu.pc, before_pc);
    assert_eq!(e.memory.read_byte(0x1234), 0x00);
}

#[test]
fn permissive_store_into_rom_is_ignored() {
    let mut e = with_program(0x0100, &[0x77]);
    e.strict = false;
    e.cpu.a = 0x66;
    e.cpu.set_hl(0x1234);
    assert_eq!(e.step(), None);
    assert_eq!(e.cpu.pc, 0x0101);
    assert_eq!(e.memory.read_byte(0x1234), 0x00);
}

#[test]
fn high_memory_store_and_load() {
    let mut e = with_program(0x0100, &[0xE0, 0x42, 0xF0, 0x42]);
    e.cpu.a = 0x17;
    assert_eq!(e.step(), None);
    assert_eq!(e.memory.read_byte(0xFF42), 0x17);
    e.cpu.a = 0;
    assert_eq!(e.step(), None);
    assert_eq!(e.cpu.a, 0x17);
    assert_eq!(e.cpu.pc, 0x0104);
}

#[test]
fn high_memory_store_through_c() {
    let mut e = with_program(0x0100, &[0xE2]);
    e.cpu.a = 0x29;
    e.cpu.c = 0x81;
    assert_eq!(e.step(), None);
    assert_eq!(e.memory.read_byte(0xFF81), 0x29);
    assert_eq!(e.cpu.pc, 0x0101);
}

#[test]
fn increment_c_updates_flags_by_nibble_carry() {
    let mut e = with_program(0x0100, &[0x0C]);
    e.cpu.c = 0x0F;
    e.cpu.flags.carry = true;
    assert_eq!(e.step(), None);
    assert_eq!(e.cpu.c, 0x10);
    assert!(!e.cpu.flags.zero);
    assert!(!e.cpu.flags.subtraction);
    assert!(e.cpu.flags.half_carry);
    assert!(e.cpu.flags.carry); // carry flag untouched by increment
}

#[test]
fn increment_c_wraps_to_zero() {
    let mut e = with_program(0x0100, &[0x0C]);
    e.cpu.c = 0xFF;
    assert_eq!(e.step(), None);
    assert_eq!(e.cpu.c, 0x00);
    assert!(e.cpu.flags.zero);
    assert!(e.cpu.flags.half_carry);
}

#[test]
fn decrement_c_updates_flags_by_nibble_borrow() {
    let mut e = with_program(0x0100, &[0x0D]);
    e.cpu.c = 0x10;
    assert_eq!(e.step(), None);
    assert_eq!(e.cpu.c, 0x0F);
    assert!(!e.cpu.flags.zero);
    assert!(e.cpu.flags.subtraction);
    assert!(e.cpu.flags.half_carry);
}

#[test]
fn decrement_c_to_zero_sets_zero_flag() {
    let mut e = with_program(0x0100, &[0x0D]);
    e.cpu.c = 0x01;
    assert_eq!(e.step(), None);
    assert_eq!(e.cpu.c, 0x00);
    assert!(e.cpu.flags.zero);
    assert!(!e.cpu.flags.half_carry);
}

#[test]
fn decrement_b_wraps_below_zero() {
    let mut e = with_program(0x0100, &[0x05]);
    e.cpu.b = 0x00;
    assert_eq!(e.step(), None);
    assert_eq!(e.cpu.b, 0xFF);
    assert!(!e.cpu.flags.zero);
    assert!(e.cpu.flags.subtraction);
    assert!(e.cpu.flags.half_carry);
}

#[test]
fn compare_immediate_sets_flags_without_storing() {
    let mut e = with_program(0x0100, &[0xFE, 0x94]);
    e.cpu.a = 0x00;
    assert_eq!(e.step(), None);
    assert_eq!(e.cpu.a, 0x00);
    assert!(!e.cpu.flags.zero);
    assert!(e.cpu.flags.subtraction);
    assert!(e.cpu.flags.half_carry); // low nibble 0 borrows against 4
    assert!(e.cpu.flags.carry);
    assert_eq!(e.cpu.pc, 0x0102);
}

#[test]
fn compare_equal_sets_zero() {
    let mut e = with_program(0x0100, &[0xFE, 0x42]);
    e.cpu.a = 0x42;
    assert_eq!(e.step(), None);
    assert!(e.cpu.flags.zero);
    assert!(e.cpu.flags.subtraction);
    assert!(!e.cpu.flags.half_carry);
    assert!(!e.cpu.flags.carry);
}

#[test]
fn relative_jump_taken_backwards() {
    // zero flag clear; displacement -2 from the address after the two-byte
    // instruction at 0x0150 lands back on the instruction itself
    let mut e = with_program(0x0150, &[0x20, 0xFE]);
    e.cpu.flags.zero = false;
    assert_eq!(e.step(), None);
    assert_eq!(e.cpu.pc, 0x0150);
}

#[test]
fn relative_jump_not_taken_advances() {
    let mut e = with_program(0x0150, &[0x20, 0xFE]);
    e.cpu.flags.zero = true;
    assert_eq!(e.step(), None);
    assert_eq!(e.cpu.pc, 0x0152);
}

#[test]
fn relative_jump_forward_on_carry_clear() {
    let mut e = with_program(0x0100, &[0x30, 0x10]);
    e.cpu.flags.carry = false;
    assert_eq!(e.step(), None);
    assert_eq!(e.cpu.pc, 0x0112);
    let mut taken_not = with_program(0x0100, &[0x30, 0x10]);
    taken_not.cpu.flags.carry = true;
    assert_eq!(taken_not.step(), None);
    assert_eq!(taken_not.cpu.pc, 0x0102);
}

#[test]
fn disable_interrupts_clears_master_flag() {
    let mut e = with_program(0x0100, &[0xF3]);
    assert!(e.cpu.interrupt_enabled);
    assert_eq!(e.step(), None);
    assert!(!e.cpu.interrupt_enabled);
    assert_eq!(e.cpu.pc, 0x0101);
}

#[test]
fn call_pushes_return_address_and_jumps() {
    // call from 0x0200 with sp 0xFFFE to 0x0300: sp ends 0xFFFC, the
    // return address 0x0203 sits high byte at 0xFFFD, low byte at 0xFFFC
    let mut e = with_program(0x0200, &[0xCD, 0x00, 0x03]);
    assert_eq!(e.cpu.sp, 0xFFFE);
    assert_eq!(e.step(), None);
    assert_eq!(e.cpu.sp, 0xFFFC);
    assert_eq!(e.memory.read_byte(0xFFFD), 0x02);
    assert_eq!(e.memory.read_byte(0xFFFC), 0x03);
    assert_eq!(e.cpu.pc, 0x0300);
}

#[test]
fn strict_call_with_stack_in_rom_halts() {
    let mut e = with_program(0x0200, &[0xCD, 0x00, 0x03]);
    e.cpu.sp = 0x0002;
    assert_eq!(e.step(), Some(EmuError::WriteToReadOnlyRegion(0x0001)));
    assert_eq!(e.cpu.sp, 0x0002);
    assert_eq!(e.cpu.pc, 0x0200);
}

#[test]
fn permissive_call_with_stack_straddling_rom() {
    // sp 0x4001 pushes the high byte at 0x4000 (scratch) and would push the
    // low byte at 0x3FFF (ROM): permissively the ROM byte is ignored and
    // the call still completes
    let mut e = with_program(0x0200, &[0xCD, 0x00, 0x03]);
    e.strict = false;
    e.cpu.sp = 0x4001;
    assert_eq!(e.step(), None);
    assert_eq!(e.cpu.sp, 0x3FFF);
    assert_eq!(e.cpu.pc, 0x0300);
    assert_eq!(e.memory.read_byte(0x4000), 0x02);
    assert_eq!(e.memory.read_byte(0x3FFF), 0x00);
}

#[test]
fn extended_bit_test_on_h() {
    let mut e = with_program(0x0100, &[0xCB, 0x7C, 0xCB, 0x7C]);
    e.cpu.h = 0x80;
    assert_eq!(e.step(), None);
    assert!(!e.cpu.flags.zero); // bit 7 set: zero flag is its complement
    assert!(!e.cpu.flags.subtraction);
    assert!(e.cpu.flags.half_carry);
    assert_eq!(e.cpu.pc, 0x0102);
    e.cpu.h = 0x7F;
    assert_eq!(e.step(), None);
    assert!(e.cpu.flags.zero);
    assert_eq!(e.cpu.pc, 0x0104);
}

#[test]
fn unknown_extended_opcode_halts_with_prefix_address() {
    let mut e = with_program(0x0100, &[0xCB, 0x41]);
    assert_eq!(e.step(), Some(EmuError::UnimplementedExtendedOpcode(0x41, 0x0100)));
    assert_eq!(e.cpu.pc, 0x0100);
}

#[test]
fn unknown_opcode_halts_and_reports_address() {
    // unknown opcode 0xFD at 0x0400: the run halts, the report carries the
    // opcode and its address, and no register beyond the pc that fetched it
    // has changed
    let mut e = with_program(0x0400, &[0xFD]);
    let before = e.cpu;
    assert_eq!(e.step(), Some(EmuError::UnimplementedOpcode(0xFD, 0x0400)));
    assert_eq!(e.cpu, before);
    assert_eq!(e.cpu.pc, 0x0400);
}

#[test]
fn run_executes_until_unknown_opcode() {
    // a small program: load a, compare, then an unknown opcode stops the run
    let mut e = Emulator::new();
    let mut cart = vec![0u8; 0x4000];
    cart[0x0100] = 0x3E; // load a with 0x21
    cart[0x0101] = 0x21;
    cart[0x0102] = 0xFE; // compare a with 0x21
    cart[0x0103] = 0x21;
    cart[0x0104] = 0xFD; // unknown
    e.cpu.pc = 0x0100;
    let halt = e.run(&cart, 100);
    assert_eq!(halt, Some(EmuError::UnimplementedOpcode(0xFD, 0x0104)));
    assert_eq!(e.cpu.a, 0x21);
    assert!(e.cpu.flags.zero);
    assert_eq!(e.cpu.pc, 0x0104);
}

#[test]
fn run_stops_when_fuel_is_exhausted() {
    let mut e = Emulator::new();
    let mut cart = vec![0u8; 0x4000];
    cart[0x0100] = 0xC3; // jump to self, forever
    cart[0x0101] = 0x00;
    cart[0x0102] = 0x01;
    e.cpu.pc = 0x0100;
    let halt = e.run(&cart, 1000);
    assert_eq!(halt, None);
    assert_eq!(e.cpu.pc, 0x0100);
}

#[test]
fn new_emulator_starts_strict_at_reset() {
    let e = Emulator::new();
    assert!(e.strict);
    assert_eq!(e.cpu.pc, 0x0000);
    assert_eq!(e.cpu.sp, 0xFFFE);
    assert_eq!(e.memory.read_byte(0xFF50), 1);
}
