//! The fetch-decode-execute engine.
//!
//! A step fetches the opcode byte at `pc` through the address space, decodes
//! it, executes it against the register file and the address space, and
//! either advances `pc` past the instruction or redirects it (jumps, calls).
//! An opcode absent from either decode table halts the run with a reported
//! error; nothing panics and no state is lost.
//!
//! Every instruction's exact effect is stated once, as a spec-level
//! transition (`exec_*` below), and the primary and extended decode tables
//! as the dispatching [`step_spec`]; the executable [`Emulator::step`] is
//! proved to realise one transition, and [`Emulator::run`] to iterate it.

use vstd::prelude::*;

use crate::EmuError;
use crate::memory::{Memory, MemView, mem_read, mem_write, rom_addr};
use crate::registers::{CPU, Flags, initial_cpu, pair16, high_byte, low_byte};

verus! {

/// Add modulo 2^16, as the 16-bit program counter and pointers wrap.
pub open spec fn wrap_add16(a: u16, b: u16) -> u16 {
    ((a + b) % 0x10000) as u16
}

/// Subtract modulo 2^16.
pub open spec fn wrap_sub16(a: u16, b: u16) -> u16 {
    ((a + 0x10000 - b) % 0x10000) as u16
}

/// Add modulo 2^8, as 8-bit register arithmetic wraps.
pub open spec fn wrap_add8(a: u8, b: u8) -> u8 {
    ((a + b) % 0x100) as u8
}

/// Subtract modulo 2^8.
pub open spec fn wrap_sub8(a: u8, b: u8) -> u8 {
    ((a + 0x100 - b) % 0x100) as u8
}

/// A signed 8-bit displacement as the 16-bit value it adds modulo 2^16:
/// bytes 0x80..=0xFF stand for -128..=-1, and d - 256 is congruent to
/// d + 0xFF00 modulo 2^16.
pub open spec fn sign_ext16(d: u8) -> u16 {
    if d < 0x80 {
        d as u16
    } else {
        (d + 0xFF00) as u16
    }
}

/// Add modulo 2^16 (executable form).
pub fn wadd16(a: u16, b: u16) -> (r: u16)
    ensures
        r == wrap_add16(a, b),
{
    (((a as u32) + (b as u32)) % 0x10000) as u16
}

/// Subtract modulo 2^16 (executable form).
pub fn wsub16(a: u16, b: u16) -> (r: u16)
    ensures
        r == wrap_sub16(a, b),
{
    (((a as u32) + 0x10000 - (b as u32)) % 0x10000) as u16
}

/// Add modulo 2^8 (executable form).
pub fn wadd8(a: u8, b: u8) -> (r: u8)
    ensures
        r == wrap_add8(a, b),
{
    (((a as u16) + (b as u16)) % 0x100) as u8
}

/// Subtract modulo 2^8 (executable form).
pub fn wsub8(a: u8, b: u8) -> (r: u8)
    ensures
        r == wrap_sub8(a, b),
{
    (((a as u16) + 0x100 - (b as u16)) % 0x100) as u8
}

/// The 16-bit little-endian value stored at an address: low byte first,
/// high byte at the next address.
pub open spec fn word_at(m: MemView, addr: u16) -> u16 {
    pair16(mem_read(m, wrap_add16(addr, 1)), mem_read(m, addr))
}

/// The whole machine as the executor sees it: register file, address space,
/// and the caller's policy on writes into read-only regions (strict halts,
/// permissive ignores the write).
#[verifier::ext_equal]
pub struct EmuView {
    pub cpu: CPU,
    pub mem: MemView,
    pub strict: bool,
}

/// No-op: only `pc` moves, past the one opcode byte.
pub open spec fn exec_nop(s: EmuView) -> EmuView {
    EmuView { cpu: (CPU { pc: wrap_add16(s.cpu.pc, 1), ..s.cpu }), ..s }
}

/// Unconditional absolute jump: `pc` becomes the 16-bit little-endian
/// operand.
pub open spec fn exec_jp_imm(s: EmuView) -> EmuView {
    EmuView { cpu: (CPU { pc: word_at(s.mem, wrap_add16(s.cpu.pc, 1)), ..s.cpu }), ..s }
}

/// Accumulator self-xor: clears `a`, sets the zero flag, clears the other
/// three flags.
pub open spec fn exec_xor_a(s: EmuView) -> EmuView {
    EmuView {
        cpu: (CPU {
            a: 0,
            flags: (Flags { zero: true, subtraction: false, half_carry: false, carry: false }),
            pc: wrap_add16(s.cpu.pc, 1),
            ..s.cpu
        }),
        ..s
    }
}

/// The accumulator self-xor is idempotent: from any state, executing it
/// leaves the accumulator at zero with the zero flag set, and executing it
/// again from the resulting state leaves both exactly so a second time.
pub proof fn lemma_xor_a_idempotent(s: EmuView)
    ensures
        exec_xor_a(s).cpu.a == 0,
        exec_xor_a(s).cpu.flags.zero,
        exec_xor_a(exec_xor_a(s)).cpu.a == 0,
        exec_xor_a(exec_xor_a(s)).cpu.flags.zero,
        exec_xor_a(exec_xor_a(s)).cpu.flags == exec_xor_a(s).cpu.flags,
{
}

/// 16-bit immediate load into the (h,l) pair.
pub open spec fn exec_ld_hl_imm(s: EmuView) -> EmuView {
    let v = word_at(s.mem, wrap_add16(s.cpu.pc, 1));
    EmuView {
        cpu: (CPU { h: high_byte(v), l: low_byte(v), pc: wrap_add16(s.cpu.pc, 3), ..s.cpu }),
        ..s
    }
}

/// 16-bit immediate load into the (d,e) pair.
pub open spec fn exec_ld_de_imm(s: EmuView) -> EmuView {
    let v = word_at(s.mem, wrap_add16(s.cpu.pc, 1));
    EmuView {
        cpu: (CPU { d: high_byte(v), e: low_byte(v), pc: wrap_add16(s.cpu.pc, 3), ..s.cpu }),
        ..s
    }
}

/// 16-bit immediate load into the stack pointer.
pub open spec fn exec_ld_sp_imm(s: EmuView) -> EmuView {
    let v = word_at(s.mem, wrap_add16(s.cpu.pc, 1));
    EmuView { cpu: (CPU { sp: v, pc: wrap_add16(s.cpu.pc, 3), ..s.cpu }), ..s }
}

/// 8-bit immediate load into `a`.
pub open spec fn exec_ld_a_imm(s: EmuView) -> EmuView {
    let v = mem_read(s.mem, wrap_add16(s.cpu.pc, 1));
    EmuView { cpu: (CPU { a: v, pc: wrap_add16(s.cpu.pc, 2), ..s.cpu }), ..s }
}

/// 8-bit immediate load into `b`.
pub open spec fn exec_ld_b_imm(s: EmuView) -> EmuView {
    let v = mem_read(s.mem, wrap_add16(s.cpu.pc, 1));
    EmuView { cpu: (CPU { b: v, pc: wrap_add16(s.cpu.pc, 2), ..s.cpu }), ..s }
}

/// 8-bit immediate load into `c`.
pub open spec fn exec_ld_c_imm(s: EmuView) -> EmuView {
    let v = mem_read(s.mem, wrap_add16(s.cpu.pc, 1));
    EmuView { cpu: (CPU { c: v, pc: wrap_add16(s.cpu.pc, 2), ..s.cpu }), ..s }
}

/// Indirect load: `a` gets the byte at the address in the (d,e) pair.
pub open spec fn exec_ld_a_de(s: EmuView) -> EmuView {
    EmuView {
        cpu: (CPU { a: mem_read(s.mem, s.cpu.de()), pc: wrap_add16(s.cpu.pc, 1), ..s.cpu }),
        ..s
    }
}

/// Indirect store of `a` to the address in the (h,l) pair. A target inside
/// ROM halts under the strict policy with the state unchanged; under the
/// permissive policy the write is ignored and the step completes.
pub open spec fn exec_st_hl_a(s: EmuView) -> (EmuView, Option<EmuError>) {
    let addr = s.cpu.hl();
    if s.strict && rom_addr(addr) {
        (s, Some(EmuError::WriteToReadOnlyRegion(addr)))
    } else {
        (
            EmuView {
                cpu: (CPU { pc: wrap_add16(s.cpu.pc, 1), ..s.cpu }),
                mem: mem_write(s.mem, addr, s.cpu.a),
                ..s
            },
            None,
        )
    }
}

/// Indirect store of `a` to the address in the (h,l) pair, then a wrapping
/// decrement of the pair (sequential fills growing downward). ROM targets
/// as for the plain indirect store.
pub open spec fn exec_st_hl_dec_a(s: EmuView) -> (EmuView, Option<EmuError>) {
    let addr = s.cpu.hl();
    if s.strict && rom_addr(addr) {
        (s, Some(EmuError::WriteToReadOnlyRegion(addr)))
    } else {
        let nhl = wrap_sub16(addr, 1);
        (
            EmuView {
                cpu: (CPU {
                    h: high_byte(nhl),
                    l: low_byte(nhl),
                    pc: wrap_add16(s.cpu.pc, 1),
                    ..s.cpu
                }),
                mem: mem_write(s.mem, addr, s.cpu.a),
                ..s
            },
            None,
        )
    }
}

/// High-memory store: `a` is written at 0xFF00 plus the immediate offset
/// (always a writable region).
pub open spec fn exec_ldh_imm_a(s: EmuView) -> EmuView {
    let offset = mem_read(s.mem, wrap_add16(s.cpu.pc, 1));
    EmuView {
        cpu: (CPU { pc: wrap_add16(s.cpu.pc, 2), ..s.cpu }),
        mem: mem_write(s.mem, (0xFF00 + offset) as u16, s.cpu.a),
        ..s
    }
}

/// High-memory store: `a` is written at 0xFF00 plus register `c`.
pub open spec fn exec_ldh_c_a(s: EmuView) -> EmuView {
    EmuView {
        cpu: (CPU { pc: wrap_add16(s.cpu.pc, 1), ..s.cpu }),
        mem: mem_write(s.mem, (0xFF00 + s.cpu.c) as u16, s.cpu.a),
        ..s
    }
}

/// High-memory load: `a` gets the byte at 0xFF00 plus the immediate offset.
pub open spec fn exec_ldh_a_imm(s: EmuView) -> EmuView {
    let offset = mem_read(s.mem, wrap_add16(s.cpu.pc, 1));
    EmuView {
        cpu: (CPU {
            a: mem_read(s.mem, (0xFF00 + offset) as u16),
            pc: wrap_add16(s.cpu.pc, 2),
            ..s.cpu
        }),
        ..s
    }
}

/// Wrapping increment of `c`: zero flag from the result, subtraction flag
/// cleared, half-carry exactly on a carry out of the low nibble, carry flag
/// untouched.
pub open spec fn exec_inc_c(s: EmuView) -> EmuView {
    let r = wrap_add8(s.cpu.c, 1);
    EmuView {
        cpu: (CPU {
            c: r,
            flags: (Flags {
                zero: r == 0,
                subtraction: false,
                half_carry: s.cpu.c % 16 == 15,
                carry: s.cpu.flags.carry,
            }),
            pc: wrap_add16(s.cpu.pc, 1),
            ..s.cpu
        }),
        ..s
    }
}

/// Wrapping decrement of `c`: zero flag from the result, subtraction flag
/// set, half-carry exactly on a borrow from the low nibble, carry flag
/// untouched.
pub open spec fn exec_dec_c(s: EmuView) -> EmuView {
    let r = wrap_sub8(s.cpu.c, 1);
    EmuView {
        cpu: (CPU {
            c: r,
            flags: (Flags {
                zero: r == 0,
                subtraction: true,
                half_carry: s.cpu.c % 16 == 0,
                carry: s.cpu.flags.carry,
            }),
            pc: wrap_add16(s.cpu.pc, 1),
            ..s.cpu
        }),
        ..s
    }
}

/// Wrapping decrement of `b`, flags as for the decrement of `c`.
pub open spec fn exec_dec_b(s: EmuView) -> EmuView {
    let r = wrap_sub8(s.cpu.b, 1);
    EmuView {
        cpu: (CPU {
            b: r,
            flags: (Flags {
                zero: r == 0,
                subtraction: true,
                half_carry: s.cpu.b % 16 == 0,
                carry: s.cpu.flags.carry,
            }),
            pc: wrap_add16(s.cpu.pc, 1),
            ..s.cpu
        }),
        ..s
    }
}

/// Compare `a` with the immediate: the flags of `a - value`, the result
/// dropped. Zero on equality, subtraction set, half-carry on a low-nibble
/// borrow, carry when the value is greater than `a`.
pub open spec fn exec_cp_imm(s: EmuView) -> EmuView {
    let v = mem_read(s.mem, wrap_add16(s.cpu.pc, 1));
    EmuView {
        cpu: (CPU {
            flags: (Flags {
                zero: s.cpu.a == v,
                subtraction: true,
                half_carry: s.cpu.a % 16 < v % 16,
                carry: s.cpu.a < v,
            }),
            pc: wrap_add16(s.cpu.pc, 2),
            ..s.cpu
        }),
        ..s
    }
}

/// Relative jump if the zero flag is clear: the signed 8-bit displacement
/// is measured from the address after this two-byte instruction; if the
/// condition fails, `pc` merely advances past the instruction.
pub open spec fn exec_jr_nz(s: EmuView) -> EmuView {
    let disp = mem_read(s.mem, wrap_add16(s.cpu.pc, 1));
    let after = wrap_add16(s.cpu.pc, 2);
    let target = if !s.cpu.flags.zero {
        wrap_add16(after, sign_ext16(disp))
    } else {
        after
    };
    EmuView { cpu: (CPU { pc: target, ..s.cpu }), ..s }
}

/// Relative jump if the carry flag is clear, otherwise as for the
/// zero-flag form.
pub open spec fn exec_jr_nc(s: EmuView) -> EmuView {
    let disp = mem_read(s.mem, wrap_add16(s.cpu.pc, 1));
    let after = wrap_add16(s.cpu.pc, 2);
    let target = if !s.cpu.flags.carry {
        wrap_add16(after, sign_ext16(disp))
    } else {
        after
    };
    EmuView { cpu: (CPU { pc: target, ..s.cpu }), ..s }
}

/// Disable interrupts: clears the master enable flag, nothing else.
pub open spec fn exec_di(s: EmuView) -> EmuView {
    EmuView {
        cpu: (CPU { interrupt_enabled: false, pc: wrap_add16(s.cpu.pc, 1), ..s.cpu }),
        ..s
    }
}

/// Call: push the address after this three-byte instruction — high byte at
/// `sp - 1`, low byte at `sp - 2` — leave `sp` two lower, and jump to the
/// 16-bit operand. A push into ROM halts under the strict policy with the
/// state unchanged; under the permissive policy such a byte is ignored.
pub open spec fn exec_call_imm(s: EmuView) -> (EmuView, Option<EmuError>) {
    let target = word_at(s.mem, wrap_add16(s.cpu.pc, 1));
    let ret = wrap_add16(s.cpu.pc, 3);
    let sp1 = wrap_sub16(s.cpu.sp, 1);
    let sp2 = wrap_sub16(s.cpu.sp, 2);
    if s.strict && (rom_addr(sp1) || rom_addr(sp2)) {
        (
            s,
            Some(
                EmuError::WriteToReadOnlyRegion(
                    if rom_addr(sp1) {
                        sp1
                    } else {
                        sp2
                    },
                ),
            ),
        )
    } else {
        (
            EmuView {
                cpu: (CPU { sp: sp2, pc: target, ..s.cpu }),
                mem: mem_write(mem_write(s.mem, sp1, high_byte(ret)), sp2, low_byte(ret)),
                ..s
            },
            None,
        )
    }
}

/// Extended bit test of bit 7 of `h`: the zero flag becomes the bit's
/// complement, subtraction is cleared, half-carry set, carry untouched.
pub open spec fn exec_bit7_h(s: EmuView) -> EmuView {
    EmuView {
        cpu: (CPU {
            flags: (Flags {
                zero: s.cpu.h < 0x80,
                subtraction: false,
                half_carry: true,
                carry: s.cpu.flags.carry,
            }),
            pc: wrap_add16(s.cpu.pc, 2),
            ..s.cpu
        }),
        ..s
    }
}

/// The extended-opcode prefix: the next byte selects from the secondary
/// decode table; a miss halts with the secondary opcode and the address of
/// the prefix byte.
pub open spec fn exec_extended(s: EmuView) -> (EmuView, Option<EmuError>) {
    let sub = mem_read(s.mem, wrap_add16(s.cpu.pc, 1));
    if sub == 0x7C {
        (exec_bit7_h(s), None)
    } else {
        (s, Some(EmuError::UnimplementedExtendedOpcode(sub, s.cpu.pc)))
    }
}

/// One step of the machine: fetch the opcode byte at `pc`, decode through
/// the primary table (and the secondary one behind the 0xCB prefix), and
/// apply the instruction's transition. A decode miss, or in strict mode a
/// write into read-only memory, halts with the state unchanged and the
/// condition reported.
#[verifier::opaque]
pub open spec fn step_spec(s: EmuView) -> (EmuView, Option<EmuError>) {
    let op = mem_read(s.mem, s.cpu.pc);
    if op == 0x00 {
        (exec_nop(s), None)
    } else if op == 0xC3 {
        (exec_jp_imm(s), None)
    } else if op == 0xAF {
        (exec_xor_a(s), None)
    } else if op == 0x21 {
        (exec_ld_hl_imm(s), None)
    } else if op == 0x11 {
        (exec_ld_de_imm(s), None)
    } else if op == 0x31 {
        (exec_ld_sp_imm(s), None)
    } else if op == 0x3E {
        (exec_ld_a_imm(s), None)
    } else if op == 0x06 {
        (exec_ld_b_imm(s), None)
    } else if op == 0x0E {
        (exec_ld_c_imm(s), None)
    } else if op == 0x1A {
        (exec_ld_a_de(s), None)
    } else if op == 0x77 {
        exec_st_hl_a(s)
    } else if op == 0x32 {
        exec_st_hl_dec_a(s)
    } else if op == 0xE0 {
        (exec_ldh_imm_a(s), None)
    } else if op == 0xE2 {
        (exec_ldh_c_a(s), None)
    } else if op == 0xF0 {
        (exec_ldh_a_imm(s), None)
    } else if op == 0x0C {
        (exec_inc_c(s), None)
    } else if op == 0x0D {
        (exec_dec_c(s), None)
    } else if op == 0x05 {
        (exec_dec_b(s), None)
    } else if op == 0xFE {
        (exec_cp_imm(s), None)
    } else if op == 0x20 {
        (exec_jr_nz(s), None)
    } else if op == 0x30 {
        (exec_jr_nc(s), None)
    } else if op == 0xF3 {
        (exec_di(s), None)
    } else if op == 0xCD {
        exec_call_imm(s)
    } else if op == 0xCB {
        exec_extended(s)
    } else {
        (s, Some(EmuError::UnimplementedOpcode(op, s.cpu.pc)))
    }
}

/// The state at most `fuel` steps on: stepping stops early the moment a
/// step reports a halt condition, which is returned with the state at that
/// point.
pub open spec fn run_spec(s: EmuView, fuel: nat) -> (EmuView, Option<EmuError>)
    decreases fuel,
{
    if fuel == 0 {
        (s, None)
    } else {
        let stepped = step_spec(s);
        if stepped.1 is Some {
            stepped
        } else {
            run_spec(stepped.0, (fuel - 1) as nat)
        }
    }
}

/// The machine with a cartridge image installed and all else as it was.
pub open spec fn with_cartridge(s: EmuView, cart: Seq<u8>) -> EmuView {
    EmuView { mem: (MemView { cart: cart, ..s.mem }), ..s }
}

/// The whole machine: the register file and the address space, driven by
/// the step loop, plus the write policy (strict: a write into read-only
/// memory halts the run; permissive: it is ignored and the run continues).
pub struct Emulator {
    pub cpu: CPU,
    pub memory: Memory,
    pub strict: bool,
}

impl View for Emulator {
    type V = EmuView;

    open spec fn view(&self) -> EmuView {
        EmuView { cpu: self.cpu, mem: self.memory@, strict: self.strict }
    }
}

/// Read the 16-bit little-endian value at an address.
fn read_word(mem: &Memory, addr: u16) -> (w: u16)
    requires
        mem@.wf(),
    ensures
        w == word_at(mem@, addr),
{
    let lo = mem.read_byte(addr);
    let hi = mem.read_byte(wadd16(addr, 1));
    (hi as u16) * 256 + (lo as u16)
}

/// Write one byte, ignoring a rejected write into ROM: the permissive
/// write, whose effect is exactly `mem_write` (unchanged when the target is
/// read-only).
fn write_ignoring_rom(mem: &mut Memory, addr: u16, value: u8)
    requires
        old(mem)@.wf(),
    ensures
        final(mem)@.wf(),
        final(mem)@ == mem_write(old(mem)@, addr, value),
{
    let r = mem.write_byte(addr, value);
    proof {
        if rom_addr(addr) {
            assert(mem@ =~= mem_write(old(mem)@, addr, value));
        }
    }
}

impl Emulator {
    /// A machine in the reset state: registers at their reset values, no
    /// images loaded, the boot overlay enabled, RAM zeroed, and the strict
    /// write policy.
    pub fn new() -> (e: Emulator)
        ensures
            e@.mem.wf(),
            e@.cpu == initial_cpu(),
            e@.strict,
            e@.mem.boot_enabled,
            e@.mem.boot.len() == 0,
            e@.mem.cart.len() == 0,
            e@.mem.ie_reg == 0,
            forall|addr: u16|
                crate::memory::ram_backed(addr) ==> mem_read(e@.mem, addr) == 0,
    {
        Emulator { cpu: CPU::new(), memory: Memory::new(), strict: true }
    }

    fn op_nop(&mut self)
        requires
            old(self)@.mem.wf(),
        ensures
            final(self)@.mem.wf(),
            final(self)@ == exec_nop(old(self)@),
    {
        self.cpu.pc = wadd16(self.cpu.pc, 1);
        proof {
            assert(self@ =~= exec_nop(old(self)@));
        }
    }

    fn op_jp_imm(&mut self)
        requires
            old(self)@.mem.wf(),
        ensures
            final(self)@.mem.wf(),
            final(self)@ == exec_jp_imm(old(self)@),
    {
        let target = read_word(&self.memory, wadd16(self.cpu.pc, 1));
        self.cpu.pc = target;
        proof {
            assert(self@ =~= exec_jp_imm(old(self)@));
        }
    }

    fn op_xor_a(&mut self)
        requires
            old(self)@.mem.wf(),
        ensures
            final(self)@.mem.wf(),
            final(self)@ == exec_xor_a(old(self)@),
    {
        self.cpu.a = 0;
        self.cpu.flags.zero = true;
        self.cpu.flags.subtraction = false;
        self.cpu.flags.half_carry = false;
        self.cpu.flags.carry = false;
        self.cpu.pc = wadd16(self.cpu.pc, 1);
        proof {
            assert(self@ =~= exec_xor_a(old(self)@));
        }
    }

    fn op_ld_hl_imm(&mut self)
        requires
            old(self)@.mem.wf(),
        ensures
            final(self)@.mem.wf(),
            final(self)@ == exec_ld_hl_imm(old(self)@),
    {
        let v = read_word(&self.memory, wadd16(self.cpu.pc, 1));
        self.cpu.set_hl(v);
        self.cpu.pc = wadd16(self.cpu.pc, 3);
        proof {
            assert(self@ =~= exec_ld_hl_imm(old(self)@));
        }
    }

    fn op_ld_de_imm(&mut self)
        requires
            old(self)@.mem.wf(),
        ensures
            final(self)@.mem.wf(),
            final(self)@ == exec_ld_de_imm(old(self)@),
    {
        let v = read_word(&self.memory, wadd16(self.cpu.pc, 1));
        self.cpu.set_de(v);
        self.cpu.pc = wadd16(self.cpu.pc, 3);
        proof {
            assert(self@ =~= exec_ld_de_imm(old(self)@));
        }
    }

    fn op_ld_sp_imm(&mut self)
        requires
            old(self)@.mem.wf(),
        ensures
            final(self)@.mem.wf(),
            final(self)@ == exec_ld_sp_imm(old(self)@),
    {
        let v = read_word(&self.memory, wadd16(self.cpu.pc, 1));
        self.cpu.sp = v;
        self.cpu.pc = wadd16(self.cpu.pc, 3);
        proof {
            assert(self@ =~= exec_ld_sp_imm(old(self)@));
        }
    }

    fn op_ld_a_imm(&mut self)
        requires
            old(self)@.mem.wf(),
        ensures
            final(self)@.mem.wf(),
            final(self)@ == exec_ld_a_imm(old(self)@),
    {
        self.cpu.a = self.memory.read_byte(wadd16(self.cpu.pc, 1));
        self.cpu.pc = wadd16(self.cpu.pc, 2);
        proof {
            assert(self@ =~= exec_ld_a_imm(old(self)@));
        }
    }

    fn op_ld_b_imm(&mut self)
        requires
            old(self)@.mem.wf(),
        ensures
            final(self)@.mem.wf(),
            final(self)@ == exec_ld_b_imm(old(self)@),
    {
        self.cpu.b = self.memory.read_byte(wadd16(self.cpu.pc, 1));
        self.cpu.pc = wadd16(self.cpu.pc, 2);
        proof {
            assert(self@ =~= exec_ld_b_imm(old(self)@));
        }
    }

    fn op_ld_c_imm(&mut self)
        requires
            old(self)@.mem.wf(),
        ensures
            final(self)@.mem.wf(),
            final(self)@ == exec_ld_c_imm(old(self)@),
    {
        self.cpu.c = self.memory.read_byte(wadd16(self.cpu.pc, 1));
        self.cpu.pc = wadd16(self.cpu.pc, 2);
        proof {
            assert(self@ =~= exec_ld_c_imm(old(self)@));
        }
    }

    fn op_ld_a_de(&mut self)
        requires
            old(self)@.mem.wf(),
        ensures
            final(self)@.mem.wf(),
            final(self)@ == exec_ld_a_de(old(self)@),
    {
        let addr = self.cpu.get_de();
        self.cpu.a = self.memory.read_byte(addr);
        self.cpu.pc = wadd16(self.cpu.pc, 1);
        proof {
            assert(self@ =~= exec_ld_a_de(old(self)@));
        }
    }

    fn op_st_hl_a(&mut self) -> (halt: Option<EmuError>)
        requires
            old(self)@.mem.wf(),
        ensures
            final(self)@.mem.wf(),
            final(self)@ == exec_st_hl_a(old(self)@).0,
            halt == exec_st_hl_a(old(self)@).1,
    {
        let addr = self.cpu.get_hl();
        if self.strict && addr < 0x4000 {
            return Some(EmuError::WriteToReadOnlyRegion(addr));
        }
        write_ignoring_rom(&mut self.memory, addr, self.cpu.a);
        self.cpu.pc = wadd16(self.cpu.pc, 1);
        proof {
            assert(self@ =~= exec_st_hl_a(old(self)@).0);
        }
        None
    }

    fn op_st_hl_dec_a(&mut self) -> (halt: Option<EmuError>)
        requires
            old(self)@.mem.wf(),
        ensures
            final(self)@.mem.wf(),
            final(self)@ == exec_st_hl_dec_a(old(self)@).0,
            halt == exec_st_hl_dec_a(old(self)@).1,
    {
        let addr = self.cpu.get_hl();
        if self.strict && addr < 0x4000 {
            return Some(EmuError::WriteToReadOnlyRegion(addr));
        }
        write_ignoring_rom(&mut self.memory, addr, self.cpu.a);
        let nhl = wsub16(addr, 1);
        self.cpu.set_hl(nhl);
        self.cpu.pc = wadd16(self.cpu.pc, 1);
        proof {
            assert(self@ =~= exec_st_hl_dec_a(old(self)@).0);
        }
        None
    }

    fn op_ldh_imm_a(&mut self)
        requires
            old(self)@.mem.wf(),
        ensures
            final(self)@.mem.wf(),
            final(self)@ == exec_ldh_imm_a(old(self)@),
    {
        let offset = self.memory.read_byte(wadd16(self.cpu.pc, 1));
        write_ignoring_rom(&mut self.memory, 0xFF00 + (offset as u16), self.cpu.a);
        self.cpu.pc = wadd16(self.cpu.pc, 2);
        proof {
            assert(self@ =~= exec_ldh_imm_a(old(self)@));
        }
    }

    fn op_ldh_c_a(&mut self)
        requires
            old(self)@.mem.wf(),
        ensures
            final(self)@.mem.wf(),
            final(self)@ == exec_ldh_c_a(old(self)@),
    {
        write_ignoring_rom(&mut self.memory, 0xFF00 + (self.cpu.c as u16), self.cpu.a);
        self.cpu.pc = wadd16(self.cpu.pc, 1);
        proof {
            assert(self@ =~= exec_ldh_c_a(old(self)@));
        }
    }

    fn op_ldh_a_imm(&mut self)
        requires
            old(self)@.mem.wf(),
        ensures
            final(self)@.mem.wf(),
            final(self)@ == exec_ldh_a_imm(old(self)@),
    {
        let offset = self.memory.read_byte(wadd16(self.cpu.pc, 1));
        self.cpu.a = self.memory.read_byte(0xFF00 + (offset as u16));
        self.cpu.pc = wadd16(self.cpu.pc, 2);
        proof {
            assert(self@ =~= exec_ldh_a_imm(old(self)@));
        }
    }

    fn op_inc_c(&mut self)
        requires
            old(self)@.mem.wf(),
        ensures
            final(self)@.mem.wf(),
            final(self)@ == exec_inc_c(old(self)@),
    {
        let prev = self.cpu.c;
        self.cpu.c = wadd8(prev, 1);
        self.cpu.flags.zero = self.cpu.c == 0;
        self.cpu.flags.subtraction = false;
        self.cpu.flags.half_carry = prev % 16 == 15;
        self.cpu.pc = wadd16(self.cpu.pc, 1);
        proof {
            assert(self@ =~= exec_inc_c(old(self)@));
        }
    }

    fn op_dec_c(&mut self)
        requires
            old(self)@.mem.wf(),
        ensures
            final(self)@.mem.wf(),
            final(self)@ == exec_dec_c(old(self)@),
    {
        let prev = self.cpu.c;
        self.cpu.c = wsub8(prev, 1);
        self.cpu.flags.zero = self.cpu.c == 0;
        self.cpu.flags.subtraction = true;
        self.cpu.flags.half_carry = prev % 16 == 0;
        self.cpu.pc = wadd16(self.cpu.pc, 1);
        proof {
            assert(self@ =~= exec_dec_c(old(self)@));
        }
    }

    fn op_dec_b(&mut self)
        requires
            old(self)@.mem.wf(),
        ensures
            final(self)@.mem.wf(),
            final(self)@ == exec_dec_b(old(self)@),
    {
        let prev = self.cpu.b;
        self.cpu.b = wsub8(prev, 1);
        self.cpu.flags.zero = self.cpu.b == 0;
        self.cpu.flags.subtraction = true;
        self.cpu.flags.half_carry = prev % 16 == 0;
        self.cpu.pc = wadd16(self.cpu.pc, 1);
        proof {
            assert(self@ =~= exec_dec_b(old(self)@));
        }
    }

    fn op_cp_imm(&mut self)
        requires
            old(self)@.mem.wf(),
        ensures
            final(self)@.mem.wf(),
            final(self)@ == exec_cp_imm(old(self)@),
    {
        let v = self.memory.read_byte(wadd16(self.cpu.pc, 1));
        self.cpu.flags.zero = self.cpu.a == v;
        self.cpu.flags.subtraction = true;
        self.cpu.flags.half_carry = self.cpu.a % 16 < v % 16;
        self.cpu.flags.carry = self.cpu.a < v;
        self.cpu.pc = wadd16(self.cpu.pc, 2);
        proof {
            assert(self@ =~= exec_cp_imm(old(self)@));
        }
    }

    fn op_jr_nz(&mut self)
        requires
            old(self)@.mem.wf(),
        ensures
            final(self)@.mem.wf(),
            final(self)@ == exec_jr_nz(old(self)@),
    {
        let disp = self.memory.read_byte(wadd16(self.cpu.pc, 1));
        let after = wadd16(self.cpu.pc, 2);
        if !self.cpu.flags.zero {
            let ext: u16 = if disp < 0x80 {
                disp as u16
            } else {
                (disp as u16) + 0xFF00
            };
            self.cpu.pc = wadd16(after, ext);
        } else {
            self.cpu.pc = after;
        }
        proof {
            assert(self@ =~= exec_jr_nz(old(self)@));
        }
    }

    fn op_jr_nc(&mut self)
        requires
            old(self)@.mem.wf(),
        ensures
            final(self)@.mem.wf(),
            final(self)@ == exec_jr_nc(old(self)@),
    {
        let disp = self.memory.read_byte(wadd16(self.cpu.pc, 1));
        let after = wadd16(self.cpu.pc, 2);
        if !self.cpu.flags.carry {
            let ext: u16 = if disp < 0x80 {
                disp as u16
            } else {
                (disp as u16) + 0xFF00
            };
            self.cpu.pc = wadd16(after, ext);
        } else {
            self.cpu.pc = after;
        }
        proof {
            assert(self@ =~= exec_jr_nc(old(self)@));
        }
    }

    fn op_di(&mut self)
        requires
            old(self)@.mem.wf(),
        ensures
            final(self)@.mem.wf(),
            final(self)@ == exec_di(old(self)@),
    {
        self.cpu.interrupt_enabled = false;
        self.cpu.pc = wadd16(self.cpu.pc, 1);
        proof {
            assert(self@ =~= exec_di(old(self)@));
        }
    }

    fn op_call_imm(&mut self) -> (halt: Option<EmuError>)
        requires
            old(self)@.mem.wf(),
        ensures
            final(self)@.mem.wf(),
            final(self)@ == exec_call_imm(old(self)@).0,
            halt == exec_call_imm(old(self)@).1,
    {
        let target = read_word(&self.memory, wadd16(self.cpu.pc, 1));
        let ret = wadd16(self.cpu.pc, 3);
        let sp1 = wsub16(self.cpu.sp, 1);
        let sp2 = wsub16(self.cpu.sp, 2);
        if self.strict && (sp1 < 0x4000 || sp2 < 0x4000) {
            let bad: u16 = if sp1 < 0x4000 {
                sp1
            } else {
                sp2
            };
            return Some(EmuError::WriteToReadOnlyRegion(bad));
        }
        write_ignoring_rom(&mut self.memory, sp1, (ret / 256) as u8);
        write_ignoring_rom(&mut self.memory, sp2, (ret % 256) as u8);
        self.cpu.sp = sp2;
        self.cpu.pc = target;
        proof {
            assert(self@ =~= exec_call_imm(old(self)@).0);
        }
        None
    }

    fn op_extended(&mut self) -> (halt: Option<EmuError>)
        requires
            old(self)@.mem.wf(),
        ensures
            final(self)@.mem.wf(),
            final(self)@ == exec_extended(old(self)@).0,
            halt == exec_extended(old(self)@).1,
    {
        let sub = self.memory.read_byte(wadd16(self.cpu.pc, 1));
        if sub == 0x7C {
            self.cpu.flags.zero = self.cpu.h < 0x80;
            self.cpu.flags.subtraction = false;
            self.cpu.flags.half_carry = true;
            self.cpu.pc = wadd16(self.cpu.pc, 2);
            proof {
                assert(self@ =~= exec_bit7_h(old(self)@));
            }
            None
        } else {
            Some(EmuError::UnimplementedExtendedOpcode(sub, self.cpu.pc))
        }
    }

    /// Execute the instruction at `pc`: exactly one transition of
    /// [`step_spec`]. Returns the halt condition, `None` while the machine
    /// keeps running.
    #[verifier::rlimit(100)]
    pub fn step(&mut self) -> (halt: Option<EmuError>)
        requires
            old(self)@.mem.wf(),
        ensures
            final(self)@.mem.wf(),
            final(self)@ == step_spec(old(self)@).0,
            halt == step_spec(old(self)@).1,
    {
        proof {
            reveal(step_spec);
        }
        let op = self.memory.read_byte(self.cpu.pc);
        match op {
            0x00 => {
                self.op_nop();
                None
            },
            0xC3 => {
                self.op_jp_imm();
                None
            },
            0xAF => {
                self.op_xor_a();
                None
            },
            0x21 => {
                self.op_ld_hl_imm();
                None
            },
            0x11 => {
                self.op_ld_de_imm();
                None
            },
            0x31 => {
                self.op_ld_sp_imm();
                None
            },
            0x3E => {
                self.op_ld_a_imm();
                None
            },
            0x06 => {
                self.op_ld_b_imm();
                None
            },
            0x0E => {
                self.op_ld_c_imm();
                None
            },
            0x1A => {
                self.op_ld_a_de();
                None
            },
            0x77 => self.op_st_hl_a(),
            0x32 => self.op_st_hl_dec_a(),
            0xE0 => {
                self.op_ldh_imm_a();
                None
            },
            0xE2 => {
                self.op_ldh_c_a();
                None
            },
            0xF0 => {
                self.op_ldh_a_imm();
                None
            },
            0x0C => {
                self.op_inc_c();
                None
            },
            0x0D => {
                self.op_dec_c();
                None
            },
            0x05 => {
                self.op_dec_b();
                None
            },
            0xFE => {
                self.op_cp_imm();
                None
            },
            0x20 => {
                self.op_jr_nz();
                None
            },
            0x30 => {
                self.op_jr_nc();
                None
            },
            0xF3 => {
                self.op_di();
                None
            },
            0xCD => self.op_call_imm(),
            0xCB => self.op_extended(),
            _ => Some(EmuError::UnimplementedOpcode(op, self.cpu.pc)),
        }
    }

    /// Install the cartridge, then step until the machine halts or `fuel`
    /// steps have run: the iteration of [`step_spec`] that [`run_spec`]
    /// states. Returns the halt condition, or `None` when the fuel ran out
    /// with the machine still running; the final registers and memory stay
    /// inspectable either way.
    #[verifier::rlimit(100)]
    pub fn run(&mut self, cartridge: &Vec<u8>, fuel: u64) -> (halt: Option<EmuError>)
        requires
            old(self)@.mem.wf(),
        ensures
            final(self)@.mem.wf(),
            final(self)@ == run_spec(with_cartridge(old(self)@, cartridge@), fuel as nat).0,
            halt == run_spec(with_cartridge(old(self)@, cartridge@), fuel as nat).1,
    {
        self.memory.load_cartridge(cartridge);
        proof {
            assert(self@ =~= with_cartridge(old(self)@, cartridge@));
        }
        let ghost s0: EmuView = self@;
        let mut remaining: u64 = fuel;
        while remaining > 0
            invariant
                self@.mem.wf(),
                s0 == with_cartridge(old(self)@, cartridge@),
                run_spec(s0, fuel as nat) == run_spec(self@, remaining as nat),
            decreases remaining,
        {
            let ghost pre: EmuView = self@;
            let stepped = self.step();
            proof {
                assert(run_spec(pre, remaining as nat) == if step_spec(pre).1 is Some {
                    step_spec(pre)
                } else {
                    run_spec(step_spec(pre).0, (remaining - 1) as nat)
                });
            }
            if stepped.is_some() {
                return stepped;
            }
            remaining = remaining - 1;
        }
        None
    }
}

} // verus!
