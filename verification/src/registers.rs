//! The processor's register file: eight 8-bit registers, four condition
//! flags, the stack pointer, the program counter, and the master
//! interrupt-enable switch.
//!
//! Three register pairs — (b,c), (d,e), (h,l) — are read and written as
//! 16-bit values, high byte in the first-named register. The pair view is
//! derived from the two backing bytes, not separate storage. The flags are
//! four independent booleans with a derived packed-byte view (bit 7 = zero,
//! bit 6 = subtraction, bit 5 = half-carry, bit 4 = carry).

use vstd::prelude::*;

verus! {

/// The four condition flags, each set only by instruction execution.
#[derive(Clone, Copy, PartialEq, Eq, Structural, Debug)]
pub struct Flags {
    pub zero: bool,
    pub subtraction: bool,
    pub half_carry: bool,
    pub carry: bool,
}

/// The 16-bit value formed by a high and a low byte.
pub open spec fn pair16(hi: u8, lo: u8) -> u16 {
    (hi * 256 + lo) as u16
}

/// The high byte of a 16-bit value.
pub open spec fn high_byte(v: u16) -> u8 {
    (v / 256) as u8
}

/// The low byte of a 16-bit value.
pub open spec fn low_byte(v: u16) -> u8 {
    (v % 256) as u8
}

/// Splitting a 16-bit value into bytes and composing them again is the
/// identity: a register pair stores any 16-bit value faithfully.
pub proof fn lemma_pair16_round_trip(v: u16)
    ensures
        pair16(high_byte(v), low_byte(v)) == v,
{
}

/// The packed-byte view of the flags: bit 7 = zero, bit 6 = subtraction,
/// bit 5 = half-carry, bit 4 = carry; low nibble always zero.
pub open spec fn flags_to_byte(f: Flags) -> u8 {
    ((if f.zero { 128int } else { 0int }) + (if f.subtraction { 64int } else { 0int })
        + (if f.half_carry { 32int } else { 0int }) + (if f.carry { 16int } else { 0int })) as u8
}

/// The flags recovered from a packed byte; the low nibble is ignored.
pub open spec fn flags_from_byte(b: u8) -> Flags {
    Flags {
        zero: b / 128 % 2 == 1,
        subtraction: b / 64 % 2 == 1,
        half_carry: b / 32 % 2 == 1,
        carry: b / 16 % 2 == 1,
    }
}

/// Packing the flags into a byte and unpacking again recovers every flag:
/// the packed view loses nothing, so a future stack save/restore of the
/// flags byte is a plain conversion.
pub proof fn lemma_flags_byte_round_trip(f: Flags)
    ensures
        flags_from_byte(flags_to_byte(f)) == f,
{
}

/// The register file. All fields are bounded by their bit width, so no
/// invariant is needed; only the executor mutates it during a run.
///
/// The fields are public: each 8-bit register, `sp`, `pc`, the interrupt
/// switch and each flag bit is read and written directly. The derived views
/// — the three 16-bit pairs and the packed flags byte — go through the
/// methods below.
#[derive(Clone, Copy, PartialEq, Eq, Structural, Debug)]
pub struct CPU {
    pub a: u8,
    pub b: u8,
    pub c: u8,
    pub d: u8,
    pub e: u8,
    pub h: u8,
    pub l: u8,
    pub flags: Flags,
    pub sp: u16,
    pub pc: u16,
    pub interrupt_enabled: bool,
}

/// The architecturally defined reset state: stack pointer at 0xFFFE, program
/// counter at 0x0000 (the boot overlay's entry), all other registers and
/// flags cleared, interrupts enabled. A run that starts directly at the
/// cartridge entry instead sets `pc` to 0x0100 and disables the overlay
/// before the first step.
pub open spec fn initial_cpu() -> CPU {
    CPU {
        a: 0,
        b: 0,
        c: 0,
        d: 0,
        e: 0,
        h: 0,
        l: 0,
        flags: Flags { zero: false, subtraction: false, half_carry: false, carry: false },
        sp: 0xFFFE,
        pc: 0,
        interrupt_enabled: true,
    }
}

impl CPU {
    /// The 16-bit view of the (b,c) pair.
    pub open spec fn bc(self) -> u16 {
        pair16(self.b, self.c)
    }

    /// The 16-bit view of the (d,e) pair.
    pub open spec fn de(self) -> u16 {
        pair16(self.d, self.e)
    }

    /// The 16-bit view of the (h,l) pair.
    pub open spec fn hl(self) -> u16 {
        pair16(self.h, self.l)
    }

    /// A register file in the reset state.
    pub fn new() -> (cpu: CPU)
        ensures
            cpu == initial_cpu(),
    {
        CPU {
            a: 0,
            b: 0,
            c: 0,
            d: 0,
            e: 0,
            h: 0,
            l: 0,
            flags: Flags { zero: false, subtraction: false, half_carry: false, carry: false },
            sp: 0xFFFE,
            pc: 0,
            interrupt_enabled: true,
        }
    }

    /// Read the (b,c) pair as one 16-bit value.
    pub fn get_bc(&self) -> (v: u16)
        ensures
            v == self.bc(),
    {
        (self.b as u16) * 256 + (self.c as u16)
    }

    /// Read the (d,e) pair as one 16-bit value.
    pub fn get_de(&self) -> (v: u16)
        ensures
            v == self.de(),
    {
        (self.d as u16) * 256 + (self.e as u16)
    }

    /// Read the (h,l) pair as one 16-bit value.
    pub fn get_hl(&self) -> (v: u16)
        ensures
            v == self.hl(),
    {
        (self.h as u16) * 256 + (self.l as u16)
    }

    /// Store a 16-bit value into the (b,c) pair; reading the pair back
    /// yields the value stored.
    pub fn set_bc(&mut self, v: u16)
        ensures
            *final(self) == (CPU { b: high_byte(v), c: low_byte(v), ..*old(self) }),
            final(self).bc() == v,
    {
        self.b = (v / 256) as u8;
        self.c = (v % 256) as u8;
    }

    /// Store a 16-bit value into the (d,e) pair; reading the pair back
    /// yields the value stored.
    pub fn set_de(&mut self, v: u16)
        ensures
            *final(self) == (CPU { d: high_byte(v), e: low_byte(v), ..*old(self) }),
            final(self).de() == v,
    {
        self.d = (v / 256) as u8;
        self.e = (v % 256) as u8;
    }

    /// Store a 16-bit value into the (h,l) pair; reading the pair back
    /// yields the value stored.
    pub fn set_hl(&mut self, v: u16)
        ensures
            *final(self) == (CPU { h: high_byte(v), l: low_byte(v), ..*old(self) }),
            final(self).hl() == v,
    {
        self.h = (v / 256) as u8;
        self.l = (v % 256) as u8;
    }

    /// Read the flags as the conventional packed byte.
    pub fn get_flags_byte(&self) -> (b: u8)
        ensures
            b == flags_to_byte(self.flags),
    {
        let mut b: u8 = 0;
        if self.flags.zero {
            b = b + 128;
        }
        if self.flags.subtraction {
            b = b + 64;
        }
        if self.flags.half_carry {
            b = b + 32;
        }
        if self.flags.carry {
            b = b + 16;
        }
        b
    }

    /// Restore the flags from a packed byte, as a stack restore of the
    /// flags byte would; the low nibble is ignored.
    pub fn set_flags_byte(&mut self, b: u8)
        ensures
            *final(self) == (CPU { flags: flags_from_byte(b), ..*old(self) }),
    {
        self.flags.zero = b / 128 % 2 == 1;
        self.flags.subtraction = b / 64 % 2 == 1;
        self.flags.half_carry = b / 32 % 2 == 1;
        self.flags.carry = b / 16 % 2 == 1;
    }
}

} // verus!
