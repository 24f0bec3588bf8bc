//! The memory-mapped address space: a total mapping from a 16-bit address to
//! one of several backing regions.
//!
//! Routing (inclusive ranges):
//! - 0x0000–0x00FF: boot overlay while it is enabled, else cartridge ROM
//! - 0x0000–0x3FFF: cartridge ROM (read-only; writes are rejected)
//! - 0x8000–0x9FFF: video RAM
//! - 0xC000–0xCFFF: working RAM bank 1
//! - 0xD000–0xDFFF: working RAM bank 2
//! - 0xFF00–0xFF4F, 0xFF51–0xFF7F: I/O register block
//! - 0xFF50: boot-overlay control (reads the enable flag as 0/1; any write
//!   disables the overlay, whatever the value)
//! - 0xFF80–0xFFFE: high RAM
//! - 0xFFFF: interrupt-enable register
//! - every other address: a reserved scratch region, so that decoding is
//!   total and a stray access never aborts a run
//!
//! Reads of the boot overlay or cartridge beyond the loaded image return
//! 0xFF, the bus's open value, so reads are total as well.

use vstd::prelude::*;

use crate::EmuError;

verus! {

/// The mathematical model of the address space: one sequence of bytes per
/// backing region, the interrupt-enable byte, and the overlay switch.
#[verifier::ext_equal]
pub struct MemView {
    pub boot: Seq<u8>,
    pub cart: Seq<u8>,
    pub video: Seq<u8>,
    pub wram1: Seq<u8>,
    pub wram2: Seq<u8>,
    pub io: Seq<u8>,
    pub high: Seq<u8>,
    pub scratch: Seq<u8>,
    pub ie_reg: u8,
    pub boot_enabled: bool,
}

impl MemView {
    /// Each RAM-like region has its architectural size. The boot overlay and
    /// cartridge images may be any length; reads beyond them yield 0xFF.
    pub open spec fn wf(self) -> bool {
        &&& self.video.len() == 0x2000
        &&& self.wram1.len() == 0x1000
        &&& self.wram2.len() == 0x1000
        &&& self.io.len() == 0x80
        &&& self.high.len() == 0x7F
        &&& self.scratch.len() == 0x10000
    }
}

/// Addresses backed by read-only memory (boot overlay or cartridge ROM).
pub open spec fn rom_addr(addr: u16) -> bool {
    addr < 0x4000
}

/// Addresses where a written byte is stored and read back as written:
/// everything writable except the boot-overlay control, whose write is a
/// switch, not a store.
pub open spec fn ram_backed(addr: u16) -> bool {
    !rom_addr(addr) && addr != 0xFF50
}

/// The byte of an image at an offset, or 0xFF beyond its end.
pub open spec fn byte_at(s: Seq<u8>, i: int) -> u8 {
    if 0 <= i < s.len() {
        s[i]
    } else {
        0xFF
    }
}

/// The byte a read of this address observes: the routing table as one total
/// function.
pub open spec fn mem_read(v: MemView, addr: u16) -> u8 {
    if addr < 0x100 && v.boot_enabled {
        byte_at(v.boot, addr as int)
    } else if addr < 0x4000 {
        byte_at(v.cart, addr as int)
    } else if 0x8000 <= addr && addr < 0xA000 {
        byte_at(v.video, addr - 0x8000)
    } else if 0xC000 <= addr && addr < 0xD000 {
        byte_at(v.wram1, addr - 0xC000)
    } else if 0xD000 <= addr && addr < 0xE000 {
        byte_at(v.wram2, addr - 0xD000)
    } else if addr == 0xFF50 {
        if v.boot_enabled {
            1
        } else {
            0
        }
    } else if 0xFF00 <= addr && addr < 0xFF80 {
        byte_at(v.io, addr - 0xFF00)
    } else if 0xFF80 <= addr && addr < 0xFFFF {
        byte_at(v.high, addr - 0xFF80)
    } else if addr == 0xFFFF {
        v.ie_reg
    } else {
        byte_at(v.scratch, addr as int)
    }
}

/// The state after a write to this address: a store into the addressed
/// region; a write to 0xFF50 disables the boot overlay whatever the value;
/// a write into ROM changes nothing.
pub open spec fn mem_write(v: MemView, addr: u16, b: u8) -> MemView {
    if rom_addr(addr) {
        v
    } else if 0x8000 <= addr && addr < 0xA000 {
        MemView { video: v.video.update(addr - 0x8000, b), ..v }
    } else if 0xC000 <= addr && addr < 0xD000 {
        MemView { wram1: v.wram1.update(addr - 0xC000, b), ..v }
    } else if 0xD000 <= addr && addr < 0xE000 {
        MemView { wram2: v.wram2.update(addr - 0xD000, b), ..v }
    } else if addr == 0xFF50 {
        MemView { boot_enabled: false, ..v }
    } else if 0xFF00 <= addr && addr < 0xFF80 {
        MemView { io: v.io.update(addr - 0xFF00, b), ..v }
    } else if 0xFF80 <= addr && addr < 0xFFFF {
        MemView { high: v.high.update(addr - 0xFF80, b), ..v }
    } else if addr == 0xFFFF {
        MemView { ie_reg: b, ..v }
    } else {
        MemView { scratch: v.scratch.update(addr as int, b), ..v }
    }
}

/// In a RAM-backed region, a write is observed by the next read of the same
/// address: `read` after `write(addr, b)` returns `b`.
pub proof fn lemma_ram_write_then_read(v: MemView, addr: u16, b: u8)
    requires
        v.wf(),
        ram_backed(addr),
    ensures
        mem_read(mem_write(v, addr, b), addr) == b,
{
}

/// A write to one RAM-backed address leaves every other address's read
/// unchanged: writes are local.
pub proof fn lemma_ram_write_frames_others(v: MemView, addr: u16, other: u16, b: u8)
    requires
        v.wf(),
        ram_backed(addr),
        other != addr,
    ensures
        mem_read(mem_write(v, addr, b), other) == mem_read(v, other),
{
}

/// A write into a ROM-backed region changes nothing: no subsequent read
/// anywhere observes it.
pub proof fn lemma_rom_write_ignored(v: MemView, addr: u16, b: u8)
    requires
        rom_addr(addr),
    ensures
        mem_write(v, addr, b) == v,
{
}

/// The address space with its backing stores. The boot overlay and
/// cartridge are loaded once before execution; the RAM-like regions start
/// zeroed.
pub struct Memory {
    pub boot_rom: Vec<u8>,
    pub cartridge: Vec<u8>,
    pub video_ram: Vec<u8>,
    pub working_memory_1: Vec<u8>,
    pub working_memory_2: Vec<u8>,
    pub io_registers: Vec<u8>,
    pub high_ram: Vec<u8>,
    pub scratch: Vec<u8>,
    pub interrupt_enable_register: u8,
    pub boot_rom_enable_register: bool,
}

impl View for Memory {
    type V = MemView;

    open spec fn view(&self) -> MemView {
        MemView {
            boot: self.boot_rom@,
            cart: self.cartridge@,
            video: self.video_ram@,
            wram1: self.working_memory_1@,
            wram2: self.working_memory_2@,
            io: self.io_registers@,
            high: self.high_ram@,
            scratch: self.scratch@,
            ie_reg: self.interrupt_enable_register,
            boot_enabled: self.boot_rom_enable_register,
        }
    }
}

/// A zero-filled buffer of the given length.
fn zeros(n: usize) -> (v: Vec<u8>)
    ensures
        v@.len() == n,
        forall|i: int| 0 <= i < n ==> v@[i] == 0,
{
    let mut v: Vec<u8> = Vec::new();
    let mut i: usize = 0;
    while i < n
        invariant
            i <= n,
            v@.len() == i,
            forall|j: int| 0 <= j < i ==> v@[j] == 0,
        decreases n - i,
    {
        v.push(0u8);
        i = i + 1;
    }
    v
}

impl Memory {
    /// A fresh address space: no images loaded yet, the boot overlay
    /// enabled, and every RAM-backed cell zero.
    pub fn new() -> (m: Memory)
        ensures
            m@.wf(),
            m@.boot_enabled,
            m@.boot.len() == 0,
            m@.cart.len() == 0,
            m@.ie_reg == 0,
            forall|addr: u16| ram_backed(addr) ==> mem_read(m@, addr) == 0,
    {
        let m = Memory {
            boot_rom: Vec::new(),
            cartridge: Vec::new(),
            video_ram: zeros(0x2000),
            working_memory_1: zeros(0x1000),
            working_memory_2: zeros(0x1000),
            io_registers: zeros(0x80),
            high_ram: zeros(0x7F),
            scratch: zeros(0x10000),
            interrupt_enable_register: 0,
            boot_rom_enable_register: true,
        };
        m
    }

    /// Install the cartridge image; every other part of the address space is
    /// untouched.
    pub fn load_cartridge(&mut self, cartridge: &Vec<u8>)
        ensures
            final(self)@ == (MemView { cart: cartridge@, ..old(self)@ }),
    {
        let mut copy: Vec<u8> = Vec::new();
        let mut i: usize = 0;
        while i < cartridge.len()
            invariant
                i <= cartridge@.len(),
                copy@ == cartridge@.subrange(0, i as int),
            decreases cartridge@.len() - i,
        {
            copy.push(cartridge[i]);
            i = i + 1;
        }
        proof {
            assert(copy@ =~= cartridge@);
        }
        self.cartridge = copy;
        proof {
            assert(self@ =~= (MemView { cart: cartridge@, ..old(self)@ }));
        }
    }

    /// Install the 256-byte boot-overlay image; every other part of the
    /// address space is untouched.
    pub fn load_boot_rom(&mut self, image: &Vec<u8>)
        requires
            image@.len() == 0x100,
        ensures
            final(self)@ == (MemView { boot: image@, ..old(self)@ }),
    {
        let mut copy: Vec<u8> = Vec::new();
        let mut i: usize = 0;
        while i < image.len()
            invariant
                i <= image@.len(),
                copy@ == image@.subrange(0, i as int),
            decreases image@.len() - i,
        {
            copy.push(image[i]);
            i = i + 1;
        }
        proof {
            assert(copy@ =~= image@);
        }
        self.boot_rom = copy;
        proof {
            assert(self@ =~= (MemView { boot: image@, ..old(self)@ }));
        }
    }

    /// Read one byte; total over the whole 16-bit address space.
    pub fn read_byte(&self, address: u16) -> (b: u8)
        requires
            self@.wf(),
        ensures
            b == mem_read(self@, address),
    {
        if address < 0x100 && self.boot_rom_enable_register {
            if (address as usize) < self.boot_rom.len() {
                self.boot_rom[address as usize]
            } else {
                0xFF
            }
        } else if address < 0x4000 {
            if (address as usize) < self.cartridge.len() {
                self.cartridge[address as usize]
            } else {
                0xFF
            }
        } else if 0x8000 <= address && address < 0xA000 {
            self.video_ram[(address - 0x8000) as usize]
        } else if 0xC000 <= address && address < 0xD000 {
            self.working_memory_1[(address - 0xC000) as usize]
        } else if 0xD000 <= address && address < 0xE000 {
            self.working_memory_2[(address - 0xD000) as usize]
        } else if address == 0xFF50 {
            if self.boot_rom_enable_register {
                1
            } else {
                0
            }
        } else if 0xFF00 <= address && address < 0xFF80 {
            self.io_registers[(address - 0xFF00) as usize]
        } else if 0xFF80 <= address && address < 0xFFFF {
            self.high_ram[(address - 0xFF80) as usize]
        } else if address == 0xFFFF {
            self.interrupt_enable_register
        } else {
            self.scratch[address as usize]
        }
    }

    /// Read the bytes of a half-open address range, in address order.
    pub fn read_bytes(&self, r: core::ops::Range<u16>) -> (bytes: Vec<u8>)
        requires
            self@.wf(),
        ensures
            bytes@.len() == if r.start <= r.end {
                r.end - r.start
            } else {
                0int
            },
            forall|i: int|
                0 <= i < bytes@.len() ==> bytes@[i] == mem_read(self@, (r.start + i) as u16),
    {
        let mut bytes: Vec<u8> = Vec::new();
        let start: u16 = r.start;
        let end: u16 = r.end;
        if start >= end {
            return bytes;
        }
        let mut i: u16 = start;
        while i < end
            invariant
                self@.wf(),
                start <= i <= end,
                bytes@.len() == i - start,
                forall|j: int|
                    0 <= j < bytes@.len() ==> bytes@[j] == mem_read(self@, (start + j) as u16),
            decreases end - i,
        {
            bytes.push(self.read_byte(i));
            i = i + 1;
        }
        bytes
    }

    /// Write one byte. A write into ROM is rejected and changes nothing;
    /// every other address accepts the write, with the effect `mem_write`
    /// states (a store, or at 0xFF50 the disabling of the boot overlay).
    pub fn write_byte(&mut self, address: u16, value: u8) -> (r: Result<(), EmuError>)
        requires
            old(self)@.wf(),
        ensures
            final(self)@.wf(),
            rom_addr(address) ==> r == Err::<(), EmuError>(
                EmuError::WriteToReadOnlyRegion(address),
            ) && final(self)@ == old(self)@,
            !rom_addr(address) ==> r == Ok::<(), EmuError>(()) && final(self)@ == mem_write(
                old(self)@,
                address,
                value,
            ),
    {
        if address < 0x4000 {
            return Err(EmuError::WriteToReadOnlyRegion(address));
        }
        if 0x8000 <= address && address < 0xA000 {
            self.video_ram[(address - 0x8000) as usize] = value;
        } else if 0xC000 <= address && address < 0xD000 {
            self.working_memory_1[(address - 0xC000) as usize] = value;
        } else if 0xD000 <= address && address < 0xE000 {
            self.working_memory_2[(address - 0xD000) as usize] = value;
        } else if address == 0xFF50 {
            self.boot_rom_enable_register = false;
        } else if 0xFF00 <= address && address < 0xFF80 {
            self.io_registers[(address - 0xFF00) as usize] = value;
        } else if 0xFF80 <= address && address < 0xFFFF {
            self.high_ram[(address - 0xFF80) as usize] = value;
        } else if address == 0xFFFF {
            self.interrupt_enable_register = value;
        } else {
            self.scratch[address as usize] = value;
        }
        proof {
            assert(self@ =~= mem_write(old(self)@, address, value));
        }
        Ok(())
    }
}

} // verus!
