//! Verified core of an 8-bit handheld game console: the processor's register
//! file, the memory-mapped 16-bit address space, and the fetch-decode-execute
//! loop that drives them.
//!
//! The executable code is specified against mathematical models: the register
//! file is plain data, the address space is viewed as sequences of bytes per
//! region, and each step of the executor is pinned to a spec-level transition
//! function.

use vstd::prelude::*;

pub mod registers;
pub mod memory;
pub mod executor;

verus! {

/// Conditions that stop a run or reject a memory access.
///
/// Decode-table misses carry the offending opcode byte and the address at
/// which it was fetched. A write into a read-only region carries the address
/// that was targeted.
#[derive(Clone, Copy, PartialEq, Eq, Structural, Debug)]
pub enum EmuError {
    /// The primary decode table has no entry for this opcode byte,
    /// fetched at this address.
    UnimplementedOpcode(u8, u16),
    /// The secondary decode table (reached through the extended-opcode
    /// prefix) has no entry for this opcode byte; the address is that of
    /// the prefix byte.
    UnimplementedExtendedOpcode(u8, u16),
    /// A write targeted the boot overlay or cartridge ROM at this address.
    WriteToReadOnlyRegion(u16),
}

} // verus!
