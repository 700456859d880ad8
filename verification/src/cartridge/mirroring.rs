//! Name-table mirroring: which of the four logical name tables share
//! physical memory.
use vstd::prelude::*;

verus! {

/// How the four logical 1 KiB name tables map onto the cartridge's name-table memory.
#[derive(Clone, Copy, PartialEq, Eq, Structural, Debug)]
pub enum MirroringMode {
    /// Tables 0 and 1 share the low 1 KiB, tables 2 and 3 the high 1 KiB.
    Horizontal,
    /// Tables 0 and 2 share the low 1 KiB, tables 1 and 3 the high 1 KiB.
    Vertical,
    /// All four tables are the low 1 KiB.
    SingleScreenLow,
    /// All four tables are the high 1 KiB.
    SingleScreenHigh,
    /// Four distinct tables in a 4 KiB region.
    FourScreen,
}

/// Offset of a picture-unit address inside the 4 KiB window that
/// `$2000-$2FFF` spans; `$3000-$3EFF` mirrors that window.
pub open spec fn window_offset(address: int) -> int {
    (address - 0x2000) % 0x1000
}

/// The offset into name-table memory that `address` resolves to under `mode`.
pub open spec fn nametable_offset(mode: MirroringMode, address: int) -> int {
    let offset = window_offset(address);
    let table = offset / 0x400;
    let within = offset % 0x400;
    match mode {
        MirroringMode::Horizontal => (table / 2) * 0x400 + within,
        MirroringMode::Vertical => (table % 2) * 0x400 + within,
        MirroringMode::SingleScreenLow => within,
        MirroringMode::SingleScreenHigh => 0x400 + within,
        MirroringMode::FourScreen => offset,
    }
}

/// Size of the name-table memory that a mode addresses.
pub open spec fn nametable_span(mode: MirroringMode) -> int {
    if mode == MirroringMode::FourScreen {
        0x1000
    } else {
        0x800
    }
}

impl MirroringMode {
    /// Resolves a picture-unit address in `$2000-$3EFF` to its offset in
    /// name-table memory.
    pub fn get_mirrored_address(&self, address: u16) -> (offset: u16)
        requires
            0x2000 <= address < 0x3F00,
        ensures
            offset == nametable_offset(*self, address as int),
            offset < nametable_span(*self),
    {
        let offset: u16 = (address - 0x2000) % 0x1000;
        let table: u16 = offset / 0x400;
        let within: u16 = offset % 0x400;
        match self {
            MirroringMode::Horizontal => (table / 2) * 0x400 + within,
            MirroringMode::Vertical => (table % 2) * 0x400 + within,
            MirroringMode::SingleScreenLow => within,
            MirroringMode::SingleScreenHigh => 0x400 + within,
            MirroringMode::FourScreen => offset,
        }
    }
}

/// An address and the address 0x1000 above it resolve to the same offset,
/// under every mirroring mode.
pub proof fn lemma_mirror_down(mode: MirroringMode, address: int)
    requires
        0x2000 <= address < 0x3F00,
    ensures
        nametable_offset(mode, address) == nametable_offset(mode, address + 0x1000),
{
}

/// Every resolved offset lies inside the memory the mode addresses.
pub proof fn lemma_offset_in_span(mode: MirroringMode, address: int)
    requires
        0x2000 <= address < 0x3F00,
    ensures
        0 <= nametable_offset(mode, address) < nametable_span(mode),
{
}

/// Horizontal mirroring pairs tables 0/1 and 2/3; vertical pairs 0/2 and 1/3;
/// single-screen modes make all four tables one.
pub proof fn lemma_shared_tables(address: int)
    requires
        0x2000 <= address < 0x2400,
    ensures
        nametable_offset(MirroringMode::Horizontal, address) == nametable_offset(
            MirroringMode::Horizontal,
            address + 0x400,
        ),
        nametable_offset(MirroringMode::Horizontal, address + 0x800) == nametable_offset(
            MirroringMode::Horizontal,
            address + 0xC00,
        ),
        nametable_offset(MirroringMode::Horizontal, address) != nametable_offset(
            MirroringMode::Horizontal,
            address + 0x800,
        ),
        nametable_offset(MirroringMode::Vertical, address) == nametable_offset(
            MirroringMode::Vertical,
            address + 0x800,
        ),
        nametable_offset(MirroringMode::Vertical, address + 0x400) == nametable_offset(
            MirroringMode::Vertical,
            address + 0xC00,
        ),
        nametable_offset(MirroringMode::Vertical, address) != nametable_offset(
            MirroringMode::Vertical,
            address + 0x400,
        ),
{
}

} // verus!
