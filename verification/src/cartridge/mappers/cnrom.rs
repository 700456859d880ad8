//! CNROM (mapper 3): fixed program ROM, a switchable 8 KiB character bank.
use vstd::prelude::*;
use crate::cartridge::mappers::{
    BankSwitching, BankedChrChip, BankedPrgChip, PRG_BANK_SIZE, PRG_RAM_SIZE,
};
use crate::cartridge::mappers::{banked_cartridge, image_matches, zeroed};
use crate::cartridge::{CartridgeHeader, CpuCartridgeAddressBus, PpuCartridgeAddressBus};

verus! {

/// The number of character banks that a CNROM cartridge switches between:
/// those of its character ROM, or the one of its character RAM.
pub open spec fn spec_cnrom_chr_banks(chr_rom_8kb_units: u8) -> u8 {
    if chr_rom_8kb_units == 0 {
        1
    } else {
        chr_rom_8kb_units
    }
}

/// The number of character banks that a CNROM cartridge switches between:
/// those of its character ROM, or the one of its character RAM.
pub fn cnrom_chr_banks(chr_rom_8kb_units: u8) -> (result: u8)
    ensures
        result == spec_cnrom_chr_banks(chr_rom_8kb_units),
{
    if chr_rom_8kb_units == 0 {
        1
    } else {
        chr_rom_8kb_units
    }
}

/// The two buses of a CNROM cartridge: program ROM as in NROM, and every
/// character bank selectable by a write to `$8000-$FFFF`.
pub fn from_header(prg_rom: Vec<u8>, chr_rom: Option<Vec<u8>>, header: CartridgeHeader) -> (built: (
    CpuCartridgeAddressBus,
    PpuCartridgeAddressBus,
    CartridgeHeader,
))
    requires
        image_matches(header, prg_rom@, chr_rom),
    ensures
        built.2 == header,
        banked_cartridge(
            built.0,
            built.1,
            header,
            prg_rom@,
            chr_rom,
            BankSwitching::Fixed,
            header.has_ram,
            spec_cnrom_chr_banks(header.chr_rom_8kb_units),
        ),
{
    let prg_ram = if header.has_ram {
        Some(zeroed(PRG_RAM_SIZE))
    } else {
        None
    };
    (
        CpuCartridgeAddressBus::Banked(
            BankedPrgChip::new(
                prg_rom,
                prg_ram,
                header.prg_rom_16kb_units,
                [0, header.prg_rom_16kb_units - 1],
                [0, (header.prg_rom_16kb_units as usize - 1) * PRG_BANK_SIZE],
                BankSwitching::Fixed,
            ),
        ),
        PpuCartridgeAddressBus::Banked(
            BankedChrChip::new(chr_rom, header.mirroring, cnrom_chr_banks(header.chr_rom_8kb_units)),
        ),
        header,
    )
}

} // verus!
