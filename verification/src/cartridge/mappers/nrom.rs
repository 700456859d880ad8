//! NROM (mapper 0): fixed program ROM of 16 or 32 KiB, one fixed 8 KiB
//! character bank.
use vstd::prelude::*;
use crate::cartridge::mappers::{
    BankSwitching, BankedChrChip, BankedPrgChip, PRG_BANK_SIZE, PRG_RAM_SIZE,
};
use crate::cartridge::mappers::{banked_cartridge, image_matches, zeroed};
use crate::cartridge::{CartridgeHeader, CpuCartridgeAddressBus, PpuCartridgeAddressBus};

verus! {

/// The two buses of an NROM cartridge: the first bank at `$8000`, the last
/// at `$C000`, nothing switchable; program RAM where the header says so.
pub fn from_header(prg_rom: Vec<u8>, chr_rom: Option<Vec<u8>>, header: CartridgeHeader) -> (built: (
    CpuCartridgeAddressBus,
    PpuCartridgeAddressBus,
    CartridgeHeader,
))
    requires
        image_matches(header, prg_rom@, chr_rom),
    ensures
        built.2 == header,
        banked_cartridge(
            built.0,
            built.1,
            header,
            prg_rom@,
            chr_rom,
            BankSwitching::Fixed,
            header.has_ram,
            1,
        ),
{
    let prg_ram = if header.has_ram {
        Some(zeroed(PRG_RAM_SIZE))
    } else {
        None
    };
    (
        CpuCartridgeAddressBus::Banked(
            BankedPrgChip::new(
                prg_rom,
                prg_ram,
                header.prg_rom_16kb_units,
                [0, header.prg_rom_16kb_units - 1],
                [0, (header.prg_rom_16kb_units as usize - 1) * PRG_BANK_SIZE],
                BankSwitching::Fixed,
            ),
        ),
        PpuCartridgeAddressBus::Banked(BankedChrChip::new(chr_rom, header.mirroring, 1)),
        header,
    )
}

} // verus!
