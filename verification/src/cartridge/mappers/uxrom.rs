//! UxROM (mappers 2 and 94): a switchable 16 KiB bank at `$8000`, the last
//! bank fixed at `$C000`, one 8 KiB character bank.
use vstd::prelude::*;
use crate::cartridge::mappers::{BankSwitching, BankedChrChip, BankedPrgChip, PRG_BANK_SIZE};
use crate::cartridge::mappers::{banked_cartridge, image_matches};
use crate::cartridge::{CartridgeHeader, CpuCartridgeAddressBus, PpuCartridgeAddressBus};

verus! {

/// The banks after a write of `value` to `address`: from `$8000` up the
/// first window takes bank `value` modulo the number of banks.
pub open spec fn uxrom_banks_after(address: u16, value: u8, total_banks: u8, banks: Seq<u8>) -> Seq<
    u8,
> {
    if address >= 0x8000 {
        banks.update(0, (value % total_banks) as u8)
    } else {
        banks
    }
}

/// The bank offsets after a write of `value` to `address`.
pub open spec fn uxrom_offsets_after(
    address: u16,
    value: u8,
    total_banks: u8,
    bank_offsets: Seq<usize>,
) -> Seq<usize> {
    if address >= 0x8000 {
        bank_offsets.update(0, ((value % total_banks) * PRG_BANK_SIZE) as usize)
    } else {
        bank_offsets
    }
}

/// The bank logic of UxROM: a write to `$8000-$FFFF` selects the bank of the
/// first window.
pub fn uxrom_update_banks(
    address: u16,
    value: u8,
    total_banks: u8,
    banks: &mut [u8; 2],
    bank_offsets: &mut [usize; 2],
)
    requires
        total_banks > 0,
    ensures
        final(banks)@ == uxrom_banks_after(address, value, total_banks, old(banks)@),
        final(bank_offsets)@ == uxrom_offsets_after(address, value, total_banks, old(bank_offsets)@),
        final(banks)[0] < total_banks || address < 0x8000,
{
    if address >= 0x8000 {
        banks[0] = value % total_banks;
        bank_offsets[0] = banks[0] as usize * PRG_BANK_SIZE;
    }
}

/// The two buses of a UxROM cartridge: bank 0 at `$8000`, switchable, the
/// last bank at `$C000`, no program RAM, one character bank.
pub fn from_header(prg_rom: Vec<u8>, chr_rom: Option<Vec<u8>>, header: CartridgeHeader) -> (built: (
    CpuCartridgeAddressBus,
    PpuCartridgeAddressBus,
    CartridgeHeader,
))
    requires
        image_matches(header, prg_rom@, chr_rom),
    ensures
        built.2 == header,
        banked_cartridge(
            built.0,
            built.1,
            header,
            prg_rom@,
            chr_rom,
            BankSwitching::UxRom,
            false,
            1,
        ),
{
    (
        CpuCartridgeAddressBus::Banked(
            BankedPrgChip::new(
                prg_rom,
                None,
                header.prg_rom_16kb_units,
                [0, header.prg_rom_16kb_units - 1],
                [0, (header.prg_rom_16kb_units as usize - 1) * PRG_BANK_SIZE],
                BankSwitching::UxRom,
            ),
        ),
        PpuCartridgeAddressBus::Banked(BankedChrChip::new(chr_rom, header.mirroring, 1)),
        header,
    )
}

} // verus!
