use rust_nes::cartridge::loader::from_bytes;
use rust_nes::cartridge::mappers::mmc1::{serial_write, MMC1ChrChip, MMC1PrgChip, SerialOutcome, ShiftRegister};
use rust_nes::cartridge::mappers::mmc3::{CHRBankMode, MMC3ChrChip, MMC3PrgChip, PRGBankMode};
use rust_nes::cartridge::mappers::uxrom::uxrom_update_banks;
use rust_nes::cartridge::mappers::{BankSwitching, BankedChrChip, BankedPrgChip};
use rust_nes::cartridge::mirroring::MirroringMode;
use rust_nes::cartridge::{
    CartridgeError, CartridgeErrorKind, CartridgeHeader, CpuCartridgeAddressBus, PpuCartridgeAddressBus,
};

/// An image whose program byte at offset `i` of bank `b` is `b ^ (i as u8)`
/// and whose character bytes are numbered likewise per 1 KiB.
fn rom(mapper: u8, prg_units: u8, chr_units: u8, flags_6_low: u8) -> Vec<u8> {
    let mut bytes = vec![0x4E, 0x45, 0x53, 0x1A, prg_units, chr_units];
    bytes.push((mapper << 4) | flags_6_low);
    bytes.push(mapper & 0xF0);
    bytes.extend_from_slice(&[0; 8]);
    for i in 0..prg_units as usize * 0x4000 {
        bytes.push(((i / 0x2000) as u8) ^ (i as u8));
    }
    for i in 0..chr_units as usize * 0x2000 {
        bytes.push(((i / 0x400) as u8).wrapping_add(i as u8));
    }
    bytes
}

fn prg_byte(bank_8k: usize, offset: usize) -> u8 {
    (bank_8k as u8) ^ (offset as u8)
}

fn chr_byte(bank_1k: usize, offset: usize) -> u8 {
    (bank_1k as u8).wrapping_add(offset as u8)
}

#[test]
fn header_fields_come_from_the_flag_bytes() {
    let header = CartridgeHeader::new(2, 1, 0x41, 0x50);
    assert_eq!(header.prg_rom_16kb_units, 2);
    assert_eq!(header.chr_rom_8kb_units, 1);
    assert_eq!(header.mapper, 0x54);
    assert_eq!(header.mirroring, MirroringMode::Vertical);
    assert!(!header.has_ram);
    let header = CartridgeHeader::new(1, 0, 0x02, 0x00);
    assert_eq!(header.mapper, 0);
    assert_eq!(header.mirroring, MirroringMode::Horizontal);
    assert!(header.has_ram);
    let header = CartridgeHeader::new(1, 0, 0x09, 0x00);
    assert_eq!(header.mirroring, MirroringMode::FourScreen);
    let header = CartridgeHeader::new(1, 0, 0x08, 0x00);
    assert_eq!(header.mirroring, MirroringMode::FourScreen);
}

#[test]
fn header_summary_names_sizes_and_mapper() {
    let header = CartridgeHeader::new(2, 1, 0x41, 0x50);
    assert_eq!(header.summary(), "PRG Units 2, CHR Units 1, Mapper 84");
}

#[test]
fn short_image_is_a_format_error() {
    let error = from_bytes(&vec![0x4E, 0x45, 0x53, 0x1A, 1, 1]).err().unwrap();
    assert_eq!(error.kind, CartridgeErrorKind::CartridgeFormat);
    assert!(!error.message.is_empty());
}

#[test]
fn wrong_magic_is_a_format_error() {
    let mut bytes = rom(0, 1, 1, 0);
    bytes[3] = 0x00;
    let error = from_bytes(&bytes).err().unwrap();
    assert_eq!(error.kind, CartridgeErrorKind::CartridgeFormat);
}

#[test]
fn image_without_program_rom_is_a_format_error() {
    let bytes = rom(0, 0, 1, 0);
    let error = from_bytes(&bytes).err().unwrap();
    assert_eq!(error.kind, CartridgeErrorKind::CartridgeFormat);
}

#[test]
fn truncated_image_is_a_format_error() {
    let mut bytes = rom(0, 1, 1, 0);
    bytes.pop();
    let error = from_bytes(&bytes).err().unwrap();
    assert_eq!(error.kind, CartridgeErrorKind::CartridgeFormat);
    assert!(error.message.contains("1 prg rom units"));
}

#[test]
fn unknown_mapper_is_unsupported() {
    let error = from_bytes(&rom(5, 1, 1, 0)).err().unwrap();
    assert_eq!(error.kind, CartridgeErrorKind::MapperUnsupported);
    assert_eq!(error.message, "Mapper 05 not yet implemented");
    let error = from_bytes(&rom(0x5F, 1, 1, 0)).err().unwrap();
    assert_eq!(error.kind, CartridgeErrorKind::MapperUnsupported);
}

#[test]
fn format_is_checked_before_the_mapper() {
    let mut bytes = rom(5, 1, 1, 0);
    bytes.pop();
    let error = from_bytes(&bytes).err().unwrap();
    assert_eq!(error.kind, CartridgeErrorKind::CartridgeFormat);
}

#[test]
fn every_implemented_mapper_loads() {
    for mapper in [0u8, 1, 2, 3, 4, 94] {
        let (prg, chr, header) = from_bytes(&rom(mapper, 2, 1, 1)).ok().unwrap();
        assert_eq!(header.mapper, mapper);
        assert_eq!(header.mirroring, MirroringMode::Vertical);
        match (mapper, &prg, &chr) {
            (1, CpuCartridgeAddressBus::MMC1(_), PpuCartridgeAddressBus::MMC1(_)) => {}
            (4, CpuCartridgeAddressBus::MMC3(_), PpuCartridgeAddressBus::MMC3(_)) => {}
            (0 | 2 | 3 | 94, CpuCartridgeAddressBus::Banked(_), PpuCartridgeAddressBus::Banked(_)) => {}
            _ => panic!("wrong chips for mapper {}", mapper),
        }
        // the last bank is at the top of the address space
        assert_eq!(prg.read_byte(0xFFFF), prg_byte(3, 0x1FFF));
        assert_eq!(prg.read_byte(0x8000), prg_byte(0, 0));
        assert_eq!(chr.read_byte(0x0000), chr_byte(0, 0));
        assert_eq!(chr.read_byte(0x1FFF), chr_byte(7, 0x3FF));
    }
}

#[test]
fn nrom_with_one_bank_mirrors_it() {
    let (prg, _, _) = from_bytes(&rom(0, 1, 1, 0)).ok().unwrap();
    for address in [0x8000u16, 0x9234, 0xBFFF] {
        assert_eq!(prg.read_byte(address), prg.read_byte(address + 0x4000));
    }
    assert_eq!(prg.read_byte(0x5000), 0);
    assert_eq!(prg.read_byte(0x6000), 0);
}

#[test]
fn nrom_ignores_writes_to_rom() {
    let (mut prg, _, _) = from_bytes(&rom(0, 2, 1, 0)).ok().unwrap();
    let before = prg.read_byte(0x8000);
    prg.write_byte(0x8000, 1, 0);
    assert_eq!(prg.read_byte(0x8000), before);
}

#[test]
fn program_ram_is_present_where_the_header_says() {
    let (mut prg, _, _) = from_bytes(&rom(0, 1, 1, 0b10)).ok().unwrap();
    prg.write_byte(0x6123, 0xAB, 0);
    assert_eq!(prg.read_byte(0x6123), 0xAB);
    let (mut prg, _, _) = from_bytes(&rom(0, 1, 1, 0)).ok().unwrap();
    prg.write_byte(0x6123, 0xAB, 0);
    assert_eq!(prg.read_byte(0x6123), 0);
}

#[test]
fn character_ram_takes_writes_and_rom_does_not() {
    let (_, mut chr, _) = from_bytes(&rom(0, 1, 0, 0)).ok().unwrap();
    assert_eq!(chr.read_byte(0x0123), 0);
    chr.write_byte(0x0123, 0x5A, 0);
    assert_eq!(chr.read_byte(0x0123), 0x5A);
    let (_, mut chr, _) = from_bytes(&rom(0, 1, 1, 0)).ok().unwrap();
    let before = chr.read_byte(0x0123);
    chr.write_byte(0x0123, !before, 0);
    assert_eq!(chr.read_byte(0x0123), before);
}

#[test]
fn name_tables_go_through_the_mirroring() {
    let (_, mut chr, _) = from_bytes(&rom(0, 1, 1, 1)).ok().unwrap();
    chr.write_byte(0x2005, 0x11, 0);
    assert_eq!(chr.read_byte(0x2805), 0x11);
    assert_eq!(chr.read_byte(0x3005), 0x11);
    assert_eq!(chr.read_byte(0x2405), 0x00);
    let (_, mut chr, _) = from_bytes(&rom(0, 1, 1, 0)).ok().unwrap();
    chr.write_byte(0x2005, 0x22, 0);
    assert_eq!(chr.read_byte(0x2405), 0x22);
    assert_eq!(chr.read_byte(0x2805), 0x00);
}

#[test]
fn uxrom_update_banks_selects_the_low_bank() {
    let mut banks = [0u8, 7];
    let mut offsets = [0usize, 7 * 0x4000];
    uxrom_update_banks(0x8000, 5, 8, &mut banks, &mut offsets);
    assert_eq!(banks, [5, 7]);
    assert_eq!(offsets, [5 * 0x4000, 7 * 0x4000]);
    uxrom_update_banks(0xFFFF, 13, 8, &mut banks, &mut offsets);
    assert_eq!(banks, [5, 7]);
    assert_eq!(offsets, [5 * 0x4000, 7 * 0x4000]);
    uxrom_update_banks(0x7FFF, 1, 8, &mut banks, &mut offsets);
    assert_eq!(banks, [5, 7]);
    uxrom_update_banks(0xC000, 0x12, 8, &mut banks, &mut offsets);
    assert_eq!(banks, [2, 7]);
    assert_eq!(offsets, [2 * 0x4000, 7 * 0x4000]);
}

#[test]
fn uxrom_switches_the_low_window_only() {
    let (mut prg, _, _) = from_bytes(&rom(2, 4, 0, 0)).ok().unwrap();
    assert_eq!(prg.read_byte(0x8000), prg_byte(0, 0));
    assert_eq!(prg.read_byte(0xC000), prg_byte(6, 0));
    prg.write_byte(0x8000, 2, 0);
    assert_eq!(prg.read_byte(0x8001), prg_byte(4, 1));
    assert_eq!(prg.read_byte(0xA001), prg_byte(5, 1));
    assert_eq!(prg.read_byte(0xC000), prg_byte(6, 0));
    prg.write_byte(0xFFFF, 0xFF, 1);
    assert_eq!(prg.read_byte(0x8001), prg_byte(6, 1));
}

#[test]
fn cnrom_switches_the_character_bank() {
    let (mut prg, mut chr, _) = from_bytes(&rom(3, 1, 4, 0)).ok().unwrap();
    assert_eq!(chr.read_byte(0x0000), chr_byte(0, 0));
    chr.cpu_write_byte(0x8000, 2, 0);
    assert_eq!(chr.read_byte(0x0000), chr_byte(16, 0));
    assert_eq!(chr.read_byte(0x1FFF), chr_byte(23, 0x3FF));
    chr.cpu_write_byte(0x8000, 7, 1);
    assert_eq!(chr.read_byte(0x0000), chr_byte(24, 0));
    chr.cpu_write_byte(0x7000, 0, 2);
    assert_eq!(chr.read_byte(0x0000), chr_byte(24, 0));
    let before = prg.read_byte(0x8000);
    prg.write_byte(0x8000, 2, 0);
    assert_eq!(prg.read_byte(0x8000), before);
}

#[test]
fn banked_chips_keep_what_they_were_built_with() {
    let prg = BankedPrgChip::new(vec![7; 0x8000], None, 2, [0, 1], [0, 0x4000], BankSwitching::Fixed);
    assert_eq!(prg.read_byte(0x8000), 7);
    assert_eq!(prg.total_banks, 2);
    let chr = BankedChrChip::new(None, MirroringMode::Horizontal, 1);
    assert!(chr.chr_is_ram);
    assert_eq!(chr.chr_data.len(), 0x2000);
    assert_eq!(chr.ppu_vram.len(), 0x1000);
}

fn mmc1_write(prg: &mut CpuCartridgeAddressBus, chr: &mut PpuCartridgeAddressBus, address: u16, value: u8, cycle: &mut u32) {
    for bit in 0..5 {
        prg.write_byte(address, (value >> bit) & 1, *cycle);
        chr.cpu_write_byte(address, (value >> bit) & 1, *cycle);
        *cycle += 2;
    }
}

#[test]
fn mmc1_serial_port_commits_on_the_fifth_write() {
    let mut latch = ShiftRegister { value: 0, count: 0, last_write_cycle: None };
    let bits = [1u8, 0, 1, 1, 0];
    for (i, bit) in bits.iter().enumerate() {
        let step = serial_write(latch, 0xE000, *bit, 10 * i as u32);
        latch = step.latch;
        if i < 4 {
            assert_eq!(step.outcome, SerialOutcome::Shifted);
            assert_eq!(latch.count, i as u8 + 1);
        } else {
            assert_eq!(step.outcome, SerialOutcome::Commit { register: 3, value: 0b01101 });
            assert_eq!(latch.count, 0);
            assert_eq!(latch.value, 0);
        }
    }
}

#[test]
fn mmc1_reset_clears_the_latch() {
    let mut latch = ShiftRegister { value: 0, count: 0, last_write_cycle: None };
    latch = serial_write(latch, 0x8000, 1, 0).latch;
    latch = serial_write(latch, 0x8000, 1, 5).latch;
    let step = serial_write(latch, 0x8000, 0x80, 10);
    assert_eq!(step.outcome, SerialOutcome::Reset);
    assert_eq!(step.latch.count, 0);
    assert_eq!(step.latch.value, 0);
}

#[test]
fn mmc1_ignores_the_second_of_two_consecutive_writes() {
    let mut latch = ShiftRegister { value: 0, count: 0, last_write_cycle: None };
    let first = serial_write(latch, 0x8000, 1, 100);
    assert_eq!(first.outcome, SerialOutcome::Shifted);
    latch = first.latch;
    let second = serial_write(latch, 0x8000, 1, 101);
    assert_eq!(second.outcome, SerialOutcome::Ignored);
    assert_eq!(second.latch.count, 1);
    let third = serial_write(second.latch, 0x8000, 1, 103);
    assert_eq!(third.outcome, SerialOutcome::Shifted);
}

#[test]
fn mmc1_switches_program_banks() {
    let (mut prg, mut chr, _) = from_bytes(&rom(1, 8, 2, 0)).ok().unwrap();
    let mut cycle = 0;
    // power-on: last bank fixed high, bank 0 low
    assert_eq!(prg.read_byte(0x8000), prg_byte(0, 0));
    assert_eq!(prg.read_byte(0xC000), prg_byte(14, 0));
    mmc1_write(&mut prg, &mut chr, 0xE000, 3, &mut cycle);
    assert_eq!(prg.read_byte(0x8000), prg_byte(6, 0));
    assert_eq!(prg.read_byte(0xC000), prg_byte(14, 0));
    // control: mode 2, first bank fixed low
    mmc1_write(&mut prg, &mut chr, 0x8000, 0b01000, &mut cycle);
    assert_eq!(prg.read_byte(0x8000), prg_byte(0, 0));
    assert_eq!(prg.read_byte(0xC000), prg_byte(6, 0));
    // control: mode 0, 32 KiB
    mmc1_write(&mut prg, &mut chr, 0x8000, 0b00000, &mut cycle);
    assert_eq!(prg.read_byte(0x8000), prg_byte(4, 0));
    assert_eq!(prg.read_byte(0xC000), prg_byte(6, 0));
    // a reset forces mode 3
    prg.write_byte(0x8000, 0x80, cycle);
    assert_eq!(prg.read_byte(0x8000), prg_byte(6, 0));
    assert_eq!(prg.read_byte(0xC000), prg_byte(14, 0));
}

#[test]
fn mmc1_switches_character_banks_and_mirroring() {
    let (mut prg, mut chr, _) = from_bytes(&rom(1, 2, 2, 0)).ok().unwrap();
    let mut cycle = 0;
    // control: 4 KiB character banks, vertical mirroring
    mmc1_write(&mut prg, &mut chr, 0x8000, 0b11110, &mut cycle);
    mmc1_write(&mut prg, &mut chr, 0xA000, 3, &mut cycle);
    mmc1_write(&mut prg, &mut chr, 0xC000, 1, &mut cycle);
    assert_eq!(chr.read_byte(0x0000), chr_byte(12, 0));
    assert_eq!(chr.read_byte(0x1000), chr_byte(4, 0));
    chr.write_byte(0x2000, 0x77, 0);
    assert_eq!(chr.read_byte(0x2800), 0x77);
    // control: 8 KiB banks, single screen high
    mmc1_write(&mut prg, &mut chr, 0x8000, 0b01101, &mut cycle);
    assert_eq!(chr.read_byte(0x0000), chr_byte(8, 0));
    assert_eq!(chr.read_byte(0x1000), chr_byte(12, 0));
    chr.write_byte(0x2400, 0x66, 0);
    assert_eq!(chr.read_byte(0x2000), 0x66);
    assert_eq!(chr.read_byte(0x2C00), 0x66);
}

#[test]
fn mmc1_chips_start_as_at_power_on() {
    let prg = MMC1PrgChip::new(vec![0; 0x8000], 2, None);
    assert_eq!(prg.control.prg_mode, 3);
    assert_eq!(prg.control.prg_bank, 0);
    let chr = MMC1ChrChip::new(None, 2, MirroringMode::Vertical);
    assert!(!chr.control.split);
    assert_eq!(chr.control.mirroring_mode, MirroringMode::Vertical);
}

#[test]
fn mmc3_new_places_the_fixed_banks() {
    let chip = MMC3PrgChip::new(vec![0; 0x10000], 8, None);
    assert_eq!(chip.prg_banks, [0, 1, 6, 7]);
    assert_eq!(chip.prg_bank_offsets, [0x0000, 0x2000, 0xC000, 0xE000]);
    assert_eq!(chip.bank_mode, PRGBankMode::LowBankSwappable);
    assert_eq!(chip.bank_select, 0);
    assert_eq!(chip.read_byte(0x6000), 0);
}

#[test]
fn mmc3_update_bank_offsets_follows_the_mode() {
    let mut chip = MMC3PrgChip::new(vec![0; 0x10000], 8, None);
    chip.prg_banks[0] = 3;
    chip.update_bank_offsets();
    assert_eq!(chip.prg_bank_offsets, [0x6000, 0x2000, 0xC000, 0xE000]);
    chip.bank_mode = PRGBankMode::HighBankSwappable;
    chip.update_bank_offsets();
    assert_eq!(chip.prg_bank_offsets, [0xC000, 0x2000, 0x6000, 0xE000]);
}

#[test]
fn mmc3_switches_program_banks() {
    let (mut prg, _, _) = from_bytes(&rom(4, 4, 1, 0)).ok().unwrap();
    assert_eq!(prg.read_byte(0x8000), prg_byte(0, 0));
    assert_eq!(prg.read_byte(0xA000), prg_byte(1, 0));
    assert_eq!(prg.read_byte(0xC000), prg_byte(6, 0));
    assert_eq!(prg.read_byte(0xE000), prg_byte(7, 0));
    prg.write_byte(0x8000, 6, 0);
    prg.write_byte(0x8001, 3, 1);
    assert_eq!(prg.read_byte(0x8005), prg_byte(3, 5));
    assert_eq!(prg.read_byte(0xC005), prg_byte(6, 5));
    // bank data is reduced modulo the number of banks
    prg.write_byte(0x8001, 13, 2);
    assert_eq!(prg.read_byte(0x8005), prg_byte(5, 5));
    // swap the switchable window to $C000
    prg.write_byte(0x8000, 0x46, 3);
    assert_eq!(prg.read_byte(0x8005), prg_byte(6, 5));
    assert_eq!(prg.read_byte(0xC005), prg_byte(5, 5));
    assert_eq!(prg.read_byte(0xE005), prg_byte(7, 5));
    assert_eq!(prg.read_byte(0xA005), prg_byte(1, 5));
}

#[test]
fn mmc3_program_ram_takes_writes() {
    let (mut prg, _, _) = from_bytes(&rom(4, 2, 1, 0)).ok().unwrap();
    prg.write_byte(0x7FFF, 0x99, 0);
    assert_eq!(prg.read_byte(0x7FFF), 0x99);
    assert_eq!(prg.read_byte(0x6000), 0);
}

#[test]
fn mmc3_switches_character_banks() {
    let (_, mut chr, _) = from_bytes(&rom(4, 2, 4, 0)).ok().unwrap();
    for window in 0..8 {
        assert_eq!(chr.read_byte(window * 0x400), chr_byte(window as usize, 0));
    }
    // target 0: a 2 KiB pair, the low bit of the bank dropped
    chr.cpu_write_byte(0x8000, 0, 0);
    chr.cpu_write_byte(0x8001, 0x0B, 1);
    assert_eq!(chr.read_byte(0x0000), chr_byte(10, 0));
    assert_eq!(chr.read_byte(0x0400), chr_byte(11, 0));
    // target 2: a 1 KiB bank at $1000, reduced modulo 32 banks
    chr.cpu_write_byte(0x8000, 2, 2);
    chr.cpu_write_byte(0x8001, 0x25, 3);
    assert_eq!(chr.read_byte(0x1000), chr_byte(5, 0));
    // the other mode exchanges the halves
    chr.cpu_write_byte(0x8000, 0x82, 4);
    assert_eq!(chr.read_byte(0x0000), chr_byte(5, 0));
    assert_eq!(chr.read_byte(0x1000), chr_byte(10, 0));
    assert_eq!(chr.read_byte(0x1400), chr_byte(11, 0));
    // targets 6 and 7 belong to the program chip
    chr.cpu_write_byte(0x8000, 0x86, 5);
    chr.cpu_write_byte(0x8001, 3, 6);
    assert_eq!(chr.read_byte(0x0000), chr_byte(5, 0));
}

#[test]
fn mmc3_sets_the_mirroring() {
    let (_, mut chr, _) = from_bytes(&rom(4, 2, 1, 0)).ok().unwrap();
    chr.cpu_write_byte(0xA000, 0, 0);
    chr.write_byte(0x2000, 0x12, 0);
    assert_eq!(chr.read_byte(0x2800), 0x12);
    assert_eq!(chr.read_byte(0x2400), 0x00);
    chr.cpu_write_byte(0xA000, 1, 1);
    assert_eq!(chr.read_byte(0x2400), 0x12);
    // odd addresses are the RAM protect register
    chr.cpu_write_byte(0xA001, 0, 2);
    assert_eq!(chr.read_byte(0x2400), 0x12);
    // four-screen cartridges keep their mirroring
    let (_, mut chr, _) = from_bytes(&rom(4, 2, 1, 8)).ok().unwrap();
    chr.cpu_write_byte(0xA000, 0, 0);
    chr.write_byte(0x2C00, 0x34, 0);
    assert_eq!(chr.read_byte(0x2000), 0x00);
    assert_eq!(chr.read_byte(0x2C00), 0x34);
}

#[test]
fn mmc3_character_chip_starts_in_order() {
    let chip = MMC3ChrChip::new(None, 8, MirroringMode::Horizontal);
    assert_eq!(chip.chr_banks, [0, 1, 2, 3, 4, 5, 6, 7]);
    assert_eq!(chip.bank_mode, CHRBankMode::LowBank2KB);
    assert!(chip.chr_is_ram);
}

#[test]
fn reads_stay_in_range_whatever_is_written() {
    for mapper in [0u8, 1, 2, 3, 4] {
        let (mut prg, mut chr, _) = from_bytes(&rom(mapper, 2, 1, 0)).ok().unwrap();
        let mut seed = 0x1234_5678u32;
        for cycle in 0..2000u32 {
            seed = seed.wrapping_mul(1664525).wrapping_add(1013904223);
            let address = 0x8000 | (seed >> 16) as u16;
            let value = (seed >> 8) as u8;
            prg.write_byte(address, value, cycle * 2);
            chr.cpu_write_byte(address, value, cycle * 2);
            let read = 0x8000 | (seed >> 4) as u16;
            let _ = prg.read_byte(read);
            let _ = chr.read_byte(read & 0x1FFF);
        }
    }
}

#[test]
fn a_failed_read_is_an_io_error() {
    let error = CartridgeError::io("no such file".to_string());
    assert_eq!(error.kind, CartridgeErrorKind::CartridgeIO);
    assert_eq!(error.message, "no such file");
}
