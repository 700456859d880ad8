use rust_nes::cartridge::mirroring::MirroringMode;

#[test]
fn horizontal_pairs_tables_side_by_side() {
    let mode = MirroringMode::Horizontal;
    assert_eq!(mode.get_mirrored_address(0x2000), 0x000);
    assert_eq!(mode.get_mirrored_address(0x23FF), 0x3FF);
    assert_eq!(mode.get_mirrored_address(0x2400), 0x000);
    assert_eq!(mode.get_mirrored_address(0x2800), 0x400);
    assert_eq!(mode.get_mirrored_address(0x2C05), 0x405);
}

#[test]
fn vertical_pairs_tables_above_each_other() {
    let mode = MirroringMode::Vertical;
    assert_eq!(mode.get_mirrored_address(0x2000), 0x000);
    assert_eq!(mode.get_mirrored_address(0x2400), 0x400);
    assert_eq!(mode.get_mirrored_address(0x2801), 0x001);
    assert_eq!(mode.get_mirrored_address(0x2FFF), 0x7FF);
}

#[test]
fn single_screen_modes_use_one_table() {
    for base in [0x2000u16, 0x2400, 0x2800, 0x2C00] {
        assert_eq!(MirroringMode::SingleScreenLow.get_mirrored_address(base + 0x12), 0x012);
        assert_eq!(MirroringMode::SingleScreenHigh.get_mirrored_address(base + 0x12), 0x412);
    }
}

#[test]
fn four_screen_passes_the_offset_through() {
    assert_eq!(MirroringMode::FourScreen.get_mirrored_address(0x2C34), 0xC34);
    assert_eq!(MirroringMode::FourScreen.get_mirrored_address(0x2000), 0x000);
}

#[test]
fn addresses_from_3000_mirror_down() {
    let modes = [
        MirroringMode::Horizontal,
        MirroringMode::Vertical,
        MirroringMode::SingleScreenLow,
        MirroringMode::SingleScreenHigh,
        MirroringMode::FourScreen,
    ];
    for mode in modes {
        let mut address = 0x2000u16;
        while address < 0x2F00 {
            assert_eq!(
                mode.get_mirrored_address(address),
                mode.get_mirrored_address(address + 0x1000)
            );
            address += 7;
        }
    }
}
