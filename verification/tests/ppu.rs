use rust_nes::cartridge::loader::from_bytes;
use rust_nes::ppu::registers::{palette_index, register_index};
use rust_nes::ppu::render::{
    multiplex, packed_pixel, increment_coarse_x, increment_y, copy_horizontal, copy_vertical,
    SpritePixel, SYSTEM_PALETTE,
};
use rust_nes::ppu::registers::power_on_registers;
use rust_nes::ppu::Ppu;

fn ppu_with_character_ram(vertical: bool) -> Ppu {
    let mut bytes = vec![0x4E, 0x45, 0x53, 0x1A, 1, 0, vertical as u8, 0, 0, 0, 0, 0, 0, 0, 0, 0];
    bytes.extend_from_slice(&vec![0u8; 0x4000]);
    let (_, chr, _) = from_bytes(&bytes).ok().unwrap();
    Ppu::new(chr)
}

fn set_address(ppu: &mut Ppu, address: u16) {
    ppu.write_register(6, (address >> 8) as u8, 0);
    ppu.write_register(6, address as u8, 0);
}

fn poke(ppu: &mut Ppu, address: u16, value: u8) {
    set_address(ppu, address);
    ppu.write_register(7, value, 0);
}

fn peek(ppu: &mut Ppu, address: u16) -> u8 {
    set_address(ppu, address);
    if address < 0x3F00 {
        ppu.read_register(7);
    }
    ppu.read_register(7)
}

fn run_dots(ppu: &mut Ppu, dots: u32) {
    for _ in 0..dots {
        ppu.tick();
    }
}

fn run_to(ppu: &mut Ppu, scanline: u16, dot: u16) {
    while ppu.timing.scanline != scanline || ppu.timing.dot != dot {
        ppu.tick();
    }
}

#[test]
fn register_window_repeats_every_eight_bytes() {
    for address in 0x2000u16..0x4000 {
        assert_eq!(register_index(address), (address & 7) as u8);
    }
}

#[test]
fn palette_entries_mirror() {
    for x in [0x10u16, 0x14, 0x18, 0x1C] {
        assert_eq!(palette_index(0x3F00 + x), palette_index(0x3F00 + x - 0x10));
        assert_eq!(palette_index(0x3F00 + x), (x - 0x10) as usize);
    }
    assert_eq!(palette_index(0x3F11), 0x11);
    assert_eq!(palette_index(0x3F3F), 0x1F);
    assert_eq!(palette_index(0x3FF0), 0x00);
}

#[test]
fn palette_reads_through_the_mirrors() {
    let mut ppu = ppu_with_character_ram(false);
    poke(&mut ppu, 0x3F10, 0x2A);
    assert_eq!(peek(&mut ppu, 0x3F00), 0x2A);
    poke(&mut ppu, 0x3F04, 0x15);
    assert_eq!(peek(&mut ppu, 0x3F14), 0x15);
    poke(&mut ppu, 0x3F38, 0x01);
    assert_eq!(peek(&mut ppu, 0x3F08), 0x01);
    poke(&mut ppu, 0x3F0C, 0x02);
    assert_eq!(peek(&mut ppu, 0x3F1C), 0x02);
    poke(&mut ppu, 0x3F01, 0x03);
    assert_eq!(peek(&mut ppu, 0x3F11), 0x00);
}

#[test]
fn palette_entries_keep_six_bits() {
    let mut ppu = ppu_with_character_ram(false);
    poke(&mut ppu, 0x3F02, 0xFF);
    assert_eq!(peek(&mut ppu, 0x3F02), 0x3F);
    poke(&mut ppu, 0x3F03, 0x40);
    assert_eq!(peek(&mut ppu, 0x3F03), 0x00);
}

#[test]
fn video_memory_reads_are_one_read_late() {
    let mut ppu = ppu_with_character_ram(false);
    poke(&mut ppu, 0x2000, 0x11);
    poke(&mut ppu, 0x2001, 0x22);
    set_address(&mut ppu, 0x2000);
    let stale = ppu.read_register(7);
    assert_eq!(stale, 0);
    assert_eq!(ppu.read_register(7), 0x11);
    assert_eq!(ppu.read_register(7), 0x22);
}

#[test]
fn video_address_advances_by_one_or_by_thirty_two() {
    let mut ppu = ppu_with_character_ram(false);
    set_address(&mut ppu, 0x2000);
    ppu.write_register(7, 1, 0);
    assert_eq!(ppu.registers.v, 0x2001);
    ppu.write_register(0, 0x04, 0);
    ppu.write_register(7, 2, 0);
    assert_eq!(ppu.registers.v, 0x2021);
    ppu.read_register(7);
    assert_eq!(ppu.registers.v, 0x2041);
    assert_eq!(peek(&mut ppu, 0x2000), 1);
    assert_eq!(peek(&mut ppu, 0x2001), 2);
}

#[test]
fn scroll_and_address_writes_share_the_toggle() {
    let mut ppu = ppu_with_character_ram(false);
    ppu.write_register(0, 0x03, 0);
    assert_eq!(ppu.registers.t, 0x0C00);
    ppu.write_register(5, 0x7D, 0);
    assert_eq!(ppu.registers.x, 5);
    assert_eq!(ppu.registers.t, 0x0C0F);
    assert!(ppu.registers.w);
    ppu.write_register(5, 0x5E, 0);
    assert_eq!(ppu.registers.t, 0x6D6F);
    assert!(!ppu.registers.w);
    ppu.write_register(6, 0xFD, 0);
    assert_eq!(ppu.registers.t, 0x3D6F);
    ppu.write_register(6, 0xF0, 0);
    assert_eq!(ppu.registers.t, 0x3DF0);
    assert_eq!(ppu.registers.v, 0x3DF0);
    // a read of the status register resets the toggle
    ppu.write_register(6, 0x21, 0);
    ppu.read_register(2);
    assert!(!ppu.registers.w);
}

#[test]
fn sprite_memory_is_written_through_its_port() {
    let mut ppu = ppu_with_character_ram(false);
    ppu.write_register(3, 0xFE, 0);
    ppu.write_register(4, 0x11, 0);
    ppu.write_register(4, 0x22, 0);
    ppu.write_register(4, 0x33, 0);
    assert_eq!(ppu.oam[0xFE], 0x11);
    assert_eq!(ppu.oam[0xFF], 0x22);
    assert_eq!(ppu.oam[0x00], 0x33);
    assert_eq!(ppu.registers.oam_address, 1);
    ppu.write_register(3, 0xFF, 0);
    assert_eq!(ppu.read_register(4), 0x22);
    assert_eq!(ppu.registers.oam_address, 0xFF);
}

#[test]
fn write_only_registers_read_as_zero() {
    let mut ppu = ppu_with_character_ram(false);
    ppu.write_register(0, 0xFF, 0);
    ppu.write_register(1, 0xFF, 0);
    for index in [0u8, 1, 3, 5, 6] {
        assert_eq!(ppu.read_register(index), 0);
    }
}

#[test]
fn vertical_blank_starts_at_dot_one_of_line_241() {
    let mut ppu = ppu_with_character_ram(false);
    run_to(&mut ppu, 241, 1);
    assert!(!ppu.registers.vblank);
    ppu.tick();
    assert!(ppu.registers.vblank);
    assert!(!ppu.nmi_edge);
    assert_eq!(ppu.read_register(2), 0x80);
    assert_eq!(ppu.read_register(2), 0x00);
}

#[test]
fn vertical_blank_ends_at_dot_one_of_line_261() {
    let mut ppu = ppu_with_character_ram(false);
    run_to(&mut ppu, 261, 1);
    assert!(ppu.registers.vblank);
    ppu.registers.sprite_zero_hit = true;
    ppu.registers.sprite_overflow = true;
    ppu.tick();
    assert!(!ppu.registers.vblank);
    assert!(!ppu.registers.sprite_zero_hit);
    assert!(!ppu.registers.sprite_overflow);
}

#[test]
fn nmi_is_raised_only_when_enabled() {
    let mut ppu = ppu_with_character_ram(false);
    ppu.write_register(0, 0x80, 0);
    run_to(&mut ppu, 241, 1);
    assert!(!ppu.nmi_edge);
    ppu.tick();
    assert!(ppu.nmi_edge);
}

#[test]
fn a_frame_has_341_by_262_dots() {
    let mut ppu = ppu_with_character_ram(false);
    run_dots(&mut ppu, 340);
    assert_eq!((ppu.timing.scanline, ppu.timing.dot), (0, 340));
    ppu.tick();
    assert_eq!((ppu.timing.scanline, ppu.timing.dot), (1, 0));
    run_dots(&mut ppu, 341 * 261 - 1);
    assert_eq!((ppu.timing.scanline, ppu.timing.dot), (261, 340));
    assert!(!ppu.timing.odd_frame);
    ppu.tick();
    assert_eq!((ppu.timing.scanline, ppu.timing.dot), (0, 0));
    assert!(ppu.timing.odd_frame);
}

#[test]
fn a_frame_is_complete_after_dot_zero_of_line_241() {
    let mut ppu = ppu_with_character_ram(false);
    run_to(&mut ppu, 241, 0);
    assert!(!ppu.is_frame_complete());
    ppu.tick();
    assert!(ppu.is_frame_complete());
}

#[test]
fn coarse_scroll_wraps_into_the_next_name_table() {
    assert_eq!(increment_coarse_x(0x0000), 0x0001);
    assert_eq!(increment_coarse_x(0x001F), 0x0400);
    assert_eq!(increment_coarse_x(0x041F), 0x0000);
    assert_eq!(increment_coarse_x(0x7BFF), 0x7FE0);
    assert_eq!(increment_y(0x0000), 0x1000);
    assert_eq!(increment_y(0x7000), 0x0020);
    assert_eq!(increment_y(0x73A0), 0x0800);
    assert_eq!(increment_y(0x7BA0), 0x0000);
    assert_eq!(increment_y(0x73E0), 0x0000);
    assert_eq!(copy_horizontal(0x7BE0, 0x041F), 0x7FFF);
    assert_eq!(copy_vertical(0x041F, 0x7BE0), 0x7FFF);
}

#[test]
fn the_multiplexer_follows_the_priority_rule() {
    let front = SpritePixel { pattern: 2, palette: 1, behind: false, sprite_zero: false };
    let behind = SpritePixel { pattern: 2, palette: 1, behind: true, sprite_zero: false };
    let none = SpritePixel { pattern: 0, palette: 3, behind: false, sprite_zero: false };
    assert_eq!(multiplex(0, 2, none), 0);
    assert_eq!(multiplex(3, 2, none), 0x0B);
    assert_eq!(multiplex(0, 2, front), 0x16);
    assert_eq!(multiplex(3, 2, front), 0x16);
    assert_eq!(multiplex(0, 2, behind), 0x16);
    assert_eq!(multiplex(3, 2, behind), 0x0B);
}

#[test]
fn pixels_are_packed_with_opaque_alpha() {
    let mut registers = power_on_registers();
    assert_eq!(packed_pixel(registers, 0x21), 0xFF4C9AEC);
    assert_eq!(packed_pixel(registers, 0x0F), 0xFF000000);
    assert_eq!(packed_pixel(registers, 0x61), 0xFF4C9AEC);
    registers.mask = 0x01;
    assert_eq!(packed_pixel(registers, 0x21), 0xFF000000 | SYSTEM_PALETTE[0x20]);
}

/// Tile 1 is solid colour 1; it sits in the top left corner of the first
/// name table. Entry 1 of the background palette is colour $21, the
/// backdrop is colour $0F.
fn scene(ppu: &mut Ppu) {
    for row in 0..8 {
        poke(ppu, 0x0010 + row, 0xFF);
        poke(ppu, 0x0018 + row, 0x00);
    }
    poke(ppu, 0x2000, 1);
    poke(ppu, 0x3F00, 0x0F);
    poke(ppu, 0x3F01, 0x21);
    poke(ppu, 0x3F11, 0x16);
    set_address(ppu, 0x0000);
}

#[test]
fn the_background_is_drawn() {
    let mut ppu = ppu_with_character_ram(false);
    scene(&mut ppu);
    ppu.write_register(1, 0x0A, 0);
    run_dots(&mut ppu, 2 * 341 * 262);
    let frame = ppu.get_framebuffer();
    assert_eq!(frame.len(), 256 * 240);
    for y in 0..240 {
        for x in 0..256 {
            let expected = if x < 8 && y < 8 { 0xFF4C9AEC } else { 0xFF000000 };
            assert_eq!(frame[y * 256 + x], expected, "pixel {} {}", x, y);
        }
    }
}

#[test]
fn fine_scroll_moves_the_background() {
    let mut ppu = ppu_with_character_ram(false);
    scene(&mut ppu);
    ppu.write_register(5, 3, 0);
    ppu.write_register(5, 2, 0);
    ppu.write_register(1, 0x0A, 0);
    run_dots(&mut ppu, 2 * 341 * 262);
    let frame = ppu.get_framebuffer();
    for y in 0..16 {
        for x in 0..16 {
            let expected = if x < 5 && y < 6 { 0xFF4C9AEC } else { 0xFF000000 };
            assert_eq!(frame[y * 256 + x], expected, "pixel {} {}", x, y);
        }
    }
}

#[test]
fn the_left_column_can_be_masked() {
    let mut ppu = ppu_with_character_ram(false);
    scene(&mut ppu);
    ppu.write_register(1, 0x08, 0);
    run_dots(&mut ppu, 2 * 341 * 262);
    let frame = ppu.get_framebuffer();
    for x in 0..16 {
        assert_eq!(frame[x], 0xFF000000);
    }
}

#[test]
fn nothing_is_drawn_while_rendering_is_off() {
    let mut ppu = ppu_with_character_ram(false);
    scene(&mut ppu);
    run_dots(&mut ppu, 2 * 341 * 262);
    assert!(ppu.get_framebuffer().iter().all(|pixel| *pixel == 0xFF000000));
    assert_eq!(ppu.registers.v, 0);
}

#[test]
fn sprites_are_drawn_one_line_below_their_y() {
    let mut ppu = ppu_with_character_ram(false);
    scene(&mut ppu);
    // sprite 0: y = 19, tile 1, palette 0, x = 40
    for (i, byte) in [19u8, 1, 0, 40].iter().enumerate() {
        ppu.oam[i] = *byte;
    }
    for i in 4..256 {
        ppu.oam[i] = 0xFF;
    }
    ppu.write_register(1, 0x1E, 0);
    run_dots(&mut ppu, 2 * 341 * 262);
    let frame = ppu.get_framebuffer();
    for y in 16..32 {
        for x in 32..56 {
            let inside = (40..48).contains(&x) && (20..28).contains(&y);
            let expected = if inside { 0xFF982220 } else { 0xFF000000 };
            assert_eq!(frame[y * 256 + x], expected, "pixel {} {}", x, y);
        }
    }
    assert!(!ppu.registers.sprite_zero_hit);
    assert!(!ppu.registers.sprite_overflow);
}

#[test]
fn sprite_zero_hits_an_opaque_background() {
    let mut ppu = ppu_with_character_ram(false);
    scene(&mut ppu);
    for (i, byte) in [2u8, 1, 0, 4].iter().enumerate() {
        ppu.oam[i] = *byte;
    }
    for i in 4..256 {
        ppu.oam[i] = 0xFF;
    }
    ppu.write_register(1, 0x1E, 0);
    run_to(&mut ppu, 261, 2);
    assert!(!ppu.registers.sprite_zero_hit);
    run_to(&mut ppu, 3, 4);
    assert!(!ppu.registers.sprite_zero_hit);
    run_to(&mut ppu, 3, 6);
    assert!(ppu.registers.sprite_zero_hit);
    assert_eq!(ppu.read_register(2) & 0x40, 0x40);
}

#[test]
fn a_ninth_sprite_on_a_line_sets_the_overflow_flag() {
    let mut ppu = ppu_with_character_ram(false);
    scene(&mut ppu);
    for sprite in 0..64 {
        let y = if sprite < 9 { 50 } else { 0xFF };
        ppu.oam[4 * sprite] = y;
        ppu.oam[4 * sprite + 1] = 1;
        ppu.oam[4 * sprite + 2] = 0;
        ppu.oam[4 * sprite + 3] = (8 * sprite) as u8;
    }
    ppu.write_register(1, 0x1E, 0);
    run_to(&mut ppu, 49, 300);
    assert!(!ppu.registers.sprite_overflow);
    run_to(&mut ppu, 50, 300);
    assert!(ppu.registers.sprite_overflow);
    assert_eq!(ppu.sprite_line.count, 8);
    run_to(&mut ppu, 52, 0);
    let frame = ppu.get_framebuffer();
    // the first eight sprites are drawn, the ninth is not
    assert_eq!(frame[51 * 256 + 8 * 7], 0xFF982220);
    assert_eq!(frame[51 * 256 + 8 * 8], 0xFF000000);
}

#[test]
fn flipped_sprites_are_mirrored() {
    let mut ppu = ppu_with_character_ram(false);
    // tile 2: only the leftmost pixel of the top row is set
    poke(&mut ppu, 0x0020, 0x80);
    poke(&mut ppu, 0x3F00, 0x0F);
    poke(&mut ppu, 0x3F11, 0x16);
    set_address(&mut ppu, 0x0000);
    for i in 0..256 {
        ppu.oam[i] = 0xFF;
    }
    // plain at x = 0, flipped horizontally at x = 16, vertically at x = 32
    for (slot, attributes) in [(0usize, 0x00u8), (1, 0x40), (2, 0x80)] {
        ppu.oam[4 * slot] = 9;
        ppu.oam[4 * slot + 1] = 2;
        ppu.oam[4 * slot + 2] = attributes;
        ppu.oam[4 * slot + 3] = 16 * slot as u8;
    }
    ppu.write_register(1, 0x1E, 0);
    run_dots(&mut ppu, 2 * 341 * 262);
    let frame = ppu.get_framebuffer();
    let lit: Vec<(usize, usize)> = (0..240)
        .flat_map(|y| (0..256).map(move |x| (x, y)))
        .filter(|(x, y)| frame[y * 256 + x] != 0xFF000000)
        .collect();
    assert_eq!(lit, vec![(0, 10), (23, 10), (32, 17)]);
}

#[test]
fn attributes_choose_the_palette_of_each_quadrant() {
    let mut ppu = ppu_with_character_ram(false);
    scene(&mut ppu);
    // tile 1 in each quadrant of the first block of four by four tiles
    poke(&mut ppu, 0x2000, 0);
    for (column, row) in [(1u16, 1u16), (2, 1), (1, 2), (3, 3)] {
        poke(&mut ppu, 0x2000 + 32 * row + column, 1);
    }
    // palettes 0, 1, 2, 3 for the quadrants, in reading order
    poke(&mut ppu, 0x23C0, 0b11_10_01_00);
    poke(&mut ppu, 0x3F05, 0x16);
    poke(&mut ppu, 0x3F09, 0x2A);
    poke(&mut ppu, 0x3F0D, 0x12);
    set_address(&mut ppu, 0x0000);
    ppu.write_register(1, 0x0A, 0);
    run_dots(&mut ppu, 2 * 341 * 262);
    let frame = ppu.get_framebuffer();
    assert_eq!(frame[8 * 256 + 8], 0xFF4C9AEC);
    assert_eq!(frame[15 * 256 + 15], 0xFF4C9AEC);
    assert_eq!(frame[8 * 256 + 16], 0xFF982220);
    assert_eq!(frame[15 * 256 + 23], 0xFF982220);
    assert_eq!(frame[16 * 256 + 8], 0xFF000000 | SYSTEM_PALETTE[0x2A]);
    assert_eq!(frame[24 * 256 + 24], 0xFF000000 | SYSTEM_PALETTE[0x12]);
    assert_eq!(frame[31 * 256 + 31], 0xFF000000 | SYSTEM_PALETTE[0x12]);
    assert_eq!(frame[0], 0xFF000000);
    assert_eq!(frame[8 * 256 + 24], 0xFF000000);
    assert_eq!(frame[32 * 256 + 24], 0xFF000000);
}

#[test]
fn coarse_scroll_shows_the_second_name_table() {
    let mut ppu = ppu_with_character_ram(true);
    scene(&mut ppu);
    // with vertical mirroring the table at $2400 is a table of its own
    poke(&mut ppu, 0x2400, 1);
    poke(&mut ppu, 0x2000, 0);
    set_address(&mut ppu, 0x0000);
    // scroll 31 tiles to the right: the last column of the first table, then the second
    ppu.write_register(5, 31 * 8, 0);
    ppu.write_register(5, 0, 0);
    ppu.write_register(1, 0x0A, 0);
    run_dots(&mut ppu, 2 * 341 * 262);
    let frame = ppu.get_framebuffer();
    for x in 0..24 {
        let expected = if (8..16).contains(&x) { 0xFF4C9AEC } else { 0xFF000000 };
        assert_eq!(frame[x], expected, "pixel {}", x);
        assert_eq!(frame[7 * 256 + x], expected, "pixel {} of row 7", x);
        assert_eq!(frame[8 * 256 + x], 0xFF000000);
    }
}

#[test]
fn vertical_scroll_starts_the_frame_lower() {
    let mut ppu = ppu_with_character_ram(false);
    scene(&mut ppu);
    poke(&mut ppu, 0x2000, 0);
    poke(&mut ppu, 0x2000 + 32 * 2, 1);
    set_address(&mut ppu, 0x0000);
    ppu.write_register(5, 0, 0);
    ppu.write_register(5, 12, 0);
    ppu.write_register(1, 0x0A, 0);
    run_dots(&mut ppu, 2 * 341 * 262);
    let frame = ppu.get_framebuffer();
    for y in 0..20 {
        let expected = if (4..12).contains(&y) { 0xFF4C9AEC } else { 0xFF000000 };
        assert_eq!(frame[y * 256], expected, "row {}", y);
    }
}

#[test]
fn tall_sprites_span_two_tiles() {
    let mut ppu = ppu_with_character_ram(false);
    // tile $11 of the table at $1000 is solid colour 1, tile $10 solid colour 2
    for row in 0..8 {
        poke(&mut ppu, 0x1000 + 0x10 * 16 + 8 + row, 0xFF);
        poke(&mut ppu, 0x1000 + 0x11 * 16 + row, 0xFF);
    }
    poke(&mut ppu, 0x3F00, 0x0F);
    poke(&mut ppu, 0x3F11, 0x16);
    poke(&mut ppu, 0x3F12, 0x2A);
    set_address(&mut ppu, 0x0000);
    for i in 0..256 {
        ppu.oam[i] = 0xFF;
    }
    // tile number $11: table $1000, tiles $10 and $11
    for (i, byte) in [29u8, 0x11, 0, 100].iter().enumerate() {
        ppu.oam[i] = *byte;
    }
    // the same, upside down
    for (i, byte) in [29u8, 0x11, 0x80, 120].iter().enumerate() {
        ppu.oam[4 + i] = *byte;
    }
    ppu.write_register(0, 0x20, 0);
    ppu.write_register(1, 0x1E, 0);
    run_dots(&mut ppu, 2 * 341 * 262);
    let frame = ppu.get_framebuffer();
    let upper = 0xFF000000 | SYSTEM_PALETTE[0x2A];
    let lower = 0xFF982220;
    assert_eq!(frame[29 * 256 + 100], 0xFF000000);
    assert_eq!(frame[30 * 256 + 100], upper);
    assert_eq!(frame[37 * 256 + 107], upper);
    assert_eq!(frame[38 * 256 + 100], lower);
    assert_eq!(frame[45 * 256 + 107], lower);
    assert_eq!(frame[46 * 256 + 100], 0xFF000000);
    assert_eq!(frame[30 * 256 + 120], lower);
    assert_eq!(frame[37 * 256 + 127], lower);
    assert_eq!(frame[38 * 256 + 120], upper);
    assert_eq!(frame[45 * 256 + 127], upper);
}

#[test]
fn sprites_behind_the_background_show_through_transparent_pixels_only() {
    let mut ppu = ppu_with_character_ram(false);
    scene(&mut ppu);
    for i in 0..256 {
        ppu.oam[i] = 0xFF;
    }
    // behind the background, half over the opaque tile in the corner
    for (i, byte) in [1u8, 1, 0x20, 4].iter().enumerate() {
        ppu.oam[i] = *byte;
    }
    ppu.write_register(1, 0x1E, 0);
    run_dots(&mut ppu, 2 * 341 * 262);
    let frame = ppu.get_framebuffer();
    assert_eq!(frame[2 * 256 + 4], 0xFF4C9AEC);
    assert_eq!(frame[2 * 256 + 7], 0xFF4C9AEC);
    assert_eq!(frame[2 * 256 + 8], 0xFF982220);
    assert_eq!(frame[2 * 256 + 11], 0xFF982220);
    assert_eq!(frame[8 * 256 + 4], 0xFF982220);
}
