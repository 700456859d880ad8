//! The pixel pipeline as functions of its state: the background shift
//! registers, the sprite units, and the multiplexer that picks a colour.
use vstd::prelude::*;
use crate::ppu::registers::{
    PpuRegisters, background_table, spec_background_table, bit, spec_bit, coarse_x,
    spec_coarse_x, coarse_y, spec_coarse_y, compose, spec_compose, fine_y, spec_fine_y,
    nametable_select, spec_nametable_select, shows_background, spec_shows_background,
    shows_sprites, spec_shows_sprites, sprite_table, spec_sprite_table, tall_sprites,
    spec_tall_sprites,
};

verus! {

/// The background half of the pipeline.
#[derive(Clone, Copy, Debug)]
pub struct Background {
    /// Low plane of the pattern shift register; bit 15 is the pixel on show.
    pub pattern_low: u16,
    /// High plane of the pattern shift register.
    pub pattern_high: u16,
    /// Low bit of the palette, one bit per pixel; bit 7 is the pixel on show.
    pub palette_low: u8,
    /// High bit of the palette.
    pub palette_high: u8,
    /// What is shifted into `palette_low`.
    pub palette_latch_low: bool,
    /// What is shifted into `palette_high`.
    pub palette_latch_high: bool,
    /// The tile fetched for the next reload.
    pub next_tile: u8,
    /// The two palette bits fetched for the next reload.
    pub next_attribute: u8,
    /// Low plane of the row fetched for the next reload.
    pub next_low: u8,
    /// High plane of the row fetched for the next reload.
    pub next_high: u8,
}

/// One of the eight sprite units of a scanline.
#[derive(Clone, Copy, Debug)]
pub struct SpriteUnit {
    /// Low plane of the sprite's row.
    pub pattern_low: u8,
    /// High plane of the sprite's row.
    pub pattern_high: u8,
    /// The attribute byte: palette in bits 0 and 1, behind-background in
    /// bit 5, horizontal flip in bit 6.
    pub attributes: u8,
    /// The column of the sprite's left edge.
    pub x: u8,
}

/// The sprite pixel that the multiplexer is offered.
#[derive(Clone, Copy, PartialEq, Eq, Structural, Debug)]
pub struct SpritePixel {
    /// The two pattern bits; 0 is transparent.
    pub pattern: u8,
    /// The sprite palette, 0 to 3.
    pub palette: u8,
    /// The sprite sits behind the background.
    pub behind: bool,
    /// The pixel belongs to sprite zero.
    pub sprite_zero: bool,
}

/// A pipeline with nothing in it.
pub open spec fn spec_empty_background() -> Background {
    Background {
        pattern_low: 0,
        pattern_high: 0,
        palette_low: 0,
        palette_high: 0,
        palette_latch_low: false,
        palette_latch_high: false,
        next_tile: 0,
        next_attribute: 0,
        next_low: 0,
        next_high: 0,
    }
}

/// A pipeline with nothing in it.
pub fn empty_background() -> (result: Background)
    ensures
        result == spec_empty_background(),
{
    Background {
        pattern_low: 0,
        pattern_high: 0,
        palette_low: 0,
        palette_high: 0,
        palette_latch_low: false,
        palette_latch_high: false,
        next_tile: 0,
        next_attribute: 0,
        next_low: 0,
        next_high: 0,
    }
}

/// A sprite unit that shows nothing.
pub open spec fn spec_empty_unit() -> SpriteUnit {
    SpriteUnit { pattern_low: 0, pattern_high: 0, attributes: 0, x: 0 }
}

/// A sprite unit that shows nothing.
pub fn empty_unit() -> (result: SpriteUnit)
    ensures
        result == spec_empty_unit(),
{
    SpriteUnit { pattern_low: 0, pattern_high: 0, attributes: 0, x: 0 }
}

/// The address with coarse X one further, wrapping into the name table to
/// the side.
pub open spec fn spec_increment_coarse_x(v: u16) -> u16
    recommends
        v < 0x8000,
{
    if spec_coarse_x(v) == 31 {
        spec_compose(0, spec_coarse_y(v), (spec_nametable_select(v) + 1 - 2 * (spec_nametable_select(v) % 2)) as u16, spec_fine_y(v))
    } else {
        (v + 1) as u16
    }
}

/// The address with coarse X one further, wrapping into the name table to
/// the side.
pub fn increment_coarse_x(v: u16) -> (result: u16)
    requires
        v < 0x8000,
    ensures
        result == spec_increment_coarse_x(v),
{
    if coarse_x(v) == 31 {
        compose(0, coarse_y(v), (nametable_select(v) + 1 - 2 * (nametable_select(v) % 2)) as u16, fine_y(v))
    } else {
        (v + 1) as u16
    }
}

/// The address one row further: fine Y counts to 7, then coarse Y moves on;
/// from row 29 it wraps into the name table below, and from row 31 to row 0
/// of the same name table.
pub open spec fn spec_increment_y(v: u16) -> u16
    recommends
        v < 0x8000,
{
    if spec_fine_y(v) < 7 {
        (v + 0x1000) as u16
    } else if spec_coarse_y(v) == 29 {
        spec_compose(spec_coarse_x(v), 0, ((spec_nametable_select(v) + 2) % 4) as u16, 0)
    } else if spec_coarse_y(v) == 31 {
        spec_compose(spec_coarse_x(v), 0, spec_nametable_select(v), 0)
    } else {
        spec_compose(spec_coarse_x(v), (spec_coarse_y(v) + 1) as u16, spec_nametable_select(v), 0)
    }
}

/// The address one row further: fine Y counts to 7, then coarse Y moves on;
/// from row 29 it wraps into the name table below, and from row 31 to row 0
/// of the same name table.
pub fn increment_y(v: u16) -> (result: u16)
    requires
        v < 0x8000,
    ensures
        result == spec_increment_y(v),
{
    if fine_y(v) < 7 {
        (v + 0x1000) as u16
    } else if coarse_y(v) == 29 {
        compose(coarse_x(v), 0, ((nametable_select(v) + 2) % 4) as u16, 0)
    } else if coarse_y(v) == 31 {
        compose(coarse_x(v), 0, nametable_select(v), 0)
    } else {
        compose(coarse_x(v), (coarse_y(v) + 1) as u16, nametable_select(v), 0)
    }
}

/// `v` with the horizontal bits of `t`: coarse X and the low name-table bit.
pub open spec fn spec_copy_horizontal(v: u16, t: u16) -> u16
    recommends
        v < 0x8000,
        t < 0x8000,
{
    spec_compose(
        spec_coarse_x(t),
        spec_coarse_y(v),
        ((spec_nametable_select(v) / 2) * 2 + spec_nametable_select(t) % 2) as u16,
        spec_fine_y(v),
    )
}

/// `v` with the horizontal bits of `t`: coarse X and the low name-table bit.
pub fn copy_horizontal(v: u16, t: u16) -> (result: u16)
    requires
        v < 0x8000,
        t < 0x8000,
    ensures
        result == spec_copy_horizontal(v, t),
{
    compose(
        coarse_x(t),
        coarse_y(v),
        ((nametable_select(v) / 2) * 2 + nametable_select(t) % 2) as u16,
        fine_y(v),
    )
}

/// `v` with the vertical bits of `t`: coarse Y, fine Y and the high
/// name-table bit.
pub open spec fn spec_copy_vertical(v: u16, t: u16) -> u16
    recommends
        v < 0x8000,
        t < 0x8000,
{
    spec_compose(
        spec_coarse_x(v),
        spec_coarse_y(t),
        ((spec_nametable_select(t) / 2) * 2 + spec_nametable_select(v) % 2) as u16,
        spec_fine_y(t),
    )
}

/// `v` with the vertical bits of `t`: coarse Y, fine Y and the high
/// name-table bit.
pub fn copy_vertical(v: u16, t: u16) -> (result: u16)
    requires
        v < 0x8000,
        t < 0x8000,
    ensures
        result == spec_copy_vertical(v, t),
{
    compose(
        coarse_x(v),
        coarse_y(t),
        ((nametable_select(t) / 2) * 2 + nametable_select(v) % 2) as u16,
        fine_y(t),
    )
}

/// The address of the tile that `v` points at.
pub open spec fn spec_tile_address(v: u16) -> u16 {
    (0x2000 + v % 0x1000) as u16
}

/// The address of the tile that `v` points at.
pub fn tile_address(v: u16) -> (result: u16)
    ensures
        result == spec_tile_address(v),
{
    (0x2000 + v % 0x1000) as u16
}

/// The address of the attribute byte of the tile that `v` points at.
pub open spec fn spec_attribute_address(v: u16) -> u16 {
    (0x23C0 + spec_nametable_select(v) * 0x400 + (spec_coarse_y(v) / 4) * 8 + spec_coarse_x(v) / 4) as u16
}

/// The address of the attribute byte of the tile that `v` points at.
pub fn attribute_address(v: u16) -> (result: u16)
    ensures
        result == spec_attribute_address(v),
{
    (0x23C0 + nametable_select(v) * 0x400 + (coarse_y(v) / 4) * 8 + coarse_x(v) / 4) as u16
}

/// The two palette bits in an attribute byte for the tile that `v` points
/// at: the byte holds one pair for each quadrant of a block of 4 by 4 tiles.
pub open spec fn spec_attribute_bits(v: u16, attribute: u8) -> u8 {
    match ((spec_coarse_y(v) % 4) / 2, (spec_coarse_x(v) % 4) / 2) {
        (0, 0) => attribute % 4,
        (0, _) => (attribute / 4) % 4,
        (_, 0) => (attribute / 16) % 4,
        _ => attribute / 64,
    }
}

/// The two palette bits in an attribute byte for the tile that `v` points
/// at: the byte holds one pair for each quadrant of a block of 4 by 4 tiles.
pub fn attribute_bits(v: u16, attribute: u8) -> (result: u8)
    ensures
        result == spec_attribute_bits(v, attribute),
{
    match ((coarse_y(v) % 4) / 2, (coarse_x(v) % 4) / 2) {
        (0, 0) => attribute % 4,
        (0, _) => (attribute / 4) % 4,
        (_, 0) => (attribute / 16) % 4,
        _ => attribute / 64,
    }
}

/// The address of the low plane of the background row of `tile` that `v`
/// points at; the high plane lies 8 bytes above.
pub open spec fn spec_background_pattern_address(registers: PpuRegisters, tile: u8) -> u16 {
    (spec_background_table(registers) + tile as u16 * 16 + spec_fine_y(registers.v)) as u16
}

/// The address of the low plane of the background row of `tile` that `v`
/// points at; the high plane lies 8 bytes above.
pub fn background_pattern_address(registers: PpuRegisters, tile: u8) -> (result: u16)
    ensures
        result == spec_background_pattern_address(registers, tile),
{
    (background_table(registers) + tile as u16 * 16 + fine_y(registers.v)) as u16
}

/// The pipeline one dot later: every shift register moves one pixel on, and
/// the palette registers take in their latches.
pub open spec fn spec_shifted(background: Background) -> Background {
    Background {
        pattern_low: ((background.pattern_low as u32 * 2) % 0x10000) as u16,
        pattern_high: ((background.pattern_high as u32 * 2) % 0x10000) as u16,
        palette_low: ((background.palette_low as u16 * 2) % 256 + (if background.palette_latch_low {
            1u16
        } else {
            0u16
        })) as u8,
        palette_high: ((background.palette_high as u16 * 2) % 256 + (
        if background.palette_latch_high {
            1u16
        } else {
            0u16
        })) as u8,
        ..background
    }
}

/// The pipeline one dot later: every shift register moves one pixel on, and
/// the palette registers take in their latches.
pub fn shifted(background: Background) -> (result: Background)
    ensures
        result == spec_shifted(background),
{
    Background {
        pattern_low: ((background.pattern_low as u32 * 2) % 0x10000) as u16,
        pattern_high: ((background.pattern_high as u32 * 2) % 0x10000) as u16,
        palette_low: ((background.palette_low as u16 * 2) % 256 + (if background.palette_latch_low {
            1u16
        } else {
            0u16
        })) as u8,
        palette_high: ((background.palette_high as u16 * 2) % 256 + (
        if background.palette_latch_high {
            1u16
        } else {
            0u16
        })) as u8,
        ..background
    }
}

/// The pipeline after a reload: the fetched row enters the low bytes of the
/// pattern registers, and the fetched palette bits enter the latches.
pub open spec fn spec_reloaded(background: Background) -> Background {
    Background {
        pattern_low: ((background.pattern_low / 256) * 256 + background.next_low as u16) as u16,
        pattern_high: ((background.pattern_high / 256) * 256 + background.next_high as u16) as u16,
        palette_latch_low: background.next_attribute % 2 == 1,
        palette_latch_high: (background.next_attribute / 2) % 2 == 1,
        ..background
    }
}

/// The pipeline after a reload: the fetched row enters the low bytes of the
/// pattern registers, and the fetched palette bits enter the latches.
pub fn reloaded(background: Background) -> (result: Background)
    ensures
        result == spec_reloaded(background),
{
    Background {
        pattern_low: ((background.pattern_low / 256) * 256 + background.next_low as u16) as u16,
        pattern_high: ((background.pattern_high / 256) * 256 + background.next_high as u16) as u16,
        palette_latch_low: background.next_attribute % 2 == 1,
        palette_latch_high: (background.next_attribute / 2) % 2 == 1,
        ..background
    }
}

/// Whether bit `index` of a 16-bit register is set, for the eight bits that
/// fine X can select: bit 15 for 0 down to bit 8 for 7.
pub open spec fn spec_selected_bit(register: u16, fine_x: u8) -> bool {
    spec_bit((register / 256) as u8, (7 - fine_x % 8) as u8)
}

/// Whether bit `index` of a 16-bit register is set, for the eight bits that
/// fine X can select: bit 15 for 0 down to bit 8 for 7.
pub fn selected_bit(register: u16, fine_x: u8) -> (result: bool)
    ensures
        result == spec_selected_bit(register, fine_x),
{
    bit((register / 256) as u8, (7 - fine_x % 8) as u8)
}

/// The two pattern bits of the background at the pixel on show, 0 where the
/// background is off or masked in the leftmost eight columns.
pub open spec fn spec_background_pattern(
    registers: PpuRegisters,
    background: Background,
    x: u8,
) -> u8 {
    if !spec_shows_background(registers) || (x < 8 && !spec_bit(registers.mask, 1)) {
        0
    } else {
        ((if spec_selected_bit(background.pattern_low, registers.x) {
            1u8
        } else {
            0u8
        }) + (if spec_selected_bit(background.pattern_high, registers.x) {
            2u8
        } else {
            0u8
        })) as u8
    }
}

/// The two pattern bits of the background at the pixel on show, 0 where the
/// background is off or masked in the leftmost eight columns.
pub fn background_pattern(registers: PpuRegisters, background: Background, x: u8) -> (result: u8)
    ensures
        result == spec_background_pattern(registers, background, x),
{
    if !shows_background(registers) || (x < 8 && !bit(registers.mask, 1)) {
        0
    } else {
        ((if selected_bit(background.pattern_low, registers.x) {
            1u8
        } else {
            0u8
        }) + (if selected_bit(background.pattern_high, registers.x) {
            2u8
        } else {
            0u8
        })) as u8
    }
}

/// The palette of the background at the pixel on show.
pub open spec fn spec_background_palette(registers: PpuRegisters, background: Background) -> u8 {
    ((if spec_bit(background.palette_low, (7 - registers.x % 8) as u8) {
        1u8
    } else {
        0u8
    }) + (if spec_bit(background.palette_high, (7 - registers.x % 8) as u8) {
        2u8
    } else {
        0u8
    })) as u8
}

/// The palette of the background at the pixel on show.
pub fn background_palette(registers: PpuRegisters, background: Background) -> (result: u8)
    ensures
        result == spec_background_palette(registers, background),
{
    ((if bit(background.palette_low, (7 - registers.x % 8) as u8) {
        1u8
    } else {
        0u8
    }) + (if bit(background.palette_high, (7 - registers.x % 8) as u8) {
        2u8
    } else {
        0u8
    })) as u8
}

/// The two pattern bits of a sprite unit at column `x`, 0 outside the
/// sprite's eight columns. Bit 6 of the attributes flips the row.
pub open spec fn spec_unit_pattern(unit: SpriteUnit, x: u8) -> u8 {
    if x < unit.x || x - unit.x >= 8 {
        0
    } else {
        ((if spec_bit(
            unit.pattern_low,
            if spec_bit(unit.attributes, 6) {
                (x - unit.x) as u8
            } else {
                (7 - (x - unit.x)) as u8
            },
        ) {
            1u8
        } else {
            0u8
        }) + (if spec_bit(
            unit.pattern_high,
            if spec_bit(unit.attributes, 6) {
                (x - unit.x) as u8
            } else {
                (7 - (x - unit.x)) as u8
            },
        ) {
            2u8
        } else {
            0u8
        })) as u8
    }
}

/// The two pattern bits of a sprite unit at column `x`, 0 outside the
/// sprite's eight columns. Bit 6 of the attributes flips the row.
pub fn unit_pattern(unit: SpriteUnit, x: u8) -> (result: u8)
    ensures
        result == spec_unit_pattern(unit, x),
{
    if x < unit.x || x - unit.x >= 8 {
        0
    } else {
        ((if bit(
            unit.pattern_low,
            if bit(unit.attributes, 6) {
                (x - unit.x) as u8
            } else {
                (7 - (x - unit.x)) as u8
            },
        ) {
            1u8
        } else {
            0u8
        }) + (if bit(
            unit.pattern_high,
            if bit(unit.attributes, 6) {
                (x - unit.x) as u8
            } else {
                (7 - (x - unit.x)) as u8
            },
        ) {
            2u8
        } else {
            0u8
        })) as u8
    }
}

/// No sprite pixel.
pub open spec fn spec_no_sprite() -> SpritePixel {
    SpritePixel { pattern: 0, palette: 0, behind: false, sprite_zero: false }
}

/// No sprite pixel.
pub fn no_sprite() -> (result: SpritePixel)
    ensures
        result == spec_no_sprite(),
{
    SpritePixel { pattern: 0, palette: 0, behind: false, sprite_zero: false }
}

/// The pixel of the first unit, from `from` on, that is opaque at column `x`.
pub open spec fn spec_first_opaque(
    units: [SpriteUnit; 8],
    sprite_zero_on_line: bool,
    x: u8,
    from: usize,
) -> SpritePixel
    decreases 8 - from,
{
    if from >= 8 {
        spec_no_sprite()
    } else if spec_unit_pattern(units[(from) as int], x) != 0 {
        SpritePixel {
            pattern: spec_unit_pattern(units[(from) as int], x),
            palette: units[(from) as int].attributes % 4,
            behind: spec_bit(units[(from) as int].attributes, 5),
            sprite_zero: from == 0 && sprite_zero_on_line,
        }
    } else {
        spec_first_opaque(units, sprite_zero_on_line, x, (from + 1) as usize)
    }
}

/// The pixel of the first unit, from `from` on, that is opaque at column `x`.
pub fn first_opaque(
    units: [SpriteUnit; 8],
    sprite_zero_on_line: bool,
    x: u8,
    from: usize,
) -> (result: SpritePixel)
    ensures
        result == spec_first_opaque(units, sprite_zero_on_line, x, from),
    decreases 8 - from,
{
    if from >= 8 {
        no_sprite()
    } else if unit_pattern(units[from], x) != 0 {
        SpritePixel {
            pattern: unit_pattern(units[from], x),
            palette: units[from].attributes % 4,
            behind: bit(units[from].attributes, 5),
            sprite_zero: from == 0 && sprite_zero_on_line,
        }
    } else {
        first_opaque(units, sprite_zero_on_line, x, (from + 1) as usize)
    }
}

/// The sprite pixel at column `x`: that of the first opaque unit, or none
/// where sprites are off or masked in the leftmost eight columns.
pub open spec fn spec_sprite_pixel(
    registers: PpuRegisters,
    units: [SpriteUnit; 8],
    sprite_zero_on_line: bool,
    x: u8,
) -> SpritePixel {
    if !spec_shows_sprites(registers) || (x < 8 && !spec_bit(registers.mask, 2)) {
        spec_no_sprite()
    } else {
        spec_first_opaque(units, sprite_zero_on_line, x, 0)
    }
}

/// The sprite pixel at column `x`: that of the first opaque unit, or none
/// where sprites are off or masked in the leftmost eight columns.
pub fn sprite_pixel(
    registers: PpuRegisters,
    units: [SpriteUnit; 8],
    sprite_zero_on_line: bool,
    x: u8,
) -> (result: SpritePixel)
    ensures
        result == spec_sprite_pixel(registers, units, sprite_zero_on_line, x),
{
    if !shows_sprites(registers) || (x < 8 && !bit(registers.mask, 2)) {
        no_sprite()
    } else {
        first_opaque(units, sprite_zero_on_line, x, 0)
    }
}

/// The entry of palette memory that a pixel shows. An opaque sprite pixel
/// wins over a transparent background and, unless it sits behind, over an
/// opaque one; else the background shows; where both are transparent the
/// backdrop colour, entry 0, shows.
pub open spec fn spec_multiplex(
    background_pattern: u8,
    background_palette: u8,
    sprite: SpritePixel,
) -> u8 {
    if sprite.pattern % 4 != 0 && (background_pattern % 4 == 0 || !sprite.behind) {
        (16 + (sprite.palette % 4) * 4 + sprite.pattern % 4) as u8
    } else if background_pattern % 4 != 0 {
        ((background_palette % 4) * 4 + background_pattern % 4) as u8
    } else {
        0
    }
}

/// The entry of palette memory that a pixel shows. An opaque sprite pixel
/// wins over a transparent background and, unless it sits behind, over an
/// opaque one; else the background shows; where both are transparent the
/// backdrop colour, entry 0, shows.
pub fn multiplex(
    background_pattern: u8,
    background_palette: u8,
    sprite: SpritePixel,
) -> (result: u8)
    ensures
        result == spec_multiplex(background_pattern, background_palette, sprite),
{
    if sprite.pattern % 4 != 0 && (background_pattern % 4 == 0 || !sprite.behind) {
        (16 + (sprite.palette % 4) * 4 + sprite.pattern % 4) as u8
    } else if background_pattern % 4 != 0 {
        ((background_palette % 4) * 4 + background_pattern % 4) as u8
    } else {
        0
    }
}

/// Whether the pixel at column `x` is a sprite-zero hit: an opaque pixel of
/// sprite zero over an opaque background pixel, anywhere but in the last column.
pub open spec fn spec_hits_sprite_zero(background_pattern: u8, sprite: SpritePixel, x: u8) -> bool {
    sprite.sprite_zero && sprite.pattern % 4 != 0 && background_pattern % 4 != 0 && x != 255
}

/// Whether the pixel at column `x` is a sprite-zero hit: an opaque pixel of
/// sprite zero over an opaque background pixel, anywhere but in the last column.
pub fn hits_sprite_zero(background_pattern: u8, sprite: SpritePixel, x: u8) -> (result: bool)
    ensures
        result == spec_hits_sprite_zero(background_pattern, sprite, x),
{
    sprite.sprite_zero && sprite.pattern % 4 != 0 && background_pattern % 4 != 0 && x != 255
}

/// How many rows a sprite has.
pub open spec fn spec_sprite_height(registers: PpuRegisters) -> u16 {
    if spec_tall_sprites(registers) {
        16
    } else {
        8
    }
}

/// How many rows a sprite has.
pub fn sprite_height(registers: PpuRegisters) -> (result: u16)
    ensures
        result == spec_sprite_height(registers),
{
    if tall_sprites(registers) {
        16
    } else {
        8
    }
}

/// Whether a sprite whose top is at `y` has a row on `scanline`.
pub open spec fn spec_on_scanline(registers: PpuRegisters, y: u8, scanline: u16) -> bool {
    y as u16 <= scanline && scanline < y as u16 + spec_sprite_height(registers)
}

/// Whether a sprite whose top is at `y` has a row on `scanline`.
pub fn on_scanline(registers: PpuRegisters, y: u8, scanline: u16) -> (result: bool)
    ensures
        result == spec_on_scanline(registers, y, scanline),
{
    y as u16 <= scanline && scanline < y as u16 + sprite_height(registers)
}

/// The address of the low plane of the row of a sprite that `scanline`
/// crosses; the high plane lies 8 bytes above. Bit 7 of the attributes flips
/// the sprite upside down. A tall sprite takes its pattern table from bit 0
/// of its tile number and spans two tiles.
pub open spec fn spec_sprite_pattern_address(
    registers: PpuRegisters,
    y: u8,
    tile: u8,
    attributes: u8,
    scanline: u16,
) -> u16
    recommends
        spec_on_scanline(registers, y, scanline),
{
    if spec_tall_sprites(registers) {
        ((tile % 2) as u16 * 0x1000 + ((tile / 2) * 2) as u16 * 16 + (if spec_bit(attributes, 7) {
            15 - (scanline - y as u16)
        } else {
            scanline - y as u16
        }) / 8 * 16 + (if spec_bit(attributes, 7) {
            15 - (scanline - y as u16)
        } else {
            scanline - y as u16
        }) % 8) as u16
    } else {
        (spec_sprite_table(registers) + tile as u16 * 16 + (if spec_bit(attributes, 7) {
            7 - (scanline - y as u16)
        } else {
            scanline - y as u16
        })) as u16
    }
}

/// The address of the low plane of the row of a sprite that `scanline`
/// crosses; the high plane lies 8 bytes above. Bit 7 of the attributes flips
/// the sprite upside down. A tall sprite takes its pattern table from bit 0
/// of its tile number and spans two tiles.
pub fn sprite_pattern_address(
    registers: PpuRegisters,
    y: u8,
    tile: u8,
    attributes: u8,
    scanline: u16,
) -> (result: u16)
    requires
        spec_on_scanline(registers, y, scanline),
    ensures
        result == spec_sprite_pattern_address(registers, y, tile, attributes, scanline),
{
    if tall_sprites(registers) {
        ((tile % 2) as u16 * 0x1000 + ((tile / 2) * 2) as u16 * 16 + (if bit(attributes, 7) {
            15 - (scanline - y as u16)
        } else {
            scanline - y as u16
        }) / 8 * 16 + (if bit(attributes, 7) {
            15 - (scanline - y as u16)
        } else {
            scanline - y as u16
        }) % 8) as u16
    } else {
        (sprite_table(registers) + tile as u16 * 16 + (if bit(attributes, 7) {
            7 - (scanline - y as u16)
        } else {
            scanline - y as u16
        })) as u16
    }
}

/// The 64 colours of the picture unit as red, green and blue bytes.
pub const SYSTEM_PALETTE: [u32; 64] = [
    0x545454, 0x001E74, 0x081090, 0x300088, 0x440064, 0x5C0030, 0x540400, 0x3C1800,
    0x202A00, 0x083A00, 0x004000, 0x003C00, 0x00323C, 0x000000, 0x000000, 0x000000,
    0x989698, 0x084CC4, 0x3032EC, 0x5C1EE4, 0x8814B0, 0xA01464, 0x982220, 0x783C00,
    0x545A00, 0x287200, 0x087C00, 0x007628, 0x006678, 0x000000, 0x000000, 0x000000,
    0xECEEEC, 0x4C9AEC, 0x787CEC, 0xB062EC, 0xE454EC, 0xEC58B4, 0xEC6A64, 0xD48820,
    0xA0AA00, 0x74C400, 0x4CD020, 0x38CC6C, 0x38B4CC, 0x3C3C3C, 0x000000, 0x000000,
    0xECEEEC, 0xA8CCEC, 0xBCBCEC, 0xD4B2EC, 0xECAEEC, 0xECAED4, 0xECB4B0, 0xE4C490,
    0xCCD278, 0xB4DE78, 0xA8E290, 0x98E2B4, 0xA0D6E4, 0xA0A2A0, 0x000000, 0x000000,
];

/// The packed pixel of a colour of palette memory: opaque alpha above the
/// red, green and blue of the system palette. Bit 0 of `$2001` keeps only
/// the grey column of the palette.
pub open spec fn spec_packed_pixel(registers: PpuRegisters, colour: u8) -> u32 {
    if spec_bit(registers.mask, 0) {
        (0xFF00_0000 + SYSTEM_PALETTE[(((colour % 64) / 16 * 16) as usize) as int] % 0x100_0000) as u32
    } else {
        (0xFF00_0000 + SYSTEM_PALETTE[((colour % 64) as usize) as int] % 0x100_0000) as u32
    }
}

/// The packed pixel of a colour of palette memory: opaque alpha above the
/// red, green and blue of the system palette. Bit 0 of `$2001` keeps only
/// the grey column of the palette.
pub fn packed_pixel(registers: PpuRegisters, colour: u8) -> (result: u32)
    ensures
        result == spec_packed_pixel(registers, colour),
{
    if bit(registers.mask, 0) {
        (0xFF00_0000 + SYSTEM_PALETTE[((colour % 64) / 16 * 16) as usize] % 0x100_0000) as u32
    } else {
        (0xFF00_0000 + SYSTEM_PALETTE[(colour % 64) as usize] % 0x100_0000) as u32
    }
}

} // verus!
