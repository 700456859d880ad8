//! The registers of the picture unit and what reads and writes of the
//! register window `$2000-$2007` do to them.
use vstd::prelude::*;

verus! {

/// The internal registers of the picture unit.
#[derive(Clone, Copy, Debug)]
pub struct PpuRegisters {
    /// The byte last written to `$2000`.
    pub control: u8,
    /// The byte last written to `$2001`.
    pub mask: u8,
    /// The vertical blank has started; cleared by a read of `$2002`.
    pub vblank: bool,
    pub sprite_zero_hit: bool,
    pub sprite_overflow: bool,
    /// The address in sprite memory that `$2004` accesses.
    pub oam_address: u8,
    /// The current address in video memory, 15 bits: fine Y in bits 12 to
    /// 14, the name table in bits 10 and 11, coarse Y in bits 5 to 9 and
    /// coarse X in bits 0 to 4.
    pub v: u16,
    /// The temporary address, laid out as `v`.
    pub t: u16,
    /// Fine X scroll, 3 bits.
    pub x: u8,
    /// The write toggle shared by `$2005` and `$2006`.
    pub w: bool,
    /// The byte that the next read of `$2007` below the palette returns.
    pub read_buffer: u8,
}

/// Whether the registers hold no more bits than they have.
pub open spec fn registers_wf(registers: PpuRegisters) -> bool {
    registers.v < 0x8000 && registers.t < 0x8000 && registers.x < 8
}

/// The registers at power-on: all clear.
pub open spec fn spec_power_on_registers() -> PpuRegisters {
    PpuRegisters {
        control: 0,
        mask: 0,
        vblank: false,
        sprite_zero_hit: false,
        sprite_overflow: false,
        oam_address: 0,
        v: 0,
        t: 0,
        x: 0,
        w: false,
        read_buffer: 0,
    }
}

/// The registers at power-on: all clear.
pub fn power_on_registers() -> (result: PpuRegisters)
    ensures
        result == spec_power_on_registers(),
{
    PpuRegisters {
        control: 0,
        mask: 0,
        vblank: false,
        sprite_zero_hit: false,
        sprite_overflow: false,
        oam_address: 0,
        v: 0,
        t: 0,
        x: 0,
        w: false,
        read_buffer: 0,
    }
}

/// Whether bit `index` of `value` is set.
pub open spec fn spec_bit(value: u8, index: u8) -> bool {
    match index {
        0 => value % 2 == 1,
        1 => (value / 2) % 2 == 1,
        2 => (value / 4) % 2 == 1,
        3 => (value / 8) % 2 == 1,
        4 => (value / 16) % 2 == 1,
        5 => (value / 32) % 2 == 1,
        6 => (value / 64) % 2 == 1,
        _ => value / 128 == 1,
    }
}

/// Whether bit `index` of `value` is set.
pub fn bit(value: u8, index: u8) -> (result: bool)
    ensures
        result == spec_bit(value, index),
{
    match index {
        0 => value % 2 == 1,
        1 => (value / 2) % 2 == 1,
        2 => (value / 4) % 2 == 1,
        3 => (value / 8) % 2 == 1,
        4 => (value / 16) % 2 == 1,
        5 => (value / 32) % 2 == 1,
        6 => (value / 64) % 2 == 1,
        _ => value / 128 == 1,
    }
}

/// Whether the start of the vertical blank raises an NMI: bit 7 of `$2000`.
pub open spec fn spec_nmi_enabled(registers: PpuRegisters) -> bool {
    spec_bit(registers.control, 7)
}

/// Whether the start of the vertical blank raises an NMI: bit 7 of `$2000`.
pub fn nmi_enabled(registers: PpuRegisters) -> (result: bool)
    ensures
        result == spec_nmi_enabled(registers),
{
    bit(registers.control, 7)
}

/// Whether sprites are 16 rows high: bit 5 of `$2000`.
pub open spec fn spec_tall_sprites(registers: PpuRegisters) -> bool {
    spec_bit(registers.control, 5)
}

/// Whether sprites are 16 rows high: bit 5 of `$2000`.
pub fn tall_sprites(registers: PpuRegisters) -> (result: bool)
    ensures
        result == spec_tall_sprites(registers),
{
    bit(registers.control, 5)
}

/// The base of the background's pattern table: bit 4 of `$2000`.
pub open spec fn spec_background_table(registers: PpuRegisters) -> u16 {
    if spec_bit(registers.control, 4) {
        0x1000
    } else {
        0
    }
}

/// The base of the background's pattern table: bit 4 of `$2000`.
pub fn background_table(registers: PpuRegisters) -> (result: u16)
    ensures
        result == spec_background_table(registers),
{
    if bit(registers.control, 4) {
        0x1000
    } else {
        0
    }
}

/// The base of the pattern table of 8-row sprites: bit 3 of `$2000`.
pub open spec fn spec_sprite_table(registers: PpuRegisters) -> u16 {
    if spec_bit(registers.control, 3) {
        0x1000
    } else {
        0
    }
}

/// The base of the pattern table of 8-row sprites: bit 3 of `$2000`.
pub fn sprite_table(registers: PpuRegisters) -> (result: u16)
    ensures
        result == spec_sprite_table(registers),
{
    if bit(registers.control, 3) {
        0x1000
    } else {
        0
    }
}

/// By how much an access through `$2007` advances the address: bit 2 of `$2000`.
pub open spec fn spec_vram_increment(registers: PpuRegisters) -> u16 {
    if spec_bit(registers.control, 2) {
        32
    } else {
        1
    }
}

/// By how much an access through `$2007` advances the address: bit 2 of `$2000`.
pub fn vram_increment(registers: PpuRegisters) -> (result: u16)
    ensures
        result == spec_vram_increment(registers),
{
    if bit(registers.control, 2) {
        32
    } else {
        1
    }
}

/// Whether the background is shown: bit 3 of `$2001`.
pub open spec fn spec_shows_background(registers: PpuRegisters) -> bool {
    spec_bit(registers.mask, 3)
}

/// Whether the background is shown: bit 3 of `$2001`.
pub fn shows_background(registers: PpuRegisters) -> (result: bool)
    ensures
        result == spec_shows_background(registers),
{
    bit(registers.mask, 3)
}

/// Whether sprites are shown: bit 4 of `$2001`.
pub open spec fn spec_shows_sprites(registers: PpuRegisters) -> bool {
    spec_bit(registers.mask, 4)
}

/// Whether sprites are shown: bit 4 of `$2001`.
pub fn shows_sprites(registers: PpuRegisters) -> (result: bool)
    ensures
        result == spec_shows_sprites(registers),
{
    bit(registers.mask, 4)
}

/// Whether the picture unit is rendering: background or sprites are shown.
pub open spec fn spec_rendering(registers: PpuRegisters) -> bool {
    spec_shows_background(registers) || spec_shows_sprites(registers)
}

/// Whether the picture unit is rendering: background or sprites are shown.
pub fn rendering(registers: PpuRegisters) -> (result: bool)
    ensures
        result == spec_rendering(registers),
{
    shows_background(registers) || shows_sprites(registers)
}

/// The byte that a read of `$2002` returns: vertical blank in bit 7,
/// sprite-zero hit in bit 6, sprite overflow in bit 5.
pub open spec fn spec_status_byte(registers: PpuRegisters) -> u8 {
    ((if registers.vblank {
        128u8
    } else {
        0u8
    }) + (if registers.sprite_zero_hit {
        64u8
    } else {
        0u8
    }) + (if registers.sprite_overflow {
        32u8
    } else {
        0u8
    })) as u8
}

/// The byte that a read of `$2002` returns: vertical blank in bit 7,
/// sprite-zero hit in bit 6, sprite overflow in bit 5.
pub fn status_byte(registers: PpuRegisters) -> (result: u8)
    ensures
        result == spec_status_byte(registers),
{
    ((if registers.vblank {
        128u8
    } else {
        0u8
    }) + (if registers.sprite_zero_hit {
        64u8
    } else {
        0u8
    }) + (if registers.sprite_overflow {
        32u8
    } else {
        0u8
    })) as u8
}

/// The registers after a read of `$2002`: the vertical blank flag and the
/// write toggle are cleared.
pub open spec fn spec_after_status_read(registers: PpuRegisters) -> PpuRegisters {
    PpuRegisters { vblank: false, w: false, ..registers }
}

/// The registers after a read of `$2002`: the vertical blank flag and the
/// write toggle are cleared.
pub fn after_status_read(registers: PpuRegisters) -> (result: PpuRegisters)
    ensures
        result == spec_after_status_read(registers),
{
    PpuRegisters { vblank: false, w: false, ..registers }
}

/// The registers after a write to `$2000`: the name-table bits go to `t`.
pub open spec fn spec_after_control_write(registers: PpuRegisters, value: u8) -> PpuRegisters {
    PpuRegisters {
        control: value,
        t: (registers.t % 0x400 + (value % 4) as u16 * 0x400 + (registers.t / 0x1000) * 0x1000) as u16,
        ..registers
    }
}

/// The registers after a write to `$2000`: the name-table bits go to `t`.
pub fn after_control_write(registers: PpuRegisters, value: u8) -> (result: PpuRegisters)
    ensures
        result == spec_after_control_write(registers, value),
{
    PpuRegisters {
        control: value,
        t: (registers.t % 0x400 + (value % 4) as u16 * 0x400 + (registers.t / 0x1000) * 0x1000) as u16,
        ..registers
    }
}

/// The registers after a write to `$2005`. The first write sets coarse X in
/// `t` and fine X, the second sets coarse Y and fine Y in `t`.
pub open spec fn spec_after_scroll_write(registers: PpuRegisters, value: u8) -> PpuRegisters {
    if !registers.w {
        PpuRegisters {
            t: ((registers.t / 32) * 32 + (value / 8) as u16) as u16,
            x: value % 8,
            w: true,
            ..registers
        }
    } else {
        PpuRegisters {
            t: (registers.t % 32 + (value / 8) as u16 * 32 + ((registers.t / 0x400) % 4) * 0x400 + (
            value % 8) as u16 * 0x1000) as u16,
            w: false,
            ..registers
        }
    }
}

/// The registers after a write to `$2005`. The first write sets coarse X in
/// `t` and fine X, the second sets coarse Y and fine Y in `t`.
pub fn after_scroll_write(registers: PpuRegisters, value: u8) -> (result: PpuRegisters)
    ensures
        result == spec_after_scroll_write(registers, value),
{
    if !registers.w {
        PpuRegisters {
            t: ((registers.t / 32) * 32 + (value / 8) as u16) as u16,
            x: value % 8,
            w: true,
            ..registers
        }
    } else {
        PpuRegisters {
            t: (registers.t % 32 + (value / 8) as u16 * 32 + ((registers.t / 0x400) % 4) * 0x400 + (
            value % 8) as u16 * 0x1000) as u16,
            w: false,
            ..registers
        }
    }
}

/// The registers after a write to `$2006`. The first write sets bits 8 to
/// 13 of `t` and clears bit 14; the second sets the low byte of `t` and
/// copies `t` to `v`.
pub open spec fn spec_after_address_write(registers: PpuRegisters, value: u8) -> PpuRegisters {
    if !registers.w {
        PpuRegisters {
            t: (registers.t % 256 + (value % 64) as u16 * 256) as u16,
            w: true,
            ..registers
        }
    } else {
        PpuRegisters {
            t: ((registers.t / 256) * 256 + value as u16) as u16,
            v: ((registers.t / 256) * 256 + value as u16) as u16,
            w: false,
            ..registers
        }
    }
}

/// The registers after a write to `$2006`. The first write sets bits 8 to
/// 13 of `t` and clears bit 14; the second sets the low byte of `t` and
/// copies `t` to `v`.
pub fn after_address_write(registers: PpuRegisters, value: u8) -> (result: PpuRegisters)
    ensures
        result == spec_after_address_write(registers, value),
{
    if !registers.w {
        PpuRegisters {
            t: (registers.t % 256 + (value % 64) as u16 * 256) as u16,
            w: true,
            ..registers
        }
    } else {
        PpuRegisters {
            t: ((registers.t / 256) * 256 + value as u16) as u16,
            v: ((registers.t / 256) * 256 + value as u16) as u16,
            w: false,
            ..registers
        }
    }
}

/// The address in video memory that `$2007` accesses: `v` in 14 bits.
pub open spec fn spec_data_address(registers: PpuRegisters) -> u16 {
    registers.v % 0x4000
}

/// The address in video memory that `$2007` accesses: `v` in 14 bits.
pub fn data_address(registers: PpuRegisters) -> (result: u16)
    ensures
        result == spec_data_address(registers),
{
    registers.v % 0x4000
}

/// The registers after an access through `$2007`: `v` moves on by 1 or by
/// 32, within 15 bits.
pub open spec fn spec_after_data_access(registers: PpuRegisters) -> PpuRegisters {
    PpuRegisters {
        v: ((registers.v as u32 + spec_vram_increment(registers) as u32) % 0x8000) as u16,
        ..registers
    }
}

/// The registers after an access through `$2007`: `v` moves on by 1 or by
/// 32, within 15 bits.
pub fn after_data_access(registers: PpuRegisters) -> (result: PpuRegisters)
    ensures
        result == spec_after_data_access(registers),
{
    PpuRegisters {
        v: ((registers.v as u32 + vram_increment(registers) as u32) % 0x8000) as u16,
        ..registers
    }
}

/// The entry of palette memory that an address in `$3F00-$3FFF` names. The
/// memory has 32 entries, and entries `$10`, `$14`, `$18` and `$1C` are
/// entries `$00`, `$04`, `$08` and `$0C`.
pub open spec fn spec_palette_index(address: u16) -> usize {
    if address % 32 >= 16 && address % 4 == 0 {
        (address % 32 - 16) as usize
    } else {
        (address % 32) as usize
    }
}

/// The entry of palette memory that an address in `$3F00-$3FFF` names. The
/// memory has 32 entries, and entries `$10`, `$14`, `$18` and `$1C` are
/// entries `$00`, `$04`, `$08` and `$0C`.
pub fn palette_index(address: u16) -> (result: usize)
    ensures
        result == spec_palette_index(address),
{
    if address % 32 >= 16 && address % 4 == 0 {
        (address % 32 - 16) as usize
    } else {
        (address % 32) as usize
    }
}

/// The register that an address of the window `$2000-$3FFF` names: the
/// window repeats every 8 bytes.
pub open spec fn spec_register_index(address: u16) -> u8 {
    (address % 8) as u8
}

/// The register that an address of the window `$2000-$3FFF` names: the
/// window repeats every 8 bytes.
pub fn register_index(address: u16) -> (result: u8)
    ensures
        result == spec_register_index(address),
{
    (address % 8) as u8
}

/// Coarse X of an address: bits 0 to 4.
pub open spec fn spec_coarse_x(v: u16) -> u16 {
    v % 32
}

/// Coarse X of an address: bits 0 to 4.
pub fn coarse_x(v: u16) -> (result: u16)
    ensures
        result == spec_coarse_x(v),
{
    v % 32
}

/// Coarse Y of an address: bits 5 to 9.
pub open spec fn spec_coarse_y(v: u16) -> u16 {
    (v / 32) % 32
}

/// Coarse Y of an address: bits 5 to 9.
pub fn coarse_y(v: u16) -> (result: u16)
    ensures
        result == spec_coarse_y(v),
{
    (v / 32) % 32
}

/// The name table of an address: bits 10 and 11.
pub open spec fn spec_nametable_select(v: u16) -> u16 {
    (v / 0x400) % 4
}

/// The name table of an address: bits 10 and 11.
pub fn nametable_select(v: u16) -> (result: u16)
    ensures
        result == spec_nametable_select(v),
{
    (v / 0x400) % 4
}

/// Fine Y of an address: bits 12 to 14.
pub open spec fn spec_fine_y(v: u16) -> u16 {
    (v / 0x1000) % 8
}

/// Fine Y of an address: bits 12 to 14.
pub fn fine_y(v: u16) -> (result: u16)
    ensures
        result == spec_fine_y(v),
{
    (v / 0x1000) % 8
}

/// The address with the given parts.
pub open spec fn spec_compose(coarse_x: u16, coarse_y: u16, nametable: u16, fine_y: u16) -> u16
    recommends
        coarse_x < 32,
        coarse_y < 32,
        nametable < 4,
        fine_y < 8,
{
    (coarse_x + coarse_y * 32 + nametable * 0x400 + fine_y * 0x1000) as u16
}

/// The address with the given parts.
pub fn compose(coarse_x: u16, coarse_y: u16, nametable: u16, fine_y: u16) -> (result: u16)
    requires
        coarse_x < 32,
        coarse_y < 32,
        nametable < 4,
        fine_y < 8,
    ensures
        result == spec_compose(coarse_x, coarse_y, nametable, fine_y),
{
    (coarse_x + coarse_y * 32 + nametable * 0x400 + fine_y * 0x1000) as u16
}

/// An address is made of its four parts.
pub proof fn lemma_compose_parts(v: u16)
    requires
        v < 0x8000,
    ensures
        spec_compose(spec_coarse_x(v), spec_coarse_y(v), spec_nametable_select(v), spec_fine_y(v))
            == v,
{
}

/// The four entries of the sprite palettes that mirror the backdrop entries
/// read and write the same memory as those.
pub proof fn lemma_palette_mirrors(entry: u16)
    requires
        entry == 0x10 || entry == 0x14 || entry == 0x18 || entry == 0x1C,
    ensures
        spec_palette_index((0x3F00 + entry) as u16) == spec_palette_index(
            (0x3F00 + entry - 0x10) as u16,
        ),
{
}

/// Palette memory repeats every 32 bytes up to `$3FFF`, and every entry
/// lies inside it.
pub proof fn lemma_palette_repeats(address: u16)
    requires
        0x3F00 <= address < 0x3FE0,
    ensures
        spec_palette_index(address) == spec_palette_index((address + 32) as u16),
        spec_palette_index(address) < 32,
{
}

/// An address of the register window and the address `8 * k` above it name
/// the same register.
pub proof fn lemma_register_window_repeats(address: u16, k: nat)
    requires
        0x2000 <= address,
        address + 8 * k < 0x4000,
    ensures
        spec_register_index(address) == spec_register_index((address + 8 * k) as u16),
{
}

/// Writes to the registers keep them within their bits.
pub proof fn lemma_writes_keep_registers_wf(registers: PpuRegisters, value: u8)
    requires
        registers_wf(registers),
    ensures
        registers_wf(spec_after_control_write(registers, value)),
        registers_wf(spec_after_scroll_write(registers, value)),
        registers_wf(spec_after_address_write(registers, value)),
        registers_wf(spec_after_data_access(registers)),
        registers_wf(spec_after_status_read(registers)),
{
}

/// Two writes to `$2006` load `v` with the 14-bit address that they spell,
/// high byte first.
pub proof fn lemma_address_writes_load_v(registers: PpuRegisters, high: u8, low: u8)
    requires
        !registers.w,
    ensures
        ({
            let loaded = spec_after_address_write(spec_after_address_write(registers, high), low);
            &&& loaded.v == (high % 64) * 256 + low
            &&& loaded.t == loaded.v
            &&& !loaded.w
        }),
{
}

} // verus!
