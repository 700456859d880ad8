//! The dot clock: 341 dots on each of 262 scanlines, and what each dot
//! fetches for the background.
use vstd::prelude::*;
use crate::ppu::registers::{PpuRegisters, nmi_enabled, spec_nmi_enabled, rendering, spec_rendering};
use crate::ppu::render::{
    Background, attribute_address, spec_attribute_address, attribute_bits, spec_attribute_bits,
    background_pattern_address, spec_background_pattern_address, copy_horizontal,
    spec_copy_horizontal, copy_vertical, spec_copy_vertical, increment_coarse_x,
    spec_increment_coarse_x, increment_y, spec_increment_y, reloaded, spec_reloaded, shifted,
    spec_shifted, tile_address, spec_tile_address,
};

verus! {

/// Dots on a scanline.
pub const DOTS: u16 = 341;

/// Scanlines in a frame: 0 to 239 visible, 240 idle, 241 to 260 vertical
/// blank, 261 the line before the first.
pub const SCANLINES: u16 = 262;

/// Dots in a frame.
pub const FRAME_DOTS: u32 = 89342;

/// The scanline before the first visible one.
pub const PRE_RENDER_LINE: u16 = 261;

/// The scanline on which the vertical blank starts.
pub const VBLANK_LINE: u16 = 241;

/// Where the picture unit is in the frame.
#[derive(Clone, Copy, PartialEq, Eq, Structural, Debug)]
pub struct Timing {
    /// 0 to 340.
    pub dot: u16,
    /// 0 to 261.
    pub scanline: u16,
    pub odd_frame: bool,
}

/// Whether the position lies inside the frame.
pub open spec fn timing_wf(timing: Timing) -> bool {
    timing.dot < DOTS && timing.scanline < SCANLINES
}

/// The position one dot later.
pub open spec fn spec_next_timing(timing: Timing) -> Timing {
    if timing.dot < DOTS - 1 {
        Timing { dot: (timing.dot + 1) as u16, ..timing }
    } else if timing.scanline < SCANLINES - 1 {
        Timing { dot: 0, scanline: (timing.scanline + 1) as u16, ..timing }
    } else {
        Timing { dot: 0, scanline: 0, odd_frame: !timing.odd_frame }
    }
}

/// The position one dot later.
pub fn next_timing(timing: Timing) -> (result: Timing)
    ensures
        result == spec_next_timing(timing),
{
    if timing.dot < DOTS - 1 {
        Timing { dot: (timing.dot + 1) as u16, ..timing }
    } else if timing.scanline < SCANLINES - 1 {
        Timing { dot: 0, scanline: (timing.scanline + 1) as u16, ..timing }
    } else {
        Timing { dot: 0, scanline: 0, odd_frame: !timing.odd_frame }
    }
}

/// Whether the scanline is one on which the pipeline runs: a visible one or
/// the one before the first.
pub open spec fn spec_on_render_line(timing: Timing) -> bool {
    timing.scanline < 240 || timing.scanline == PRE_RENDER_LINE
}

/// Whether the scanline is one on which the pipeline runs: a visible one or
/// the one before the first.
pub fn on_render_line(timing: Timing) -> (result: bool)
    ensures
        result == spec_on_render_line(timing),
{
    timing.scanline < 240 || timing.scanline == PRE_RENDER_LINE
}

/// Whether the dot puts a pixel on the screen.
pub open spec fn spec_draws_pixel(timing: Timing) -> bool {
    timing.scanline < 240 && 1 <= timing.dot && timing.dot <= 256
}

/// Whether the dot puts a pixel on the screen.
pub fn draws_pixel(timing: Timing) -> (result: bool)
    ensures
        result == spec_draws_pixel(timing),
{
    timing.scanline < 240 && 1 <= timing.dot && timing.dot <= 256
}

/// Whether the vertical blank starts at this dot.
pub open spec fn spec_starts_vblank(timing: Timing) -> bool {
    timing.scanline == VBLANK_LINE && timing.dot == 1
}

/// Whether the vertical blank starts at this dot.
pub fn starts_vblank(timing: Timing) -> (result: bool)
    ensures
        result == spec_starts_vblank(timing),
{
    timing.scanline == VBLANK_LINE && timing.dot == 1
}

/// Whether the flags of the frame are cleared at this dot.
pub open spec fn spec_clears_flags(timing: Timing) -> bool {
    timing.scanline == PRE_RENDER_LINE && timing.dot == 1
}

/// Whether the flags of the frame are cleared at this dot.
pub fn clears_flags(timing: Timing) -> (result: bool)
    ensures
        result == spec_clears_flags(timing),
{
    timing.scanline == PRE_RENDER_LINE && timing.dot == 1
}

/// Whether a frame is complete once this dot is done.
pub open spec fn spec_completes_frame(timing: Timing) -> bool {
    timing.scanline == VBLANK_LINE && timing.dot == 0
}

/// Whether a frame is complete once this dot is done.
pub fn completes_frame(timing: Timing) -> (result: bool)
    ensures
        result == spec_completes_frame(timing),
{
    timing.scanline == VBLANK_LINE && timing.dot == 0
}

/// Whether the background shifts and fetches at this dot: the 256 dots that
/// draw, shifted by one, and the dots that fetch the first two tiles of the
/// next line.
pub open spec fn spec_fetches(dot: u16) -> bool {
    (2 <= dot && dot <= 257) || (321 <= dot && dot <= 337)
}

/// Whether the background shifts and fetches at this dot: the 256 dots that
/// draw, shifted by one, and the dots that fetch the first two tiles of the
/// next line.
pub fn fetches(dot: u16) -> (result: bool)
    ensures
        result == spec_fetches(dot),
{
    (2 <= dot && dot <= 257) || (321 <= dot && dot <= 337)
}

/// The step of the eight-dot fetch cycle that a dot is in.
pub open spec fn spec_phase(dot: u16) -> u16
    recommends
        dot >= 1,
{
    ((dot - 1) % 8) as u16
}

/// The step of the eight-dot fetch cycle that a dot is in.
pub fn phase(dot: u16) -> (result: u16)
    requires
        dot >= 1,
    ensures
        result == spec_phase(dot),
{
    ((dot - 1) % 8) as u16
}

/// The address that the background fetches at a dot, if it fetches: the
/// tile, its attribute, and the two planes of its row, two dots apart.
pub open spec fn spec_background_fetch(
    registers: PpuRegisters,
    background: Background,
    dot: u16,
) -> Option<u16> {
    if !spec_fetches(dot) {
        None
    } else if spec_phase(dot) == 0 {
        Some(spec_tile_address(registers.v))
    } else if spec_phase(dot) == 2 {
        Some(spec_attribute_address(registers.v))
    } else if spec_phase(dot) == 4 {
        Some(spec_background_pattern_address(registers, background.next_tile))
    } else if spec_phase(dot) == 6 {
        Some((spec_background_pattern_address(registers, background.next_tile) + 8) as u16)
    } else {
        None
    }
}

/// The address that the background fetches at a dot, if it fetches: the
/// tile, its attribute, and the two planes of its row, two dots apart.
pub fn background_fetch(
    registers: PpuRegisters,
    background: Background,
    dot: u16,
) -> (result: Option<u16>)
    ensures
        result == spec_background_fetch(registers, background, dot),
{
    if !fetches(dot) {
        None
    } else if phase(dot) == 0 {
        Some(tile_address(registers.v))
    } else if phase(dot) == 2 {
        Some(attribute_address(registers.v))
    } else if phase(dot) == 4 {
        Some(background_pattern_address(registers, background.next_tile))
    } else if phase(dot) == 6 {
        Some((background_pattern_address(registers, background.next_tile) + 8) as u16)
    } else {
        None
    }
}

/// The background after a dot on which it runs, where `fetched` is the byte
/// that came from the address of `background_fetch`. The registers shift;
/// at the first dot of a fetch cycle they are reloaded.
pub open spec fn spec_background_after_dot(
    registers: PpuRegisters,
    background: Background,
    dot: u16,
    fetched: u8,
) -> Background {
    if !spec_fetches(dot) {
        background
    } else if spec_phase(dot) == 0 {
        Background { next_tile: fetched, ..spec_reloaded(spec_shifted(background)) }
    } else if spec_phase(dot) == 2 {
        Background { next_attribute: spec_attribute_bits(registers.v, fetched), ..spec_shifted(background) }
    } else if spec_phase(dot) == 4 {
        Background { next_low: fetched, ..spec_shifted(background) }
    } else if spec_phase(dot) == 6 {
        Background { next_high: fetched, ..spec_shifted(background) }
    } else {
        spec_shifted(background)
    }
}

/// The background after a dot on which it runs, where `fetched` is the byte
/// that came from the address of `background_fetch`. The registers shift;
/// at the first dot of a fetch cycle they are reloaded.
pub fn background_after_dot(
    registers: PpuRegisters,
    background: Background,
    dot: u16,
    fetched: u8,
) -> (result: Background)
    ensures
        result == spec_background_after_dot(registers, background, dot, fetched),
{
    if !fetches(dot) {
        background
    } else if phase(dot) == 0 {
        Background { next_tile: fetched, ..reloaded(shifted(background)) }
    } else if phase(dot) == 2 {
        Background { next_attribute: attribute_bits(registers.v, fetched), ..shifted(background) }
    } else if phase(dot) == 4 {
        Background { next_low: fetched, ..shifted(background) }
    } else if phase(dot) == 6 {
        Background { next_high: fetched, ..shifted(background) }
    } else {
        shifted(background)
    }
}

/// The address `v` after a dot on which the pipeline runs. Coarse X moves
/// on at the last dot of each fetch cycle, the row at dot 256; dot 257
/// takes the horizontal bits of `t`, and dots 280 to 304 of the line before
/// the first take its vertical bits.
pub open spec fn spec_v_after_dot(registers: PpuRegisters, timing: Timing) -> u16
    recommends
        registers.v < 0x8000,
        registers.t < 0x8000,
{
    if timing.dot == 256 {
        spec_increment_y(spec_increment_coarse_x(registers.v))
    } else if timing.dot == 257 {
        spec_copy_horizontal(registers.v, registers.t)
    } else if spec_fetches(timing.dot) && spec_phase(timing.dot) == 7 {
        spec_increment_coarse_x(registers.v)
    } else if timing.scanline == PRE_RENDER_LINE && 280 <= timing.dot && timing.dot <= 304 {
        spec_copy_vertical(registers.v, registers.t)
    } else {
        registers.v
    }
}

/// The address `v` after a dot on which the pipeline runs. Coarse X moves
/// on at the last dot of each fetch cycle, the row at dot 256; dot 257
/// takes the horizontal bits of `t`, and dots 280 to 304 of the line before
/// the first take its vertical bits.
pub fn v_after_dot(registers: PpuRegisters, timing: Timing) -> (result: u16)
    requires
        registers.v < 0x8000,
        registers.t < 0x8000,
    ensures
        result == spec_v_after_dot(registers, timing),
{
    if timing.dot == 256 {
        increment_y(increment_coarse_x(registers.v))
    } else if timing.dot == 257 {
        copy_horizontal(registers.v, registers.t)
    } else if fetches(timing.dot) && phase(timing.dot) == 7 {
        increment_coarse_x(registers.v)
    } else if timing.scanline == PRE_RENDER_LINE && 280 <= timing.dot && timing.dot <= 304 {
        copy_vertical(registers.v, registers.t)
    } else {
        registers.v
    }
}

/// A frame is 341 times 262 dots: that many steps bring the position back,
/// with the parity of the frame flipped.
pub open spec fn later(timing: Timing, dots: nat) -> Timing
    decreases dots,
{
    if dots == 0 {
        timing
    } else {
        spec_next_timing(later(timing, (dots - 1) as nat))
    }
}

/// The number of the dot in its frame.
pub open spec fn dot_number(timing: Timing) -> int {
    timing.scanline * 341 + timing.dot
}

/// Each step moves the dot number one on, modulo the length of a frame, and
/// keeps the position inside the frame.
pub proof fn lemma_next_timing_counts(timing: Timing)
    requires
        timing_wf(timing),
    ensures
        timing_wf(spec_next_timing(timing)),
        dot_number(spec_next_timing(timing)) == (dot_number(timing) + 1) % (FRAME_DOTS as int),
        spec_next_timing(timing).odd_frame == (if dot_number(timing) == FRAME_DOTS - 1 {
            !timing.odd_frame
        } else {
            timing.odd_frame
        }),
{
}

/// After `dots` steps the dot number has moved `dots` on, modulo the length
/// of a frame.
pub proof fn lemma_later_counts(timing: Timing, dots: nat)
    requires
        timing_wf(timing),
    ensures
        timing_wf(later(timing, dots)),
        dot_number(later(timing, dots)) == (dot_number(timing) + dots) % (FRAME_DOTS as int),
    decreases dots,
{
    if dots > 0 {
        lemma_later_counts(timing, (dots - 1) as nat);
        lemma_next_timing_counts(later(timing, (dots - 1) as nat));
    }
}

} // verus!
