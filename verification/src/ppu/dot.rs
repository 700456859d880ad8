//! One dot of the picture unit.
use vstd::prelude::*;
use crate::ppu::registers::{
    PpuRegisters, nmi_enabled, spec_nmi_enabled, palette_index, spec_palette_index, rendering,
    spec_rendering,
};
use crate::ppu::render::{
    Background, SpritePixel, SpriteUnit, background_palette, spec_background_palette,
    background_pattern, spec_background_pattern, empty_unit, spec_empty_unit, hits_sprite_zero,
    spec_hits_sprite_zero, multiplex, spec_multiplex, on_scanline, spec_on_scanline,
    packed_pixel, spec_packed_pixel, sprite_pattern_address, spec_sprite_pattern_address,
    sprite_pixel, spec_sprite_pixel,
};
use crate::ppu::timing::{
    Timing, background_after_dot, spec_background_after_dot, background_fetch,
    spec_background_fetch, clears_flags, spec_clears_flags, completes_frame,
    spec_completes_frame, draws_pixel, spec_draws_pixel, next_timing, spec_next_timing,
    on_render_line, spec_on_render_line, starts_vblank, spec_starts_vblank, v_after_dot,
    spec_v_after_dot,
};
use crate::cartridge::PpuCartridgeAddressBus;
use crate::ppu::{Ppu, SpriteLine};
use crate::ppu::registers::registers_wf;
use crate::ppu::timing::timing_wf;

verus! {

/// Whether the dot clears an entry of the sprite memory of the scanline.
pub open spec fn clears_secondary(timing: Timing) -> bool {
    1 <= timing.dot <= 64
}

/// Whether the dot evaluates a sprite: every third dot from 65 to 254, on
/// visible scanlines.
pub open spec fn evaluates(timing: Timing) -> bool {
    timing.scanline < 240 && 65 <= timing.dot <= 256 && (timing.dot - 65) % 3 == 0
}

/// The sprite that the dot evaluates.
pub open spec fn evaluated_sprite(timing: Timing) -> int {
    (timing.dot - 65) / 3
}

/// Whether the dot loads a sprite unit: the last dot of each of the eight
/// fetch slots from 257 to 320.
pub open spec fn loads_unit(timing: Timing) -> bool {
    257 <= timing.dot <= 320 && (timing.dot - 257) % 8 == 7
}

/// The unit that the dot loads.
pub open spec fn loaded_unit(timing: Timing) -> int {
    (timing.dot - 257) / 8
}

/// Whether the pipeline runs at a dot: rendering is on, and the scanline is
/// visible or the one before the first.
pub open spec fn active_at(registers: PpuRegisters, timing: Timing) -> bool {
    spec_rendering(registers) && spec_on_render_line(timing)
}

/// The packed pixel that a dot draws in column `column`: the entry of
/// palette memory that the multiplexer picks, through the system palette.
pub open spec fn pixel_of(
    registers: PpuRegisters,
    background: Background,
    units: [SpriteUnit; 8],
    zero_on_line: bool,
    palette: Seq<u8>,
    column: u8,
) -> u32 {
    spec_packed_pixel(
        registers,
        palette[spec_palette_index(
            (0x3F00 + spec_multiplex(
                spec_background_pattern(registers, background, column),
                spec_background_palette(registers, background),
                spec_sprite_pixel(registers, units, zero_on_line, column),
            )) as u16,
        ) as int],
    )
}

/// Whether the pixel in column `column` is a sprite-zero hit.
pub open spec fn hit_at(
    registers: PpuRegisters,
    background: Background,
    units: [SpriteUnit; 8],
    zero_on_line: bool,
    column: u8,
) -> bool {
    spec_hits_sprite_zero(
        spec_background_pattern(registers, background, column),
        spec_sprite_pixel(registers, units, zero_on_line, column),
        column,
    )
}

/// The number of sprites found for the next scanline before a dot
/// evaluates: none at the first dot of the evaluation.
pub open spec fn found_before(timing: Timing, line: SpriteLine) -> u8 {
    if timing.dot == 65 {
        0
    } else {
        line.count
    }
}

/// Whether the sprite that a dot evaluates has a row on the scanline.
pub open spec fn finds_sprite(registers: PpuRegisters, timing: Timing, oam: Seq<u8>) -> bool {
    active_at(registers, timing) && evaluates(timing) && spec_on_scanline(
        registers,
        oam[4 * evaluated_sprite(timing)],
        timing.scanline,
    )
}

/// The sprite memory of the scanline after a dot. Dots 1 to 64 set it to
/// `$FF`, two dots to the byte; an evaluating dot that finds a sprite, with
/// fewer than eight found, copies the sprite's four bytes in.
pub open spec fn secondary_after_dot(
    registers: PpuRegisters,
    timing: Timing,
    oam: Seq<u8>,
    secondary: Seq<u8>,
    line: SpriteLine,
) -> Seq<u8> {
    if active_at(registers, timing) && clears_secondary(timing) {
        secondary.update((timing.dot - 1) / 2, 0xFFu8)
    } else if finds_sprite(registers, timing, oam) && found_before(timing, line) < 8 {
        let from = 4 * evaluated_sprite(timing);
        let to = 4 * found_before(timing, line);
        secondary.update(to, oam[from]).update(to + 1, oam[from + 1]).update(
            to + 2,
            oam[from + 2],
        ).update(to + 3, oam[from + 3])
    } else {
        secondary
    }
}

/// What the evaluation has found after a dot. The line before the first
/// starts with nothing found; dot 257 hands sprite zero over to the
/// scanline that follows.
pub open spec fn sprite_line_after_dot(
    registers: PpuRegisters,
    timing: Timing,
    oam: Seq<u8>,
    line: SpriteLine,
) -> SpriteLine {
    if spec_clears_flags(timing) {
        SpriteLine { count: 0, zero_found: false, ..line }
    } else if active_at(registers, timing) && evaluates(timing) {
        SpriteLine {
            count: if finds_sprite(registers, timing, oam) && found_before(timing, line) < 8 {
                (found_before(timing, line) + 1) as u8
            } else {
                found_before(timing, line)
            },
            zero_found: (timing.dot != 65 && line.zero_found) || (finds_sprite(
                registers,
                timing,
                oam,
            ) && timing.dot == 65),
            ..line
        }
    } else if active_at(registers, timing) && timing.dot == 257 {
        SpriteLine { zero_on_line: line.zero_found, ..line }
    } else {
        line
    }
}

/// Whether a dot finds a ninth sprite on the scanline.
pub open spec fn overflows_at(
    registers: PpuRegisters,
    timing: Timing,
    oam: Seq<u8>,
    line: SpriteLine,
) -> bool {
    finds_sprite(registers, timing, oam) && found_before(timing, line) >= 8
}

/// The unit that a dot loads: the row of the sprite in its slot of the
/// scanline's sprite memory, or an empty unit where the slot holds no
/// sprite of this scanline.
pub open spec fn fetched_unit(
    bus: PpuCartridgeAddressBus,
    registers: PpuRegisters,
    timing: Timing,
    secondary: Seq<u8>,
    line: SpriteLine,
) -> SpriteUnit {
    let slot = 4 * loaded_unit(timing);
    let y = secondary[slot];
    let tile = secondary[slot + 1];
    let attributes = secondary[slot + 2];
    if loaded_unit(timing) < line.count && spec_on_scanline(registers, y, timing.scanline) {
        let address = spec_sprite_pattern_address(registers, y, tile, attributes, timing.scanline);
        SpriteUnit {
            pattern_low: bus.spec_read_byte(address),
            pattern_high: bus.spec_read_byte((address + 8) as u16),
            attributes,
            x: secondary[slot + 3],
        }
    } else {
        spec_empty_unit()
    }
}

/// The sprite units after a dot.
pub open spec fn units_after_dot(
    bus: PpuCartridgeAddressBus,
    registers: PpuRegisters,
    timing: Timing,
    secondary: Seq<u8>,
    line: SpriteLine,
    units: Seq<SpriteUnit>,
) -> Seq<SpriteUnit> {
    if active_at(registers, timing) && loads_unit(timing) {
        units.update(loaded_unit(timing), fetched_unit(bus, registers, timing, secondary, line))
    } else {
        units
    }
}

/// The byte that the background fetches at a dot, 0 where it does not fetch.
pub open spec fn fetched_byte(
    bus: PpuCartridgeAddressBus,
    registers: PpuRegisters,
    background: Background,
    timing: Timing,
) -> u8 {
    match spec_background_fetch(registers, background, timing.dot) {
        Some(address) => bus.spec_read_byte(address),
        None => 0,
    }
}

/// The background after a dot.
pub open spec fn background_after(
    bus: PpuCartridgeAddressBus,
    registers: PpuRegisters,
    background: Background,
    timing: Timing,
) -> Background {
    if active_at(registers, timing) {
        spec_background_after_dot(
            registers,
            background,
            timing.dot,
            fetched_byte(bus, registers, background, timing),
        )
    } else {
        background
    }
}

impl Ppu {
    /// Whether the pipeline runs at this dot.
    pub open spec fn active(&self) -> bool {
        active_at(self.registers, self.timing)
    }

    /// The background after this dot.
    pub open spec fn background_after(&self) -> Background {
        background_after(self.chr_address_bus, self.registers, self.background, self.timing)
    }

    /// The column of the pixel that this dot draws.
    pub open spec fn column(&self) -> u8 {
        (self.timing.dot - 1) as u8
    }

    /// The frame after this dot: on the 256 drawing dots of a visible
    /// scanline, one pixel changes.
    pub open spec fn framebuffer_after(&self) -> Seq<u32> {
        if spec_draws_pixel(self.timing) {
            self.framebuffer@.update(
                self.timing.scanline * 256 + self.column(),
                pixel_of(
                    self.registers,
                    self.background_after(),
                    self.units,
                    self.sprite_line.zero_on_line,
                    self.palette@,
                    self.column(),
                ),
            )
        } else {
            self.framebuffer@
        }
    }

    /// Whether this dot is a sprite-zero hit.
    pub open spec fn hits(&self) -> bool {
        spec_draws_pixel(self.timing) && hit_at(
            self.registers,
            self.background_after(),
            self.units,
            self.sprite_line.zero_on_line,
            self.column(),
        )
    }

    /// The registers after this dot. The vertical blank flag is set at dot
    /// 1 of scanline 241; it and the two sprite flags are cleared at dot 1
    /// of scanline 261.
    pub open spec fn registers_after_dot(&self) -> PpuRegisters {
        PpuRegisters {
            v: if self.active() {
                spec_v_after_dot(self.registers, self.timing)
            } else {
                self.registers.v
            },
            vblank: if spec_starts_vblank(self.timing) {
                true
            } else if spec_clears_flags(self.timing) {
                false
            } else {
                self.registers.vblank
            },
            sprite_zero_hit: !spec_clears_flags(self.timing) && (self.registers.sprite_zero_hit
                || self.hits()),
            sprite_overflow: !spec_clears_flags(self.timing) && (self.registers.sprite_overflow
                || overflows_at(self.registers, self.timing, self.oam@, self.sprite_line)),
            ..self.registers
        }
    }

    /// Whether `post` is this unit one dot later.
    pub open spec fn ticked(self, post: Ppu) -> bool {
        &&& post.timing == spec_next_timing(self.timing)
        &&& post.registers == self.registers_after_dot()
        &&& post.background == self.background_after()
        &&& post.framebuffer@ == self.framebuffer_after()
        &&& post.secondary_oam@ == secondary_after_dot(
            self.registers,
            self.timing,
            self.oam@,
            self.secondary_oam@,
            self.sprite_line,
        )
        &&& post.units@ == units_after_dot(
            self.chr_address_bus,
            self.registers,
            self.timing,
            self.secondary_oam@,
            self.sprite_line,
            self.units@,
        )
        &&& post.sprite_line == sprite_line_after_dot(
            self.registers,
            self.timing,
            self.oam@,
            self.sprite_line,
        )
        &&& post.nmi_edge == (self.nmi_edge || (spec_starts_vblank(self.timing) && spec_nmi_enabled(
            self.registers,
        )))
        &&& post.frame_complete == (self.frame_complete || spec_completes_frame(self.timing))
        &&& post.oam == self.oam
        &&& post.palette == self.palette
        &&& post.chr_address_bus == self.chr_address_bus
    }
}

impl Ppu {
    /// The background half of one dot on which the pipeline runs. Returns
    /// the address `v` that the dot leaves.
    fn background_dot(&mut self) -> (v: u16)
        requires
            old(self).wf(),
            old(self).active(),
        ensures
            final(self).wf(),
            v == spec_v_after_dot(old(self).registers, old(self).timing),
            v < 0x8000,
            final(self).background == old(self).background_after(),
            *final(self) == (Ppu { background: final(self).background, ..*old(self) }),
    {
        let fetched = match background_fetch(self.registers, self.background, self.timing.dot) {
            Some(address) => self.chr_address_bus.read_byte(address),
            None => 0,
        };
        self.background = background_after_dot(
            self.registers,
            self.background,
            self.timing.dot,
            fetched,
        );
        v_after_dot(self.registers, self.timing)
    }

    /// Draws the pixel of a drawing dot. Returns whether it is a
    /// sprite-zero hit.
    fn pixel_dot(&mut self) -> (hit: bool)
        requires
            old(self).wf(),
            spec_draws_pixel(old(self).timing),
        ensures
            final(self).wf(),
            hit == hit_at(
                old(self).registers,
                old(self).background,
                old(self).units,
                old(self).sprite_line.zero_on_line,
                old(self).column(),
            ),
            final(self).framebuffer@ == old(self).framebuffer@.update(
                old(self).timing.scanline * 256 + old(self).column(),
                pixel_of(
                    old(self).registers,
                    old(self).background,
                    old(self).units,
                    old(self).sprite_line.zero_on_line,
                    old(self).palette@,
                    old(self).column(),
                ),
            ),
            final(self).registers == old(self).registers,
            final(self).timing == old(self).timing,
            final(self).background == old(self).background,
            final(self).secondary_oam == old(self).secondary_oam,
            final(self).units == old(self).units,
            final(self).sprite_line == old(self).sprite_line,
            final(self).oam == old(self).oam,
            final(self).palette == old(self).palette,
            final(self).chr_address_bus == old(self).chr_address_bus,
            final(self).nmi_edge == old(self).nmi_edge,
            final(self).frame_complete == old(self).frame_complete,
    {
        let x = (self.timing.dot - 1) as u8;
        let pattern = background_pattern(self.registers, self.background, x);
        let sprite = sprite_pixel(self.registers, self.units, self.sprite_line.zero_on_line, x);
        let entry = multiplex(pattern, background_palette(self.registers, self.background), sprite);
        let colour = self.palette[palette_index(0x3F00 + entry as u16)];
        self.framebuffer[self.timing.scanline as usize * 256 + x as usize] = packed_pixel(
            self.registers,
            colour,
        );
        hits_sprite_zero(pattern, sprite, x)
    }

    /// The sprite half of one dot on which the pipeline runs: clears,
    /// evaluates or loads, as the dot asks. Returns whether a ninth sprite
    /// was found.
    fn sprite_dot(&mut self) -> (overflow: bool)
        requires
            old(self).wf(),
            old(self).active(),
        ensures
            final(self).wf(),
            overflow == overflows_at(
                old(self).registers,
                old(self).timing,
                old(self).oam@,
                old(self).sprite_line,
            ),
            final(self).secondary_oam@ == secondary_after_dot(
                old(self).registers,
                old(self).timing,
                old(self).oam@,
                old(self).secondary_oam@,
                old(self).sprite_line,
            ),
            final(self).units@ == units_after_dot(
                old(self).chr_address_bus,
                old(self).registers,
                old(self).timing,
                old(self).secondary_oam@,
                old(self).sprite_line,
                old(self).units@,
            ),
            final(self).sprite_line == sprite_line_after_dot(
                old(self).registers,
                old(self).timing,
                old(self).oam@,
                old(self).sprite_line,
            ),
            final(self).registers == old(self).registers,
            final(self).timing == old(self).timing,
            final(self).background == old(self).background,
            final(self).framebuffer == old(self).framebuffer,
            final(self).oam == old(self).oam,
            final(self).palette == old(self).palette,
            final(self).chr_address_bus == old(self).chr_address_bus,
            final(self).nmi_edge == old(self).nmi_edge,
            final(self).frame_complete == old(self).frame_complete,
    {
        let dot = self.timing.dot;
        let scanline = self.timing.scanline;
        let mut overflow = false;
        if clears_flags(self.timing) {
            self.sprite_line.count = 0;
            self.sprite_line.zero_found = false;
            self.secondary_oam[((dot - 1) / 2) as usize] = 0xFF;
        } else if 1 <= dot && dot <= 64 {
            self.secondary_oam[((dot - 1) / 2) as usize] = 0xFF;
        } else if scanline < 240 && 65 <= dot && dot <= 256 && (dot - 65) % 3 == 0 {
            let sprite = ((dot - 65) / 3) as usize;
            if dot == 65 {
                self.sprite_line.count = 0;
                self.sprite_line.zero_found = false;
            }
            if on_scanline(self.registers, self.oam[4 * sprite], scanline) {
                if self.sprite_line.count < 8 {
                    let to = 4 * self.sprite_line.count as usize;
                    self.secondary_oam[to] = self.oam[4 * sprite];
                    self.secondary_oam[to + 1] = self.oam[4 * sprite + 1];
                    self.secondary_oam[to + 2] = self.oam[4 * sprite + 2];
                    self.secondary_oam[to + 3] = self.oam[4 * sprite + 3];
                    self.sprite_line.count = self.sprite_line.count + 1;
                    if dot == 65 {
                        self.sprite_line.zero_found = true;
                    }
                } else {
                    overflow = true;
                }
            }
        } else if dot == 257 {
            self.sprite_line.zero_on_line = self.sprite_line.zero_found;
        } else if 257 <= dot && dot <= 320 && (dot - 257) % 8 == 7 {
            let unit = ((dot - 257) / 8) as usize;
            let slot = 4 * unit;
            let y = self.secondary_oam[slot];
            let tile = self.secondary_oam[slot + 1];
            let attributes = self.secondary_oam[slot + 2];
            let x = self.secondary_oam[slot + 3];
            if unit < self.sprite_line.count as usize && on_scanline(self.registers, y, scanline) {
                let address = sprite_pattern_address(self.registers, y, tile, attributes, scanline);
                let pattern_low = self.chr_address_bus.read_byte(address);
                let pattern_high = self.chr_address_bus.read_byte(address + 8);
                self.units[unit] = SpriteUnit { pattern_low, pattern_high, attributes, x };
            } else {
                self.units[unit] = empty_unit();
            }
        }
        overflow
    }

    /// Advances the picture unit by one dot: the background shifts and
    /// fetches, a pixel is drawn, the sprites of the next scanline are
    /// gathered, the flags of the frame are set or cleared, and the
    /// position moves on.
    pub fn tick(&mut self)
        requires
            old(self).wf(),
        ensures
            final(self).wf(),
            old(self).ticked(*final(self)),
    {
        let timing = self.timing;
        let registers = self.registers;
        let active = rendering(registers) && on_render_line(timing);
        let v = if active {
            self.background_dot()
        } else {
            registers.v
        };
        let hit = if draws_pixel(timing) {
            self.pixel_dot()
        } else {
            false
        };
        let overflow = if active {
            self.sprite_dot()
        } else {
            if clears_flags(timing) {
                self.sprite_line.count = 0;
                self.sprite_line.zero_found = false;
            }
            false
        };
        let clears = clears_flags(timing);
        self.registers = PpuRegisters {
            v,
            vblank: if starts_vblank(timing) {
                true
            } else if clears {
                false
            } else {
                registers.vblank
            },
            sprite_zero_hit: !clears && (registers.sprite_zero_hit || hit),
            sprite_overflow: !clears && (registers.sprite_overflow || overflow),
            ..registers
        };
        if starts_vblank(timing) && nmi_enabled(registers) {
            self.nmi_edge = true;
        }
        if completes_frame(timing) {
            self.frame_complete = true;
        }
        self.timing = next_timing(timing);
    }
}

} // verus!
