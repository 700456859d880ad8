//! The picture unit: registers, memories, the dot clock and the pixel pipeline.
use vstd::prelude::*;
use crate::cartridge::mappers::{zeroed, zeroes};
use crate::cartridge::PpuCartridgeAddressBus;
use crate::ppu::registers::{
    PpuRegisters, after_address_write, spec_after_address_write, after_control_write,
    spec_after_control_write, after_data_access, spec_after_data_access, after_scroll_write,
    spec_after_scroll_write, after_status_read, spec_after_status_read, data_address,
    spec_data_address, palette_index, spec_palette_index, power_on_registers,
    spec_power_on_registers, registers_wf, status_byte, spec_status_byte,
};
use crate::ppu::render::{
    Background, SpriteUnit, empty_background, spec_empty_background, empty_unit, spec_empty_unit,
};
use crate::ppu::timing::{Timing, timing_wf};

pub mod dot;
pub mod registers;
pub mod render;
pub mod timing;

verus! {

/// Bytes of sprite memory.
pub const OAM_SIZE: usize = 0x100;

/// Bytes of the sprite memory of one scanline.
pub const SECONDARY_OAM_SIZE: usize = 0x20;

/// Entries of palette memory.
pub const PALETTE_SIZE: usize = 0x20;

/// Pixels of a frame: 256 by 240.
pub const FRAME_SIZE: usize = 0xF000;

/// What the sprite evaluation of a scanline has found.
#[derive(Clone, Copy, Debug)]
pub struct SpriteLine {
    /// Sprites found so far for the next scanline, 0 to 8.
    pub count: u8,
    /// Sprite zero is among those found for the next scanline.
    pub zero_found: bool,
    /// Sprite zero is in unit 0 on this scanline.
    pub zero_on_line: bool,
}

/// The picture unit.
pub struct Ppu {
    pub chr_address_bus: PpuCartridgeAddressBus,
    pub registers: PpuRegisters,
    pub oam: Vec<u8>,
    pub secondary_oam: Vec<u8>,
    pub palette: Vec<u8>,
    pub timing: Timing,
    pub background: Background,
    pub units: [SpriteUnit; 8],
    pub sprite_line: SpriteLine,
    /// 256 by 240 packed pixels, row by row.
    pub framebuffer: Vec<u32>,
    /// The vertical blank raised an NMI that the processor has not taken yet.
    pub nmi_edge: bool,
    /// A frame was completed since the flag was last cleared.
    pub frame_complete: bool,
}

impl Ppu {
    /// The memories have their sizes, the registers their bits, the palette
    /// holds colours of six bits, and the position lies inside the frame.
    pub open spec fn wf(&self) -> bool {
        &&& self.chr_address_bus.wf()
        &&& registers_wf(self.registers)
        &&& timing_wf(self.timing)
        &&& self.oam@.len() == OAM_SIZE
        &&& self.secondary_oam@.len() == SECONDARY_OAM_SIZE
        &&& self.palette@.len() == PALETTE_SIZE
        &&& self.framebuffer@.len() == FRAME_SIZE
        &&& self.sprite_line.count <= 8
        &&& forall|i: int| 0 <= i < PALETTE_SIZE ==> #[trigger] self.palette@[i] < 64
    }

    /// The address that a read of `$2007` fills the read buffer from: the
    /// address itself below the palette, and the name table under the
    /// palette from `$3F00` up.
    pub open spec fn buffer_source(&self) -> u16 {
        if spec_data_address(self.registers) < 0x3F00 {
            spec_data_address(self.registers)
        } else {
            (spec_data_address(self.registers) - 0x1000) as u16
        }
    }

    /// The byte that a read of register `index` returns. The status
    /// register, sprite data and video data can be read; the other
    /// registers read as 0. Video data below the palette comes from the
    /// read buffer, one read late; palette entries come at once.
    pub open spec fn register_value(&self, index: u8) -> u8 {
        if index == 2 {
            spec_status_byte(self.registers)
        } else if index == 4 {
            self.oam@[self.registers.oam_address as int]
        } else if index == 7 {
            if spec_data_address(self.registers) < 0x3F00 {
                self.registers.read_buffer
            } else {
                self.palette@[spec_palette_index(spec_data_address(self.registers)) as int]
            }
        } else {
            0
        }
    }

    /// The registers after a read of register `index`. A read of the status
    /// register clears the vertical blank flag and the write toggle; a read
    /// of video data refills the read buffer and moves `v` on.
    pub open spec fn registers_after_read(&self, index: u8) -> PpuRegisters {
        if index == 2 {
            spec_after_status_read(self.registers)
        } else if index == 7 {
            spec_after_data_access(
                PpuRegisters {
                    read_buffer: self.chr_address_bus.spec_read_byte(self.buffer_source()),
                    ..self.registers
                },
            )
        } else {
            self.registers
        }
    }

    /// Whether `post` differs from this unit in its registers at most.
    pub open spec fn same_but_registers(self, post: Ppu) -> bool {
        post == (Ppu { registers: post.registers, ..self })
    }

    /// The registers after a write of `value` to register `index`.
    pub open spec fn registers_after_write(&self, index: u8, value: u8) -> PpuRegisters {
        if index == 0 {
            spec_after_control_write(self.registers, value)
        } else if index == 1 {
            PpuRegisters { mask: value, ..self.registers }
        } else if index == 3 {
            PpuRegisters { oam_address: value, ..self.registers }
        } else if index == 4 {
            PpuRegisters {
                oam_address: ((self.registers.oam_address + 1) % 256) as u8,
                ..self.registers
            }
        } else if index == 5 {
            spec_after_scroll_write(self.registers, value)
        } else if index == 6 {
            spec_after_address_write(self.registers, value)
        } else if index == 7 {
            spec_after_data_access(self.registers)
        } else {
            self.registers
        }
    }

    /// Whether `post` is this unit after a write of `value` to register
    /// `index`. Besides the registers, a write of sprite data changes one
    /// byte of sprite memory, and a write of video data one entry of palette
    /// memory, kept to six bits, or one byte behind the cartridge's bus.
    pub open spec fn wrote_register(self, post: Ppu, index: u8, value: u8, cycles: u32) -> bool {
        &&& post.registers == self.registers_after_write(index, value)
        &&& post.oam@ == (if index == 4 {
            self.oam@.update(self.registers.oam_address as int, value)
        } else {
            self.oam@
        })
        &&& post.palette@ == (if index == 7 && spec_data_address(self.registers) >= 0x3F00 {
            self.palette@.update(
                spec_palette_index(spec_data_address(self.registers)) as int,
                (value % 64) as u8,
            )
        } else {
            self.palette@
        })
        &&& if index == 7 && spec_data_address(self.registers) < 0x3F00 {
            self.chr_address_bus.wrote(
                post.chr_address_bus,
                spec_data_address(self.registers),
                value,
                cycles,
            )
        } else {
            post.chr_address_bus == self.chr_address_bus
        }
        &&& post.secondary_oam == self.secondary_oam
        &&& post.timing == self.timing
        &&& post.background == self.background
        &&& post.units == self.units
        &&& post.sprite_line == self.sprite_line
        &&& post.framebuffer == self.framebuffer
        &&& post.nmi_edge == self.nmi_edge
        &&& post.frame_complete == self.frame_complete
    }

    /// A picture unit at power-on over the cartridge's bus: registers and
    /// memories clear, at dot 0 of scanline 0.
    pub fn new(chr_address_bus: PpuCartridgeAddressBus) -> (ppu: Ppu)
        requires
            chr_address_bus.wf(),
        ensures
            ppu.wf(),
            ppu.chr_address_bus == chr_address_bus,
            ppu.registers == spec_power_on_registers(),
            ppu.oam@ == zeroes(OAM_SIZE as nat),
            ppu.secondary_oam@ == zeroes(SECONDARY_OAM_SIZE as nat),
            ppu.palette@ == zeroes(PALETTE_SIZE as nat),
            ppu.timing == (Timing { dot: 0, scanline: 0, odd_frame: false }),
            ppu.background == spec_empty_background(),
            forall|unit: int| 0 <= unit < 8 ==> ppu.units[unit] == spec_empty_unit(),
            ppu.sprite_line == (SpriteLine { count: 0, zero_found: false, zero_on_line: false }),
            ppu.framebuffer@ == Seq::new(FRAME_SIZE as nat, |i: int| 0u32),
            !ppu.nmi_edge,
            !ppu.frame_complete,
    {
        let framebuffer = vec![0u32; FRAME_SIZE];
        assert(framebuffer@ =~= Seq::new(FRAME_SIZE as nat, |i: int| 0u32));
        Ppu {
            chr_address_bus,
            registers: power_on_registers(),
            oam: zeroed(OAM_SIZE),
            secondary_oam: zeroed(SECONDARY_OAM_SIZE),
            palette: zeroed(PALETTE_SIZE),
            timing: Timing { dot: 0, scanline: 0, odd_frame: false },
            background: empty_background(),
            units: [empty_unit(); 8],
            sprite_line: SpriteLine { count: 0, zero_found: false, zero_on_line: false },
            framebuffer,
            nmi_edge: false,
            frame_complete: false,
        }
    }

    /// Reads register `index` of the window `$2000-$2007`.
    pub fn read_register(&mut self, index: u8) -> (value: u8)
        requires
            old(self).wf(),
            index < 8,
        ensures
            final(self).wf(),
            value == old(self).register_value(index),
            final(self).registers == old(self).registers_after_read(index),
            old(self).same_but_registers(*final(self)),
    {
        proof {
            crate::ppu::registers::lemma_writes_keep_registers_wf(self.registers, 0);
        }
        if index == 2 {
            let value = status_byte(self.registers);
            self.registers = after_status_read(self.registers);
            value
        } else if index == 4 {
            self.oam[self.registers.oam_address as usize]
        } else if index == 7 {
            let address = data_address(self.registers);
            let value = if address < 0x3F00 {
                let buffered = self.registers.read_buffer;
                self.registers.read_buffer = self.chr_address_bus.read_byte(address);
                buffered
            } else {
                self.registers.read_buffer = self.chr_address_bus.read_byte(address - 0x1000);
                self.palette[palette_index(address)]
            };
            proof {
                crate::ppu::registers::lemma_writes_keep_registers_wf(self.registers, 0);
            }
            self.registers = after_data_access(self.registers);
            value
        } else {
            0
        }
    }

    /// Writes `value` to register `index` of the window `$2000-$2007`, in
    /// CPU cycle `cycles`.
    pub fn write_register(&mut self, index: u8, value: u8, cycles: u32)
        requires
            old(self).wf(),
            index < 8,
        ensures
            final(self).wf(),
            old(self).wrote_register(*final(self), index, value, cycles),
    {
        proof {
            crate::ppu::registers::lemma_writes_keep_registers_wf(self.registers, value);
        }
        if index == 0 {
            self.registers = after_control_write(self.registers, value);
        } else if index == 1 {
            self.registers.mask = value;
        } else if index == 3 {
            self.registers.oam_address = value;
        } else if index == 4 {
            self.oam[self.registers.oam_address as usize] = value;
            self.registers.oam_address = if self.registers.oam_address == 255 {
                0
            } else {
                self.registers.oam_address + 1
            };
        } else if index == 5 {
            self.registers = after_scroll_write(self.registers, value);
        } else if index == 6 {
            self.registers = after_address_write(self.registers, value);
        } else if index == 7 {
            let address = data_address(self.registers);
            if address < 0x3F00 {
                self.chr_address_bus.write_byte(address, value, cycles);
            } else {
                self.palette[palette_index(address)] = value % 64;
            }
            self.registers = after_data_access(self.registers);
        }
    }

    /// The byte that a read of register `index` would return, without the
    /// read.
    pub fn peek_register(&self, index: u8) -> (value: u8)
        requires
            self.wf(),
            index < 8,
        ensures
            value == self.register_value(index),
    {
        if index == 2 {
            status_byte(self.registers)
        } else if index == 4 {
            self.oam[self.registers.oam_address as usize]
        } else if index == 7 {
            let address = data_address(self.registers);
            if address < 0x3F00 {
                self.registers.read_buffer
            } else {
                self.palette[palette_index(address)]
            }
        } else {
            0
        }
    }

    /// Whether a frame was completed since the flag was last cleared.
    pub fn is_frame_complete(&self) -> (complete: bool)
        ensures
            complete == self.frame_complete,
    {
        self.frame_complete
    }

    /// The frame as 256 by 240 packed pixels, row by row.
    pub fn get_framebuffer(&self) -> (framebuffer: &Vec<u32>)
        ensures
            framebuffer@ == self.framebuffer@,
    {
        &self.framebuffer
    }
}

} // verus!
