//! The CPU's bus: one 16-bit address space that leads to the work RAM, the
//! registers of the picture unit, of the audio unit and of the controllers,
//! and the cartridge.
use vstd::prelude::*;
use crate::apu::Apu;
use crate::cartridge::mappers::{zeroed, zeroes};
use crate::cartridge::CpuCartridgeAddressBus;
use crate::io::{
    Controller, Io, io_after_read, spec_io_after_read, io_after_write, spec_io_after_write,
    port_value, spec_port_value,
};
use crate::ppu::registers::{register_index, spec_register_index};
use crate::ppu::{Ppu, OAM_SIZE};

verus! {

/// Bytes of work RAM.
pub const RAM_SIZE: usize = 0x800;

/// The address of the register that starts a copy into sprite memory.
pub const OAM_DMA: u16 = 0x4014;

/// The byte of work RAM that an address below `$2000` names: the RAM
/// repeats every 2 KiB.
pub open spec fn spec_ram_index(address: u16) -> usize {
    (address % 0x800) as usize
}

/// The byte of work RAM that an address below `$2000` names: the RAM
/// repeats every 2 KiB.
pub fn ram_index(address: u16) -> (result: usize)
    ensures
        result == spec_ram_index(address),
{
    (address % 0x800) as usize
}

/// For how many cycles a copy into sprite memory that starts in cycle
/// `cycles` halts the processor: 513, and one more from an odd cycle.
pub open spec fn spec_dma_cycles(cycles: u32) -> u16 {
    if cycles % 2 == 1 {
        514
    } else {
        513
    }
}

/// For how many cycles a copy into sprite memory that starts in cycle
/// `cycles` halts the processor: 513, and one more from an odd cycle.
pub fn dma_cycles(cycles: u32) -> (result: u16)
    ensures
        result == spec_dma_cycles(cycles),
{
    if cycles % 2 == 1 {
        514
    } else {
        513
    }
}

/// The bus of the processor and what hangs on it.
pub struct Mmu {
    pub ram: Vec<u8>,
    pub ppu: Ppu,
    pub apu: Apu,
    pub io: Io,
    pub prg_address_bus: CpuCartridgeAddressBus,
    /// Cycles for which a copy into sprite memory still halts the processor.
    pub dma_stall: u16,
}

impl Mmu {
    /// The RAM has its size, and the picture unit and the cartridge are
    /// well formed.
    pub open spec fn wf(&self) -> bool {
        &&& self.ram@.len() == RAM_SIZE
        &&& self.ppu.wf()
        &&& self.prg_address_bus.wf()
    }

    /// The byte that a read of `address` returns.
    pub open spec fn spec_read_byte(&self, address: u16) -> u8 {
        if address < 0x2000 {
            self.ram@[spec_ram_index(address) as int]
        } else if address < 0x4000 {
            self.ppu.register_value(spec_register_index(address))
        } else if address == 0x4016 {
            spec_port_value(self.io, Controller::One)
        } else if address == 0x4017 {
            spec_port_value(self.io, Controller::Two)
        } else if address < 0x4020 {
            0
        } else {
            self.prg_address_bus.spec_read_byte(address)
        }
    }

    /// Whether `post` is this bus after a read of `address`. A read changes
    /// the picture unit's registers when it is one of theirs, and a
    /// controller when it is a read of its port; it changes nothing else.
    pub open spec fn read(self, post: Mmu, address: u16) -> bool {
        &&& post.ram == self.ram
        &&& post.apu == self.apu
        &&& post.prg_address_bus == self.prg_address_bus
        &&& post.dma_stall == self.dma_stall
        &&& if 0x2000 <= address < 0x4000 {
            &&& post.ppu.registers == self.ppu.registers_after_read(spec_register_index(address))
            &&& self.ppu.same_but_registers(post.ppu)
        } else {
            post.ppu == self.ppu
        }
        &&& post.io == (if address == 0x4016 {
            spec_io_after_read(self.io, Controller::One)
        } else if address == 0x4017 {
            spec_io_after_read(self.io, Controller::Two)
        } else {
            self.io
        })
    }

    /// Sprite memory after a copy of page `page` into it: 256 bytes, as a
    /// read of each would return them, land from the sprite address on,
    /// wrapping round.
    pub open spec fn oam_after_dma(&self, page: u8) -> Seq<u8> {
        Seq::new(
            OAM_SIZE as nat,
            |entry: int|
                self.spec_read_byte(
                    (page * 256 + (entry + 256 - self.ppu.registers.oam_address) % 256) as u16,
                ),
        )
    }

    /// Whether `post` is this bus after a write of `value` to `address` in
    /// cycle `cycles`.
    pub open spec fn wrote(self, post: Mmu, address: u16, value: u8, cycles: u32) -> bool {
        &&& post.ram@ == (if address < 0x2000 {
            self.ram@.update(spec_ram_index(address) as int, value)
        } else {
            self.ram@
        })
        &&& if 0x2000 <= address < 0x4000 {
            self.ppu.wrote_register(post.ppu, spec_register_index(address), value, cycles)
        } else if address == OAM_DMA {
            &&& post.ppu.oam@ == self.oam_after_dma(value)
            &&& post.ppu.chr_address_bus == self.ppu.chr_address_bus
            &&& post.ppu.registers == self.ppu.registers
            &&& post.ppu.secondary_oam == self.ppu.secondary_oam
            &&& post.ppu.palette == self.ppu.palette
            &&& post.ppu.timing == self.ppu.timing
            &&& post.ppu.background == self.ppu.background
            &&& post.ppu.units == self.ppu.units
            &&& post.ppu.sprite_line == self.ppu.sprite_line
            &&& post.ppu.framebuffer == self.ppu.framebuffer
            &&& post.ppu.nmi_edge == self.ppu.nmi_edge
            &&& post.ppu.frame_complete == self.ppu.frame_complete
        } else if address >= 0x4020 {
            &&& self.ppu.chr_address_bus.cpu_wrote(post.ppu.chr_address_bus, address, value, cycles)
            &&& post.ppu.registers == self.ppu.registers
            &&& post.ppu.oam == self.ppu.oam
            &&& post.ppu.secondary_oam == self.ppu.secondary_oam
            &&& post.ppu.palette == self.ppu.palette
            &&& post.ppu.timing == self.ppu.timing
            &&& post.ppu.background == self.ppu.background
            &&& post.ppu.units == self.ppu.units
            &&& post.ppu.sprite_line == self.ppu.sprite_line
            &&& post.ppu.framebuffer == self.ppu.framebuffer
            &&& post.ppu.nmi_edge == self.ppu.nmi_edge
            &&& post.ppu.frame_complete == self.ppu.frame_complete
        } else {
            post.ppu == self.ppu
        }
        &&& post.apu.registers@ == (if 0x4000 <= address < 0x4018 && address != OAM_DMA && address
            != 0x4016 {
            self.apu.registers@.update(address - 0x4000, value)
        } else {
            self.apu.registers@
        })
        &&& post.io == (if address == 0x4016 {
            spec_io_after_write(self.io, value)
        } else {
            self.io
        })
        &&& if address >= 0x4020 {
            self.prg_address_bus.wrote(post.prg_address_bus, address, value, cycles)
        } else {
            post.prg_address_bus == self.prg_address_bus
        }
        &&& post.dma_stall == (if address == OAM_DMA {
            spec_dma_cycles(cycles)
        } else {
            self.dma_stall
        })
    }

    /// A bus with zeroed work RAM over the given units and cartridge.
    pub fn new(prg_address_bus: CpuCartridgeAddressBus, apu: Apu, io: Io, ppu: Ppu) -> (mmu: Mmu)
        requires
            prg_address_bus.wf(),
            ppu.wf(),
        ensures
            mmu.wf(),
            mmu.ram@ == zeroes(RAM_SIZE as nat),
            mmu.ppu == ppu,
            mmu.apu == apu,
            mmu.io == io,
            mmu.prg_address_bus == prg_address_bus,
            mmu.dma_stall == 0,
    {
        Mmu { ram: zeroed(RAM_SIZE), ppu, apu, io, prg_address_bus, dma_stall: 0 }
    }

    /// The byte that a read of `address` would return, without the read.
    pub fn peek_byte(&self, address: u16) -> (value: u8)
        requires
            self.wf(),
        ensures
            value == self.spec_read_byte(address),
    {
        if address < 0x2000 {
            self.ram[ram_index(address)]
        } else if address < 0x4000 {
            self.ppu.peek_register(register_index(address))
        } else if address == 0x4016 {
            port_value(self.io, Controller::One)
        } else if address == 0x4017 {
            port_value(self.io, Controller::Two)
        } else if address < 0x4020 {
            0
        } else {
            self.prg_address_bus.read_byte(address)
        }
    }

    /// Reads the byte at `address`.
    pub fn read_byte(&mut self, address: u16) -> (value: u8)
        requires
            old(self).wf(),
        ensures
            final(self).wf(),
            value == old(self).spec_read_byte(address),
            old(self).read(*final(self), address),
    {
        if address < 0x2000 {
            self.ram[ram_index(address)]
        } else if address < 0x4000 {
            self.ppu.read_register(register_index(address))
        } else if address == 0x4016 {
            self.io.read_byte(Controller::One)
        } else if address == 0x4017 {
            self.io.read_byte(Controller::Two)
        } else if address < 0x4020 {
            0
        } else {
            self.prg_address_bus.read_byte(address)
        }
    }

    /// Copies page `page` into sprite memory.
    fn copy_to_oam(&mut self, page: u8)
        requires
            old(self).wf(),
        ensures
            final(self).wf(),
            final(self).ppu.oam@ == old(self).oam_after_dma(page),
            final(self).ppu.chr_address_bus == old(self).ppu.chr_address_bus,
            final(self).ppu.registers == old(self).ppu.registers,
            final(self).ppu.secondary_oam == old(self).ppu.secondary_oam,
            final(self).ppu.palette == old(self).ppu.palette,
            final(self).ppu.timing == old(self).ppu.timing,
            final(self).ppu.background == old(self).ppu.background,
            final(self).ppu.units == old(self).ppu.units,
            final(self).ppu.sprite_line == old(self).ppu.sprite_line,
            final(self).ppu.framebuffer == old(self).ppu.framebuffer,
            final(self).ppu.nmi_edge == old(self).ppu.nmi_edge,
            final(self).ppu.frame_complete == old(self).ppu.frame_complete,
            final(self).ram == old(self).ram,
            final(self).apu == old(self).apu,
            final(self).io == old(self).io,
            final(self).prg_address_bus == old(self).prg_address_bus,
            final(self).dma_stall == old(self).dma_stall,
    {
        let start = self.ppu.registers.oam_address as usize;
        let mut bytes: Vec<u8> = Vec::new();
        let mut entry: usize = 0;
        while entry < OAM_SIZE
            invariant
                0 <= entry <= OAM_SIZE,
                self.wf(),
                *self == *old(self),
                start == self.ppu.registers.oam_address,
                bytes@.len() == entry,
                forall|k: int|
                    0 <= k < entry ==> bytes@[k] == #[trigger] self.oam_after_dma(page)[k],
            decreases OAM_SIZE - entry,
        {
            let from = (entry + 256 - start) % 256;
            bytes.push(self.peek_byte(page as u16 * 256 + from as u16));
            entry += 1;
        }
        assert(bytes@ =~= old(self).oam_after_dma(page));
        self.ppu.oam = bytes;
    }

    /// Writes `value` to `address` in CPU cycle `cycles`.
    pub fn write_byte(&mut self, address: u16, value: u8, cycles: u32)
        requires
            old(self).wf(),
        ensures
            final(self).wf(),
            old(self).wrote(*final(self), address, value, cycles),
    {
        if address < 0x2000 {
            self.ram[ram_index(address)] = value;
        } else if address < 0x4000 {
            self.ppu.write_register(register_index(address), value, cycles);
        } else if address == OAM_DMA {
            self.copy_to_oam(value);
            self.dma_stall = dma_cycles(cycles);
        } else if address == 0x4016 {
            self.io.write_byte(value);
        } else if address < 0x4018 {
            self.apu.write_byte(address, value);
        } else if address >= 0x4020 {
            self.prg_address_bus.write_byte(address, value, cycles);
            self.ppu.chr_address_bus.cpu_write_byte(address, value, cycles);
        }
    }
}

/// A byte written to work RAM is the byte read back, at the address written
/// and at each of its three mirrors.
pub proof fn lemma_ram_write_then_read(
    before: Mmu,
    after: Mmu,
    address: u16,
    value: u8,
    cycles: u32,
)
    requires
        before.wf(),
        address < 0x2000,
        before.wrote(after, address, value, cycles),
    ensures
        after.spec_read_byte(address) == value,
        forall|mirror: u16|
            mirror < 0x2000 && mirror % 0x800 == address % 0x800 ==> after.spec_read_byte(mirror)
                == value,
{
}

/// An address of work RAM and its three mirrors, `$800`, `$1000` and `$1800`
/// above, read the same byte.
pub proof fn lemma_ram_mirrors(mmu: Mmu, address: u16)
    requires
        address < 0x800,
    ensures
        mmu.spec_read_byte(address) == mmu.spec_read_byte((address + 0x800) as u16),
        mmu.spec_read_byte(address) == mmu.spec_read_byte((address + 0x1000) as u16),
        mmu.spec_read_byte(address) == mmu.spec_read_byte((address + 0x1800) as u16),
{
}

/// An address of the picture unit's register window and the address `8 * k`
/// above it are one register: reads return the same byte and have the same
/// effect, and so have writes.
pub proof fn lemma_ppu_registers_alias(
    before: Mmu,
    after: Mmu,
    address: u16,
    k: nat,
    value: u8,
    cycles: u32,
)
    requires
        0x2000 <= address,
        address + 8 * k < 0x4000,
    ensures
        before.spec_read_byte(address) == before.spec_read_byte((address + 8 * k) as u16),
        before.read(after, address) == before.read(after, (address + 8 * k) as u16),
        before.wrote(after, address, value, cycles) == before.wrote(
            after,
            (address + 8 * k) as u16,
            value,
            cycles,
        ),
{
    crate::ppu::registers::lemma_register_window_repeats(address, k);
    let above = (address + 8 * k) as u16;
    assert(0x2000 <= above < 0x4000);
    assert(spec_register_index(address) == spec_register_index(above));
}

} // verus!
