//! The machine: the processor, its bus and the picture unit, stepped one
//! CPU cycle at a time.
use vstd::prelude::*;
use crate::apu::Apu;
use crate::cartridge::loader::{from_bytes, load_error, loaded};
use crate::cartridge::mappers::mmc1::{cycle_after, spec_cycle_after};
use crate::cartridge::mappers::zeroes;
use crate::cartridge::CartridgeError;
use crate::cpu::opcodes::Opcode;
use crate::cpu::registers::{Registers, dec16, spec_dec16, inc16, spec_inc16};
use crate::cpu::status_flags::{status_bits, spec_status_bits};
use crate::cpu::{BusOperation, Core, Cpu, CpuState};
use crate::io::{Button, Controller, Io, io_with_button, spec_io_with_button};
use crate::mmu::{Mmu, RAM_SIZE};
use crate::ppu::registers::{palette_index, spec_palette_index};
use crate::ppu::{Ppu, OAM_SIZE};

verus! {

/// The core at power-on: a reset is pending, and the registers hold their
/// power-on values until the reset sequence has run.
pub open spec fn power_on_core() -> Core {
    Core {
        state: CpuState::FetchOpcode,
        registers: Registers::spec_power_on(),
        reset_pending: true,
        nmi_pending: false,
        irq_line: false,
    }
}

/// What a trace shows of an instruction that was just fetched.
#[derive(Clone, Copy, Debug)]
pub struct TraceLine {
    /// The address of the opcode.
    pub address: u16,
    pub opcode: Opcode,
    /// The byte after the opcode.
    pub first_operand: u8,
    /// The second byte after the opcode.
    pub second_operand: u8,
    pub a: u8,
    pub x: u8,
    pub y: u8,
    /// The status register as a byte, bit 5 set.
    pub status: u8,
    pub stack_pointer: u8,
    pub cycles: u32,
}

/// The opcode in a state that the fetch of an opcode has just left, if the
/// state is one.
pub open spec fn spec_fetched_in(state: CpuState) -> Option<Opcode> {
    match state {
        CpuState::ThrowawayRead { opcode, .. } => Some(opcode),
        CpuState::ReadingOperand {
            opcode,
            address_low_byte: None,
            address_high_byte: None,
            pointer: None,
            indirect_address_low_byte: None,
            indirect_address_high_byte: None,
            checked_page_boundary: false,
        } => Some(opcode),
        _ => None,
    }
}

/// The opcode in a state that the fetch of an opcode has just left, if the
/// state is one.
pub fn fetched_in(state: CpuState) -> (result: Option<Opcode>)
    ensures
        result == spec_fetched_in(state),
{
    match state {
        CpuState::ThrowawayRead { opcode, .. } => Some(opcode),
        CpuState::ReadingOperand {
            opcode,
            address_low_byte: None,
            address_high_byte: None,
            pointer: None,
            indirect_address_low_byte: None,
            indirect_address_high_byte: None,
            checked_page_boundary: false,
        } => Some(opcode),
        _ => None,
    }
}

/// Whether `after` is the picture unit three dots after `before`.
pub open spec fn three_dots(before: Ppu, after: Ppu) -> bool {
    exists|first: Ppu, second: Ppu|
        first.wf() && second.wf() && before.ticked(first) && #[trigger] first.ticked(second)
            && second.ticked(after)
}

/// The byte that the bus answers to an operation: the byte read, or 0
/// where nothing is read.
pub open spec fn answer(mmu: Mmu, operation: BusOperation) -> u8 {
    match operation {
        BusOperation::Read { address } => mmu.spec_read_byte(address),
        _ => 0,
    }
}

/// Whether `after` is the bus `before` once `operation` was performed on
/// it in cycle `cycles`.
pub open spec fn performed(before: Mmu, after: Mmu, operation: BusOperation, cycles: u32) -> bool {
    match operation {
        BusOperation::Idle => after == before,
        BusOperation::Read { address } => before.read(after, address),
        BusOperation::Write { address, value } => before.wrote(after, address, value, cycles),
    }
}

impl Cpu {
    /// The bus is well formed.
    pub open spec fn wf(&self) -> bool {
        self.mmu.wf()
    }

    /// Whether `post` is this machine one CPU cycle later, where `ppu` is
    /// the picture unit after the three dots of the cycle and `mmu` the bus
    /// after the processor's access.
    pub open spec fn stepped_through(self, post: Cpu, ppu: Ppu, mmu: Mmu) -> bool {
        let ticked = Mmu { ppu, ..self.mmu };
        let operation = Cpu::spec_bus_operation(self.core);
        let core = if self.mmu.dma_stall > 0 {
            self.core
        } else {
            Cpu::spec_advance(self.core, answer(ticked, operation))
        };
        &&& three_dots(Ppu { frame_complete: false, ..self.mmu.ppu }, ppu)
        &&& mmu.wf()
        &&& if self.mmu.dma_stall > 0 {
            mmu == (Mmu { dma_stall: (self.mmu.dma_stall - 1) as u16, ..ticked })
        } else {
            performed(ticked, mmu, operation, self.cycles)
        }
        &&& post.core == (Core { nmi_pending: core.nmi_pending || mmu.ppu.nmi_edge, ..core })
        &&& post.mmu == (Mmu { ppu: Ppu { nmi_edge: false, ..mmu.ppu }, ..mmu })
        &&& post.cycles == spec_cycle_after(self.cycles)
    }

    /// Whether `post` is this machine one CPU cycle later. First the
    /// picture unit runs three dots. Then the processor performs its bus
    /// operation and moves to its next state, unless a copy into sprite
    /// memory halts it, which uses the cycle up. Last, an NMI that the
    /// picture unit raised is handed to the processor.
    pub open spec fn stepped(self, post: Cpu) -> bool {
        exists|ppu: Ppu, mmu: Mmu| #[trigger] self.stepped_through(post, ppu, mmu)
    }

    /// A machine at power-on over the given bus.
    pub fn new(mmu: Mmu) -> (cpu: Cpu)
        requires
            mmu.wf(),
        ensures
            cpu.wf(),
            cpu.mmu == mmu,
            cpu.core == power_on_core(),
            cpu.cycles == 0,
    {
        Cpu {
            core: Core {
                state: CpuState::FetchOpcode,
                registers: Registers::power_on(),
                reset_pending: true,
                nmi_pending: false,
                irq_line: false,
            },
            mmu,
            cycles: 0,
        }
    }

    /// A machine at power-on with the cartridge of the given image in it.
    /// Fails as `from_bytes` does.
    pub fn load(bytes: &Vec<u8>) -> (result: Result<Cpu, CartridgeError>)
        ensures
            match result {
                Ok(cpu) => {
                    &&& load_error(bytes@) is None
                    &&& cpu.wf()
                    &&& exists|header|
                        #[trigger] loaded(
                            bytes@,
                            cpu.mmu.prg_address_bus,
                            cpu.mmu.ppu.chr_address_bus,
                            header,
                        )
                    &&& cpu.core == power_on_core()
                    &&& cpu.cycles == 0
                    &&& cpu.mmu.ram@ == zeroes(RAM_SIZE as nat)
                    &&& cpu.mmu.dma_stall == 0
                },
                Err(error) => load_error(bytes@) == Some(error.kind),
            },
    {
        match from_bytes(bytes) {
            Ok((prg_address_bus, chr_address_bus, header)) => {
                let ppu = Ppu::new(chr_address_bus);
                let mmu = Mmu::new(prg_address_bus, Apu::new(), Io::new(), ppu);
                Ok(Cpu::new(mmu))
            },
            Err(error) => Err(error),
        }
    }

    /// Performs a bus operation and returns the byte that the bus answers.
    fn perform(&mut self, operation: BusOperation) -> (data: u8)
        requires
            old(self).wf(),
        ensures
            final(self).wf(),
            data == answer(old(self).mmu, operation),
            performed(old(self).mmu, final(self).mmu, operation, old(self).cycles),
            final(self).core == old(self).core,
            final(self).cycles == old(self).cycles,
    {
        match operation {
            BusOperation::Idle => 0,
            BusOperation::Read { address } => self.mmu.read_byte(address),
            BusOperation::Write { address, value } => {
                self.mmu.write_byte(address, value, self.cycles);
                0
            },
        }
    }

    /// Runs the picture unit for the three dots of a CPU cycle.
    fn run_three_dots(&mut self)
        requires
            old(self).wf(),
        ensures
            final(self).wf(),
            three_dots(Ppu { frame_complete: false, ..old(self).mmu.ppu }, final(self).mmu.ppu),
            final(self).mmu == (Mmu { ppu: final(self).mmu.ppu, ..old(self).mmu }),
            final(self).core == old(self).core,
            final(self).cycles == old(self).cycles,
    {
        self.mmu.ppu.frame_complete = false;
        let ghost before = self.mmu.ppu;
        self.mmu.ppu.tick();
        let ghost first = self.mmu.ppu;
        self.mmu.ppu.tick();
        let ghost second = self.mmu.ppu;
        self.mmu.ppu.tick();
        assert(before.ticked(first) && first.ticked(second) && second.ticked(self.mmu.ppu));
    }

    /// Advances the machine by one CPU cycle. The result is always `None`:
    /// the machine never halts.
    pub fn next(&mut self) -> (halted: Option<()>)
        requires
            old(self).wf(),
        ensures
            final(self).wf(),
            halted is None,
            old(self).stepped(*final(self)),
    {
        self.run_three_dots();
        let ghost ticked = self.mmu;
        if self.mmu.dma_stall > 0 {
            self.mmu.dma_stall = self.mmu.dma_stall - 1;
        } else {
            let operation = Cpu::bus_operation(self.core);
            let data = self.perform(operation);
            self.core = Cpu::advance(self.core, data);
        }
        let ghost mmu = self.mmu;
        if self.mmu.ppu.nmi_edge {
            self.core.nmi_pending = true;
            self.mmu.ppu.nmi_edge = false;
        }
        self.cycles = cycle_after(self.cycles);
        proof {
            assert(three_dots(Ppu { frame_complete: false, ..old(self).mmu.ppu }, ticked.ppu));
            assert(ticked == (Mmu { ppu: ticked.ppu, ..old(self).mmu }));
            assert(old(self).mmu.dma_stall == 0 ==> performed(
                ticked,
                mmu,
                Cpu::spec_bus_operation(old(self).core),
                old(self).cycles,
            ));
            assert(old(self).stepped_through(*self, ticked.ppu, mmu));
        }
        None
    }

    /// Whether the cycle that was run last completed a frame: the picture
    /// unit finished dot 0 of scanline 241 in it.
    pub fn is_frame_complete_cycle(&self) -> (complete: bool)
        ensures
            complete == self.mmu.ppu.frame_complete,
    {
        self.mmu.ppu.is_frame_complete()
    }

    /// The frame as 256 by 240 packed pixels, row by row.
    pub fn get_framebuffer(&self) -> (framebuffer: &Vec<u32>)
        ensures
            framebuffer@ == self.mmu.ppu.framebuffer@,
    {
        self.mmu.ppu.get_framebuffer()
    }

    /// The opcode that the last cycle fetched, if it fetched one.
    pub fn fetched_opcode(&self) -> (opcode: Option<Opcode>)
        ensures
            opcode == spec_fetched_in(self.core.state),
    {
        fetched_in(self.core.state)
    }

    /// The line of a trace for an instruction whose opcode was just
    /// fetched: where the opcode lies, the two bytes after it, the
    /// registers and the cycle count. Nothing is read from the bus.
    pub fn nes_test_log(&self, opcode: &Opcode) -> (line: TraceLine)
        requires
            self.wf(),
        ensures
            line == (TraceLine {
                address: spec_dec16(self.core.registers.program_counter),
                opcode: *opcode,
                first_operand: self.mmu.spec_read_byte(self.core.registers.program_counter),
                second_operand: self.mmu.spec_read_byte(
                    spec_inc16(self.core.registers.program_counter),
                ),
                a: self.core.registers.a,
                x: self.core.registers.x,
                y: self.core.registers.y,
                status: spec_status_bits(self.core.registers.status_register),
                stack_pointer: self.core.registers.stack_pointer,
                cycles: self.cycles,
            }),
    {
        let registers = self.core.registers;
        TraceLine {
            address: dec16(registers.program_counter),
            opcode: *opcode,
            first_operand: self.mmu.peek_byte(registers.program_counter),
            second_operand: self.mmu.peek_byte(inc16(registers.program_counter)),
            a: registers.a,
            x: registers.x,
            y: registers.y,
            status: status_bits(registers.status_register),
            stack_pointer: registers.stack_pointer,
            cycles: self.cycles,
        }
    }

    /// Holds a button of a controller down, or releases it.
    pub fn set_button(&mut self, controller: Controller, button: Button, pressed: bool)
        ensures
            *final(self) == (Cpu {
                mmu: Mmu {
                    io: spec_io_with_button(old(self).mmu.io, controller, button, pressed),
                    ..old(self).mmu
                },
                ..*old(self)
            }),
    {
        if pressed {
            self.mmu.io.button_down(controller, button);
        } else {
            self.mmu.io.button_up(controller, button);
        }
    }

    /// Holds a button of a controller down.
    pub fn button_down(&mut self, controller: Controller, button: Button)
        ensures
            *final(self) == (Cpu {
                mmu: Mmu {
                    io: spec_io_with_button(old(self).mmu.io, controller, button, true),
                    ..old(self).mmu
                },
                ..*old(self)
            }),
    {
        self.mmu.io.button_down(controller, button);
    }

    /// Releases a button of a controller.
    pub fn button_up(&mut self, controller: Controller, button: Button)
        ensures
            *final(self) == (Cpu {
                mmu: Mmu {
                    io: spec_io_with_button(old(self).mmu.io, controller, button, false),
                    ..old(self).mmu
                },
                ..*old(self)
            }),
    {
        self.mmu.io.button_up(controller, button);
    }

    /// Fills `vram` with the picture unit's address space as reads of it
    /// would show it, the pattern tables and name tables through the
    /// cartridge and the palette from `$3F00`, and returns sprite memory.
    pub fn dump_ppu_state(&self, vram: &mut [u8; 0x4000]) -> (oam: [u8; 0x100])
        requires
            self.wf(),
        ensures
            forall|address: int|
                0 <= address < 0x3F00 ==> final(vram)[address]
                    == self.mmu.ppu.chr_address_bus.spec_read_byte(address as u16),
            forall|address: int|
                0x3F00 <= address < 0x4000 ==> final(vram)[address]
                    == self.mmu.ppu.palette@[spec_palette_index(address as u16) as int],
            oam@ == self.mmu.ppu.oam@,
    {
        let mut address: usize = 0;
        while address < 0x4000
            invariant
                0 <= address <= 0x4000,
                self.wf(),
                forall|a: int|
                    0 <= a < address && a < 0x3F00 ==> vram[a]
                        == self.mmu.ppu.chr_address_bus.spec_read_byte(a as u16),
                forall|a: int|
                    0x3F00 <= a < address ==> vram[a] == self.mmu.ppu.palette@[spec_palette_index(
                        a as u16,
                    ) as int],
            decreases 0x4000 - address,
        {
            let value = if address < 0x3F00 {
                self.mmu.ppu.chr_address_bus.read_byte(address as u16)
            } else {
                self.mmu.ppu.palette[palette_index(address as u16)]
            };
            vram[address] = value;
            address += 1;
        }
        let mut oam = [0u8; 0x100];
        let mut entry: usize = 0;
        while entry < OAM_SIZE
            invariant
                0 <= entry <= OAM_SIZE,
                self.wf(),
                forall|k: int| 0 <= k < entry ==> oam[k] == self.mmu.ppu.oam@[k],
            decreases OAM_SIZE - entry,
        {
            oam[entry] = self.mmu.ppu.oam[entry];
            entry += 1;
        }
        assert(oam@ =~= self.mmu.ppu.oam@);
        oam
    }
}

} // verus!
