//! The machine is deterministic: what it holds after a step is fixed by
//! what it held before.
use vstd::prelude::*;
use crate::cartridge::mappers::mmc1::{MMC1ChrChip, MMC1PrgChip};
use crate::cartridge::mappers::mmc3::{MMC3ChrChip, MMC3PrgChip};
use crate::cartridge::mappers::{BankedChrChip, BankedPrgChip};
use crate::cartridge::{CpuCartridgeAddressBus, PpuCartridgeAddressBus};
use crate::cpu::machine::{answer, performed, three_dots};
use crate::cpu::{BusOperation, Cpu};
use crate::checksum::{crc32_ieee, pixel_bytes};
use crate::io::{Button, Controller, io_with_button, spec_io_with_button};
use crate::mmu::Mmu;
use crate::ppu::Ppu;

verus! {

/// Whether two program chips hold the same: equal memories and equal registers.
pub open spec fn same_prg(first: CpuCartridgeAddressBus, second: CpuCartridgeAddressBus) -> bool {
    match (first, second) {
        (CpuCartridgeAddressBus::Banked(a), CpuCartridgeAddressBus::Banked(b)) => {
            &&& a.prg_rom@ == b.prg_rom@
            &&& a.prg_ram@ == b.prg_ram@
            &&& a.total_banks == b.total_banks
            &&& a.banks@ == b.banks@
            &&& a.bank_offsets@ == b.bank_offsets@
            &&& a.switching == b.switching
        },
        (CpuCartridgeAddressBus::MMC1(a), CpuCartridgeAddressBus::MMC1(b)) => {
            &&& a.prg_rom@ == b.prg_rom@
            &&& a.prg_ram@ == b.prg_ram@
            &&& a.total_banks == b.total_banks
            &&& a.control == b.control
        },
        (CpuCartridgeAddressBus::MMC3(a), CpuCartridgeAddressBus::MMC3(b)) => {
            &&& a.prg_rom@ == b.prg_rom@
            &&& a.prg_ram@ == b.prg_ram@
            &&& a.total_prg_banks == b.total_prg_banks
            &&& a.prg_banks@ == b.prg_banks@
            &&& a.prg_bank_offsets@ == b.prg_bank_offsets@
            &&& a.bank_mode == b.bank_mode
            &&& a.bank_select == b.bank_select
        },
        _ => false,
    }
}

/// Whether two character chips hold the same.
pub open spec fn same_chr(first: PpuCartridgeAddressBus, second: PpuCartridgeAddressBus) -> bool {
    match (first, second) {
        (PpuCartridgeAddressBus::Banked(a), PpuCartridgeAddressBus::Banked(b)) => {
            &&& a.chr_data@ == b.chr_data@
            &&& a.chr_is_ram == b.chr_is_ram
            &&& a.total_banks == b.total_banks
            &&& a.bank == b.bank
            &&& a.bank_offset == b.bank_offset
            &&& a.ppu_vram@ == b.ppu_vram@
            &&& a.mirroring_mode == b.mirroring_mode
        },
        (PpuCartridgeAddressBus::MMC1(a), PpuCartridgeAddressBus::MMC1(b)) => {
            &&& a.chr_data@ == b.chr_data@
            &&& a.chr_is_ram == b.chr_is_ram
            &&& a.total_banks == b.total_banks
            &&& a.ppu_vram@ == b.ppu_vram@
            &&& a.control == b.control
        },
        (PpuCartridgeAddressBus::MMC3(a), PpuCartridgeAddressBus::MMC3(b)) => {
            &&& a.chr_data@ == b.chr_data@
            &&& a.chr_is_ram == b.chr_is_ram
            &&& a.total_chr_banks == b.total_chr_banks
            &&& a.ppu_vram@ == b.ppu_vram@
            &&& a.chr_banks@ == b.chr_banks@
            &&& a.chr_bank_offsets@ == b.chr_bank_offsets@
            &&& a.mirroring_mode == b.mirroring_mode
            &&& a.bank_mode == b.bank_mode
            &&& a.bank_select == b.bank_select
        },
        _ => false,
    }
}

/// Program chips that hold the same answer reads alike and are well formed alike.
pub proof fn lemma_same_prg_reads(first: CpuCartridgeAddressBus, second: CpuCartridgeAddressBus)
    requires
        same_prg(first, second),
    ensures
        first.wf() == second.wf(),
        forall|address: u16| first.spec_read_byte(address) == second.spec_read_byte(address),
{
}

/// Program chips that hold the same hold the same after the same write.
pub proof fn lemma_same_prg_writes(
    first: CpuCartridgeAddressBus,
    second: CpuCartridgeAddressBus,
    first_after: CpuCartridgeAddressBus,
    second_after: CpuCartridgeAddressBus,
    address: u16,
    value: u8,
    cycles: u32,
)
    requires
        same_prg(first, second),
        first.wrote(first_after, address, value, cycles),
        second.wrote(second_after, address, value, cycles),
    ensures
        same_prg(first_after, second_after),
{
    match (first_after, second_after) {
        (CpuCartridgeAddressBus::Banked(a), CpuCartridgeAddressBus::Banked(b)) => {
            assert(a.bank_offsets@ =~= b.bank_offsets@);
        },
        _ => {},
    }
}

/// Character chips that hold the same answer reads alike and are well
/// formed alike.
pub proof fn lemma_same_chr_reads(first: PpuCartridgeAddressBus, second: PpuCartridgeAddressBus)
    requires
        same_chr(first, second),
    ensures
        first.wf() == second.wf(),
        forall|address: u16| first.spec_read_byte(address) == second.spec_read_byte(address),
{
}

/// Character chips that hold the same hold the same after the same write
/// through the bus of the picture unit.
pub proof fn lemma_same_chr_writes(
    first: PpuCartridgeAddressBus,
    second: PpuCartridgeAddressBus,
    first_after: PpuCartridgeAddressBus,
    second_after: PpuCartridgeAddressBus,
    address: u16,
    value: u8,
    cycles: u32,
)
    requires
        same_chr(first, second),
        first.wrote(first_after, address, value, cycles),
        second.wrote(second_after, address, value, cycles),
    ensures
        same_chr(first_after, second_after),
{
}

/// Character chips that hold the same hold the same after they observed
/// the same CPU write.
pub proof fn lemma_same_chr_cpu_writes(
    first: PpuCartridgeAddressBus,
    second: PpuCartridgeAddressBus,
    first_after: PpuCartridgeAddressBus,
    second_after: PpuCartridgeAddressBus,
    address: u16,
    value: u8,
    cycles: u32,
)
    requires
        same_chr(first, second),
        first.cpu_wrote(first_after, address, value, cycles),
        second.cpu_wrote(second_after, address, value, cycles),
    ensures
        same_chr(first_after, second_after),
{
}

/// Whether two picture units hold the same.
pub open spec fn same_ppu(first: Ppu, second: Ppu) -> bool {
    &&& same_chr(first.chr_address_bus, second.chr_address_bus)
    &&& first.registers == second.registers
    &&& first.oam@ == second.oam@
    &&& first.secondary_oam@ == second.secondary_oam@
    &&& first.palette@ == second.palette@
    &&& first.timing == second.timing
    &&& first.background == second.background
    &&& first.units@ == second.units@
    &&& first.sprite_line == second.sprite_line
    &&& first.framebuffer@ == second.framebuffer@
    &&& first.nmi_edge == second.nmi_edge
    &&& first.frame_complete == second.frame_complete
}

/// Picture units that hold the same answer register reads alike.
pub proof fn lemma_same_ppu_reads(first: Ppu, second: Ppu, index: u8)
    requires
        same_ppu(first, second),
    ensures
        first.wf() == second.wf(),
        first.register_value(index) == second.register_value(index),
        first.registers_after_read(index) == second.registers_after_read(index),
{
    lemma_same_chr_reads(first.chr_address_bus, second.chr_address_bus);
}

/// Picture units that hold the same hold the same after the same register write.
pub proof fn lemma_same_ppu_writes(
    first: Ppu,
    second: Ppu,
    first_after: Ppu,
    second_after: Ppu,
    index: u8,
    value: u8,
    cycles: u32,
)
    requires
        same_ppu(first, second),
        first.wrote_register(first_after, index, value, cycles),
        second.wrote_register(second_after, index, value, cycles),
    ensures
        same_ppu(first_after, second_after),
{
    if index == 7 && crate::ppu::registers::spec_data_address(first.registers) < 0x3F00 {
        lemma_same_chr_writes(
            first.chr_address_bus,
            second.chr_address_bus,
            first_after.chr_address_bus,
            second_after.chr_address_bus,
            crate::ppu::registers::spec_data_address(first.registers),
            value,
            cycles,
        );
    }
}

/// Picture units that hold the same hold the same one dot later.
pub proof fn lemma_same_ppu_ticks(first: Ppu, second: Ppu, first_after: Ppu, second_after: Ppu)
    requires
        same_ppu(first, second),
        first.ticked(first_after),
        second.ticked(second_after),
    ensures
        same_ppu(first_after, second_after),
{
    lemma_same_chr_reads(first.chr_address_bus, second.chr_address_bus);
    assert(first.units =~= second.units);
}

/// Picture units that hold the same hold the same three dots later.
pub proof fn lemma_same_ppu_three_dots(first: Ppu, second: Ppu, first_after: Ppu, second_after: Ppu)
    requires
        same_ppu(first, second),
        three_dots(first, first_after),
        three_dots(second, second_after),
    ensures
        same_ppu(first_after, second_after),
{
    let (a1, a2) = choose|a1: Ppu, a2: Ppu|
        a1.wf() && a2.wf() && first.ticked(a1) && #[trigger] a1.ticked(a2) && a2.ticked(first_after);
    let (b1, b2) = choose|b1: Ppu, b2: Ppu|
        b1.wf() && b2.wf() && second.ticked(b1) && #[trigger] b1.ticked(b2) && b2.ticked(
            second_after,
        );
    lemma_same_ppu_ticks(first, second, a1, b1);
    lemma_same_ppu_ticks(a1, b1, a2, b2);
    lemma_same_ppu_ticks(a2, b2, first_after, second_after);
}

/// Whether two buses hold the same.
pub open spec fn same_mmu(first: Mmu, second: Mmu) -> bool {
    &&& first.ram@ == second.ram@
    &&& same_ppu(first.ppu, second.ppu)
    &&& first.apu.registers@ == second.apu.registers@
    &&& first.io == second.io
    &&& same_prg(first.prg_address_bus, second.prg_address_bus)
    &&& first.dma_stall == second.dma_stall
}

/// Buses that hold the same answer reads alike.
pub proof fn lemma_same_mmu_answers(first: Mmu, second: Mmu, address: u16)
    requires
        same_mmu(first, second),
    ensures
        first.wf() == second.wf(),
        first.spec_read_byte(address) == second.spec_read_byte(address),
{
    lemma_same_prg_reads(first.prg_address_bus, second.prg_address_bus);
    lemma_same_ppu_reads(first.ppu, second.ppu, crate::ppu::registers::spec_register_index(address));
}

/// Buses that hold the same hold the same after the same read.
pub proof fn lemma_same_mmu_reads(
    first: Mmu,
    second: Mmu,
    first_after: Mmu,
    second_after: Mmu,
    address: u16,
)
    requires
        same_mmu(first, second),
        first.read(first_after, address),
        second.read(second_after, address),
    ensures
        same_mmu(first_after, second_after),
{
    lemma_same_ppu_reads(first.ppu, second.ppu, crate::ppu::registers::spec_register_index(address));
}

/// Buses that hold the same copy the same bytes into sprite memory.
pub proof fn lemma_same_mmu_dma(first: Mmu, second: Mmu, page: u8)
    requires
        same_mmu(first, second),
    ensures
        first.oam_after_dma(page) == second.oam_after_dma(page),
{
    assert forall|entry: int| 0 <= entry < 256 implies first.oam_after_dma(page)[entry]
        == second.oam_after_dma(page)[entry] by {
        let address = (page * 256 + (entry + 256 - first.ppu.registers.oam_address) % 256) as u16;
        lemma_same_mmu_answers(first, second, address);
    }
    assert(first.oam_after_dma(page) =~= second.oam_after_dma(page));
}

/// Buses that hold the same hold the same after the same write.
pub proof fn lemma_same_mmu_writes(
    first: Mmu,
    second: Mmu,
    first_after: Mmu,
    second_after: Mmu,
    address: u16,
    value: u8,
    cycles: u32,
)
    requires
        same_mmu(first, second),
        first.wrote(first_after, address, value, cycles),
        second.wrote(second_after, address, value, cycles),
    ensures
        same_mmu(first_after, second_after),
{
    if 0x2000 <= address < 0x4000 {
        lemma_same_ppu_writes(
            first.ppu,
            second.ppu,
            first_after.ppu,
            second_after.ppu,
            crate::ppu::registers::spec_register_index(address),
            value,
            cycles,
        );
    } else if address == crate::mmu::OAM_DMA {
        lemma_same_mmu_dma(first, second, value);
    } else if address >= 0x4020 {
        lemma_same_prg_writes(
            first.prg_address_bus,
            second.prg_address_bus,
            first_after.prg_address_bus,
            second_after.prg_address_bus,
            address,
            value,
            cycles,
        );
        lemma_same_chr_cpu_writes(
            first.ppu.chr_address_bus,
            second.ppu.chr_address_bus,
            first_after.ppu.chr_address_bus,
            second_after.ppu.chr_address_bus,
            address,
            value,
            cycles,
        );
    }
}

/// Whether two machines hold the same.
pub open spec fn same_machine(first: Cpu, second: Cpu) -> bool {
    &&& first.core == second.core
    &&& same_mmu(first.mmu, second.mmu)
    &&& first.cycles == second.cycles
}

/// One step is a function of what the machine holds: machines that hold
/// the same hold the same one CPU cycle later.
pub proof fn lemma_step_deterministic(first: Cpu, second: Cpu, first_after: Cpu, second_after: Cpu)
    requires
        same_machine(first, second),
        first.stepped(first_after),
        second.stepped(second_after),
    ensures
        same_machine(first_after, second_after),
{
    let (ppu_1, mmu_1) = choose|ppu: Ppu, mmu: Mmu| #[trigger]
        first.stepped_through(first_after, ppu, mmu);
    let (ppu_2, mmu_2) = choose|ppu: Ppu, mmu: Mmu| #[trigger]
        second.stepped_through(second_after, ppu, mmu);
    lemma_same_ppu_three_dots(
        Ppu { frame_complete: false, ..first.mmu.ppu },
        Ppu { frame_complete: false, ..second.mmu.ppu },
        ppu_1,
        ppu_2,
    );
    let ticked_1 = Mmu { ppu: ppu_1, ..first.mmu };
    let ticked_2 = Mmu { ppu: ppu_2, ..second.mmu };
    assert(same_mmu(ticked_1, ticked_2));
    let operation = Cpu::spec_bus_operation(first.core);
    if first.mmu.dma_stall == 0 {
        match operation {
            BusOperation::Idle => {},
            BusOperation::Read { address } => {
                lemma_same_mmu_answers(ticked_1, ticked_2, address);
                lemma_same_mmu_reads(ticked_1, ticked_2, mmu_1, mmu_2, address);
            },
            BusOperation::Write { address, value } => {
                lemma_same_mmu_writes(ticked_1, ticked_2, mmu_1, mmu_2, address, value, first.cycles);
            },
        }
    }
    assert(same_mmu(mmu_1, mmu_2));
}

/// A button of a controller going down or up.
#[derive(Clone, Copy, Debug)]
pub struct ButtonEvent {
    pub controller: Controller,
    pub button: Button,
    pub held: bool,
}

/// Whether `after` is the machine `before` once the event, if there is
/// one, has reached its controller.
pub open spec fn applied(before: Cpu, after: Cpu, event: Option<ButtonEvent>) -> bool {
    match event {
        Some(event) => after == (Cpu {
            mmu: Mmu {
                io: spec_io_with_button(before.mmu.io, event.controller, event.button, event.held),
                ..before.mmu
            },
            ..before
        }),
        None => after == before,
    }
}

/// Whether `end` holds what `start` comes to hold under a schedule of
/// inputs: one CPU cycle for each entry of the schedule, with the entry's
/// event, if any, applied before the cycle.
pub open spec fn ran(start: Cpu, end: Cpu, inputs: Seq<Option<ButtonEvent>>) -> bool
    decreases inputs.len(),
{
    if inputs.len() == 0 {
        same_machine(start, end)
    } else {
        exists|before: Cpu, pressed: Cpu|
            ran(start, before, inputs.drop_last()) && #[trigger] applied(
                before,
                pressed,
                inputs.last(),
            ) && pressed.wf() && pressed.stepped(end)
    }
}

impl Cpu {
    /// Runs the machine for one CPU cycle per entry of the schedule,
    /// applying each entry's event before its cycle.
    pub fn run(&mut self, inputs: &Vec<Option<ButtonEvent>>)
        requires
            old(self).wf(),
        ensures
            final(self).wf(),
            ran(*old(self), *final(self), inputs@),
    {
        let mut i: usize = 0;
        proof {
            assert(inputs@.take(0) =~= Seq::<Option<ButtonEvent>>::empty());
            lemma_same_machine_reflexive(*self);
        }
        while i < inputs.len()
            invariant
                0 <= i <= inputs@.len(),
                self.wf(),
                ran(*old(self), *self, inputs@.take(i as int)),
            decreases inputs@.len() - i,
        {
            let ghost before = *self;
            match inputs[i] {
                Some(event) => {
                    if event.held {
                        self.button_down(event.controller, event.button);
                    } else {
                        self.button_up(event.controller, event.button);
                    }
                },
                None => {},
            }
            let ghost pressed = *self;
            self.next();
            proof {
                let taken = inputs@.take(i + 1);
                assert(taken.drop_last() =~= inputs@.take(i as int));
                assert(taken.last() == inputs@[i as int]);
                assert(applied(before, pressed, taken.last()));
            }
            i += 1;
        }
        assert(inputs@.take(inputs@.len() as int) =~= inputs@);
    }
}

/// Every machine holds the same as itself.
pub proof fn lemma_same_machine_reflexive(cpu: Cpu)
    ensures
        same_machine(cpu, cpu),
{
    assert(same_prg(cpu.mmu.prg_address_bus, cpu.mmu.prg_address_bus));
    assert(same_chr(cpu.mmu.ppu.chr_address_bus, cpu.mmu.ppu.chr_address_bus));
}

/// Holding the same is symmetric and transitive.
pub proof fn lemma_same_machine_equivalence(first: Cpu, second: Cpu, third: Cpu)
    requires
        same_machine(first, second),
        same_machine(second, third),
    ensures
        same_machine(second, first),
        same_machine(first, third),
{
}

/// Machines that hold the same hold the same after the same event.
pub proof fn lemma_same_machine_inputs(
    first: Cpu,
    second: Cpu,
    first_after: Cpu,
    second_after: Cpu,
    event: Option<ButtonEvent>,
)
    requires
        same_machine(first, second),
        applied(first, first_after, event),
        applied(second, second_after, event),
    ensures
        same_machine(first_after, second_after),
{
}

/// Two runs from machines that hold the same, under the same schedule of
/// inputs, end in machines that hold the same: the same registers, the
/// same memories, the same frame, and so the same checksum of the frame.
pub proof fn lemma_runs_deterministic(
    first: Cpu,
    second: Cpu,
    first_end: Cpu,
    second_end: Cpu,
    inputs: Seq<Option<ButtonEvent>>,
)
    requires
        same_machine(first, second),
        ran(first, first_end, inputs),
        ran(second, second_end, inputs),
    ensures
        same_machine(first_end, second_end),
        first_end.mmu.ppu.framebuffer@ == second_end.mmu.ppu.framebuffer@,
        first_end.mmu.ppu.frame_complete == second_end.mmu.ppu.frame_complete,
        crc32_ieee(pixel_bytes(first_end.mmu.ppu.framebuffer@)) == crc32_ieee(
            pixel_bytes(second_end.mmu.ppu.framebuffer@),
        ),
    decreases inputs.len(),
{
    if inputs.len() == 0 {
        lemma_same_machine_equivalence(first_end, first, second);
        lemma_same_machine_equivalence(first_end, second, second_end);
    } else {
        let (before_1, pressed_1) = choose|before: Cpu, pressed: Cpu|
            ran(first, before, inputs.drop_last()) && #[trigger] applied(
                before,
                pressed,
                inputs.last(),
            ) && pressed.wf() && pressed.stepped(first_end);
        let (before_2, pressed_2) = choose|before: Cpu, pressed: Cpu|
            ran(second, before, inputs.drop_last()) && #[trigger] applied(
                before,
                pressed,
                inputs.last(),
            ) && pressed.wf() && pressed.stepped(second_end);
        lemma_runs_deterministic(first, second, before_1, before_2, inputs.drop_last());
        lemma_same_machine_inputs(before_1, before_2, pressed_1, pressed_2, inputs.last());
        lemma_step_deterministic(pressed_1, pressed_2, first_end, second_end);
    }
}

} // verus!
