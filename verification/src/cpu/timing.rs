//! How many cycles an instruction takes, and how many of them touch the bus.
use vstd::prelude::*;
use crate::cpu::addressing::{
    indexed_address, spec_indexed_address, reading, spec_reading, uncarried_address,
    spec_uncarried_address,
};
use crate::cpu::execute::{branch_taken, spec_branch_taken};
use crate::cpu::opcodes::{
    AddressingMode, InstructionType, Opcode, Operation, decode, spec_decode, instruction_type,
    spec_instruction_type,
};
use crate::cpu::opcodes::{
    decode_0x, spec_decode_0x, decode_1x, spec_decode_1x, decode_2x, spec_decode_2x, decode_3x,
    spec_decode_3x, decode_4x, spec_decode_4x, decode_5x, spec_decode_5x, decode_6x,
    spec_decode_6x, decode_7x, spec_decode_7x,
};
use crate::cpu::opcodes::{
    decode_8x, spec_decode_8x, decode_9x, spec_decode_9x, decode_ax, spec_decode_ax, decode_bx,
    spec_decode_bx, decode_cx, spec_decode_cx, decode_dx, spec_decode_dx, decode_ex,
    spec_decode_ex, decode_fx, spec_decode_fx,
};
use crate::cpu::registers::{
    Registers, branch_target, spec_branch_target, high_byte, spec_high_byte, inc16, spec_inc16,
};
use crate::cpu::step::{follow, spec_follow, interrupt_due, spec_interrupt_due};
use crate::cpu::{BusOperation, Core, Cpu, CpuState};

verus! {

/// The cycle count of an operation in an addressing mode, without penalties;
/// 0 for a pairing that no opcode has.
pub open spec fn canonical_cycles(operation: Operation, mode: AddressingMode) -> int {
    match spec_instruction_type(operation) {
        InstructionType::Read => match mode {
            AddressingMode::Implied | AddressingMode::Immediate => 2,
            AddressingMode::ZeroPage => 3,
            AddressingMode::ZeroPageXIndexed | AddressingMode::ZeroPageYIndexed => 4,
            AddressingMode::Absolute => 4,
            AddressingMode::AbsoluteXIndexed | AddressingMode::AbsoluteYIndexed => 4,
            AddressingMode::IndirectXIndexed => 6,
            AddressingMode::IndirectYIndexed => 5,
            _ => 0,
        },
        InstructionType::Write => match mode {
            AddressingMode::ZeroPage => 3,
            AddressingMode::ZeroPageXIndexed | AddressingMode::ZeroPageYIndexed => 4,
            AddressingMode::Absolute => 4,
            AddressingMode::AbsoluteXIndexed | AddressingMode::AbsoluteYIndexed => 5,
            AddressingMode::IndirectXIndexed | AddressingMode::IndirectYIndexed => 6,
            _ => 0,
        },
        InstructionType::ReadModifyWrite => match mode {
            AddressingMode::Accumulator => 2,
            AddressingMode::ZeroPage => 5,
            AddressingMode::ZeroPageXIndexed | AddressingMode::ZeroPageYIndexed => 6,
            AddressingMode::Absolute => 6,
            AddressingMode::AbsoluteXIndexed | AddressingMode::AbsoluteYIndexed => 7,
            AddressingMode::IndirectXIndexed | AddressingMode::IndirectYIndexed => 8,
            _ => 0,
        },
        InstructionType::Jump => match mode {
            AddressingMode::Absolute => if operation == Operation::JSR {
                6
            } else {
                3
            },
            AddressingMode::Indirect => if operation == Operation::JSR {
                0
            } else {
                5
            },
            _ => 0,
        },
        InstructionType::Branch => if mode == AddressingMode::Relative {
            2
        } else {
            0
        },
        InstructionType::Stack => if mode != AddressingMode::Implied {
            0
        } else {
            match operation {
                Operation::PHA | Operation::PHP => 3,
                Operation::PLA | Operation::PLP => 4,
                Operation::BRK => 7,
                _ => 6,
            }
        },
        InstructionType::Implied => if mode == AddressingMode::Implied {
            2
        } else {
            0
        },
    }
}

/// An opcode whose operation and addressing mode go together and whose cycle
/// count is the canonical one of the pairing.
pub open spec fn well_formed(opcode: Opcode) -> bool {
    &&& opcode.cycles == canonical_cycles(opcode.operation, opcode.address_mode)
    &&& opcode.cycles >= 2
    &&& opcode.address_mode == AddressingMode::Implied ==> spec_instruction_type(opcode.operation)
        != InstructionType::ReadModifyWrite
}

/// Every entry of the opcode matrix is well formed.
pub proof fn lemma_matrix_well_formed(code: u8)
    ensures
        well_formed(spec_decode(code)),
{
    let low = (code % 16) as u8;
    match code / 16 {
        0x0 => assert(well_formed(spec_decode_0x(low))),
        0x1 => assert(well_formed(spec_decode_1x(low))),
        0x2 => assert(well_formed(spec_decode_2x(low))),
        0x3 => assert(well_formed(spec_decode_3x(low))),
        0x4 => assert(well_formed(spec_decode_4x(low))),
        0x5 => assert(well_formed(spec_decode_5x(low))),
        0x6 => assert(well_formed(spec_decode_6x(low))),
        0x7 => assert(well_formed(spec_decode_7x(low))),
        0x8 => assert(well_formed(spec_decode_8x(low))),
        0x9 => assert(well_formed(spec_decode_9x(low))),
        0xA => assert(well_formed(spec_decode_ax(low))),
        0xB => assert(well_formed(spec_decode_bx(low))),
        0xC => assert(well_formed(spec_decode_cx(low))),
        0xD => assert(well_formed(spec_decode_dx(low))),
        0xE => assert(well_formed(spec_decode_ex(low))),
        _ => assert(well_formed(spec_decode_fx(low))),
    }
}

/// The core after `cycles` cycles in which the bus answered `data[0]`,
/// `data[1]`, and so on, one byte per cycle.
pub open spec fn run(core: Core, data: Seq<u8>, cycles: nat) -> Core
    decreases cycles,
{
    if cycles == 0 {
        core
    } else {
        Cpu::spec_advance(run(core, data, (cycles - 1) as nat), data[cycles - 1])
    }
}

/// 1 for a cycle that reads or writes, 0 for an internal one.
pub open spec fn touches_bus(core: Core) -> nat {
    if Cpu::spec_bus_operation(core) == BusOperation::Idle {
        0
    } else {
        1
    }
}

/// The number of bus transactions in the first `cycles` cycles of a run.
pub open spec fn transactions(core: Core, data: Seq<u8>, cycles: nat) -> nat
    decreases cycles,
{
    if cycles == 0 {
        0
    } else {
        transactions(core, data, (cycles - 1) as nat) + touches_bus(
            run(core, data, (cycles - 1) as nat),
        )
    }
}

/// Whether adding `index` to `low` carries into the next page.
pub open spec fn crosses_page(low: u8, index: u8) -> bool {
    low + index > 255
}

/// The cycles that an instruction takes beyond its canonical count: one for
/// a read whose indexed address crosses a page, one for a branch taken and
/// one more when its target lies in another page. `data` holds the bytes
/// that the bus answers from the opcode fetch on.
pub open spec fn penalty(core: Core, data: Seq<u8>) -> int {
    let opcode = spec_decode(data[0]);
    let registers = core.registers;
    match opcode.address_mode {
        AddressingMode::AbsoluteXIndexed => if spec_instruction_type(opcode.operation)
            == InstructionType::Read && crosses_page(data[1], registers.x) {
            1
        } else {
            0
        },
        AddressingMode::AbsoluteYIndexed => if spec_instruction_type(opcode.operation)
            == InstructionType::Read && crosses_page(data[1], registers.y) {
            1
        } else {
            0
        },
        AddressingMode::IndirectYIndexed => if spec_instruction_type(opcode.operation)
            == InstructionType::Read && crosses_page(data[2], registers.y) {
            1
        } else {
            0
        },
        AddressingMode::Relative => if !spec_branch_taken(
            opcode.operation,
            registers.status_register,
        ) {
            0
        } else if branch_crosses_page(registers.program_counter, data[1]) {
            2
        } else {
            1
        },
        _ => 0,
    }
}

/// Whether the branch whose opcode lies at `program_counter` and whose
/// operand is `operand` lands in another page than the instruction after it.
pub open spec fn branch_crosses_page(program_counter: u16, operand: u8) -> bool {
    let next = spec_inc16(spec_inc16(program_counter));
    spec_high_byte(spec_branch_target(next, operand)) != spec_high_byte(next)
}

/// The cycles of an instruction that are internal to the processor: the last
/// cycle of JSR and of RTS, and the cycles that a taken branch adds.
pub open spec fn internal_cycles(core: Core, data: Seq<u8>) -> int {
    let opcode = spec_decode(data[0]);
    match opcode.operation {
        Operation::JSR | Operation::RTS => 1,
        _ => if opcode.address_mode == AddressingMode::Relative {
            penalty(core, data)
        } else {
            0
        },
    }
}

/// The number of cycles from the fetch of an opcode to the fetch of the next.
pub open spec fn instruction_cycles(core: Core, data: Seq<u8>) -> int {
    spec_decode(data[0]).cycles + penalty(core, data)
}

/// A core that is about to fetch an opcode, with no interrupt in its way.
pub open spec fn at_instruction_start(core: Core) -> bool {
    core.state is FetchOpcode && !spec_interrupt_due(core)
}

/// What holds of the cycles of one instruction: the processor is back at an
/// opcode fetch after the canonical count plus the penalty, not before, and
/// every cycle but the internal ones made one bus transaction.
pub open spec fn timing_holds(core: Core, data: Seq<u8>) -> bool {
    &&& 2 <= instruction_cycles(core, data) <= 8
    &&& run(core, data, instruction_cycles(core, data) as nat).state is FetchOpcode
    &&& forall|k: nat|
        0 < k < instruction_cycles(core, data) ==> !(#[trigger] run(
            core,
            data,
            k,
        ).state is FetchOpcode)
    &&& transactions(core, data, instruction_cycles(core, data) as nat) == instruction_cycles(
        core,
        data,
    ) - internal_cycles(core, data)
}

/// How many cycles of operand gathering lie behind a state of the given
/// addressing mode.
pub open spec fn stage(
    mode: AddressingMode,
    address_low_byte: Option<u8>,
    address_high_byte: Option<u8>,
    pointer: Option<u8>,
    indirect_address_low_byte: Option<u8>,
    indirect_address_high_byte: Option<u8>,
    checked_page_boundary: bool,
) -> int {
    match mode {
        AddressingMode::ZeroPage => if address_low_byte is None {
            0
        } else {
            1
        },
        AddressingMode::ZeroPageXIndexed | AddressingMode::ZeroPageYIndexed | AddressingMode::Absolute => if address_low_byte is None {
            0
        } else if address_high_byte is None {
            1
        } else {
            2
        },
        AddressingMode::AbsoluteXIndexed | AddressingMode::AbsoluteYIndexed => if address_low_byte is None {
            0
        } else if address_high_byte is None {
            1
        } else if !checked_page_boundary {
            2
        } else {
            3
        },
        AddressingMode::Indirect => if indirect_address_low_byte is None {
            0
        } else if indirect_address_high_byte is None {
            1
        } else if address_low_byte is None {
            2
        } else {
            3
        },
        AddressingMode::IndirectXIndexed => if indirect_address_low_byte is None {
            0
        } else if pointer is None {
            1
        } else if address_low_byte is None {
            2
        } else if address_high_byte is None {
            3
        } else {
            4
        },
        AddressingMode::IndirectYIndexed => if indirect_address_low_byte is None {
            0
        } else if address_low_byte is None {
            1
        } else if address_high_byte is None {
            2
        } else if !checked_page_boundary {
            3
        } else {
            4
        },
        _ => 0,
    }
}

/// The penalty of the instruction that a state of operand gathering belongs
/// to, where `data[at]` is the byte that the bus answers next.
pub open spec fn penalty_ahead(core: Core, data: Seq<u8>, at: int) -> int {
    match core.state {
        CpuState::ReadingOperand {
            opcode,
            address_low_byte,
            indirect_address_low_byte,
            ..
        } => {
            let low = match address_low_byte {
                Some(low) => low,
                None => if opcode.address_mode == AddressingMode::IndirectYIndexed
                    && indirect_address_low_byte is None {
                    data[at + 1]
                } else {
                    data[at]
                },
            };
            let reads = spec_instruction_type(opcode.operation) == InstructionType::Read;
            match opcode.address_mode {
                AddressingMode::AbsoluteXIndexed => if reads && crosses_page(
                    low,
                    core.registers.x,
                ) {
                    1
                } else {
                    0
                },
                AddressingMode::AbsoluteYIndexed | AddressingMode::IndirectYIndexed => if reads
                    && crosses_page(low, core.registers.y) {
                    1
                } else {
                    0
                },
                AddressingMode::Relative => if !spec_branch_taken(
                    opcode.operation,
                    core.registers.status_register,
                ) {
                    0
                } else if spec_high_byte(
                    spec_branch_target(spec_inc16(core.registers.program_counter), data[at]),
                ) != spec_high_byte(spec_inc16(core.registers.program_counter)) {
                    2
                } else {
                    1
                },
                _ => 0,
            }
        },
        _ => 0,
    }
}

/// The number of cycles until the processor is back at an opcode fetch,
/// where `data[at]` is the byte that the bus answers next.
pub open spec fn cycles_left(core: Core, data: Seq<u8>, at: int) -> int {
    match core.state {
        CpuState::FetchOpcode => 0,
        CpuState::ThrowawayRead { opcode, .. } => opcode.cycles - 1,
        CpuState::ReadingOperand {
            opcode,
            address_low_byte,
            address_high_byte,
            pointer,
            indirect_address_low_byte,
            indirect_address_high_byte,
            checked_page_boundary,
        } => opcode.cycles + penalty_ahead(core, data, at) - 1 - stage(
            opcode.address_mode,
            address_low_byte,
            address_high_byte,
            pointer,
            indirect_address_low_byte,
            indirect_address_high_byte,
            checked_page_boundary,
        ),
        CpuState::BranchCrossesPageBoundary { .. } => 2,
        CpuState::PushRegisterOnStack { .. } => 1,
        CpuState::PreIncrementStackPointer { operation } => match operation {
            Operation::RTI | Operation::RTS => 4,
            _ => 2,
        },
        CpuState::PullRegisterFromStack { operation } => if operation == Operation::RTI {
            3
        } else {
            1
        },
        CpuState::PullPCLFromStack { operation } => if operation == Operation::RTS {
            3
        } else {
            2
        },
        CpuState::PullPCHFromStack { operation, .. } => if operation == Operation::RTS {
            2
        } else {
            1
        },
        CpuState::IncrementProgramCounter => 1,
        CpuState::WritePCHToStack { .. } => 3,
        CpuState::WritePCLToStack { .. } => 2,
        CpuState::SetProgramCounter { .. } => 1,
        CpuState::WritingResult { dummy, .. } => if dummy is Some {
            2
        } else {
            1
        },
        CpuState::InterruptThrowawayRead { .. } => 6,
        CpuState::PushPCHForInterrupt { .. } => 5,
        CpuState::PushPCLForInterrupt { .. } => 4,
        CpuState::PushStatusForInterrupt { .. } => 3,
        CpuState::ReadVectorLow { .. } => 2,
        CpuState::ReadVectorHigh { .. } => 1,
    }
}

/// The number of internal cycles until the processor is back at an opcode fetch.
pub open spec fn idle_left(core: Core, data: Seq<u8>, at: int) -> int {
    match core.state {
        CpuState::ThrowawayRead { opcode, .. } => if opcode.operation == Operation::RTS {
            1
        } else {
            0
        },
        CpuState::ReadingOperand { opcode, .. } => if opcode.operation == Operation::JSR {
            1
        } else if opcode.address_mode == AddressingMode::Relative {
            penalty_ahead(core, data, at)
        } else {
            0
        },
        CpuState::BranchCrossesPageBoundary { .. } => 2,
        CpuState::PreIncrementStackPointer { operation } => if operation == Operation::RTS {
            1
        } else {
            0
        },
        CpuState::PullPCLFromStack { operation } => if operation == Operation::RTS {
            1
        } else {
            0
        },
        CpuState::PullPCHFromStack { operation, .. } => if operation == Operation::RTS {
            1
        } else {
            0
        },
        CpuState::IncrementProgramCounter => 1,
        CpuState::WritePCHToStack { .. } => 1,
        CpuState::WritePCLToStack { .. } => 1,
        CpuState::SetProgramCounter { .. } => 1,
        _ => 0,
    }
}

/// The states that the processor can be in between two opcode fetches: the
/// opcode in flight is well formed and the state fits its addressing mode.
pub open spec fn in_flight(core: Core) -> bool {
    match core.state {
        CpuState::ThrowawayRead { opcode, .. } => well_formed(opcode) && (opcode.address_mode
            == AddressingMode::Implied || opcode.address_mode == AddressingMode::Accumulator),
        CpuState::ReadingOperand {
            opcode,
            address_low_byte,
            address_high_byte,
            pointer,
            indirect_address_low_byte,
            indirect_address_high_byte,
            checked_page_boundary,
        } => {
            &&& well_formed(opcode)
            &&& opcode.address_mode != AddressingMode::Implied
            &&& opcode.address_mode != AddressingMode::Accumulator
            &&& indirect_address_low_byte is None && opcode.address_mode
                == AddressingMode::IndirectYIndexed ==> address_low_byte is None
            &&& opcode.address_mode != AddressingMode::Relative ==> stage(
                opcode.address_mode,
                address_low_byte,
                address_high_byte,
                pointer,
                indirect_address_low_byte,
                indirect_address_high_byte,
                checked_page_boundary,
            ) <= opcode.cycles - 2 - cycles_after_execute(opcode, true) + (if checked_page_boundary {
                1int
            } else {
                0int
            })
            &&& checked_page_boundary ==> {
                &&& opcode.address_mode == AddressingMode::AbsoluteXIndexed || opcode.address_mode
                    == AddressingMode::AbsoluteYIndexed || opcode.address_mode
                    == AddressingMode::IndirectYIndexed
                &&& address_low_byte is Some
                &&& address_high_byte is Some
                &&& spec_instruction_type(opcode.operation) != InstructionType::Write
                &&& spec_instruction_type(opcode.operation) == InstructionType::Read
                    ==> crosses_page(
                    address_low_byte->0,
                    if opcode.address_mode == AddressingMode::AbsoluteXIndexed {
                        core.registers.x
                    } else {
                        core.registers.y
                    },
                )
            }
        },
        CpuState::BranchCrossesPageBoundary { opcode, .. } => spec_instruction_type(
            opcode.operation,
        ) == InstructionType::Branch,
        CpuState::PreIncrementStackPointer { operation } => operation == Operation::PLA
            || operation == Operation::PLP || operation == Operation::RTI || operation
            == Operation::RTS,
        CpuState::PullRegisterFromStack { operation } => operation == Operation::PLA || operation
            == Operation::PLP || operation == Operation::RTI,
        CpuState::PullPCLFromStack { operation } => operation == Operation::RTI || operation
            == Operation::RTS,
        CpuState::PullPCHFromStack { operation, .. } => operation == Operation::RTI || operation
            == Operation::RTS,
        _ => true,
    }
}

/// One cycle brings the next opcode fetch one cycle nearer, and is internal
/// exactly when it uses up one of the internal cycles that are left.
pub open spec fn counts_down(core: Core, data: Seq<u8>, at: int) -> bool {
    let next = Cpu::spec_advance(core, data[at]);
    &&& in_flight(next)
    &&& cycles_left(core, data, at) >= 1
    &&& cycles_left(next, data, at + 1) == cycles_left(core, data, at) - 1
    &&& idle_left(next, data, at + 1) == idle_left(core, data, at) - (1 - touches_bus(core))
}

/// The cycles that are left once an operation has been performed.
pub open spec fn cycles_after_execute(opcode: Opcode, at_address: bool) -> int {
    match spec_instruction_type(opcode.operation) {
        InstructionType::Read | InstructionType::Implied => 0,
        InstructionType::Write => 1,
        InstructionType::ReadModifyWrite => if at_address {
            2
        } else {
            0
        },
        InstructionType::Jump => if opcode.operation == Operation::JSR {
            3
        } else {
            0
        },
        InstructionType::Branch => 1,
        InstructionType::Stack => match opcode.operation {
            Operation::PHA | Operation::PHP => 1,
            Operation::PLA | Operation::PLP => 2,
            Operation::BRK => 5,
            _ => 4,
        },
    }
}

/// The internal cycles that are left once an operation has been performed.
pub open spec fn idle_after_execute(opcode: Opcode) -> int {
    if opcode.operation == Operation::JSR || opcode.operation == Operation::RTS
        || spec_instruction_type(opcode.operation) == InstructionType::Branch {
        1
    } else {
        0
    }
}

/// Performing an operation leaves the cycles that its class calls for.
proof fn lemma_execute_lands(
    core: Core,
    opcode: Opcode,
    operand: Option<u8>,
    address: Option<u16>,
    data: Seq<u8>,
    at: int,
)
    ensures
        ({
            let next = spec_follow(core, Cpu::spec_execute(core.registers, opcode, operand, address));
            &&& in_flight(next)
            &&& cycles_left(next, data, at) == cycles_after_execute(opcode, address is Some)
            &&& idle_left(next, data, at) == idle_after_execute(opcode)
        }),
{
}

/// A cycle outside operand gathering counts down.
proof fn lemma_step_sequenced(core: Core, data: Seq<u8>, at: int)
    requires
        in_flight(core),
        !(core.state is FetchOpcode),
        !(core.state is ReadingOperand),
        0 <= at,
    ensures
        counts_down(core, data, at),
{
    match core.state {
        CpuState::ThrowawayRead { opcode, operand } => {
            lemma_execute_lands(core, opcode, operand, None, data, at + 1);
        },
        CpuState::BranchCrossesPageBoundary { opcode, operand, address } => {
            lemma_execute_lands(core, opcode, Some(operand), Some(address), data, at + 1);
        },
        _ => {},
    }
}

/// Whatever the registers, the operand and the address, performing an
/// operation leaves the cycles that its class calls for.
proof fn lemma_execute_lands_always(core: Core, opcode: Opcode, data: Seq<u8>, at: int)
    ensures
        forall|registers: Registers, operand: Option<u8>, address: Option<u16>|
            {
                let next = spec_follow(
                    core,
                    #[trigger] Cpu::spec_execute(registers, opcode, operand, address),
                );
                &&& in_flight(next)
                &&& cycles_left(next, data, at) == cycles_after_execute(opcode, address is Some)
                &&& idle_left(next, data, at) == idle_after_execute(opcode)
            },
{
    assert forall|registers: Registers, operand: Option<u8>, address: Option<u16>|
        {
            let next = spec_follow(
                core,
                #[trigger] Cpu::spec_execute(registers, opcode, operand, address),
            );
            &&& in_flight(next)
            &&& cycles_left(next, data, at) == cycles_after_execute(opcode, address is Some)
            &&& idle_left(next, data, at) == idle_after_execute(opcode)
        } by {
        lemma_execute_lands(Core { registers, ..core }, opcode, operand, address, data, at);
    }
}

/// Adding the index to the low byte alone gives the right address exactly
/// when the sum does not carry into the next page.
pub proof fn lemma_carry_is_page_crossing(low: u8, high: u8, index: u8)
    ensures
        (spec_indexed_address(low, high, index) == spec_uncarried_address(low, high, index))
            <==> !crosses_page(low, index),
{
}

/// The addressing mode of the opcode that a state of operand gathering holds.
pub open spec fn mode_in_flight(core: Core) -> AddressingMode {
    match core.state {
        CpuState::ReadingOperand { opcode, .. } => opcode.address_mode,
        _ => AddressingMode::Implied,
    }
}

/// A cycle of operand gathering in the mode `Immediate` counts down.
proof fn lemma_step_immediate(core: Core, data: Seq<u8>, at: int)
    requires
        in_flight(core),
        core.state is ReadingOperand,
        mode_in_flight(core) == AddressingMode::Immediate,
        0 <= at,
    ensures
        counts_down(core, data, at),
{
    match core.state {
        CpuState::ReadingOperand { opcode, .. } => {
            lemma_execute_lands_always(core, opcode, data, at + 1);
        },
        _ => {},
    }
}

/// A cycle of operand gathering in the mode `ZeroPage` counts down.
proof fn lemma_step_zero_page(core: Core, data: Seq<u8>, at: int)
    requires
        in_flight(core),
        core.state is ReadingOperand,
        mode_in_flight(core) == AddressingMode::ZeroPage,
        0 <= at,
    ensures
        counts_down(core, data, at),
{
    match core.state {
        CpuState::ReadingOperand { opcode, .. } => {
            lemma_execute_lands_always(core, opcode, data, at + 1);
        },
        _ => {},
    }
}

/// A cycle of operand gathering in the mode `ZeroPageXIndexed` counts down.
proof fn lemma_step_zero_page_x(core: Core, data: Seq<u8>, at: int)
    requires
        in_flight(core),
        core.state is ReadingOperand,
        mode_in_flight(core) == AddressingMode::ZeroPageXIndexed,
        0 <= at,
    ensures
        counts_down(core, data, at),
{
    match core.state {
        CpuState::ReadingOperand { opcode, .. } => {
            lemma_execute_lands_always(core, opcode, data, at + 1);
        },
        _ => {},
    }
}

/// A cycle of operand gathering in the mode `ZeroPageYIndexed` counts down.
proof fn lemma_step_zero_page_y(core: Core, data: Seq<u8>, at: int)
    requires
        in_flight(core),
        core.state is ReadingOperand,
        mode_in_flight(core) == AddressingMode::ZeroPageYIndexed,
        0 <= at,
    ensures
        counts_down(core, data, at),
{
    match core.state {
        CpuState::ReadingOperand { opcode, .. } => {
            lemma_execute_lands_always(core, opcode, data, at + 1);
        },
        _ => {},
    }
}

/// A cycle of operand gathering in the mode `Absolute` counts down.
proof fn lemma_step_absolute(core: Core, data: Seq<u8>, at: int)
    requires
        in_flight(core),
        core.state is ReadingOperand,
        mode_in_flight(core) == AddressingMode::Absolute,
        0 <= at,
    ensures
        counts_down(core, data, at),
{
    match core.state {
        CpuState::ReadingOperand { opcode, .. } => {
            lemma_execute_lands_always(core, opcode, data, at + 1);
        },
        _ => {},
    }
}

/// A cycle of operand gathering in the mode `AbsoluteXIndexed` counts down.
proof fn lemma_step_absolute_x(core: Core, data: Seq<u8>, at: int)
    requires
        in_flight(core),
        core.state is ReadingOperand,
        mode_in_flight(core) == AddressingMode::AbsoluteXIndexed,
        0 <= at,
    ensures
        counts_down(core, data, at),
{
    match core.state {
        CpuState::ReadingOperand { opcode, address_low_byte, address_high_byte, .. } => {
            lemma_execute_lands_always(core, opcode, data, at + 1);
            if address_low_byte is Some && address_high_byte is Some {
                lemma_carry_is_page_crossing(
                    address_low_byte->0,
                    address_high_byte->0,
                    core.registers.x,
                );
            }
        },
        _ => {},
    }
}

/// A cycle of operand gathering in the mode `AbsoluteYIndexed` counts down.
proof fn lemma_step_absolute_y(core: Core, data: Seq<u8>, at: int)
    requires
        in_flight(core),
        core.state is ReadingOperand,
        mode_in_flight(core) == AddressingMode::AbsoluteYIndexed,
        0 <= at,
    ensures
        counts_down(core, data, at),
{
    match core.state {
        CpuState::ReadingOperand { opcode, address_low_byte, address_high_byte, .. } => {
            lemma_execute_lands_always(core, opcode, data, at + 1);
            if address_low_byte is Some && address_high_byte is Some {
                lemma_carry_is_page_crossing(
                    address_low_byte->0,
                    address_high_byte->0,
                    core.registers.y,
                );
            }
        },
        _ => {},
    }
}

/// A cycle of operand gathering in the mode `Indirect` counts down.
proof fn lemma_step_indirect(core: Core, data: Seq<u8>, at: int)
    requires
        in_flight(core),
        core.state is ReadingOperand,
        mode_in_flight(core) == AddressingMode::Indirect,
        0 <= at,
    ensures
        counts_down(core, data, at),
{
    match core.state {
        CpuState::ReadingOperand { opcode, .. } => {
            lemma_execute_lands_always(core, opcode, data, at + 1);
        },
        _ => {},
    }
}

/// A cycle of operand gathering in the mode `IndirectXIndexed` counts down.
proof fn lemma_step_indirect_x(core: Core, data: Seq<u8>, at: int)
    requires
        in_flight(core),
        core.state is ReadingOperand,
        mode_in_flight(core) == AddressingMode::IndirectXIndexed,
        0 <= at,
    ensures
        counts_down(core, data, at),
{
    match core.state {
        CpuState::ReadingOperand { opcode, .. } => {
            lemma_execute_lands_always(core, opcode, data, at + 1);
        },
        _ => {},
    }
}

/// A cycle of operand gathering in the mode `IndirectYIndexed` counts down.
proof fn lemma_step_indirect_y(core: Core, data: Seq<u8>, at: int)
    requires
        in_flight(core),
        core.state is ReadingOperand,
        mode_in_flight(core) == AddressingMode::IndirectYIndexed,
        0 <= at,
    ensures
        counts_down(core, data, at),
{
    match core.state {
        CpuState::ReadingOperand { opcode, address_low_byte, address_high_byte, .. } => {
            lemma_execute_lands_always(core, opcode, data, at + 1);
            if address_low_byte is Some && address_high_byte is Some {
                lemma_carry_is_page_crossing(
                    address_low_byte->0,
                    address_high_byte->0,
                    core.registers.y,
                );
            }
        },
        _ => {},
    }
}

/// A cycle of operand gathering in the mode `Relative` counts down.
proof fn lemma_step_relative(core: Core, data: Seq<u8>, at: int)
    requires
        in_flight(core),
        core.state is ReadingOperand,
        mode_in_flight(core) == AddressingMode::Relative,
        0 <= at,
    ensures
        counts_down(core, data, at),
{
    match core.state {
        CpuState::ReadingOperand { opcode, .. } => {
            lemma_execute_lands_always(core, opcode, data, at + 1);
        },
        _ => {},
    }
}

/// Every cycle between two opcode fetches counts down.
proof fn lemma_step(core: Core, data: Seq<u8>, at: int)
    requires
        in_flight(core),
        !(core.state is FetchOpcode),
        0 <= at,
    ensures
        counts_down(core, data, at),
{
    if core.state is ReadingOperand {
        match mode_in_flight(core) {
            AddressingMode::Immediate => lemma_step_immediate(core, data, at),
            AddressingMode::ZeroPage => lemma_step_zero_page(core, data, at),
            AddressingMode::ZeroPageXIndexed => lemma_step_zero_page_x(core, data, at),
            AddressingMode::ZeroPageYIndexed => lemma_step_zero_page_y(core, data, at),
            AddressingMode::Absolute => lemma_step_absolute(core, data, at),
            AddressingMode::AbsoluteXIndexed => lemma_step_absolute_x(core, data, at),
            AddressingMode::AbsoluteYIndexed => lemma_step_absolute_y(core, data, at),
            AddressingMode::Indirect => lemma_step_indirect(core, data, at),
            AddressingMode::IndirectXIndexed => lemma_step_indirect_x(core, data, at),
            AddressingMode::IndirectYIndexed => lemma_step_indirect_y(core, data, at),
            AddressingMode::Relative => lemma_step_relative(core, data, at),
            _ => {},
        }
    } else {
        lemma_step_sequenced(core, data, at);
    }
}

/// The cycle that fetches an opcode leaves the cycles of the instruction
/// less one, and all its internal cycles, still to come.
proof fn lemma_fetch_starts(core: Core, data: Seq<u8>)
    requires
        at_instruction_start(core),
    ensures
        ({
            let next = Cpu::spec_advance(core, data[0]);
            &&& in_flight(next)
            &&& !(next.state is FetchOpcode)
            &&& cycles_left(next, data, 1) == instruction_cycles(core, data) - 1
            &&& idle_left(next, data, 1) == internal_cycles(core, data)
            &&& touches_bus(core) == 1
            &&& 2 <= instruction_cycles(core, data) <= 8
        }),
{
    lemma_matrix_well_formed(data[0]);
}

/// Whether the cycle that `core` performs as an opcode fetch leaves `total`
/// cycles less one, and `idle` internal cycles, before the next opcode fetch.
pub open spec fn starts_sequence(core: Core, data: Seq<u8>, total: int, idle: int) -> bool {
    let next = Cpu::spec_advance(core, data[0]);
    &&& core.state is FetchOpcode
    &&& in_flight(next)
    &&& cycles_left(next, data, 1) == total - 1
    &&& idle_left(next, data, 1) == idle
}

/// After `cycles` cycles of a sequence, its remaining cycles and internal
/// cycles are those of the whole less the ones spent.
proof fn lemma_run_counts_down(core: Core, data: Seq<u8>, total: int, idle: int, cycles: nat)
    requires
        starts_sequence(core, data, total, idle),
        1 <= cycles <= total,
    ensures
        in_flight(run(core, data, cycles)),
        cycles_left(run(core, data, cycles), data, cycles as int) == total - cycles,
        idle_left(run(core, data, cycles), data, cycles as int) == idle - (cycles - transactions(
            core,
            data,
            cycles,
        )),
    decreases cycles,
{
    if cycles == 1 {
        assert(run(core, data, 0) == core);
        assert(run(core, data, 1) == Cpu::spec_advance(core, data[0]));
        assert(transactions(core, data, 0) == 0);
        assert(transactions(core, data, 1) == 1);
    } else {
        let before = (cycles - 1) as nat;
        lemma_run_counts_down(core, data, total, idle, before);
        let previous = run(core, data, before);
        assert(cycles_left(previous, data, before as int) >= 1);
        lemma_step(previous, data, before as int);
        assert(run(core, data, cycles) == Cpu::spec_advance(previous, data[before as int]));
        assert(transactions(core, data, cycles) == transactions(core, data, before) + touches_bus(
            previous,
        ));
    }
}

/// A sequence of `total` cycles ends at an opcode fetch and nowhere before.
proof fn lemma_sequence_ends(core: Core, data: Seq<u8>, total: int, idle: int)
    requires
        starts_sequence(core, data, total, idle),
        1 <= total,
    ensures
        run(core, data, total as nat).state is FetchOpcode,
        forall|k: nat| 0 < k < total ==> !(#[trigger] run(core, data, k).state is FetchOpcode),
        transactions(core, data, total as nat) == total - idle,
{
    lemma_run_counts_down(core, data, total, idle, total as nat);
    assert forall|k: nat| 0 < k < total implies !(#[trigger] run(core, data, k).state is FetchOpcode) by {
        lemma_run_counts_down(core, data, total, idle, k);
    }
}

/// From the fetch of an opcode, with no interrupt due, the processor is back
/// at an opcode fetch after exactly the canonical cycle count of the opcode
/// plus its page-crossing or branch penalty, whatever the registers hold and
/// whatever the bus answers; and each of those cycles makes exactly one bus
/// transaction, but for the internal cycles of JSR, RTS and taken branches.
pub proof fn lemma_instruction_timing(core: Core, data: Seq<u8>)
    requires
        at_instruction_start(core),
    ensures
        timing_holds(core, data),
{
    lemma_fetch_starts(core, data);
    lemma_sequence_ends(core, data, instruction_cycles(core, data), internal_cycles(core, data));
}

/// For every opcode but JSR, RTS and the branches, the bus transactions of
/// the instruction number exactly its canonical cycle count plus its
/// page-crossing penalty.
pub proof fn lemma_transactions_equal_cycles(core: Core, data: Seq<u8>)
    requires
        at_instruction_start(core),
        spec_decode(data[0]).operation != Operation::JSR,
        spec_decode(data[0]).operation != Operation::RTS,
        spec_decode(data[0]).address_mode != AddressingMode::Relative,
    ensures
        transactions(core, data, instruction_cycles(core, data) as nat) == spec_decode(
            data[0],
        ).cycles + penalty(core, data),
{
    lemma_instruction_timing(core, data);
}

/// An interrupt sequence takes seven cycles from the opcode fetch that it
/// replaces to the first opcode fetch of its handler.
pub proof fn lemma_interrupt_timing(core: Core, data: Seq<u8>)
    requires
        core.state is FetchOpcode,
        spec_interrupt_due(core),
    ensures
        run(core, data, 7).state is FetchOpcode,
        forall|k: nat| 0 < k < 7 ==> !(#[trigger] run(core, data, k).state is FetchOpcode),
        transactions(core, data, 7) == 7,
{
    lemma_sequence_ends(core, data, 7, 0);
}

} // verus!
