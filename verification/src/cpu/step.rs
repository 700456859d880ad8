//! One cycle of the processor: the bus operation it performs and the state
//! that the byte on the bus leaves it in.
use vstd::prelude::*;
use crate::cpu::addressing::{reading, spec_reading};
use crate::cpu::opcodes::{AddressingMode, Operation, decode, spec_decode};
use crate::cpu::registers::{
    Registers, dec16, spec_dec16, dec8, spec_dec8, high_byte, spec_high_byte, inc16, spec_inc16,
    inc8, spec_inc8, low_byte, spec_low_byte, stack_address, spec_stack_address, word, spec_word,
};
use crate::cpu::status_flags::{
    StatusFlags, status_bits, spec_status_bits, status_from_bits, spec_status_from_bits,
};
use crate::cpu::{BusOperation, Core, Cpu, CpuState, Interrupt, Transition};

verus! {

/// A read of `address`.
pub open spec fn spec_read_at(address: u16) -> BusOperation {
    BusOperation::Read { address }
}

/// A read of `address`.
pub fn read_at(address: u16) -> (result: BusOperation)
    ensures
        result == spec_read_at(address),
{
    BusOperation::Read { address }
}

/// The vector through which an interrupt sequence jumps. A pending NMI
/// takes over the sequence of a BRK or an IRQ.
pub open spec fn spec_interrupt_vector(interrupt: Interrupt, nmi_pending: bool) -> u16 {
    match interrupt {
        Interrupt::Reset => 0xFFFC,
        Interrupt::NonMaskable => 0xFFFA,
        _ => if nmi_pending {
            0xFFFA
        } else {
            0xFFFE
        },
    }
}

/// The vector through which an interrupt sequence jumps. A pending NMI
/// takes over the sequence of a BRK or an IRQ.
pub fn interrupt_vector(interrupt: Interrupt, nmi_pending: bool) -> (result: u16)
    ensures
        result == spec_interrupt_vector(interrupt, nmi_pending),
{
    match interrupt {
        Interrupt::Reset => 0xFFFC,
        Interrupt::NonMaskable => 0xFFFA,
        _ => if nmi_pending {
            0xFFFA
        } else {
            0xFFFE
        },
    }
}

/// Whether an interrupt is served in place of the next opcode fetch.
pub open spec fn spec_interrupt_due(core: Core) -> bool {
    core.reset_pending || core.nmi_pending || (core.irq_line
        && !core.registers.status_register.interrupt_disable)
}

/// Whether an interrupt is served in place of the next opcode fetch.
pub fn interrupt_due(core: Core) -> (result: bool)
    ensures
        result == spec_interrupt_due(core),
{
    core.reset_pending || core.nmi_pending || (core.irq_line
        && !core.registers.status_register.interrupt_disable)
}

/// The interrupt that is served when one is due: reset before NMI before IRQ.
pub open spec fn spec_due_interrupt(core: Core) -> Interrupt {
    if core.reset_pending {
        Interrupt::Reset
    } else if core.nmi_pending {
        Interrupt::NonMaskable
    } else {
        Interrupt::Request
    }
}

/// The interrupt that is served when one is due: reset before NMI before IRQ.
pub fn due_interrupt(core: Core) -> (result: Interrupt)
    ensures
        result == spec_due_interrupt(core),
{
    if core.reset_pending {
        Interrupt::Reset
    } else if core.nmi_pending {
        Interrupt::NonMaskable
    } else {
        Interrupt::Request
    }
}

/// The core with the registers and state of a transition.
pub open spec fn spec_follow(core: Core, transition: Transition) -> Core {
    Core { state: transition.state, registers: transition.registers, ..core }
}

/// The core with the registers and state of a transition.
pub fn follow(core: Core, transition: Transition) -> (result: Core)
    ensures
        result == spec_follow(core, transition),
{
    Core { state: transition.state, registers: transition.registers, ..core }
}

/// The core in another state.
pub open spec fn spec_enter(core: Core, state: CpuState) -> Core {
    Core { state, ..core }
}

/// The core in another state.
pub fn enter(core: Core, state: CpuState) -> (result: Core)
    ensures
        result == spec_enter(core, state),
{
    Core { state, ..core }
}

impl Cpu {
    /// The registers after a byte went to the stack: the stack pointer
    /// moves down, wrapping inside page one.
    pub open spec fn spec_push_to_stack(registers: Registers) -> Registers {
        Registers { stack_pointer: spec_dec8(registers.stack_pointer), ..registers }
    }

    /// The registers after a byte went to the stack: the stack pointer
    /// moves down, wrapping inside page one.
    pub fn push_to_stack(registers: Registers) -> (result: Registers)
        ensures
            result == Self::spec_push_to_stack(registers),
    {
        Registers { stack_pointer: dec8(registers.stack_pointer), ..registers }
    }

    /// The registers after a byte came from the stack: the stack pointer
    /// moves up, wrapping inside page one.
    pub open spec fn spec_pop_from_stack(registers: Registers) -> Registers {
        Registers { stack_pointer: spec_inc8(registers.stack_pointer), ..registers }
    }

    /// The registers after a byte came from the stack: the stack pointer
    /// moves up, wrapping inside page one.
    pub fn pop_from_stack(registers: Registers) -> (result: Registers)
        ensures
            result == Self::spec_pop_from_stack(registers),
    {
        Registers { stack_pointer: inc8(registers.stack_pointer), ..registers }
    }

    /// The registers after the byte at the program counter was read.
    pub open spec fn spec_read_and_inc_program_counter(registers: Registers) -> Registers {
        Registers { program_counter: spec_inc16(registers.program_counter), ..registers }
    }

    /// The registers after the byte at the program counter was read.
    pub fn read_and_inc_program_counter(registers: Registers) -> (result: Registers)
        ensures
            result == Self::spec_read_and_inc_program_counter(registers),
    {
        Registers { program_counter: inc16(registers.program_counter), ..registers }
    }

    /// The access that the processor makes in its next cycle.
    pub open spec fn spec_bus_operation(core: Core) -> BusOperation {
        match core.state {
            CpuState::FetchOpcode => spec_read_at(core.registers.program_counter),
            CpuState::ThrowawayRead { .. } => spec_read_at(core.registers.program_counter),
            CpuState::ReadingOperand {
                opcode,
                address_low_byte,
                address_high_byte,
                pointer,
                indirect_address_low_byte,
                indirect_address_high_byte,
                checked_page_boundary,
            } => spec_read_at(
                Self::spec_operand_address(
                    core.registers,
                    opcode,
                    address_low_byte,
                    address_high_byte,
                    pointer,
                    indirect_address_low_byte,
                    indirect_address_high_byte,
                    checked_page_boundary,
                ),
            ),
            CpuState::BranchCrossesPageBoundary { .. } => BusOperation::Idle,
            CpuState::PushRegisterOnStack { value } => BusOperation::Write {
                address: spec_stack_address(core.registers.stack_pointer),
                value,
            },
            CpuState::PreIncrementStackPointer { .. } => spec_read_at(
                spec_stack_address(core.registers.stack_pointer),
            ),
            CpuState::PullRegisterFromStack { .. } => spec_read_at(
                spec_stack_address(spec_inc8(core.registers.stack_pointer)),
            ),
            CpuState::PullPCLFromStack { .. } => spec_read_at(
                spec_stack_address(spec_inc8(core.registers.stack_pointer)),
            ),
            CpuState::PullPCHFromStack { .. } => spec_read_at(
                spec_stack_address(spec_inc8(core.registers.stack_pointer)),
            ),
            CpuState::IncrementProgramCounter => BusOperation::Idle,
            CpuState::WritePCHToStack { .. } => BusOperation::Write {
                address: spec_stack_address(core.registers.stack_pointer),
                value: spec_high_byte(spec_dec16(core.registers.program_counter)),
            },
            CpuState::WritePCLToStack { .. } => BusOperation::Write {
                address: spec_stack_address(core.registers.stack_pointer),
                value: spec_low_byte(spec_dec16(core.registers.program_counter)),
            },
            CpuState::SetProgramCounter { .. } => BusOperation::Idle,
            CpuState::WritingResult { address, value, dummy } => match dummy {
                Some(original) => BusOperation::Write { address, value: original },
                None => BusOperation::Write { address, value },
            },
            CpuState::InterruptThrowawayRead { .. } => spec_read_at(core.registers.program_counter),
            CpuState::PushPCHForInterrupt { interrupt } => match interrupt {
                Interrupt::Reset => spec_read_at(spec_stack_address(core.registers.stack_pointer)),
                _ => BusOperation::Write {
                    address: spec_stack_address(core.registers.stack_pointer),
                    value: spec_high_byte(core.registers.program_counter),
                },
            },
            CpuState::PushPCLForInterrupt { interrupt } => match interrupt {
                Interrupt::Reset => spec_read_at(spec_stack_address(core.registers.stack_pointer)),
                _ => BusOperation::Write {
                    address: spec_stack_address(core.registers.stack_pointer),
                    value: spec_low_byte(core.registers.program_counter),
                },
            },
            CpuState::PushStatusForInterrupt { interrupt } => match interrupt {
                Interrupt::Reset => spec_read_at(spec_stack_address(core.registers.stack_pointer)),
                _ => BusOperation::Write {
                    address: spec_stack_address(core.registers.stack_pointer),
                    value: spec_status_bits(
                        StatusFlags {
                            break_command: interrupt == Interrupt::Break,
                            ..core.registers.status_register
                        },
                    ),
                },
            },
            CpuState::ReadVectorLow { vector } => spec_read_at(vector),
            CpuState::ReadVectorHigh { vector, .. } => spec_read_at(spec_inc16(vector)),
        }
    }

    /// The access that the processor makes in its next cycle.
    pub fn bus_operation(core: Core) -> (result: BusOperation)
        ensures
            result == Self::spec_bus_operation(core),
    {
        match core.state {
            CpuState::FetchOpcode => read_at(core.registers.program_counter),
            CpuState::ThrowawayRead { .. } => read_at(core.registers.program_counter),
            CpuState::ReadingOperand {
                opcode,
                address_low_byte,
                address_high_byte,
                pointer,
                indirect_address_low_byte,
                indirect_address_high_byte,
                checked_page_boundary,
            } => read_at(
                Self::operand_address(
                    core.registers,
                    opcode,
                    address_low_byte,
                    address_high_byte,
                    pointer,
                    indirect_address_low_byte,
                    indirect_address_high_byte,
                    checked_page_boundary,
                ),
            ),
            CpuState::BranchCrossesPageBoundary { .. } => BusOperation::Idle,
            CpuState::PushRegisterOnStack { value } => BusOperation::Write {
                address: stack_address(core.registers.stack_pointer),
                value,
            },
            CpuState::PreIncrementStackPointer { .. } => read_at(
                stack_address(core.registers.stack_pointer),
            ),
            CpuState::PullRegisterFromStack { .. } => read_at(
                stack_address(inc8(core.registers.stack_pointer)),
            ),
            CpuState::PullPCLFromStack { .. } => read_at(
                stack_address(inc8(core.registers.stack_pointer)),
            ),
            CpuState::PullPCHFromStack { .. } => read_at(
                stack_address(inc8(core.registers.stack_pointer)),
            ),
            CpuState::IncrementProgramCounter => BusOperation::Idle,
            CpuState::WritePCHToStack { .. } => BusOperation::Write {
                address: stack_address(core.registers.stack_pointer),
                value: high_byte(dec16(core.registers.program_counter)),
            },
            CpuState::WritePCLToStack { .. } => BusOperation::Write {
                address: stack_address(core.registers.stack_pointer),
                value: low_byte(dec16(core.registers.program_counter)),
            },
            CpuState::SetProgramCounter { .. } => BusOperation::Idle,
            CpuState::WritingResult { address, value, dummy } => match dummy {
                Some(original) => BusOperation::Write { address, value: original },
                None => BusOperation::Write { address, value },
            },
            CpuState::InterruptThrowawayRead { .. } => read_at(core.registers.program_counter),
            CpuState::PushPCHForInterrupt { interrupt } => match interrupt {
                Interrupt::Reset => read_at(stack_address(core.registers.stack_pointer)),
                _ => BusOperation::Write {
                    address: stack_address(core.registers.stack_pointer),
                    value: high_byte(core.registers.program_counter),
                },
            },
            CpuState::PushPCLForInterrupt { interrupt } => match interrupt {
                Interrupt::Reset => read_at(stack_address(core.registers.stack_pointer)),
                _ => BusOperation::Write {
                    address: stack_address(core.registers.stack_pointer),
                    value: low_byte(core.registers.program_counter),
                },
            },
            CpuState::PushStatusForInterrupt { interrupt } => match interrupt {
                Interrupt::Reset => read_at(stack_address(core.registers.stack_pointer)),
                _ => BusOperation::Write {
                    address: stack_address(core.registers.stack_pointer),
                    value: status_bits(
                        StatusFlags {
                            break_command: interrupt == Interrupt::Break,
                            ..core.registers.status_register
                        },
                    ),
                },
            },
            CpuState::ReadVectorLow { vector } => read_at(vector),
            CpuState::ReadVectorHigh { vector, .. } => read_at(inc16(vector)),
        }
    }

    /// Where the cycle that pulls a register leads once `data` has come from
    /// the stack.
    pub open spec fn spec_next_pull_register_state(
        registers: Registers,
        operation: Operation,
        data: u8,
    ) -> Transition {
        match operation {
            Operation::PLA => Transition {
                registers: Self::spec_load_a(Self::spec_pop_from_stack(registers), data),
                state: CpuState::FetchOpcode,
            },
            Operation::RTI => Transition {
                registers: Registers {
                    status_register: spec_status_from_bits(data),
                    ..Self::spec_pop_from_stack(registers)
                },
                state: CpuState::PullPCLFromStack { operation },
            },
            _ => Transition {
                registers: Registers {
                    status_register: spec_status_from_bits(data),
                    ..Self::spec_pop_from_stack(registers)
                },
                state: CpuState::FetchOpcode,
            },
        }
    }

    /// Where the cycle that pulls a register leads once `data` has come from
    /// the stack.
    pub fn next_pull_register_state(
        registers: Registers,
        operation: Operation,
        data: u8,
    ) -> (result: Transition)
        ensures
            result == Self::spec_next_pull_register_state(registers, operation, data),
    {
        match operation {
            Operation::PLA => Transition {
                registers: Self::load_a(Self::pop_from_stack(registers), data),
                state: CpuState::FetchOpcode,
            },
            Operation::RTI => Transition {
                registers: Registers {
                    status_register: status_from_bits(data),
                    ..Self::pop_from_stack(registers)
                },
                state: CpuState::PullPCLFromStack { operation },
            },
            _ => Transition {
                registers: Registers {
                    status_register: status_from_bits(data),
                    ..Self::pop_from_stack(registers)
                },
                state: CpuState::FetchOpcode,
            },
        }
    }

    /// The core after the cycle that pushes the status register for an
    /// interrupt: the vector is chosen, a served NMI is forgotten, and
    /// further IRQs are masked.
    pub open spec fn spec_next_push_status_state(core: Core, interrupt: Interrupt) -> Core {
        Core {
            state: CpuState::ReadVectorLow {
                vector: spec_interrupt_vector(interrupt, core.nmi_pending),
            },
            registers: Registers {
                status_register: StatusFlags {
                    interrupt_disable: true,
                    ..core.registers.status_register
                },
                ..Self::spec_push_to_stack(core.registers)
            },
            nmi_pending: if interrupt == Interrupt::Reset {
                core.nmi_pending
            } else {
                false
            },
            ..core
        }
    }

    /// The core after the cycle that pushes the status register for an
    /// interrupt: the vector is chosen, a served NMI is forgotten, and
    /// further IRQs are masked.
    pub fn next_push_status_state(core: Core, interrupt: Interrupt) -> (result: Core)
        ensures
            result == Self::spec_next_push_status_state(core, interrupt),
    {
        Core {
            state: CpuState::ReadVectorLow {
                vector: interrupt_vector(interrupt, core.nmi_pending),
            },
            registers: Registers {
                status_register: StatusFlags {
                    interrupt_disable: true,
                    ..core.registers.status_register
                },
                ..Self::push_to_stack(core.registers)
            },
            nmi_pending: if interrupt == Interrupt::Reset {
                core.nmi_pending
            } else {
                false
            },
            ..core
        }
    }

    /// The core after the cycle in which it is due to fetch an opcode and
    /// `data` came back from the program counter.
    pub open spec fn spec_next_fetch_state(core: Core, data: u8) -> Core {
        if spec_interrupt_due(core) {
            Core {
                state: CpuState::InterruptThrowawayRead { interrupt: spec_due_interrupt(core) },
                reset_pending: false,
                ..core
            }
        } else {
            Core {
                state: match spec_decode(data).address_mode {
                    AddressingMode::Accumulator => CpuState::ThrowawayRead {
                        opcode: spec_decode(data),
                        operand: Some(core.registers.a),
                    },
                    AddressingMode::Implied => CpuState::ThrowawayRead {
                        opcode: spec_decode(data),
                        operand: None,
                    },
                    _ => spec_reading(spec_decode(data)),
                },
                registers: Self::spec_read_and_inc_program_counter(core.registers),
                ..core
            }
        }
    }

    /// The core after the cycle in which it is due to fetch an opcode and
    /// `data` came back from the program counter.
    pub fn next_fetch_state(core: Core, data: u8) -> (result: Core)
        ensures
            result == Self::spec_next_fetch_state(core, data),
    {
        if interrupt_due(core) {
            Core {
                state: CpuState::InterruptThrowawayRead { interrupt: due_interrupt(core) },
                reset_pending: false,
                ..core
            }
        } else {
            Core {
                state: match decode(data).address_mode {
                    AddressingMode::Accumulator => CpuState::ThrowawayRead {
                        opcode: decode(data),
                        operand: Some(core.registers.a),
                    },
                    AddressingMode::Implied => CpuState::ThrowawayRead {
                        opcode: decode(data),
                        operand: None,
                    },
                    _ => reading(decode(data)),
                },
                registers: Self::read_and_inc_program_counter(core.registers),
                ..core
            }
        }
    }

    /// The core after one cycle in which the bus answered `data`. For a
    /// cycle that reads, `data` is the byte read; other cycles ignore it.
    pub open spec fn spec_advance(core: Core, data: u8) -> Core {
        match core.state {
            CpuState::FetchOpcode => Self::spec_next_fetch_state(core, data),
            CpuState::ThrowawayRead { opcode, operand } => spec_follow(
                core,
                Self::spec_execute(core.registers, opcode, operand, None),
            ),
            CpuState::ReadingOperand {
                opcode,
                address_low_byte,
                address_high_byte,
                pointer,
                indirect_address_low_byte,
                indirect_address_high_byte,
                checked_page_boundary,
            } => spec_follow(
                core,
                Self::spec_next_operand_state(
                    core.registers,
                    opcode,
                    address_low_byte,
                    address_high_byte,
                    pointer,
                    indirect_address_low_byte,
                    indirect_address_high_byte,
                    checked_page_boundary,
                    data,
                ),
            ),
            CpuState::BranchCrossesPageBoundary { opcode, operand, address } => spec_follow(
                core,
                Self::spec_execute(core.registers, opcode, Some(operand), Some(address)),
            ),
            CpuState::PushRegisterOnStack { .. } => Core {
                state: CpuState::FetchOpcode,
                registers: Self::spec_push_to_stack(core.registers),
                ..core
            },
            CpuState::PreIncrementStackPointer { operation } => match operation {
                Operation::RTS => spec_enter(core, CpuState::PullPCLFromStack { operation }),
                _ => spec_enter(core, CpuState::PullRegisterFromStack { operation }),
            },
            CpuState::PullRegisterFromStack { operation } => spec_follow(
                core,
                Self::spec_next_pull_register_state(core.registers, operation, data),
            ),
            CpuState::PullPCLFromStack { operation } => Core {
                state: CpuState::PullPCHFromStack { operation, pcl: data },
                registers: Self::spec_pop_from_stack(core.registers),
                ..core
            },
            CpuState::PullPCHFromStack { operation, pcl } => Core {
                state: match operation {
                    Operation::RTS => CpuState::IncrementProgramCounter,
                    _ => CpuState::FetchOpcode,
                },
                registers: Registers {
                    program_counter: spec_word(pcl, data),
                    ..Self::spec_pop_from_stack(core.registers)
                },
                ..core
            },
            CpuState::IncrementProgramCounter => Core {
                state: CpuState::FetchOpcode,
                registers: Self::spec_read_and_inc_program_counter(core.registers),
                ..core
            },
            CpuState::WritePCHToStack { address } => Core {
                state: CpuState::WritePCLToStack { address },
                registers: Self::spec_push_to_stack(core.registers),
                ..core
            },
            CpuState::WritePCLToStack { address } => Core {
                state: CpuState::SetProgramCounter { address },
                registers: Self::spec_push_to_stack(core.registers),
                ..core
            },
            CpuState::SetProgramCounter { address } => Core {
                state: CpuState::FetchOpcode,
                registers: Registers { program_counter: address, ..core.registers },
                ..core
            },
            CpuState::WritingResult { address, value, dummy } => match dummy {
                Some(_) => spec_enter(core, CpuState::WritingResult { address, value, dummy: None }),
                None => spec_enter(core, CpuState::FetchOpcode),
            },
            CpuState::InterruptThrowawayRead { interrupt } => spec_enter(
                core,
                CpuState::PushPCHForInterrupt { interrupt },
            ),
            CpuState::PushPCHForInterrupt { interrupt } => Core {
                state: CpuState::PushPCLForInterrupt { interrupt },
                registers: Self::spec_push_to_stack(core.registers),
                ..core
            },
            CpuState::PushPCLForInterrupt { interrupt } => Core {
                state: CpuState::PushStatusForInterrupt { interrupt },
                registers: Self::spec_push_to_stack(core.registers),
                ..core
            },
            CpuState::PushStatusForInterrupt { interrupt } => Self::spec_next_push_status_state(
                core,
                interrupt,
            ),
            CpuState::ReadVectorLow { vector } => spec_enter(
                core,
                CpuState::ReadVectorHigh { vector, low: data },
            ),
            CpuState::ReadVectorHigh { low, .. } => Core {
                state: CpuState::FetchOpcode,
                registers: Registers { program_counter: spec_word(low, data), ..core.registers },
                ..core
            },
        }
    }

    /// The core after one cycle in which the bus answered `data`. For a
    /// cycle that reads, `data` is the byte read; other cycles ignore it.
    pub fn advance(core: Core, data: u8) -> (result: Core)
        ensures
            result == Self::spec_advance(core, data),
    {
        match core.state {
            CpuState::FetchOpcode => Self::next_fetch_state(core, data),
            CpuState::ThrowawayRead { opcode, operand } => follow(
                core,
                Self::execute(core.registers, opcode, operand, None),
            ),
            CpuState::ReadingOperand {
                opcode,
                address_low_byte,
                address_high_byte,
                pointer,
                indirect_address_low_byte,
                indirect_address_high_byte,
                checked_page_boundary,
            } => follow(
                core,
                Self::next_operand_state(
                    core.registers,
                    opcode,
                    address_low_byte,
                    address_high_byte,
                    pointer,
                    indirect_address_low_byte,
                    indirect_address_high_byte,
                    checked_page_boundary,
                    data,
                ),
            ),
            CpuState::BranchCrossesPageBoundary { opcode, operand, address } => follow(
                core,
                Self::execute(core.registers, opcode, Some(operand), Some(address)),
            ),
            CpuState::PushRegisterOnStack { .. } => Core {
                state: CpuState::FetchOpcode,
                registers: Self::push_to_stack(core.registers),
                ..core
            },
            CpuState::PreIncrementStackPointer { operation } => match operation {
                Operation::RTS => enter(core, CpuState::PullPCLFromStack { operation }),
                _ => enter(core, CpuState::PullRegisterFromStack { operation }),
            },
            CpuState::PullRegisterFromStack { operation } => follow(
                core,
                Self::next_pull_register_state(core.registers, operation, data),
            ),
            CpuState::PullPCLFromStack { operation } => Core {
                state: CpuState::PullPCHFromStack { operation, pcl: data },
                registers: Self::pop_from_stack(core.registers),
                ..core
            },
            CpuState::PullPCHFromStack { operation, pcl } => Core {
                state: match operation {
                    Operation::RTS => CpuState::IncrementProgramCounter,
                    _ => CpuState::FetchOpcode,
                },
                registers: Registers {
                    program_counter: word(pcl, data),
                    ..Self::pop_from_stack(core.registers)
                },
                ..core
            },
            CpuState::IncrementProgramCounter => Core {
                state: CpuState::FetchOpcode,
                registers: Self::read_and_inc_program_counter(core.registers),
                ..core
            },
            CpuState::WritePCHToStack { address } => Core {
                state: CpuState::WritePCLToStack { address },
                registers: Self::push_to_stack(core.registers),
                ..core
            },
            CpuState::WritePCLToStack { address } => Core {
                state: CpuState::SetProgramCounter { address },
                registers: Self::push_to_stack(core.registers),
                ..core
            },
            CpuState::SetProgramCounter { address } => Core {
                state: CpuState::FetchOpcode,
                registers: Registers { program_counter: address, ..core.registers },
                ..core
            },
            CpuState::WritingResult { address, value, dummy } => match dummy {
                Some(_) => enter(core, CpuState::WritingResult { address, value, dummy: None }),
                None => enter(core, CpuState::FetchOpcode),
            },
            CpuState::InterruptThrowawayRead { interrupt } => enter(
                core,
                CpuState::PushPCHForInterrupt { interrupt },
            ),
            CpuState::PushPCHForInterrupt { interrupt } => Core {
                state: CpuState::PushPCLForInterrupt { interrupt },
                registers: Self::push_to_stack(core.registers),
                ..core
            },
            CpuState::PushPCLForInterrupt { interrupt } => Core {
                state: CpuState::PushStatusForInterrupt { interrupt },
                registers: Self::push_to_stack(core.registers),
                ..core
            },
            CpuState::PushStatusForInterrupt { interrupt } => Self::next_push_status_state(
                core,
                interrupt,
            ),
            CpuState::ReadVectorLow { vector } => enter(
                core,
                CpuState::ReadVectorHigh { vector, low: data },
            ),
            CpuState::ReadVectorHigh { low, .. } => Core {
                state: CpuState::FetchOpcode,
                registers: Registers { program_counter: word(low, data), ..core.registers },
                ..core
            },
        }
    }
}

} // verus!
