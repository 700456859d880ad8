//! The cycle sequences of the addressing modes: which address each cycle
//! reads, and where the byte that came back leads.
use vstd::prelude::*;
use crate::cpu::execute::{branch_taken, spec_branch_taken};
use crate::cpu::opcodes::{
    AddressingMode, InstructionType, Opcode, instruction_type, spec_instruction_type,
};
use crate::cpu::registers::{
    Registers, branch_target, spec_branch_target, high_byte, spec_high_byte, inc16, spec_inc16,
    inc8, spec_inc8, offset16, spec_offset16, word, spec_word, wrap8, spec_wrap8,
};
use crate::cpu::{Cpu, CpuState, Transition};

verus! {

/// The state that gathers an operand, with nothing gathered yet.
pub open spec fn spec_reading(opcode: Opcode) -> CpuState {
    CpuState::ReadingOperand {
        opcode,
        address_low_byte: None,
        address_high_byte: None,
        pointer: None,
        indirect_address_low_byte: None,
        indirect_address_high_byte: None,
        checked_page_boundary: false,
    }
}

/// The state that gathers an operand, with nothing gathered yet.
pub fn reading(opcode: Opcode) -> (result: CpuState)
    ensures
        result == spec_reading(opcode),
{
    CpuState::ReadingOperand {
        opcode,
        address_low_byte: None,
        address_high_byte: None,
        pointer: None,
        indirect_address_low_byte: None,
        indirect_address_high_byte: None,
        checked_page_boundary: false,
    }
}

/// The state that gathers an operand, with the address bytes gathered so far.
pub open spec fn spec_reading_address(
    opcode: Opcode,
    address_low_byte: Option<u8>,
    address_high_byte: Option<u8>,
    checked_page_boundary: bool,
) -> CpuState {
    CpuState::ReadingOperand {
        opcode,
        address_low_byte,
        address_high_byte,
        pointer: None,
        indirect_address_low_byte: None,
        indirect_address_high_byte: None,
        checked_page_boundary,
    }
}

/// The state that gathers an operand, with the address bytes gathered so far.
pub fn reading_address(
    opcode: Opcode,
    address_low_byte: Option<u8>,
    address_high_byte: Option<u8>,
    checked_page_boundary: bool,
) -> (result: CpuState)
    ensures
        result == spec_reading_address(
            opcode,
            address_low_byte,
            address_high_byte,
            checked_page_boundary,
        ),
{
    CpuState::ReadingOperand {
        opcode,
        address_low_byte,
        address_high_byte,
        pointer: None,
        indirect_address_low_byte: None,
        indirect_address_high_byte: None,
        checked_page_boundary,
    }
}

/// The registers with the program counter moved past the byte just read.
pub open spec fn spec_past_operand(registers: Registers) -> Registers {
    Registers { program_counter: spec_inc16(registers.program_counter), ..registers }
}

/// The registers with the program counter moved past the byte just read.
pub fn past_operand(registers: Registers) -> (result: Registers)
    ensures
        result == spec_past_operand(registers),
{
    Registers { program_counter: inc16(registers.program_counter), ..registers }
}

/// The address that the first access of an indexed mode reads: the index is
/// added to the low byte alone, so the page is wrong when the sum carries.
pub open spec fn spec_uncarried_address(low: u8, high: u8, index: u8) -> u16 {
    spec_word(spec_wrap8(low, index), high)
}

/// The address that the first access of an indexed mode reads: the index is
/// added to the low byte alone, so the page is wrong when the sum carries.
pub fn uncarried_address(low: u8, high: u8, index: u8) -> (result: u16)
    ensures
        result == spec_uncarried_address(low, high, index),
{
    word(wrap8(low, index), high)
}

/// The address that an indexed mode means.
pub open spec fn spec_indexed_address(low: u8, high: u8, index: u8) -> u16 {
    spec_offset16(spec_word(low, high), index)
}

/// The address that an indexed mode means.
pub fn indexed_address(low: u8, high: u8, index: u8) -> (result: u16)
    ensures
        result == spec_indexed_address(low, high, index),
{
    offset16(word(low, high), index)
}

impl Cpu {
    /// The address that a cycle of the absolute mode reads.
    pub open spec fn spec_absolute_mode_address(
        registers: Registers,
        address_low_byte: Option<u8>,
        address_high_byte: Option<u8>,
    ) -> u16 {
        match (address_low_byte, address_high_byte) {
            (Some(low), Some(high)) => spec_word(low, high),
            _ => registers.program_counter,
        }
    }

    /// The address that a cycle of the absolute mode reads.
    pub fn absolute_mode_address(
        registers: Registers,
        address_low_byte: Option<u8>,
        address_high_byte: Option<u8>,
    ) -> (result: u16)
        ensures
            result == Self::spec_absolute_mode_address(
                registers,
                address_low_byte,
                address_high_byte,
            ),
    {
        match (address_low_byte, address_high_byte) {
            (Some(low), Some(high)) => word(low, high),
            _ => registers.program_counter,
        }
    }

    /// Where a cycle of the absolute mode leads once `data` has been read:
    /// the low byte, the high byte, then the operand. Jumps and stores act
    /// as soon as the address is complete.
    pub open spec fn spec_next_absolute_mode_state(
        registers: Registers,
        opcode: Opcode,
        address_low_byte: Option<u8>,
        address_high_byte: Option<u8>,
        data: u8,
    ) -> Transition {
        match (address_low_byte, address_high_byte) {
            (None, _) => Transition {
                registers: spec_past_operand(registers),
                state: spec_reading_address(opcode, Some(data), None, false),
            },
            (Some(low), None) => match spec_instruction_type(opcode.operation) {
                InstructionType::Jump | InstructionType::Write => Self::spec_execute(
                    spec_past_operand(registers),
                    opcode,
                    None,
                    Some(spec_word(low, data)),
                ),
                _ => Transition {
                    registers: spec_past_operand(registers),
                    state: spec_reading_address(opcode, Some(low), Some(data), false),
                },
            },
            (Some(low), Some(high)) => Self::spec_execute(
                registers,
                opcode,
                Some(data),
                Some(spec_word(low, high)),
            ),
        }
    }

    /// Where a cycle of the absolute mode leads once `data` has been read:
    /// the low byte, the high byte, then the operand. Jumps and stores act
    /// as soon as the address is complete.
    pub fn next_absolute_mode_state(
        registers: Registers,
        opcode: Opcode,
        address_low_byte: Option<u8>,
        address_high_byte: Option<u8>,
        data: u8,
    ) -> (result: Transition)
        ensures
            result == Self::spec_next_absolute_mode_state(
                registers,
                opcode,
                address_low_byte,
                address_high_byte,
                data,
            ),
    {
        match (address_low_byte, address_high_byte) {
            (None, _) => Transition {
                registers: past_operand(registers),
                state: reading_address(opcode, Some(data), None, false),
            },
            (Some(low), None) => match instruction_type(opcode.operation) {
                InstructionType::Jump | InstructionType::Write => Self::execute(
                    past_operand(registers),
                    opcode,
                    None,
                    Some(word(low, data)),
                ),
                _ => Transition {
                    registers: past_operand(registers),
                    state: reading_address(opcode, Some(low), Some(data), false),
                },
            },
            (Some(low), Some(high)) => Self::execute(
                registers,
                opcode,
                Some(data),
                Some(word(low, high)),
            ),
        }
    }

    /// The address that a cycle of an absolute indexed mode reads.
    pub open spec fn spec_absolute_indexed_mode_address(
        registers: Registers,
        address_low_byte: Option<u8>,
        address_high_byte: Option<u8>,
        checked_page_boundary: bool,
        index: u8,
    ) -> u16 {
        match (address_low_byte, address_high_byte) {
            (Some(low), Some(high)) => if checked_page_boundary {
                spec_indexed_address(low, high, index)
            } else {
                spec_uncarried_address(low, high, index)
            },
            _ => registers.program_counter,
        }
    }

    /// The address that a cycle of an absolute indexed mode reads.
    pub fn absolute_indexed_mode_address(
        registers: Registers,
        address_low_byte: Option<u8>,
        address_high_byte: Option<u8>,
        checked_page_boundary: bool,
        index: u8,
    ) -> (result: u16)
        ensures
            result == Self::spec_absolute_indexed_mode_address(
                registers,
                address_low_byte,
                address_high_byte,
                checked_page_boundary,
                index,
            ),
    {
        match (address_low_byte, address_high_byte) {
            (Some(low), Some(high)) => if checked_page_boundary {
                indexed_address(low, high, index)
            } else {
                uncarried_address(low, high, index)
            },
            _ => registers.program_counter,
        }
    }

    /// Where a cycle of an absolute indexed mode leads once `data` has been
    /// read. The fourth cycle reads with the index added to the low byte
    /// alone. A read uses that byte when no page was crossed, and else reads
    /// again at the corrected address; a read-modify-write always reads
    /// again; a store always spends the cycle and then writes.
    pub open spec fn spec_next_absolute_indexed_mode_state(
        registers: Registers,
        opcode: Opcode,
        address_low_byte: Option<u8>,
        address_high_byte: Option<u8>,
        checked_page_boundary: bool,
        index: u8,
        data: u8,
    ) -> Transition {
        match (address_low_byte, address_high_byte) {
            (None, _) => Transition {
                registers: spec_past_operand(registers),
                state: spec_reading_address(opcode, Some(data), None, false),
            },
            (Some(low), None) => Transition {
                registers: spec_past_operand(registers),
                state: spec_reading_address(opcode, Some(low), Some(data), false),
            },
            (Some(low), Some(high)) => if checked_page_boundary {
                Self::spec_execute(registers, opcode, Some(data), Some(spec_indexed_address(low, high, index)))
            } else {
                match spec_instruction_type(opcode.operation) {
                    InstructionType::Write => Self::spec_execute(
                        registers,
                        opcode,
                        None,
                        Some(spec_indexed_address(low, high, index)),
                    ),
                    InstructionType::ReadModifyWrite => Transition {
                        registers,
                        state: spec_reading_address(opcode, Some(low), Some(high), true),
                    },
                    _ => if spec_indexed_address(low, high, index) == spec_uncarried_address(
                        low,
                        high,
                        index,
                    ) {
                        Self::spec_execute(
                            registers,
                            opcode,
                            Some(data),
                            Some(spec_indexed_address(low, high, index)),
                        )
                    } else {
                        Transition {
                            registers,
                            state: spec_reading_address(opcode, Some(low), Some(high), true),
                        }
                    },
                }
            },
        }
    }

    /// Where a cycle of an absolute indexed mode leads once `data` has been
    /// read. The fourth cycle reads with the index added to the low byte
    /// alone. A read uses that byte when no page was crossed, and else reads
    /// again at the corrected address; a read-modify-write always reads
    /// again; a store always spends the cycle and then writes.
    pub fn next_absolute_indexed_mode_state(
        registers: Registers,
        opcode: Opcode,
        address_low_byte: Option<u8>,
        address_high_byte: Option<u8>,
        checked_page_boundary: bool,
        index: u8,
        data: u8,
    ) -> (result: Transition)
        ensures
            result == Self::spec_next_absolute_indexed_mode_state(
                registers,
                opcode,
                address_low_byte,
                address_high_byte,
                checked_page_boundary,
                index,
                data,
            ),
    {
        match (address_low_byte, address_high_byte) {
            (None, _) => Transition {
                registers: past_operand(registers),
                state: reading_address(opcode, Some(data), None, false),
            },
            (Some(low), None) => Transition {
                registers: past_operand(registers),
                state: reading_address(opcode, Some(low), Some(data), false),
            },
            (Some(low), Some(high)) => if checked_page_boundary {
                Self::execute(registers, opcode, Some(data), Some(indexed_address(low, high, index)))
            } else {
                match instruction_type(opcode.operation) {
                    InstructionType::Write => Self::execute(
                        registers,
                        opcode,
                        None,
                        Some(indexed_address(low, high, index)),
                    ),
                    InstructionType::ReadModifyWrite => Transition {
                        registers,
                        state: reading_address(opcode, Some(low), Some(high), true),
                    },
                    _ => if indexed_address(low, high, index) == uncarried_address(
                        low,
                        high,
                        index,
                    ) {
                        Self::execute(
                            registers,
                            opcode,
                            Some(data),
                            Some(indexed_address(low, high, index)),
                        )
                    } else {
                        Transition {
                            registers,
                            state: reading_address(opcode, Some(low), Some(high), true),
                        }
                    },
                }
            },
        }
    }

    /// The address that a cycle of the zero-page mode reads.
    pub open spec fn spec_zero_page_mode_address(
        registers: Registers,
        address_low_byte: Option<u8>,
    ) -> u16 {
        match address_low_byte {
            Some(low) => low as u16,
            None => registers.program_counter,
        }
    }

    /// The address that a cycle of the zero-page mode reads.
    pub fn zero_page_mode_address(
        registers: Registers,
        address_low_byte: Option<u8>,
    ) -> (result: u16)
        ensures
            result == Self::spec_zero_page_mode_address(registers, address_low_byte),
    {
        match address_low_byte {
            Some(low) => low as u16,
            None => registers.program_counter,
        }
    }

    /// Where a cycle of the zero-page mode leads: the address byte, then the
    /// operand; a store acts as soon as it has the address.
    pub open spec fn spec_next_zero_page_mode_state(
        registers: Registers,
        opcode: Opcode,
        address_low_byte: Option<u8>,
        data: u8,
    ) -> Transition {
        match address_low_byte {
            None => match spec_instruction_type(opcode.operation) {
                InstructionType::Write => Self::spec_execute(
                    spec_past_operand(registers),
                    opcode,
                    None,
                    Some(data as u16),
                ),
                _ => Transition {
                    registers: spec_past_operand(registers),
                    state: spec_reading_address(opcode, Some(data), None, false),
                },
            },
            Some(low) => Self::spec_execute(registers, opcode, Some(data), Some(low as u16)),
        }
    }

    /// Where a cycle of the zero-page mode leads: the address byte, then the
    /// operand; a store acts as soon as it has the address.
    pub fn next_zero_page_mode_state(
        registers: Registers,
        opcode: Opcode,
        address_low_byte: Option<u8>,
        data: u8,
    ) -> (result: Transition)
        ensures
            result == Self::spec_next_zero_page_mode_state(
                registers,
                opcode,
                address_low_byte,
                data,
            ),
    {
        match address_low_byte {
            None => match instruction_type(opcode.operation) {
                InstructionType::Write => Self::execute(
                    past_operand(registers),
                    opcode,
                    None,
                    Some(data as u16),
                ),
                _ => Transition {
                    registers: past_operand(registers),
                    state: reading_address(opcode, Some(data), None, false),
                },
            },
            Some(low) => Self::execute(registers, opcode, Some(data), Some(low as u16)),
        }
    }

    /// The address that a cycle of a zero-page indexed mode reads.
    pub open spec fn spec_zero_page_indexed_mode_address(
        registers: Registers,
        address_low_byte: Option<u8>,
        address_high_byte: Option<u8>,
        index: u8,
    ) -> u16 {
        match (address_low_byte, address_high_byte) {
            (None, _) => registers.program_counter,
            (Some(low), None) => low as u16,
            (Some(low), Some(_)) => spec_wrap8(low, index) as u16,
        }
    }

    /// The address that a cycle of a zero-page indexed mode reads.
    pub fn zero_page_indexed_mode_address(
        registers: Registers,
        address_low_byte: Option<u8>,
        address_high_byte: Option<u8>,
        index: u8,
    ) -> (result: u16)
        ensures
            result == Self::spec_zero_page_indexed_mode_address(
                registers,
                address_low_byte,
                address_high_byte,
                index,
            ),
    {
        match (address_low_byte, address_high_byte) {
            (None, _) => registers.program_counter,
            (Some(low), None) => low as u16,
            (Some(low), Some(_)) => wrap8(low, index) as u16,
        }
    }

    /// Where a cycle of a zero-page indexed mode leads: the address byte, a
    /// dummy read of the unindexed address, then the operand at the indexed
    /// address, which wraps inside page zero.
    pub open spec fn spec_next_zero_page_indexed_mode_state(
        registers: Registers,
        opcode: Opcode,
        address_low_byte: Option<u8>,
        address_high_byte: Option<u8>,
        index: u8,
        data: u8,
    ) -> Transition {
        match (address_low_byte, address_high_byte) {
            (None, _) => Transition {
                registers: spec_past_operand(registers),
                state: spec_reading_address(opcode, Some(data), None, false),
            },
            (Some(low), None) => match spec_instruction_type(opcode.operation) {
                InstructionType::Write => Self::spec_execute(
                    registers,
                    opcode,
                    None,
                    Some(spec_wrap8(low, index) as u16),
                ),
                _ => Transition {
                    registers,
                    state: spec_reading_address(opcode, Some(low), Some(0), false),
                },
            },
            (Some(low), Some(_)) => Self::spec_execute(
                registers,
                opcode,
                Some(data),
                Some(spec_wrap8(low, index) as u16),
            ),
        }
    }

    /// Where a cycle of a zero-page indexed mode leads: the address byte, a
    /// dummy read of the unindexed address, then the operand at the indexed
    /// address, which wraps inside page zero.
    pub fn next_zero_page_indexed_mode_state(
        registers: Registers,
        opcode: Opcode,
        address_low_byte: Option<u8>,
        address_high_byte: Option<u8>,
        index: u8,
        data: u8,
    ) -> (result: Transition)
        ensures
            result == Self::spec_next_zero_page_indexed_mode_state(
                registers,
                opcode,
                address_low_byte,
                address_high_byte,
                index,
                data,
            ),
    {
        match (address_low_byte, address_high_byte) {
            (None, _) => Transition {
                registers: past_operand(registers),
                state: reading_address(opcode, Some(data), None, false),
            },
            (Some(low), None) => match instruction_type(opcode.operation) {
                InstructionType::Write => Self::execute(
                    registers,
                    opcode,
                    None,
                    Some(wrap8(low, index) as u16),
                ),
                _ => Transition {
                    registers,
                    state: reading_address(opcode, Some(low), Some(0), false),
                },
            },
            (Some(low), Some(_)) => Self::execute(
                registers,
                opcode,
                Some(data),
                Some(wrap8(low, index) as u16),
            ),
        }
    }

    /// The address that a cycle of the indirect mode reads. The second byte
    /// of the target is read from the page of the first: the pointer's low
    /// byte wraps without carry.
    pub open spec fn spec_indirect_mode_address(
        registers: Registers,
        indirect_address_low_byte: Option<u8>,
        indirect_address_high_byte: Option<u8>,
        address_low_byte: Option<u8>,
    ) -> u16 {
        match (indirect_address_low_byte, indirect_address_high_byte, address_low_byte) {
            (Some(pointer_low), Some(pointer_high), None) => spec_word(pointer_low, pointer_high),
            (Some(pointer_low), Some(pointer_high), Some(_)) => spec_word(
                spec_inc8(pointer_low),
                pointer_high,
            ),
            _ => registers.program_counter,
        }
    }

    /// The address that a cycle of the indirect mode reads. The second byte
    /// of the target is read from the page of the first: the pointer's low
    /// byte wraps without carry.
    pub fn indirect_mode_address(
        registers: Registers,
        indirect_address_low_byte: Option<u8>,
        indirect_address_high_byte: Option<u8>,
        address_low_byte: Option<u8>,
    ) -> (result: u16)
        ensures
            result == Self::spec_indirect_mode_address(
                registers,
                indirect_address_low_byte,
                indirect_address_high_byte,
                address_low_byte,
            ),
    {
        match (indirect_address_low_byte, indirect_address_high_byte, address_low_byte) {
            (Some(pointer_low), Some(pointer_high), None) => word(pointer_low, pointer_high),
            (Some(pointer_low), Some(pointer_high), Some(_)) => word(
                inc8(pointer_low),
                pointer_high,
            ),
            _ => registers.program_counter,
        }
    }

    /// Where a cycle of the indirect mode leads: the two bytes of the
    /// pointer, then the two bytes of the target.
    pub open spec fn spec_next_indirect_mode_state(
        registers: Registers,
        opcode: Opcode,
        indirect_address_low_byte: Option<u8>,
        indirect_address_high_byte: Option<u8>,
        address_low_byte: Option<u8>,
        data: u8,
    ) -> Transition {
        match (indirect_address_low_byte, indirect_address_high_byte, address_low_byte) {
            (None, _, _) => Transition {
                registers: spec_past_operand(registers),
                state: CpuState::ReadingOperand {
                    opcode,
                    address_low_byte: None,
                    address_high_byte: None,
                    pointer: None,
                    indirect_address_low_byte: Some(data),
                    indirect_address_high_byte: None,
                    checked_page_boundary: false,
                },
            },
            (Some(pointer_low), None, _) => Transition {
                registers: spec_past_operand(registers),
                state: CpuState::ReadingOperand {
                    opcode,
                    address_low_byte: None,
                    address_high_byte: None,
                    pointer: None,
                    indirect_address_low_byte: Some(pointer_low),
                    indirect_address_high_byte: Some(data),
                    checked_page_boundary: false,
                },
            },
            (Some(pointer_low), Some(pointer_high), None) => Transition {
                registers,
                state: CpuState::ReadingOperand {
                    opcode,
                    address_low_byte: Some(data),
                    address_high_byte: None,
                    pointer: None,
                    indirect_address_low_byte: Some(pointer_low),
                    indirect_address_high_byte: Some(pointer_high),
                    checked_page_boundary: false,
                },
            },
            (Some(_), Some(_), Some(low)) => Self::spec_execute(
                registers,
                opcode,
                None,
                Some(spec_word(low, data)),
            ),
        }
    }

    /// Where a cycle of the indirect mode leads: the two bytes of the
    /// pointer, then the two bytes of the target.
    pub fn next_indirect_mode_state(
        registers: Registers,
        opcode: Opcode,
        indirect_address_low_byte: Option<u8>,
        indirect_address_high_byte: Option<u8>,
        address_low_byte: Option<u8>,
        data: u8,
    ) -> (result: Transition)
        ensures
            result == Self::spec_next_indirect_mode_state(
                registers,
                opcode,
                indirect_address_low_byte,
                indirect_address_high_byte,
                address_low_byte,
                data,
            ),
    {
        match (indirect_address_low_byte, indirect_address_high_byte, address_low_byte) {
            (None, _, _) => Transition {
                registers: past_operand(registers),
                state: CpuState::ReadingOperand {
                    opcode,
                    address_low_byte: None,
                    address_high_byte: None,
                    pointer: None,
                    indirect_address_low_byte: Some(data),
                    indirect_address_high_byte: None,
                    checked_page_boundary: false,
                },
            },
            (Some(pointer_low), None, _) => Transition {
                registers: past_operand(registers),
                state: CpuState::ReadingOperand {
                    opcode,
                    address_low_byte: None,
                    address_high_byte: None,
                    pointer: None,
                    indirect_address_low_byte: Some(pointer_low),
                    indirect_address_high_byte: Some(data),
                    checked_page_boundary: false,
                },
            },
            (Some(pointer_low), Some(pointer_high), None) => Transition {
                registers,
                state: CpuState::ReadingOperand {
                    opcode,
                    address_low_byte: Some(data),
                    address_high_byte: None,
                    pointer: None,
                    indirect_address_low_byte: Some(pointer_low),
                    indirect_address_high_byte: Some(pointer_high),
                    checked_page_boundary: false,
                },
            },
            (Some(_), Some(_), Some(low)) => Self::execute(
                registers,
                opcode,
                None,
                Some(word(low, data)),
            ),
        }
    }

    /// The address that a cycle of the indexed indirect mode reads.
    pub open spec fn spec_indirect_x_mode_address(
        registers: Registers,
        indirect_address_low_byte: Option<u8>,
        pointer: Option<u8>,
        address_low_byte: Option<u8>,
        address_high_byte: Option<u8>,
    ) -> u16 {
        match (indirect_address_low_byte, pointer, address_low_byte, address_high_byte) {
            (None, _, _, _) => registers.program_counter,
            (Some(base), None, _, _) => base as u16,
            (Some(_), Some(indexed), None, _) => indexed as u16,
            (Some(_), Some(indexed), Some(_), None) => spec_inc8(indexed) as u16,
            (Some(_), Some(_), Some(low), Some(high)) => spec_word(low, high),
        }
    }

    /// The address that a cycle of the indexed indirect mode reads.
    pub fn indirect_x_mode_address(
        registers: Registers,
        indirect_address_low_byte: Option<u8>,
        pointer: Option<u8>,
        address_low_byte: Option<u8>,
        address_high_byte: Option<u8>,
    ) -> (result: u16)
        ensures
            result == Self::spec_indirect_x_mode_address(
                registers,
                indirect_address_low_byte,
                pointer,
                address_low_byte,
                address_high_byte,
            ),
    {
        match (indirect_address_low_byte, pointer, address_low_byte, address_high_byte) {
            (None, _, _, _) => registers.program_counter,
            (Some(base), None, _, _) => base as u16,
            (Some(_), Some(indexed), None, _) => indexed as u16,
            (Some(_), Some(indexed), Some(_), None) => inc8(indexed) as u16,
            (Some(_), Some(_), Some(low), Some(high)) => word(low, high),
        }
    }

    /// Where a cycle of the indexed indirect mode leads: the pointer, a
    /// dummy read of it, the two bytes of the address from page zero at the
    /// pointer plus X, wrapping inside the page, then the operand.
    pub open spec fn spec_next_indirect_x_mode_state(
        registers: Registers,
        opcode: Opcode,
        indirect_address_low_byte: Option<u8>,
        pointer: Option<u8>,
        address_low_byte: Option<u8>,
        address_high_byte: Option<u8>,
        data: u8,
    ) -> Transition {
        match (indirect_address_low_byte, pointer, address_low_byte, address_high_byte) {
            (None, _, _, _) => Transition {
                registers: spec_past_operand(registers),
                state: CpuState::ReadingOperand {
                    opcode,
                    address_low_byte: None,
                    address_high_byte: None,
                    pointer: None,
                    indirect_address_low_byte: Some(data),
                    indirect_address_high_byte: None,
                    checked_page_boundary: false,
                },
            },
            (Some(base), None, _, _) => Transition {
                registers,
                state: CpuState::ReadingOperand {
                    opcode,
                    address_low_byte: None,
                    address_high_byte: None,
                    pointer: Some(spec_wrap8(base, registers.x)),
                    indirect_address_low_byte: Some(base),
                    indirect_address_high_byte: None,
                    checked_page_boundary: false,
                },
            },
            (Some(base), Some(indexed), None, _) => Transition {
                registers,
                state: CpuState::ReadingOperand {
                    opcode,
                    address_low_byte: Some(data),
                    address_high_byte: None,
                    pointer: Some(indexed),
                    indirect_address_low_byte: Some(base),
                    indirect_address_high_byte: None,
                    checked_page_boundary: false,
                },
            },
            (Some(base), Some(indexed), Some(low), None) => match spec_instruction_type(
                opcode.operation,
            ) {
                InstructionType::Write => Self::spec_execute(
                    registers,
                    opcode,
                    None,
                    Some(spec_word(low, data)),
                ),
                _ => Transition {
                    registers,
                    state: CpuState::ReadingOperand {
                        opcode,
                        address_low_byte: Some(low),
                        address_high_byte: Some(data),
                        pointer: Some(indexed),
                        indirect_address_low_byte: Some(base),
                        indirect_address_high_byte: None,
                        checked_page_boundary: false,
                    },
                },
            },
            (Some(_), Some(_), Some(low), Some(high)) => Self::spec_execute(
                registers,
                opcode,
                Some(data),
                Some(spec_word(low, high)),
            ),
        }
    }

    /// Where a cycle of the indexed indirect mode leads: the pointer, a
    /// dummy read of it, the two bytes of the address from page zero at the
    /// pointer plus X, wrapping inside the page, then the operand.
    pub fn next_indirect_x_mode_state(
        registers: Registers,
        opcode: Opcode,
        indirect_address_low_byte: Option<u8>,
        pointer: Option<u8>,
        address_low_byte: Option<u8>,
        address_high_byte: Option<u8>,
        data: u8,
    ) -> (result: Transition)
        ensures
            result == Self::spec_next_indirect_x_mode_state(
                registers,
                opcode,
                indirect_address_low_byte,
                pointer,
                address_low_byte,
                address_high_byte,
                data,
            ),
    {
        match (indirect_address_low_byte, pointer, address_low_byte, address_high_byte) {
            (None, _, _, _) => Transition {
                registers: past_operand(registers),
                state: CpuState::ReadingOperand {
                    opcode,
                    address_low_byte: None,
                    address_high_byte: None,
                    pointer: None,
                    indirect_address_low_byte: Some(data),
                    indirect_address_high_byte: None,
                    checked_page_boundary: false,
                },
            },
            (Some(base), None, _, _) => Transition {
                registers,
                state: CpuState::ReadingOperand {
                    opcode,
                    address_low_byte: None,
                    address_high_byte: None,
                    pointer: Some(wrap8(base, registers.x)),
                    indirect_address_low_byte: Some(base),
                    indirect_address_high_byte: None,
                    checked_page_boundary: false,
                },
            },
            (Some(base), Some(indexed), None, _) => Transition {
                registers,
                state: CpuState::ReadingOperand {
                    opcode,
                    address_low_byte: Some(data),
                    address_high_byte: None,
                    pointer: Some(indexed),
                    indirect_address_low_byte: Some(base),
                    indirect_address_high_byte: None,
                    checked_page_boundary: false,
                },
            },
            (Some(base), Some(indexed), Some(low), None) => match instruction_type(
                opcode.operation,
            ) {
                InstructionType::Write => Self::execute(
                    registers,
                    opcode,
                    None,
                    Some(word(low, data)),
                ),
                _ => Transition {
                    registers,
                    state: CpuState::ReadingOperand {
                        opcode,
                        address_low_byte: Some(low),
                        address_high_byte: Some(data),
                        pointer: Some(indexed),
                        indirect_address_low_byte: Some(base),
                        indirect_address_high_byte: None,
                        checked_page_boundary: false,
                    },
                },
            },
            (Some(_), Some(_), Some(low), Some(high)) => Self::execute(
                registers,
                opcode,
                Some(data),
                Some(word(low, high)),
            ),
        }
    }

    /// The address that a cycle of the indirect indexed mode reads.
    pub open spec fn spec_indirect_y_mode_address(
        registers: Registers,
        indirect_address_low_byte: Option<u8>,
        address_low_byte: Option<u8>,
        address_high_byte: Option<u8>,
        checked_page_boundary: bool,
    ) -> u16 {
        match (indirect_address_low_byte, address_low_byte, address_high_byte) {
            (None, _, _) => registers.program_counter,
            (Some(pointer), None, _) => pointer as u16,
            (Some(pointer), Some(_), None) => spec_inc8(pointer) as u16,
            (Some(_), Some(low), Some(high)) => if checked_page_boundary {
                spec_indexed_address(low, high, registers.y)
            } else {
                spec_uncarried_address(low, high, registers.y)
            },
        }
    }

    /// The address that a cycle of the indirect indexed mode reads.
    pub fn indirect_y_mode_address(
        registers: Registers,
        indirect_address_low_byte: Option<u8>,
        address_low_byte: Option<u8>,
        address_high_byte: Option<u8>,
        checked_page_boundary: bool,
    ) -> (result: u16)
        ensures
            result == Self::spec_indirect_y_mode_address(
                registers,
                indirect_address_low_byte,
                address_low_byte,
                address_high_byte,
                checked_page_boundary,
            ),
    {
        match (indirect_address_low_byte, address_low_byte, address_high_byte) {
            (None, _, _) => registers.program_counter,
            (Some(pointer), None, _) => pointer as u16,
            (Some(pointer), Some(_), None) => inc8(pointer) as u16,
            (Some(_), Some(low), Some(high)) => if checked_page_boundary {
                indexed_address(low, high, registers.y)
            } else {
                uncarried_address(low, high, registers.y)
            },
        }
    }

    /// Where a cycle of the indirect indexed mode leads: the pointer, the
    /// two bytes of the base address from page zero, then the operand at the
    /// base plus Y, under the page-crossing rule of the absolute indexed modes.
    pub open spec fn spec_next_indirect_y_mode_state(
        registers: Registers,
        opcode: Opcode,
        indirect_address_low_byte: Option<u8>,
        address_low_byte: Option<u8>,
        address_high_byte: Option<u8>,
        checked_page_boundary: bool,
        data: u8,
    ) -> Transition {
        match (indirect_address_low_byte, address_low_byte, address_high_byte) {
            (None, _, _) => Transition {
                registers: spec_past_operand(registers),
                state: CpuState::ReadingOperand {
                    opcode,
                    address_low_byte: None,
                    address_high_byte: None,
                    pointer: None,
                    indirect_address_low_byte: Some(data),
                    indirect_address_high_byte: None,
                    checked_page_boundary: false,
                },
            },
            (Some(pointer), None, _) => Transition {
                registers,
                state: CpuState::ReadingOperand {
                    opcode,
                    address_low_byte: Some(data),
                    address_high_byte: None,
                    pointer: None,
                    indirect_address_low_byte: Some(pointer),
                    indirect_address_high_byte: None,
                    checked_page_boundary: false,
                },
            },
            (Some(pointer), Some(low), None) => Transition {
                registers,
                state: CpuState::ReadingOperand {
                    opcode,
                    address_low_byte: Some(low),
                    address_high_byte: Some(data),
                    pointer: Some(pointer),
                    indirect_address_low_byte: Some(pointer),
                    indirect_address_high_byte: None,
                    checked_page_boundary: false,
                },
            },
            (Some(pointer), Some(low), Some(high)) => if checked_page_boundary {
                Self::spec_execute(
                    registers,
                    opcode,
                    Some(data),
                    Some(spec_indexed_address(low, high, registers.y)),
                )
            } else {
                match spec_instruction_type(opcode.operation) {
                    InstructionType::Write => Self::spec_execute(
                        registers,
                        opcode,
                        None,
                        Some(spec_indexed_address(low, high, registers.y)),
                    ),
                    InstructionType::Read if spec_indexed_address(low, high, registers.y)
                        == spec_uncarried_address(low, high, registers.y) => Self::spec_execute(
                        registers,
                        opcode,
                        Some(data),
                        Some(spec_indexed_address(low, high, registers.y)),
                    ),
                    _ => Transition {
                        registers,
                        state: CpuState::ReadingOperand {
                            opcode,
                            address_low_byte: Some(low),
                            address_high_byte: Some(high),
                            pointer: Some(pointer),
                            indirect_address_low_byte: Some(pointer),
                            indirect_address_high_byte: None,
                            checked_page_boundary: true,
                        },
                    },
                }
            },
        }
    }

    /// Where a cycle of the indirect indexed mode leads: the pointer, the
    /// two bytes of the base address from page zero, then the operand at the
    /// base plus Y, under the page-crossing rule of the absolute indexed modes.
    pub fn next_indirect_y_mode_state(
        registers: Registers,
        opcode: Opcode,
        indirect_address_low_byte: Option<u8>,
        address_low_byte: Option<u8>,
        address_high_byte: Option<u8>,
        checked_page_boundary: bool,
        data: u8,
    ) -> (result: Transition)
        ensures
            result == Self::spec_next_indirect_y_mode_state(
                registers,
                opcode,
                indirect_address_low_byte,
                address_low_byte,
                address_high_byte,
                checked_page_boundary,
                data,
            ),
    {
        match (indirect_address_low_byte, address_low_byte, address_high_byte) {
            (None, _, _) => Transition {
                registers: past_operand(registers),
                state: CpuState::ReadingOperand {
                    opcode,
                    address_low_byte: None,
                    address_high_byte: None,
                    pointer: None,
                    indirect_address_low_byte: Some(data),
                    indirect_address_high_byte: None,
                    checked_page_boundary: false,
                },
            },
            (Some(pointer), None, _) => Transition {
                registers,
                state: CpuState::ReadingOperand {
                    opcode,
                    address_low_byte: Some(data),
                    address_high_byte: None,
                    pointer: None,
                    indirect_address_low_byte: Some(pointer),
                    indirect_address_high_byte: None,
                    checked_page_boundary: false,
                },
            },
            (Some(pointer), Some(low), None) => Transition {
                registers,
                state: CpuState::ReadingOperand {
                    opcode,
                    address_low_byte: Some(low),
                    address_high_byte: Some(data),
                    pointer: Some(pointer),
                    indirect_address_low_byte: Some(pointer),
                    indirect_address_high_byte: None,
                    checked_page_boundary: false,
                },
            },
            (Some(pointer), Some(low), Some(high)) => if checked_page_boundary {
                Self::execute(
                    registers,
                    opcode,
                    Some(data),
                    Some(indexed_address(low, high, registers.y)),
                )
            } else {
                match instruction_type(opcode.operation) {
                    InstructionType::Write => Self::execute(
                        registers,
                        opcode,
                        None,
                        Some(indexed_address(low, high, registers.y)),
                    ),
                    InstructionType::Read if indexed_address(low, high, registers.y)
                        == uncarried_address(low, high, registers.y) => Self::execute(
                        registers,
                        opcode,
                        Some(data),
                        Some(indexed_address(low, high, registers.y)),
                    ),
                    _ => Transition {
                        registers,
                        state: CpuState::ReadingOperand {
                            opcode,
                            address_low_byte: Some(low),
                            address_high_byte: Some(high),
                            pointer: Some(pointer),
                            indirect_address_low_byte: Some(pointer),
                            indirect_address_high_byte: None,
                            checked_page_boundary: true,
                        },
                    },
                }
            },
        }
    }

    /// Where the operand cycle of a branch leads: to the next instruction
    /// when the branch is not taken, else to the cycle that loads the
    /// program counter, by way of one more cycle when the target lies in
    /// another page.
    pub open spec fn spec_next_relative_mode_state(
        registers: Registers,
        opcode: Opcode,
        data: u8,
    ) -> Transition {
        if !spec_branch_taken(opcode.operation, registers.status_register) {
            Transition { registers: spec_past_operand(registers), state: CpuState::FetchOpcode }
        } else if spec_high_byte(spec_branch_target(spec_inc16(registers.program_counter), data)) != spec_high_byte(
            spec_inc16(registers.program_counter),
        ) {
            Transition {
                registers: spec_past_operand(registers),
                state: CpuState::BranchCrossesPageBoundary {
                    opcode,
                    operand: data,
                    address: spec_branch_target(spec_inc16(registers.program_counter), data),
                },
            }
        } else {
            Self::spec_execute(
                spec_past_operand(registers),
                opcode,
                Some(data),
                Some(spec_branch_target(spec_inc16(registers.program_counter), data)),
            )
        }
    }

    /// Where the operand cycle of a branch leads: to the next instruction
    /// when the branch is not taken, else to the cycle that loads the
    /// program counter, by way of one more cycle when the target lies in
    /// another page.
    pub fn next_relative_mode_state(
        registers: Registers,
        opcode: Opcode,
        data: u8,
    ) -> (result: Transition)
        ensures
            result == Self::spec_next_relative_mode_state(registers, opcode, data),
    {
        if !branch_taken(opcode.operation, registers.status_register) {
            Transition { registers: past_operand(registers), state: CpuState::FetchOpcode }
        } else if high_byte(branch_target(inc16(registers.program_counter), data)) != high_byte(
            inc16(registers.program_counter),
        ) {
            Transition {
                registers: past_operand(registers),
                state: CpuState::BranchCrossesPageBoundary {
                    opcode,
                    operand: data,
                    address: branch_target(inc16(registers.program_counter), data),
                },
            }
        } else {
            Self::execute(
                past_operand(registers),
                opcode,
                Some(data),
                Some(branch_target(inc16(registers.program_counter), data)),
            )
        }
    }

    /// The address that a cycle of operand gathering reads.
    pub open spec fn spec_operand_address(
        registers: Registers,
        opcode: Opcode,
        address_low_byte: Option<u8>,
        address_high_byte: Option<u8>,
        pointer: Option<u8>,
        indirect_address_low_byte: Option<u8>,
        indirect_address_high_byte: Option<u8>,
        checked_page_boundary: bool,
    ) -> u16 {
        match opcode.address_mode {
            AddressingMode::Absolute => Self::spec_absolute_mode_address(
                registers,
                address_low_byte,
                address_high_byte,
            ),
            AddressingMode::AbsoluteXIndexed => Self::spec_absolute_indexed_mode_address(
                registers,
                address_low_byte,
                address_high_byte,
                checked_page_boundary,
                registers.x,
            ),
            AddressingMode::AbsoluteYIndexed => Self::spec_absolute_indexed_mode_address(
                registers,
                address_low_byte,
                address_high_byte,
                checked_page_boundary,
                registers.y,
            ),
            AddressingMode::ZeroPage => Self::spec_zero_page_mode_address(registers, address_low_byte),
            AddressingMode::ZeroPageXIndexed => Self::spec_zero_page_indexed_mode_address(
                registers,
                address_low_byte,
                address_high_byte,
                registers.x,
            ),
            AddressingMode::ZeroPageYIndexed => Self::spec_zero_page_indexed_mode_address(
                registers,
                address_low_byte,
                address_high_byte,
                registers.y,
            ),
            AddressingMode::Indirect => Self::spec_indirect_mode_address(
                registers,
                indirect_address_low_byte,
                indirect_address_high_byte,
                address_low_byte,
            ),
            AddressingMode::IndirectXIndexed => Self::spec_indirect_x_mode_address(
                registers,
                indirect_address_low_byte,
                pointer,
                address_low_byte,
                address_high_byte,
            ),
            AddressingMode::IndirectYIndexed => Self::spec_indirect_y_mode_address(
                registers,
                indirect_address_low_byte,
                address_low_byte,
                address_high_byte,
                checked_page_boundary,
            ),
            _ => registers.program_counter,
        }
    }

    /// The address that a cycle of operand gathering reads.
    pub fn operand_address(
        registers: Registers,
        opcode: Opcode,
        address_low_byte: Option<u8>,
        address_high_byte: Option<u8>,
        pointer: Option<u8>,
        indirect_address_low_byte: Option<u8>,
        indirect_address_high_byte: Option<u8>,
        checked_page_boundary: bool,
    ) -> (result: u16)
        ensures
            result == Self::spec_operand_address(
                registers,
                opcode,
                address_low_byte,
                address_high_byte,
                pointer,
                indirect_address_low_byte,
                indirect_address_high_byte,
                checked_page_boundary,
            ),
    {
        match opcode.address_mode {
            AddressingMode::Absolute => Self::absolute_mode_address(
                registers,
                address_low_byte,
                address_high_byte,
            ),
            AddressingMode::AbsoluteXIndexed => Self::absolute_indexed_mode_address(
                registers,
                address_low_byte,
                address_high_byte,
                checked_page_boundary,
                registers.x,
            ),
            AddressingMode::AbsoluteYIndexed => Self::absolute_indexed_mode_address(
                registers,
                address_low_byte,
                address_high_byte,
                checked_page_boundary,
                registers.y,
            ),
            AddressingMode::ZeroPage => Self::zero_page_mode_address(registers, address_low_byte),
            AddressingMode::ZeroPageXIndexed => Self::zero_page_indexed_mode_address(
                registers,
                address_low_byte,
                address_high_byte,
                registers.x,
            ),
            AddressingMode::ZeroPageYIndexed => Self::zero_page_indexed_mode_address(
                registers,
                address_low_byte,
                address_high_byte,
                registers.y,
            ),
            AddressingMode::Indirect => Self::indirect_mode_address(
                registers,
                indirect_address_low_byte,
                indirect_address_high_byte,
                address_low_byte,
            ),
            AddressingMode::IndirectXIndexed => Self::indirect_x_mode_address(
                registers,
                indirect_address_low_byte,
                pointer,
                address_low_byte,
                address_high_byte,
            ),
            AddressingMode::IndirectYIndexed => Self::indirect_y_mode_address(
                registers,
                indirect_address_low_byte,
                address_low_byte,
                address_high_byte,
                checked_page_boundary,
            ),
            _ => registers.program_counter,
        }
    }

    /// Where a cycle of operand gathering leads once `data` has been read.
    pub open spec fn spec_next_operand_state(
        registers: Registers,
        opcode: Opcode,
        address_low_byte: Option<u8>,
        address_high_byte: Option<u8>,
        pointer: Option<u8>,
        indirect_address_low_byte: Option<u8>,
        indirect_address_high_byte: Option<u8>,
        checked_page_boundary: bool,
        data: u8,
    ) -> Transition {
        match opcode.address_mode {
            AddressingMode::Absolute => Self::spec_next_absolute_mode_state(
                registers,
                opcode,
                address_low_byte,
                address_high_byte,
                data,
            ),
            AddressingMode::AbsoluteXIndexed => Self::spec_next_absolute_indexed_mode_state(
                registers,
                opcode,
                address_low_byte,
                address_high_byte,
                checked_page_boundary,
                registers.x,
                data,
            ),
            AddressingMode::AbsoluteYIndexed => Self::spec_next_absolute_indexed_mode_state(
                registers,
                opcode,
                address_low_byte,
                address_high_byte,
                checked_page_boundary,
                registers.y,
                data,
            ),
            AddressingMode::Immediate => Self::spec_execute(
                spec_past_operand(registers),
                opcode,
                Some(data),
                Some(registers.program_counter),
            ),
            AddressingMode::Indirect => Self::spec_next_indirect_mode_state(
                registers,
                opcode,
                indirect_address_low_byte,
                indirect_address_high_byte,
                address_low_byte,
                data,
            ),
            AddressingMode::IndirectXIndexed => Self::spec_next_indirect_x_mode_state(
                registers,
                opcode,
                indirect_address_low_byte,
                pointer,
                address_low_byte,
                address_high_byte,
                data,
            ),
            AddressingMode::IndirectYIndexed => Self::spec_next_indirect_y_mode_state(
                registers,
                opcode,
                indirect_address_low_byte,
                address_low_byte,
                address_high_byte,
                checked_page_boundary,
                data,
            ),
            AddressingMode::Relative => Self::spec_next_relative_mode_state(registers, opcode, data),
            AddressingMode::ZeroPage => Self::spec_next_zero_page_mode_state(
                registers,
                opcode,
                address_low_byte,
                data,
            ),
            AddressingMode::ZeroPageXIndexed => Self::spec_next_zero_page_indexed_mode_state(
                registers,
                opcode,
                address_low_byte,
                address_high_byte,
                registers.x,
                data,
            ),
            AddressingMode::ZeroPageYIndexed => Self::spec_next_zero_page_indexed_mode_state(
                registers,
                opcode,
                address_low_byte,
                address_high_byte,
                registers.y,
                data,
            ),
            AddressingMode::Implied | AddressingMode::Accumulator => Self::spec_execute(
                registers,
                opcode,
                None,
                None,
            ),
        }
    }

    /// Where a cycle of operand gathering leads once `data` has been read.
    pub fn next_operand_state(
        registers: Registers,
        opcode: Opcode,
        address_low_byte: Option<u8>,
        address_high_byte: Option<u8>,
        pointer: Option<u8>,
        indirect_address_low_byte: Option<u8>,
        indirect_address_high_byte: Option<u8>,
        checked_page_boundary: bool,
        data: u8,
    ) -> (result: Transition)
        ensures
            result == Self::spec_next_operand_state(
                registers,
                opcode,
                address_low_byte,
                address_high_byte,
                pointer,
                indirect_address_low_byte,
                indirect_address_high_byte,
                checked_page_boundary,
                data,
            ),
    {
        match opcode.address_mode {
            AddressingMode::Absolute => Self::next_absolute_mode_state(
                registers,
                opcode,
                address_low_byte,
                address_high_byte,
                data,
            ),
            AddressingMode::AbsoluteXIndexed => Self::next_absolute_indexed_mode_state(
                registers,
                opcode,
                address_low_byte,
                address_high_byte,
                checked_page_boundary,
                registers.x,
                data,
            ),
            AddressingMode::AbsoluteYIndexed => Self::next_absolute_indexed_mode_state(
                registers,
                opcode,
                address_low_byte,
                address_high_byte,
                checked_page_boundary,
                registers.y,
                data,
            ),
            AddressingMode::Immediate => Self::execute(
                past_operand(registers),
                opcode,
                Some(data),
                Some(registers.program_counter),
            ),
            AddressingMode::Indirect => Self::next_indirect_mode_state(
                registers,
                opcode,
                indirect_address_low_byte,
                indirect_address_high_byte,
                address_low_byte,
                data,
            ),
            AddressingMode::IndirectXIndexed => Self::next_indirect_x_mode_state(
                registers,
                opcode,
                indirect_address_low_byte,
                pointer,
                address_low_byte,
                address_high_byte,
                data,
            ),
            AddressingMode::IndirectYIndexed => Self::next_indirect_y_mode_state(
                registers,
                opcode,
                indirect_address_low_byte,
                address_low_byte,
                address_high_byte,
                checked_page_boundary,
                data,
            ),
            AddressingMode::Relative => Self::next_relative_mode_state(registers, opcode, data),
            AddressingMode::ZeroPage => Self::next_zero_page_mode_state(
                registers,
                opcode,
                address_low_byte,
                data,
            ),
            AddressingMode::ZeroPageXIndexed => Self::next_zero_page_indexed_mode_state(
                registers,
                opcode,
                address_low_byte,
                address_high_byte,
                registers.x,
                data,
            ),
            AddressingMode::ZeroPageYIndexed => Self::next_zero_page_indexed_mode_state(
                registers,
                opcode,
                address_low_byte,
                address_high_byte,
                registers.y,
                data,
            ),
            AddressingMode::Implied | AddressingMode::Accumulator => Self::execute(
                registers,
                opcode,
                None,
                None,
            ),
        }
    }
}

} // verus!
