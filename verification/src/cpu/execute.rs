//! What each operation does once its operand is at hand.
use vstd::prelude::*;
use crate::cpu::alu::Computed;
use crate::cpu::opcodes::{
    Opcode, Operation, InstructionType, instruction_type, spec_instruction_type,
};
use crate::cpu::registers::{
    Registers, inc8, spec_inc8, dec8, spec_dec8, inc16, spec_inc16, high_byte, spec_high_byte,
};
use crate::cpu::status_flags::{
    StatusFlags, status_bits, spec_status_bits, flag_weight, spec_flag_weight,
};
use crate::cpu::{Cpu, CpuState, Interrupt, Transition};

verus! {

/// The operand, or 0 where an instruction has none.
pub open spec fn spec_operand_value(operand: Option<u8>) -> u8 {
    match operand {
        Some(value) => value,
        None => 0,
    }
}

/// The operand, or 0 where an instruction has none.
pub fn operand_value(operand: Option<u8>) -> (result: u8)
    ensures
        result == spec_operand_value(operand),
{
    match operand {
        Some(value) => value,
        None => 0,
    }
}

/// The address, or 0 where an instruction has none.
pub open spec fn spec_address_value(address: Option<u16>) -> u16 {
    match address {
        Some(value) => value,
        None => 0,
    }
}

/// The address, or 0 where an instruction has none.
pub fn address_value(address: Option<u16>) -> (result: u16)
    ensures
        result == spec_address_value(address),
{
    match address {
        Some(value) => value,
        None => 0,
    }
}

/// Whether a branch operation is taken under the given flags.
pub open spec fn spec_branch_taken(operation: Operation, flags: StatusFlags) -> bool {
    match operation {
        Operation::BCC => !flags.carry,
        Operation::BCS => flags.carry,
        Operation::BEQ => flags.zero,
        Operation::BMI => flags.negative,
        Operation::BNE => !flags.zero,
        Operation::BPL => !flags.negative,
        Operation::BVC => !flags.overflow,
        Operation::BVS => flags.overflow,
        _ => false,
    }
}

/// Whether a branch operation is taken under the given flags.
pub fn branch_taken(operation: Operation, flags: StatusFlags) -> (result: bool)
    ensures
        result == spec_branch_taken(operation, flags),
{
    match operation {
        Operation::BCC => !flags.carry,
        Operation::BCS => flags.carry,
        Operation::BEQ => flags.zero,
        Operation::BMI => flags.negative,
        Operation::BNE => !flags.zero,
        Operation::BPL => !flags.negative,
        Operation::BVC => !flags.overflow,
        Operation::BVS => flags.overflow,
        _ => false,
    }
}

impl Cpu {
    /// The registers after an operation that only reads its operand.
    #[verifier::opaque]
    pub open spec fn spec_execute_read(
        registers: Registers,
        operation: Operation,
        operand: u8,
    ) -> Registers {
        match operation {
            Operation::LDA => Self::spec_load_a(registers, operand),
            Operation::LDX => Self::spec_load_x(registers, operand),
            Operation::LDY => Self::spec_load_y(registers, operand),
            Operation::LAX => Self::spec_load_x(Self::spec_load_a(registers, operand), operand),
            Operation::ADC => Self::spec_adc(registers, operand),
            Operation::SBC => Self::spec_sbc(registers, operand),
            Operation::AND => Self::spec_load_a(registers, registers.a & operand),
            Operation::ORA => Self::spec_load_a(registers, registers.a | operand),
            Operation::EOR => Self::spec_load_a(registers, registers.a ^ operand),
            Operation::BIT => Self::spec_bit_test(registers, operand),
            Operation::CMP => Self::spec_compare(registers, operand, registers.a),
            Operation::CPX => Self::spec_compare(registers, operand, registers.x),
            Operation::CPY => Self::spec_compare(registers, operand, registers.y),
            Operation::ANC => {
                let loaded: Registers = Self::spec_load_a(registers, registers.a & operand);
                Registers {
                    status_register: StatusFlags {
                        carry: loaded.status_register.negative,
                        ..loaded.status_register
                    },
                    ..loaded
                }
            },
            Operation::ALR => {
                let shifted: Computed = Self::spec_lsr(registers, registers.a & operand);
                Registers { a: shifted.value, ..shifted.registers }
            },
            Operation::ARR => {
                let value: u8 = ((registers.a & operand) / 2 + spec_flag_weight(
                    registers.status_register.carry,
                    128,
                )) as u8;
                Registers {
                    a: value,
                    status_register: StatusFlags {
                        carry: (value / 64) % 2 == 1,
                        overflow: ((value / 64) % 2) != ((value / 32) % 2),
                        zero: value == 0,
                        negative: value >= 128,
                        ..registers.status_register
                    },
                    ..registers
                }
            },
            Operation::XAA => Self::spec_load_a(registers, (registers.a | 0xEE) & registers.x & operand),
            Operation::AXS => {
                let both: u8 = registers.a & registers.x;
                let compared: Registers = Self::spec_compare(registers, operand, both);
                Registers { x: ((both as u16 + 256 - operand as u16) % 256) as u8, ..compared }
            },
            Operation::LAS => {
                let value: u8 = operand & registers.stack_pointer;
                Self::spec_load_x(
                    Self::spec_load_a(Registers { stack_pointer: value, ..registers }, value),
                    value,
                )
            },
            _ => registers,
        }
    }

    pub fn execute_read(
        registers: Registers,
        operation: Operation,
        operand: u8,
    ) -> (result: Registers)
        ensures
            result == Self::spec_execute_read(registers, operation, operand),
    {
        proof {
            reveal(Cpu::spec_execute_read);
        }
        match operation {
            Operation::LDA => Self::load_a(registers, operand),
            Operation::LDX => Self::load_x(registers, operand),
            Operation::LDY => Self::load_y(registers, operand),
            Operation::LAX => Self::load_x(Self::load_a(registers, operand), operand),
            Operation::ADC => Self::adc(registers, operand),
            Operation::SBC => Self::sbc(registers, operand),
            Operation::AND => Self::load_a(registers, registers.a & operand),
            Operation::ORA => Self::load_a(registers, registers.a | operand),
            Operation::EOR => Self::load_a(registers, registers.a ^ operand),
            Operation::BIT => Self::bit_test(registers, operand),
            Operation::CMP => Self::compare(registers, operand, registers.a),
            Operation::CPX => Self::compare(registers, operand, registers.x),
            Operation::CPY => Self::compare(registers, operand, registers.y),
            Operation::ANC => {
                let loaded: Registers = Self::load_a(registers, registers.a & operand);
                Registers {
                    status_register: StatusFlags {
                        carry: loaded.status_register.negative,
                        ..loaded.status_register
                    },
                    ..loaded
                }
            },
            Operation::ALR => {
                let shifted: Computed = Self::lsr(registers, registers.a & operand);
                Registers { a: shifted.value, ..shifted.registers }
            },
            Operation::ARR => {
                let value: u8 = ((registers.a & operand) / 2 + flag_weight(
                    registers.status_register.carry,
                    128,
                )) as u8;
                Registers {
                    a: value,
                    status_register: StatusFlags {
                        carry: (value / 64) % 2 == 1,
                        overflow: ((value / 64) % 2) != ((value / 32) % 2),
                        zero: value == 0,
                        negative: value >= 128,
                        ..registers.status_register
                    },
                    ..registers
                }
            },
            Operation::XAA => Self::load_a(registers, (registers.a | 0xEE) & registers.x & operand),
            Operation::AXS => {
                let both: u8 = registers.a & registers.x;
                let compared: Registers = Self::compare(registers, operand, both);
                Registers { x: ((both as u16 + 256 - operand as u16) % 256) as u8, ..compared }
            },
            Operation::LAS => {
                let value: u8 = operand & registers.stack_pointer;
                Self::load_x(
                    Self::load_a(Registers { stack_pointer: value, ..registers }, value),
                    value,
                )
            },
            _ => registers,
        }
    }

    /// The byte that a store writes to `address`, and the registers it leaves.
    #[verifier::opaque]
    pub open spec fn spec_execute_write(
        registers: Registers,
        operation: Operation,
        address: u16,
    ) -> Computed {
        match operation {
            Operation::STA => Computed { value: registers.a, registers },
            Operation::STX => Computed { value: registers.x, registers },
            Operation::STY => Computed { value: registers.y, registers },
            Operation::SAX => Computed { value: registers.a & registers.x, registers },
            Operation::AHX => Computed {
                value: registers.a & registers.x & spec_inc8(spec_high_byte(address)),
                registers,
            },
            Operation::SHX => Computed { value: registers.x & spec_inc8(spec_high_byte(address)), registers },
            Operation::SHY => Computed { value: registers.y & spec_inc8(spec_high_byte(address)), registers },
            Operation::TAS => Computed {
                value: registers.a & registers.x & spec_inc8(spec_high_byte(address)),
                registers: Registers { stack_pointer: registers.a & registers.x, ..registers },
            },
            _ => Computed { value: registers.a, registers },
        }
    }

    pub fn execute_write(
        registers: Registers,
        operation: Operation,
        address: u16,
    ) -> (result: Computed)
        ensures
            result == Self::spec_execute_write(registers, operation, address),
    {
        proof {
            reveal(Cpu::spec_execute_write);
        }
        match operation {
            Operation::STA => Computed { value: registers.a, registers },
            Operation::STX => Computed { value: registers.x, registers },
            Operation::STY => Computed { value: registers.y, registers },
            Operation::SAX => Computed { value: registers.a & registers.x, registers },
            Operation::AHX => Computed {
                value: registers.a & registers.x & inc8(high_byte(address)),
                registers,
            },
            Operation::SHX => Computed { value: registers.x & inc8(high_byte(address)), registers },
            Operation::SHY => Computed { value: registers.y & inc8(high_byte(address)), registers },
            Operation::TAS => Computed {
                value: registers.a & registers.x & inc8(high_byte(address)),
                registers: Registers { stack_pointer: registers.a & registers.x, ..registers },
            },
            _ => Computed { value: registers.a, registers },
        }
    }

    /// The byte that a read-modify-write operation makes of `operand`, and
    /// the registers it leaves.
    #[verifier::opaque]
    pub open spec fn spec_execute_modify(
        registers: Registers,
        operation: Operation,
        operand: u8,
    ) -> Computed {
        match operation {
            Operation::ASL => Self::spec_asl(registers, operand),
            Operation::LSR => Self::spec_lsr(registers, operand),
            Operation::ROL => Self::spec_rol(registers, operand),
            Operation::ROR => Self::spec_ror(registers, operand),
            Operation::INC => Self::spec_increment(registers, operand),
            Operation::DEC => Self::spec_decrement(registers, operand),
            Operation::SLO => {
                let shifted: Computed = Self::spec_asl(registers, operand);
                Computed {
                    value: shifted.value,
                    registers: Self::spec_load_a(shifted.registers, shifted.registers.a | shifted.value),
                }
            },
            Operation::RLA => {
                let shifted: Computed = Self::spec_rol(registers, operand);
                Computed {
                    value: shifted.value,
                    registers: Self::spec_load_a(shifted.registers, shifted.registers.a & shifted.value),
                }
            },
            Operation::SRE => {
                let shifted: Computed = Self::spec_lsr(registers, operand);
                Computed {
                    value: shifted.value,
                    registers: Self::spec_load_a(shifted.registers, shifted.registers.a ^ shifted.value),
                }
            },
            Operation::RRA => {
                let shifted: Computed = Self::spec_ror(registers, operand);
                Computed {
                    value: shifted.value,
                    registers: Self::spec_adc(shifted.registers, shifted.value),
                }
            },
            Operation::DCP => Computed {
                value: spec_dec8(operand),
                registers: Self::spec_compare(registers, spec_dec8(operand), registers.a),
            },
            Operation::ISC => Computed {
                value: spec_inc8(operand),
                registers: Self::spec_sbc(registers, spec_inc8(operand)),
            },
            _ => Computed { value: operand, registers },
        }
    }

    pub fn execute_modify(
        registers: Registers,
        operation: Operation,
        operand: u8,
    ) -> (result: Computed)
        ensures
            result == Self::spec_execute_modify(registers, operation, operand),
    {
        proof {
            reveal(Cpu::spec_execute_modify);
        }
        match operation {
            Operation::ASL => Self::asl(registers, operand),
            Operation::LSR => Self::lsr(registers, operand),
            Operation::ROL => Self::rol(registers, operand),
            Operation::ROR => Self::ror(registers, operand),
            Operation::INC => Self::increment(registers, operand),
            Operation::DEC => Self::decrement(registers, operand),
            Operation::SLO => {
                let shifted: Computed = Self::asl(registers, operand);
                Computed {
                    value: shifted.value,
                    registers: Self::load_a(shifted.registers, shifted.registers.a | shifted.value),
                }
            },
            Operation::RLA => {
                let shifted: Computed = Self::rol(registers, operand);
                Computed {
                    value: shifted.value,
                    registers: Self::load_a(shifted.registers, shifted.registers.a & shifted.value),
                }
            },
            Operation::SRE => {
                let shifted: Computed = Self::lsr(registers, operand);
                Computed {
                    value: shifted.value,
                    registers: Self::load_a(shifted.registers, shifted.registers.a ^ shifted.value),
                }
            },
            Operation::RRA => {
                let shifted: Computed = Self::ror(registers, operand);
                Computed {
                    value: shifted.value,
                    registers: Self::adc(shifted.registers, shifted.value),
                }
            },
            Operation::DCP => Computed {
                value: dec8(operand),
                registers: Self::compare(registers, dec8(operand), registers.a),
            },
            Operation::ISC => Computed {
                value: inc8(operand),
                registers: Self::sbc(registers, inc8(operand)),
            },
            _ => Computed { value: operand, registers },
        }
    }

    /// The registers after an operation without operand.
    #[verifier::opaque]
    pub open spec fn spec_execute_implied(registers: Registers, operation: Operation) -> Registers {
        match operation {
            Operation::CLC => Registers {
                status_register: StatusFlags { carry: false, ..registers.status_register },
                ..registers
            },
            Operation::SEC => Registers {
                status_register: StatusFlags { carry: true, ..registers.status_register },
                ..registers
            },
            Operation::CLI => Registers {
                status_register: StatusFlags {
                    interrupt_disable: false,
                    ..registers.status_register
                },
                ..registers
            },
            Operation::SEI => Registers {
                status_register: StatusFlags {
                    interrupt_disable: true,
                    ..registers.status_register
                },
                ..registers
            },
            Operation::CLV => Registers {
                status_register: StatusFlags { overflow: false, ..registers.status_register },
                ..registers
            },
            Operation::CLD => Registers {
                status_register: StatusFlags { decimal: false, ..registers.status_register },
                ..registers
            },
            Operation::SED => Registers {
                status_register: StatusFlags { decimal: true, ..registers.status_register },
                ..registers
            },
            Operation::TAX => Self::spec_load_x(registers, registers.a),
            Operation::TAY => Self::spec_load_y(registers, registers.a),
            Operation::TXA => Self::spec_load_a(registers, registers.x),
            Operation::TYA => Self::spec_load_a(registers, registers.y),
            Operation::TSX => Self::spec_load_x(registers, registers.stack_pointer),
            Operation::TXS => Registers { stack_pointer: registers.x, ..registers },
            Operation::INX => Self::spec_load_x(registers, spec_inc8(registers.x)),
            Operation::INY => Self::spec_load_y(registers, spec_inc8(registers.y)),
            Operation::DEX => Self::spec_load_x(registers, spec_dec8(registers.x)),
            Operation::DEY => Self::spec_load_y(registers, spec_dec8(registers.y)),
            _ => registers,
        }
    }

    pub fn execute_implied(registers: Registers, operation: Operation) -> (result: Registers)
        ensures
            result == Self::spec_execute_implied(registers, operation),
    {
        proof {
            reveal(Cpu::spec_execute_implied);
        }
        match operation {
            Operation::CLC => Registers {
                status_register: StatusFlags { carry: false, ..registers.status_register },
                ..registers
            },
            Operation::SEC => Registers {
                status_register: StatusFlags { carry: true, ..registers.status_register },
                ..registers
            },
            Operation::CLI => Registers {
                status_register: StatusFlags {
                    interrupt_disable: false,
                    ..registers.status_register
                },
                ..registers
            },
            Operation::SEI => Registers {
                status_register: StatusFlags {
                    interrupt_disable: true,
                    ..registers.status_register
                },
                ..registers
            },
            Operation::CLV => Registers {
                status_register: StatusFlags { overflow: false, ..registers.status_register },
                ..registers
            },
            Operation::CLD => Registers {
                status_register: StatusFlags { decimal: false, ..registers.status_register },
                ..registers
            },
            Operation::SED => Registers {
                status_register: StatusFlags { decimal: true, ..registers.status_register },
                ..registers
            },
            Operation::TAX => Self::load_x(registers, registers.a),
            Operation::TAY => Self::load_y(registers, registers.a),
            Operation::TXA => Self::load_a(registers, registers.x),
            Operation::TYA => Self::load_a(registers, registers.y),
            Operation::TSX => Self::load_x(registers, registers.stack_pointer),
            Operation::TXS => Registers { stack_pointer: registers.x, ..registers },
            Operation::INX => Self::load_x(registers, inc8(registers.x)),
            Operation::INY => Self::load_y(registers, inc8(registers.y)),
            Operation::DEX => Self::load_x(registers, dec8(registers.x)),
            Operation::DEY => Self::load_y(registers, dec8(registers.y)),
            _ => registers,
        }
    }

    /// The micro-step that a stack operation or BRK goes to after its second cycle.
    pub open spec fn spec_execute_stack(registers: Registers, operation: Operation) -> Transition {
        match operation {
            Operation::PHA => Transition {
                registers,
                state: CpuState::PushRegisterOnStack { value: registers.a },
            },
            Operation::PHP => Transition {
                registers,
                state: CpuState::PushRegisterOnStack {
                    value: spec_status_bits(
                        StatusFlags { break_command: true, ..registers.status_register },
                    ),
                },
            },
            Operation::BRK => Transition {
                registers: Registers {
                    program_counter: spec_inc16(registers.program_counter),
                    ..registers
                },
                state: CpuState::PushPCHForInterrupt { interrupt: Interrupt::Break },
            },
            _ => Transition { registers, state: CpuState::PreIncrementStackPointer { operation } },
        }
    }

    /// The micro-step that a stack operation or BRK goes to after its second cycle.
    pub fn execute_stack(registers: Registers, operation: Operation) -> (result: Transition)
        ensures
            result == Self::spec_execute_stack(registers, operation),
    {
        match operation {
            Operation::PHA => Transition {
                registers,
                state: CpuState::PushRegisterOnStack { value: registers.a },
            },
            Operation::PHP => Transition {
                registers,
                state: CpuState::PushRegisterOnStack {
                    value: status_bits(
                        StatusFlags { break_command: true, ..registers.status_register },
                    ),
                },
            },
            Operation::BRK => Transition {
                registers: Registers {
                    program_counter: inc16(registers.program_counter),
                    ..registers
                },
                state: CpuState::PushPCHForInterrupt { interrupt: Interrupt::Break },
            },
            _ => Transition { registers, state: CpuState::PreIncrementStackPointer { operation } },
        }
    }

    /// Performs the operation of `opcode` on the operand and address that its
    /// addressing mode gathered, and names the micro-step that follows.
    pub open spec fn spec_execute(
        registers: Registers,
        opcode: Opcode,
        operand: Option<u8>,
        address: Option<u16>,
    ) -> Transition {
        match spec_instruction_type(opcode.operation) {
            InstructionType::Read => Transition {
                registers: Self::spec_execute_read(registers, opcode.operation, spec_operand_value(operand)),
                state: CpuState::FetchOpcode,
            },
            InstructionType::Write => {
                let stored: Computed = Self::spec_execute_write(
                    registers,
                    opcode.operation,
                    spec_address_value(address),
                );
                Transition {
                    registers: stored.registers,
                    state: CpuState::WritingResult {
                        address: spec_address_value(address),
                        value: stored.value,
                        dummy: None,
                    },
                }
            },
            InstructionType::ReadModifyWrite => {
                let modified: Computed = Self::spec_execute_modify(
                    registers,
                    opcode.operation,
                    spec_operand_value(operand),
                );
                match address {
                    None => Transition {
                        registers: Registers { a: modified.value, ..modified.registers },
                        state: CpuState::FetchOpcode,
                    },
                    Some(target) => Transition {
                        registers: modified.registers,
                        state: CpuState::WritingResult {
                            address: target,
                            value: modified.value,
                            dummy: Some(spec_operand_value(operand)),
                        },
                    },
                }
            },
            InstructionType::Jump => match opcode.operation {
                Operation::JSR => Transition {
                    registers,
                    state: CpuState::WritePCHToStack { address: spec_address_value(address) },
                },
                _ => Transition {
                    registers: Registers { program_counter: spec_address_value(address), ..registers },
                    state: CpuState::FetchOpcode,
                },
            },
            InstructionType::Branch => Transition {
                registers,
                state: CpuState::SetProgramCounter { address: spec_address_value(address) },
            },
            InstructionType::Stack => Self::spec_execute_stack(registers, opcode.operation),
            InstructionType::Implied => Transition {
                registers: Self::spec_execute_implied(registers, opcode.operation),
                state: CpuState::FetchOpcode,
            },
        }
    }

    /// Performs the operation of `opcode` on the operand and address that its
    /// addressing mode gathered, and names the micro-step that follows.
    pub fn execute(
        registers: Registers,
        opcode: Opcode,
        operand: Option<u8>,
        address: Option<u16>,
    ) -> (result: Transition)
        ensures
            result == Self::spec_execute(registers, opcode, operand, address),
    {
        match instruction_type(opcode.operation) {
            InstructionType::Read => Transition {
                registers: Self::execute_read(registers, opcode.operation, operand_value(operand)),
                state: CpuState::FetchOpcode,
            },
            InstructionType::Write => {
                let stored: Computed = Self::execute_write(
                    registers,
                    opcode.operation,
                    address_value(address),
                );
                Transition {
                    registers: stored.registers,
                    state: CpuState::WritingResult {
                        address: address_value(address),
                        value: stored.value,
                        dummy: None,
                    },
                }
            },
            InstructionType::ReadModifyWrite => {
                let modified: Computed = Self::execute_modify(
                    registers,
                    opcode.operation,
                    operand_value(operand),
                );
                match address {
                    None => Transition {
                        registers: Registers { a: modified.value, ..modified.registers },
                        state: CpuState::FetchOpcode,
                    },
                    Some(target) => Transition {
                        registers: modified.registers,
                        state: CpuState::WritingResult {
                            address: target,
                            value: modified.value,
                            dummy: Some(operand_value(operand)),
                        },
                    },
                }
            },
            InstructionType::Jump => match opcode.operation {
                Operation::JSR => Transition {
                    registers,
                    state: CpuState::WritePCHToStack { address: address_value(address) },
                },
                _ => Transition {
                    registers: Registers { program_counter: address_value(address), ..registers },
                    state: CpuState::FetchOpcode,
                },
            },
            InstructionType::Branch => Transition {
                registers,
                state: CpuState::SetProgramCounter { address: address_value(address) },
            },
            InstructionType::Stack => Self::execute_stack(registers, opcode.operation),
            InstructionType::Implied => Transition {
                registers: Self::execute_implied(registers, opcode.operation),
                state: CpuState::FetchOpcode,
            },
        }
    }
}

} // verus!
