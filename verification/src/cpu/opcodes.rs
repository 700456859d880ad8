//! The opcode matrix: operation, addressing mode and canonical cycle count
//! of each of the 256 opcodes.
use vstd::prelude::*;

verus! {

/// The operations of the processor, documented and undocumented.
#[derive(Clone, Copy, PartialEq, Eq, Structural, Debug)]
pub enum Operation {
    ADC,
    AND,
    ASL,
    BCC,
    BCS,
    BEQ,
    BIT,
    BMI,
    BNE,
    BPL,
    BRK,
    BVC,
    BVS,
    CLC,
    CLD,
    CLI,
    CLV,
    CMP,
    CPX,
    CPY,
    DEC,
    DEX,
    DEY,
    EOR,
    INC,
    INX,
    INY,
    JMP,
    JSR,
    LDA,
    LDX,
    LDY,
    LSR,
    NOP,
    ORA,
    PHA,
    PHP,
    PLA,
    PLP,
    ROL,
    ROR,
    RTI,
    RTS,
    SBC,
    SEC,
    SED,
    SEI,
    STA,
    STX,
    STY,
    TAX,
    TAY,
    TSX,
    TXA,
    TXS,
    TYA,
    LAX,
    SAX,
    DCP,
    ISC,
    SLO,
    RLA,
    SRE,
    RRA,
    ANC,
    ALR,
    ARR,
    XAA,
    AXS,
    AHX,
    SHX,
    SHY,
    TAS,
    LAS,
}

/// How an instruction finds its operand.
#[derive(Clone, Copy, PartialEq, Eq, Structural, Debug)]
pub enum AddressingMode {
    Implied,
    Accumulator,
    Immediate,
    ZeroPage,
    ZeroPageXIndexed,
    ZeroPageYIndexed,
    Absolute,
    AbsoluteXIndexed,
    AbsoluteYIndexed,
    Indirect,
    IndirectXIndexed,
    IndirectYIndexed,
    Relative,
}

/// What an operation does with memory; it decides dummy reads and
/// page-crossing penalties.
#[derive(Clone, Copy, PartialEq, Eq, Structural, Debug)]
pub enum InstructionType {
    Read,
    Write,
    ReadModifyWrite,
    Jump,
    Branch,
    Stack,
    Implied,
}

/// One entry of the opcode matrix.
#[derive(Clone, Copy, PartialEq, Eq, Structural, Debug)]
pub struct Opcode {
    /// The opcode byte.
    pub code: u8,
    pub operation: Operation,
    pub address_mode: AddressingMode,
    /// Canonical cycle count, without page-crossing and branch penalties.
    pub cycles: u8,
}

/// The class of an operation.
pub open spec fn spec_instruction_type(operation: Operation) -> InstructionType {
    match operation {
        Operation::ADC | Operation::AND | Operation::BIT | Operation::CMP | Operation::CPX
        | Operation::CPY | Operation::EOR | Operation::LDA | Operation::LDX | Operation::LDY
        | Operation::ORA | Operation::SBC | Operation::LAX | Operation::ANC | Operation::ALR
        | Operation::ARR | Operation::XAA | Operation::AXS | Operation::LAS | Operation::NOP => InstructionType::Read,
        Operation::STA | Operation::STX | Operation::STY | Operation::SAX | Operation::AHX
        | Operation::SHX | Operation::SHY | Operation::TAS => InstructionType::Write,
        Operation::ASL | Operation::LSR | Operation::ROL | Operation::ROR | Operation::INC
        | Operation::DEC | Operation::SLO | Operation::RLA | Operation::SRE | Operation::RRA
        | Operation::DCP | Operation::ISC => InstructionType::ReadModifyWrite,
        Operation::JMP | Operation::JSR => InstructionType::Jump,
        Operation::BCC | Operation::BCS | Operation::BEQ | Operation::BMI | Operation::BNE
        | Operation::BPL | Operation::BVC | Operation::BVS => InstructionType::Branch,
        Operation::PHA | Operation::PHP | Operation::PLA | Operation::PLP | Operation::RTI
        | Operation::RTS | Operation::BRK => InstructionType::Stack,
        Operation::CLC | Operation::CLD | Operation::CLI | Operation::CLV | Operation::SEC
        | Operation::SED | Operation::SEI | Operation::TAX | Operation::TAY | Operation::TSX
        | Operation::TXA | Operation::TXS | Operation::TYA | Operation::INX | Operation::INY
        | Operation::DEX | Operation::DEY => InstructionType::Implied,
    }
}

/// The class of an operation.
pub fn instruction_type(operation: Operation) -> (result: InstructionType)
    ensures
        result == spec_instruction_type(operation),
{
    match operation {
        Operation::ADC | Operation::AND | Operation::BIT | Operation::CMP | Operation::CPX
        | Operation::CPY | Operation::EOR | Operation::LDA | Operation::LDX | Operation::LDY
        | Operation::ORA | Operation::SBC | Operation::LAX | Operation::ANC | Operation::ALR
        | Operation::ARR | Operation::XAA | Operation::AXS | Operation::LAS | Operation::NOP => InstructionType::Read,
        Operation::STA | Operation::STX | Operation::STY | Operation::SAX | Operation::AHX
        | Operation::SHX | Operation::SHY | Operation::TAS => InstructionType::Write,
        Operation::ASL | Operation::LSR | Operation::ROL | Operation::ROR | Operation::INC
        | Operation::DEC | Operation::SLO | Operation::RLA | Operation::SRE | Operation::RRA
        | Operation::DCP | Operation::ISC => InstructionType::ReadModifyWrite,
        Operation::JMP | Operation::JSR => InstructionType::Jump,
        Operation::BCC | Operation::BCS | Operation::BEQ | Operation::BMI | Operation::BNE
        | Operation::BPL | Operation::BVC | Operation::BVS => InstructionType::Branch,
        Operation::PHA | Operation::PHP | Operation::PLA | Operation::PLP | Operation::RTI
        | Operation::RTS | Operation::BRK => InstructionType::Stack,
        Operation::CLC | Operation::CLD | Operation::CLI | Operation::CLV | Operation::SEC
        | Operation::SED | Operation::SEI | Operation::TAX | Operation::TAY | Operation::TSX
        | Operation::TXA | Operation::TXS | Operation::TYA | Operation::INX | Operation::INY
        | Operation::DEX | Operation::DEY => InstructionType::Implied,
    }
}

/// An entry of the matrix.
pub open spec fn spec_entry(
    code: u8,
    operation: Operation,
    address_mode: AddressingMode,
    cycles: u8,
) -> Opcode {
    Opcode { code, operation, address_mode, cycles }
}

/// An entry of the matrix.
pub fn entry(
    code: u8,
    operation: Operation,
    address_mode: AddressingMode,
    cycles: u8,
) -> (result: Opcode)
    ensures
        result == spec_entry(code, operation, address_mode, cycles),
{
    Opcode { code, operation, address_mode, cycles }
}


/// Row `$0x` of the matrix.
pub open spec fn spec_decode_0x(low: u8) -> Opcode {
    match low {
        0x0 => spec_entry(0x00, Operation::BRK, AddressingMode::Implied, 7),
        0x1 => spec_entry(0x01, Operation::ORA, AddressingMode::IndirectXIndexed, 6),
        0x2 => spec_entry(0x02, Operation::NOP, AddressingMode::Implied, 2),
        0x3 => spec_entry(0x03, Operation::SLO, AddressingMode::IndirectXIndexed, 8),
        0x4 => spec_entry(0x04, Operation::NOP, AddressingMode::ZeroPage, 3),
        0x5 => spec_entry(0x05, Operation::ORA, AddressingMode::ZeroPage, 3),
        0x6 => spec_entry(0x06, Operation::ASL, AddressingMode::ZeroPage, 5),
        0x7 => spec_entry(0x07, Operation::SLO, AddressingMode::ZeroPage, 5),
        0x8 => spec_entry(0x08, Operation::PHP, AddressingMode::Implied, 3),
        0x9 => spec_entry(0x09, Operation::ORA, AddressingMode::Immediate, 2),
        0xA => spec_entry(0x0A, Operation::ASL, AddressingMode::Accumulator, 2),
        0xB => spec_entry(0x0B, Operation::ANC, AddressingMode::Immediate, 2),
        0xC => spec_entry(0x0C, Operation::NOP, AddressingMode::Absolute, 4),
        0xD => spec_entry(0x0D, Operation::ORA, AddressingMode::Absolute, 4),
        0xE => spec_entry(0x0E, Operation::ASL, AddressingMode::Absolute, 6),
        _ => spec_entry(0x0F, Operation::SLO, AddressingMode::Absolute, 6),
    }
}

/// Row `$0x` of the matrix.
pub fn decode_0x(low: u8) -> (result: Opcode)
    ensures
        result == spec_decode_0x(low),
{
    match low {
        0x0 => entry(0x00, Operation::BRK, AddressingMode::Implied, 7),
        0x1 => entry(0x01, Operation::ORA, AddressingMode::IndirectXIndexed, 6),
        0x2 => entry(0x02, Operation::NOP, AddressingMode::Implied, 2),
        0x3 => entry(0x03, Operation::SLO, AddressingMode::IndirectXIndexed, 8),
        0x4 => entry(0x04, Operation::NOP, AddressingMode::ZeroPage, 3),
        0x5 => entry(0x05, Operation::ORA, AddressingMode::ZeroPage, 3),
        0x6 => entry(0x06, Operation::ASL, AddressingMode::ZeroPage, 5),
        0x7 => entry(0x07, Operation::SLO, AddressingMode::ZeroPage, 5),
        0x8 => entry(0x08, Operation::PHP, AddressingMode::Implied, 3),
        0x9 => entry(0x09, Operation::ORA, AddressingMode::Immediate, 2),
        0xA => entry(0x0A, Operation::ASL, AddressingMode::Accumulator, 2),
        0xB => entry(0x0B, Operation::ANC, AddressingMode::Immediate, 2),
        0xC => entry(0x0C, Operation::NOP, AddressingMode::Absolute, 4),
        0xD => entry(0x0D, Operation::ORA, AddressingMode::Absolute, 4),
        0xE => entry(0x0E, Operation::ASL, AddressingMode::Absolute, 6),
        _ => entry(0x0F, Operation::SLO, AddressingMode::Absolute, 6),
    }
}

/// Row `$1x` of the matrix.
pub open spec fn spec_decode_1x(low: u8) -> Opcode {
    match low {
        0x0 => spec_entry(0x10, Operation::BPL, AddressingMode::Relative, 2),
        0x1 => spec_entry(0x11, Operation::ORA, AddressingMode::IndirectYIndexed, 5),
        0x2 => spec_entry(0x12, Operation::NOP, AddressingMode::Implied, 2),
        0x3 => spec_entry(0x13, Operation::SLO, AddressingMode::IndirectYIndexed, 8),
        0x4 => spec_entry(0x14, Operation::NOP, AddressingMode::ZeroPageXIndexed, 4),
        0x5 => spec_entry(0x15, Operation::ORA, AddressingMode::ZeroPageXIndexed, 4),
        0x6 => spec_entry(0x16, Operation::ASL, AddressingMode::ZeroPageXIndexed, 6),
        0x7 => spec_entry(0x17, Operation::SLO, AddressingMode::ZeroPageXIndexed, 6),
        0x8 => spec_entry(0x18, Operation::CLC, AddressingMode::Implied, 2),
        0x9 => spec_entry(0x19, Operation::ORA, AddressingMode::AbsoluteYIndexed, 4),
        0xA => spec_entry(0x1A, Operation::NOP, AddressingMode::Implied, 2),
        0xB => spec_entry(0x1B, Operation::SLO, AddressingMode::AbsoluteYIndexed, 7),
        0xC => spec_entry(0x1C, Operation::NOP, AddressingMode::AbsoluteXIndexed, 4),
        0xD => spec_entry(0x1D, Operation::ORA, AddressingMode::AbsoluteXIndexed, 4),
        0xE => spec_entry(0x1E, Operation::ASL, AddressingMode::AbsoluteXIndexed, 7),
        _ => spec_entry(0x1F, Operation::SLO, AddressingMode::AbsoluteXIndexed, 7),
    }
}

/// Row `$1x` of the matrix.
pub fn decode_1x(low: u8) -> (result: Opcode)
    ensures
        result == spec_decode_1x(low),
{
    match low {
        0x0 => entry(0x10, Operation::BPL, AddressingMode::Relative, 2),
        0x1 => entry(0x11, Operation::ORA, AddressingMode::IndirectYIndexed, 5),
        0x2 => entry(0x12, Operation::NOP, AddressingMode::Implied, 2),
        0x3 => entry(0x13, Operation::SLO, AddressingMode::IndirectYIndexed, 8),
        0x4 => entry(0x14, Operation::NOP, AddressingMode::ZeroPageXIndexed, 4),
        0x5 => entry(0x15, Operation::ORA, AddressingMode::ZeroPageXIndexed, 4),
        0x6 => entry(0x16, Operation::ASL, AddressingMode::ZeroPageXIndexed, 6),
        0x7 => entry(0x17, Operation::SLO, AddressingMode::ZeroPageXIndexed, 6),
        0x8 => entry(0x18, Operation::CLC, AddressingMode::Implied, 2),
        0x9 => entry(0x19, Operation::ORA, AddressingMode::AbsoluteYIndexed, 4),
        0xA => entry(0x1A, Operation::NOP, AddressingMode::Implied, 2),
        0xB => entry(0x1B, Operation::SLO, AddressingMode::AbsoluteYIndexed, 7),
        0xC => entry(0x1C, Operation::NOP, AddressingMode::AbsoluteXIndexed, 4),
        0xD => entry(0x1D, Operation::ORA, AddressingMode::AbsoluteXIndexed, 4),
        0xE => entry(0x1E, Operation::ASL, AddressingMode::AbsoluteXIndexed, 7),
        _ => entry(0x1F, Operation::SLO, AddressingMode::AbsoluteXIndexed, 7),
    }
}

/// Row `$2x` of the matrix.
pub open spec fn spec_decode_2x(low: u8) -> Opcode {
    match low {
        0x0 => spec_entry(0x20, Operation::JSR, AddressingMode::Absolute, 6),
        0x1 => spec_entry(0x21, Operation::AND, AddressingMode::IndirectXIndexed, 6),
        0x2 => spec_entry(0x22, Operation::NOP, AddressingMode::Implied, 2),
        0x3 => spec_entry(0x23, Operation::RLA, AddressingMode::IndirectXIndexed, 8),
        0x4 => spec_entry(0x24, Operation::BIT, AddressingMode::ZeroPage, 3),
        0x5 => spec_entry(0x25, Operation::AND, AddressingMode::ZeroPage, 3),
        0x6 => spec_entry(0x26, Operation::ROL, AddressingMode::ZeroPage, 5),
        0x7 => spec_entry(0x27, Operation::RLA, AddressingMode::ZeroPage, 5),
        0x8 => spec_entry(0x28, Operation::PLP, AddressingMode::Implied, 4),
        0x9 => spec_entry(0x29, Operation::AND, AddressingMode::Immediate, 2),
        0xA => spec_entry(0x2A, Operation::ROL, AddressingMode::Accumulator, 2),
        0xB => spec_entry(0x2B, Operation::ANC, AddressingMode::Immediate, 2),
        0xC => spec_entry(0x2C, Operation::BIT, AddressingMode::Absolute, 4),
        0xD => spec_entry(0x2D, Operation::AND, AddressingMode::Absolute, 4),
        0xE => spec_entry(0x2E, Operation::ROL, AddressingMode::Absolute, 6),
        _ => spec_entry(0x2F, Operation::RLA, AddressingMode::Absolute, 6),
    }
}

/// Row `$2x` of the matrix.
pub fn decode_2x(low: u8) -> (result: Opcode)
    ensures
        result == spec_decode_2x(low),
{
    match low {
        0x0 => entry(0x20, Operation::JSR, AddressingMode::Absolute, 6),
        0x1 => entry(0x21, Operation::AND, AddressingMode::IndirectXIndexed, 6),
        0x2 => entry(0x22, Operation::NOP, AddressingMode::Implied, 2),
        0x3 => entry(0x23, Operation::RLA, AddressingMode::IndirectXIndexed, 8),
        0x4 => entry(0x24, Operation::BIT, AddressingMode::ZeroPage, 3),
        0x5 => entry(0x25, Operation::AND, AddressingMode::ZeroPage, 3),
        0x6 => entry(0x26, Operation::ROL, AddressingMode::ZeroPage, 5),
        0x7 => entry(0x27, Operation::RLA, AddressingMode::ZeroPage, 5),
        0x8 => entry(0x28, Operation::PLP, AddressingMode::Implied, 4),
        0x9 => entry(0x29, Operation::AND, AddressingMode::Immediate, 2),
        0xA => entry(0x2A, Operation::ROL, AddressingMode::Accumulator, 2),
        0xB => entry(0x2B, Operation::ANC, AddressingMode::Immediate, 2),
        0xC => entry(0x2C, Operation::BIT, AddressingMode::Absolute, 4),
        0xD => entry(0x2D, Operation::AND, AddressingMode::Absolute, 4),
        0xE => entry(0x2E, Operation::ROL, AddressingMode::Absolute, 6),
        _ => entry(0x2F, Operation::RLA, AddressingMode::Absolute, 6),
    }
}

/// Row `$3x` of the matrix.
pub open spec fn spec_decode_3x(low: u8) -> Opcode {
    match low {
        0x0 => spec_entry(0x30, Operation::BMI, AddressingMode::Relative, 2),
        0x1 => spec_entry(0x31, Operation::AND, AddressingMode::IndirectYIndexed, 5),
        0x2 => spec_entry(0x32, Operation::NOP, AddressingMode::Implied, 2),
        0x3 => spec_entry(0x33, Operation::RLA, AddressingMode::IndirectYIndexed, 8),
        0x4 => spec_entry(0x34, Operation::NOP, AddressingMode::ZeroPageXIndexed, 4),
        0x5 => spec_entry(0x35, Operation::AND, AddressingMode::ZeroPageXIndexed, 4),
        0x6 => spec_entry(0x36, Operation::ROL, AddressingMode::ZeroPageXIndexed, 6),
        0x7 => spec_entry(0x37, Operation::RLA, AddressingMode::ZeroPageXIndexed, 6),
        0x8 => spec_entry(0x38, Operation::SEC, AddressingMode::Implied, 2),
        0x9 => spec_entry(0x39, Operation::AND, AddressingMode::AbsoluteYIndexed, 4),
        0xA => spec_entry(0x3A, Operation::NOP, AddressingMode::Implied, 2),
        0xB => spec_entry(0x3B, Operation::RLA, AddressingMode::AbsoluteYIndexed, 7),
        0xC => spec_entry(0x3C, Operation::NOP, AddressingMode::AbsoluteXIndexed, 4),
        0xD => spec_entry(0x3D, Operation::AND, AddressingMode::AbsoluteXIndexed, 4),
        0xE => spec_entry(0x3E, Operation::ROL, AddressingMode::AbsoluteXIndexed, 7),
        _ => spec_entry(0x3F, Operation::RLA, AddressingMode::AbsoluteXIndexed, 7),
    }
}

/// Row `$3x` of the matrix.
pub fn decode_3x(low: u8) -> (result: Opcode)
    ensures
        result == spec_decode_3x(low),
{
    match low {
        0x0 => entry(0x30, Operation::BMI, AddressingMode::Relative, 2),
        0x1 => entry(0x31, Operation::AND, AddressingMode::IndirectYIndexed, 5),
        0x2 => entry(0x32, Operation::NOP, AddressingMode::Implied, 2),
        0x3 => entry(0x33, Operation::RLA, AddressingMode::IndirectYIndexed, 8),
        0x4 => entry(0x34, Operation::NOP, AddressingMode::ZeroPageXIndexed, 4),
        0x5 => entry(0x35, Operation::AND, AddressingMode::ZeroPageXIndexed, 4),
        0x6 => entry(0x36, Operation::ROL, AddressingMode::ZeroPageXIndexed, 6),
        0x7 => entry(0x37, Operation::RLA, AddressingMode::ZeroPageXIndexed, 6),
        0x8 => entry(0x38, Operation::SEC, AddressingMode::Implied, 2),
        0x9 => entry(0x39, Operation::AND, AddressingMode::AbsoluteYIndexed, 4),
        0xA => entry(0x3A, Operation::NOP, AddressingMode::Implied, 2),
        0xB => entry(0x3B, Operation::RLA, AddressingMode::AbsoluteYIndexed, 7),
        0xC => entry(0x3C, Operation::NOP, AddressingMode::AbsoluteXIndexed, 4),
        0xD => entry(0x3D, Operation::AND, AddressingMode::AbsoluteXIndexed, 4),
        0xE => entry(0x3E, Operation::ROL, AddressingMode::AbsoluteXIndexed, 7),
        _ => entry(0x3F, Operation::RLA, AddressingMode::AbsoluteXIndexed, 7),
    }
}

/// Row `$4x` of the matrix.
pub open spec fn spec_decode_4x(low: u8) -> Opcode {
    match low {
        0x0 => spec_entry(0x40, Operation::RTI, AddressingMode::Implied, 6),
        0x1 => spec_entry(0x41, Operation::EOR, AddressingMode::IndirectXIndexed, 6),
        0x2 => spec_entry(0x42, Operation::NOP, AddressingMode::Implied, 2),
        0x3 => spec_entry(0x43, Operation::SRE, AddressingMode::IndirectXIndexed, 8),
        0x4 => spec_entry(0x44, Operation::NOP, AddressingMode::ZeroPage, 3),
        0x5 => spec_entry(0x45, Operation::EOR, AddressingMode::ZeroPage, 3),
        0x6 => spec_entry(0x46, Operation::LSR, AddressingMode::ZeroPage, 5),
        0x7 => spec_entry(0x47, Operation::SRE, AddressingMode::ZeroPage, 5),
        0x8 => spec_entry(0x48, Operation::PHA, AddressingMode::Implied, 3),
        0x9 => spec_entry(0x49, Operation::EOR, AddressingMode::Immediate, 2),
        0xA => spec_entry(0x4A, Operation::LSR, AddressingMode::Accumulator, 2),
        0xB => spec_entry(0x4B, Operation::ALR, AddressingMode::Immediate, 2),
        0xC => spec_entry(0x4C, Operation::JMP, AddressingMode::Absolute, 3),
        0xD => spec_entry(0x4D, Operation::EOR, AddressingMode::Absolute, 4),
        0xE => spec_entry(0x4E, Operation::LSR, AddressingMode::Absolute, 6),
        _ => spec_entry(0x4F, Operation::SRE, AddressingMode::Absolute, 6),
    }
}

/// Row `$4x` of the matrix.
pub fn decode_4x(low: u8) -> (result: Opcode)
    ensures
        result == spec_decode_4x(low),
{
    match low {
        0x0 => entry(0x40, Operation::RTI, AddressingMode::Implied, 6),
        0x1 => entry(0x41, Operation::EOR, AddressingMode::IndirectXIndexed, 6),
        0x2 => entry(0x42, Operation::NOP, AddressingMode::Implied, 2),
        0x3 => entry(0x43, Operation::SRE, AddressingMode::IndirectXIndexed, 8),
        0x4 => entry(0x44, Operation::NOP, AddressingMode::ZeroPage, 3),
        0x5 => entry(0x45, Operation::EOR, AddressingMode::ZeroPage, 3),
        0x6 => entry(0x46, Operation::LSR, AddressingMode::ZeroPage, 5),
        0x7 => entry(0x47, Operation::SRE, AddressingMode::ZeroPage, 5),
        0x8 => entry(0x48, Operation::PHA, AddressingMode::Implied, 3),
        0x9 => entry(0x49, Operation::EOR, AddressingMode::Immediate, 2),
        0xA => entry(0x4A, Operation::LSR, AddressingMode::Accumulator, 2),
        0xB => entry(0x4B, Operation::ALR, AddressingMode::Immediate, 2),
        0xC => entry(0x4C, Operation::JMP, AddressingMode::Absolute, 3),
        0xD => entry(0x4D, Operation::EOR, AddressingMode::Absolute, 4),
        0xE => entry(0x4E, Operation::LSR, AddressingMode::Absolute, 6),
        _ => entry(0x4F, Operation::SRE, AddressingMode::Absolute, 6),
    }
}

/// Row `$5x` of the matrix.
pub open spec fn spec_decode_5x(low: u8) -> Opcode {
    match low {
        0x0 => spec_entry(0x50, Operation::BVC, AddressingMode::Relative, 2),
        0x1 => spec_entry(0x51, Operation::EOR, AddressingMode::IndirectYIndexed, 5),
        0x2 => spec_entry(0x52, Operation::NOP, AddressingMode::Implied, 2),
        0x3 => spec_entry(0x53, Operation::SRE, AddressingMode::IndirectYIndexed, 8),
        0x4 => spec_entry(0x54, Operation::NOP, AddressingMode::ZeroPageXIndexed, 4),
        0x5 => spec_entry(0x55, Operation::EOR, AddressingMode::ZeroPageXIndexed, 4),
        0x6 => spec_entry(0x56, Operation::LSR, AddressingMode::ZeroPageXIndexed, 6),
        0x7 => spec_entry(0x57, Operation::SRE, AddressingMode::ZeroPageXIndexed, 6),
        0x8 => spec_entry(0x58, Operation::CLI, AddressingMode::Implied, 2),
        0x9 => spec_entry(0x59, Operation::EOR, AddressingMode::AbsoluteYIndexed, 4),
        0xA => spec_entry(0x5A, Operation::NOP, AddressingMode::Implied, 2),
        0xB => spec_entry(0x5B, Operation::SRE, AddressingMode::AbsoluteYIndexed, 7),
        0xC => spec_entry(0x5C, Operation::NOP, AddressingMode::AbsoluteXIndexed, 4),
        0xD => spec_entry(0x5D, Operation::EOR, AddressingMode::AbsoluteXIndexed, 4),
        0xE => spec_entry(0x5E, Operation::LSR, AddressingMode::AbsoluteXIndexed, 7),
        _ => spec_entry(0x5F, Operation::SRE, AddressingMode::AbsoluteXIndexed, 7),
    }
}

/// Row `$5x` of the matrix.
pub fn decode_5x(low: u8) -> (result: Opcode)
    ensures
        result == spec_decode_5x(low),
{
    match low {
        0x0 => entry(0x50, Operation::BVC, AddressingMode::Relative, 2),
        0x1 => entry(0x51, Operation::EOR, AddressingMode::IndirectYIndexed, 5),
        0x2 => entry(0x52, Operation::NOP, AddressingMode::Implied, 2),
        0x3 => entry(0x53, Operation::SRE, AddressingMode::IndirectYIndexed, 8),
        0x4 => entry(0x54, Operation::NOP, AddressingMode::ZeroPageXIndexed, 4),
        0x5 => entry(0x55, Operation::EOR, AddressingMode::ZeroPageXIndexed, 4),
        0x6 => entry(0x56, Operation::LSR, AddressingMode::ZeroPageXIndexed, 6),
        0x7 => entry(0x57, Operation::SRE, AddressingMode::ZeroPageXIndexed, 6),
        0x8 => entry(0x58, Operation::CLI, AddressingMode::Implied, 2),
        0x9 => entry(0x59, Operation::EOR, AddressingMode::AbsoluteYIndexed, 4),
        0xA => entry(0x5A, Operation::NOP, AddressingMode::Implied, 2),
        0xB => entry(0x5B, Operation::SRE, AddressingMode::AbsoluteYIndexed, 7),
        0xC => entry(0x5C, Operation::NOP, AddressingMode::AbsoluteXIndexed, 4),
        0xD => entry(0x5D, Operation::EOR, AddressingMode::AbsoluteXIndexed, 4),
        0xE => entry(0x5E, Operation::LSR, AddressingMode::AbsoluteXIndexed, 7),
        _ => entry(0x5F, Operation::SRE, AddressingMode::AbsoluteXIndexed, 7),
    }
}

/// Row `$6x` of the matrix.
pub open spec fn spec_decode_6x(low: u8) -> Opcode {
    match low {
        0x0 => spec_entry(0x60, Operation::RTS, AddressingMode::Implied, 6),
        0x1 => spec_entry(0x61, Operation::ADC, AddressingMode::IndirectXIndexed, 6),
        0x2 => spec_entry(0x62, Operation::NOP, AddressingMode::Implied, 2),
        0x3 => spec_entry(0x63, Operation::RRA, AddressingMode::IndirectXIndexed, 8),
        0x4 => spec_entry(0x64, Operation::NOP, AddressingMode::ZeroPage, 3),
        0x5 => spec_entry(0x65, Operation::ADC, AddressingMode::ZeroPage, 3),
        0x6 => spec_entry(0x66, Operation::ROR, AddressingMode::ZeroPage, 5),
        0x7 => spec_entry(0x67, Operation::RRA, AddressingMode::ZeroPage, 5),
        0x8 => spec_entry(0x68, Operation::PLA, AddressingMode::Implied, 4),
        0x9 => spec_entry(0x69, Operation::ADC, AddressingMode::Immediate, 2),
        0xA => spec_entry(0x6A, Operation::ROR, AddressingMode::Accumulator, 2),
        0xB => spec_entry(0x6B, Operation::ARR, AddressingMode::Immediate, 2),
        0xC => spec_entry(0x6C, Operation::JMP, AddressingMode::Indirect, 5),
        0xD => spec_entry(0x6D, Operation::ADC, AddressingMode::Absolute, 4),
        0xE => spec_entry(0x6E, Operation::ROR, AddressingMode::Absolute, 6),
        _ => spec_entry(0x6F, Operation::RRA, AddressingMode::Absolute, 6),
    }
}

/// Row `$6x` of the matrix.
pub fn decode_6x(low: u8) -> (result: Opcode)
    ensures
        result == spec_decode_6x(low),
{
    match low {
        0x0 => entry(0x60, Operation::RTS, AddressingMode::Implied, 6),
        0x1 => entry(0x61, Operation::ADC, AddressingMode::IndirectXIndexed, 6),
        0x2 => entry(0x62, Operation::NOP, AddressingMode::Implied, 2),
        0x3 => entry(0x63, Operation::RRA, AddressingMode::IndirectXIndexed, 8),
        0x4 => entry(0x64, Operation::NOP, AddressingMode::ZeroPage, 3),
        0x5 => entry(0x65, Operation::ADC, AddressingMode::ZeroPage, 3),
        0x6 => entry(0x66, Operation::ROR, AddressingMode::ZeroPage, 5),
        0x7 => entry(0x67, Operation::RRA, AddressingMode::ZeroPage, 5),
        0x8 => entry(0x68, Operation::PLA, AddressingMode::Implied, 4),
        0x9 => entry(0x69, Operation::ADC, AddressingMode::Immediate, 2),
        0xA => entry(0x6A, Operation::ROR, AddressingMode::Accumulator, 2),
        0xB => entry(0x6B, Operation::ARR, AddressingMode::Immediate, 2),
        0xC => entry(0x6C, Operation::JMP, AddressingMode::Indirect, 5),
        0xD => entry(0x6D, Operation::ADC, AddressingMode::Absolute, 4),
        0xE => entry(0x6E, Operation::ROR, AddressingMode::Absolute, 6),
        _ => entry(0x6F, Operation::RRA, AddressingMode::Absolute, 6),
    }
}

/// Row `$7x` of the matrix.
pub open spec fn spec_decode_7x(low: u8) -> Opcode {
    match low {
        0x0 => spec_entry(0x70, Operation::BVS, AddressingMode::Relative, 2),
        0x1 => spec_entry(0x71, Operation::ADC, AddressingMode::IndirectYIndexed, 5),
        0x2 => spec_entry(0x72, Operation::NOP, AddressingMode::Implied, 2),
        0x3 => spec_entry(0x73, Operation::RRA, AddressingMode::IndirectYIndexed, 8),
        0x4 => spec_entry(0x74, Operation::NOP, AddressingMode::ZeroPageXIndexed, 4),
        0x5 => spec_entry(0x75, Operation::ADC, AddressingMode::ZeroPageXIndexed, 4),
        0x6 => spec_entry(0x76, Operation::ROR, AddressingMode::ZeroPageXIndexed, 6),
        0x7 => spec_entry(0x77, Operation::RRA, AddressingMode::ZeroPageXIndexed, 6),
        0x8 => spec_entry(0x78, Operation::SEI, AddressingMode::Implied, 2),
        0x9 => spec_entry(0x79, Operation::ADC, AddressingMode::AbsoluteYIndexed, 4),
        0xA => spec_entry(0x7A, Operation::NOP, AddressingMode::Implied, 2),
        0xB => spec_entry(0x7B, Operation::RRA, AddressingMode::AbsoluteYIndexed, 7),
        0xC => spec_entry(0x7C, Operation::NOP, AddressingMode::AbsoluteXIndexed, 4),
        0xD => spec_entry(0x7D, Operation::ADC, AddressingMode::AbsoluteXIndexed, 4),
        0xE => spec_entry(0x7E, Operation::ROR, AddressingMode::AbsoluteXIndexed, 7),
        _ => spec_entry(0x7F, Operation::RRA, AddressingMode::AbsoluteXIndexed, 7),
    }
}

/// Row `$7x` of the matrix.
pub fn decode_7x(low: u8) -> (result: Opcode)
    ensures
        result == spec_decode_7x(low),
{
    match low {
        0x0 => entry(0x70, Operation::BVS, AddressingMode::Relative, 2),
        0x1 => entry(0x71, Operation::ADC, AddressingMode::IndirectYIndexed, 5),
        0x2 => entry(0x72, Operation::NOP, AddressingMode::Implied, 2),
        0x3 => entry(0x73, Operation::RRA, AddressingMode::IndirectYIndexed, 8),
        0x4 => entry(0x74, Operation::NOP, AddressingMode::ZeroPageXIndexed, 4),
        0x5 => entry(0x75, Operation::ADC, AddressingMode::ZeroPageXIndexed, 4),
        0x6 => entry(0x76, Operation::ROR, AddressingMode::ZeroPageXIndexed, 6),
        0x7 => entry(0x77, Operation::RRA, AddressingMode::ZeroPageXIndexed, 6),
        0x8 => entry(0x78, Operation::SEI, AddressingMode::Implied, 2),
        0x9 => entry(0x79, Operation::ADC, AddressingMode::AbsoluteYIndexed, 4),
        0xA => entry(0x7A, Operation::NOP, AddressingMode::Implied, 2),
        0xB => entry(0x7B, Operation::RRA, AddressingMode::AbsoluteYIndexed, 7),
        0xC => entry(0x7C, Operation::NOP, AddressingMode::AbsoluteXIndexed, 4),
        0xD => entry(0x7D, Operation::ADC, AddressingMode::AbsoluteXIndexed, 4),
        0xE => entry(0x7E, Operation::ROR, AddressingMode::AbsoluteXIndexed, 7),
        _ => entry(0x7F, Operation::RRA, AddressingMode::AbsoluteXIndexed, 7),
    }
}

/// Row `$8x` of the matrix.
pub open spec fn spec_decode_8x(low: u8) -> Opcode {
    match low {
        0x0 => spec_entry(0x80, Operation::NOP, AddressingMode::Immediate, 2),
        0x1 => spec_entry(0x81, Operation::STA, AddressingMode::IndirectXIndexed, 6),
        0x2 => spec_entry(0x82, Operation::NOP, AddressingMode::Immediate, 2),
        0x3 => spec_entry(0x83, Operation::SAX, AddressingMode::IndirectXIndexed, 6),
        0x4 => spec_entry(0x84, Operation::STY, AddressingMode::ZeroPage, 3),
        0x5 => spec_entry(0x85, Operation::STA, AddressingMode::ZeroPage, 3),
        0x6 => spec_entry(0x86, Operation::STX, AddressingMode::ZeroPage, 3),
        0x7 => spec_entry(0x87, Operation::SAX, AddressingMode::ZeroPage, 3),
        0x8 => spec_entry(0x88, Operation::DEY, AddressingMode::Implied, 2),
        0x9 => spec_entry(0x89, Operation::NOP, AddressingMode::Immediate, 2),
        0xA => spec_entry(0x8A, Operation::TXA, AddressingMode::Implied, 2),
        0xB => spec_entry(0x8B, Operation::XAA, AddressingMode::Immediate, 2),
        0xC => spec_entry(0x8C, Operation::STY, AddressingMode::Absolute, 4),
        0xD => spec_entry(0x8D, Operation::STA, AddressingMode::Absolute, 4),
        0xE => spec_entry(0x8E, Operation::STX, AddressingMode::Absolute, 4),
        _ => spec_entry(0x8F, Operation::SAX, AddressingMode::Absolute, 4),
    }
}

/// Row `$8x` of the matrix.
pub fn decode_8x(low: u8) -> (result: Opcode)
    ensures
        result == spec_decode_8x(low),
{
    match low {
        0x0 => entry(0x80, Operation::NOP, AddressingMode::Immediate, 2),
        0x1 => entry(0x81, Operation::STA, AddressingMode::IndirectXIndexed, 6),
        0x2 => entry(0x82, Operation::NOP, AddressingMode::Immediate, 2),
        0x3 => entry(0x83, Operation::SAX, AddressingMode::IndirectXIndexed, 6),
        0x4 => entry(0x84, Operation::STY, AddressingMode::ZeroPage, 3),
        0x5 => entry(0x85, Operation::STA, AddressingMode::ZeroPage, 3),
        0x6 => entry(0x86, Operation::STX, AddressingMode::ZeroPage, 3),
        0x7 => entry(0x87, Operation::SAX, AddressingMode::ZeroPage, 3),
        0x8 => entry(0x88, Operation::DEY, AddressingMode::Implied, 2),
        0x9 => entry(0x89, Operation::NOP, AddressingMode::Immediate, 2),
        0xA => entry(0x8A, Operation::TXA, AddressingMode::Implied, 2),
        0xB => entry(0x8B, Operation::XAA, AddressingMode::Immediate, 2),
        0xC => entry(0x8C, Operation::STY, AddressingMode::Absolute, 4),
        0xD => entry(0x8D, Operation::STA, AddressingMode::Absolute, 4),
        0xE => entry(0x8E, Operation::STX, AddressingMode::Absolute, 4),
        _ => entry(0x8F, Operation::SAX, AddressingMode::Absolute, 4),
    }
}

/// Row `$9x` of the matrix.
pub open spec fn spec_decode_9x(low: u8) -> Opcode {
    match low {
        0x0 => spec_entry(0x90, Operation::BCC, AddressingMode::Relative, 2),
        0x1 => spec_entry(0x91, Operation::STA, AddressingMode::IndirectYIndexed, 6),
        0x2 => spec_entry(0x92, Operation::NOP, AddressingMode::Implied, 2),
        0x3 => spec_entry(0x93, Operation::AHX, AddressingMode::IndirectYIndexed, 6),
        0x4 => spec_entry(0x94, Operation::STY, AddressingMode::ZeroPageXIndexed, 4),
        0x5 => spec_entry(0x95, Operation::STA, AddressingMode::ZeroPageXIndexed, 4),
        0x6 => spec_entry(0x96, Operation::STX, AddressingMode::ZeroPageYIndexed, 4),
        0x7 => spec_entry(0x97, Operation::SAX, AddressingMode::ZeroPageYIndexed, 4),
        0x8 => spec_entry(0x98, Operation::TYA, AddressingMode::Implied, 2),
        0x9 => spec_entry(0x99, Operation::STA, AddressingMode::AbsoluteYIndexed, 5),
        0xA => spec_entry(0x9A, Operation::TXS, AddressingMode::Implied, 2),
        0xB => spec_entry(0x9B, Operation::TAS, AddressingMode::AbsoluteYIndexed, 5),
        0xC => spec_entry(0x9C, Operation::SHY, AddressingMode::AbsoluteXIndexed, 5),
        0xD => spec_entry(0x9D, Operation::STA, AddressingMode::AbsoluteXIndexed, 5),
        0xE => spec_entry(0x9E, Operation::SHX, AddressingMode::AbsoluteYIndexed, 5),
        _ => spec_entry(0x9F, Operation::AHX, AddressingMode::AbsoluteYIndexed, 5),
    }
}

/// Row `$9x` of the matrix.
pub fn decode_9x(low: u8) -> (result: Opcode)
    ensures
        result == spec_decode_9x(low),
{
    match low {
        0x0 => entry(0x90, Operation::BCC, AddressingMode::Relative, 2),
        0x1 => entry(0x91, Operation::STA, AddressingMode::IndirectYIndexed, 6),
        0x2 => entry(0x92, Operation::NOP, AddressingMode::Implied, 2),
        0x3 => entry(0x93, Operation::AHX, AddressingMode::IndirectYIndexed, 6),
        0x4 => entry(0x94, Operation::STY, AddressingMode::ZeroPageXIndexed, 4),
        0x5 => entry(0x95, Operation::STA, AddressingMode::ZeroPageXIndexed, 4),
        0x6 => entry(0x96, Operation::STX, AddressingMode::ZeroPageYIndexed, 4),
        0x7 => entry(0x97, Operation::SAX, AddressingMode::ZeroPageYIndexed, 4),
        0x8 => entry(0x98, Operation::TYA, AddressingMode::Implied, 2),
        0x9 => entry(0x99, Operation::STA, AddressingMode::AbsoluteYIndexed, 5),
        0xA => entry(0x9A, Operation::TXS, AddressingMode::Implied, 2),
        0xB => entry(0x9B, Operation::TAS, AddressingMode::AbsoluteYIndexed, 5),
        0xC => entry(0x9C, Operation::SHY, AddressingMode::AbsoluteXIndexed, 5),
        0xD => entry(0x9D, Operation::STA, AddressingMode::AbsoluteXIndexed, 5),
        0xE => entry(0x9E, Operation::SHX, AddressingMode::AbsoluteYIndexed, 5),
        _ => entry(0x9F, Operation::AHX, AddressingMode::AbsoluteYIndexed, 5),
    }
}

/// Row `$Ax` of the matrix.
pub open spec fn spec_decode_ax(low: u8) -> Opcode {
    match low {
        0x0 => spec_entry(0xA0, Operation::LDY, AddressingMode::Immediate, 2),
        0x1 => spec_entry(0xA1, Operation::LDA, AddressingMode::IndirectXIndexed, 6),
        0x2 => spec_entry(0xA2, Operation::LDX, AddressingMode::Immediate, 2),
        0x3 => spec_entry(0xA3, Operation::LAX, AddressingMode::IndirectXIndexed, 6),
        0x4 => spec_entry(0xA4, Operation::LDY, AddressingMode::ZeroPage, 3),
        0x5 => spec_entry(0xA5, Operation::LDA, AddressingMode::ZeroPage, 3),
        0x6 => spec_entry(0xA6, Operation::LDX, AddressingMode::ZeroPage, 3),
        0x7 => spec_entry(0xA7, Operation::LAX, AddressingMode::ZeroPage, 3),
        0x8 => spec_entry(0xA8, Operation::TAY, AddressingMode::Implied, 2),
        0x9 => spec_entry(0xA9, Operation::LDA, AddressingMode::Immediate, 2),
        0xA => spec_entry(0xAA, Operation::TAX, AddressingMode::Implied, 2),
        0xB => spec_entry(0xAB, Operation::LAX, AddressingMode::Immediate, 2),
        0xC => spec_entry(0xAC, Operation::LDY, AddressingMode::Absolute, 4),
        0xD => spec_entry(0xAD, Operation::LDA, AddressingMode::Absolute, 4),
        0xE => spec_entry(0xAE, Operation::LDX, AddressingMode::Absolute, 4),
        _ => spec_entry(0xAF, Operation::LAX, AddressingMode::Absolute, 4),
    }
}

/// Row `$Ax` of the matrix.
pub fn decode_ax(low: u8) -> (result: Opcode)
    ensures
        result == spec_decode_ax(low),
{
    match low {
        0x0 => entry(0xA0, Operation::LDY, AddressingMode::Immediate, 2),
        0x1 => entry(0xA1, Operation::LDA, AddressingMode::IndirectXIndexed, 6),
        0x2 => entry(0xA2, Operation::LDX, AddressingMode::Immediate, 2),
        0x3 => entry(0xA3, Operation::LAX, AddressingMode::IndirectXIndexed, 6),
        0x4 => entry(0xA4, Operation::LDY, AddressingMode::ZeroPage, 3),
        0x5 => entry(0xA5, Operation::LDA, AddressingMode::ZeroPage, 3),
        0x6 => entry(0xA6, Operation::LDX, AddressingMode::ZeroPage, 3),
        0x7 => entry(0xA7, Operation::LAX, AddressingMode::ZeroPage, 3),
        0x8 => entry(0xA8, Operation::TAY, AddressingMode::Implied, 2),
        0x9 => entry(0xA9, Operation::LDA, AddressingMode::Immediate, 2),
        0xA => entry(0xAA, Operation::TAX, AddressingMode::Implied, 2),
        0xB => entry(0xAB, Operation::LAX, AddressingMode::Immediate, 2),
        0xC => entry(0xAC, Operation::LDY, AddressingMode::Absolute, 4),
        0xD => entry(0xAD, Operation::LDA, AddressingMode::Absolute, 4),
        0xE => entry(0xAE, Operation::LDX, AddressingMode::Absolute, 4),
        _ => entry(0xAF, Operation::LAX, AddressingMode::Absolute, 4),
    }
}

/// Row `$Bx` of the matrix.
pub open spec fn spec_decode_bx(low: u8) -> Opcode {
    match low {
        0x0 => spec_entry(0xB0, Operation::BCS, AddressingMode::Relative, 2),
        0x1 => spec_entry(0xB1, Operation::LDA, AddressingMode::IndirectYIndexed, 5),
        0x2 => spec_entry(0xB2, Operation::NOP, AddressingMode::Implied, 2),
        0x3 => spec_entry(0xB3, Operation::LAX, AddressingMode::IndirectYIndexed, 5),
        0x4 => spec_entry(0xB4, Operation::LDY, AddressingMode::ZeroPageXIndexed, 4),
        0x5 => spec_entry(0xB5, Operation::LDA, AddressingMode::ZeroPageXIndexed, 4),
        0x6 => spec_entry(0xB6, Operation::LDX, AddressingMode::ZeroPageYIndexed, 4),
        0x7 => spec_entry(0xB7, Operation::LAX, AddressingMode::ZeroPageYIndexed, 4),
        0x8 => spec_entry(0xB8, Operation::CLV, AddressingMode::Implied, 2),
        0x9 => spec_entry(0xB9, Operation::LDA, AddressingMode::AbsoluteYIndexed, 4),
        0xA => spec_entry(0xBA, Operation::TSX, AddressingMode::Implied, 2),
        0xB => spec_entry(0xBB, Operation::LAS, AddressingMode::AbsoluteYIndexed, 4),
        0xC => spec_entry(0xBC, Operation::LDY, AddressingMode::AbsoluteXIndexed, 4),
        0xD => spec_entry(0xBD, Operation::LDA, AddressingMode::AbsoluteXIndexed, 4),
        0xE => spec_entry(0xBE, Operation::LDX, AddressingMode::AbsoluteYIndexed, 4),
        _ => spec_entry(0xBF, Operation::LAX, AddressingMode::AbsoluteYIndexed, 4),
    }
}

/// Row `$Bx` of the matrix.
pub fn decode_bx(low: u8) -> (result: Opcode)
    ensures
        result == spec_decode_bx(low),
{
    match low {
        0x0 => entry(0xB0, Operation::BCS, AddressingMode::Relative, 2),
        0x1 => entry(0xB1, Operation::LDA, AddressingMode::IndirectYIndexed, 5),
        0x2 => entry(0xB2, Operation::NOP, AddressingMode::Implied, 2),
        0x3 => entry(0xB3, Operation::LAX, AddressingMode::IndirectYIndexed, 5),
        0x4 => entry(0xB4, Operation::LDY, AddressingMode::ZeroPageXIndexed, 4),
        0x5 => entry(0xB5, Operation::LDA, AddressingMode::ZeroPageXIndexed, 4),
        0x6 => entry(0xB6, Operation::LDX, AddressingMode::ZeroPageYIndexed, 4),
        0x7 => entry(0xB7, Operation::LAX, AddressingMode::ZeroPageYIndexed, 4),
        0x8 => entry(0xB8, Operation::CLV, AddressingMode::Implied, 2),
        0x9 => entry(0xB9, Operation::LDA, AddressingMode::AbsoluteYIndexed, 4),
        0xA => entry(0xBA, Operation::TSX, AddressingMode::Implied, 2),
        0xB => entry(0xBB, Operation::LAS, AddressingMode::AbsoluteYIndexed, 4),
        0xC => entry(0xBC, Operation::LDY, AddressingMode::AbsoluteXIndexed, 4),
        0xD => entry(0xBD, Operation::LDA, AddressingMode::AbsoluteXIndexed, 4),
        0xE => entry(0xBE, Operation::LDX, AddressingMode::AbsoluteYIndexed, 4),
        _ => entry(0xBF, Operation::LAX, AddressingMode::AbsoluteYIndexed, 4),
    }
}

/// Row `$Cx` of the matrix.
pub open spec fn spec_decode_cx(low: u8) -> Opcode {
    match low {
        0x0 => spec_entry(0xC0, Operation::CPY, AddressingMode::Immediate, 2),
        0x1 => spec_entry(0xC1, Operation::CMP, AddressingMode::IndirectXIndexed, 6),
        0x2 => spec_entry(0xC2, Operation::NOP, AddressingMode::Immediate, 2),
        0x3 => spec_entry(0xC3, Operation::DCP, AddressingMode::IndirectXIndexed, 8),
        0x4 => spec_entry(0xC4, Operation::CPY, AddressingMode::ZeroPage, 3),
        0x5 => spec_entry(0xC5, Operation::CMP, AddressingMode::ZeroPage, 3),
        0x6 => spec_entry(0xC6, Operation::DEC, AddressingMode::ZeroPage, 5),
        0x7 => spec_entry(0xC7, Operation::DCP, AddressingMode::ZeroPage, 5),
        0x8 => spec_entry(0xC8, Operation::INY, AddressingMode::Implied, 2),
        0x9 => spec_entry(0xC9, Operation::CMP, AddressingMode::Immediate, 2),
        0xA => spec_entry(0xCA, Operation::DEX, AddressingMode::Implied, 2),
        0xB => spec_entry(0xCB, Operation::AXS, AddressingMode::Immediate, 2),
        0xC => spec_entry(0xCC, Operation::CPY, AddressingMode::Absolute, 4),
        0xD => spec_entry(0xCD, Operation::CMP, AddressingMode::Absolute, 4),
        0xE => spec_entry(0xCE, Operation::DEC, AddressingMode::Absolute, 6),
        _ => spec_entry(0xCF, Operation::DCP, AddressingMode::Absolute, 6),
    }
}

/// Row `$Cx` of the matrix.
pub fn decode_cx(low: u8) -> (result: Opcode)
    ensures
        result == spec_decode_cx(low),
{
    match low {
        0x0 => entry(0xC0, Operation::CPY, AddressingMode::Immediate, 2),
        0x1 => entry(0xC1, Operation::CMP, AddressingMode::IndirectXIndexed, 6),
        0x2 => entry(0xC2, Operation::NOP, AddressingMode::Immediate, 2),
        0x3 => entry(0xC3, Operation::DCP, AddressingMode::IndirectXIndexed, 8),
        0x4 => entry(0xC4, Operation::CPY, AddressingMode::ZeroPage, 3),
        0x5 => entry(0xC5, Operation::CMP, AddressingMode::ZeroPage, 3),
        0x6 => entry(0xC6, Operation::DEC, AddressingMode::ZeroPage, 5),
        0x7 => entry(0xC7, Operation::DCP, AddressingMode::ZeroPage, 5),
        0x8 => entry(0xC8, Operation::INY, AddressingMode::Implied, 2),
        0x9 => entry(0xC9, Operation::CMP, AddressingMode::Immediate, 2),
        0xA => entry(0xCA, Operation::DEX, AddressingMode::Implied, 2),
        0xB => entry(0xCB, Operation::AXS, AddressingMode::Immediate, 2),
        0xC => entry(0xCC, Operation::CPY, AddressingMode::Absolute, 4),
        0xD => entry(0xCD, Operation::CMP, AddressingMode::Absolute, 4),
        0xE => entry(0xCE, Operation::DEC, AddressingMode::Absolute, 6),
        _ => entry(0xCF, Operation::DCP, AddressingMode::Absolute, 6),
    }
}

/// Row `$Dx` of the matrix.
pub open spec fn spec_decode_dx(low: u8) -> Opcode {
    match low {
        0x0 => spec_entry(0xD0, Operation::BNE, AddressingMode::Relative, 2),
        0x1 => spec_entry(0xD1, Operation::CMP, AddressingMode::IndirectYIndexed, 5),
        0x2 => spec_entry(0xD2, Operation::NOP, AddressingMode::Implied, 2),
        0x3 => spec_entry(0xD3, Operation::DCP, AddressingMode::IndirectYIndexed, 8),
        0x4 => spec_entry(0xD4, Operation::NOP, AddressingMode::ZeroPageXIndexed, 4),
        0x5 => spec_entry(0xD5, Operation::CMP, AddressingMode::ZeroPageXIndexed, 4),
        0x6 => spec_entry(0xD6, Operation::DEC, AddressingMode::ZeroPageXIndexed, 6),
        0x7 => spec_entry(0xD7, Operation::DCP, AddressingMode::ZeroPageXIndexed, 6),
        0x8 => spec_entry(0xD8, Operation::CLD, AddressingMode::Implied, 2),
        0x9 => spec_entry(0xD9, Operation::CMP, AddressingMode::AbsoluteYIndexed, 4),
        0xA => spec_entry(0xDA, Operation::NOP, AddressingMode::Implied, 2),
        0xB => spec_entry(0xDB, Operation::DCP, AddressingMode::AbsoluteYIndexed, 7),
        0xC => spec_entry(0xDC, Operation::NOP, AddressingMode::AbsoluteXIndexed, 4),
        0xD => spec_entry(0xDD, Operation::CMP, AddressingMode::AbsoluteXIndexed, 4),
        0xE => spec_entry(0xDE, Operation::DEC, AddressingMode::AbsoluteXIndexed, 7),
        _ => spec_entry(0xDF, Operation::DCP, AddressingMode::AbsoluteXIndexed, 7),
    }
}

/// Row `$Dx` of the matrix.
pub fn decode_dx(low: u8) -> (result: Opcode)
    ensures
        result == spec_decode_dx(low),
{
    match low {
        0x0 => entry(0xD0, Operation::BNE, AddressingMode::Relative, 2),
        0x1 => entry(0xD1, Operation::CMP, AddressingMode::IndirectYIndexed, 5),
        0x2 => entry(0xD2, Operation::NOP, AddressingMode::Implied, 2),
        0x3 => entry(0xD3, Operation::DCP, AddressingMode::IndirectYIndexed, 8),
        0x4 => entry(0xD4, Operation::NOP, AddressingMode::ZeroPageXIndexed, 4),
        0x5 => entry(0xD5, Operation::CMP, AddressingMode::ZeroPageXIndexed, 4),
        0x6 => entry(0xD6, Operation::DEC, AddressingMode::ZeroPageXIndexed, 6),
        0x7 => entry(0xD7, Operation::DCP, AddressingMode::ZeroPageXIndexed, 6),
        0x8 => entry(0xD8, Operation::CLD, AddressingMode::Implied, 2),
        0x9 => entry(0xD9, Operation::CMP, AddressingMode::AbsoluteYIndexed, 4),
        0xA => entry(0xDA, Operation::NOP, AddressingMode::Implied, 2),
        0xB => entry(0xDB, Operation::DCP, AddressingMode::AbsoluteYIndexed, 7),
        0xC => entry(0xDC, Operation::NOP, AddressingMode::AbsoluteXIndexed, 4),
        0xD => entry(0xDD, Operation::CMP, AddressingMode::AbsoluteXIndexed, 4),
        0xE => entry(0xDE, Operation::DEC, AddressingMode::AbsoluteXIndexed, 7),
        _ => entry(0xDF, Operation::DCP, AddressingMode::AbsoluteXIndexed, 7),
    }
}

/// Row `$Ex` of the matrix.
pub open spec fn spec_decode_ex(low: u8) -> Opcode {
    match low {
        0x0 => spec_entry(0xE0, Operation::CPX, AddressingMode::Immediate, 2),
        0x1 => spec_entry(0xE1, Operation::SBC, AddressingMode::IndirectXIndexed, 6),
        0x2 => spec_entry(0xE2, Operation::NOP, AddressingMode::Immediate, 2),
        0x3 => spec_entry(0xE3, Operation::ISC, AddressingMode::IndirectXIndexed, 8),
        0x4 => spec_entry(0xE4, Operation::CPX, AddressingMode::ZeroPage, 3),
        0x5 => spec_entry(0xE5, Operation::SBC, AddressingMode::ZeroPage, 3),
        0x6 => spec_entry(0xE6, Operation::INC, AddressingMode::ZeroPage, 5),
        0x7 => spec_entry(0xE7, Operation::ISC, AddressingMode::ZeroPage, 5),
        0x8 => spec_entry(0xE8, Operation::INX, AddressingMode::Implied, 2),
        0x9 => spec_entry(0xE9, Operation::SBC, AddressingMode::Immediate, 2),
        0xA => spec_entry(0xEA, Operation::NOP, AddressingMode::Implied, 2),
        0xB => spec_entry(0xEB, Operation::SBC, AddressingMode::Immediate, 2),
        0xC => spec_entry(0xEC, Operation::CPX, AddressingMode::Absolute, 4),
        0xD => spec_entry(0xED, Operation::SBC, AddressingMode::Absolute, 4),
        0xE => spec_entry(0xEE, Operation::INC, AddressingMode::Absolute, 6),
        _ => spec_entry(0xEF, Operation::ISC, AddressingMode::Absolute, 6),
    }
}

/// Row `$Ex` of the matrix.
pub fn decode_ex(low: u8) -> (result: Opcode)
    ensures
        result == spec_decode_ex(low),
{
    match low {
        0x0 => entry(0xE0, Operation::CPX, AddressingMode::Immediate, 2),
        0x1 => entry(0xE1, Operation::SBC, AddressingMode::IndirectXIndexed, 6),
        0x2 => entry(0xE2, Operation::NOP, AddressingMode::Immediate, 2),
        0x3 => entry(0xE3, Operation::ISC, AddressingMode::IndirectXIndexed, 8),
        0x4 => entry(0xE4, Operation::CPX, AddressingMode::ZeroPage, 3),
        0x5 => entry(0xE5, Operation::SBC, AddressingMode::ZeroPage, 3),
        0x6 => entry(0xE6, Operation::INC, AddressingMode::ZeroPage, 5),
        0x7 => entry(0xE7, Operation::ISC, AddressingMode::ZeroPage, 5),
        0x8 => entry(0xE8, Operation::INX, AddressingMode::Implied, 2),
        0x9 => entry(0xE9, Operation::SBC, AddressingMode::Immediate, 2),
        0xA => entry(0xEA, Operation::NOP, AddressingMode::Implied, 2),
        0xB => entry(0xEB, Operation::SBC, AddressingMode::Immediate, 2),
        0xC => entry(0xEC, Operation::CPX, AddressingMode::Absolute, 4),
        0xD => entry(0xED, Operation::SBC, AddressingMode::Absolute, 4),
        0xE => entry(0xEE, Operation::INC, AddressingMode::Absolute, 6),
        _ => entry(0xEF, Operation::ISC, AddressingMode::Absolute, 6),
    }
}

/// Row `$Fx` of the matrix.
pub open spec fn spec_decode_fx(low: u8) -> Opcode {
    match low {
        0x0 => spec_entry(0xF0, Operation::BEQ, AddressingMode::Relative, 2),
        0x1 => spec_entry(0xF1, Operation::SBC, AddressingMode::IndirectYIndexed, 5),
        0x2 => spec_entry(0xF2, Operation::NOP, AddressingMode::Implied, 2),
        0x3 => spec_entry(0xF3, Operation::ISC, AddressingMode::IndirectYIndexed, 8),
        0x4 => spec_entry(0xF4, Operation::NOP, AddressingMode::ZeroPageXIndexed, 4),
        0x5 => spec_entry(0xF5, Operation::SBC, AddressingMode::ZeroPageXIndexed, 4),
        0x6 => spec_entry(0xF6, Operation::INC, AddressingMode::ZeroPageXIndexed, 6),
        0x7 => spec_entry(0xF7, Operation::ISC, AddressingMode::ZeroPageXIndexed, 6),
        0x8 => spec_entry(0xF8, Operation::SED, AddressingMode::Implied, 2),
        0x9 => spec_entry(0xF9, Operation::SBC, AddressingMode::AbsoluteYIndexed, 4),
        0xA => spec_entry(0xFA, Operation::NOP, AddressingMode::Implied, 2),
        0xB => spec_entry(0xFB, Operation::ISC, AddressingMode::AbsoluteYIndexed, 7),
        0xC => spec_entry(0xFC, Operation::NOP, AddressingMode::AbsoluteXIndexed, 4),
        0xD => spec_entry(0xFD, Operation::SBC, AddressingMode::AbsoluteXIndexed, 4),
        0xE => spec_entry(0xFE, Operation::INC, AddressingMode::AbsoluteXIndexed, 7),
        _ => spec_entry(0xFF, Operation::ISC, AddressingMode::AbsoluteXIndexed, 7),
    }
}

/// Row `$Fx` of the matrix.
pub fn decode_fx(low: u8) -> (result: Opcode)
    ensures
        result == spec_decode_fx(low),
{
    match low {
        0x0 => entry(0xF0, Operation::BEQ, AddressingMode::Relative, 2),
        0x1 => entry(0xF1, Operation::SBC, AddressingMode::IndirectYIndexed, 5),
        0x2 => entry(0xF2, Operation::NOP, AddressingMode::Implied, 2),
        0x3 => entry(0xF3, Operation::ISC, AddressingMode::IndirectYIndexed, 8),
        0x4 => entry(0xF4, Operation::NOP, AddressingMode::ZeroPageXIndexed, 4),
        0x5 => entry(0xF5, Operation::SBC, AddressingMode::ZeroPageXIndexed, 4),
        0x6 => entry(0xF6, Operation::INC, AddressingMode::ZeroPageXIndexed, 6),
        0x7 => entry(0xF7, Operation::ISC, AddressingMode::ZeroPageXIndexed, 6),
        0x8 => entry(0xF8, Operation::SED, AddressingMode::Implied, 2),
        0x9 => entry(0xF9, Operation::SBC, AddressingMode::AbsoluteYIndexed, 4),
        0xA => entry(0xFA, Operation::NOP, AddressingMode::Implied, 2),
        0xB => entry(0xFB, Operation::ISC, AddressingMode::AbsoluteYIndexed, 7),
        0xC => entry(0xFC, Operation::NOP, AddressingMode::AbsoluteXIndexed, 4),
        0xD => entry(0xFD, Operation::SBC, AddressingMode::AbsoluteXIndexed, 4),
        0xE => entry(0xFE, Operation::INC, AddressingMode::AbsoluteXIndexed, 7),
        _ => entry(0xFF, Operation::ISC, AddressingMode::AbsoluteXIndexed, 7),
    }
}

/// The entry of the matrix for an opcode byte.
pub open spec fn spec_decode(code: u8) -> Opcode {
    match code / 16 {
        0x0 => spec_decode_0x(code % 16),
        0x1 => spec_decode_1x(code % 16),
        0x2 => spec_decode_2x(code % 16),
        0x3 => spec_decode_3x(code % 16),
        0x4 => spec_decode_4x(code % 16),
        0x5 => spec_decode_5x(code % 16),
        0x6 => spec_decode_6x(code % 16),
        0x7 => spec_decode_7x(code % 16),
        0x8 => spec_decode_8x(code % 16),
        0x9 => spec_decode_9x(code % 16),
        0xA => spec_decode_ax(code % 16),
        0xB => spec_decode_bx(code % 16),
        0xC => spec_decode_cx(code % 16),
        0xD => spec_decode_dx(code % 16),
        0xE => spec_decode_ex(code % 16),
        _ => spec_decode_fx(code % 16),
    }
}

/// The entry of the matrix for an opcode byte.
pub fn decode(code: u8) -> (result: Opcode)
    ensures
        result == spec_decode(code),
{
    match code / 16 {
        0x0 => decode_0x(code % 16),
        0x1 => decode_1x(code % 16),
        0x2 => decode_2x(code % 16),
        0x3 => decode_3x(code % 16),
        0x4 => decode_4x(code % 16),
        0x5 => decode_5x(code % 16),
        0x6 => decode_6x(code % 16),
        0x7 => decode_7x(code % 16),
        0x8 => decode_8x(code % 16),
        0x9 => decode_9x(code % 16),
        0xA => decode_ax(code % 16),
        0xB => decode_bx(code % 16),
        0xC => decode_cx(code % 16),
        0xD => decode_dx(code % 16),
        0xE => decode_ex(code % 16),
        _ => decode_fx(code % 16),
    }
}

/// Every entry records its own opcode byte.
pub proof fn lemma_decode_code(code: u8)
    ensures
        spec_decode(code).code == code,
{
}

} // verus!
