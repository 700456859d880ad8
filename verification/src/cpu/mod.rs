//! The 6502 processor as a per-cycle state machine.
use vstd::prelude::*;
use crate::cpu::opcodes::{Opcode, Operation};
use crate::cpu::registers::Registers;
use crate::mmu::Mmu;

pub mod addressing;
pub mod alu;
pub mod execute;
pub mod machine;
pub mod opcodes;
pub mod registers;
pub mod status_flags;
pub mod step;
pub mod timing;

verus! {

/// The sources of an interrupt sequence.
#[derive(Clone, Copy, PartialEq, Eq, Structural, Debug)]
pub enum Interrupt {
    /// RESET; vector `$FFFC`.
    Reset,
    /// NMI, edge-triggered by the picture unit; vector `$FFFA`.
    NonMaskable,
    /// IRQ, level-triggered and masked by the interrupt-disable flag; vector `$FFFE`.
    Request,
    /// The BRK instruction; vector `$FFFE`.
    Break,
}

/// The micro-step that the processor performs in its next cycle.
#[derive(Clone, Copy, Debug)]
#[allow(inconsistent_fields)]
pub enum CpuState {
    /// Reads the opcode at the program counter, or starts an interrupt.
    FetchOpcode,
    /// Second cycle of the implied and accumulator modes: a read of the
    /// program counter whose value is discarded.
    ThrowawayRead { opcode: Opcode, operand: Option<u8> },
    /// The cycles in which an addressing mode gathers the operand's address
    /// and the operand.
    ReadingOperand {
        opcode: Opcode,
        address_low_byte: Option<u8>,
        address_high_byte: Option<u8>,
        pointer: Option<u8>,
        indirect_address_low_byte: Option<u8>,
        indirect_address_high_byte: Option<u8>,
        checked_page_boundary: bool,
    },
    /// The extra cycle of a taken branch whose target lies in another page.
    BranchCrossesPageBoundary { opcode: Opcode, operand: u8, address: u16 },
    /// Writes `value` to the stack.
    PushRegisterOnStack { value: u8 },
    /// The cycle before a pull: a read of the stack that is discarded.
    PreIncrementStackPointer { operation: Operation },
    /// Pulls the accumulator or the status register.
    PullRegisterFromStack { operation: Operation },
    /// Pulls the low byte of the program counter.
    PullPCLFromStack { operation: Operation },
    /// Pulls the high byte of the program counter.
    PullPCHFromStack { operation: Operation, pcl: u8 },
    /// Last cycle of RTS.
    IncrementProgramCounter,
    /// Pushes the high byte of the return address of a JSR to `address`.
    WritePCHToStack { address: u16 },
    /// Pushes the low byte of the return address.
    WritePCLToStack { address: u16 },
    /// Loads the program counter with `address`.
    SetProgramCounter { address: u16 },
    /// Writes a result to memory. While `dummy` holds the byte that was read,
    /// that byte is written back first and `value` in the cycle after.
    WritingResult { address: u16, value: u8, dummy: Option<u8> },
    /// Second cycle of an interrupt sequence: a discarded read.
    InterruptThrowawayRead { interrupt: Interrupt },
    /// Pushes the high byte of the program counter for an interrupt.
    PushPCHForInterrupt { interrupt: Interrupt },
    /// Pushes the low byte of the program counter for an interrupt.
    PushPCLForInterrupt { interrupt: Interrupt },
    /// Pushes the status register and chooses the vector.
    PushStatusForInterrupt { interrupt: Interrupt },
    /// Reads the low byte of the vector.
    ReadVectorLow { vector: u16 },
    /// Reads the high byte of the vector and jumps.
    ReadVectorHigh { vector: u16, low: u8 },
}

/// What the processor does on the bus in one cycle.
#[derive(Clone, Copy, PartialEq, Eq, Structural, Debug)]
pub enum BusOperation {
    /// No access: the cycle is internal to the processor.
    Idle,
    /// A read, dummy reads included.
    Read { address: u16 },
    /// A write.
    Write { address: u16, value: u8 },
}

/// The registers and the micro-step that a cycle leaves.
#[derive(Clone, Copy, Debug)]
pub struct Transition {
    pub registers: Registers,
    pub state: CpuState,
}

/// The processor without its bus: registers, pipeline state and interrupt inputs.
#[derive(Clone, Copy, Debug)]
pub struct Core {
    pub state: CpuState,
    pub registers: Registers,
    /// A reset was requested and has not begun.
    pub reset_pending: bool,
    /// The picture unit raised an NMI edge that has not been served.
    pub nmi_pending: bool,
    /// The level of the IRQ input.
    pub irq_line: bool,
}

/// The processor on its bus.
pub struct Cpu {
    pub core: Core,
    pub mmu: Mmu,
    /// Cycles run since power-on, modulo `2^32`.
    pub cycles: u32,
}

} // verus!
