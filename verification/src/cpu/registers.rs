//! The register file of the processor.
use vstd::prelude::*;
use crate::cpu::status_flags::StatusFlags;

verus! {

/// The registers of the 6502.
#[derive(Clone, Copy, PartialEq, Eq, Structural, Debug)]
pub struct Registers {
    /// Accumulator.
    pub a: u8,
    /// Index register X.
    pub x: u8,
    /// Index register Y.
    pub y: u8,
    /// Stack pointer; the stack lives at `$0100 + S`.
    pub stack_pointer: u8,
    /// Program counter.
    pub program_counter: u16,
    /// Status register P.
    pub status_register: StatusFlags,
}

/// The address in page one that the stack pointer designates.
pub open spec fn spec_stack_address(stack_pointer: u8) -> u16 {
    (0x0100 + stack_pointer as u16) as u16
}

/// The address in page one that the stack pointer designates.
pub fn stack_address(stack_pointer: u8) -> (result: u16)
    ensures
        result == spec_stack_address(stack_pointer),
{
    (0x0100 + stack_pointer as u16) as u16
}

/// `value + 1` modulo 256.
pub open spec fn spec_inc8(value: u8) -> u8 {
    if value == 255 {
        0
    } else {
        (value + 1) as u8
    }
}

/// `value + 1` modulo 256.
pub fn inc8(value: u8) -> (result: u8)
    ensures
        result == spec_inc8(value),
{
    if value == 255 {
        0
    } else {
        (value + 1) as u8
    }
}

/// `value - 1` modulo 256.
pub open spec fn spec_dec8(value: u8) -> u8 {
    if value == 0 {
        255
    } else {
        (value - 1) as u8
    }
}

/// `value - 1` modulo 256.
pub fn dec8(value: u8) -> (result: u8)
    ensures
        result == spec_dec8(value),
{
    if value == 0 {
        255
    } else {
        (value - 1) as u8
    }
}

/// `value + 1` modulo 65536.
pub open spec fn spec_inc16(value: u16) -> u16 {
    if value == 0xFFFF {
        0
    } else {
        (value + 1) as u16
    }
}

/// `value + 1` modulo 65536.
pub fn inc16(value: u16) -> (result: u16)
    ensures
        result == spec_inc16(value),
{
    if value == 0xFFFF {
        0
    } else {
        (value + 1) as u16
    }
}

/// `value - 1` modulo 65536.
pub open spec fn spec_dec16(value: u16) -> u16 {
    if value == 0 {
        0xFFFF
    } else {
        (value - 1) as u16
    }
}

/// `value - 1` modulo 65536.
pub fn dec16(value: u16) -> (result: u16)
    ensures
        result == spec_dec16(value),
{
    if value == 0 {
        0xFFFF
    } else {
        (value - 1) as u16
    }
}

/// `a + b` modulo 256.
pub open spec fn spec_wrap8(a: u8, b: u8) -> u8 {
    ((a as u16 + b as u16) % 256) as u8
}

/// `a + b` modulo 256.
pub fn wrap8(a: u8, b: u8) -> (result: u8)
    ensures
        result == spec_wrap8(a, b),
{
    ((a as u16 + b as u16) % 256) as u8
}

/// The 16-bit word with the given low and high bytes.
pub open spec fn spec_word(low: u8, high: u8) -> u16 {
    (low as u16 + 256 * (high as u16)) as u16
}

/// The 16-bit word with the given low and high bytes.
pub fn word(low: u8, high: u8) -> (result: u16)
    ensures
        result == spec_word(low, high),
{
    (low as u16 + 256 * (high as u16)) as u16
}

/// The low byte of a word.
pub open spec fn spec_low_byte(value: u16) -> u8 {
    (value % 256) as u8
}

/// The low byte of a word.
pub fn low_byte(value: u16) -> (result: u8)
    ensures
        result == spec_low_byte(value),
{
    (value % 256) as u8
}

/// The high byte of a word.
pub open spec fn spec_high_byte(value: u16) -> u8 {
    (value / 256) as u8
}

/// The high byte of a word.
pub fn high_byte(value: u16) -> (result: u8)
    ensures
        result == spec_high_byte(value),
{
    (value / 256) as u8
}

/// `base + offset` modulo 65536.
pub open spec fn spec_offset16(base: u16, offset: u8) -> u16 {
    ((base as u32 + offset as u32) % 0x10000) as u16
}

/// `base + offset` modulo 65536.
pub fn offset16(base: u16, offset: u8) -> (result: u16)
    ensures
        result == spec_offset16(base, offset),
{
    ((base as u32 + offset as u32) % 0x10000) as u16
}

/// `base` displaced by `operand` read as a signed byte, modulo 65536.
pub open spec fn spec_branch_target(base: u16, operand: u8) -> u16 {
    if operand < 128 {
        ((base as u32 + operand as u32) % 0x10000) as u16
    } else {
        ((base as u32 + 0x10000 + operand as u32 - 256) % 0x10000) as u16
    }
}

/// `base` displaced by `operand` read as a signed byte, modulo 65536.
pub fn branch_target(base: u16, operand: u8) -> (result: u16)
    ensures
        result == spec_branch_target(base, operand),
{
    if operand < 128 {
        ((base as u32 + operand as u32) % 0x10000) as u16
    } else {
        ((base as u32 + 0x10000 + operand as u32 - 256) % 0x10000) as u16
    }
}

impl Registers {
    /// The registers at power-on, before the reset sequence has run:
    /// A = X = Y = 0, S = 0, P = `$34`.
    pub open spec fn spec_power_on() -> Registers {
        Registers {
            a: 0,
            x: 0,
            y: 0,
            stack_pointer: 0,
            program_counter: 0,
            status_register: StatusFlags::spec_power_on(),
        }
    }

    /// The registers at power-on.
    pub fn power_on() -> (registers: Registers)
        ensures
            registers == Self::spec_power_on(),
    {
        Registers {
            a: 0,
            x: 0,
            y: 0,
            stack_pointer: 0,
            program_counter: 0,
            status_register: StatusFlags::power_on(),
        }
    }
}

impl Default for Registers {
    fn default() -> (registers: Registers)
        ensures
            registers == Registers::spec_power_on(),
    {
        Registers::power_on()
    }
}

/// A word is its low byte plus 256 times its high byte.
pub proof fn lemma_word_bytes(value: u16)
    ensures
        spec_word(spec_low_byte(value), spec_high_byte(value)) == value,
{
}

/// The bytes of a composed word are the bytes that composed it.
pub proof fn lemma_bytes_word(low: u8, high: u8)
    ensures
        spec_low_byte(spec_word(low, high)) == low,
        spec_high_byte(spec_word(low, high)) == high,
{
}

} // verus!
