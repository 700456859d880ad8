//! Arithmetic and logic of the processor, as functions of the registers.
use vstd::prelude::*;
use crate::cpu::registers::{Registers, inc8, spec_inc8, dec8, spec_dec8, wrap8, spec_wrap8};
use crate::cpu::status_flags::{
    StatusFlags, flag_weight, spec_flag_weight, with_negative_zero, spec_with_negative_zero,
};
use crate::cpu::Cpu;

verus! {

/// A byte produced by an operation, with the registers it leaves.
#[derive(Clone, Copy, Debug)]
pub struct Computed {
    pub value: u8,
    pub registers: Registers,
}

/// A byte read as a two's-complement number.
pub open spec fn signed(value: u8) -> int {
    if value < 128 {
        value as int
    } else {
        value - 256
    }
}

impl Cpu {
    /// The zero and negative flags follow `operand`.
    pub open spec fn spec_set_negative_zero_flags(registers: Registers, operand: u8) -> Registers {
        Registers {
            status_register: spec_with_negative_zero(registers.status_register, operand),
            ..registers
        }
    }

    /// The zero and negative flags follow `operand`.
    pub fn set_negative_zero_flags(registers: Registers, operand: u8) -> (result: Registers)
        ensures
            result == Self::spec_set_negative_zero_flags(registers, operand),
    {
        Registers {
            status_register: with_negative_zero(registers.status_register, operand),
            ..registers
        }
    }

    /// Adds `operand` and the carry to the accumulator. Carry comes from the
    /// ninth bit of the sum, overflow from the signs of the operands and of
    /// the result; the decimal flag is ignored.
    pub open spec fn spec_adc(registers: Registers, operand: u8) -> Registers {
        let sum: u16 = (registers.a as u16 + operand as u16 + spec_flag_weight(
            registers.status_register.carry,
            1,
        ) as u16) as u16;
        let result: u8 = (sum % 256) as u8;
        let overflow: bool = ((registers.a >= 128) != (result >= 128)) && ((operand >= 128) != (
        result >= 128));
        Registers {
            a: result,
            status_register: StatusFlags {
                carry: sum > 255,
                overflow,
                zero: result == 0,
                negative: result >= 128,
                ..registers.status_register
            },
            ..registers
        }
    }

    /// Adds `operand` and the carry to the accumulator. Carry comes from the
    /// ninth bit of the sum, overflow from the signs of the operands and of
    /// the result; the decimal flag is ignored.
    pub fn adc(registers: Registers, operand: u8) -> (result: Registers)
        ensures
            result == Self::spec_adc(registers, operand),
    {
        let sum: u16 = (registers.a as u16 + operand as u16 + flag_weight(
            registers.status_register.carry,
            1,
        ) as u16) as u16;
        let result: u8 = (sum % 256) as u8;
        let overflow: bool = ((registers.a >= 128) != (result >= 128)) && ((operand >= 128) != (
        result >= 128));
        Registers {
            a: result,
            status_register: StatusFlags {
                carry: sum > 255,
                overflow,
                zero: result == 0,
                negative: result >= 128,
                ..registers.status_register
            },
            ..registers
        }
    }

    /// Subtracts `operand` and the borrow from the accumulator: an addition
    /// of the operand's complement.
    pub open spec fn spec_sbc(registers: Registers, operand: u8) -> Registers {
        Self::spec_adc(registers, (255 - operand) as u8)
    }

    /// Subtracts `operand` and the borrow from the accumulator: an addition
    /// of the operand's complement.
    pub fn sbc(registers: Registers, operand: u8) -> (result: Registers)
        ensures
            result == Self::spec_sbc(registers, operand),
    {
        Self::adc(registers, (255 - operand) as u8)
    }

    /// Compares `register` with `operand`: carry when `register >= operand`,
    /// zero and negative from their difference.
    pub open spec fn spec_compare(registers: Registers, operand: u8, register: u8) -> Registers {
        let result: u8 = ((register as u16 + 256 - operand as u16) % 256) as u8;
        Registers {
            status_register: StatusFlags {
                carry: register >= operand,
                zero: result == 0,
                negative: result >= 128,
                ..registers.status_register
            },
            ..registers
        }
    }

    /// Compares `register` with `operand`: carry when `register >= operand`,
    /// zero and negative from their difference.
    pub fn compare(registers: Registers, operand: u8, register: u8) -> (result: Registers)
        ensures
            result == Self::spec_compare(registers, operand, register),
    {
        let result: u8 = ((register as u16 + 256 - operand as u16) % 256) as u8;
        Registers {
            status_register: StatusFlags {
                carry: register >= operand,
                zero: result == 0,
                negative: result >= 128,
                ..registers.status_register
            },
            ..registers
        }
    }

    /// `value - 1` modulo 256, with the zero and negative flags.
    pub open spec fn spec_decrement(registers: Registers, value: u8) -> Computed {
        Computed {
            value: spec_dec8(value),
            registers: Self::spec_set_negative_zero_flags(registers, spec_dec8(value)),
        }
    }

    /// `value - 1` modulo 256, with the zero and negative flags.
    pub fn decrement(registers: Registers, value: u8) -> (result: Computed)
        ensures
            result == Self::spec_decrement(registers, value),
    {
        Computed {
            value: dec8(value),
            registers: Self::set_negative_zero_flags(registers, dec8(value)),
        }
    }

    /// `value + 1` modulo 256, with the zero and negative flags.
    pub open spec fn spec_increment(registers: Registers, value: u8) -> Computed {
        Computed {
            value: spec_inc8(value),
            registers: Self::spec_set_negative_zero_flags(registers, spec_inc8(value)),
        }
    }

    /// `value + 1` modulo 256, with the zero and negative flags.
    pub fn increment(registers: Registers, value: u8) -> (result: Computed)
        ensures
            result == Self::spec_increment(registers, value),
    {
        Computed {
            value: inc8(value),
            registers: Self::set_negative_zero_flags(registers, inc8(value)),
        }
    }

    /// The flags after a shift or rotate that produced `value` and shifted
    /// `carry` out.
    pub open spec fn spec_shifted(registers: Registers, value: u8, carry: bool) -> Computed {
        Computed {
            value,
            registers: Registers {
                status_register: StatusFlags {
                    carry,
                    zero: value == 0,
                    negative: value >= 128,
                    ..registers.status_register
                },
                ..registers
            },
        }
    }

    /// The flags after a shift or rotate that produced `value` and shifted
    /// `carry` out.
    pub fn shifted(registers: Registers, value: u8, carry: bool) -> (result: Computed)
        ensures
            result == Self::spec_shifted(registers, value, carry),
    {
        Computed {
            value,
            registers: Registers {
                status_register: StatusFlags {
                    carry,
                    zero: value == 0,
                    negative: value >= 128,
                    ..registers.status_register
                },
                ..registers
            },
        }
    }

    /// Shift left: bit 7 goes to carry.
    pub open spec fn spec_asl(registers: Registers, value: u8) -> Computed {
        Self::spec_shifted(registers, ((value as u16 * 2) % 256) as u8, value >= 128)
    }

    /// Shift left: bit 7 goes to carry.
    pub fn asl(registers: Registers, value: u8) -> (result: Computed)
        ensures
            result == Self::spec_asl(registers, value),
    {
        Self::shifted(registers, ((value as u16 * 2) % 256) as u8, value >= 128)
    }

    /// Shift right: bit 0 goes to carry.
    pub open spec fn spec_lsr(registers: Registers, value: u8) -> Computed {
        Self::spec_shifted(registers, value / 2, value % 2 == 1)
    }

    /// Shift right: bit 0 goes to carry.
    pub fn lsr(registers: Registers, value: u8) -> (result: Computed)
        ensures
            result == Self::spec_lsr(registers, value),
    {
        Self::shifted(registers, value / 2, value % 2 == 1)
    }

    /// Rotate left through carry.
    pub open spec fn spec_rol(registers: Registers, value: u8) -> Computed {
        Self::spec_shifted(
            registers,
            ((value as u16 * 2) % 256 + spec_flag_weight(registers.status_register.carry, 1) as u16) as u8,
            value >= 128,
        )
    }

    /// Rotate left through carry.
    pub fn rol(registers: Registers, value: u8) -> (result: Computed)
        ensures
            result == Self::spec_rol(registers, value),
    {
        Self::shifted(
            registers,
            ((value as u16 * 2) % 256 + flag_weight(registers.status_register.carry, 1) as u16) as u8,
            value >= 128,
        )
    }

    /// Rotate right through carry.
    pub open spec fn spec_ror(registers: Registers, value: u8) -> Computed {
        Self::spec_shifted(
            registers,
            (value / 2 + spec_flag_weight(registers.status_register.carry, 128)) as u8,
            value % 2 == 1,
        )
    }

    /// Rotate right through carry.
    pub fn ror(registers: Registers, value: u8) -> (result: Computed)
        ensures
            result == Self::spec_ror(registers, value),
    {
        Self::shifted(
            registers,
            (value / 2 + flag_weight(registers.status_register.carry, 128)) as u8,
            value % 2 == 1,
        )
    }

    /// The accumulator replaced by `value`, with the zero and negative flags.
    pub open spec fn spec_load_a(registers: Registers, value: u8) -> Registers {
        Self::spec_set_negative_zero_flags(Registers { a: value, ..registers }, value)
    }

    /// The accumulator replaced by `value`, with the zero and negative flags.
    pub fn load_a(registers: Registers, value: u8) -> (result: Registers)
        ensures
            result == Self::spec_load_a(registers, value),
    {
        Self::set_negative_zero_flags(Registers { a: value, ..registers }, value)
    }

    /// X replaced by `value`, with the zero and negative flags.
    pub open spec fn spec_load_x(registers: Registers, value: u8) -> Registers {
        Self::spec_set_negative_zero_flags(Registers { x: value, ..registers }, value)
    }

    /// X replaced by `value`, with the zero and negative flags.
    pub fn load_x(registers: Registers, value: u8) -> (result: Registers)
        ensures
            result == Self::spec_load_x(registers, value),
    {
        Self::set_negative_zero_flags(Registers { x: value, ..registers }, value)
    }

    /// Y replaced by `value`, with the zero and negative flags.
    pub open spec fn spec_load_y(registers: Registers, value: u8) -> Registers {
        Self::spec_set_negative_zero_flags(Registers { y: value, ..registers }, value)
    }

    /// Y replaced by `value`, with the zero and negative flags.
    pub fn load_y(registers: Registers, value: u8) -> (result: Registers)
        ensures
            result == Self::spec_load_y(registers, value),
    {
        Self::set_negative_zero_flags(Registers { y: value, ..registers }, value)
    }

    /// Tests the bits of `operand` against the accumulator: zero from their
    /// conjunction, negative and overflow from bits 7 and 6 of the operand.
    pub open spec fn spec_bit_test(registers: Registers, operand: u8) -> Registers {
        Registers {
            status_register: StatusFlags {
                zero: registers.a & operand == 0,
                negative: operand >= 128,
                overflow: (operand / 64) % 2 == 1,
                ..registers.status_register
            },
            ..registers
        }
    }

    /// Tests the bits of `operand` against the accumulator: zero from their
    /// conjunction, negative and overflow from bits 7 and 6 of the operand.
    pub fn bit_test(registers: Registers, operand: u8) -> (result: Registers)
        ensures
            result == Self::spec_bit_test(registers, operand),
    {
        Registers {
            status_register: StatusFlags {
                zero: registers.a & operand == 0,
                negative: operand >= 128,
                overflow: (operand / 64) % 2 == 1,
                ..registers.status_register
            },
            ..registers
        }
    }
}

/// The sum of an addition is the sum of accumulator, operand and carry
/// modulo 256; carry tells that the sum passed 255, and overflow that the sum
/// of the three, read as signed numbers, left the range of a signed byte.
pub proof fn lemma_adc_arithmetic(registers: Registers, operand: u8)
    ensures
        ({
            let carry_in: int = if registers.status_register.carry {
                1
            } else {
                0
            };
            let after = Cpu::spec_adc(registers, operand);
            &&& after.a == (registers.a + operand + carry_in) % 256
            &&& after.status_register.carry == (registers.a + operand + carry_in > 255)
            &&& after.status_register.overflow == !(-128 <= signed(registers.a) + signed(operand)
                + carry_in <= 127)
            &&& after.status_register.zero == (after.a == 0)
            &&& after.status_register.negative == (signed(after.a) < 0)
            &&& after.x == registers.x && after.y == registers.y
            &&& after.stack_pointer == registers.stack_pointer
            &&& after.program_counter == registers.program_counter
        }),
{
}

/// A subtraction leaves accumulator minus operand minus borrow modulo 256,
/// where the borrow is the complement of the carry; carry tells that no
/// borrow was needed.
pub proof fn lemma_sbc_arithmetic(registers: Registers, operand: u8)
    ensures
        ({
            let borrow: int = if registers.status_register.carry {
                0
            } else {
                1
            };
            let after = Cpu::spec_sbc(registers, operand);
            &&& after.a == (registers.a - operand - borrow) % 256
            &&& after.status_register.carry == (registers.a - operand - borrow >= 0)
            &&& after.status_register.overflow == !(-128 <= signed(registers.a) - signed(operand)
                - borrow <= 127)
        }),
{
}

/// A comparison orders the register against the operand.
pub proof fn lemma_compare_orders(registers: Registers, operand: u8, register: u8)
    ensures
        ({
            let after = Cpu::spec_compare(registers, operand, register);
            &&& after.status_register.carry == (register >= operand)
            &&& after.status_register.zero == (register == operand)
            &&& after.status_register.negative == ((register - operand) % 256 >= 128)
            &&& after.a == registers.a && after.x == registers.x && after.y == registers.y
        }),
{
}

/// Rotating left and then right through the carry gives the byte back.
pub proof fn lemma_rotate_round_trip(registers: Registers, value: u8)
    ensures
        ({
            let left = Cpu::spec_rol(registers, value);
            let back = Cpu::spec_ror(left.registers, left.value);
            &&& back.value == value
            &&& back.registers.status_register.carry == registers.status_register.carry
        }),
{
}

} // verus!
