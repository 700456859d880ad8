//! The processor status register P.
use vstd::prelude::*;

verus! {

/// The flags of the status register. Bit 5 has no storage and always reads as 1.
#[derive(Clone, Copy, PartialEq, Eq, Structural, Debug)]
pub struct StatusFlags {
    /// Bit 0.
    pub carry: bool,
    /// Bit 1.
    pub zero: bool,
    /// Bit 2.
    pub interrupt_disable: bool,
    /// Bit 3; stored, but arithmetic ignores it.
    pub decimal: bool,
    /// Bit 4; set at power-on and cleared by every pull from the stack.
    pub break_command: bool,
    /// Bit 6.
    pub overflow: bool,
    /// Bit 7.
    pub negative: bool,
}

/// `weight` when the flag is set, else 0.
pub open spec fn spec_flag_weight(flag: bool, weight: u8) -> u8 {
    if flag {
        weight
    } else {
        0
    }
}

/// `weight` when the flag is set, else 0.
pub fn flag_weight(flag: bool, weight: u8) -> (result: u8)
    ensures
        result == spec_flag_weight(flag, weight),
{
    if flag {
        weight
    } else {
        0
    }
}

/// The byte that the flags read as: bit 5 is always 1.
pub open spec fn spec_status_bits(flags: StatusFlags) -> u8 {
    (spec_flag_weight(flags.carry, 1) + spec_flag_weight(flags.zero, 2) + spec_flag_weight(
        flags.interrupt_disable,
        4,
    ) + spec_flag_weight(flags.decimal, 8) + spec_flag_weight(flags.break_command, 16) + 32 + spec_flag_weight(
        flags.overflow,
        64,
    ) + spec_flag_weight(flags.negative, 128)) as u8
}

/// The byte that the flags read as: bit 5 is always 1.
pub fn status_bits(flags: StatusFlags) -> (result: u8)
    ensures
        result == spec_status_bits(flags),
{
    (flag_weight(flags.carry, 1) + flag_weight(flags.zero, 2) + flag_weight(
        flags.interrupt_disable,
        4,
    ) + flag_weight(flags.decimal, 8) + flag_weight(flags.break_command, 16) + 32 + flag_weight(
        flags.overflow,
        64,
    ) + flag_weight(flags.negative, 128)) as u8
}

/// The flags that a byte pulled from the stack sets: bits 4 and 5 are dropped.
pub open spec fn spec_status_from_bits(bits: u8) -> StatusFlags {
    StatusFlags {
        carry: bits % 2 == 1,
        zero: (bits / 2) % 2 == 1,
        interrupt_disable: (bits / 4) % 2 == 1,
        decimal: (bits / 8) % 2 == 1,
        break_command: false,
        overflow: (bits / 64) % 2 == 1,
        negative: bits / 128 == 1,
    }
}

/// The flags that a byte pulled from the stack sets: bits 4 and 5 are dropped.
pub fn status_from_bits(bits: u8) -> (result: StatusFlags)
    ensures
        result == spec_status_from_bits(bits),
{
    StatusFlags {
        carry: bits % 2 == 1,
        zero: (bits / 2) % 2 == 1,
        interrupt_disable: (bits / 4) % 2 == 1,
        decimal: (bits / 8) % 2 == 1,
        break_command: false,
        overflow: (bits / 64) % 2 == 1,
        negative: bits / 128 == 1,
    }
}

/// The zero and negative flags follow `value`; the others stay.
pub open spec fn spec_with_negative_zero(flags: StatusFlags, value: u8) -> StatusFlags {
    StatusFlags { zero: value == 0, negative: value >= 128, ..flags }
}

/// The zero and negative flags follow `value`; the others stay.
pub fn with_negative_zero(flags: StatusFlags, value: u8) -> (result: StatusFlags)
    ensures
        result == spec_with_negative_zero(flags, value),
{
    StatusFlags { zero: value == 0, negative: value >= 128, ..flags }
}

impl StatusFlags {
    /// The status register at power-on: `$34`.
    pub fn power_on() -> (flags: StatusFlags)
        ensures
            flags == Self::spec_power_on(),
            spec_status_bits(flags) == 0x34,
    {
        StatusFlags {
            carry: false,
            zero: false,
            interrupt_disable: true,
            decimal: false,
            break_command: true,
            overflow: false,
            negative: false,
        }
    }

    /// Model of [`Self::power_on`].
    pub open spec fn spec_power_on() -> StatusFlags {
        StatusFlags {
            carry: false,
            zero: false,
            interrupt_disable: true,
            decimal: false,
            break_command: true,
            overflow: false,
            negative: false,
        }
    }

    /// The register as a byte.
    pub fn bits(&self) -> (bits: u8)
        ensures
            bits == spec_status_bits(*self),
    {
        status_bits(*self)
    }

    /// The flags held in the bits of a byte, bits 4 and 5 dropped.
    pub fn from_bits_truncate(bits: u8) -> (flags: StatusFlags)
        ensures
            flags == spec_status_from_bits(bits),
    {
        status_from_bits(bits)
    }
}

/// Bit 5 of the register reads as 1, whatever the flags.
pub proof fn lemma_bit_five_reads_one(flags: StatusFlags)
    ensures
        (spec_status_bits(flags) / 32) % 2 == 1,
{
}

/// Each flag sits at its own bit of the byte.
pub proof fn lemma_status_bits_layout(flags: StatusFlags)
    ensures
        flags.carry == (spec_status_bits(flags) % 2 == 1),
        flags.zero == ((spec_status_bits(flags) / 2) % 2 == 1),
        flags.interrupt_disable == ((spec_status_bits(flags) / 4) % 2 == 1),
        flags.decimal == ((spec_status_bits(flags) / 8) % 2 == 1),
        flags.break_command == ((spec_status_bits(flags) / 16) % 2 == 1),
        flags.overflow == ((spec_status_bits(flags) / 64) % 2 == 1),
        flags.negative == (spec_status_bits(flags) / 128 == 1),
{
}

/// Pushing the flags and pulling them back keeps every flag but the break flag.
pub proof fn lemma_status_round_trip(flags: StatusFlags)
    ensures
        spec_status_from_bits(spec_status_bits(flags)) == (StatusFlags {
            break_command: false,
            ..flags
        }),
{
    lemma_status_bits_layout(flags);
}

} // verus!
