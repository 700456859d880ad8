//! The registers of the audio unit. The unit makes no sound here: its
//! registers keep what was written to them.
use vstd::prelude::*;

verus! {

/// Number of addresses from `$4000` that belong to the audio unit.
pub const APU_REGISTERS: usize = 0x18;

/// The audio unit.
#[derive(Clone, Copy, Debug)]
pub struct Apu {
    /// The byte last written to each of `$4000-$4017`.
    pub registers: [u8; 24],
}

impl Apu {
    /// An audio unit with every register clear.
    pub fn new() -> (apu: Apu)
        ensures
            forall|i: int| 0 <= i < APU_REGISTERS ==> apu.registers[i] == 0,
    {
        Apu { registers: [0; 24] }
    }

    /// The byte that a read of the status register `$4015` returns: no
    /// channel is active and no interrupt is pending.
    pub fn read_status(&self) -> (value: u8)
        ensures
            value == 0,
    {
        0
    }

    /// Writes `value` to the register at `address`.
    pub fn write_byte(&mut self, address: u16, value: u8)
        requires
            0x4000 <= address < 0x4018,
        ensures
            final(self).registers@ == old(self).registers@.update(address - 0x4000, value),
    {
        self.registers[(address - 0x4000) as usize] = value;
    }
}

} // verus!
