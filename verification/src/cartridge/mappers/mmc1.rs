//! MMC1 (mapper 1): registers loaded one bit per write through a five-bit
//! shift register.
use vstd::prelude::*;
use crate::cartridge::mirroring::{MirroringMode, nametable_offset};
use crate::cartridge::{CartridgeHeader, CpuCartridgeAddressBus, PpuCartridgeAddressBus};
use crate::cartridge::mappers::{
    zeroed, zeroes, image_matches, initial_chr, CHR_BANK_SIZE, PRG_BANK_SIZE, PRG_RAM_SIZE,
    VRAM_SIZE, prg_ram_byte, prg_ram_after_write,
};

verus! {

/// Size of a 4 KiB character bank.
pub const CHR_HALF_SIZE: usize = 0x1000;

/// The serial port: the bits shifted in so far, their number, and the cycle
/// of the last write.
#[derive(Clone, Copy, Debug)]
pub struct ShiftRegister {
    /// The bits received, the first in bit 0; below `2^count`.
    pub value: u8,
    /// How many bits were received since the last commit or reset, 0 to 4.
    pub count: u8,
    pub last_write_cycle: Option<u32>,
}

/// What a write to the serial port did.
#[derive(Clone, Copy, PartialEq, Eq, Structural, Debug)]
pub enum SerialOutcome {
    /// The write came in the cycle after another and did nothing.
    Ignored,
    /// Bit 7 was set: the shift register was cleared.
    Reset,
    /// One more bit was shifted in.
    Shifted,
    /// The fifth bit arrived: `value` goes to the register that bits 14 and
    /// 13 of the address select.
    Commit { register: u8, value: u8 },
}

/// The shift register after a write, and what the write did.
#[derive(Clone, Copy, Debug)]
pub struct SerialStep {
    pub latch: ShiftRegister,
    pub outcome: SerialOutcome,
}

/// The weight of the bit that arrives after `count` others.
pub open spec fn spec_bit_weight(count: u8) -> u8 {
    match count {
        0 => 1,
        1 => 2,
        2 => 4,
        3 => 8,
        _ => 16,
    }
}

/// The weight of the bit that arrives after `count` others.
pub fn bit_weight(count: u8) -> (result: u8)
    ensures
        result == spec_bit_weight(count),
{
    match count {
        0 => 1,
        1 => 2,
        2 => 4,
        3 => 8,
        _ => 16,
    }
}

/// The cycle after `cycle`, modulo `2^32`.
pub open spec fn spec_cycle_after(cycle: u32) -> u32 {
    if cycle == 0xFFFF_FFFF {
        0
    } else {
        (cycle + 1) as u32
    }
}

/// The cycle after `cycle`, modulo `2^32`.
pub fn cycle_after(cycle: u32) -> (result: u32)
    ensures
        result == spec_cycle_after(cycle),
{
    if cycle == 0xFFFF_FFFF {
        0
    } else {
        (cycle + 1) as u32
    }
}

/// Whether a write in `cycles` comes directly after the last write.
pub open spec fn spec_follows_last_write(latch: ShiftRegister, cycles: u32) -> bool {
    match latch.last_write_cycle {
        Some(last) => cycles == spec_cycle_after(last),
        None => false,
    }
}

/// Whether a write in `cycles` comes directly after the last write.
pub fn follows_last_write(latch: ShiftRegister, cycles: u32) -> (result: bool)
    ensures
        result == spec_follows_last_write(latch, cycles),
{
    match latch.last_write_cycle {
        Some(last) => cycles == cycle_after(last),
        None => false,
    }
}

/// An empty shift register that remembers the cycle of the last write.
pub open spec fn spec_cleared(last_write_cycle: Option<u32>) -> ShiftRegister {
    ShiftRegister { value: 0, count: 0, last_write_cycle }
}

/// An empty shift register that remembers the cycle of the last write.
pub fn cleared(last_write_cycle: Option<u32>) -> (result: ShiftRegister)
    ensures
        result == spec_cleared(last_write_cycle),
{
    ShiftRegister { value: 0, count: 0, last_write_cycle }
}

/// A write of `value` to `address`, from `$8000` up, in cycle `cycles`. A
/// write in the cycle after another is ignored. A value with bit 7 set
/// clears the shift register. Any other value shifts its bit 0 in, least
/// significant bit first, and the fifth such write commits the five bits.
pub open spec fn spec_serial_write(
    latch: ShiftRegister,
    address: u16,
    value: u8,
    cycles: u32,
) -> SerialStep {
    if spec_follows_last_write(latch, cycles) {
        SerialStep {
            latch: ShiftRegister { last_write_cycle: Some(cycles), ..latch },
            outcome: SerialOutcome::Ignored,
        }
    } else if value >= 128 {
        SerialStep { latch: spec_cleared(Some(cycles)), outcome: SerialOutcome::Reset }
    } else if latch.count >= 4 {
        SerialStep {
            latch: spec_cleared(Some(cycles)),
            outcome: SerialOutcome::Commit {
                register: ((address / 0x2000) % 4) as u8,
                value: (latch.value % 16 + (if value % 2 == 1 {
                    16u8
                } else {
                    0u8
                })) as u8,
            },
        }
    } else {
        SerialStep {
            latch: ShiftRegister {
                value: (latch.value % spec_bit_weight(latch.count) + (if value % 2 == 1 {
                    spec_bit_weight(latch.count)
                } else {
                    0u8
                })) as u8,
                count: (latch.count + 1) as u8,
                last_write_cycle: Some(cycles),
            },
            outcome: SerialOutcome::Shifted,
        }
    }
}

/// A write of `value` to `address`, from `$8000` up, in cycle `cycles`. A
/// write in the cycle after another is ignored. A value with bit 7 set
/// clears the shift register. Any other value shifts its bit 0 in, least
/// significant bit first, and the fifth such write commits the five bits.
pub fn serial_write(
    latch: ShiftRegister,
    address: u16,
    value: u8,
    cycles: u32,
) -> (result: SerialStep)
    ensures
        result == spec_serial_write(latch, address, value, cycles),
{
    if follows_last_write(latch, cycles) {
        SerialStep {
            latch: ShiftRegister { last_write_cycle: Some(cycles), ..latch },
            outcome: SerialOutcome::Ignored,
        }
    } else if value >= 128 {
        SerialStep { latch: cleared(Some(cycles)), outcome: SerialOutcome::Reset }
    } else if latch.count >= 4 {
        SerialStep {
            latch: cleared(Some(cycles)),
            outcome: SerialOutcome::Commit {
                register: ((address / 0x2000) % 4) as u8,
                value: (latch.value % 16 + (if value % 2 == 1 {
                    16u8
                } else {
                    0u8
                })) as u8,
            },
        }
    } else {
        SerialStep {
            latch: ShiftRegister {
                value: (latch.value % bit_weight(latch.count) + (if value % 2 == 1 {
                    bit_weight(latch.count)
                } else {
                    0u8
                })) as u8,
                count: (latch.count + 1) as u8,
                last_write_cycle: Some(cycles),
            },
            outcome: SerialOutcome::Shifted,
        }
    }
}

/// The registers of MMC1 that shape the program space.
#[derive(Clone, Copy, Debug)]
pub struct PrgControl {
    pub latch: ShiftRegister,
    /// 0 and 1: one 32 KiB bank; 2: first bank fixed at `$8000`, `$C000`
    /// switched; 3: last bank fixed at `$C000`, `$8000` switched.
    pub prg_mode: u8,
    /// The program bank register, 0 to 15.
    pub prg_bank: u8,
}

/// The program registers after a write of `value` to `address` in cycle
/// `cycles`. A reset forces mode 3; a commit to register 0 sets the mode
/// from bits 2 and 3, a commit to register 3 sets the bank from bits 0 to 3.
pub open spec fn spec_prg_control_after(
    control: PrgControl,
    address: u16,
    value: u8,
    cycles: u32,
) -> PrgControl {
    if address < 0x8000 {
        control
    } else {
        match spec_serial_write(control.latch, address, value, cycles).outcome {
            SerialOutcome::Reset => PrgControl {
                latch: spec_serial_write(control.latch, address, value, cycles).latch,
                prg_mode: 3,
                ..control
            },
            SerialOutcome::Commit { register, value: committed } => if register == 0 {
                PrgControl {
                    latch: spec_serial_write(control.latch, address, value, cycles).latch,
                    prg_mode: (committed / 4) % 4,
                    ..control
                }
            } else if register == 3 {
                PrgControl {
                    latch: spec_serial_write(control.latch, address, value, cycles).latch,
                    prg_bank: committed % 16,
                    ..control
                }
            } else {
                PrgControl {
                    latch: spec_serial_write(control.latch, address, value, cycles).latch,
                    ..control
                }
            },
            _ => PrgControl {
                latch: spec_serial_write(control.latch, address, value, cycles).latch,
                ..control
            },
        }
    }
}

/// The program registers after a write of `value` to `address` in cycle
/// `cycles`. A reset forces mode 3; a commit to register 0 sets the mode
/// from bits 2 and 3, a commit to register 3 sets the bank from bits 0 to 3.
pub fn prg_control_after(
    control: PrgControl,
    address: u16,
    value: u8,
    cycles: u32,
) -> (result: PrgControl)
    ensures
        result == spec_prg_control_after(control, address, value, cycles),
{
    if address < 0x8000 {
        control
    } else {
        match serial_write(control.latch, address, value, cycles).outcome {
            SerialOutcome::Reset => PrgControl {
                latch: serial_write(control.latch, address, value, cycles).latch,
                prg_mode: 3,
                ..control
            },
            SerialOutcome::Commit { register, value: committed } => if register == 0 {
                PrgControl {
                    latch: serial_write(control.latch, address, value, cycles).latch,
                    prg_mode: (committed / 4) % 4,
                    ..control
                }
            } else if register == 3 {
                PrgControl {
                    latch: serial_write(control.latch, address, value, cycles).latch,
                    prg_bank: committed % 16,
                    ..control
                }
            } else {
                PrgControl {
                    latch: serial_write(control.latch, address, value, cycles).latch,
                    ..control
                }
            },
            _ => PrgControl {
                latch: serial_write(control.latch, address, value, cycles).latch,
                ..control
            },
        }
    }
}

/// The banks that the two program windows show. Every bank is taken modulo
/// the number of banks.
pub open spec fn spec_prg_window_banks(control: PrgControl, total: u8) -> [u8; 2]
    recommends
        total > 0,
{
    if control.prg_mode == 2 {
        [0, control.prg_bank % total]
    } else if control.prg_mode == 3 {
        [control.prg_bank % total, (total - 1) as u8]
    } else {
        [
            (((control.prg_bank / 2) * 2) as u8 % total) as u8,
            (((control.prg_bank / 2) * 2 + 1) as u8 % total) as u8,
        ]
    }
}

/// The banks that the two program windows show. Every bank is taken modulo
/// the number of banks.
pub fn prg_window_banks(control: PrgControl, total: u8) -> (result: [u8; 2])
    requires
        total > 0,
    ensures
        result == spec_prg_window_banks(control, total),
{
    if control.prg_mode == 2 {
        [0, control.prg_bank % total]
    } else if control.prg_mode == 3 {
        [control.prg_bank % total, (total - 1) as u8]
    } else {
        [
            (((control.prg_bank / 2) * 2) as u8 % total) as u8,
            (((control.prg_bank / 2) * 2 + 1) as u8 % total) as u8,
        ]
    }
}

/// The program chip of an MMC1 cartridge.
pub struct MMC1PrgChip {
    pub prg_rom: Vec<u8>,
    /// Empty, or the 8 KiB at `$6000-$7FFF`.
    pub prg_ram: Vec<u8>,
    /// Number of 16 KiB banks.
    pub total_banks: u8,
    pub control: PrgControl,
}

impl MMC1PrgChip {
    /// The ROM holds every bank.
    pub open spec fn wf(&self) -> bool {
        &&& self.total_banks > 0
        &&& self.prg_rom@.len() == self.total_banks * PRG_BANK_SIZE
        &&& self.prg_ram@.len() == 0 || self.prg_ram@.len() == PRG_RAM_SIZE
        &&& self.control.prg_bank < 16
    }

    /// The offset in ROM that an address in `$8000-$FFFF` reads.
    pub open spec fn rom_offset(&self, address: u16) -> int {
        spec_prg_window_banks(self.control, self.total_banks)[(address - 0x8000) / 0x4000]
            * PRG_BANK_SIZE + (address - 0x8000) % 0x4000
    }

    /// The byte that a read of `address` returns.
    pub open spec fn spec_read_byte(&self, address: u16) -> u8 {
        if address >= 0x8000 {
            self.prg_rom@[self.rom_offset(address)]
        } else if address >= 0x6000 {
            prg_ram_byte(self.prg_ram@, address)
        } else {
            0
        }
    }

    /// A chip over `prg_rom` as it is at power-on: the shift register empty,
    /// the last bank fixed at `$C000` and bank 0 at `$8000`.
    pub fn new(prg_rom: Vec<u8>, total_banks: u8, prg_ram: Option<Vec<u8>>) -> (chip: MMC1PrgChip)
        requires
            total_banks > 0,
            prg_rom@.len() == total_banks * PRG_BANK_SIZE,
            prg_ram is Some ==> prg_ram->0@.len() == PRG_RAM_SIZE,
        ensures
            chip.wf(),
            chip.prg_rom@ == prg_rom@,
            chip.total_banks == total_banks,
            chip.prg_ram@ == (match prg_ram {
                Some(ram) => ram@,
                None => Seq::<u8>::empty(),
            }),
            chip.control.prg_mode == 3,
            chip.control.prg_bank == 0,
            chip.control.latch.count == 0,
            chip.control.latch.value == 0,
            chip.control.latch.last_write_cycle is None,
    {
        let ram = match prg_ram {
            Some(ram) => ram,
            None => Vec::new(),
        };
        MMC1PrgChip {
            prg_rom,
            prg_ram: ram,
            total_banks,
            control: PrgControl { latch: cleared(None), prg_mode: 3, prg_bank: 0 },
        }
    }

    /// Reads through the CPU bus: program RAM at `$6000-$7FFF`, the two
    /// banked windows from `$8000`, and 0 below.
    pub fn read_byte(&self, address: u16) -> (value: u8)
        requires
            self.wf(),
        ensures
            value == self.spec_read_byte(address),
            address >= 0x8000 ==> 0 <= self.rom_offset(address) < self.prg_rom@.len(),
    {
        if address >= 0x8000 {
            let banks = prg_window_banks(self.control, self.total_banks);
            let window = ((address - 0x8000) / 0x4000) as usize;
            proof {
                lemma_mmc1_prg_offset_in_range(*self, address);
            }
            self.prg_rom[banks[window] as usize * PRG_BANK_SIZE + ((address - 0x8000)
                % 0x4000) as usize]
        } else if address >= 0x6000 && self.prg_ram.len() == PRG_RAM_SIZE {
            self.prg_ram[(address - 0x6000) as usize]
        } else {
            0
        }
    }

    /// Whether `post` is this chip after a write through the CPU bus of `value` to
    /// `address` in cycle `cycles`.
    pub open spec fn wrote(self, post: Self, address: u16, value: u8, cycles: u32) -> bool {
        &&& post.wf()
        &&& post.prg_rom@ == self.prg_rom@
        &&& post.total_banks == self.total_banks
        &&& post.prg_ram@ == (if 0x6000 <= address < 0x8000 {
            prg_ram_after_write(self.prg_ram@, address, value)
        } else {
            self.prg_ram@
        })
        &&& post.control == spec_prg_control_after(self.control, address, value, cycles)
    }

    /// Writes through the CPU bus: program RAM takes the byte at
    /// `$6000-$7FFF`; from `$8000` the write goes to the serial port.
    pub fn write_byte(&mut self, address: u16, value: u8, cycles: u32)
        requires
            old(self).wf(),
        ensures
            old(self).wrote(*final(self), address, value, cycles),
    {
        if address >= 0x8000 {
            self.control = prg_control_after(self.control, address, value, cycles);
        } else if address >= 0x6000 && self.prg_ram.len() == PRG_RAM_SIZE {
            self.prg_ram[(address - 0x6000) as usize] = value;
        }
    }
}

/// Every read from `$8000` up lands inside the ROM, whatever was written
/// to the serial port.
pub proof fn lemma_mmc1_prg_offset_in_range(chip: MMC1PrgChip, address: u16)
    requires
        chip.wf(),
        address >= 0x8000,
    ensures
        0 <= chip.rom_offset(address) < chip.prg_rom@.len(),
{
    let banks = spec_prg_window_banks(chip.control, chip.total_banks);
    assert(banks[0] < chip.total_banks && banks[1] < chip.total_banks);
    let window = (address - 0x8000) / 0x4000;
    assert(window == 0 || window == 1);
    assert(banks[window] * PRG_BANK_SIZE + PRG_BANK_SIZE <= chip.total_banks * PRG_BANK_SIZE);
}

/// The first write with bit 7 clear after a reset starts a new value: five
/// such writes, none directly after another, commit the five bits written,
/// the first in bit 0.
pub proof fn lemma_five_writes_commit(
    latch: ShiftRegister,
    address: u16,
    bits: Seq<u8>,
    cycles: Seq<u32>,
)
    requires
        latch.count == 0,
        address >= 0x8000,
        bits.len() == 5,
        cycles.len() == 5,
        forall|i: int| 0 <= i < 5 ==> bits[i] < 128,
        !spec_follows_last_write(latch, cycles[0]),
        forall|i: int| 0 <= i < 4 ==> cycles[i + 1] != spec_cycle_after(#[trigger] cycles[i]),
    ensures
        ({
            let s1 = spec_serial_write(latch, address, bits[0], cycles[0]);
            let s2 = spec_serial_write(s1.latch, address, bits[1], cycles[1]);
            let s3 = spec_serial_write(s2.latch, address, bits[2], cycles[2]);
            let s4 = spec_serial_write(s3.latch, address, bits[3], cycles[3]);
            let s5 = spec_serial_write(s4.latch, address, bits[4], cycles[4]);
            &&& s1.outcome == SerialOutcome::Shifted
            &&& s4.outcome == SerialOutcome::Shifted
            &&& s5.outcome == (SerialOutcome::Commit {
                register: ((address / 0x2000) % 4) as u8,
                value: (bits[0] % 2 + 2 * (bits[1] % 2) + 4 * (bits[2] % 2) + 8 * (bits[3] % 2) + 16
                    * (bits[4] % 2)) as u8,
            })
            &&& s5.latch.count == 0
            &&& s5.latch.value == 0
        }),
{
    assert(cycles[1] != spec_cycle_after(cycles[0]));
    assert(cycles[2] != spec_cycle_after(cycles[1]));
    assert(cycles[3] != spec_cycle_after(cycles[2]));
    assert(cycles[4] != spec_cycle_after(cycles[3]));
    let s1 = spec_serial_write(latch, address, bits[0], cycles[0]);
    let s2 = spec_serial_write(s1.latch, address, bits[1], cycles[1]);
    let s3 = spec_serial_write(s2.latch, address, bits[2], cycles[2]);
    let s4 = spec_serial_write(s3.latch, address, bits[3], cycles[3]);
    assert(s1.latch.value == bits[0] % 2 && s1.latch.count == 1);
    assert(s2.latch.value == bits[0] % 2 + 2 * (bits[1] % 2) && s2.latch.count == 2);
    assert(spec_bit_weight(2) == 4 && spec_bit_weight(3) == 8);
    assert(!spec_follows_last_write(s2.latch, cycles[2]));
    assert(bits[2] < 128);
    assert(s2.latch.value < 4);
    assert(s3.latch.count == 3);
    assert(s3.latch.value == s2.latch.value % 4 + (if bits[2] % 2 == 1 {
        4int
    } else {
        0int
    }));
    assert(s3.latch.value == bits[0] % 2 + 2 * (bits[1] % 2) + 4 * (bits[2] % 2) && s3.latch.count
        == 3);
    assert(!spec_follows_last_write(s3.latch, cycles[3]));
    assert(bits[3] < 128 && bits[4] < 128);
    assert(s3.latch.value < 8);
    assert(s4.latch.count == 4);
    assert(s4.latch.value == s3.latch.value % 8 + (if bits[3] % 2 == 1 {
        8int
    } else {
        0int
    }));
    assert(s4.latch.value == bits[0] % 2 + 2 * (bits[1] % 2) + 4 * (bits[2] % 2) + 8 * (bits[3]
        % 2) && s4.latch.count == 4);
    assert(!spec_follows_last_write(s4.latch, cycles[4]));
}

/// The registers of MMC1 that shape the picture unit's space.
#[derive(Clone, Copy, Debug)]
pub struct ChrControl {
    pub latch: ShiftRegister,
    /// Whether the two 4 KiB windows are switched apart; else they show one
    /// 8 KiB bank.
    pub split: bool,
    /// Character bank register 0, 0 to 31.
    pub chr_bank_0: u8,
    /// Character bank register 1, 0 to 31.
    pub chr_bank_1: u8,
    pub mirroring_mode: MirroringMode,
}

/// The mirroring that bits 0 and 1 of the control register select.
pub open spec fn spec_mirroring_of(committed: u8) -> MirroringMode {
    match committed % 4 {
        0 => MirroringMode::SingleScreenLow,
        1 => MirroringMode::SingleScreenHigh,
        2 => MirroringMode::Vertical,
        _ => MirroringMode::Horizontal,
    }
}

/// The mirroring that bits 0 and 1 of the control register select.
pub fn mirroring_of(committed: u8) -> (result: MirroringMode)
    ensures
        result == spec_mirroring_of(committed),
{
    match committed % 4 {
        0 => MirroringMode::SingleScreenLow,
        1 => MirroringMode::SingleScreenHigh,
        2 => MirroringMode::Vertical,
        _ => MirroringMode::Horizontal,
    }
}

/// The character registers after a CPU write of `value` to `address` in
/// cycle `cycles`. A commit to register 0 sets the mirroring from bits 0
/// and 1 and the bank mode from bit 4; commits to registers 1 and 2 set the
/// two bank registers.
pub open spec fn spec_chr_control_after(
    control: ChrControl,
    address: u16,
    value: u8,
    cycles: u32,
) -> ChrControl {
    if address < 0x8000 {
        control
    } else {
        match spec_serial_write(control.latch, address, value, cycles).outcome {
            SerialOutcome::Commit { register, value: committed } => if register == 0 {
                ChrControl {
                    latch: spec_serial_write(control.latch, address, value, cycles).latch,
                    mirroring_mode: spec_mirroring_of(committed),
                    split: committed >= 16,
                    ..control
                }
            } else if register == 1 {
                ChrControl {
                    latch: spec_serial_write(control.latch, address, value, cycles).latch,
                    chr_bank_0: committed % 32,
                    ..control
                }
            } else if register == 2 {
                ChrControl {
                    latch: spec_serial_write(control.latch, address, value, cycles).latch,
                    chr_bank_1: committed % 32,
                    ..control
                }
            } else {
                ChrControl {
                    latch: spec_serial_write(control.latch, address, value, cycles).latch,
                    ..control
                }
            },
            _ => ChrControl {
                latch: spec_serial_write(control.latch, address, value, cycles).latch,
                ..control
            },
        }
    }
}

/// The character registers after a CPU write of `value` to `address` in
/// cycle `cycles`. A commit to register 0 sets the mirroring from bits 0
/// and 1 and the bank mode from bit 4; commits to registers 1 and 2 set the
/// two bank registers.
pub fn chr_control_after(
    control: ChrControl,
    address: u16,
    value: u8,
    cycles: u32,
) -> (result: ChrControl)
    ensures
        result == spec_chr_control_after(control, address, value, cycles),
{
    if address < 0x8000 {
        control
    } else {
        match serial_write(control.latch, address, value, cycles).outcome {
            SerialOutcome::Commit { register, value: committed } => if register == 0 {
                ChrControl {
                    latch: serial_write(control.latch, address, value, cycles).latch,
                    mirroring_mode: mirroring_of(committed),
                    split: committed >= 16,
                    ..control
                }
            } else if register == 1 {
                ChrControl {
                    latch: serial_write(control.latch, address, value, cycles).latch,
                    chr_bank_0: committed % 32,
                    ..control
                }
            } else if register == 2 {
                ChrControl {
                    latch: serial_write(control.latch, address, value, cycles).latch,
                    chr_bank_1: committed % 32,
                    ..control
                }
            } else {
                ChrControl {
                    latch: serial_write(control.latch, address, value, cycles).latch,
                    ..control
                }
            },
            _ => ChrControl {
                latch: serial_write(control.latch, address, value, cycles).latch,
                ..control
            },
        }
    }
}

/// The 4 KiB banks that the two character windows show. Every bank is taken
/// modulo the number of banks.
pub open spec fn spec_chr_window_banks(control: ChrControl, total: u16) -> [u16; 2]
    recommends
        total > 0,
{
    if control.split {
        [(control.chr_bank_0 as u16 % total) as u16, (control.chr_bank_1 as u16 % total) as u16]
    } else {
        [
            (((control.chr_bank_0 / 2) * 2) as u16 % total) as u16,
            (((control.chr_bank_0 / 2) * 2 + 1) as u16 % total) as u16,
        ]
    }
}

/// The 4 KiB banks that the two character windows show. Every bank is taken
/// modulo the number of banks.
pub fn chr_window_banks(control: ChrControl, total: u16) -> (result: [u16; 2])
    requires
        total > 0,
    ensures
        result == spec_chr_window_banks(control, total),
{
    if control.split {
        [(control.chr_bank_0 as u16 % total) as u16, (control.chr_bank_1 as u16 % total) as u16]
    } else {
        [
            (((control.chr_bank_0 / 2) * 2) as u16 % total) as u16,
            (((control.chr_bank_0 / 2) * 2 + 1) as u16 % total) as u16,
        ]
    }
}

/// The character chip of an MMC1 cartridge.
pub struct MMC1ChrChip {
    /// Character ROM, or 8 KiB of character RAM.
    pub chr_data: Vec<u8>,
    /// Whether `chr_data` is RAM, which takes writes.
    pub chr_is_ram: bool,
    /// Number of 4 KiB banks.
    pub total_banks: u16,
    pub ppu_vram: Vec<u8>,
    pub control: ChrControl,
}

impl MMC1ChrChip {
    /// The character memory holds every bank.
    pub open spec fn wf(&self) -> bool {
        &&& self.total_banks > 0
        &&& self.chr_data@.len() == self.total_banks * CHR_HALF_SIZE
        &&& self.ppu_vram@.len() == VRAM_SIZE
        &&& self.control.mirroring_mode != MirroringMode::FourScreen
    }

    /// The offset in character memory that an address in `$0000-$1FFF` reads.
    pub open spec fn chr_offset(&self, address: u16) -> int {
        spec_chr_window_banks(self.control, self.total_banks)[address as int / 0x1000]
            * CHR_HALF_SIZE + address % 0x1000
    }

    /// The byte that a read of `address` returns.
    pub open spec fn spec_read_byte(&self, address: u16) -> u8 {
        if address < 0x2000 {
            self.chr_data@[self.chr_offset(address)]
        } else {
            self.ppu_vram@[nametable_offset(self.control.mirroring_mode, address as int)]
        }
    }

    /// A chip over `chr_rom`, or over 8 KiB of zeroed character RAM where the
    /// cartridge has no ROM, as it is at power-on: one 8 KiB bank, bank 0.
    pub fn new(chr_rom: Option<Vec<u8>>, total_banks: u16, mirroring_mode: MirroringMode) -> (chip:
        MMC1ChrChip)
        requires
            total_banks > 0,
            chr_rom is Some ==> chr_rom->0@.len() == total_banks * CHR_HALF_SIZE,
            chr_rom is None ==> total_banks == 2,
            mirroring_mode != MirroringMode::FourScreen,
        ensures
            chip.wf(),
            chip.chr_is_ram == (chr_rom is None),
            chip.chr_data@ == (match chr_rom {
                Some(rom) => rom@,
                None => zeroes(0x2000),
            }),
            chip.total_banks == total_banks,
            chip.ppu_vram@ == zeroes(VRAM_SIZE as nat),
            chip.control.mirroring_mode == mirroring_mode,
            !chip.control.split,
            chip.control.chr_bank_0 == 0,
            chip.control.chr_bank_1 == 0,
            chip.control.latch.count == 0,
            chip.control.latch.value == 0,
            chip.control.latch.last_write_cycle is None,
    {
        let chr_is_ram = chr_rom.is_none();
        let chr_data = match chr_rom {
            Some(rom) => rom,
            None => zeroed(0x2000),
        };
        let ppu_vram = zeroed(VRAM_SIZE);
        MMC1ChrChip {
            chr_data,
            chr_is_ram,
            total_banks,
            ppu_vram,
            control: ChrControl {
                latch: cleared(None),
                split: false,
                chr_bank_0: 0,
                chr_bank_1: 0,
                mirroring_mode,
            },
        }
    }

    /// Reads through the PPU bus: the two banked windows below `$2000`, the
    /// name tables, by way of the mirroring, from there to `$3EFF`.
    pub fn read_byte(&self, address: u16) -> (value: u8)
        requires
            self.wf(),
            address < 0x3F00,
        ensures
            value == self.spec_read_byte(address),
            address < 0x2000 ==> 0 <= self.chr_offset(address) < self.chr_data@.len(),
    {
        if address < 0x2000 {
            let banks = chr_window_banks(self.control, self.total_banks);
            proof {
                lemma_mmc1_chr_offset_in_range(*self, address);
            }
            self.chr_data[banks[(address / 0x1000) as usize] as usize * CHR_HALF_SIZE + (address
                % 0x1000) as usize]
        } else {
            let offset = self.control.mirroring_mode.get_mirrored_address(address);
            self.ppu_vram[offset as usize]
        }
    }

    /// Whether `post` is this chip after a write through the bus of the picture unit of `value` to
    /// `address` in cycle `cycles`.
    pub open spec fn wrote(self, post: Self, address: u16, value: u8, cycles: u32) -> bool {
        &&& post.wf()
        &&& post.chr_is_ram == self.chr_is_ram
        &&& post.total_banks == self.total_banks
        &&& post.control == self.control
        &&& post.chr_data@ == (if address < 0x2000 && self.chr_is_ram {
            self.chr_data@.update(self.chr_offset(address), value)
        } else {
            self.chr_data@
        })
        &&& post.ppu_vram@ == (if address >= 0x2000 {
            self.ppu_vram@.update(
                nametable_offset(self.control.mirroring_mode, address as int),
                value,
            )
        } else {
            self.ppu_vram@
        })
    }

    /// Writes through the PPU bus: character RAM takes the byte below
    /// `$2000`, character ROM ignores it; the name tables take it from
    /// `$2000` to `$3EFF`.
    pub fn write_byte(&mut self, address: u16, value: u8, cycles: u32)
        requires
            old(self).wf(),
            address < 0x3F00,
        ensures
            old(self).wrote(*final(self), address, value, cycles),
    {
        if address < 0x2000 {
            if self.chr_is_ram {
                let banks = chr_window_banks(self.control, self.total_banks);
                proof {
                    lemma_mmc1_chr_offset_in_range(*self, address);
                }
                let offset = banks[(address / 0x1000) as usize] as usize * CHR_HALF_SIZE + (address
                    % 0x1000) as usize;
                self.chr_data[offset] = value;
            }
        } else {
            let offset = self.control.mirroring_mode.get_mirrored_address(address);
            self.ppu_vram[offset as usize] = value;
        }
    }

    /// Whether `post` is this chip after a CPU write that the chip observes of `value` to
    /// `address` in cycle `cycles`.
    pub open spec fn cpu_wrote(self, post: Self, address: u16, value: u8, cycles: u32) -> bool {
        &&& post.wf()
        &&& post.chr_data@ == self.chr_data@
        &&& post.chr_is_ram == self.chr_is_ram
        &&& post.ppu_vram@ == self.ppu_vram@
        &&& post.total_banks == self.total_banks
        &&& post.control == spec_chr_control_after(self.control, address, value, cycles)
    }

    /// What the chip makes of a CPU write: from `$8000` the write goes to
    /// the serial port.
    pub fn cpu_write_byte(&mut self, address: u16, value: u8, cycles: u32)
        requires
            old(self).wf(),
        ensures
            old(self).cpu_wrote(*final(self), address, value, cycles),
    {
        self.control = chr_control_after(self.control, address, value, cycles);
    }
}

/// Every read below `$2000` lands inside the character memory, whatever was
/// written to the serial port.
pub proof fn lemma_mmc1_chr_offset_in_range(chip: MMC1ChrChip, address: u16)
    requires
        chip.wf(),
        address < 0x2000,
    ensures
        0 <= chip.chr_offset(address) < chip.chr_data@.len(),
{
    let banks = spec_chr_window_banks(chip.control, chip.total_banks);
    assert(banks[0] < chip.total_banks && banks[1] < chip.total_banks);
    let window = address as int / 0x1000;
    assert(window == 0 || window == 1);
    assert(banks[window] * CHR_HALF_SIZE + CHR_HALF_SIZE <= chip.total_banks * CHR_HALF_SIZE);
}

/// The two chips of a cartridge see the same CPU writes, so their shift
/// registers stay equal.
pub proof fn lemma_serial_ports_agree(
    prg: PrgControl,
    chr: ChrControl,
    address: u16,
    value: u8,
    cycles: u32,
)
    requires
        prg.latch == chr.latch,
    ensures
        spec_prg_control_after(prg, address, value, cycles).latch == spec_chr_control_after(
            chr,
            address,
            value,
            cycles,
        ).latch,
{
}

/// The number of 4 KiB character banks of a cartridge: two for each 8 KiB
/// of character ROM, or the two of its character RAM.
pub open spec fn spec_mmc1_chr_banks(chr_rom_8kb_units: u8) -> u16 {
    if chr_rom_8kb_units == 0 {
        2
    } else {
        (chr_rom_8kb_units as u16 * 2) as u16
    }
}

/// The number of 4 KiB character banks of a cartridge: two for each 8 KiB
/// of character ROM, or the two of its character RAM.
pub fn mmc1_chr_banks(chr_rom_8kb_units: u8) -> (result: u16)
    ensures
        result == spec_mmc1_chr_banks(chr_rom_8kb_units),
{
    if chr_rom_8kb_units == 0 {
        2
    } else {
        (chr_rom_8kb_units as u16 * 2) as u16
    }
}

/// The mirroring that an MMC1 cartridge starts with: the header's, or the
/// low single screen where the header asks for four screens, which the
/// mapper cannot give.
pub open spec fn spec_mmc1_initial_mirroring(mirroring: MirroringMode) -> MirroringMode {
    match mirroring {
        MirroringMode::FourScreen => MirroringMode::SingleScreenLow,
        _ => mirroring,
    }
}

/// The mirroring that an MMC1 cartridge starts with: the header's, or the
/// low single screen where the header asks for four screens, which the
/// mapper cannot give.
pub fn mmc1_initial_mirroring(mirroring: MirroringMode) -> (result: MirroringMode)
    ensures
        result == spec_mmc1_initial_mirroring(mirroring),
{
    match mirroring {
        MirroringMode::FourScreen => MirroringMode::SingleScreenLow,
        _ => mirroring,
    }
}

/// Whether the two buses are those of a freshly built MMC1 cartridge.
pub open spec fn mmc1_cartridge(
    prg_bus: CpuCartridgeAddressBus,
    chr_bus: PpuCartridgeAddressBus,
    header: CartridgeHeader,
    prg_rom: Seq<u8>,
    chr_rom: Option<Vec<u8>>,
) -> bool {
    &&& prg_bus matches CpuCartridgeAddressBus::MMC1(prg)
    &&& chr_bus matches PpuCartridgeAddressBus::MMC1(chr)
    &&& prg.wf()
    &&& prg.prg_rom@ == prg_rom
    &&& prg.prg_ram@ == zeroes(PRG_RAM_SIZE as nat)
    &&& prg.total_banks == header.prg_rom_16kb_units
    &&& prg.control.prg_mode == 3
    &&& prg.control.prg_bank == 0
    &&& prg.control.latch.count == 0
    &&& prg.control.latch.last_write_cycle is None
    &&& chr.wf()
    &&& chr.chr_data@ == initial_chr(chr_rom)
    &&& chr.chr_is_ram == (chr_rom is None)
    &&& chr.total_banks == spec_mmc1_chr_banks(header.chr_rom_8kb_units)
    &&& chr.ppu_vram@ == zeroes(VRAM_SIZE as nat)
    &&& chr.control.mirroring_mode == spec_mmc1_initial_mirroring(header.mirroring)
    &&& !chr.control.split
    &&& chr.control.chr_bank_0 == 0
    &&& chr.control.chr_bank_1 == 0
    &&& chr.control.latch == prg.control.latch
}

/// The two buses of an MMC1 cartridge at power-on, with 8 KiB of program RAM.
pub fn from_header(prg_rom: Vec<u8>, chr_rom: Option<Vec<u8>>, header: CartridgeHeader) -> (built: (
    CpuCartridgeAddressBus,
    PpuCartridgeAddressBus,
    CartridgeHeader,
))
    requires
        image_matches(header, prg_rom@, chr_rom),
    ensures
        built.2 == header,
        mmc1_cartridge(built.0, built.1, header, prg_rom@, chr_rom),
{
    (
        CpuCartridgeAddressBus::MMC1(
            MMC1PrgChip::new(prg_rom, header.prg_rom_16kb_units, Some(zeroed(PRG_RAM_SIZE))),
        ),
        PpuCartridgeAddressBus::MMC1(
            MMC1ChrChip::new(
                chr_rom,
                mmc1_chr_banks(header.chr_rom_8kb_units),
                mmc1_initial_mirroring(header.mirroring),
            ),
        ),
        header,
    )
}

} // verus!
