//! Cartridge: header, loading, and the two address buses a cartridge serves.
use vstd::prelude::*;
use vstd::string::StringExecFns;
use crate::cartridge::mappers::{BankedChrChip, BankedPrgChip};
use crate::cartridge::mappers::mmc1::{MMC1ChrChip, MMC1PrgChip};
use crate::cartridge::mappers::mmc3::{MMC3ChrChip, MMC3PrgChip};
use crate::cartridge::mirroring::MirroringMode;

pub mod loader;
pub mod mappers;
pub mod mirroring;

verus! {

/// The ways in which loading a cartridge can fail.
#[derive(Clone, Copy, PartialEq, Eq, Structural, Debug)]
pub enum CartridgeErrorKind {
    /// The bytes of the image could not be read.
    CartridgeIO,
    /// The image is shorter than its header declares, does not begin with
    /// the magic bytes, or declares no program ROM.
    CartridgeFormat,
    /// The mapper is not one of 0, 1, 2, 3, 4 and 94.
    MapperUnsupported,
    /// Kept for completeness: every opcode is implemented.
    InvalidOpcode,
}

/// An error met while loading a cartridge.
#[derive(Debug)]
pub struct CartridgeError {
    pub kind: CartridgeErrorKind,
    pub message: String,
}

/// What the header of an image says of the cartridge.
#[derive(Clone, Copy, Debug)]
pub struct CartridgeHeader {
    pub prg_rom_16kb_units: u8,
    pub chr_rom_8kb_units: u8,
    pub mapper: u8,
    pub mirroring: MirroringMode,
    pub has_ram: bool,
}

/// The mapper number in the two flag bytes: the high nibble of byte 6 is its
/// low nibble, the high nibble of byte 7 its high nibble.
pub open spec fn spec_mapper_of(flags_6: u8, flags_7: u8) -> u8 {
    (flags_6 / 16 + (flags_7 / 16) * 16) as u8
}

/// The mapper number in the two flag bytes: the high nibble of byte 6 is its
/// low nibble, the high nibble of byte 7 its high nibble.
pub fn mapper_of(flags_6: u8, flags_7: u8) -> (result: u8)
    ensures
        result == spec_mapper_of(flags_6, flags_7),
{
    (flags_6 / 16 + (flags_7 / 16) * 16) as u8
}

/// The mirroring in flag byte 6: bit 3 asks for four screens; else bit 0
/// set is vertical and clear is horizontal.
pub open spec fn spec_mirroring_of_flags(flags_6: u8) -> MirroringMode {
    if (flags_6 / 8) % 2 == 1 {
        MirroringMode::FourScreen
    } else if flags_6 % 2 == 1 {
        MirroringMode::Vertical
    } else {
        MirroringMode::Horizontal
    }
}

/// The mirroring in flag byte 6: bit 3 asks for four screens; else bit 0
/// set is vertical and clear is horizontal.
pub fn mirroring_of_flags(flags_6: u8) -> (result: MirroringMode)
    ensures
        result == spec_mirroring_of_flags(flags_6),
{
    if (flags_6 / 8) % 2 == 1 {
        MirroringMode::FourScreen
    } else if flags_6 % 2 == 1 {
        MirroringMode::Vertical
    } else {
        MirroringMode::Horizontal
    }
}

/// The character of a decimal digit.
pub open spec fn digit_char(digit: int) -> char {
    if digit == 0 {
        '0'
    } else if digit == 1 {
        '1'
    } else if digit == 2 {
        '2'
    } else if digit == 3 {
        '3'
    } else if digit == 4 {
        '4'
    } else if digit == 5 {
        '5'
    } else if digit == 6 {
        '6'
    } else if digit == 7 {
        '7'
    } else if digit == 8 {
        '8'
    } else {
        '9'
    }
}

/// The decimal numeral of a byte: its digits, the most significant first,
/// without leading zeros.
pub open spec fn decimal(value: u8) -> Seq<char> {
    if value < 10 {
        seq![digit_char(value as int)]
    } else if value < 100 {
        seq![digit_char(value as int / 10), digit_char(value as int % 10)]
    } else {
        seq![
            digit_char(value as int / 100),
            digit_char((value as int / 10) % 10),
            digit_char(value as int % 10),
        ]
    }
}

/// The line that describes a header: the two sizes and the mapper, each as
/// a decimal numeral behind its name.
pub open spec fn summary_of(header: CartridgeHeader) -> Seq<char> {
    "PRG Units "@ + decimal(header.prg_rom_16kb_units) + ", CHR Units "@ + decimal(
        header.chr_rom_8kb_units,
    ) + ", Mapper "@ + decimal(header.mapper)
}

/// The text of one decimal digit.
fn digit_text(digit: u8) -> (text: &'static str)
    requires
        digit < 10,
    ensures
        text@ == seq![digit_char(digit as int)],
{
    proof {
        reveal_strlit("0");
        reveal_strlit("1");
        reveal_strlit("2");
        reveal_strlit("3");
        reveal_strlit("4");
        reveal_strlit("5");
        reveal_strlit("6");
        reveal_strlit("7");
        reveal_strlit("8");
        reveal_strlit("9");
    }
    let text = if digit == 0 {
        "0"
    } else if digit == 1 {
        "1"
    } else if digit == 2 {
        "2"
    } else if digit == 3 {
        "3"
    } else if digit == 4 {
        "4"
    } else if digit == 5 {
        "5"
    } else if digit == 6 {
        "6"
    } else if digit == 7 {
        "7"
    } else if digit == 8 {
        "8"
    } else {
        "9"
    };
    assert(text@ =~= seq![digit_char(digit as int)]);
    text
}

/// Appends the decimal numeral of `value` to `text`.
fn append_decimal(text: &mut String, value: u8)
    ensures
        final(text)@ == old(text)@ + decimal(value),
{
    if value >= 100 {
        text.append(digit_text(value / 100));
    }
    if value >= 10 {
        text.append(digit_text((value / 10) % 10));
    }
    text.append(digit_text(value % 10));
    assert(text@ =~= old(text)@ + decimal(value));
}

impl CartridgeHeader {
    /// A line that names the sizes and the mapper, for a window title or a
    /// log: `PRG Units`, `CHR Units` and `Mapper`, each followed by its
    /// number in decimal.
    pub fn summary(&self) -> (text: String)
        ensures
            text@ == summary_of(*self),
    {
        let mut text = String::from_str("PRG Units ");
        append_decimal(&mut text, self.prg_rom_16kb_units);
        text.append(", CHR Units ");
        append_decimal(&mut text, self.chr_rom_8kb_units);
        text.append(", Mapper ");
        append_decimal(&mut text, self.mapper);
        text
    }

    /// The header that bytes 4 to 7 of an image describe.
    pub fn new(prg_rom_16kb_units: u8, chr_rom_8kb_units: u8, flags_6: u8, flags_7: u8) -> (header:
        CartridgeHeader)
        ensures
            header.prg_rom_16kb_units == prg_rom_16kb_units,
            header.chr_rom_8kb_units == chr_rom_8kb_units,
            header.mapper == spec_mapper_of(flags_6, flags_7),
            header.mirroring == spec_mirroring_of_flags(flags_6),
            header.has_ram == ((flags_6 / 2) % 2 == 1),
    {
        CartridgeHeader {
            prg_rom_16kb_units,
            chr_rom_8kb_units,
            mapper: mapper_of(flags_6, flags_7),
            mirroring: mirroring_of_flags(flags_6),
            has_ram: (flags_6 / 2) % 2 == 1,
        }
    }
}

/// The mapper number is the byte made of the two high nibbles, that of flag
/// byte 7 above that of flag byte 6.
pub proof fn lemma_mapper_nibbles(flags_6: u8, flags_7: u8)
    ensures
        spec_mapper_of(flags_6, flags_7) == (flags_6 >> 4) | (flags_7 & 0xF0),
{
    assert(flags_6 / 16 + (flags_7 / 16) * 16 == (flags_6 >> 4) | (flags_7 & 0xF0)) by (bit_vector);
}

/// The CPU's side of a cartridge: program ROM and program RAM behind the
/// bank logic of the mapper.
pub enum CpuCartridgeAddressBus {
    Banked(BankedPrgChip),
    MMC1(MMC1PrgChip),
    MMC3(MMC3PrgChip),
}

impl CpuCartridgeAddressBus {
    /// The chip is well formed.
    pub open spec fn wf(&self) -> bool {
        match self {
            CpuCartridgeAddressBus::Banked(chip) => chip.wf(),
            CpuCartridgeAddressBus::MMC1(chip) => chip.wf(),
            CpuCartridgeAddressBus::MMC3(chip) => chip.wf(),
        }
    }

    /// The program ROM.
    pub open spec fn prg_rom(&self) -> Seq<u8> {
        match self {
            CpuCartridgeAddressBus::Banked(chip) => chip.prg_rom@,
            CpuCartridgeAddressBus::MMC1(chip) => chip.prg_rom@,
            CpuCartridgeAddressBus::MMC3(chip) => chip.prg_rom@,
        }
    }

    /// The offset in ROM that an address in `$8000-$FFFF` reads.
    pub open spec fn rom_offset(&self, address: u16) -> int {
        match self {
            CpuCartridgeAddressBus::Banked(chip) => chip.rom_offset(address),
            CpuCartridgeAddressBus::MMC1(chip) => chip.rom_offset(address),
            CpuCartridgeAddressBus::MMC3(chip) => chip.rom_offset(address),
        }
    }

    /// The byte that a read of `address` returns.
    pub open spec fn spec_read_byte(&self, address: u16) -> u8 {
        match self {
            CpuCartridgeAddressBus::Banked(chip) => chip.spec_read_byte(address),
            CpuCartridgeAddressBus::MMC1(chip) => chip.spec_read_byte(address),
            CpuCartridgeAddressBus::MMC3(chip) => chip.spec_read_byte(address),
        }
    }

    /// Whether `post` is this bus after a write of `value` to `address` in
    /// cycle `cycles`: the same kind of chip, after that write.
    pub open spec fn wrote(self, post: Self, address: u16, value: u8, cycles: u32) -> bool {
        match (self, post) {
            (
                CpuCartridgeAddressBus::Banked(before),
                CpuCartridgeAddressBus::Banked(after),
            ) => before.wrote(after, address, value, cycles),
            (
                CpuCartridgeAddressBus::MMC1(before),
                CpuCartridgeAddressBus::MMC1(after),
            ) => before.wrote(after, address, value, cycles),
            (
                CpuCartridgeAddressBus::MMC3(before),
                CpuCartridgeAddressBus::MMC3(after),
            ) => before.wrote(after, address, value, cycles),
            _ => false,
        }
    }

    /// Reads a byte through the CPU bus.
    pub fn read_byte(&self, address: u16) -> (value: u8)
        requires
            self.wf(),
        ensures
            value == self.spec_read_byte(address),
            address >= 0x8000 ==> 0 <= self.rom_offset(address) < self.prg_rom().len(),
    {
        match self {
            CpuCartridgeAddressBus::Banked(chip) => chip.read_byte(address),
            CpuCartridgeAddressBus::MMC1(chip) => chip.read_byte(address),
            CpuCartridgeAddressBus::MMC3(chip) => chip.read_byte(address),
        }
    }

    /// Writes a byte through the CPU bus.
    pub fn write_byte(&mut self, address: u16, value: u8, cycles: u32)
        requires
            old(self).wf(),
        ensures
            final(self).wf(),
            old(self).wrote(*final(self), address, value, cycles),
            final(self).prg_rom() == old(self).prg_rom(),
    {
        match self {
            CpuCartridgeAddressBus::Banked(chip) => chip.write_byte(address, value, cycles),
            CpuCartridgeAddressBus::MMC1(chip) => chip.write_byte(address, value, cycles),
            CpuCartridgeAddressBus::MMC3(chip) => chip.write_byte(address, value, cycles),
        }
    }
}

/// The picture unit's side of a cartridge: character memory behind the bank
/// logic of the mapper, and the name tables behind the mirroring.
pub enum PpuCartridgeAddressBus {
    Banked(BankedChrChip),
    MMC1(MMC1ChrChip),
    MMC3(MMC3ChrChip),
}

impl PpuCartridgeAddressBus {
    /// The chip is well formed.
    pub open spec fn wf(&self) -> bool {
        match self {
            PpuCartridgeAddressBus::Banked(chip) => chip.wf(),
            PpuCartridgeAddressBus::MMC1(chip) => chip.wf(),
            PpuCartridgeAddressBus::MMC3(chip) => chip.wf(),
        }
    }

    /// The character memory.
    pub open spec fn chr_data(&self) -> Seq<u8> {
        match self {
            PpuCartridgeAddressBus::Banked(chip) => chip.chr_data@,
            PpuCartridgeAddressBus::MMC1(chip) => chip.chr_data@,
            PpuCartridgeAddressBus::MMC3(chip) => chip.chr_data@,
        }
    }

    /// The name-table memory.
    pub open spec fn vram(&self) -> Seq<u8> {
        match self {
            PpuCartridgeAddressBus::Banked(chip) => chip.ppu_vram@,
            PpuCartridgeAddressBus::MMC1(chip) => chip.ppu_vram@,
            PpuCartridgeAddressBus::MMC3(chip) => chip.ppu_vram@,
        }
    }

    /// The mirroring in force.
    pub open spec fn mirroring(&self) -> MirroringMode {
        match self {
            PpuCartridgeAddressBus::Banked(chip) => chip.mirroring_mode,
            PpuCartridgeAddressBus::MMC1(chip) => chip.control.mirroring_mode,
            PpuCartridgeAddressBus::MMC3(chip) => chip.mirroring_mode,
        }
    }

    /// The offset in character memory that an address in `$0000-$1FFF` reads.
    pub open spec fn chr_offset(&self, address: u16) -> int {
        match self {
            PpuCartridgeAddressBus::Banked(chip) => chip.chr_offset(address),
            PpuCartridgeAddressBus::MMC1(chip) => chip.chr_offset(address),
            PpuCartridgeAddressBus::MMC3(chip) => chip.chr_offset(address),
        }
    }

    /// The byte that a read of `address` returns.
    pub open spec fn spec_read_byte(&self, address: u16) -> u8 {
        match self {
            PpuCartridgeAddressBus::Banked(chip) => chip.spec_read_byte(address),
            PpuCartridgeAddressBus::MMC1(chip) => chip.spec_read_byte(address),
            PpuCartridgeAddressBus::MMC3(chip) => chip.spec_read_byte(address),
        }
    }

    /// Whether `post` is this bus after a write of `value` to `address`
    /// through the bus of the picture unit.
    pub open spec fn wrote(self, post: Self, address: u16, value: u8, cycles: u32) -> bool {
        match (self, post) {
            (
                PpuCartridgeAddressBus::Banked(before),
                PpuCartridgeAddressBus::Banked(after),
            ) => before.wrote(after, address, value, cycles),
            (
                PpuCartridgeAddressBus::MMC1(before),
                PpuCartridgeAddressBus::MMC1(after),
            ) => before.wrote(after, address, value, cycles),
            (
                PpuCartridgeAddressBus::MMC3(before),
                PpuCartridgeAddressBus::MMC3(after),
            ) => before.wrote(after, address, value, cycles),
            _ => false,
        }
    }

    /// Whether `post` is this bus after it observed a CPU write of `value`
    /// to `address`.
    pub open spec fn cpu_wrote(self, post: Self, address: u16, value: u8, cycles: u32) -> bool {
        match (self, post) {
            (
                PpuCartridgeAddressBus::Banked(before),
                PpuCartridgeAddressBus::Banked(after),
            ) => before.cpu_wrote(after, address, value, cycles),
            (
                PpuCartridgeAddressBus::MMC1(before),
                PpuCartridgeAddressBus::MMC1(after),
            ) => before.cpu_wrote(after, address, value, cycles),
            (
                PpuCartridgeAddressBus::MMC3(before),
                PpuCartridgeAddressBus::MMC3(after),
            ) => before.cpu_wrote(after, address, value, cycles),
            _ => false,
        }
    }

    /// Reads a byte of the pattern tables or of the name tables.
    pub fn read_byte(&self, address: u16) -> (value: u8)
        requires
            self.wf(),
            address < 0x3F00,
        ensures
            value == self.spec_read_byte(address),
            address < 0x2000 ==> 0 <= self.chr_offset(address) < self.chr_data().len(),
    {
        match self {
            PpuCartridgeAddressBus::Banked(chip) => chip.read_byte(address),
            PpuCartridgeAddressBus::MMC1(chip) => chip.read_byte(address),
            PpuCartridgeAddressBus::MMC3(chip) => chip.read_byte(address),
        }
    }

    /// Writes a byte to the pattern tables or to the name tables.
    pub fn write_byte(&mut self, address: u16, value: u8, cycles: u32)
        requires
            old(self).wf(),
            address < 0x3F00,
        ensures
            final(self).wf(),
            old(self).wrote(*final(self), address, value, cycles),
    {
        match self {
            PpuCartridgeAddressBus::Banked(chip) => chip.write_byte(address, value, cycles),
            PpuCartridgeAddressBus::MMC1(chip) => chip.write_byte(address, value, cycles),
            PpuCartridgeAddressBus::MMC3(chip) => chip.write_byte(address, value, cycles),
        }
    }

    /// Shows the chip a CPU write, which may change its banks or its mirroring.
    pub fn cpu_write_byte(&mut self, address: u16, value: u8, cycles: u32)
        requires
            old(self).wf(),
        ensures
            final(self).wf(),
            old(self).cpu_wrote(*final(self), address, value, cycles),
            final(self).chr_data() == old(self).chr_data(),
            final(self).vram() == old(self).vram(),
    {
        match self {
            PpuCartridgeAddressBus::Banked(chip) => chip.cpu_write_byte(address, value, cycles),
            PpuCartridgeAddressBus::MMC1(chip) => chip.cpu_write_byte(address, value, cycles),
            PpuCartridgeAddressBus::MMC3(chip) => chip.cpu_write_byte(address, value, cycles),
        }
    }
}

/// Whatever the mapper and whatever was written to it, every read from
/// `$8000` up lands inside the program ROM.
pub proof fn lemma_prg_offset_in_range(bus: CpuCartridgeAddressBus, address: u16)
    requires
        bus.wf(),
        address >= 0x8000,
    ensures
        0 <= bus.rom_offset(address) < bus.prg_rom().len(),
{
    match bus {
        CpuCartridgeAddressBus::Banked(chip) => {
            crate::cartridge::mappers::lemma_banked_prg_offset_in_range(chip, address);
        },
        CpuCartridgeAddressBus::MMC1(chip) => {
            crate::cartridge::mappers::mmc1::lemma_mmc1_prg_offset_in_range(chip, address);
        },
        CpuCartridgeAddressBus::MMC3(chip) => {
            crate::cartridge::mappers::mmc3::lemma_mmc3_prg_offset_in_range(chip, address);
        },
    }
}

/// Whatever the mapper and whatever was written to it, every read below
/// `$2000` lands inside the character memory.
pub proof fn lemma_chr_offset_in_range(bus: PpuCartridgeAddressBus, address: u16)
    requires
        bus.wf(),
        address < 0x2000,
    ensures
        0 <= bus.chr_offset(address) < bus.chr_data().len(),
{
    match bus {
        PpuCartridgeAddressBus::Banked(chip) => {
            crate::cartridge::mappers::lemma_banked_chr_offset_in_range(chip, address);
        },
        PpuCartridgeAddressBus::MMC1(chip) => {
            crate::cartridge::mappers::mmc1::lemma_mmc1_chr_offset_in_range(chip, address);
        },
        PpuCartridgeAddressBus::MMC3(chip) => {
            crate::cartridge::mappers::mmc3::lemma_mmc3_chr_offset_in_range(chip, address);
        },
    }
}

/// A write of the processor: the address, the byte and the cycle.
#[derive(Clone, Copy, Debug)]
pub struct CpuWrite {
    pub address: u16,
    pub value: u8,
    pub cycles: u32,
}

/// Whether `end` is the program chip `start` after the writes, in order.
pub open spec fn prg_written(
    start: CpuCartridgeAddressBus,
    end: CpuCartridgeAddressBus,
    writes: Seq<CpuWrite>,
) -> bool
    decreases writes.len(),
{
    if writes.len() == 0 {
        end == start
    } else {
        exists|before: CpuCartridgeAddressBus|
            prg_written(start, before, writes.drop_last()) && #[trigger] before.wrote(
                end,
                writes.last().address,
                writes.last().value,
                writes.last().cycles,
            )
    }
}

/// Whether `end` is the character chip `start` after it observed the
/// writes of the processor, in order.
pub open spec fn chr_written(
    start: PpuCartridgeAddressBus,
    end: PpuCartridgeAddressBus,
    writes: Seq<CpuWrite>,
) -> bool
    decreases writes.len(),
{
    if writes.len() == 0 {
        end == start
    } else {
        exists|before: PpuCartridgeAddressBus|
            chr_written(start, before, writes.drop_last()) && #[trigger] before.cpu_wrote(
                end,
                writes.last().address,
                writes.last().value,
                writes.last().cycles,
            )
    }
}

/// After any sequence of writes, for every mapper, the program ROM is what
/// it was and every address from `$8000` up reads inside it.
pub proof fn lemma_prg_in_range_after_writes(
    start: CpuCartridgeAddressBus,
    end: CpuCartridgeAddressBus,
    writes: Seq<CpuWrite>,
    address: u16,
)
    requires
        start.wf(),
        prg_written(start, end, writes),
        address >= 0x8000,
    ensures
        end.wf(),
        end.prg_rom() == start.prg_rom(),
        0 <= end.rom_offset(address) < end.prg_rom().len(),
    decreases writes.len(),
{
    if writes.len() > 0 {
        let before = choose|before: CpuCartridgeAddressBus|
            prg_written(start, before, writes.drop_last()) && #[trigger] before.wrote(
                end,
                writes.last().address,
                writes.last().value,
                writes.last().cycles,
            );
        lemma_prg_in_range_after_writes(start, before, writes.drop_last(), address);
    }
    lemma_prg_offset_in_range(end, address);
}

/// After any sequence of writes of the processor, for every mapper, the
/// character memory is what it was and every address below `$2000` reads
/// inside it.
pub proof fn lemma_chr_in_range_after_writes(
    start: PpuCartridgeAddressBus,
    end: PpuCartridgeAddressBus,
    writes: Seq<CpuWrite>,
    address: u16,
)
    requires
        start.wf(),
        chr_written(start, end, writes),
        address < 0x2000,
    ensures
        end.wf(),
        end.chr_data() == start.chr_data(),
        0 <= end.chr_offset(address) < end.chr_data().len(),
    decreases writes.len(),
{
    if writes.len() > 0 {
        let before = choose|before: PpuCartridgeAddressBus|
            chr_written(start, before, writes.drop_last()) && #[trigger] before.cpu_wrote(
                end,
                writes.last().address,
                writes.last().value,
                writes.last().cycles,
            );
        lemma_chr_in_range_after_writes(start, before, writes.drop_last(), address);
    }
    lemma_chr_offset_in_range(end, address);
}

} // verus!
