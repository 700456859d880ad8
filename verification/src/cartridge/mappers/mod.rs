//! The mappers, and the two banked chips that the simple ones are made of.
use vstd::prelude::*;
use crate::cartridge::mirroring::{MirroringMode, nametable_offset, nametable_span};
use crate::cartridge::mappers::uxrom::{uxrom_update_banks, uxrom_banks_after, uxrom_offsets_after};
use crate::cartridge::{CartridgeHeader, CpuCartridgeAddressBus, PpuCartridgeAddressBus};

pub mod cnrom;
pub mod mmc1;
pub mod mmc3;
pub mod nrom;
pub mod uxrom;

verus! {

/// Size of a 16 KiB program bank.
pub const PRG_BANK_SIZE: usize = 0x4000;

/// Size of the program RAM window `$6000-$7FFF`.
pub const PRG_RAM_SIZE: usize = 0x2000;

/// Size of an 8 KiB character bank.
pub const CHR_BANK_SIZE: usize = 0x2000;

/// Size of the name-table memory that a cartridge owns.
pub const VRAM_SIZE: usize = 0x1000;

/// `size` bytes of zero.
pub open spec fn zeroes(size: nat) -> Seq<u8> {
    Seq::new(size, |i: int| 0u8)
}

/// A fresh memory of `size` zero bytes.
pub fn zeroed(size: usize) -> (memory: Vec<u8>)
    ensures
        memory@ == zeroes(size as nat),
{
    let memory = vec![0u8; size];
    assert(memory@ =~= zeroes(size as nat));
    memory
}

/// Whether the program and character ROM are those that the header
/// declares: at least one program bank, and character ROM exactly where the
/// header counts character banks.
pub open spec fn image_matches(header: CartridgeHeader, prg_rom: Seq<u8>, chr_rom: Option<Vec<u8>>) -> bool {
    &&& header.prg_rom_16kb_units >= 1
    &&& prg_rom.len() == header.prg_rom_16kb_units * PRG_BANK_SIZE
    &&& chr_rom is Some <==> header.chr_rom_8kb_units > 0
    &&& chr_rom is Some ==> chr_rom->0@.len() == header.chr_rom_8kb_units * CHR_BANK_SIZE
}

/// The character memory that a cartridge starts with: its character ROM, or
/// 8 KiB of zeroed character RAM.
pub open spec fn initial_chr(chr_rom: Option<Vec<u8>>) -> Seq<u8> {
    match chr_rom {
        Some(rom) => rom@,
        None => zeroes(CHR_BANK_SIZE as nat),
    }
}

/// Whether the two buses are those of a freshly built cartridge of banked
/// chips: the first program bank at `$8000` and the last at `$C000`, the
/// first character bank, zeroed name tables and the header's mirroring.
pub open spec fn banked_cartridge(
    prg_bus: CpuCartridgeAddressBus,
    chr_bus: PpuCartridgeAddressBus,
    header: CartridgeHeader,
    prg_rom: Seq<u8>,
    chr_rom: Option<Vec<u8>>,
    switching: BankSwitching,
    has_ram: bool,
    chr_banks: u8,
) -> bool {
    &&& prg_bus matches CpuCartridgeAddressBus::Banked(prg)
    &&& chr_bus matches PpuCartridgeAddressBus::Banked(chr)
    &&& prg.wf()
    &&& prg.prg_rom@ == prg_rom
    &&& prg.prg_ram@ == (if has_ram {
        zeroes(PRG_RAM_SIZE as nat)
    } else {
        Seq::<u8>::empty()
    })
    &&& prg.total_banks == header.prg_rom_16kb_units
    &&& prg.banks@ == seq![0u8, (header.prg_rom_16kb_units - 1) as u8]
    &&& prg.switching == switching
    &&& chr.wf()
    &&& chr.chr_data@ == initial_chr(chr_rom)
    &&& chr.chr_is_ram == (chr_rom is None)
    &&& chr.total_banks == chr_banks
    &&& chr.bank == 0
    &&& chr.mirroring_mode == header.mirroring
    &&& chr.ppu_vram@ == zeroes(VRAM_SIZE as nat)
}

/// How a banked program chip answers writes to `$8000-$FFFF`.
#[derive(Clone, Copy, PartialEq, Eq, Structural, Debug)]
pub enum BankSwitching {
    /// Writes change nothing.
    Fixed,
    /// A write selects the 16 KiB bank at `$8000`.
    UxRom,
}

/// The byte of program RAM at `address`, or 0 where the cartridge has none.
pub open spec fn prg_ram_byte(ram: Seq<u8>, address: u16) -> u8 {
    if ram.len() == PRG_RAM_SIZE {
        ram[address - 0x6000]
    } else {
        0
    }
}

/// Program RAM after a write to `address`: the one byte changes, and
/// nothing does where the cartridge has no RAM.
pub open spec fn prg_ram_after_write(ram: Seq<u8>, address: u16, value: u8) -> Seq<u8> {
    if ram.len() == PRG_RAM_SIZE {
        ram.update(address - 0x6000, value)
    } else {
        ram
    }
}

/// A program chip of two 16 KiB windows, at `$8000` and at `$C000`.
pub struct BankedPrgChip {
    pub prg_rom: Vec<u8>,
    /// Empty, or the 8 KiB at `$6000-$7FFF`.
    pub prg_ram: Vec<u8>,
    pub total_banks: u8,
    pub banks: [u8; 2],
    pub bank_offsets: [usize; 2],
    pub switching: BankSwitching,
}

impl BankedPrgChip {
    /// The banks are in range, the offsets are those of the banks, and the
    /// ROM holds every bank.
    pub open spec fn wf(&self) -> bool {
        &&& self.total_banks > 0
        &&& self.prg_rom@.len() == self.total_banks * PRG_BANK_SIZE
        &&& self.prg_ram@.len() == 0 || self.prg_ram@.len() == PRG_RAM_SIZE
        &&& forall|i: int|
            0 <= i < 2 ==> #[trigger] self.banks[i] < self.total_banks && self.bank_offsets[i]
                == self.banks[i] * PRG_BANK_SIZE
    }

    /// The offset in ROM that an address in `$8000-$FFFF` reads.
    pub open spec fn rom_offset(&self, address: u16) -> int {
        if address < 0xC000 {
            self.bank_offsets[0] + (address - 0x8000)
        } else {
            self.bank_offsets[1] + (address - 0xC000)
        }
    }

    /// The byte that a read of `address` returns.
    pub open spec fn spec_read_byte(&self, address: u16) -> u8 {
        if address >= 0x8000 {
            self.prg_rom@[self.rom_offset(address)]
        } else if address >= 0x6000 {
            prg_ram_byte(self.prg_ram@, address)
        } else {
            0
        }
    }

    /// A chip over `prg_rom` with the given banks in its two windows.
    pub fn new(
        prg_rom: Vec<u8>,
        prg_ram: Option<Vec<u8>>,
        total_banks: u8,
        banks: [u8; 2],
        bank_offsets: [usize; 2],
        switching: BankSwitching,
    ) -> (chip: BankedPrgChip)
        requires
            total_banks > 0,
            prg_rom@.len() == total_banks * PRG_BANK_SIZE,
            prg_ram is Some ==> prg_ram->0@.len() == PRG_RAM_SIZE,
            forall|i: int|
                0 <= i < 2 ==> #[trigger] banks[i] < total_banks && bank_offsets[i] == banks[i]
                    * PRG_BANK_SIZE,
        ensures
            chip.wf(),
            chip.prg_rom@ == prg_rom@,
            chip.prg_ram@ == (match prg_ram {
                Some(ram) => ram@,
                None => Seq::<u8>::empty(),
            }),
            chip.total_banks == total_banks,
            chip.banks == banks,
            chip.bank_offsets == bank_offsets,
            chip.switching == switching,
    {
        let ram = match prg_ram {
            Some(ram) => ram,
            None => Vec::new(),
        };
        BankedPrgChip { prg_rom, prg_ram: ram, total_banks, banks, bank_offsets, switching }
    }

    /// Reads through the CPU bus: program RAM at `$6000-$7FFF`, banked ROM
    /// from `$8000`, and 0 below.
    pub fn read_byte(&self, address: u16) -> (value: u8)
        requires
            self.wf(),
        ensures
            value == self.spec_read_byte(address),
            address >= 0x8000 ==> 0 <= self.rom_offset(address) < self.prg_rom@.len(),
    {
        if address >= 0xC000 {
            assert(self.banks[1] < self.total_banks);
            self.prg_rom[self.bank_offsets[1] + (address - 0xC000) as usize]
        } else if address >= 0x8000 {
            assert(self.banks[0] < self.total_banks);
            self.prg_rom[self.bank_offsets[0] + (address - 0x8000) as usize]
        } else if address >= 0x6000 && self.prg_ram.len() == PRG_RAM_SIZE {
            self.prg_ram[(address - 0x6000) as usize]
        } else {
            0
        }
    }

    /// Whether `post` is this chip after a write through the CPU bus of `value` to
    /// `address` in cycle `cycles`.
    pub open spec fn wrote(self, post: Self, address: u16, value: u8, cycles: u32) -> bool {
        &&& post.wf()
        &&& post.prg_rom@ == self.prg_rom@
        &&& post.total_banks == self.total_banks
        &&& post.switching == self.switching
        &&& post.prg_ram@ == (if 0x6000 <= address < 0x8000 {
            prg_ram_after_write(self.prg_ram@, address, value)
        } else {
            self.prg_ram@
        })
        &&& post.banks@ == (if self.switching == BankSwitching::UxRom {
            uxrom_banks_after(address, value, self.total_banks, self.banks@)
        } else {
            self.banks@
        })
        &&& post.bank_offsets@ == (if self.switching == BankSwitching::UxRom {
            uxrom_offsets_after(address, value, self.total_banks, self.bank_offsets@)
        } else {
            self.bank_offsets@
        })
    }

    /// Writes through the CPU bus: program RAM takes the byte at
    /// `$6000-$7FFF`; from `$8000` the write goes to the bank logic.
    pub fn write_byte(&mut self, address: u16, value: u8, cycles: u32)
        requires
            old(self).wf(),
        ensures
            old(self).wrote(*final(self), address, value, cycles),
    {
        if address >= 0x8000 {
            match self.switching {
                BankSwitching::Fixed => {},
                BankSwitching::UxRom => {
                    uxrom_update_banks(
                        address,
                        value,
                        self.total_banks,
                        &mut self.banks,
                        &mut self.bank_offsets,
                    );
                    assert(self.banks@ =~= uxrom_banks_after(address, value, old(self).total_banks, old(self).banks@));
                },
            }
        } else if address >= 0x6000 && self.prg_ram.len() == PRG_RAM_SIZE {
            self.prg_ram[(address - 0x6000) as usize] = value;
        }
    }
}

/// Every read from `$8000` up lands inside the ROM.
pub proof fn lemma_banked_prg_offset_in_range(chip: BankedPrgChip, address: u16)
    requires
        chip.wf(),
        address >= 0x8000,
    ensures
        0 <= chip.rom_offset(address) < chip.prg_rom@.len(),
{
    assert(chip.banks[0] < chip.total_banks);
    assert(chip.banks[1] < chip.total_banks);
}

/// A character chip with one switchable 8 KiB window and the name tables.
pub struct BankedChrChip {
    /// Character ROM, or 8 KiB of character RAM.
    pub chr_data: Vec<u8>,
    /// Whether `chr_data` is RAM, which takes writes.
    pub chr_is_ram: bool,
    pub total_banks: u8,
    pub bank: u8,
    pub bank_offset: usize,
    pub ppu_vram: Vec<u8>,
    pub mirroring_mode: MirroringMode,
}

impl BankedChrChip {
    /// The bank is in range, the offset is that of the bank, and the
    /// character memory holds every bank.
    pub open spec fn wf(&self) -> bool {
        &&& self.total_banks > 0
        &&& self.chr_data@.len() >= self.total_banks * CHR_BANK_SIZE
        &&& self.bank < self.total_banks
        &&& self.bank_offset == self.bank * CHR_BANK_SIZE
        &&& self.ppu_vram@.len() == VRAM_SIZE
    }

    /// The offset in character memory that an address in `$0000-$1FFF` reads.
    pub open spec fn chr_offset(&self, address: u16) -> int {
        self.bank_offset + address
    }

    /// The byte that a read of `address` returns.
    pub open spec fn spec_read_byte(&self, address: u16) -> u8 {
        if address < 0x2000 {
            self.chr_data@[self.chr_offset(address)]
        } else {
            self.ppu_vram@[nametable_offset(self.mirroring_mode, address as int)]
        }
    }

    /// A chip over the character ROM, or over 8 KiB of zeroed character RAM
    /// where the cartridge has no ROM.
    pub fn new(chr_rom: Option<Vec<u8>>, mirroring_mode: MirroringMode, total_banks: u8) -> (chip:
        BankedChrChip)
        requires
            total_banks > 0,
            chr_rom is Some ==> chr_rom->0@.len() >= total_banks * CHR_BANK_SIZE,
            chr_rom is None ==> total_banks == 1,
        ensures
            chip.wf(),
            chip.chr_is_ram == (chr_rom is None),
            chip.chr_data@ == (match chr_rom {
                Some(rom) => rom@,
                None => zeroes(CHR_BANK_SIZE as nat),
            }),
            chip.total_banks == total_banks,
            chip.bank == 0,
            chip.mirroring_mode == mirroring_mode,
            chip.ppu_vram@ == zeroes(VRAM_SIZE as nat),
    {
        let chr_is_ram = chr_rom.is_none();
        let chr_data = match chr_rom {
            Some(rom) => rom,
            None => zeroed(CHR_BANK_SIZE),
        };
        let ppu_vram = zeroed(VRAM_SIZE);
        BankedChrChip {
            chr_data,
            chr_is_ram,
            total_banks,
            bank: 0,
            bank_offset: 0,
            ppu_vram,
            mirroring_mode,
        }
    }

    /// Reads through the PPU bus: the pattern tables below `$2000`, the
    /// name tables, by way of the mirroring, from there to `$3EFF`.
    pub fn read_byte(&self, address: u16) -> (value: u8)
        requires
            self.wf(),
            address < 0x3F00,
        ensures
            value == self.spec_read_byte(address),
            address < 0x2000 ==> 0 <= self.chr_offset(address) < self.chr_data@.len(),
    {
        if address < 0x2000 {
            self.chr_data[self.bank_offset + address as usize]
        } else {
            let offset = self.mirroring_mode.get_mirrored_address(address);
            self.ppu_vram[offset as usize]
        }
    }

    /// Whether `post` is this chip after a write through the bus of the picture unit of `value` to
    /// `address` in cycle `cycles`.
    pub open spec fn wrote(self, post: Self, address: u16, value: u8, cycles: u32) -> bool {
        &&& post.wf()
        &&& post.chr_is_ram == self.chr_is_ram
        &&& post.total_banks == self.total_banks
        &&& post.bank == self.bank
        &&& post.mirroring_mode == self.mirroring_mode
        &&& post.chr_data@ == (if address < 0x2000 && self.chr_is_ram {
            self.chr_data@.update(self.chr_offset(address), value)
        } else {
            self.chr_data@
        })
        &&& post.ppu_vram@ == (if address >= 0x2000 {
            self.ppu_vram@.update(
                nametable_offset(self.mirroring_mode, address as int),
                value,
            )
        } else {
            self.ppu_vram@
        })
    }

    /// Writes through the PPU bus: character RAM takes the byte below
    /// `$2000`, character ROM ignores it; the name tables take it from
    /// `$2000` to `$3EFF`.
    pub fn write_byte(&mut self, address: u16, value: u8, cycles: u32)
        requires
            old(self).wf(),
            address < 0x3F00,
        ensures
            old(self).wrote(*final(self), address, value, cycles),
    {
        if address < 0x2000 {
            if self.chr_is_ram {
                let offset = self.bank_offset + address as usize;
                self.chr_data[offset] = value;
            }
        } else {
            let offset = self.mirroring_mode.get_mirrored_address(address);
            self.ppu_vram[offset as usize] = value;
        }
    }

    /// Whether `post` is this chip after a CPU write that the chip observes of `value` to
    /// `address` in cycle `cycles`.
    pub open spec fn cpu_wrote(self, post: Self, address: u16, value: u8, cycles: u32) -> bool {
        &&& post.wf()
        &&& post.chr_data@ == self.chr_data@
        &&& post.ppu_vram@ == self.ppu_vram@
        &&& post.chr_is_ram == self.chr_is_ram
        &&& post.total_banks == self.total_banks
        &&& post.mirroring_mode == self.mirroring_mode
        &&& post.bank == (if address >= 0x8000 {
            (value % self.total_banks) as u8
        } else {
            self.bank
        })
    }

    /// What the chip makes of a CPU write: a write to `$8000-$FFFF` selects
    /// the character bank, modulo the number of banks.
    pub fn cpu_write_byte(&mut self, address: u16, value: u8, cycles: u32)
        requires
            old(self).wf(),
        ensures
            old(self).cpu_wrote(*final(self), address, value, cycles),
    {
        if address >= 0x8000 {
            self.bank = value % self.total_banks;
            self.bank_offset = self.bank as usize * CHR_BANK_SIZE;
        }
    }
}

/// Every read below `$2000` lands inside the character memory.
pub proof fn lemma_banked_chr_offset_in_range(chip: BankedChrChip, address: u16)
    requires
        chip.wf(),
        address < 0x2000,
    ensures
        0 <= chip.chr_offset(address) < chip.chr_data@.len(),
{
}

} // verus!
