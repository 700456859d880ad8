//! MMC3 (mapper 4): four 8 KiB program windows and eight 1 KiB character
//! windows behind a bank-select register.
use vstd::prelude::*;
use crate::cartridge::mirroring::{MirroringMode, nametable_offset};
use crate::cartridge::{CartridgeHeader, CpuCartridgeAddressBus, PpuCartridgeAddressBus};
use crate::cartridge::mappers::{
    zeroed, zeroes, image_matches, initial_chr, CHR_BANK_SIZE, PRG_RAM_SIZE, VRAM_SIZE,
    prg_ram_byte, prg_ram_after_write,
};

verus! {

/// Size of an 8 KiB program bank.
pub const PRG_WINDOW_SIZE: usize = 0x2000;

/// Size of a 1 KiB character bank.
pub const CHR_WINDOW_SIZE: usize = 0x400;

/// Which of the two outer program windows takes the selected bank.
#[derive(Clone, Copy, PartialEq, Eq, Structural, Debug)]
pub enum PRGBankMode {
    /// `$8000-$9FFF` switchable, `$C000-$DFFF` fixed to the second-last bank.
    LowBankSwappable,
    /// `$C000-$DFFF` switchable, `$8000-$9FFF` fixed to the second-last bank.
    HighBankSwappable,
}

/// Where the two 2 KiB character banks sit.
#[derive(Clone, Copy, PartialEq, Eq, Structural, Debug)]
pub enum CHRBankMode {
    /// Two 2 KiB banks at `$0000-$0FFF`, four 1 KiB banks at `$1000-$1FFF`.
    LowBank2KB,
    /// Two 2 KiB banks at `$1000-$1FFF`, four 1 KiB banks at `$0000-$0FFF`.
    HighBank2KB,
}

/// The program bank mode that a value written to bank select asks for: bit 6.
pub open spec fn prg_mode_of(value: u8) -> PRGBankMode {
    if (value / 64) % 2 == 0 {
        PRGBankMode::LowBankSwappable
    } else {
        PRGBankMode::HighBankSwappable
    }
}

/// The character bank mode that a value written to bank select asks for: bit 7.
pub open spec fn chr_mode_of(value: u8) -> CHRBankMode {
    if value < 128 {
        CHRBankMode::LowBank2KB
    } else {
        CHRBankMode::HighBank2KB
    }
}

/// The offsets of the four program windows under a mode: the switchable
/// window shows bank register 0, its counterpart the second-last bank, the
/// window at `$A000` bank register 1, and the last window the last bank.
pub open spec fn prg_offsets_of(banks: Seq<u16>, mode: PRGBankMode, total: u16) -> Seq<usize> {
    let selected = (banks[0] * PRG_WINDOW_SIZE) as usize;
    let second_last = ((total - 2) * PRG_WINDOW_SIZE) as usize;
    let low = (banks[1] * PRG_WINDOW_SIZE) as usize;
    let last = ((total - 1) * PRG_WINDOW_SIZE) as usize;
    match mode {
        PRGBankMode::LowBankSwappable => seq![selected, low, second_last, last],
        PRGBankMode::HighBankSwappable => seq![second_last, low, selected, last],
    }
}

/// The program bank registers after a bank-data write of `value` with
/// `select` latched: target 6 sets register 0 and target 7 register 3, each
/// modulo the number of banks.
pub open spec fn prg_banks_after_data(banks: Seq<u16>, select: u8, value: u8, total: u16) -> Seq<
    u16,
> {
    if select == 6 {
        banks.update(0, (value as u16 % total) as u16)
    } else if select == 7 {
        banks.update(3, (value as u16 % total) as u16)
    } else {
        banks
    }
}

/// The program chip of an MMC3 cartridge.
pub struct MMC3PrgChip {
    pub prg_rom: Vec<u8>,
    /// Number of 8 KiB banks.
    pub total_prg_banks: u16,
    /// Empty, or the 8 KiB at `$6000-$7FFF`.
    pub prg_ram: Vec<u8>,
    pub prg_banks: [u16; 4],
    pub prg_bank_offsets: [usize; 4],
    pub bank_mode: PRGBankMode,
    /// The register that the next bank-data write updates, 0 to 7.
    pub bank_select: u8,
}

impl MMC3PrgChip {
    /// What holds whether or not the offsets are up to date: the ROM holds
    /// every bank and the bank registers are in range.
    pub open spec fn banks_wf(&self) -> bool {
        &&& self.total_prg_banks >= 2
        &&& self.prg_rom@.len() == self.total_prg_banks * PRG_WINDOW_SIZE
        &&& self.prg_ram@.len() == 0 || self.prg_ram@.len() == PRG_RAM_SIZE
        &&& self.bank_select < 8
        &&& forall|i: int| 0 <= i < 4 ==> #[trigger] self.prg_banks[i] < self.total_prg_banks
    }

    /// The registers are in range and the offsets are those of the mode.
    pub open spec fn wf(&self) -> bool {
        &&& self.banks_wf()
        &&& self.prg_bank_offsets@ == prg_offsets_of(
            self.prg_banks@,
            self.bank_mode,
            self.total_prg_banks,
        )
    }

    /// The offset in ROM that an address in `$8000-$FFFF` reads.
    pub open spec fn rom_offset(&self, address: u16) -> int {
        self.prg_bank_offsets[(address - 0x8000) / 0x2000] + (address - 0x8000) % 0x2000
    }

    /// The byte that a read of `address` returns.
    pub open spec fn spec_read_byte(&self, address: u16) -> u8 {
        if address >= 0x8000 {
            self.prg_rom@[self.rom_offset(address)]
        } else if address >= 0x6000 {
            prg_ram_byte(self.prg_ram@, address)
        } else {
            0
        }
    }

    /// A chip over `prg_rom`, with banks 0 and 1 in the two low windows and
    /// the last two banks in the two high ones.
    pub fn new(prg_rom: Vec<u8>, total_prg_banks: u16, prg_ram: Option<Vec<u8>>) -> (chip:
        MMC3PrgChip)
        requires
            prg_rom@.len() >= 0x4000,
            prg_rom@.len() == total_prg_banks * PRG_WINDOW_SIZE,
            prg_ram is Some ==> prg_ram->0@.len() == PRG_RAM_SIZE,
        ensures
            chip.wf(),
            chip.prg_rom@ == prg_rom@,
            chip.total_prg_banks == total_prg_banks,
            chip.prg_ram@ == (match prg_ram {
                Some(ram) => ram@,
                None => Seq::<u8>::empty(),
            }),
            chip.prg_banks@ == seq![
                0u16,
                1u16,
                (total_prg_banks - 2) as u16,
                (total_prg_banks - 1) as u16,
            ],
            chip.bank_mode == PRGBankMode::LowBankSwappable,
            chip.bank_select == 0,
    {
        let ram = match prg_ram {
            Some(ram) => ram,
            None => Vec::new(),
        };
        let chip = MMC3PrgChip {
            prg_rom,
            total_prg_banks,
            prg_ram: ram,
            prg_banks: [0, 1, total_prg_banks - 2, total_prg_banks - 1],
            prg_bank_offsets: [
                0x0000,
                0x2000,
                (total_prg_banks as usize - 2) * PRG_WINDOW_SIZE,
                (total_prg_banks as usize - 1) * PRG_WINDOW_SIZE,
            ],
            bank_mode: PRGBankMode::LowBankSwappable,
            bank_select: 0,
        };
        assert(chip.prg_banks@ =~= seq![
            0u16,
            1u16,
            (total_prg_banks - 2) as u16,
            (total_prg_banks - 1) as u16,
        ]);
        assert(chip.prg_bank_offsets@ =~= prg_offsets_of(
            chip.prg_banks@,
            chip.bank_mode,
            chip.total_prg_banks,
        ));
        chip
    }

    /// Brings the window offsets up to date with the bank registers and the mode.
    pub fn update_bank_offsets(&mut self)
        requires
            old(self).banks_wf(),
        ensures
            final(self).wf(),
            final(self).prg_rom@ == old(self).prg_rom@,
            final(self).prg_ram@ == old(self).prg_ram@,
            final(self).total_prg_banks == old(self).total_prg_banks,
            final(self).prg_banks == old(self).prg_banks,
            final(self).bank_mode == old(self).bank_mode,
            final(self).bank_select == old(self).bank_select,
    {
        assert(self.prg_banks[0] < self.total_prg_banks);
        assert(self.prg_banks[1] < self.total_prg_banks);
        let selected = self.prg_banks[0] as usize * PRG_WINDOW_SIZE;
        let second_last = (self.total_prg_banks as usize - 2) * PRG_WINDOW_SIZE;
        match self.bank_mode {
            PRGBankMode::LowBankSwappable => {
                self.prg_bank_offsets[0] = selected;
                self.prg_bank_offsets[2] = second_last;
            },
            PRGBankMode::HighBankSwappable => {
                self.prg_bank_offsets[0] = second_last;
                self.prg_bank_offsets[2] = selected;
            },
        };
        self.prg_bank_offsets[1] = self.prg_banks[1] as usize * PRG_WINDOW_SIZE;
        self.prg_bank_offsets[3] = (self.total_prg_banks as usize - 1) * PRG_WINDOW_SIZE;
        assert(self.prg_bank_offsets@ =~= prg_offsets_of(
            self.prg_banks@,
            self.bank_mode,
            self.total_prg_banks,
        ));
    }

    /// Reads through the CPU bus: program RAM at `$6000-$7FFF`, the four
    /// banked windows from `$8000`, and 0 below.
    pub fn read_byte(&self, address: u16) -> (value: u8)
        requires
            self.wf(),
        ensures
            value == self.spec_read_byte(address),
            address >= 0x8000 ==> 0 <= self.rom_offset(address) < self.prg_rom@.len(),
    {
        if address >= 0x8000 {
            let window = ((address - 0x8000) / 0x2000) as usize;
            let within = ((address - 0x8000) % 0x2000) as usize;
            proof {
                lemma_mmc3_prg_offset_in_range(*self, address);
            }
            self.prg_rom[self.prg_bank_offsets[window] + within]
        } else if address >= 0x6000 && self.prg_ram.len() == PRG_RAM_SIZE {
            self.prg_ram[(address - 0x6000) as usize]
        } else {
            0
        }
    }

    /// Whether `post` is this chip after a write through the CPU bus of `value` to
    /// `address` in cycle `cycles`.
    pub open spec fn wrote(self, post: Self, address: u16, value: u8, cycles: u32) -> bool {
        &&& post.wf()
        &&& post.prg_rom@ == self.prg_rom@
        &&& post.total_prg_banks == self.total_prg_banks
        &&& post.prg_ram@ == (if 0x6000 <= address < 0x8000 {
            prg_ram_after_write(self.prg_ram@, address, value)
        } else {
            self.prg_ram@
        })
        &&& post.bank_select == (if 0x8000 <= address < 0xA000 && address % 2 == 0 {
            (value % 8) as u8
        } else {
            self.bank_select
        })
        &&& post.bank_mode == (if 0x8000 <= address < 0xA000 && address % 2 == 0 {
            prg_mode_of(value)
        } else {
            self.bank_mode
        })
        &&& post.prg_banks@ == (if 0x8000 <= address < 0xA000 && address % 2 == 1 {
            prg_banks_after_data(
                self.prg_banks@,
                self.bank_select,
                value,
                self.total_prg_banks,
            )
        } else {
            self.prg_banks@
        })
    }

    /// Writes through the CPU bus. Program RAM takes the byte at
    /// `$6000-$7FFF`. In `$8000-$9FFF` an even address latches the target
    /// register and the bank mode, an odd one sets the latched target. The
    /// registers from `$A000` up hold nothing that this chip acts on.
    pub fn write_byte(&mut self, address: u16, value: u8, cycles: u32)
        requires
            old(self).wf(),
        ensures
            old(self).wrote(*final(self), address, value, cycles),
    {
        if address >= 0x6000 && address < 0x8000 {
            if self.prg_ram.len() == PRG_RAM_SIZE {
                self.prg_ram[(address - 0x6000) as usize] = value;
            }
        } else if address >= 0x8000 && address < 0xA000 {
            if address % 2 == 0 {
                self.bank_select = value % 8;
                self.bank_mode = if (value / 64) % 2 == 0 {
                    PRGBankMode::LowBankSwappable
                } else {
                    PRGBankMode::HighBankSwappable
                };
            } else {
                let bank = value as u16 % self.total_prg_banks;
                if self.bank_select == 6 {
                    self.prg_banks[0] = bank;
                } else if self.bank_select == 7 {
                    self.prg_banks[3] = bank;
                }
                assert(self.prg_banks@ =~= prg_banks_after_data(
                    old(self).prg_banks@,
                    old(self).bank_select,
                    value,
                    old(self).total_prg_banks,
                ));
            }
            self.update_bank_offsets();
        }
    }
}

/// Every read from `$8000` up lands inside the ROM, whatever was written
/// to the bank registers.
pub proof fn lemma_mmc3_prg_offset_in_range(chip: MMC3PrgChip, address: u16)
    requires
        chip.wf(),
        address >= 0x8000,
    ensures
        0 <= chip.rom_offset(address) < chip.prg_rom@.len(),
{
    assert(chip.prg_banks[0] < chip.total_prg_banks);
    assert(chip.prg_banks[1] < chip.total_prg_banks);
    let window = (address - 0x8000) / 0x2000;
    assert(0 <= window < 4);
    let offsets = prg_offsets_of(chip.prg_banks@, chip.bank_mode, chip.total_prg_banks);
    assert(chip.prg_bank_offsets[window] == offsets[window]);
    assert(offsets[window] + PRG_WINDOW_SIZE <= chip.total_prg_banks * PRG_WINDOW_SIZE);
}

/// The offsets of the eight character windows under a mode: in order, or
/// with the two halves of the pattern space exchanged.
pub open spec fn chr_offsets_of(banks: Seq<u16>, mode: CHRBankMode) -> Seq<usize> {
    Seq::new(
        8,
        |window: int|
            match mode {
                CHRBankMode::LowBank2KB => (banks[window] * CHR_WINDOW_SIZE) as usize,
                CHRBankMode::HighBank2KB => (banks[(window + 4) % 8] * CHR_WINDOW_SIZE) as usize,
            },
    )
}

/// The first bank of the 2 KiB pair that `value` selects: the low bit of
/// `value` is dropped, and the pair is taken modulo the number of pairs.
pub open spec fn even_bank(value: u8, total: u16) -> u16 {
    (((value / 2) as u16 % (total / 2) as u16) * 2) as u16
}

/// The character bank registers after a bank-data write of `value` with
/// `select` latched. Targets 0 and 1 set an even-aligned pair of 1 KiB banks;
/// targets 2 to 5 set one 1 KiB bank each; all modulo the number of banks.
pub open spec fn chr_banks_after_data(banks: Seq<u16>, select: u8, value: u8, total: u16) -> Seq<
    u16,
> {
    if select == 0 {
        banks.update(0, even_bank(value, total)).update(1, (even_bank(value, total) + 1) as u16)
    } else if select == 1 {
        banks.update(2, even_bank(value, total)).update(3, (even_bank(value, total) + 1) as u16)
    } else if select <= 5 {
        banks.update(select + 2, (value as u16 % total) as u16)
    } else {
        banks
    }
}

/// The mirroring after a write of `value` to the mirroring register: bit 0
/// clear is vertical, set is horizontal; four-screen cartridges keep theirs.
pub open spec fn mirroring_after_write(mode: MirroringMode, value: u8) -> MirroringMode {
    if mode == MirroringMode::FourScreen {
        mode
    } else if value % 2 == 0 {
        MirroringMode::Vertical
    } else {
        MirroringMode::Horizontal
    }
}

/// The character chip of an MMC3 cartridge.
pub struct MMC3ChrChip {
    /// Character ROM, or 8 KiB of character RAM.
    pub chr_data: Vec<u8>,
    /// Whether `chr_data` is RAM, which takes writes.
    pub chr_is_ram: bool,
    /// Number of 1 KiB banks.
    pub total_chr_banks: u16,
    pub ppu_vram: Vec<u8>,
    pub chr_banks: [u16; 8],
    pub chr_bank_offsets: [usize; 8],
    pub mirroring_mode: MirroringMode,
    pub bank_mode: CHRBankMode,
    /// The register that the next bank-data write updates, 0 to 7.
    pub bank_select: u8,
}

impl MMC3ChrChip {
    /// What holds whether or not the offsets are up to date.
    pub open spec fn banks_wf(&self) -> bool {
        &&& self.total_chr_banks >= 8
        &&& self.total_chr_banks % 2 == 0
        &&& self.chr_data@.len() == self.total_chr_banks * CHR_WINDOW_SIZE
        &&& self.ppu_vram@.len() == VRAM_SIZE
        &&& self.bank_select < 8
        &&& forall|i: int| 0 <= i < 8 ==> #[trigger] self.chr_banks[i] < self.total_chr_banks
    }

    /// The registers are in range and the offsets are those of the mode.
    pub open spec fn wf(&self) -> bool {
        &&& self.banks_wf()
        &&& self.chr_bank_offsets@ == chr_offsets_of(self.chr_banks@, self.bank_mode)
    }

    /// The offset in character memory that an address in `$0000-$1FFF` reads.
    pub open spec fn chr_offset(&self, address: u16) -> int {
        self.chr_bank_offsets[address as int / 0x400] + address % 0x400
    }

    /// The byte that a read of `address` returns.
    pub open spec fn spec_read_byte(&self, address: u16) -> u8 {
        if address < 0x2000 {
            self.chr_data@[self.chr_offset(address)]
        } else {
            self.ppu_vram@[nametable_offset(self.mirroring_mode, address as int)]
        }
    }

    /// A chip over `chr_rom`, or over 8 KiB of zeroed character RAM where the
    /// cartridge has no ROM, with banks 0 to 7 in the eight windows.
    pub fn new(chr_rom: Option<Vec<u8>>, banks: u16, mirroring_mode: MirroringMode) -> (chip:
        MMC3ChrChip)
        requires
            banks >= 8,
            banks % 2 == 0,
            chr_rom is Some ==> chr_rom->0@.len() == banks * CHR_WINDOW_SIZE,
            chr_rom is None ==> banks == 8,
        ensures
            chip.wf(),
            chip.chr_is_ram == (chr_rom is None),
            chip.chr_data@ == (match chr_rom {
                Some(rom) => rom@,
                None => zeroes(0x2000),
            }),
            chip.total_chr_banks == banks,
            chip.ppu_vram@ == zeroes(VRAM_SIZE as nat),
            chip.chr_banks@ == seq![0u16, 1u16, 2u16, 3u16, 4u16, 5u16, 6u16, 7u16],
            chip.mirroring_mode == mirroring_mode,
            chip.bank_mode == CHRBankMode::LowBank2KB,
            chip.bank_select == 0,
    {
        let chr_is_ram = chr_rom.is_none();
        let chr_data = match chr_rom {
            Some(rom) => rom,
            None => zeroed(0x2000),
        };
        let ppu_vram = zeroed(VRAM_SIZE);
        let chip = MMC3ChrChip {
            chr_data,
            chr_is_ram,
            total_chr_banks: banks,
            ppu_vram,
            chr_banks: [0, 1, 2, 3, 4, 5, 6, 7],
            chr_bank_offsets: [0x0000, 0x0400, 0x0800, 0x0C00, 0x1000, 0x1400, 0x1800, 0x1C00],
            mirroring_mode,
            bank_mode: CHRBankMode::LowBank2KB,
            bank_select: 0,
        };
        assert(chip.chr_banks@ =~= seq![0u16, 1u16, 2u16, 3u16, 4u16, 5u16, 6u16, 7u16]);
        assert(chip.chr_bank_offsets@ =~= chr_offsets_of(chip.chr_banks@, chip.bank_mode));
        chip
    }

    /// Brings the window offsets up to date with the bank registers and the mode.
    pub fn update_bank_offsets(&mut self)
        requires
            old(self).banks_wf(),
        ensures
            final(self).wf(),
            final(self).chr_data@ == old(self).chr_data@,
            final(self).chr_is_ram == old(self).chr_is_ram,
            final(self).ppu_vram@ == old(self).ppu_vram@,
            final(self).total_chr_banks == old(self).total_chr_banks,
            final(self).chr_banks == old(self).chr_banks,
            final(self).mirroring_mode == old(self).mirroring_mode,
            final(self).bank_mode == old(self).bank_mode,
            final(self).bank_select == old(self).bank_select,
    {
        let mut i: usize = 0;
        while i < 8
            invariant
                0 <= i <= 8,
                self.banks_wf(),
                self.chr_data@ == old(self).chr_data@,
                self.chr_is_ram == old(self).chr_is_ram,
                self.ppu_vram@ == old(self).ppu_vram@,
                self.total_chr_banks == old(self).total_chr_banks,
                self.chr_banks == old(self).chr_banks,
                self.mirroring_mode == old(self).mirroring_mode,
                self.bank_mode == old(self).bank_mode,
                self.bank_select == old(self).bank_select,
                forall|k: int|
                    0 <= k < i ==> self.chr_bank_offsets[match self.bank_mode {
                        CHRBankMode::LowBank2KB => k,
                        CHRBankMode::HighBank2KB => (k + 4) % 8,
                    }] == #[trigger] self.chr_banks[k] * CHR_WINDOW_SIZE,
            decreases 8 - i,
        {
            assert(self.chr_banks[i as int] < self.total_chr_banks);
            let offset = self.chr_banks[i] as usize * CHR_WINDOW_SIZE;
            match self.bank_mode {
                CHRBankMode::LowBank2KB => {
                    self.chr_bank_offsets[i] = offset;
                },
                CHRBankMode::HighBank2KB => {
                    self.chr_bank_offsets[(i + 4) % 8] = offset;
                },
            }
            i += 1;
        }
        assert forall|window: int| 0 <= window < 8 implies self.chr_bank_offsets@[window]
            == chr_offsets_of(self.chr_banks@, self.bank_mode)[window] by {
            match self.bank_mode {
                CHRBankMode::LowBank2KB => {
                    assert(self.chr_bank_offsets[window] == self.chr_banks[window] * CHR_WINDOW_SIZE);
                },
                CHRBankMode::HighBank2KB => {
                    let k = (window + 4) % 8;
                    assert((k + 4) % 8 == window);
                    assert(self.chr_bank_offsets[(k + 4) % 8] == self.chr_banks[k] * CHR_WINDOW_SIZE);
                },
            }
        }
        assert(self.chr_bank_offsets@ =~= chr_offsets_of(self.chr_banks@, self.bank_mode));
    }

    /// Reads through the PPU bus: the eight banked windows below `$2000`,
    /// the name tables, by way of the mirroring, from there to `$3EFF`.
    pub fn read_byte(&self, address: u16) -> (value: u8)
        requires
            self.wf(),
            address < 0x3F00,
        ensures
            value == self.spec_read_byte(address),
            address < 0x2000 ==> 0 <= self.chr_offset(address) < self.chr_data@.len(),
    {
        if address < 0x2000 {
            proof {
                lemma_mmc3_chr_offset_in_range(*self, address);
            }
            self.chr_data[self.chr_bank_offsets[(address / 0x400) as usize] + (address
                % 0x400) as usize]
        } else {
            let offset = self.mirroring_mode.get_mirrored_address(address);
            self.ppu_vram[offset as usize]
        }
    }

    /// Whether `post` is this chip after a write through the bus of the picture unit of `value` to
    /// `address` in cycle `cycles`.
    pub open spec fn wrote(self, post: Self, address: u16, value: u8, cycles: u32) -> bool {
        &&& post.wf()
        &&& post.chr_is_ram == self.chr_is_ram
        &&& post.total_chr_banks == self.total_chr_banks
        &&& post.chr_banks == self.chr_banks
        &&& post.chr_bank_offsets == self.chr_bank_offsets
        &&& post.mirroring_mode == self.mirroring_mode
        &&& post.bank_mode == self.bank_mode
        &&& post.bank_select == self.bank_select
        &&& post.chr_data@ == (if address < 0x2000 && self.chr_is_ram {
            self.chr_data@.update(self.chr_offset(address), value)
        } else {
            self.chr_data@
        })
        &&& post.ppu_vram@ == (if address >= 0x2000 {
            self.ppu_vram@.update(
                nametable_offset(self.mirroring_mode, address as int),
                value,
            )
        } else {
            self.ppu_vram@
        })
    }

    /// Writes through the PPU bus: character RAM takes the byte below
    /// `$2000`, character ROM ignores it; the name tables take it from
    /// `$2000` to `$3EFF`.
    pub fn write_byte(&mut self, address: u16, value: u8, cycles: u32)
        requires
            old(self).wf(),
            address < 0x3F00,
        ensures
            old(self).wrote(*final(self), address, value, cycles),
    {
        if address < 0x2000 {
            if self.chr_is_ram {
                proof {
                    lemma_mmc3_chr_offset_in_range(*self, address);
                }
                let offset = self.chr_bank_offsets[(address / 0x400) as usize] + (address
                    % 0x400) as usize;
                self.chr_data[offset] = value;
            }
        } else {
            let offset = self.mirroring_mode.get_mirrored_address(address);
            self.ppu_vram[offset as usize] = value;
        }
    }

    /// Whether `post` is this chip after a CPU write that the chip observes of `value` to
    /// `address` in cycle `cycles`.
    pub open spec fn cpu_wrote(self, post: Self, address: u16, value: u8, cycles: u32) -> bool {
        &&& post.wf()
        &&& post.chr_data@ == self.chr_data@
        &&& post.chr_is_ram == self.chr_is_ram
        &&& post.ppu_vram@ == self.ppu_vram@
        &&& post.total_chr_banks == self.total_chr_banks
        &&& post.bank_select == (if 0x8000 <= address < 0xA000 && address % 2 == 0 {
            (value % 8) as u8
        } else {
            self.bank_select
        })
        &&& post.bank_mode == (if 0x8000 <= address < 0xA000 && address % 2 == 0 {
            chr_mode_of(value)
        } else {
            self.bank_mode
        })
        &&& post.chr_banks@ == (if 0x8000 <= address < 0xA000 && address % 2 == 1 {
            chr_banks_after_data(
                self.chr_banks@,
                self.bank_select,
                value,
                self.total_chr_banks,
            )
        } else {
            self.chr_banks@
        })
        &&& post.mirroring_mode == (if 0xA000 <= address < 0xC000 && address % 2 == 0 {
            mirroring_after_write(self.mirroring_mode, value)
        } else {
            self.mirroring_mode
        })
    }

    /// What the chip makes of a CPU write. In `$8000-$9FFF` an even address
    /// latches the target register and the bank mode, an odd one sets the
    /// latched target. An even address in `$A000-$BFFF` sets the mirroring.
    /// The interrupt registers from `$C000` up hold nothing that this chip
    /// acts on.
    pub fn cpu_write_byte(&mut self, address: u16, value: u8, cycles: u32)
        requires
            old(self).wf(),
        ensures
            old(self).cpu_wrote(*final(self), address, value, cycles),
    {
        if address >= 0x8000 && address < 0xA000 {
            if address % 2 == 0 {
                self.bank_select = value % 8;
                self.bank_mode = if value < 128 {
                    CHRBankMode::LowBank2KB
                } else {
                    CHRBankMode::HighBank2KB
                };
            } else {
                let select = self.bank_select;
                if select == 0 {
                    let bank = ((value / 2) as u16 % (self.total_chr_banks / 2)) * 2;
                    self.chr_banks[0] = bank;
                    self.chr_banks[1] = bank + 1;
                } else if select == 1 {
                    let bank = ((value / 2) as u16 % (self.total_chr_banks / 2)) * 2;
                    self.chr_banks[2] = bank;
                    self.chr_banks[3] = bank + 1;
                } else if select <= 5 {
                    self.chr_banks[select as usize + 2] = value as u16 % self.total_chr_banks;
                }
                assert(self.chr_banks@ =~= chr_banks_after_data(
                    old(self).chr_banks@,
                    old(self).bank_select,
                    value,
                    old(self).total_chr_banks,
                ));
            }
            self.update_bank_offsets();
        } else if address >= 0xA000 && address < 0xC000 {
            if address % 2 == 0 && self.mirroring_mode != MirroringMode::FourScreen {
                self.mirroring_mode = if value % 2 == 0 {
                    MirroringMode::Vertical
                } else {
                    MirroringMode::Horizontal
                };
            }
        }
    }
}

/// Every read below `$2000` lands inside the character memory, whatever was
/// written to the bank registers.
pub proof fn lemma_mmc3_chr_offset_in_range(chip: MMC3ChrChip, address: u16)
    requires
        chip.wf(),
        address < 0x2000,
    ensures
        0 <= chip.chr_offset(address) < chip.chr_data@.len(),
{
    let window = address as int / 0x400;
    assert(0 <= window < 8);
    let offsets = chr_offsets_of(chip.chr_banks@, chip.bank_mode);
    assert(chip.chr_bank_offsets[window] == offsets[window]);
    assert(chip.chr_banks[window] < chip.total_chr_banks);
    assert(chip.chr_banks[(window + 4) % 8] < chip.total_chr_banks);
}

/// The number of 1 KiB character banks of a cartridge: eight for each 8 KiB
/// of character ROM, or the eight of its character RAM.
pub open spec fn spec_mmc3_chr_banks(chr_rom_8kb_units: u8) -> u16 {
    if chr_rom_8kb_units == 0 {
        8
    } else {
        (chr_rom_8kb_units as u16 * 8) as u16
    }
}

/// The number of 1 KiB character banks of a cartridge: eight for each 8 KiB
/// of character ROM, or the eight of its character RAM.
pub fn mmc3_chr_banks(chr_rom_8kb_units: u8) -> (result: u16)
    ensures
        result == spec_mmc3_chr_banks(chr_rom_8kb_units),
{
    if chr_rom_8kb_units == 0 {
        8
    } else {
        (chr_rom_8kb_units as u16 * 8) as u16
    }
}

/// Whether the two buses are those of a freshly built MMC3 cartridge.
pub open spec fn mmc3_cartridge(
    prg_bus: CpuCartridgeAddressBus,
    chr_bus: PpuCartridgeAddressBus,
    header: CartridgeHeader,
    prg_rom: Seq<u8>,
    chr_rom: Option<Vec<u8>>,
) -> bool {
    &&& prg_bus matches CpuCartridgeAddressBus::MMC3(prg)
    &&& chr_bus matches PpuCartridgeAddressBus::MMC3(chr)
    &&& prg.wf()
    &&& prg.prg_rom@ == prg_rom
    &&& prg.prg_ram@ == zeroes(PRG_RAM_SIZE as nat)
    &&& prg.total_prg_banks == header.prg_rom_16kb_units * 2
    &&& prg.prg_banks@ == seq![
        0u16,
        1u16,
        (header.prg_rom_16kb_units * 2 - 2) as u16,
        (header.prg_rom_16kb_units * 2 - 1) as u16,
    ]
    &&& prg.bank_mode == PRGBankMode::LowBankSwappable
    &&& prg.bank_select == 0
    &&& chr.wf()
    &&& chr.chr_data@ == initial_chr(chr_rom)
    &&& chr.chr_is_ram == (chr_rom is None)
    &&& chr.total_chr_banks == spec_mmc3_chr_banks(header.chr_rom_8kb_units)
    &&& chr.ppu_vram@ == zeroes(VRAM_SIZE as nat)
    &&& chr.chr_banks@ == seq![0u16, 1u16, 2u16, 3u16, 4u16, 5u16, 6u16, 7u16]
    &&& chr.mirroring_mode == header.mirroring
    &&& chr.bank_mode == CHRBankMode::LowBank2KB
    &&& chr.bank_select == 0
}

/// The two buses of an MMC3 cartridge at power-on, with 8 KiB of program RAM.
pub fn from_header(prg_rom: Vec<u8>, chr_rom: Option<Vec<u8>>, header: CartridgeHeader) -> (built: (
    CpuCartridgeAddressBus,
    PpuCartridgeAddressBus,
    CartridgeHeader,
))
    requires
        image_matches(header, prg_rom@, chr_rom),
    ensures
        built.2 == header,
        mmc3_cartridge(built.0, built.1, header, prg_rom@, chr_rom),
{
    (
        CpuCartridgeAddressBus::MMC3(
            MMC3PrgChip::new(
                prg_rom,
                header.prg_rom_16kb_units as u16 * 2,
                Some(zeroed(PRG_RAM_SIZE)),
            ),
        ),
        PpuCartridgeAddressBus::MMC3(
            MMC3ChrChip::new(chr_rom, mmc3_chr_banks(header.chr_rom_8kb_units), header.mirroring),
        ),
        header,
    )
}

} // verus!
