//! Loading a cartridge from the bytes of an image: sixteen bytes of header,
//! then the program ROM, then the character ROM.
use vstd::prelude::*;
use vstd::slice::{slice_subrange, slice_to_vec};
use crate::cartridge::mappers::{
    CHR_BANK_SIZE, PRG_BANK_SIZE, banked_cartridge, BankSwitching, image_matches,
};
use crate::cartridge::mappers::cnrom::{cnrom_chr_banks, spec_cnrom_chr_banks};
use crate::cartridge::mappers::mmc1::mmc1_cartridge;
use crate::cartridge::mappers::mmc3::mmc3_cartridge;
use crate::cartridge::{
    CartridgeError, CartridgeErrorKind, CartridgeHeader, CpuCartridgeAddressBus,
    PpuCartridgeAddressBus,
};
use crate::cartridge::{mapper_of, spec_mapper_of, mirroring_of_flags, spec_mirroring_of_flags};

verus! {

/// Length of the header of an image.
pub const HEADER_SIZE: usize = 0x10;

/// Whether the image begins with the bytes `N`, `E`, `S`, `$1A`.
pub open spec fn has_magic(bytes: Seq<u8>) -> bool {
    bytes[0] == 0x4E && bytes[1] == 0x45 && bytes[2] == 0x53 && bytes[3] == 0x1A
}

/// The header that the image declares. Meaningful for images of at least
/// sixteen bytes.
pub open spec fn header_of(bytes: Seq<u8>) -> CartridgeHeader {
    CartridgeHeader {
        prg_rom_16kb_units: bytes[4],
        chr_rom_8kb_units: bytes[5],
        mapper: spec_mapper_of(bytes[6], bytes[7]),
        mirroring: spec_mirroring_of_flags(bytes[6]),
        has_ram: (bytes[6] / 2) % 2 == 1,
    }
}

/// Where the program ROM ends in the image.
pub open spec fn prg_rom_end(bytes: Seq<u8>) -> int {
    HEADER_SIZE + bytes[4] * PRG_BANK_SIZE
}

/// Where the character ROM ends in the image.
pub open spec fn chr_rom_end(bytes: Seq<u8>) -> int {
    prg_rom_end(bytes) + bytes[5] * CHR_BANK_SIZE
}

/// Whether a mapper number is one that this library implements.
pub open spec fn spec_mapper_supported(mapper: u8) -> bool {
    mapper == 0 || mapper == 1 || mapper == 2 || mapper == 3 || mapper == 4 || mapper == 94
}

/// Whether a mapper number is one that this library implements.
pub fn mapper_supported(mapper: u8) -> (result: bool)
    ensures
        result == spec_mapper_supported(mapper),
{
    mapper == 0 || mapper == 1 || mapper == 2 || mapper == 3 || mapper == 4 || mapper == 94
}

/// Why the image cannot be loaded, if it cannot. The format is checked
/// first: the length of the header, the magic bytes, the presence of
/// program ROM, the declared length. The mapper is checked last.
pub open spec fn load_error(bytes: Seq<u8>) -> Option<CartridgeErrorKind> {
    if bytes.len() < HEADER_SIZE || !has_magic(bytes) || bytes[4] == 0 || bytes.len()
        < chr_rom_end(bytes) {
        Some(CartridgeErrorKind::CartridgeFormat)
    } else if !spec_mapper_supported(header_of(bytes).mapper) {
        Some(CartridgeErrorKind::MapperUnsupported)
    } else {
        None
    }
}

/// The program ROM of an image.
pub open spec fn prg_rom_of(bytes: Seq<u8>) -> Seq<u8> {
    bytes.subrange(HEADER_SIZE as int, prg_rom_end(bytes))
}

/// Whether `chr_rom` is the character ROM of the image, or `None` where it
/// has none.
pub open spec fn is_chr_rom_of(chr_rom: Option<Vec<u8>>, bytes: Seq<u8>) -> bool {
    if bytes[5] == 0 {
        chr_rom is None
    } else {
        chr_rom is Some && chr_rom->0@ == bytes.subrange(prg_rom_end(bytes), chr_rom_end(bytes))
    }
}

/// Whether the buses are those that the image's mapper builds at power-on
/// from the image's program ROM and character ROM.
pub open spec fn loaded(
    bytes: Seq<u8>,
    prg_bus: CpuCartridgeAddressBus,
    chr_bus: PpuCartridgeAddressBus,
    header: CartridgeHeader,
) -> bool {
    &&& header == header_of(bytes)
    &&& exists|chr_rom: Option<Vec<u8>>| #[trigger]
        is_chr_rom_of(chr_rom, bytes) && (if header.mapper == 0 {
            banked_cartridge(
                prg_bus,
                chr_bus,
                header,
                prg_rom_of(bytes),
                chr_rom,
                BankSwitching::Fixed,
                header.has_ram,
                1,
            )
        } else if header.mapper == 1 {
            mmc1_cartridge(prg_bus, chr_bus, header, prg_rom_of(bytes), chr_rom)
        } else if header.mapper == 3 {
            banked_cartridge(
                prg_bus,
                chr_bus,
                header,
                prg_rom_of(bytes),
                chr_rom,
                BankSwitching::Fixed,
                header.has_ram,
                spec_cnrom_chr_banks(header.chr_rom_8kb_units),
            )
        } else if header.mapper == 4 {
            mmc3_cartridge(prg_bus, chr_bus, header, prg_rom_of(bytes), chr_rom)
        } else {
            banked_cartridge(
                prg_bus,
                chr_bus,
                header,
                prg_rom_of(bytes),
                chr_rom,
                BankSwitching::UxRom,
                false,
                1,
            )
        })
}

/// The message for an image whose declared ROM does not fit in it, made by
/// `format!`. Nothing is claimed of the text.
#[verifier::external_body]
fn size_message(prg_rom_16kb_units: u8, chr_rom_8kb_units: u8, length: usize) -> String {
    format!(
        "Invalid cartridge image, header specified {:x} prg rom units and {:x} chr rom units but total length was {:x}",
        prg_rom_16kb_units,
        chr_rom_8kb_units,
        length
    )
}

/// The message for a mapper that is not implemented, made by `format!`.
/// Nothing is claimed of the text.
#[verifier::external_body]
fn mapper_message(mapper: u8) -> String {
    format!("Mapper {:02X} not yet implemented", mapper)
}

/// A format error with the given message.
fn format_error(message: String) -> (error: CartridgeError)
    ensures
        error.kind == CartridgeErrorKind::CartridgeFormat,
        error.message == message,
{
    CartridgeError { kind: CartridgeErrorKind::CartridgeFormat, message }
}

impl CartridgeError {
    /// The error for an image whose bytes could not be read, with the
    /// reason that the reader gave.
    pub fn io(message: String) -> (error: CartridgeError)
        ensures
            error.kind == CartridgeErrorKind::CartridgeIO,
            error.message == message,
    {
        CartridgeError { kind: CartridgeErrorKind::CartridgeIO, message }
    }
}

/// Builds the two buses of a cartridge from the bytes of its image.
///
/// Fails with `CartridgeFormat` on an image that is shorter than its
/// header, does not begin with the magic bytes, declares no program ROM or
/// is shorter than the ROM it declares, and with `MapperUnsupported` on a
/// well-formed image of a mapper other than 0, 1, 2, 3, 4 and 94.
pub fn from_bytes(bytes: &Vec<u8>) -> (result: Result<
    (CpuCartridgeAddressBus, PpuCartridgeAddressBus, CartridgeHeader),
    CartridgeError,
>)
    ensures
        match result {
            Ok((prg_bus, chr_bus, header)) => {
                &&& load_error(bytes@) is None
                &&& prg_bus.wf()
                &&& chr_bus.wf()
                &&& loaded(bytes@, prg_bus, chr_bus, header)
            },
            Err(error) => load_error(bytes@) == Some(error.kind),
        },
{
    if bytes.len() < HEADER_SIZE {
        return Err(format_error("Invalid cartridge image, header < 16 bytes".to_string()));
    }
    if bytes[0] != 0x4E || bytes[1] != 0x45 || bytes[2] != 0x53 || bytes[3] != 0x1A {
        return Err(
            format_error("Invalid cartridge image, it does not begin with NES<1A>".to_string()),
        );
    }
    let header = CartridgeHeader::new(bytes[4], bytes[5], bytes[6], bytes[7]);
    if header.prg_rom_16kb_units == 0 {
        return Err(format_error("Invalid cartridge image, it holds no program ROM".to_string()));
    }
    let prg_rom_start = HEADER_SIZE;
    let prg_rom_end = prg_rom_start + header.prg_rom_16kb_units as usize * PRG_BANK_SIZE;
    let chr_rom_end = prg_rom_end + header.chr_rom_8kb_units as usize * CHR_BANK_SIZE;
    if bytes.len() < chr_rom_end {
        return Err(
            format_error(
                size_message(header.prg_rom_16kb_units, header.chr_rom_8kb_units, bytes.len()),
            ),
        );
    }
    if !mapper_supported(header.mapper) {
        return Err(
            CartridgeError {
                kind: CartridgeErrorKind::MapperUnsupported,
                message: mapper_message(header.mapper),
            },
        );
    }
    let prg_rom = slice_to_vec(slice_subrange(bytes.as_slice(), prg_rom_start, prg_rom_end));
    let chr_rom = if header.chr_rom_8kb_units == 0 {
        None
    } else {
        Some(slice_to_vec(slice_subrange(bytes.as_slice(), prg_rom_end, chr_rom_end)))
    };
    assert(image_matches(header, prg_rom@, chr_rom));
    assert(is_chr_rom_of(chr_rom, bytes@));
    if header.mapper == 0 {
        Ok(crate::cartridge::mappers::nrom::from_header(prg_rom, chr_rom, header))
    } else if header.mapper == 1 {
        Ok(crate::cartridge::mappers::mmc1::from_header(prg_rom, chr_rom, header))
    } else if header.mapper == 3 {
        Ok(crate::cartridge::mappers::cnrom::from_header(prg_rom, chr_rom, header))
    } else if header.mapper == 4 {
        Ok(crate::cartridge::mappers::mmc3::from_header(prg_rom, chr_rom, header))
    } else {
        Ok(crate::cartridge::mappers::uxrom::from_header(prg_rom, chr_rom, header))
    }
}

} // verus!
