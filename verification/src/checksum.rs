//! The checksum of a frame, for comparing runs.
use vstd::prelude::*;
use crate::cpu::Cpu;

verus! {

/// The CRC-32 (IEEE 802.3) checksum of a sequence of bytes, as
/// `crc32fast::hash` computes it.
pub uninterp spec fn crc32_ieee(bytes: Seq<u8>) -> u32;

/// Calls `crc32fast::hash` on the bytes. The result is the CRC-32 of the
/// bytes: a function of the bytes alone, which the contract only names.
#[verifier::external_body]
fn crc32(bytes: &Vec<u8>) -> (checksum: u32)
    ensures
        checksum == crc32_ieee(bytes@),
{
    crc32fast::hash(bytes.as_slice())
}

/// Byte `place` of a packed pixel, least significant first: blue, green,
/// red, alpha.
pub open spec fn spec_pixel_byte(pixel: u32, place: usize) -> u8 {
    match place {
        0 => (pixel % 256) as u8,
        1 => ((pixel / 0x100) % 256) as u8,
        2 => ((pixel / 0x1_0000) % 256) as u8,
        _ => (pixel / 0x100_0000) as u8,
    }
}

/// Byte `place` of a packed pixel, least significant first: blue, green,
/// red, alpha.
pub fn pixel_byte(pixel: u32, place: usize) -> (result: u8)
    ensures
        result == spec_pixel_byte(pixel, place),
{
    match place {
        0 => (pixel % 256) as u8,
        1 => ((pixel / 0x100) % 256) as u8,
        2 => ((pixel / 0x1_0000) % 256) as u8,
        _ => (pixel / 0x100_0000) as u8,
    }
}

/// The bytes of a sequence of packed pixels, four to the pixel.
pub open spec fn pixel_bytes(pixels: Seq<u32>) -> Seq<u8> {
    Seq::new(4 * pixels.len(), |i: int| spec_pixel_byte(pixels[i / 4], (i % 4) as usize))
}

/// The bytes of a frame, four to the pixel, as a host blits them.
pub fn framebuffer_bytes(pixels: &Vec<u32>) -> (bytes: Vec<u8>)
    requires
        4 * pixels@.len() <= usize::MAX,
    ensures
        bytes@ == pixel_bytes(pixels@),
{
    let mut bytes: Vec<u8> = Vec::new();
    let mut i: usize = 0;
    while i < pixels.len()
        invariant
            0 <= i <= pixels@.len(),
            4 * pixels@.len() <= usize::MAX,
            bytes@.len() == 4 * i,
            forall|k: int| 0 <= k < 4 * i ==> bytes@[k] == #[trigger] pixel_bytes(pixels@)[k],
        decreases pixels@.len() - i,
    {
        let pixel = pixels[i];
        bytes.push(pixel_byte(pixel, 0));
        bytes.push(pixel_byte(pixel, 1));
        bytes.push(pixel_byte(pixel, 2));
        bytes.push(pixel_byte(pixel, 3));
        i += 1;
    }
    assert(bytes@ =~= pixel_bytes(pixels@));
    bytes
}

impl Cpu {
    /// The CRC-32 of the frame's bytes.
    pub fn framebuffer_crc32(&self) -> (checksum: u32)
        requires
            self.wf(),
        ensures
            checksum == crc32_ieee(pixel_bytes(self.mmu.ppu.framebuffer@)),
    {
        let bytes = framebuffer_bytes(self.get_framebuffer());
        crc32(&bytes)
    }
}

} // verus!
