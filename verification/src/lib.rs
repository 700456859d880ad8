//! Core of a cycle-stepped NES emulator: the 6502 CPU, the memory bus,
//! the picture unit and the cartridge mappers, with their contracts.
use vstd::prelude::*;

pub mod apu;
pub mod cartridge;
pub mod checksum;
pub mod cpu;
pub mod determinism;
pub mod frontend;
pub mod io;
pub mod mmu;
pub mod ppu;

verus! {

} // verus!
