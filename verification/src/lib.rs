//! Core of an 8-bit home-console emulator: a 6502-class processor, a picture
//! unit sharing memory with the processor through memory-mapped registers, a
//! bus enforcing the mirror regions and the sprite-DMA side effect, plus the
//! cartridge and controller models that the two depend on.
//!
//! Everything here is pure byte-level computation; the windowing host that
//! presents frames and polls the keyboard lives outside this crate.

pub mod bus;
pub mod console;
pub mod controller;
pub mod cpu;
pub mod ines_file;
pub mod mapper;
pub mod optable;
pub mod ppu;
pub mod render;

use vstd::prelude::*;

verus! {

/// The two failure kinds of the core.
///
/// `InvalidCartridge` is raised at load time when the cartridge image is not
/// a well-formed iNES file. `UnknownOpcode` is raised by the processor when
/// the byte fetched at `pc` is not one of the 151 legal opcodes; the
/// processor's state is unspecified afterwards.
#[derive(Clone, Copy, PartialEq, Eq, Structural, Debug)]
pub enum EmuError {
    InvalidCartridge,
    UnknownOpcode { opcode: u8, pc: u16 },
}

/// Shorthand for the wrapping arithmetic the hardware registers perform.
pub open spec fn wadd16(x: u16, y: u16) -> u16 {
    vstd::wrapping::u16_specs::wrapping_add(x, y)
}

pub open spec fn wadd8(x: u8, y: u8) -> u8 {
    vstd::wrapping::u8_specs::wrapping_add(x, y)
}

pub open spec fn wsub8(x: u8, y: u8) -> u8 {
    vstd::wrapping::u8_specs::wrapping_sub(x, y)
}

pub open spec fn wsub16(x: u16, y: u16) -> u16 {
    vstd::wrapping::u16_specs::wrapping_sub(x, y)
}

/// Range facts about the address masks the memory maps use; the default
/// solver treats `&` as opaque, so the bounds are discharged once here.
pub proof fn lemma_mask_bounds(a: u16)
    by (bit_vector)
    ensures
        a & 0x07FF < 0x800,
        a & 0x001F < 0x20,
        a & 0x0FFF < 0x1000,
        a & 0x03FF < 0x400,
        a & 0x0007 < 8,
        a & 0x3FFF < 0x4000,
        a & 0x00FF < 0x100,
        a < 0x800 ==> a & 0x07FF == a,
{
}

} // verus!
