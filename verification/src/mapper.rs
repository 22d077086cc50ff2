//! Cartridge address mapping. Only the trivial bankless mapper is in
//! scope: program space mirrors its single 16 KiB bank, pattern space is
//! mapped through unchanged.

use vstd::prelude::*;

verus! {

/// Address translation a cartridge mapper performs on each access.
pub trait Mapper {
    fn cpu_read_mapper_addr(&self, addr: u16) -> u16;

    fn cpu_write_mapper_addr(&self, addr: u16) -> u16;

    fn ppu_read_mapper_addr(&self, addr: u16) -> u16;

    fn ppu_write_mapper_addr(&self, addr: u16) -> u16;
}

/// The bankless mapper: one or two program banks, no switching.
#[derive(Clone, Copy, PartialEq, Eq, Structural, Debug)]
pub struct Mapper000 {
    pub npgr_banks: u8,
    pub nchr_banks: u8,
}

/// Program-space offset the bankless mapper selects: the 32 KiB window,
/// folded onto the single bank when only one is present.
pub open spec fn mapper000_cpu_map(npgr_banks: u8, addr: u16) -> u16 {
    let offset = addr & 0x7FFF;
    if npgr_banks == 1 {
        offset & 0x3FFF
    } else {
        offset
    }
}

/// Pattern-space offset: the 13-bit address unchanged.
pub open spec fn mapper000_ppu_map(addr: u16) -> u16 {
    addr & 0x1FFF
}

impl Mapper000 {
    pub fn new(npgr_banks: u8, nchr_banks: u8) -> (r: Mapper000)
        ensures
            r == (Mapper000 { npgr_banks, nchr_banks }),
    {
        Mapper000 { npgr_banks, nchr_banks }
    }

    pub fn cpu_map(&self, addr: u16) -> (r: u16)
        ensures
            r == mapper000_cpu_map(self.npgr_banks, addr),
    {
        let offset = addr & 0x7FFF;
        if self.npgr_banks == 1 {
            offset & 0x3FFF
        } else {
            offset
        }
    }

    pub fn ppu_map(&self, addr: u16) -> (r: u16)
        ensures
            r == mapper000_ppu_map(addr),
    {
        addr & 0x1FFF
    }
}

impl Mapper for Mapper000 {
    fn cpu_read_mapper_addr(&self, addr: u16) -> u16 {
        self.cpu_map(addr)
    }

    fn cpu_write_mapper_addr(&self, addr: u16) -> u16 {
        self.cpu_map(addr)
    }

    fn ppu_read_mapper_addr(&self, addr: u16) -> u16 {
        self.ppu_map(addr)
    }

    fn ppu_write_mapper_addr(&self, addr: u16) -> u16 {
        self.ppu_map(addr)
    }
}

} // verus!
