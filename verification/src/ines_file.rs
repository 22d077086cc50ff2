//! Cartridge model and iNES image parsing.
//!
//! A cartridge is an immutable container of program bytes (16 KiB units),
//! pattern bytes (8 KiB units) and a mirroring arrangement. The iNES layout
//! is a 16-byte header, an optional 512-byte trainer, the program banks and
//! then the pattern banks; header bytes 0..4 must spell the iNES signature.

use vstd::prelude::*;
use crate::EmuError;

verus! {

/// Name-table arrangement selected by the cartridge wiring.
#[derive(Clone, Copy, PartialEq, Eq, Structural, Debug)]
pub enum Mirroring {
    Horizontal,
    Vertical,
}

/// Immutable cartridge contents, read-only to the core.
#[derive(Debug)]
pub struct Rom {
    pub prg_rom: Vec<u8>,
    pub chr_rom: Vec<u8>,
    pub mirroring: Mirroring,
}

/// Mathematical image of a cartridge.
#[verifier::ext_equal]
pub ghost struct RomV {
    pub prg: Seq<u8>,
    pub chr: Seq<u8>,
    pub mirroring: Mirroring,
}

impl View for Rom {
    type V = RomV;

    open spec fn view(&self) -> RomV {
        RomV { prg: self.prg_rom@, chr: self.chr_rom@, mirroring: self.mirroring }
    }
}

/// A loadable cartridge: one or two 16 KiB program banks (the only mapper in
/// scope), pattern memory in whole 8 KiB banks.
pub open spec fn rom_wf(r: RomV) -> bool {
    &&& (r.prg.len() == 0x4000 || r.prg.len() == 0x8000)
    &&& r.chr.len() % 0x2000 == 0
    &&& r.chr.len() <= 0x2000 * 255
}

/// Whether the image begins with the iNES signature bytes.
pub open spec fn ines_tag_ok(d: Seq<u8>) -> bool {
    &&& d.len() >= 16
    &&& d[0] == 0x4E
    &&& d[1] == 0x45
    &&& d[2] == 0x53
    &&& d[3] == 0x1A
}

/// The cartridge an iNES image denotes, or `None` when the signature is
/// absent or the sizes are inconsistent (no whole program bank, a bank count
/// outside the bankless mapper, or fewer bytes than the header promises).
pub open spec fn parse_ines_spec(d: Seq<u8>) -> Option<RomV> {
    if !ines_tag_ok(d) {
        None
    } else if !(d[4] == 1 || d[4] == 2) {
        None
    } else {
        let trainer = if d[6] & 0x04 != 0 { 512int } else { 0int };
        let prg_len = d[4] * 0x4000;
        let chr_len = d[5] * 0x2000;
        if d.len() < 16 + trainer + prg_len + chr_len {
            None
        } else {
            let prg_start = 16 + trainer;
            let chr_start = prg_start + prg_len;
            Some(RomV {
                prg: d.subrange(prg_start, prg_start + prg_len),
                chr: d.subrange(chr_start, chr_start + chr_len),
                mirroring: if d[6] & 0x01 != 0 { Mirroring::Vertical } else { Mirroring::Horizontal },
            })
        }
    }
}

/// Copy `len` bytes of `data` starting at `start` into a fresh vector.
fn copy_range(data: &Vec<u8>, start: usize, len: usize) -> (r: Vec<u8>)
    requires
        start + len <= data.len(),
    ensures
        r@ == data@.subrange(start as int, start as int + len as int),
{
    let mut out: Vec<u8> = Vec::new();
    let mut i: usize = 0;
    while i < len
        invariant
            i <= len,
            start + len <= data.len(),
            out@ =~= data@.subrange(start as int, start as int + i as int),
        decreases len - i,
    {
        out.push(data[start + i]);
        i = i + 1;
    }
    proof {
        assert(out@ =~= data@.subrange(start as int, start as int + len as int));
    }
    out
}

impl Rom {
    /// Parse an iNES image already read into memory.
    ///
    /// Returns the cartridge exactly when `parse_ines_spec` accepts the
    /// bytes, and `InvalidCartridge` otherwise.
    pub fn new(data: &Vec<u8>) -> (r: Result<Rom, EmuError>)
        ensures
            r matches Ok(rom) ==> parse_ines_spec(data@) == Some(rom@) && rom_wf(rom@),
            r matches Err(e) ==> e == EmuError::InvalidCartridge && parse_ines_spec(data@) is None,
    {
        if data.len() < 16 {
            return Err(EmuError::InvalidCartridge);
        }
        if !(data[0] == 0x4E && data[1] == 0x45 && data[2] == 0x53 && data[3] == 0x1A) {
            return Err(EmuError::InvalidCartridge);
        }
        let prg_units = data[4];
        if !(prg_units == 1 || prg_units == 2) {
            return Err(EmuError::InvalidCartridge);
        }
        let chr_units = data[5];
        let flags6 = data[6];
        let trainer: usize = if flags6 & 0x04 != 0 { 512 } else { 0 };
        let prg_len: usize = (prg_units as usize) * 0x4000;
        let chr_len: usize = (chr_units as usize) * 0x2000;
        let prg_start: usize = 16 + trainer;
        let chr_start: usize = prg_start + prg_len;
        if data.len() < chr_start + chr_len {
            return Err(EmuError::InvalidCartridge);
        }
        let prg_rom = copy_range(data, prg_start, prg_len);
        let chr_rom = copy_range(data, chr_start, chr_len);
        let mirroring = if flags6 & 0x01 != 0 { Mirroring::Vertical } else { Mirroring::Horizontal };
        let rom = Rom { prg_rom, chr_rom, mirroring };
        proof {
            assert(rom@ =~= parse_ines_spec(data@)->Some_0);
        }
        Ok(rom)
    }
}

} // verus!
