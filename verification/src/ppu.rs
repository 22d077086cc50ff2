//! Picture unit: eight memory-mapped registers, two 1 KiB name-table pages,
//! 32 bytes of palette memory, 256 bytes of sprite memory, the v/t/x/w
//! scroll latches and a dot/scanline counter that raises the vertical-blank
//! interrupt once per frame.

use vstd::prelude::*;
use crate::lemma_mask_bounds;
use crate::wadd16;
use crate::wadd8;
use crate::ines_file::{Mirroring, Rom, RomV};

verus! {

pub struct PPU {
    /// Two 1 KiB name-table pages, flattened; page 1 starts at 1024.
    pub tbl_name: Vec<u8>,
    /// 32 bytes of palette memory.
    pub tbl_palette: Vec<u8>,
    /// Current video memory address (v).
    pub vram_addr: u16,
    /// Temporary video memory address (t).
    pub temp_addr: u16,
    /// Fine-X scroll (3 bits).
    pub fine_x: u8,
    /// First/second write toggle (w).
    pub write_toggle: bool,
    pub control: u8,
    pub mask: u8,
    pub status: u8,
    /// Buffered byte returned by delayed video memory reads.
    pub data_buffer: u8,
    /// Current scanline, -1 (pre-render) through 260.
    pub scanline: i16,
    /// Current dot within the scanline, 0 through 340.
    pub cycle: i16,
    /// Vertical-blank interrupt pending, to be consumed by the host loop.
    pub emitted_nmi: bool,
    /// Sprite memory address register.
    pub oam_addr: u8,
    /// 64 sprite descriptors of 4 bytes each.
    pub oam_data: Vec<u8>,
}

/// Mathematical image of the picture unit.
#[verifier::ext_equal]
pub ghost struct PpuV {
    pub name: Seq<u8>,
    pub palette: Seq<u8>,
    pub vram_addr: u16,
    pub temp_addr: u16,
    pub fine_x: u8,
    pub write_toggle: bool,
    pub control: u8,
    pub mask: u8,
    pub status: u8,
    pub data_buffer: u8,
    pub scanline: i16,
    pub cycle: i16,
    pub emitted_nmi: bool,
    pub oam_addr: u8,
    pub oam: Seq<u8>,
}

impl View for PPU {
    type V = PpuV;

    open spec fn view(&self) -> PpuV {
        PpuV {
            name: self.tbl_name@,
            palette: self.tbl_palette@,
            vram_addr: self.vram_addr,
            temp_addr: self.temp_addr,
            fine_x: self.fine_x,
            write_toggle: self.write_toggle,
            control: self.control,
            mask: self.mask,
            status: self.status,
            data_buffer: self.data_buffer,
            scanline: self.scanline,
            cycle: self.cycle,
            emitted_nmi: self.emitted_nmi,
            oam_addr: self.oam_addr,
            oam: self.oam_data@,
        }
    }
}

pub open spec fn ppu_wf(p: PpuV) -> bool {
    &&& p.name.len() == 2048
    &&& p.palette.len() == 32
    &&& p.oam.len() == 256
    &&& -1 <= p.scanline <= 260
    &&& 0 <= p.cycle <= 340
}

/// Palette slot a video address selects, with the mirrors of the transparent
/// entries folded onto 0x00/0x04/0x08/0x0C.
pub open spec fn palette_index(addr: u16) -> int {
    let p = addr & 0x001F;
    if p == 0x0010 {
        0x0000
    } else if p == 0x0014 {
        0x0004
    } else if p == 0x0018 {
        0x0008
    } else if p == 0x001C {
        0x000C
    } else {
        p as int
    }
}

/// Offset into the flattened name-table memory that a video address reaches
/// under the cartridge's mirroring arrangement.
pub open spec fn name_index(m: Mirroring, addr: u16) -> int {
    let masked = addr & 0x0FFF;
    let vram_index = masked & 0x03FF;
    let table = masked / 0x0400;
    let page: u16 = match m {
        Mirroring::Vertical => if table == 0 || table == 2 { 0 } else { 1 },
        Mirroring::Horizontal => if table == 0 || table == 1 { 0 } else { 1 },
    };
    page * 1024 + vram_index
}

/// Value of a read on the picture unit's own address space: pattern memory
/// below 0x2000, name tables below 0x3F00, palette above, the address masked
/// to 14 bits.
pub open spec fn ppu_read_spec(p: PpuV, rom: RomV, addr: u16) -> u8 {
    let a = addr & 0x3FFF;
    if a < 0x2000 {
        if a < rom.chr.len() {
            rom.chr[a as int]
        } else {
            0
        }
    } else if a < 0x3F00 {
        p.name[name_index(rom.mirroring, a)]
    } else {
        p.palette[palette_index(a)]
    }
}

/// State after a write on the picture unit's own address space; pattern
/// memory is read-only and writes to it are dropped.
pub open spec fn ppu_write_spec(p: PpuV, m: Mirroring, addr: u16, data: u8) -> PpuV {
    let a = addr & 0x3FFF;
    if a < 0x2000 {
        p
    } else if a < 0x3F00 {
        PpuV { name: p.name.update(name_index(m, a), data), ..p }
    } else {
        PpuV { palette: p.palette.update(palette_index(a), data), ..p }
    }
}

/// Dot/scanline counters after one tick: the dot wraps at 341 into the next
/// scanline, the scanline wraps at 261 back to the pre-render line.
pub open spec fn tick_counters(p: PpuV) -> PpuV {
    let q = PpuV { cycle: (p.cycle + 1) as i16, ..p };
    if q.cycle >= 341 {
        let r = PpuV { cycle: 0, scanline: (q.scanline + 1) as i16, ..q };
        if r.scanline >= 261 {
            PpuV { scanline: -1i16, ..r }
        } else {
            r
        }
    } else {
        q
    }
}

/// One tick of the picture unit: advance the counters, then clear the frame
/// flags at (-1, 1), raise vertical blank (and the interrupt, when enabled)
/// at (241, 1), and latch the sprite-zero hit at dot 2 of sprite zero's
/// scanline while rendering is fully enabled.
pub open spec fn tick_spec(p: PpuV) -> PpuV {
    let q = tick_counters(p);
    let q = if q.scanline == -1 && q.cycle == 1 {
        PpuV { status: q.status & !(1u8 << 7) & !(1u8 << 6), ..q }
    } else {
        q
    };
    let q = if q.scanline == 241 && q.cycle == 1 {
        let r = PpuV { status: q.status | (1u8 << 7), ..q };
        if r.control & 0x80 != 0 {
            PpuV { emitted_nmi: true, ..r }
        } else {
            r
        }
    } else {
        q
    };
    if (q.mask & 0x08 != 0) && (q.mask & 0x10 != 0) && q.scanline == q.oam[0] as i16
        && q.cycle == 2 {
        PpuV { status: q.status | (1u8 << 6), ..q }
    } else {
        q
    }
}

/// Result of a processor read of register `reg` (0..8): only STATUS and
/// PPU_DATA have side effects.
pub open spec fn reg_read_spec(p: PpuV, rom: RomV, reg: u16) -> (PpuV, u8) {
    if reg == 2 {
        let value = (p.status & 0xE0) | (p.data_buffer & 0x1F);
        (PpuV { status: p.status & !(1u8 << 7), write_toggle: false, ..p }, value)
    } else if reg == 4 {
        (p, p.oam[p.oam_addr as int])
    } else if reg == 7 {
        let value = if p.vram_addr >= 0x3F00 {
            ppu_read_spec(p, rom, p.vram_addr)
        } else {
            p.data_buffer
        };
        let refill = if p.vram_addr >= 0x3F00 {
            ppu_read_spec(p, rom, (p.vram_addr - 0x1000) as u16)
        } else {
            ppu_read_spec(p, rom, p.vram_addr)
        };
        let inc: u16 = if p.control & 0x04 == 0 { 1 } else { 32 };
        (PpuV { data_buffer: refill, vram_addr: wadd16(p.vram_addr, inc), ..p }, value)
    } else {
        (p, 0)
    }
}

/// State after a processor write of register `reg` (0..8).
pub open spec fn reg_write_spec(p: PpuV, m: Mirroring, reg: u16, data: u8) -> PpuV {
    if reg == 0 {
        let old_nmi = p.control & 0x80 != 0;
        let new_nmi = data & 0x80 != 0;
        let q = PpuV {
            control: data,
            temp_addr: (p.temp_addr & 0xF3FF) | (((data & 0x03) as u16) << 10),
            ..p
        };
        if (q.status & 0x80 != 0) && !old_nmi && new_nmi {
            PpuV { emitted_nmi: true, ..q }
        } else {
            q
        }
    } else if reg == 1 {
        PpuV { mask: data, ..p }
    } else if reg == 3 {
        PpuV { oam_addr: data, ..p }
    } else if reg == 4 {
        PpuV {
            oam: p.oam.update(p.oam_addr as int, data),
            oam_addr: wadd8(p.oam_addr, 1),
            ..p
        }
    } else if reg == 5 {
        if !p.write_toggle {
            PpuV {
                fine_x: data & 0x07,
                temp_addr: (p.temp_addr & 0xFFE0) | ((data as u16) >> 3),
                write_toggle: true,
                ..p
            }
        } else {
            let fine_y = ((data & 0x07) as u16) << 12;
            let coarse_y = ((data & 0xF8) as u16) << 2;
            PpuV {
                temp_addr: ((p.temp_addr & 0x8FFF) | fine_y) & 0xFC1F | coarse_y,
                write_toggle: false,
                ..p
            }
        }
    } else if reg == 6 {
        if !p.write_toggle {
            PpuV {
                temp_addr: (p.temp_addr & 0x00FF) | (((data & 0x3F) as u16) << 8),
                write_toggle: true,
                ..p
            }
        } else {
            let t = (p.temp_addr & 0xFF00) | (data as u16);
            PpuV { temp_addr: t, vram_addr: t, write_toggle: false, ..p }
        }
    } else if reg == 7 {
        let q = ppu_write_spec(p, m, p.vram_addr, data);
        let inc: u16 = if p.control & 0x04 == 0 { 1 } else { 32 };
        PpuV { vram_addr: wadd16(q.vram_addr, inc), ..q }
    } else {
        p
    }
}

/// The power-up state: all memories zero, all latches clear, the counters
/// at dot 0 of scanline 0.
pub open spec fn new_spec() -> PpuV {
    PpuV {
        name: Seq::new(2048, |i: int| 0u8),
        palette: Seq::new(32, |i: int| 0u8),
        vram_addr: 0,
        temp_addr: 0,
        fine_x: 0,
        write_toggle: false,
        control: 0,
        mask: 0,
        status: 0,
        data_buffer: 0,
        scanline: 0,
        cycle: 0,
        emitted_nmi: false,
        oam_addr: 0,
        oam: Seq::new(256, |i: int| 0u8),
    }
}

/// Palette aliasing: the transparent-color slots 0x3F10/14/18/1C are the
/// same storage as 0x3F00/04/08/0C, so reads through either address agree in
/// every state, whatever writes produced it.
pub proof fn lemma_palette_alias(p: PpuV, rom: RomV, k: u16)
    requires
        k == 0x10 || k == 0x14 || k == 0x18 || k == 0x1C,
    ensures
        ppu_read_spec(p, rom, (0x3F00 + k) as u16) == ppu_read_spec(
            p,
            rom,
            (0x3F00 + (k - 0x10)) as u16,
        ),
{
    assert({
        let a1 = (0x3F00 + k) as u16;
        let a2 = (0x3F00 + (k - 0x10)) as u16;
        &&& a1 & 0x3FFF == a1 && a1 >= 0x3F00
        &&& a2 & 0x3FFF == a2 && a2 >= 0x3F00
        &&& (a1 & 0x001F) == k
        &&& (a2 & 0x001F) == (k - 0x10) as u16
    }) by (bit_vector)
        requires
            k == 0x10 || k == 0x14 || k == 0x18 || k == 0x1C,
    ;
}

/// Name-table mirroring: under horizontal mirroring the pages at 0x2000 and
/// 0x2400 are one page, as are 0x2800 and 0x2C00; under vertical mirroring
/// 0x2000 pairs with 0x2800 and 0x2400 with 0x2C00.
pub proof fn lemma_nametable_mirroring(p: PpuV, rom: RomV, k: u16)
    requires
        k < 0x400,
    ensures
        rom.mirroring == Mirroring::Horizontal ==> ppu_read_spec(p, rom, (0x2000 + k) as u16)
            == ppu_read_spec(p, rom, (0x2400 + k) as u16) && ppu_read_spec(
            p,
            rom,
            (0x2800 + k) as u16,
        ) == ppu_read_spec(p, rom, (0x2C00 + k) as u16),
        rom.mirroring == Mirroring::Vertical ==> ppu_read_spec(p, rom, (0x2000 + k) as u16)
            == ppu_read_spec(p, rom, (0x2800 + k) as u16) && ppu_read_spec(
            p,
            rom,
            (0x2400 + k) as u16,
        ) == ppu_read_spec(p, rom, (0x2C00 + k) as u16),
{
    assert({
        let a0 = (0x2000 + k) as u16;
        let a1 = (0x2400 + k) as u16;
        let a2 = (0x2800 + k) as u16;
        let a3 = (0x2C00 + k) as u16;
        &&& a0 & 0x3FFF == a0 && 0x2000 <= a0 < 0x3F00
        &&& a1 & 0x3FFF == a1 && 0x2000 <= a1 < 0x3F00
        &&& a2 & 0x3FFF == a2 && 0x2000 <= a2 < 0x3F00
        &&& a3 & 0x3FFF == a3 && 0x2000 <= a3 < 0x3F00
        &&& (a0 & 0x0FFF) == k && (a0 & 0x0FFF) & 0x03FF == k && (a0 & 0x0FFF) / 0x0400 == 0
        &&& (a1 & 0x0FFF) == 0x400 + k && (a1 & 0x0FFF) & 0x03FF == k && (a1 & 0x0FFF) / 0x0400
            == 1
        &&& (a2 & 0x0FFF) == 0x800 + k && (a2 & 0x0FFF) & 0x03FF == k && (a2 & 0x0FFF) / 0x0400
            == 2
        &&& (a3 & 0x0FFF) == 0xC00 + k && (a3 & 0x0FFF) & 0x03FF == k && (a3 & 0x0FFF) / 0x0400
            == 3
    }) by (bit_vector)
        requires
            k < 0x400,
    ;
}

impl PPU {
    pub fn new() -> (r: PPU)
        ensures
            ppu_wf(r@),
            r@ == new_spec(),
    {
        let mut tbl_name: Vec<u8> = Vec::new();
        let mut i: usize = 0;
        while i < 2048
            invariant
                i <= 2048,
                tbl_name@ =~= Seq::new(i as nat, |j: int| 0u8),
            decreases 2048 - i,
        {
            tbl_name.push(0);
            i = i + 1;
        }
        let mut tbl_palette: Vec<u8> = Vec::new();
        let mut i: usize = 0;
        while i < 32
            invariant
                i <= 32,
                tbl_palette@ =~= Seq::new(i as nat, |j: int| 0u8),
            decreases 32 - i,
        {
            tbl_palette.push(0);
            i = i + 1;
        }
        let mut oam_data: Vec<u8> = Vec::new();
        let mut i: usize = 0;
        while i < 256
            invariant
                i <= 256,
                oam_data@ =~= Seq::new(i as nat, |j: int| 0u8),
            decreases 256 - i,
        {
            oam_data.push(0);
            i = i + 1;
        }
        let r = PPU {
            tbl_name,
            tbl_palette,
            vram_addr: 0,
            temp_addr: 0,
            fine_x: 0,
            write_toggle: false,
            control: 0,
            mask: 0,
            status: 0,
            data_buffer: 0,
            scanline: 0,
            cycle: 0,
            emitted_nmi: false,
            oam_addr: 0,
            oam_data,
        };
        proof {
            assert(r@ =~= new_spec());
        }
        r
    }

    /// Advance the picture unit by one dot.
    pub fn step(&mut self)
        requires
            ppu_wf(old(self)@),
        ensures
            final(self)@ == tick_spec(old(self)@),
            ppu_wf(final(self)@),
    {
        self.cycle = self.cycle + 1;
        if self.cycle >= 341 {
            self.cycle = 0;
            self.scanline = self.scanline + 1;
            if self.scanline >= 261 {
                self.scanline = -1;
            }
        }
        if self.scanline == -1 && self.cycle == 1 {
            self.status = self.status & !(1u8 << 7) & !(1u8 << 6);
        }
        if self.scanline == 241 && self.cycle == 1 {
            self.status = self.status | (1u8 << 7);
            if self.control & 0x80 != 0 {
                self.emitted_nmi = true;
            }
        }
        if (self.mask & 0x08 != 0) && (self.mask & 0x10 != 0)
            && self.scanline == self.oam_data[0] as i16 && self.cycle == 2 {
            self.status = self.status | (1u8 << 6);
        }
        proof {
            assert(self@ =~= tick_spec(old(self)@));
        }
    }

    /// Read on the picture unit's own address space.
    pub fn ppu_read(&self, addr: u16, rom: &Rom) -> (r: u8)
        requires
            ppu_wf(self@),
        ensures
            r == ppu_read_spec(self@, rom@, addr),
    {
        proof {
            lemma_mask_bounds(addr);
            lemma_mask_bounds(addr & 0x3FFF);
            lemma_mask_bounds((addr & 0x3FFF) & 0x0FFF);
        }
        let a = addr & 0x3FFF;
        if a < 0x2000 {
            if (a as usize) < rom.chr_rom.len() {
                rom.chr_rom[a as usize]
            } else {
                0
            }
        } else if a < 0x3F00 {
            let masked = a & 0x0FFF;
            let vram_index = masked & 0x03FF;
            let table = masked / 0x0400;
            let page: u16 = match rom.mirroring {
                Mirroring::Vertical => if table == 0 || table == 2 { 0 } else { 1 },
                Mirroring::Horizontal => if table == 0 || table == 1 { 0 } else { 1 },
            };
            self.tbl_name[(page * 1024 + vram_index) as usize]
        } else {
            let mut p = a & 0x001F;
            if p == 0x0010 { p = 0x0000; }
            if p == 0x0014 { p = 0x0004; }
            if p == 0x0018 { p = 0x0008; }
            if p == 0x001C { p = 0x000C; }
            self.tbl_palette[p as usize]
        }
    }

    /// Write on the picture unit's own address space.
    pub fn ppu_write(&mut self, addr: u16, data: u8, rom: &Rom)
        requires
            ppu_wf(old(self)@),
        ensures
            final(self)@ == ppu_write_spec(old(self)@, rom@.mirroring, addr, data),
            ppu_wf(final(self)@),
    {
        proof {
            lemma_mask_bounds(addr);
            lemma_mask_bounds(addr & 0x3FFF);
            lemma_mask_bounds((addr & 0x3FFF) & 0x0FFF);
        }
        let a = addr & 0x3FFF;
        if a < 0x2000 {
            // pattern memory is read-only for the cartridges in scope
        } else if a < 0x3F00 {
            let masked = a & 0x0FFF;
            let vram_index = masked & 0x03FF;
            let table = masked / 0x0400;
            let page: u16 = match rom.mirroring {
                Mirroring::Vertical => if table == 0 || table == 2 { 0 } else { 1 },
                Mirroring::Horizontal => if table == 0 || table == 1 { 0 } else { 1 },
            };
            self.tbl_name.set((page * 1024 + vram_index) as usize, data);
        } else {
            let mut p = a & 0x001F;
            if p == 0x0010 { p = 0x0000; }
            if p == 0x0014 { p = 0x0004; }
            if p == 0x0018 { p = 0x0008; }
            if p == 0x001C { p = 0x000C; }
            self.tbl_palette.set(p as usize, data);
        }
        proof {
            assert(self@ =~= ppu_write_spec(old(self)@, rom@.mirroring, addr, data));
        }
    }

    /// Processor-side read of register `reg` (0..8).
    ///
    /// Reading STATUS always leaves the vertical-blank bit clear and the
    /// write toggle false.
    pub fn cpu_read(&mut self, reg: u16, rom: &Rom) -> (r: u8)
        requires
            ppu_wf(old(self)@),
            reg < 8,
        ensures
            ({
                let (p2, v) = reg_read_spec(old(self)@, rom@, reg);
                final(self)@ == p2 && r == v
            }),
            ppu_wf(final(self)@),
            reg == 2 ==> final(self)@.status & (1u8 << 7) == 0 && !final(self)@.write_toggle,
    {
        let mut data: u8 = 0;
        if reg == 2 {
            data = (self.status & 0xE0) | (self.data_buffer & 0x1F);
            self.status = self.status & !(1u8 << 7);
            self.write_toggle = false;
            proof {
                assert(forall|s: u8| (s & !(1u8 << 7)) & (1u8 << 7) == 0) by (bit_vector);
            }
        } else if reg == 4 {
            data = self.oam_data[self.oam_addr as usize];
        } else if reg == 7 {
            if self.vram_addr >= 0x3F00 {
                data = self.ppu_read(self.vram_addr, rom);
                self.data_buffer = self.ppu_read(self.vram_addr - 0x1000, rom);
            } else {
                data = self.data_buffer;
                self.data_buffer = self.ppu_read(self.vram_addr, rom);
            }
            let inc: u16 = if self.control & 0x04 == 0 { 1 } else { 32 };
            self.vram_addr = self.vram_addr.wrapping_add(inc);
        }
        proof {
            assert(self@ =~= reg_read_spec(old(self)@, rom@, reg).0);
        }
        data
    }

    /// Processor-side write of register `reg` (0..8).
    pub fn cpu_write(&mut self, reg: u16, data: u8, rom: &Rom)
        requires
            ppu_wf(old(self)@),
            reg < 8,
        ensures
            final(self)@ == reg_write_spec(old(self)@, rom@.mirroring, reg, data),
            ppu_wf(final(self)@),
    {
        if reg == 0 {
            let old_nmi = self.control & 0x80 != 0;
            let new_nmi = data & 0x80 != 0;
            self.control = data;
            self.temp_addr = (self.temp_addr & 0xF3FF) | (((data & 0x03) as u16) << 10);
            if (self.status & 0x80 != 0) && !old_nmi && new_nmi {
                self.emitted_nmi = true;
            }
        } else if reg == 1 {
            self.mask = data;
        } else if reg == 3 {
            self.oam_addr = data;
        } else if reg == 4 {
            self.oam_data.set(self.oam_addr as usize, data);
            self.oam_addr = self.oam_addr.wrapping_add(1);
        } else if reg == 5 {
            if !self.write_toggle {
                self.fine_x = data & 0x07;
                self.temp_addr = (self.temp_addr & 0xFFE0) | ((data as u16) >> 3);
                self.write_toggle = true;
            } else {
                let fine_y = ((data & 0x07) as u16) << 12;
                let coarse_y = ((data & 0xF8) as u16) << 2;
                self.temp_addr = ((self.temp_addr & 0x8FFF) | fine_y) & 0xFC1F | coarse_y;
                self.write_toggle = false;
            }
        } else if reg == 6 {
            if !self.write_toggle {
                self.temp_addr = (self.temp_addr & 0x00FF) | (((data & 0x3F) as u16) << 8);
                self.write_toggle = true;
            } else {
                let t = (self.temp_addr & 0xFF00) | (data as u16);
                self.temp_addr = t;
                self.vram_addr = t;
                self.write_toggle = false;
            }
        } else if reg == 7 {
            let v = self.vram_addr;
            self.ppu_write(v, data, rom);
            let inc: u16 = if self.control & 0x04 == 0 { 1 } else { 32 };
            self.vram_addr = self.vram_addr.wrapping_add(inc);
        }
        proof {
            assert(self@ =~= reg_write_spec(old(self)@, rom@.mirroring, reg, data));
        }
    }
}

} // verus!
