//! Processor-side bus: routes 16-bit addresses to work RAM (mirrored every
//! 2 KiB), the picture unit's registers (mirrored every 8 bytes), the
//! controller ports, the sprite-DMA trigger and cartridge program space.

use vstd::prelude::*;
use crate::lemma_mask_bounds;
use crate::controller::{self, Controller};
use crate::ines_file::{Rom, RomV, rom_wf};
use crate::ppu::{self, PPU, PpuV, ppu_wf};

verus! {

pub struct Bus {
    /// 2 KiB of work RAM.
    pub ram: Vec<u8>,
    pub rom: Rom,
    pub ppu: PPU,
    pub controller0: Controller,
    pub controller1: Controller,
}

/// Mathematical image of everything the bus routes to.
#[verifier::ext_equal]
pub ghost struct BusV {
    pub ram: Seq<u8>,
    pub rom: RomV,
    pub ppu: PpuV,
    pub c0: Controller,
    pub c1: Controller,
}

impl View for Bus {
    type V = BusV;

    open spec fn view(&self) -> BusV {
        BusV {
            ram: self.ram@,
            rom: self.rom@,
            ppu: self.ppu@,
            c0: self.controller0,
            c1: self.controller1,
        }
    }
}

pub open spec fn bus_wf(b: BusV) -> bool {
    &&& b.ram.len() == 0x800
    &&& rom_wf(b.rom)
    &&& ppu_wf(b.ppu)
}

/// Value and successor state of a processor read. Reads of the picture
/// unit's registers and of the controller ports have side effects; every
/// other read leaves the state alone, and unmapped addresses read 0.
pub open spec fn bus_read_spec(b: BusV, addr: u16) -> (BusV, u8) {
    if addr < 0x2000 {
        (b, b.ram[(addr & 0x07FF) as int])
    } else if addr < 0x4000 {
        let (p2, v) = ppu::reg_read_spec(b.ppu, b.rom, addr & 0x0007);
        (BusV { ppu: p2, ..b }, v)
    } else if addr == 0x4016 {
        (BusV { c0: controller::read_next_spec(b.c0), ..b }, controller::read_value_spec(b.c0))
    } else if addr == 0x4017 {
        (BusV { c1: controller::read_next_spec(b.c1), ..b }, controller::read_value_spec(b.c1))
    } else if addr >= 0x8000 {
        (b, b.rom.prg[(addr - 0x8000) % b.rom.prg.len() as int])
    } else {
        (b, 0)
    }
}

/// State after the sprite DMA triggered by a write to 0x4014 has copied the
/// first `n` bytes of page `start` into sprite memory, starting at the
/// sprite address register and wrapping within the 256 bytes.
pub open spec fn dma_spec(b: BusV, start: u16, n: int) -> BusV
    decreases n,
{
    if n <= 0 {
        b
    } else {
        let prev = dma_spec(b, start, n - 1);
        let (b2, byte) = bus_read_spec(prev, (start + (n - 1)) as u16);
        BusV {
            ppu: PpuV {
                oam: b2.ppu.oam.update((b2.ppu.oam_addr + (n - 1)) % 256, byte),
                ..b2.ppu
            },
            ..b2
        }
    }
}

/// State after a processor write. Writes to cartridge program space and to
/// unmapped addresses are dropped.
pub open spec fn bus_write_spec(b: BusV, addr: u16, data: u8) -> BusV {
    if addr < 0x2000 {
        BusV { ram: b.ram.update((addr & 0x07FF) as int, data), ..b }
    } else if addr < 0x4000 {
        BusV { ppu: ppu::reg_write_spec(b.ppu, b.rom.mirroring, addr & 0x0007, data), ..b }
    } else if addr == 0x4014 {
        dma_spec(b, (data as u16) << 8, 256)
    } else if addr == 0x4016 {
        BusV {
            c0: controller::write_spec(b.c0, data),
            c1: controller::write_spec(b.c1, data),
            ..b
        }
    } else {
        b
    }
}

/// A page base `d << 8` never exceeds 0xFF00, so every DMA source address
/// fits in 16 bits.
pub proof fn lemma_page_base(d: u8)
    by (bit_vector)
    ensures
        (d as u16) << 8 <= 0xFF00,
{
}

impl Bus {
    /// A freshly powered-up bus around one cartridge: zeroed RAM, the
    /// picture unit at dot 0 of scanline 0, idle controllers.
    pub fn new(rom: Rom) -> (r: Bus)
        requires
            rom_wf(rom@),
        ensures
            bus_wf(r@),
            r@.rom == rom@,
            r@.ram =~= Seq::new(0x800, |i: int| 0u8),
            r@.ppu == ppu::new_spec(),
            r@.c0 == (Controller { buttons: 0, index: 0, strobe: 0 }),
            r@.c1 == (Controller { buttons: 0, index: 0, strobe: 0 }),
    {
        let mut ram: Vec<u8> = Vec::new();
        let mut i: usize = 0;
        while i < 0x800
            invariant
                i <= 0x800,
                ram@ =~= Seq::new(i as nat, |j: int| 0u8),
            decreases 0x800 - i,
        {
            ram.push(0);
            i = i + 1;
        }
        Bus {
            ram,
            rom,
            ppu: PPU::new(),
            controller0: Controller::new(),
            controller1: Controller::new(),
        }
    }

    /// Processor-side read.
    pub fn read(&mut self, addr: u16) -> (r: u8)
        requires
            bus_wf(old(self)@),
        ensures
            ({
                let (b2, v) = bus_read_spec(old(self)@, addr);
                final(self)@ == b2 && r == v
            }),
            bus_wf(final(self)@),
    {
        proof {
            lemma_mask_bounds(addr);
        }
        let r: u8;
        if addr < 0x2000 {
            r = self.ram[(addr & 0x07FF) as usize];
        } else if addr < 0x4000 {
            r = self.ppu.cpu_read(addr & 0x0007, &self.rom);
        } else if addr == 0x4016 {
            r = self.controller0.read();
        } else if addr == 0x4017 {
            r = self.controller1.read();
        } else if addr >= 0x8000 {
            let offset = (addr - 0x8000) as usize;
            r = self.rom.prg_rom[offset % self.rom.prg_rom.len()];
        } else {
            r = 0;
        }
        proof {
            assert(self@ =~= bus_read_spec(old(self)@, addr).0);
        }
        r
    }

    /// Processor-side write.
    pub fn write(&mut self, addr: u16, data: u8)
        requires
            bus_wf(old(self)@),
        ensures
            final(self)@ == bus_write_spec(old(self)@, addr, data),
            bus_wf(final(self)@),
    {
        proof {
            lemma_mask_bounds(addr);
        }
        if addr < 0x2000 {
            self.ram.set((addr & 0x07FF) as usize, data);
        } else if addr < 0x4000 {
            self.ppu.cpu_write(addr & 0x0007, data, &self.rom);
        } else if addr == 0x4014 {
            proof {
                lemma_page_base(data);
            }
            let start = (data as u16) << 8;
            let mut i: usize = 0;
            while i < 256
                invariant
                    i <= 256,
                    bus_wf(self@),
                    self@ == dma_spec(old(self)@, start, i as int),
                    start <= 0xFF00,
                decreases 256 - i,
            {
                let byte = self.read(start + i as u16);
                let oa = self.ppu.oam_addr as usize;
                self.ppu.oam_data.set((oa + i) % 256, byte);
                i = i + 1;
                proof {
                    assert(self@ =~= dma_spec(old(self)@, start, i as int));
                }
            }
        } else if addr == 0x4016 {
            self.controller0.write(data);
            self.controller1.write(data);
        }
        proof {
            assert(self@ =~= bus_write_spec(old(self)@, addr, data));
        }
    }
}

} // verus!
