//! Frame rendering: the fixed 64-entry master palette, pattern-table
//! dumps, and the frame-granular renderer that composes the background tile
//! grid with the 64 sprites.

use vstd::prelude::*;
use crate::ines_file::{Rom, RomV};
use crate::ppu::{PPU, PpuV, ppu_read_spec, ppu_wf};

verus! {

/// One output pixel, a 24-bit color.
#[derive(Clone, Copy, PartialEq, Eq, Structural, Debug)]
pub struct Rgb {
    pub r: u8,
    pub g: u8,
    pub b: u8,
}

/// The fixed 64-entry master palette, from hardware measurements; the index
/// is taken modulo 64.
pub open spec fn master_palette(idx: u8) -> Rgb {
    match idx & 0x3F {
        0 => (Rgb { r: 84, g: 84, b: 84 }),
        1 => (Rgb { r: 0, g: 30, b: 116 }),
        2 => (Rgb { r: 8, g: 16, b: 144 }),
        3 => (Rgb { r: 48, g: 0, b: 136 }),
        4 => (Rgb { r: 68, g: 0, b: 100 }),
        5 => (Rgb { r: 92, g: 0, b: 48 }),
        6 => (Rgb { r: 84, g: 4, b: 0 }),
        7 => (Rgb { r: 68, g: 24, b: 0 }),
        8 => (Rgb { r: 32, g: 42, b: 0 }),
        9 => (Rgb { r: 8, g: 58, b: 0 }),
        10 => (Rgb { r: 0, g: 64, b: 0 }),
        11 => (Rgb { r: 0, g: 60, b: 0 }),
        12 => (Rgb { r: 0, g: 50, b: 60 }),
        13 => (Rgb { r: 0, g: 0, b: 0 }),
        14 => (Rgb { r: 0, g: 0, b: 0 }),
        15 => (Rgb { r: 0, g: 0, b: 0 }),
        16 => (Rgb { r: 152, g: 150, b: 152 }),
        17 => (Rgb { r: 0, g: 90, b: 180 }),
        18 => (Rgb { r: 50, g: 78, b: 180 }),
        19 => (Rgb { r: 100, g: 60, b: 172 }),
        20 => (Rgb { r: 138, g: 44, b: 140 }),
        21 => (Rgb { r: 164, g: 30, b: 80 }),
        22 => (Rgb { r: 160, g: 44, b: 4 }),
        23 => (Rgb { r: 138, g: 70, b: 0 }),
        24 => (Rgb { r: 88, g: 104, b: 0 }),
        25 => (Rgb { r: 32, g: 120, b: 0 }),
        26 => (Rgb { r: 0, g: 128, b: 0 }),
        27 => (Rgb { r: 0, g: 124, b: 40 }),
        28 => (Rgb { r: 0, g: 110, b: 120 }),
        29 => (Rgb { r: 0, g: 0, b: 0 }),
        30 => (Rgb { r: 0, g: 0, b: 0 }),
        31 => (Rgb { r: 0, g: 0, b: 0 }),
        32 => (Rgb { r: 236, g: 238, b: 236 }),
        33 => (Rgb { r: 0, g: 156, b: 236 }),
        34 => (Rgb { r: 98, g: 140, b: 236 }),
        35 => (Rgb { r: 160, g: 112, b: 236 }),
        36 => (Rgb { r: 212, g: 92, b: 204 }),
        37 => (Rgb { r: 236, g: 82, b: 120 }),
        38 => (Rgb { r: 236, g: 94, b: 0 }),
        39 => (Rgb { r: 212, g: 134, b: 0 }),
        40 => (Rgb { r: 152, g: 180, b: 0 }),
        41 => (Rgb { r: 80, g: 200, b: 0 }),
        42 => (Rgb { r: 48, g: 216, b: 0 }),
        43 => (Rgb { r: 48, g: 208, b: 70 }),
        44 => (Rgb { r: 48, g: 180, b: 200 }),
        45 => (Rgb { r: 72, g: 72, b: 72 }),
        46 => (Rgb { r: 0, g: 0, b: 0 }),
        47 => (Rgb { r: 0, g: 0, b: 0 }),
        48 => (Rgb { r: 236, g: 238, b: 236 }),
        49 => (Rgb { r: 168, g: 204, b: 236 }),
        50 => (Rgb { r: 188, g: 188, b: 236 }),
        51 => (Rgb { r: 212, g: 178, b: 236 }),
        52 => (Rgb { r: 236, g: 174, b: 236 }),
        53 => (Rgb { r: 236, g: 174, b: 192 }),
        54 => (Rgb { r: 236, g: 180, b: 160 }),
        55 => (Rgb { r: 228, g: 196, b: 144 }),
        56 => (Rgb { r: 204, g: 210, b: 120 }),
        57 => (Rgb { r: 180, g: 222, b: 120 }),
        58 => (Rgb { r: 168, g: 230, b: 140 }),
        59 => (Rgb { r: 168, g: 220, b: 184 }),
        60 => (Rgb { r: 168, g: 204, b: 220 }),
        61 => (Rgb { r: 160, g: 162, b: 160 }),
        62 => (Rgb { r: 0, g: 0, b: 0 }),
        _ => (Rgb { r: 0, g: 0, b: 0 }),
    }
}

/// Color of one master-palette entry.
pub fn get_color_from_palette(palette_indx: u8) -> (r: Rgb)
    ensures
        r == master_palette(palette_indx),
{
    match palette_indx & 0x3F {
            0 => (Rgb { r: 84, g: 84, b: 84 }),
            1 => (Rgb { r: 0, g: 30, b: 116 }),
            2 => (Rgb { r: 8, g: 16, b: 144 }),
            3 => (Rgb { r: 48, g: 0, b: 136 }),
            4 => (Rgb { r: 68, g: 0, b: 100 }),
            5 => (Rgb { r: 92, g: 0, b: 48 }),
            6 => (Rgb { r: 84, g: 4, b: 0 }),
            7 => (Rgb { r: 68, g: 24, b: 0 }),
            8 => (Rgb { r: 32, g: 42, b: 0 }),
            9 => (Rgb { r: 8, g: 58, b: 0 }),
            10 => (Rgb { r: 0, g: 64, b: 0 }),
            11 => (Rgb { r: 0, g: 60, b: 0 }),
            12 => (Rgb { r: 0, g: 50, b: 60 }),
            13 => (Rgb { r: 0, g: 0, b: 0 }),
            14 => (Rgb { r: 0, g: 0, b: 0 }),
            15 => (Rgb { r: 0, g: 0, b: 0 }),
            16 => (Rgb { r: 152, g: 150, b: 152 }),
            17 => (Rgb { r: 0, g: 90, b: 180 }),
            18 => (Rgb { r: 50, g: 78, b: 180 }),
            19 => (Rgb { r: 100, g: 60, b: 172 }),
            20 => (Rgb { r: 138, g: 44, b: 140 }),
            21 => (Rgb { r: 164, g: 30, b: 80 }),
            22 => (Rgb { r: 160, g: 44, b: 4 }),
            23 => (Rgb { r: 138, g: 70, b: 0 }),
            24 => (Rgb { r: 88, g: 104, b: 0 }),
            25 => (Rgb { r: 32, g: 120, b: 0 }),
            26 => (Rgb { r: 0, g: 128, b: 0 }),
            27 => (Rgb { r: 0, g: 124, b: 40 }),
            28 => (Rgb { r: 0, g: 110, b: 120 }),
            29 => (Rgb { r: 0, g: 0, b: 0 }),
            30 => (Rgb { r: 0, g: 0, b: 0 }),
            31 => (Rgb { r: 0, g: 0, b: 0 }),
            32 => (Rgb { r: 236, g: 238, b: 236 }),
            33 => (Rgb { r: 0, g: 156, b: 236 }),
            34 => (Rgb { r: 98, g: 140, b: 236 }),
            35 => (Rgb { r: 160, g: 112, b: 236 }),
            36 => (Rgb { r: 212, g: 92, b: 204 }),
            37 => (Rgb { r: 236, g: 82, b: 120 }),
            38 => (Rgb { r: 236, g: 94, b: 0 }),
            39 => (Rgb { r: 212, g: 134, b: 0 }),
            40 => (Rgb { r: 152, g: 180, b: 0 }),
            41 => (Rgb { r: 80, g: 200, b: 0 }),
            42 => (Rgb { r: 48, g: 216, b: 0 }),
            43 => (Rgb { r: 48, g: 208, b: 70 }),
            44 => (Rgb { r: 48, g: 180, b: 200 }),
            45 => (Rgb { r: 72, g: 72, b: 72 }),
            46 => (Rgb { r: 0, g: 0, b: 0 }),
            47 => (Rgb { r: 0, g: 0, b: 0 }),
            48 => (Rgb { r: 236, g: 238, b: 236 }),
            49 => (Rgb { r: 168, g: 204, b: 236 }),
            50 => (Rgb { r: 188, g: 188, b: 236 }),
            51 => (Rgb { r: 212, g: 178, b: 236 }),
            52 => (Rgb { r: 236, g: 174, b: 236 }),
            53 => (Rgb { r: 236, g: 174, b: 192 }),
            54 => (Rgb { r: 236, g: 180, b: 160 }),
            55 => (Rgb { r: 228, g: 196, b: 144 }),
            56 => (Rgb { r: 204, g: 210, b: 120 }),
            57 => (Rgb { r: 180, g: 222, b: 120 }),
            58 => (Rgb { r: 168, g: 230, b: 140 }),
            59 => (Rgb { r: 168, g: 220, b: 184 }),
            60 => (Rgb { r: 168, g: 204, b: 220 }),
            61 => (Rgb { r: 160, g: 162, b: 160 }),
            62 => (Rgb { r: 0, g: 0, b: 0 }),
            _ => (Rgb { r: 0, g: 0, b: 0 }),
    }
}

/// Background color at pixel (x, y) of the frame-granular renderer: the
/// tile index comes from the name table CTRL bit 0 selects, the two
/// bit-planes from the pattern bank CTRL bit 4 selects, and the palette
/// quadrant from the attribute table; pixel value 0 is transparent and
/// resolves to the backdrop entry at 0x3F00.
pub open spec fn bg_pixel(p: PpuV, rom: RomV, x: int, y: int) -> Rgb {
    let tx = x / 8;
    let ty = y / 8;
    let col = x % 8;
    let row = y % 8;
    let nt_base = 0x2000 + ((p.control & 0x01) as int) * 0x400;
    let tile = ppu_read_spec(p, rom, (nt_base + ty * 32 + tx) as u16);
    let bank = (((p.control >> 4) & 1) as int) * 0x1000;
    let tile_start = bank + tile * 16;
    let attr = ppu_read_spec(p, rom, (nt_base + 0x3C0 + (ty / 4) * 8 + (tx / 4)) as u16);
    let shift = ((((ty % 4) / 2) * 2 + ((tx % 4) / 2)) * 2) as u8;
    let pal = (attr >> shift) & 0x03;
    let p0 = ppu_read_spec(p, rom, (tile_start + row) as u16);
    let p1 = ppu_read_spec(p, rom, (tile_start + row + 8) as u16);
    let sh = (7 - col) as u8;
    let b0 = (p0 >> sh) & 1;
    let b1 = (p1 >> sh) & 1;
    let px = (b1 << 1) | b0;
    let color_idx = if px == 0 {
        ppu_read_spec(p, rom, 0x3F00)
    } else {
        ppu_read_spec(p, rom, (0x3F00 + pal * 4 + px) as u16)
    };
    master_palette(color_idx)
}

/// Color sprite `i` contributes at (x, y): `None` where the sprite does not
/// cover the pixel or its pixel value is transparent. Attribute bits select
/// the sprite palette and the horizontal and vertical flips; the pattern
/// bank comes from CTRL bit 3.
pub open spec fn sprite_pix(p: PpuV, rom: RomV, i: int, x: int, y: int) -> Option<Rgb> {
    let sy = p.oam[4 * i] as int;
    let tile = p.oam[4 * i + 1];
    let attr = p.oam[4 * i + 2];
    let sx = p.oam[4 * i + 3] as int;
    if sy <= y < sy + 8 && sx <= x < sx + 8 {
        let row = y - sy;
        let col = x - sx;
        let srow = if attr & 0x80 != 0 { 7 - row } else { row };
        let scol = if attr & 0x40 != 0 { 7 - col } else { col };
        let bank = if p.control & 0x08 != 0 { 0x1000int } else { 0int };
        let tile_start = bank + tile * 16;
        let p0 = ppu_read_spec(p, rom, (tile_start + srow) as u16);
        let p1 = ppu_read_spec(p, rom, (tile_start + srow + 8) as u16);
        let sh = (7 - scol) as u8;
        let b0 = (p0 >> sh) & 1;
        let b1 = (p1 >> sh) & 1;
        let px = (b1 << 1) | b0;
        if px == 0 {
            None
        } else {
            Some(
                master_palette(
                    ppu_read_spec(p, rom, (0x3F10 + ((attr & 0x03) as int) * 4 + px) as u16),
                ),
            )
        }
    } else {
        None
    }
}

/// First opaque sprite among indices [i, 64): lower-indexed sprites stand
/// in front of higher-indexed ones.
pub open spec fn composite_from(p: PpuV, rom: RomV, i: int, x: int, y: int) -> Option<Rgb>
    decreases 64 - i,
{
    if i >= 64 {
        None
    } else {
        match sprite_pix(p, rom, i, x, y) {
            Some(c) => Some(c),
            None => composite_from(p, rom, i + 1, x, y),
        }
    }
}

/// The renderer's pixel at (x, y): the frontmost opaque sprite, else the
/// background.
pub open spec fn frame_pixel(p: PpuV, rom: RomV, x: int, y: int) -> Rgb {
    match composite_from(p, rom, 0, x, y) {
        Some(c) => c,
        None => bg_pixel(p, rom, x, y),
    }
}

/// Pixel `j` of a pattern-table dump: 256 tiles of 8x8 pixels, tile-major,
/// drawn through palette `palette_idx`; a pixel value 0 whose palette entry
/// is 0 falls back to the light color 0x30 so empty tiles stay visible.
pub open spec fn pattern_pixel(p: PpuV, rom: RomV, table_idx: u8, palette_idx: u8, j: int) -> Rgb {
    let tile = j / 64;
    let row = (j % 64) / 8;
    let col = j % 8;
    let tile_addr = (table_idx as int) * 0x1000 + tile * 16;
    let p0 = ppu_read_spec(p, rom, (tile_addr + row) as u16);
    let p1 = ppu_read_spec(p, rom, (tile_addr + row + 8) as u16);
    let sh = (7 - col) as u8;
    let b0 = (p0 >> sh) & 1;
    let b1 = (p1 >> sh) & 1;
    let px = (b1 << 1) | b0;
    let color_idx = ppu_read_spec(p, rom, (0x3F00 + (palette_idx as int) * 4 + px) as u16);
    let color_idx = if color_idx == 0 && px > 0 {
        0x30u8
    } else {
        color_idx
    };
    master_palette(color_idx)
}

/// The frontmost opaque sprite color at (x, y), scanning the sprites in
/// priority order.
fn sprite_scan(p: &PPU, rom: &Rom, x: usize, y: usize) -> (r: Option<Rgb>)
    requires
        ppu_wf(p@),
        x < 256,
        y < 240,
    ensures
        r == composite_from(p@, rom@, 0, x as int, y as int),
{
    let mut i: usize = 0;
    while i < 64
        invariant
            ppu_wf(p@),
            x < 256,
            y < 240,
            i <= 64,
            composite_from(p@, rom@, 0, x as int, y as int) == composite_from(
                p@,
                rom@,
                i as int,
                x as int,
                y as int,
            ),
        decreases 64 - i,
    {
        let sy = p.oam_data[4 * i] as usize;
        let tile = p.oam_data[4 * i + 1];
        let attr = p.oam_data[4 * i + 2];
        let sx = p.oam_data[4 * i + 3] as usize;
        if sy <= y && y < sy + 8 && sx <= x && x < sx + 8 {
            let row = y - sy;
            let col = x - sx;
            let srow = if attr & 0x80 != 0 {
                7 - row
            } else {
                row
            };
            let scol = if attr & 0x40 != 0 {
                7 - col
            } else {
                col
            };
            let bank: usize = if p.control & 0x08 != 0 {
                0x1000
            } else {
                0
            };
            let tile_start = bank + (tile as usize) * 16;
            let p0 = p.ppu_read((tile_start + srow) as u16, rom);
            let p1 = p.ppu_read((tile_start + srow + 8) as u16, rom);
            let sh = (7 - scol) as u8;
            let b0 = (p0 >> sh) & 1;
            let b1 = (p1 >> sh) & 1;
            let px = (b1 << 1) | b0;
            if px != 0 {
                let color_idx = p.ppu_read(
                    (0x3F10 + ((attr & 0x03) as usize) * 4 + (px as usize)) as u16,
                    rom,
                );
                return Some(get_color_from_palette(color_idx));
            }
        }
        i = i + 1;
    }
    None
}

/// Render one 256x240 frame, row-major: for each pixel the frontmost
/// opaque sprite, else the background tile grid.
pub fn render_frame(p: &PPU, rom: &Rom) -> (fb: Vec<Rgb>)
    requires
        ppu_wf(p@),
    ensures
        fb@.len() == 61440,
        forall|j: int|
            0 <= j < 61440 ==> #[trigger] fb@[j] == frame_pixel(p@, rom@, j % 256, j / 256),
{
    let mut fb: Vec<Rgb> = Vec::new();
    let mut j: usize = 0;
    while j < 61440
        invariant
            ppu_wf(p@),
            j <= 61440,
            fb@.len() == j,
            forall|k: int|
                0 <= k < j ==> #[trigger] fb@[k] == frame_pixel(p@, rom@, k % 256, k / 256),
        decreases 61440 - j,
    {
        let x = j % 256;
        let y = j / 256;
        let color = match sprite_scan(p, rom, x, y) {
            Some(c) => c,
            None => {
                let tx = x / 8;
                let ty = y / 8;
                let col = x % 8;
                let row = y % 8;
                let nt_base: usize = 0x2000 + ((p.control & 0x01) as usize) * 0x400;
                let tile = p.ppu_read((nt_base + ty * 32 + tx) as u16, rom);
                let bank: usize = (((p.control >> 4) & 1) as usize) * 0x1000;
                let tile_start = bank + (tile as usize) * 16;
                let attr = p.ppu_read((nt_base + 0x3C0 + (ty / 4) * 8 + (tx / 4)) as u16, rom);
                let shift = ((((ty % 4) / 2) * 2 + ((tx % 4) / 2)) * 2) as u8;
                let pal = (attr >> shift) & 0x03;
                let p0 = p.ppu_read((tile_start + row) as u16, rom);
                let p1 = p.ppu_read((tile_start + row + 8) as u16, rom);
                let sh = (7 - col) as u8;
                let b0 = (p0 >> sh) & 1;
                let b1 = (p1 >> sh) & 1;
                let px = (b1 << 1) | b0;
                let color_idx = if px == 0 {
                    p.ppu_read(0x3F00, rom)
                } else {
                    p.ppu_read((0x3F00 + (pal as usize) * 4 + (px as usize)) as u16, rom)
                };
                get_color_from_palette(color_idx)
            }
        };
        fb.push(color);
        j = j + 1;
    }
    fb
}

impl PPU {
    /// Dump one 16x16-tile pattern table as a 128x128 image in tile-major
    /// order, colored through the chosen background palette.
    pub fn get_pattern_table(&self, rom: &Rom, table_idx: u8, palette_idx: u8) -> (fb: Vec<Rgb>)
        requires
            ppu_wf(self@),
            palette_idx < 8,
        ensures
            fb@.len() == 16384,
            forall|j: int|
                0 <= j < 16384 ==> #[trigger] fb@[j] == pattern_pixel(
                    self@,
                    rom@,
                    table_idx,
                    palette_idx,
                    j,
                ),
    {
        let mut fb: Vec<Rgb> = Vec::new();
        let mut j: usize = 0;
        while j < 16384
            invariant
                ppu_wf(self@),
                palette_idx < 8,
                j <= 16384,
                fb@.len() == j,
                forall|k: int|
                    0 <= k < j ==> #[trigger] fb@[k] == pattern_pixel(
                        self@,
                        rom@,
                        table_idx,
                        palette_idx,
                        k,
                    ),
            decreases 16384 - j,
        {
            let tile = j / 64;
            let row = (j % 64) / 8;
            let col = j % 8;
            let tile_addr = (table_idx as usize) * 0x1000 + tile * 16;
            let p0 = self.ppu_read((tile_addr + row) as u16, rom);
            let p1 = self.ppu_read((tile_addr + row + 8) as u16, rom);
            let sh = (7 - col) as u8;
            let b0 = (p0 >> sh) & 1;
            let b1 = (p1 >> sh) & 1;
            let px = (b1 << 1) | b0;
            let mut color_idx = self.ppu_read(
                (0x3F00 + (palette_idx as usize) * 4 + (px as usize)) as u16,
                rom,
            );
            if color_idx == 0 && px > 0 {
                color_idx = 0x30;
            }
            fb.push(get_color_from_palette(color_idx));
            j = j + 1;
        }
        fb
    }
}

} // verus!
