//! Picture-unit scenarios: palette aliasing, name-table mirroring, the
//! status register's side effects, buffered data reads and the
//! vertical-blank interrupt.

use nes_core::ines_file::Rom;
use nes_core::ppu::PPU;

/// A one-bank cartridge with the requested mirroring flag (bit 0 of header
/// byte 6: set for vertical).
fn cart_mirrored(vertical: bool) -> Rom {
    let mut image: Vec<u8> = vec![0x4E, 0x45, 0x53, 0x1A, 1, 1, 0, 0];
    if vertical {
        image[6] = 0x01;
    }
    image.resize(16, 0);
    image.extend_from_slice(&vec![0u8; 16 * 1024]);
    image.extend_from_slice(&vec![0u8; 8 * 1024]);
    Rom::new(&image).expect("valid cartridge")
}

#[test]
fn palette_aliases_read_back_through_both_addresses() {
    let rom = cart_mirrored(false);
    let mut ppu = PPU::new();
    for (alias, base) in [(0x3F10u16, 0x3F00u16), (0x3F14, 0x3F04), (0x3F18, 0x3F08), (0x3F1C, 0x3F0C)] {
        let v = (alias & 0xFF) as u8;
        ppu.ppu_write(alias, v, &rom);
        assert_eq!(ppu.ppu_read(base, &rom), v);
        ppu.ppu_write(base, v ^ 0xFF, &rom);
        assert_eq!(ppu.ppu_read(alias, &rom), v ^ 0xFF);
    }
}

#[test]
fn horizontal_mirroring_pairs_pages() {
    let rom = cart_mirrored(false);
    let mut ppu = PPU::new();
    for k in [0u16, 1, 0x155, 0x3FE] {
        ppu.ppu_write(0x2000 + k, 0xAB, &rom);
        assert_eq!(ppu.ppu_read(0x2400 + k, &rom), 0xAB);
        ppu.ppu_write(0x2800 + k, 0xCD, &rom);
        assert_eq!(ppu.ppu_read(0x2C00 + k, &rom), 0xCD);
    }
}

#[test]
fn vertical_mirroring_pairs_pages() {
    let rom = cart_mirrored(true);
    let mut ppu = PPU::new();
    for k in [0u16, 7, 0x2AA, 0x3FF] {
        ppu.ppu_write(0x2000 + k, 0x11, &rom);
        assert_eq!(ppu.ppu_read(0x2800 + k, &rom), 0x11);
        ppu.ppu_write(0x2400 + k, 0x22, &rom);
        assert_eq!(ppu.ppu_read(0x2C00 + k, &rom), 0x22);
    }
}

#[test]
fn status_read_clears_vblank_and_toggle() {
    let rom = cart_mirrored(false);
    let mut ppu = PPU::new();
    ppu.status = 0xE0;
    ppu.cpu_write(5, 0x10, &rom); // first scroll write sets the toggle
    assert!(ppu.write_toggle);
    let v = ppu.cpu_read(2, &rom);
    assert_ne!(v & 0x80, 0); // the set bit was visible in the returned byte
    assert_eq!(ppu.status & 0x80, 0); // and is clear afterwards
    assert!(!ppu.write_toggle);
}

#[test]
fn data_reads_are_buffered_below_the_palette() {
    let rom = cart_mirrored(false);
    let mut ppu = PPU::new();
    // Write 0x55 at video address 0x2000 through the address/data registers.
    ppu.cpu_write(6, 0x20, &rom);
    ppu.cpu_write(6, 0x00, &rom);
    ppu.cpu_write(7, 0x55, &rom);
    // Point back and read: the first byte is the stale buffer, the second
    // the stored value.
    ppu.cpu_write(6, 0x20, &rom);
    ppu.cpu_write(6, 0x00, &rom);
    let first = ppu.cpu_read(7, &rom);
    let second = ppu.cpu_read(7, &rom);
    assert_eq!(first, 0x00);
    assert_eq!(second, 0x55);
}

#[test]
fn palette_reads_skip_the_buffer() {
    let rom = cart_mirrored(false);
    let mut ppu = PPU::new();
    ppu.cpu_write(6, 0x3F, &rom);
    ppu.cpu_write(6, 0x01, &rom);
    ppu.cpu_write(7, 0x2A, &rom); // palette[1] = 0x2A
    ppu.cpu_write(6, 0x3F, &rom);
    ppu.cpu_write(6, 0x01, &rom);
    assert_eq!(ppu.cpu_read(7, &rom), 0x2A); // returned directly
}

#[test]
fn vblank_interrupt_fires_once_at_241_1() {
    let rom = cart_mirrored(false);
    let mut ppu = PPU::new();
    ppu.cpu_write(0, 0x80, &rom); // enable the interrupt in CTRL bit 7
    let mut transitions = 0u32;
    let mut prev = ppu.emitted_nmi;
    for _ in 0..(241 * 341 + 1) {
        ppu.step();
        if !prev && ppu.emitted_nmi {
            transitions += 1;
        }
        prev = ppu.emitted_nmi;
    }
    assert_eq!(transitions, 1);
    assert!(ppu.emitted_nmi);
    let status = ppu.cpu_read(2, &rom);
    assert_ne!(status & 0x80, 0);
}

#[test]
fn vblank_clears_on_the_prerender_line() {
    let rom = cart_mirrored(false);
    let mut ppu = PPU::new();
    ppu.cpu_write(0, 0x80, &rom);
    // One whole frame: 262 scanlines of 341 dots ends back before the
    // pre-render clear, so run a little past it.
    for _ in 0..(262 * 341) {
        ppu.step();
    }
    // The counter has passed (-1, 1): vertical blank is clear again.
    assert_eq!(ppu.status & 0x80, 0);
}

#[test]
fn oam_data_writes_advance_the_address() {
    let rom = cart_mirrored(false);
    let mut ppu = PPU::new();
    ppu.cpu_write(3, 0x10, &rom); // OAM_ADDR = 0x10
    ppu.cpu_write(4, 0xAA, &rom);
    ppu.cpu_write(4, 0xBB, &rom);
    assert_eq!(ppu.oam_data[0x10], 0xAA);
    assert_eq!(ppu.oam_data[0x11], 0xBB);
    assert_eq!(ppu.oam_addr, 0x12);
    ppu.cpu_write(3, 0x10, &rom);
    assert_eq!(ppu.cpu_read(4, &rom), 0xAA); // reads do not advance
    assert_eq!(ppu.oam_addr, 0x10);
}

#[test]
fn pattern_reads_come_from_the_cartridge() {
    let mut image: Vec<u8> = vec![0x4E, 0x45, 0x53, 0x1A, 1, 1, 0, 0];
    image.resize(16, 0);
    image.extend_from_slice(&vec![0u8; 16 * 1024]);
    let mut chr = vec![0u8; 8 * 1024];
    chr[0x123] = 0x7E;
    image.extend_from_slice(&chr);
    let rom = Rom::new(&image).expect("valid cartridge");
    let ppu = PPU::new();
    assert_eq!(ppu.ppu_read(0x0123, &rom), 0x7E);
    // Pattern memory is read-only: a write is dropped.
    let mut ppu = ppu;
    ppu.ppu_write(0x0123, 0x00, &rom);
    assert_eq!(ppu.ppu_read(0x0123, &rom), 0x7E);
}

#[test]
fn sprite_zero_hit_latches_at_dot_two() {
    let rom = cart_mirrored(false);
    let mut ppu = PPU::new();
    ppu.cpu_write(1, 0x18, &rom); // MASK: background and sprites enabled
    ppu.cpu_write(3, 0x00, &rom);
    ppu.cpu_write(4, 10, &rom); // sprite 0 Y = 10
    assert_eq!(ppu.status & 0x40, 0);
    // Reach scanline 10, dot 2 from power-up at (0, 0).
    for _ in 0..(10 * 341 + 2) {
        ppu.step();
    }
    assert_ne!(ppu.status & 0x40, 0);
}

#[test]
fn address_register_takes_two_writes() {
    let rom = cart_mirrored(false);
    let mut ppu = PPU::new();
    ppu.cpu_write(6, 0x23, &rom);
    assert!(ppu.write_toggle);
    assert_eq!(ppu.vram_addr, 0); // not loaded yet
    ppu.cpu_write(6, 0x45, &rom);
    assert!(!ppu.write_toggle);
    assert_eq!(ppu.vram_addr, 0x2345);
    assert_eq!(ppu.temp_addr, 0x2345);
}

#[test]
fn scroll_register_splits_fine_and_coarse() {
    let rom = cart_mirrored(false);
    let mut ppu = PPU::new();
    ppu.cpu_write(5, 0x7D, &rom); // X scroll: coarse 0x0F, fine 5
    assert_eq!(ppu.fine_x, 5);
    assert_eq!(ppu.temp_addr & 0x001F, 0x000F);
    assert!(ppu.write_toggle);
    ppu.cpu_write(5, 0x5E, &rom); // Y scroll: coarse 0x0B, fine 6
    assert!(!ppu.write_toggle);
    assert_eq!((ppu.temp_addr >> 5) & 0x001F, 0x000B); // coarse Y
    assert_eq!((ppu.temp_addr >> 12) & 0x0007, 6); // fine Y
}

#[test]
fn data_address_increments_by_32_when_selected() {
    let rom = cart_mirrored(false);
    let mut ppu = PPU::new();
    ppu.cpu_write(0, 0x04, &rom); // CTRL bit 2: add 32 per access
    ppu.cpu_write(6, 0x20, &rom);
    ppu.cpu_write(6, 0x00, &rom);
    ppu.cpu_write(7, 0x01, &rom);
    assert_eq!(ppu.vram_addr, 0x2020);
    ppu.cpu_write(7, 0x02, &rom);
    assert_eq!(ppu.vram_addr, 0x2040);
    assert_eq!(ppu.ppu_read(0x2000, &rom), 0x01);
    assert_eq!(ppu.ppu_read(0x2020, &rom), 0x02);
}

#[test]
fn ctrl_enable_during_vblank_raises_interrupt() {
    let rom = cart_mirrored(false);
    let mut ppu = PPU::new();
    // Run into vertical blank with the interrupt disabled.
    for _ in 0..(241 * 341 + 1) {
        ppu.step();
    }
    assert!(!ppu.emitted_nmi);
    assert_ne!(ppu.status & 0x80, 0);
    // Enabling it mid-blank raises the pending flag at once.
    ppu.cpu_write(0, 0x80, &rom);
    assert!(ppu.emitted_nmi);
}
