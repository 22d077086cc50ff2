//! Bus scenarios: the mirror regions, sprite DMA, and the controller
//! ports' shift-register behaviour.

use nes_core::bus::Bus;
use nes_core::controller::{Controller, BUTTON_A, BUTTON_SELECT};
use nes_core::ines_file::Rom;

fn bus_with_prg(patches: &[(usize, u8)]) -> Bus {
    let mut image: Vec<u8> = vec![0x4E, 0x45, 0x53, 0x1A, 1, 1, 0, 0];
    image.resize(16, 0);
    let mut prg = vec![0u8; 16 * 1024];
    for &(off, v) in patches {
        prg[off] = v;
    }
    image.extend_from_slice(&prg);
    image.extend_from_slice(&vec![0u8; 8 * 1024]);
    Bus::new(Rom::new(&image).expect("valid cartridge"))
}

#[test]
fn work_ram_mirrors_every_2k() {
    let mut bus = bus_with_prg(&[]);
    bus.write(0x0005, 0x77);
    assert_eq!(bus.read(0x0805), 0x77);
    assert_eq!(bus.read(0x1005), 0x77);
    assert_eq!(bus.read(0x1805), 0x77);
    bus.write(0x1FFF, 0x31);
    assert_eq!(bus.read(0x07FF), 0x31);
}

#[test]
fn single_bank_program_mirrors() {
    let mut bus = bus_with_prg(&[(0x0010, 0x99)]);
    assert_eq!(bus.read(0x8010), 0x99);
    assert_eq!(bus.read(0xC010), 0x99);
    // Program space is read-only: the write is dropped.
    bus.write(0x8010, 0x11);
    assert_eq!(bus.read(0x8010), 0x99);
}

#[test]
fn unmapped_addresses_read_zero() {
    let mut bus = bus_with_prg(&[]);
    assert_eq!(bus.read(0x4000), 0);
    assert_eq!(bus.read(0x5123), 0);
    bus.write(0x5123, 0xFF); // dropped
    assert_eq!(bus.read(0x5123), 0);
}

#[test]
fn oam_dma_copies_a_page() {
    let mut bus = bus_with_prg(&[]);
    for i in 0..256u16 {
        bus.write(0x0200 + i, (i as u8).wrapping_mul(3));
    }
    bus.write(0x4014, 0x02);
    for i in 0..256usize {
        assert_eq!(bus.ppu.oam_data[i], (i as u8).wrapping_mul(3));
    }
}

#[test]
fn oam_dma_wraps_at_the_sprite_address() {
    let mut bus = bus_with_prg(&[]);
    for i in 0..256u16 {
        bus.write(0x0300 + i, i as u8);
    }
    bus.write(0x2003, 0x10); // OAM_ADDR = 0x10 through the register mirror
    bus.write(0x4014, 0x03);
    assert_eq!(bus.ppu.oam_data[0x10], 0);
    assert_eq!(bus.ppu.oam_data[0xFF], 0xEF);
    assert_eq!(bus.ppu.oam_data[0x0F], 0xFF); // wrapped around
}

#[test]
fn ppu_registers_mirror_every_eight_bytes() {
    let mut bus = bus_with_prg(&[]);
    bus.write(0x2001, 0x1E);
    assert_eq!(bus.ppu.mask, 0x1E);
    bus.write(0x3FF9, 0x18); // 0x3FF9 & 7 == 1
    assert_eq!(bus.ppu.mask, 0x18);
}

#[test]
fn controller_shift_sequence() {
    // Buttons A and Select pressed: 0b10100000. After strobing 1 then 0,
    // successive reads produce low bits 1,0,1,0,0,0,0,0 then all 1s.
    let mut c = Controller::new();
    c.set_button(BUTTON_A, true);
    c.set_button(BUTTON_SELECT, true);
    assert_eq!(c.buttons, 0b1010_0000);
    c.write(1);
    c.write(0);
    let expected = [1u8, 0, 1, 0, 0, 0, 0, 0];
    for e in expected {
        assert_eq!(c.read() & 1, e);
    }
    assert_eq!(c.read() & 1, 1);
    assert_eq!(c.read() & 1, 1);
    assert_eq!(c.read() & 1, 1);
}

#[test]
fn controller_read_has_bit6_high() {
    let mut c = Controller::new();
    c.write(1);
    c.write(0);
    let v = c.read();
    assert_eq!(v & 0x40, 0x40);
}

#[test]
fn controller_strobe_held_repeats_button_a() {
    let mut c = Controller::new();
    c.set_button(BUTTON_A, true);
    c.write(1);
    for _ in 0..5 {
        assert_eq!(c.read() & 1, 1);
    }
    c.set_button(BUTTON_A, false);
    assert_eq!(c.read() & 1, 0);
}

#[test]
fn set_button_is_idempotent() {
    let mut c = Controller::new();
    c.set_button(BUTTON_A, true);
    c.set_button(BUTTON_A, true);
    assert_eq!(c.buttons, BUTTON_A);
    c.set_button(BUTTON_A, false);
    c.set_button(BUTTON_A, false);
    assert_eq!(c.buttons, 0);
}

#[test]
fn strobe_write_reaches_both_pads() {
    let mut bus = bus_with_prg(&[]);
    bus.controller0.set_button(BUTTON_A, true);
    bus.controller1.set_button(BUTTON_SELECT, true);
    bus.write(0x4016, 1);
    bus.write(0x4016, 0);
    assert_eq!(bus.read(0x4016) & 1, 1); // pad 1 bit 7 (A)
    assert_eq!(bus.read(0x4017) & 1, 0); // pad 2 bit 7 (A not pressed)
    assert_eq!(bus.read(0x4017) & 1, 0); // B
    assert_eq!(bus.read(0x4017) & 1, 1); // Select
}
