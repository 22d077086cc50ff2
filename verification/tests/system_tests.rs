//! Cartridge parsing, the mapper, the renderer and whole-console frames.

use nes_core::bus::Bus;
use nes_core::console::Console;
use nes_core::cpu::CPU;
use nes_core::ines_file::{Mirroring, Rom};
use nes_core::mapper::Mapper000;
use nes_core::ppu::PPU;
use nes_core::render::{get_color_from_palette, render_frame, Rgb};
use nes_core::EmuError;

fn image_with(prg_units: u8, chr_units: u8, flags6: u8) -> Vec<u8> {
    let mut image: Vec<u8> = vec![0x4E, 0x45, 0x53, 0x1A, prg_units, chr_units, flags6, 0];
    image.resize(16, 0);
    image.extend_from_slice(&vec![0u8; prg_units as usize * 16 * 1024]);
    image.extend_from_slice(&vec![0u8; chr_units as usize * 8 * 1024]);
    image
}

#[test]
fn cartridge_parses_sizes_and_mirroring() {
    let rom = Rom::new(&image_with(2, 1, 0x01)).expect("valid cartridge");
    assert_eq!(rom.prg_rom.len(), 32 * 1024);
    assert_eq!(rom.chr_rom.len(), 8 * 1024);
    assert_eq!(rom.mirroring, Mirroring::Vertical);
    let rom = Rom::new(&image_with(1, 1, 0x00)).expect("valid cartridge");
    assert_eq!(rom.mirroring, Mirroring::Horizontal);
}

#[test]
fn cartridge_with_trainer_skips_it() {
    let mut image: Vec<u8> = vec![0x4E, 0x45, 0x53, 0x1A, 1, 0, 0x04, 0];
    image.resize(16, 0);
    image.extend_from_slice(&vec![0xEEu8; 512]); // trainer
    let mut prg = vec![0u8; 16 * 1024];
    prg[0] = 0x42;
    image.extend_from_slice(&prg);
    let rom = Rom::new(&image).expect("valid cartridge");
    assert_eq!(rom.prg_rom[0], 0x42);
    assert_eq!(rom.chr_rom.len(), 0);
}

#[test]
fn bad_signature_is_invalid() {
    let mut image = image_with(1, 1, 0);
    image[0] = 0x4D;
    assert!(matches!(Rom::new(&image), Err(EmuError::InvalidCartridge)));
}

#[test]
fn truncated_image_is_invalid() {
    let mut image = image_with(1, 1, 0);
    image.truncate(image.len() - 1);
    assert!(matches!(Rom::new(&image), Err(EmuError::InvalidCartridge)));
}

#[test]
fn short_header_is_invalid() {
    let image: Vec<u8> = vec![0x4E, 0x45, 0x53];
    assert!(matches!(Rom::new(&image), Err(EmuError::InvalidCartridge)));
}

#[test]
fn unsupported_bank_count_is_invalid() {
    let image = image_with(3, 1, 0);
    assert!(matches!(Rom::new(&image), Err(EmuError::InvalidCartridge)));
}

#[test]
fn mapper000_folds_a_single_bank() {
    let one = Mapper000::new(1, 1);
    assert_eq!(one.cpu_map(0xC123), 0x0123);
    assert_eq!(one.cpu_map(0x8123), 0x0123);
    let two = Mapper000::new(2, 1);
    assert_eq!(two.cpu_map(0xC123), 0x4123);
    assert_eq!(two.cpu_map(0x8123), 0x0123);
    assert_eq!(one.ppu_map(0x1FFF), 0x1FFF);
}

#[test]
fn master_palette_exact_colors() {
    assert_eq!(get_color_from_palette(0x00), Rgb { r: 84, g: 84, b: 84 });
    assert_eq!(get_color_from_palette(0x30), Rgb { r: 236, g: 238, b: 236 });
    assert_eq!(get_color_from_palette(0x3F), Rgb { r: 0, g: 0, b: 0 });
    // The index is taken modulo 64.
    assert_eq!(get_color_from_palette(0x40), get_color_from_palette(0x00));
    assert_eq!(get_color_from_palette(0xFF), get_color_from_palette(0x3F));
}

#[test]
fn blank_frame_renders_the_backdrop() {
    let rom = Rom::new(&image_with(1, 1, 0)).expect("valid cartridge");
    let ppu = PPU::new();
    let fb = render_frame(&ppu, &rom);
    assert_eq!(fb.len(), 240 * 256);
    // Empty pattern memory and a zero palette: every pixel is master
    // palette entry 0.
    let backdrop = get_color_from_palette(0);
    assert!(fb.iter().all(|&p| p == backdrop));
}

#[test]
fn sprite_pixels_overlay_the_background() {
    let mut image = image_with(1, 0, 0);
    // One-bank cartridge with 8 KiB of pattern memory: tile 1 fully opaque
    // (plane 0 all ones).
    let mut chr = vec![0u8; 8 * 1024];
    for row in 0..8 {
        chr[16 + row] = 0xFF;
    }
    image[5] = 1;
    image.extend_from_slice(&chr);
    let rom = Rom::new(&image).expect("valid cartridge");
    let mut ppu = PPU::new();
    // Sprite 0 at (10, 20) with tile 1, palette 0.
    ppu.oam_data[0] = 20; // Y
    ppu.oam_data[1] = 1; // tile
    ppu.oam_data[2] = 0; // attributes
    ppu.oam_data[3] = 10; // X
    // Sprite palette 4 entry 1 picks master color 0x16.
    ppu.ppu_write(0x3F11, 0x16, &rom);
    let fb = render_frame(&ppu, &rom);
    let sprite_color = get_color_from_palette(0x16);
    let backdrop = get_color_from_palette(0);
    assert_eq!(fb[20 * 256 + 10], sprite_color);
    assert_eq!(fb[20 * 256 + 17], sprite_color);
    assert_eq!(fb[20 * 256 + 18], backdrop);
    assert_eq!(fb[19 * 256 + 10], backdrop);
}

#[test]
fn pattern_table_dump_has_16384_pixels() {
    let rom = Rom::new(&image_with(1, 1, 0)).expect("valid cartridge");
    let ppu = PPU::new();
    let dump = ppu.get_pattern_table(&rom, 0, 0);
    assert_eq!(dump.len(), 128 * 128);
    assert!(dump.iter().all(|&p| p == get_color_from_palette(0)));
}

#[test]
fn run_frame_spends_the_cycle_budget() {
    // Program: JMP to itself at 0x8000; reset vector points there.
    let mut image = image_with(1, 1, 0);
    let prg_start = 16;
    image[prg_start] = 0x4C; // JMP $8000
    image[prg_start + 1] = 0x00;
    image[prg_start + 2] = 0x80;
    image[prg_start + 0x3FFC] = 0x00;
    image[prg_start + 0x3FFD] = 0x80;
    let rom = Rom::new(&image).expect("valid cartridge");
    let mut console = Console::new(rom);
    console.reset();
    let before = console.cpu.cycles;
    let fb = console.run_frame().expect("no illegal opcode");
    assert_eq!(fb.len(), 240 * 256);
    assert!(console.cpu.cycles >= before + 29780);
}

#[test]
fn run_frame_reports_illegal_opcodes() {
    // Reset vector points at a program of zero bytes... 0x00 is BRK, which
    // is legal; patch an illegal byte at the entry instead.
    let mut image = image_with(1, 1, 0);
    let prg_start = 16;
    image[prg_start] = 0x02; // not a legal opcode
    image[prg_start + 0x3FFC] = 0x00;
    image[prg_start + 0x3FFD] = 0x80;
    let rom = Rom::new(&image).expect("valid cartridge");
    let mut console = Console::new(rom);
    console.reset();
    let r = console.run_frame();
    assert_eq!(r.unwrap_err(), EmuError::UnknownOpcode { opcode: 0x02, pc: 0x8000 });
}

#[test]
fn console_vblank_raises_nmi_during_a_frame() {
    // Enable the interrupt at entry (LDA #$80; STA $2000; spin), then run a
    // frame: the vertical-blank interrupt must have pushed the processor to
    // the interrupt vector at least once, observable through the stack
    // pointer having moved or the vector having run. Keep it simple: after
    // one frame the picture unit has passed (241,1) and raised the flag,
    // which run_frame consumed and delivered.
    let mut image = image_with(1, 1, 0);
    let p = 16;
    image[p] = 0xA9; // LDA #$80
    image[p + 1] = 0x80;
    image[p + 2] = 0x8D; // STA $2000
    image[p + 3] = 0x00;
    image[p + 4] = 0x20;
    image[p + 5] = 0x4C; // JMP $8005
    image[p + 6] = 0x05;
    image[p + 7] = 0x80;
    // Interrupt vector: an infinite loop of its own at 0x9000.
    image[p + 0x1000] = 0x4C; // JMP $9000
    image[p + 0x1001] = 0x00;
    image[p + 0x1002] = 0x90;
    image[p + 0x3FFA] = 0x00; // NMI vector = 0x9000
    image[p + 0x3FFB] = 0x90;
    image[p + 0x3FFC] = 0x00; // reset vector = 0x8000
    image[p + 0x3FFD] = 0x80;
    let rom = Rom::new(&image).expect("valid cartridge");
    let mut console = Console::new(rom);
    console.reset();
    console.run_frame().expect("no illegal opcode");
    // The processor ended up in the interrupt handler's loop.
    assert_eq!(console.cpu.registers.pc & 0xF000, 0x9000);
}

#[test]
fn console_buttons_reach_the_pads() {
    let rom = Rom::new(&image_with(1, 1, 0)).expect("valid cartridge");
    let mut console = Console::new(rom);
    console.set_button(0, 0x80, true);
    console.set_button(1, 0x20, true);
    assert_eq!(console.bus.controller0.buttons, 0x80);
    assert_eq!(console.bus.controller1.buttons, 0x20);
}

#[test]
fn balanced_pushes_and_pulls_restore_sp() {
    let rom = Rom::new(&image_with(1, 1, 0)).expect("valid cartridge");
    let mut bus = Bus::new(rom);
    let mut cpu = CPU::new();
    // PHA PHP PHA PLA PLP PLA: three pushes, three pulls, in RAM.
    for (i, b) in [0x48u8, 0x08, 0x48, 0x68, 0x28, 0x68].iter().enumerate() {
        bus.write(i as u16, *b);
    }
    cpu.registers.pc = 0x0000;
    cpu.registers.sp = 0xFD;
    let ram_before: Vec<u8> = (0x0000..0x0100u16).map(|a| bus.read(a)).collect();
    for _ in 0..6 {
        cpu.step(&mut bus).expect("legal opcode");
    }
    assert_eq!(cpu.registers.sp, 0xFD);
    // Nothing outside the stack page was touched.
    let ram_after: Vec<u8> = (0x0000..0x0100u16).map(|a| bus.read(a)).collect();
    assert_eq!(ram_before, ram_after);
}
