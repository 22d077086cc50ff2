//! Processor-level scenarios: reset, arithmetic, branches, the stack and
//! the indirect-jump page-wrap bug.

use nes_core::bus::Bus;
use nes_core::cpu::CPU;
use nes_core::ines_file::Rom;
use nes_core::EmuError;

/// A minimal one-bank cartridge whose program bytes are all zero except the
/// given (offset, value) patches; offsets are within the 16 KiB bank.
fn cart_with_prg(patches: &[(usize, u8)]) -> Rom {
    let mut image: Vec<u8> = vec![0x4E, 0x45, 0x53, 0x1A, 1, 1, 0, 0];
    image.resize(16, 0);
    let mut prg = vec![0u8; 16 * 1024];
    for &(off, v) in patches {
        prg[off] = v;
    }
    image.extend_from_slice(&prg);
    image.extend_from_slice(&vec![0u8; 8 * 1024]);
    Rom::new(&image).expect("valid cartridge")
}

fn machine(patches: &[(usize, u8)]) -> (CPU, Bus) {
    (CPU::new(), Bus::new(cart_with_prg(patches)))
}

#[test]
fn reset_loads_vector_and_state() {
    // Reset vector 0xFFFC/0xFFFD maps to bank offsets 0x3FFC/0x3FFD.
    let (mut cpu, mut bus) = machine(&[(0x3FFC, 0x34), (0x3FFD, 0x12)]);
    cpu.reset(&mut bus);
    assert_eq!(cpu.registers.pc, 0x1234);
    assert_eq!(cpu.registers.sp, 0xFD);
    assert_eq!(cpu.registers.f, 0x24);
    assert_eq!(cpu.registers.a, 0);
    assert_eq!(cpu.registers.x, 0);
    assert_eq!(cpu.registers.y, 0);
}

#[test]
fn reset_costs_eight_cycles() {
    let (mut cpu, mut bus) = machine(&[]);
    let before = cpu.cycles;
    cpu.reset(&mut bus);
    assert_eq!(cpu.cycles, before + 8);
}

#[test]
fn adc_carry_overflow_scenario() {
    // A=0x50 plus M=0x50 with C=0: A=0xA0, C=0, V=1, N=1, Z=0.
    let (mut cpu, mut bus) = machine(&[]);
    bus.write(0x0000, 0x69); // ADC #$50
    bus.write(0x0001, 0x50);
    cpu.registers.pc = 0x0000;
    cpu.registers.a = 0x50;
    cpu.registers.f = 0x24;
    let n = cpu.step(&mut bus).expect("legal opcode");
    assert_eq!(n, 2);
    assert_eq!(cpu.registers.a, 0xA0);
    assert_eq!(cpu.registers.f & 0x01, 0); // C clear
    assert_ne!(cpu.registers.f & 0x40, 0); // V set
    assert_ne!(cpu.registers.f & 0x80, 0); // N set
    assert_eq!(cpu.registers.f & 0x02, 0); // Z clear
}

#[test]
fn sbc_formula() {
    // A=0x50, M=0xF0, C=1: A = (0x50 + 0x0F + 1) mod 256 = 0x60, borrow (C=0).
    let (mut cpu, mut bus) = machine(&[]);
    bus.write(0x0000, 0xE9); // SBC #$F0
    bus.write(0x0001, 0xF0);
    cpu.registers.pc = 0x0000;
    cpu.registers.a = 0x50;
    cpu.registers.f = 0x25; // carry set
    cpu.step(&mut bus).expect("legal opcode");
    assert_eq!(cpu.registers.a, 0x60);
    assert_eq!(cpu.registers.f & 0x01, 0); // borrow
}

#[test]
fn branch_taken_same_page_costs_one_extra() {
    let (mut cpu, mut bus) = machine(&[]);
    bus.write(0x0080, 0xD0); // BNE +0x20
    bus.write(0x0081, 0x20);
    cpu.registers.pc = 0x0080;
    cpu.registers.f = 0x24; // Z clear
    let n = cpu.step(&mut bus).expect("legal opcode");
    assert_eq!(cpu.registers.pc, 0x00A2);
    assert_eq!(n, 3); // base 2 + 1 taken
}

#[test]
fn branch_taken_page_cross_costs_two_extra() {
    let (mut cpu, mut bus) = machine(&[]);
    bus.write(0x00F0, 0xD0); // BNE +0x20
    bus.write(0x00F1, 0x20);
    cpu.registers.pc = 0x00F0;
    cpu.registers.f = 0x24;
    let n = cpu.step(&mut bus).expect("legal opcode");
    assert_eq!(cpu.registers.pc, 0x0112);
    assert_eq!(n, 4); // base 2 + 2 taken and crossed
}

#[test]
fn branch_not_taken_costs_base() {
    let (mut cpu, mut bus) = machine(&[]);
    bus.write(0x0080, 0xD0); // BNE with Z set: not taken
    bus.write(0x0081, 0x20);
    cpu.registers.pc = 0x0080;
    cpu.registers.f = 0x26;
    let n = cpu.step(&mut bus).expect("legal opcode");
    assert_eq!(cpu.registers.pc, 0x0082);
    assert_eq!(n, 2);
}

#[test]
fn stack_round_trip() {
    // PHA (A=0xAB); LDA #$00; PLA leaves A=0xAB, SP=0xFD, Z=0, N=1.
    let (mut cpu, mut bus) = machine(&[]);
    bus.write(0x0000, 0x48); // PHA
    bus.write(0x0001, 0xA9); // LDA #$00
    bus.write(0x0002, 0x00);
    bus.write(0x0003, 0x68); // PLA
    cpu.registers.pc = 0x0000;
    cpu.registers.a = 0xAB;
    cpu.registers.sp = 0xFD;
    for _ in 0..3 {
        cpu.step(&mut bus).expect("legal opcode");
    }
    assert_eq!(cpu.registers.a, 0xAB);
    assert_eq!(cpu.registers.sp, 0xFD);
    assert_eq!(cpu.registers.f & 0x02, 0); // Z clear
    assert_ne!(cpu.registers.f & 0x80, 0); // N set
}

#[test]
fn php_plp_forces_u_and_clears_b() {
    for f in [0x00u8, 0xFF, 0x24, 0x5A, 0x91] {
        let (mut cpu, mut bus) = machine(&[]);
        bus.write(0x0000, 0x08); // PHP
        bus.write(0x0001, 0x28); // PLP
        cpu.registers.pc = 0x0000;
        cpu.registers.f = f;
        cpu.step(&mut bus).expect("legal opcode");
        cpu.step(&mut bus).expect("legal opcode");
        assert_eq!(cpu.registers.f, (f | 0x20) & !0x10);
    }
}

#[test]
fn jmp_indirect_page_wrap_bug() {
    // Pointer 0x02FF: the low byte comes from 0x02FF, the high byte from
    // 0x0200 (same page), not from 0x0300.
    let (mut cpu, mut bus) = machine(&[]);
    bus.write(0x0000, 0x6C); // JMP (0x02FF)
    bus.write(0x0001, 0xFF);
    bus.write(0x0002, 0x02);
    bus.write(0x02FF, 0x34);
    bus.write(0x0200, 0x12);
    bus.write(0x0300, 0x77); // would be the target high byte without the bug
    cpu.registers.pc = 0x0000;
    cpu.step(&mut bus).expect("legal opcode");
    assert_eq!(cpu.registers.pc, 0x1234);
}

#[test]
fn unknown_opcode_is_fatal() {
    let (mut cpu, mut bus) = machine(&[]);
    bus.write(0x0000, 0x02); // not a legal opcode
    cpu.registers.pc = 0x0000;
    let r = cpu.step(&mut bus);
    assert_eq!(r, Err(EmuError::UnknownOpcode { opcode: 0x02, pc: 0x0000 }));
}

#[test]
fn cycle_counter_advances_by_returned_amount() {
    // LDA #imm (2), LDA abs (4), LDA abs,X crossing a page (4+1), NOP (2).
    let (mut cpu, mut bus) = machine(&[]);
    bus.write(0x0000, 0xA9); // LDA #$01
    bus.write(0x0001, 0x01);
    bus.write(0x0002, 0xAD); // LDA $0123
    bus.write(0x0003, 0x23);
    bus.write(0x0004, 0x01);
    bus.write(0x0005, 0xBD); // LDA $01FF,X with X=1: page crossed
    bus.write(0x0006, 0xFF);
    bus.write(0x0007, 0x01);
    bus.write(0x0008, 0xEA); // NOP
    cpu.registers.pc = 0x0000;
    cpu.registers.x = 0x01;
    for expected in [2u8, 4, 5, 2] {
        let before = cpu.cycles;
        let n = cpu.step(&mut bus).expect("legal opcode");
        assert_eq!(n, expected);
        assert_eq!(cpu.cycles, before + n as u64);
    }
}

#[test]
fn store_indexed_pays_no_page_cross_penalty() {
    let (mut cpu, mut bus) = machine(&[]);
    bus.write(0x0000, 0x9D); // STA $01FF,X with X=1
    bus.write(0x0001, 0xFF);
    bus.write(0x0002, 0x01);
    cpu.registers.pc = 0x0000;
    cpu.registers.x = 0x01;
    cpu.registers.a = 0x42;
    let n = cpu.step(&mut bus).expect("legal opcode");
    assert_eq!(n, 5); // STA abs,X is always 5 cycles
    assert_eq!(bus.read(0x0200), 0x42);
}

#[test]
fn nmi_pushes_and_vectors() {
    let (mut cpu, mut bus) = machine(&[(0x3FFA, 0x21), (0x3FFB, 0x43)]);
    cpu.registers.pc = 0x1234;
    cpu.registers.sp = 0xFD;
    cpu.registers.f = 0x24;
    let before = cpu.cycles;
    cpu.nmi(&mut bus);
    assert_eq!(cpu.registers.pc, 0x4321);
    assert_eq!(cpu.registers.sp, 0xFA);
    assert_eq!(bus.read(0x01FD), 0x12); // PC high
    assert_eq!(bus.read(0x01FC), 0x34); // PC low
    assert_eq!(bus.read(0x01FB), 0x24); // status: B clear, U set
    assert_ne!(cpu.registers.f & 0x04, 0); // I set
    assert_eq!(cpu.cycles, before + 7);
}

#[test]
fn irq_is_gated_on_interrupt_disable() {
    let (mut cpu, mut bus) = machine(&[(0x3FFE, 0x10), (0x3FFF, 0x20)]);
    cpu.registers.pc = 0x1234;
    cpu.registers.f = 0x24; // I set: irq ignored
    cpu.irq(&mut bus);
    assert_eq!(cpu.registers.pc, 0x1234);
    cpu.registers.f = 0x20; // I clear: irq taken
    cpu.irq(&mut bus);
    assert_eq!(cpu.registers.pc, 0x2010);
}

#[test]
fn jsr_and_rts_round_trip() {
    let (mut cpu, mut bus) = machine(&[]);
    // 0x0000: JSR $0010; 0x0003: NOP. 0x0010: LDX #$7F; RTS.
    for (i, b) in [0x20u8, 0x10, 0x00, 0xEA].iter().enumerate() {
        bus.write(i as u16, *b);
    }
    for (i, b) in [0xA2u8, 0x7F, 0x60].iter().enumerate() {
        bus.write(0x0010 + i as u16, *b);
    }
    cpu.registers.pc = 0x0000;
    cpu.registers.sp = 0xFD;
    cpu.step(&mut bus).expect("JSR");
    assert_eq!(cpu.registers.pc, 0x0010);
    assert_eq!(cpu.registers.sp, 0xFB);
    cpu.step(&mut bus).expect("LDX");
    cpu.step(&mut bus).expect("RTS");
    assert_eq!(cpu.registers.pc, 0x0003);
    assert_eq!(cpu.registers.sp, 0xFD);
    assert_eq!(cpu.registers.x, 0x7F);
}

#[test]
fn brk_and_rti_round_trip() {
    let (mut cpu, mut bus) = machine(&[(0x3FFE, 0x00), (0x3FFF, 0x02)]);
    // BRK at 0x0000 vectors to 0x0200 (via 0xFFFE/F), where RTI returns.
    bus.write(0x0000, 0x00);
    bus.write(0x0200, 0x40); // RTI
    cpu.registers.pc = 0x0000;
    cpu.registers.sp = 0xFD;
    cpu.registers.f = 0x20;
    let n = cpu.step(&mut bus).expect("BRK");
    assert_eq!(n, 7);
    assert_eq!(cpu.registers.pc, 0x0200);
    assert_ne!(cpu.registers.f & 0x04, 0); // I set
    cpu.step(&mut bus).expect("RTI");
    // BRK pushed the address two past the opcode, with B set only in the
    // pushed copy.
    assert_eq!(cpu.registers.pc, 0x0002);
    assert_eq!(cpu.registers.sp, 0xFD);
    assert_eq!(cpu.registers.f, 0x20);
}

#[test]
fn shifts_and_rotates_move_the_carry() {
    let (mut cpu, mut bus) = machine(&[]);
    for (i, b) in [0x0Au8, 0x2A, 0x4A, 0x6A].iter().enumerate() {
        bus.write(i as u16, *b); // ASL A; ROL A; LSR A; ROR A
    }
    cpu.registers.pc = 0x0000;
    cpu.registers.a = 0b1100_0001;
    cpu.registers.f = 0x20;
    cpu.step(&mut bus).expect("ASL");
    assert_eq!(cpu.registers.a, 0b1000_0010);
    assert_ne!(cpu.registers.f & 0x01, 0); // bit 7 went to C
    cpu.step(&mut bus).expect("ROL");
    assert_eq!(cpu.registers.a, 0b0000_0101); // C rotated into bit 0
    assert_ne!(cpu.registers.f & 0x01, 0);
    cpu.step(&mut bus).expect("LSR");
    assert_eq!(cpu.registers.a, 0b0000_0010);
    assert_ne!(cpu.registers.f & 0x01, 0); // bit 0 went to C
    cpu.step(&mut bus).expect("ROR");
    assert_eq!(cpu.registers.a, 0b1000_0001); // C rotated into bit 7
    assert_eq!(cpu.registers.f & 0x01, 0);
}

#[test]
fn memory_increment_decrement_and_compare() {
    let (mut cpu, mut bus) = machine(&[]);
    let program = [
        0xE6u8, 0x40, // INC $40
        0xC6, 0x41, // DEC $41
        0xA5, 0x40, // LDA $40
        0xC5, 0x41, // CMP $41
    ];
    for (i, b) in program.iter().enumerate() {
        bus.write(i as u16, *b);
    }
    bus.write(0x0040, 0x10);
    bus.write(0x0041, 0x12);
    cpu.registers.pc = 0x0000;
    for _ in 0..4 {
        cpu.step(&mut bus).expect("legal opcode");
    }
    assert_eq!(bus.read(0x0040), 0x11);
    assert_eq!(bus.read(0x0041), 0x11);
    assert_eq!(cpu.registers.a, 0x11);
    assert_ne!(cpu.registers.f & 0x02, 0); // equal: Z set
    assert_ne!(cpu.registers.f & 0x01, 0); // no borrow: C set
}

#[test]
fn transfers_and_logic_update_flags() {
    let (mut cpu, mut bus) = machine(&[]);
    let program = [
        0xA9u8, 0xF0, // LDA #$F0
        0xAA, // TAX
        0x29, 0x0F, // AND #$0F: zero
        0x8A, // TXA
        0x49, 0xFF, // EOR #$FF
        0x09, 0x80, // ORA #$80
        0xA8, // TAY
        0x98, // TYA
    ];
    for (i, b) in program.iter().enumerate() {
        bus.write(i as u16, *b);
    }
    cpu.registers.pc = 0x0000;
    cpu.step(&mut bus).expect("LDA");
    cpu.step(&mut bus).expect("TAX");
    assert_eq!(cpu.registers.x, 0xF0);
    cpu.step(&mut bus).expect("AND");
    assert_eq!(cpu.registers.a, 0x00);
    assert_ne!(cpu.registers.f & 0x02, 0); // Z set
    cpu.step(&mut bus).expect("TXA");
    cpu.step(&mut bus).expect("EOR");
    assert_eq!(cpu.registers.a, 0x0F);
    cpu.step(&mut bus).expect("ORA");
    assert_eq!(cpu.registers.a, 0x8F);
    assert_ne!(cpu.registers.f & 0x80, 0); // N set
    cpu.step(&mut bus).expect("TAY");
    cpu.step(&mut bus).expect("TYA");
    assert_eq!(cpu.registers.y, 0x8F);
    assert_eq!(cpu.registers.a, 0x8F);
}

#[test]
fn indexed_indirect_addressing() {
    let (mut cpu, mut bus) = machine(&[]);
    // LDA ($20,X) with X=4: pointer at 0x24/0x25 -> 0x0300.
    bus.write(0x0000, 0xA1);
    bus.write(0x0001, 0x20);
    bus.write(0x0024, 0x00);
    bus.write(0x0025, 0x03);
    bus.write(0x0300, 0x5A);
    // LDA ($30),Y with Y=3: base at 0x30/0x31 = 0x0400, effective 0x0403.
    bus.write(0x0002, 0xB1);
    bus.write(0x0003, 0x30);
    bus.write(0x0030, 0x00);
    bus.write(0x0031, 0x04);
    bus.write(0x0403, 0xC3);
    cpu.registers.pc = 0x0000;
    cpu.registers.x = 4;
    cpu.registers.y = 3;
    let n = cpu.step(&mut bus).expect("LDA izx");
    assert_eq!(cpu.registers.a, 0x5A);
    assert_eq!(n, 6);
    let n = cpu.step(&mut bus).expect("LDA izy");
    assert_eq!(cpu.registers.a, 0xC3);
    assert_eq!(n, 5); // no page cross
}

#[test]
fn bit_sets_flags_from_the_operand() {
    let (mut cpu, mut bus) = machine(&[]);
    bus.write(0x0000, 0x24); // BIT $40
    bus.write(0x0001, 0x40);
    bus.write(0x0040, 0xC0);
    cpu.registers.pc = 0x0000;
    cpu.registers.a = 0x3F;
    cpu.step(&mut bus).expect("BIT");
    assert_ne!(cpu.registers.f & 0x02, 0); // A & M == 0
    assert_ne!(cpu.registers.f & 0x40, 0); // V from operand bit 6
    assert_ne!(cpu.registers.f & 0x80, 0); // N from operand bit 7
}
