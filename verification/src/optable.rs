//! The 256-entry dispatch table of the processor: each opcode byte maps to
//! a mnemonic, an addressing mode and a base cycle cost. The 151 entries
//! with a real mnemonic are the legal opcodes; every other byte decodes to
//! `Xxx` and makes `step` fail.

use vstd::prelude::*;

verus! {

/// Instruction mnemonic; `Xxx` marks the bytes that are not legal opcodes.
#[derive(Clone, Copy, PartialEq, Eq, Structural, Debug)]
pub enum Mnemonic {
    Adc,
    And,
    Asl,
    Bcc,
    Bcs,
    Beq,
    Bit,
    Bmi,
    Bne,
    Bpl,
    Brk,
    Bvc,
    Bvs,
    Clc,
    Cld,
    Cli,
    Clv,
    Cmp,
    Cpx,
    Cpy,
    Dec,
    Dex,
    Dey,
    Eor,
    Inc,
    Inx,
    Iny,
    Jmp,
    Jsr,
    Lda,
    Ldx,
    Ldy,
    Lsr,
    Nop,
    Ora,
    Pha,
    Php,
    Pla,
    Plp,
    Rol,
    Ror,
    Rti,
    Rts,
    Sbc,
    Sec,
    Sed,
    Sei,
    Sta,
    Stx,
    Sty,
    Tax,
    Tay,
    Tsx,
    Txa,
    Txs,
    Tya,
    Xxx,
}

/// Addressing mode of an opcode.
#[derive(Clone, Copy, PartialEq, Eq, Structural, Debug)]
pub enum AddrMode {
    /// No operand.
    Imp,
    /// Operates on the accumulator.
    Acc,
    /// Operand byte follows the opcode.
    Imm,
    /// Zero-page address.
    Zp0,
    /// Zero-page address plus X, wrapping in page zero.
    Zpx,
    /// Zero-page address plus Y, wrapping in page zero.
    Zpy,
    /// 16-bit little-endian address.
    Abs,
    /// Absolute address plus X.
    Abx,
    /// Absolute address plus Y.
    Aby,
    /// 16-bit pointer to the target address (JMP only).
    Ind,
    /// Zero-page pointer indexed by X before the fetch.
    Izx,
    /// Zero-page pointer, the fetched base indexed by Y.
    Izy,
    /// Signed byte offset relative to the next instruction.
    Rel,
}

/// One dispatch-table entry.
#[derive(Clone, Copy, PartialEq, Eq, Structural, Debug)]
pub struct Instruction {
    pub mnemonic: Mnemonic,
    pub mode: AddrMode,
    /// Base cycle cost, before page-cross and branch penalties.
    pub cycles: u8,
}

/// The dispatch table as a function of the opcode byte.
pub open spec fn decode(op: u8) -> Instruction {
    match op {
        0x00 => (Instruction { mnemonic: Mnemonic::Brk, mode: AddrMode::Imp, cycles: 7 }),
        0x01 => (Instruction { mnemonic: Mnemonic::Ora, mode: AddrMode::Izx, cycles: 6 }),
        0x05 => (Instruction { mnemonic: Mnemonic::Ora, mode: AddrMode::Zp0, cycles: 3 }),
        0x06 => (Instruction { mnemonic: Mnemonic::Asl, mode: AddrMode::Zp0, cycles: 5 }),
        0x08 => (Instruction { mnemonic: Mnemonic::Php, mode: AddrMode::Imp, cycles: 3 }),
        0x09 => (Instruction { mnemonic: Mnemonic::Ora, mode: AddrMode::Imm, cycles: 2 }),
        0x0A => (Instruction { mnemonic: Mnemonic::Asl, mode: AddrMode::Acc, cycles: 2 }),
        0x0D => (Instruction { mnemonic: Mnemonic::Ora, mode: AddrMode::Abs, cycles: 4 }),
        0x0E => (Instruction { mnemonic: Mnemonic::Asl, mode: AddrMode::Abs, cycles: 6 }),
        0x10 => (Instruction { mnemonic: Mnemonic::Bpl, mode: AddrMode::Rel, cycles: 2 }),
        0x11 => (Instruction { mnemonic: Mnemonic::Ora, mode: AddrMode::Izy, cycles: 5 }),
        0x15 => (Instruction { mnemonic: Mnemonic::Ora, mode: AddrMode::Zpx, cycles: 4 }),
        0x16 => (Instruction { mnemonic: Mnemonic::Asl, mode: AddrMode::Zpx, cycles: 6 }),
        0x18 => (Instruction { mnemonic: Mnemonic::Clc, mode: AddrMode::Imp, cycles: 2 }),
        0x19 => (Instruction { mnemonic: Mnemonic::Ora, mode: AddrMode::Aby, cycles: 4 }),
        0x1D => (Instruction { mnemonic: Mnemonic::Ora, mode: AddrMode::Abx, cycles: 4 }),
        0x1E => (Instruction { mnemonic: Mnemonic::Asl, mode: AddrMode::Abx, cycles: 7 }),
        0x20 => (Instruction { mnemonic: Mnemonic::Jsr, mode: AddrMode::Abs, cycles: 6 }),
        0x21 => (Instruction { mnemonic: Mnemonic::And, mode: AddrMode::Izx, cycles: 6 }),
        0x24 => (Instruction { mnemonic: Mnemonic::Bit, mode: AddrMode::Zp0, cycles: 3 }),
        0x25 => (Instruction { mnemonic: Mnemonic::And, mode: AddrMode::Zp0, cycles: 3 }),
        0x26 => (Instruction { mnemonic: Mnemonic::Rol, mode: AddrMode::Zp0, cycles: 5 }),
        0x28 => (Instruction { mnemonic: Mnemonic::Plp, mode: AddrMode::Imp, cycles: 4 }),
        0x29 => (Instruction { mnemonic: Mnemonic::And, mode: AddrMode::Imm, cycles: 2 }),
        0x2A => (Instruction { mnemonic: Mnemonic::Rol, mode: AddrMode::Acc, cycles: 2 }),
        0x2C => (Instruction { mnemonic: Mnemonic::Bit, mode: AddrMode::Abs, cycles: 4 }),
        0x2D => (Instruction { mnemonic: Mnemonic::And, mode: AddrMode::Abs, cycles: 4 }),
        0x2E => (Instruction { mnemonic: Mnemonic::Rol, mode: AddrMode::Abs, cycles: 6 }),
        0x30 => (Instruction { mnemonic: Mnemonic::Bmi, mode: AddrMode::Rel, cycles: 2 }),
        0x31 => (Instruction { mnemonic: Mnemonic::And, mode: AddrMode::Izy, cycles: 5 }),
        0x35 => (Instruction { mnemonic: Mnemonic::And, mode: AddrMode::Zpx, cycles: 4 }),
        0x36 => (Instruction { mnemonic: Mnemonic::Rol, mode: AddrMode::Zpx, cycles: 6 }),
        0x38 => (Instruction { mnemonic: Mnemonic::Sec, mode: AddrMode::Imp, cycles: 2 }),
        0x39 => (Instruction { mnemonic: Mnemonic::And, mode: AddrMode::Aby, cycles: 4 }),
        0x3D => (Instruction { mnemonic: Mnemonic::And, mode: AddrMode::Abx, cycles: 4 }),
        0x3E => (Instruction { mnemonic: Mnemonic::Rol, mode: AddrMode::Abx, cycles: 7 }),
        0x40 => (Instruction { mnemonic: Mnemonic::Rti, mode: AddrMode::Imp, cycles: 6 }),
        0x41 => (Instruction { mnemonic: Mnemonic::Eor, mode: AddrMode::Izx, cycles: 6 }),
        0x45 => (Instruction { mnemonic: Mnemonic::Eor, mode: AddrMode::Zp0, cycles: 3 }),
        0x46 => (Instruction { mnemonic: Mnemonic::Lsr, mode: AddrMode::Zp0, cycles: 5 }),
        0x48 => (Instruction { mnemonic: Mnemonic::Pha, mode: AddrMode::Imp, cycles: 3 }),
        0x49 => (Instruction { mnemonic: Mnemonic::Eor, mode: AddrMode::Imm, cycles: 2 }),
        0x4A => (Instruction { mnemonic: Mnemonic::Lsr, mode: AddrMode::Acc, cycles: 2 }),
        0x4C => (Instruction { mnemonic: Mnemonic::Jmp, mode: AddrMode::Abs, cycles: 3 }),
        0x4D => (Instruction { mnemonic: Mnemonic::Eor, mode: AddrMode::Abs, cycles: 4 }),
        0x4E => (Instruction { mnemonic: Mnemonic::Lsr, mode: AddrMode::Abs, cycles: 6 }),
        0x50 => (Instruction { mnemonic: Mnemonic::Bvc, mode: AddrMode::Rel, cycles: 2 }),
        0x51 => (Instruction { mnemonic: Mnemonic::Eor, mode: AddrMode::Izy, cycles: 5 }),
        0x55 => (Instruction { mnemonic: Mnemonic::Eor, mode: AddrMode::Zpx, cycles: 4 }),
        0x56 => (Instruction { mnemonic: Mnemonic::Lsr, mode: AddrMode::Zpx, cycles: 6 }),
        0x58 => (Instruction { mnemonic: Mnemonic::Cli, mode: AddrMode::Imp, cycles: 2 }),
        0x59 => (Instruction { mnemonic: Mnemonic::Eor, mode: AddrMode::Aby, cycles: 4 }),
        0x5D => (Instruction { mnemonic: Mnemonic::Eor, mode: AddrMode::Abx, cycles: 4 }),
        0x5E => (Instruction { mnemonic: Mnemonic::Lsr, mode: AddrMode::Abx, cycles: 7 }),
        0x60 => (Instruction { mnemonic: Mnemonic::Rts, mode: AddrMode::Imp, cycles: 6 }),
        0x61 => (Instruction { mnemonic: Mnemonic::Adc, mode: AddrMode::Izx, cycles: 6 }),
        0x65 => (Instruction { mnemonic: Mnemonic::Adc, mode: AddrMode::Zp0, cycles: 3 }),
        0x66 => (Instruction { mnemonic: Mnemonic::Ror, mode: AddrMode::Zp0, cycles: 5 }),
        0x68 => (Instruction { mnemonic: Mnemonic::Pla, mode: AddrMode::Imp, cycles: 4 }),
        0x69 => (Instruction { mnemonic: Mnemonic::Adc, mode: AddrMode::Imm, cycles: 2 }),
        0x6A => (Instruction { mnemonic: Mnemonic::Ror, mode: AddrMode::Acc, cycles: 2 }),
        0x6C => (Instruction { mnemonic: Mnemonic::Jmp, mode: AddrMode::Ind, cycles: 5 }),
        0x6D => (Instruction { mnemonic: Mnemonic::Adc, mode: AddrMode::Abs, cycles: 4 }),
        0x6E => (Instruction { mnemonic: Mnemonic::Ror, mode: AddrMode::Abs, cycles: 6 }),
        0x70 => (Instruction { mnemonic: Mnemonic::Bvs, mode: AddrMode::Rel, cycles: 2 }),
        0x71 => (Instruction { mnemonic: Mnemonic::Adc, mode: AddrMode::Izy, cycles: 5 }),
        0x75 => (Instruction { mnemonic: Mnemonic::Adc, mode: AddrMode::Zpx, cycles: 4 }),
        0x76 => (Instruction { mnemonic: Mnemonic::Ror, mode: AddrMode::Zpx, cycles: 6 }),
        0x78 => (Instruction { mnemonic: Mnemonic::Sei, mode: AddrMode::Imp, cycles: 2 }),
        0x79 => (Instruction { mnemonic: Mnemonic::Adc, mode: AddrMode::Aby, cycles: 4 }),
        0x7D => (Instruction { mnemonic: Mnemonic::Adc, mode: AddrMode::Abx, cycles: 4 }),
        0x7E => (Instruction { mnemonic: Mnemonic::Ror, mode: AddrMode::Abx, cycles: 7 }),
        0x81 => (Instruction { mnemonic: Mnemonic::Sta, mode: AddrMode::Izx, cycles: 6 }),
        0x84 => (Instruction { mnemonic: Mnemonic::Sty, mode: AddrMode::Zp0, cycles: 3 }),
        0x85 => (Instruction { mnemonic: Mnemonic::Sta, mode: AddrMode::Zp0, cycles: 3 }),
        0x86 => (Instruction { mnemonic: Mnemonic::Stx, mode: AddrMode::Zp0, cycles: 3 }),
        0x88 => (Instruction { mnemonic: Mnemonic::Dey, mode: AddrMode::Imp, cycles: 2 }),
        0x8A => (Instruction { mnemonic: Mnemonic::Txa, mode: AddrMode::Imp, cycles: 2 }),
        0x8C => (Instruction { mnemonic: Mnemonic::Sty, mode: AddrMode::Abs, cycles: 4 }),
        0x8D => (Instruction { mnemonic: Mnemonic::Sta, mode: AddrMode::Abs, cycles: 4 }),
        0x8E => (Instruction { mnemonic: Mnemonic::Stx, mode: AddrMode::Abs, cycles: 4 }),
        0x90 => (Instruction { mnemonic: Mnemonic::Bcc, mode: AddrMode::Rel, cycles: 2 }),
        0x91 => (Instruction { mnemonic: Mnemonic::Sta, mode: AddrMode::Izy, cycles: 6 }),
        0x94 => (Instruction { mnemonic: Mnemonic::Sty, mode: AddrMode::Zpx, cycles: 4 }),
        0x95 => (Instruction { mnemonic: Mnemonic::Sta, mode: AddrMode::Zpx, cycles: 4 }),
        0x96 => (Instruction { mnemonic: Mnemonic::Stx, mode: AddrMode::Zpy, cycles: 4 }),
        0x98 => (Instruction { mnemonic: Mnemonic::Tya, mode: AddrMode::Imp, cycles: 2 }),
        0x99 => (Instruction { mnemonic: Mnemonic::Sta, mode: AddrMode::Aby, cycles: 5 }),
        0x9A => (Instruction { mnemonic: Mnemonic::Txs, mode: AddrMode::Imp, cycles: 2 }),
        0x9D => (Instruction { mnemonic: Mnemonic::Sta, mode: AddrMode::Abx, cycles: 5 }),
        0xA0 => (Instruction { mnemonic: Mnemonic::Ldy, mode: AddrMode::Imm, cycles: 2 }),
        0xA1 => (Instruction { mnemonic: Mnemonic::Lda, mode: AddrMode::Izx, cycles: 6 }),
        0xA2 => (Instruction { mnemonic: Mnemonic::Ldx, mode: AddrMode::Imm, cycles: 2 }),
        0xA4 => (Instruction { mnemonic: Mnemonic::Ldy, mode: AddrMode::Zp0, cycles: 3 }),
        0xA5 => (Instruction { mnemonic: Mnemonic::Lda, mode: AddrMode::Zp0, cycles: 3 }),
        0xA6 => (Instruction { mnemonic: Mnemonic::Ldx, mode: AddrMode::Zp0, cycles: 3 }),
        0xA8 => (Instruction { mnemonic: Mnemonic::Tay, mode: AddrMode::Imp, cycles: 2 }),
        0xA9 => (Instruction { mnemonic: Mnemonic::Lda, mode: AddrMode::Imm, cycles: 2 }),
        0xAA => (Instruction { mnemonic: Mnemonic::Tax, mode: AddrMode::Imp, cycles: 2 }),
        0xAC => (Instruction { mnemonic: Mnemonic::Ldy, mode: AddrMode::Abs, cycles: 4 }),
        0xAD => (Instruction { mnemonic: Mnemonic::Lda, mode: AddrMode::Abs, cycles: 4 }),
        0xAE => (Instruction { mnemonic: Mnemonic::Ldx, mode: AddrMode::Abs, cycles: 4 }),
        0xB0 => (Instruction { mnemonic: Mnemonic::Bcs, mode: AddrMode::Rel, cycles: 2 }),
        0xB1 => (Instruction { mnemonic: Mnemonic::Lda, mode: AddrMode::Izy, cycles: 5 }),
        0xB4 => (Instruction { mnemonic: Mnemonic::Ldy, mode: AddrMode::Zpx, cycles: 4 }),
        0xB5 => (Instruction { mnemonic: Mnemonic::Lda, mode: AddrMode::Zpx, cycles: 4 }),
        0xB6 => (Instruction { mnemonic: Mnemonic::Ldx, mode: AddrMode::Zpy, cycles: 4 }),
        0xB8 => (Instruction { mnemonic: Mnemonic::Clv, mode: AddrMode::Imp, cycles: 2 }),
        0xB9 => (Instruction { mnemonic: Mnemonic::Lda, mode: AddrMode::Aby, cycles: 4 }),
        0xBA => (Instruction { mnemonic: Mnemonic::Tsx, mode: AddrMode::Imp, cycles: 2 }),
        0xBC => (Instruction { mnemonic: Mnemonic::Ldy, mode: AddrMode::Abx, cycles: 4 }),
        0xBD => (Instruction { mnemonic: Mnemonic::Lda, mode: AddrMode::Abx, cycles: 4 }),
        0xBE => (Instruction { mnemonic: Mnemonic::Ldx, mode: AddrMode::Aby, cycles: 4 }),
        0xC0 => (Instruction { mnemonic: Mnemonic::Cpy, mode: AddrMode::Imm, cycles: 2 }),
        0xC1 => (Instruction { mnemonic: Mnemonic::Cmp, mode: AddrMode::Izx, cycles: 6 }),
        0xC4 => (Instruction { mnemonic: Mnemonic::Cpy, mode: AddrMode::Zp0, cycles: 3 }),
        0xC5 => (Instruction { mnemonic: Mnemonic::Cmp, mode: AddrMode::Zp0, cycles: 3 }),
        0xC6 => (Instruction { mnemonic: Mnemonic::Dec, mode: AddrMode::Zp0, cycles: 5 }),
        0xC8 => (Instruction { mnemonic: Mnemonic::Iny, mode: AddrMode::Imp, cycles: 2 }),
        0xC9 => (Instruction { mnemonic: Mnemonic::Cmp, mode: AddrMode::Imm, cycles: 2 }),
        0xCA => (Instruction { mnemonic: Mnemonic::Dex, mode: AddrMode::Imp, cycles: 2 }),
        0xCC => (Instruction { mnemonic: Mnemonic::Cpy, mode: AddrMode::Abs, cycles: 4 }),
        0xCD => (Instruction { mnemonic: Mnemonic::Cmp, mode: AddrMode::Abs, cycles: 4 }),
        0xCE => (Instruction { mnemonic: Mnemonic::Dec, mode: AddrMode::Abs, cycles: 6 }),
        0xD0 => (Instruction { mnemonic: Mnemonic::Bne, mode: AddrMode::Rel, cycles: 2 }),
        0xD1 => (Instruction { mnemonic: Mnemonic::Cmp, mode: AddrMode::Izy, cycles: 5 }),
        0xD5 => (Instruction { mnemonic: Mnemonic::Cmp, mode: AddrMode::Zpx, cycles: 4 }),
        0xD6 => (Instruction { mnemonic: Mnemonic::Dec, mode: AddrMode::Zpx, cycles: 6 }),
        0xD8 => (Instruction { mnemonic: Mnemonic::Cld, mode: AddrMode::Imp, cycles: 2 }),
        0xD9 => (Instruction { mnemonic: Mnemonic::Cmp, mode: AddrMode::Aby, cycles: 4 }),
        0xDD => (Instruction { mnemonic: Mnemonic::Cmp, mode: AddrMode::Abx, cycles: 4 }),
        0xDE => (Instruction { mnemonic: Mnemonic::Dec, mode: AddrMode::Abx, cycles: 7 }),
        0xE0 => (Instruction { mnemonic: Mnemonic::Cpx, mode: AddrMode::Imm, cycles: 2 }),
        0xE1 => (Instruction { mnemonic: Mnemonic::Sbc, mode: AddrMode::Izx, cycles: 6 }),
        0xE4 => (Instruction { mnemonic: Mnemonic::Cpx, mode: AddrMode::Zp0, cycles: 3 }),
        0xE5 => (Instruction { mnemonic: Mnemonic::Sbc, mode: AddrMode::Zp0, cycles: 3 }),
        0xE6 => (Instruction { mnemonic: Mnemonic::Inc, mode: AddrMode::Zp0, cycles: 5 }),
        0xE8 => (Instruction { mnemonic: Mnemonic::Inx, mode: AddrMode::Imp, cycles: 2 }),
        0xE9 => (Instruction { mnemonic: Mnemonic::Sbc, mode: AddrMode::Imm, cycles: 2 }),
        0xEA => (Instruction { mnemonic: Mnemonic::Nop, mode: AddrMode::Imp, cycles: 2 }),
        0xEC => (Instruction { mnemonic: Mnemonic::Cpx, mode: AddrMode::Abs, cycles: 4 }),
        0xED => (Instruction { mnemonic: Mnemonic::Sbc, mode: AddrMode::Abs, cycles: 4 }),
        0xEE => (Instruction { mnemonic: Mnemonic::Inc, mode: AddrMode::Abs, cycles: 6 }),
        0xF0 => (Instruction { mnemonic: Mnemonic::Beq, mode: AddrMode::Rel, cycles: 2 }),
        0xF1 => (Instruction { mnemonic: Mnemonic::Sbc, mode: AddrMode::Izy, cycles: 5 }),
        0xF5 => (Instruction { mnemonic: Mnemonic::Sbc, mode: AddrMode::Zpx, cycles: 4 }),
        0xF6 => (Instruction { mnemonic: Mnemonic::Inc, mode: AddrMode::Zpx, cycles: 6 }),
        0xF8 => (Instruction { mnemonic: Mnemonic::Sed, mode: AddrMode::Imp, cycles: 2 }),
        0xF9 => (Instruction { mnemonic: Mnemonic::Sbc, mode: AddrMode::Aby, cycles: 4 }),
        0xFD => (Instruction { mnemonic: Mnemonic::Sbc, mode: AddrMode::Abx, cycles: 4 }),
        0xFE => (Instruction { mnemonic: Mnemonic::Inc, mode: AddrMode::Abx, cycles: 7 }),
        0x02 | 0x0B | 0x12 | 0x1A | 0x22 | 0x2B | 0x32 | 0x3A | 0x42 | 0x4B | 0x52 | 0x5A | 0x62 | 0x6B | 0x72 | 0x7A | 0x80 | 0x82 | 0x89 | 0x8B | 0x92 | 0xAB | 0xB2 | 0xC2 | 0xCB | 0xD2 | 0xDA | 0xE2 | 0xEB | 0xF2 | 0xFA => (Instruction { mnemonic: Mnemonic::Xxx, mode: AddrMode::Imp, cycles: 2 }),
        0x04 | 0x44 | 0x64 | 0x87 | 0xA7 => (Instruction { mnemonic: Mnemonic::Xxx, mode: AddrMode::Imp, cycles: 3 }),
        0x0C | 0x14 | 0x1C | 0x34 | 0x3C | 0x54 | 0x5C | 0x74 | 0x7C | 0x8F | 0x97 | 0xAF | 0xB7 | 0xBB | 0xBF | 0xD4 | 0xDC | 0xF4 | 0xFC => (Instruction { mnemonic: Mnemonic::Xxx, mode: AddrMode::Imp, cycles: 4 }),
        0x07 | 0x27 | 0x47 | 0x67 | 0x9B | 0x9C | 0x9E | 0x9F | 0xB3 | 0xC7 | 0xE7 => (Instruction { mnemonic: Mnemonic::Xxx, mode: AddrMode::Imp, cycles: 5 }),
        0x0F | 0x17 | 0x2F | 0x37 | 0x4F | 0x57 | 0x6F | 0x77 | 0x83 | 0x93 | 0xA3 | 0xCF | 0xD7 | 0xEF | 0xF7 => (Instruction { mnemonic: Mnemonic::Xxx, mode: AddrMode::Imp, cycles: 6 }),
        0x1B | 0x1F | 0x3B | 0x3F | 0x5B | 0x5F | 0x7B | 0x7F | 0xDB | 0xDF | 0xFB | 0xFF => (Instruction { mnemonic: Mnemonic::Xxx, mode: AddrMode::Imp, cycles: 7 }),
        0x03 | 0x13 | 0x23 | 0x33 | 0x43 | 0x53 | 0x63 | 0x73 | 0xC3 | 0xD3 | 0xE3 | 0xF3 => (Instruction { mnemonic: Mnemonic::Xxx, mode: AddrMode::Imp, cycles: 8 }),
    }
}

/// Whether the opcode is one of the 151 the processor implements.
pub open spec fn legal_opcode(op: u8) -> bool {
    decode(op).mnemonic != Mnemonic::Xxx
}

/// Instructions that read their memory operand before executing (loads,
/// arithmetic, logic, compares, and read-modify-write operations outside
/// accumulator mode).
pub open spec fn needs_fetch(mn: Mnemonic, mode: AddrMode) -> bool {
    mode != AddrMode::Imp && mode != AddrMode::Acc && mode != AddrMode::Rel
        && (mn matches (Mnemonic::Adc | Mnemonic::And | Mnemonic::Asl | Mnemonic::Bit | Mnemonic::Cmp | Mnemonic::Cpx | Mnemonic::Cpy | Mnemonic::Dec | Mnemonic::Eor | Mnemonic::Inc | Mnemonic::Lda | Mnemonic::Ldx | Mnemonic::Ldy | Mnemonic::Lsr | Mnemonic::Ora | Mnemonic::Rol | Mnemonic::Ror | Mnemonic::Sbc))
}

/// Instructions whose indexed reads cost one extra cycle when the index
/// carries into the address high byte; write and read-modify-write
/// instructions pay the worst case in their base cost instead.
pub open spec fn honors_page_cross(mn: Mnemonic) -> bool {
    mn matches (Mnemonic::Adc | Mnemonic::And | Mnemonic::Cmp | Mnemonic::Eor | Mnemonic::Lda | Mnemonic::Ldx | Mnemonic::Ldy | Mnemonic::Ora | Mnemonic::Sbc)
}

impl Instruction {
    /// Executable face of the dispatch table.
    pub fn lookup_table(op: u8) -> (r: Instruction)
        ensures
            r == decode(op),
    {
        match op {
            0x00 => (Instruction { mnemonic: Mnemonic::Brk, mode: AddrMode::Imp, cycles: 7 }),
            0x01 => (Instruction { mnemonic: Mnemonic::Ora, mode: AddrMode::Izx, cycles: 6 }),
            0x05 => (Instruction { mnemonic: Mnemonic::Ora, mode: AddrMode::Zp0, cycles: 3 }),
            0x06 => (Instruction { mnemonic: Mnemonic::Asl, mode: AddrMode::Zp0, cycles: 5 }),
            0x08 => (Instruction { mnemonic: Mnemonic::Php, mode: AddrMode::Imp, cycles: 3 }),
            0x09 => (Instruction { mnemonic: Mnemonic::Ora, mode: AddrMode::Imm, cycles: 2 }),
            0x0A => (Instruction { mnemonic: Mnemonic::Asl, mode: AddrMode::Acc, cycles: 2 }),
            0x0D => (Instruction { mnemonic: Mnemonic::Ora, mode: AddrMode::Abs, cycles: 4 }),
            0x0E => (Instruction { mnemonic: Mnemonic::Asl, mode: AddrMode::Abs, cycles: 6 }),
            0x10 => (Instruction { mnemonic: Mnemonic::Bpl, mode: AddrMode::Rel, cycles: 2 }),
            0x11 => (Instruction { mnemonic: Mnemonic::Ora, mode: AddrMode::Izy, cycles: 5 }),
            0x15 => (Instruction { mnemonic: Mnemonic::Ora, mode: AddrMode::Zpx, cycles: 4 }),
            0x16 => (Instruction { mnemonic: Mnemonic::Asl, mode: AddrMode::Zpx, cycles: 6 }),
            0x18 => (Instruction { mnemonic: Mnemonic::Clc, mode: AddrMode::Imp, cycles: 2 }),
            0x19 => (Instruction { mnemonic: Mnemonic::Ora, mode: AddrMode::Aby, cycles: 4 }),
            0x1D => (Instruction { mnemonic: Mnemonic::Ora, mode: AddrMode::Abx, cycles: 4 }),
            0x1E => (Instruction { mnemonic: Mnemonic::Asl, mode: AddrMode::Abx, cycles: 7 }),
            0x20 => (Instruction { mnemonic: Mnemonic::Jsr, mode: AddrMode::Abs, cycles: 6 }),
            0x21 => (Instruction { mnemonic: Mnemonic::And, mode: AddrMode::Izx, cycles: 6 }),
            0x24 => (Instruction { mnemonic: Mnemonic::Bit, mode: AddrMode::Zp0, cycles: 3 }),
            0x25 => (Instruction { mnemonic: Mnemonic::And, mode: AddrMode::Zp0, cycles: 3 }),
            0x26 => (Instruction { mnemonic: Mnemonic::Rol, mode: AddrMode::Zp0, cycles: 5 }),
            0x28 => (Instruction { mnemonic: Mnemonic::Plp, mode: AddrMode::Imp, cycles: 4 }),
            0x29 => (Instruction { mnemonic: Mnemonic::And, mode: AddrMode::Imm, cycles: 2 }),
            0x2A => (Instruction { mnemonic: Mnemonic::Rol, mode: AddrMode::Acc, cycles: 2 }),
            0x2C => (Instruction { mnemonic: Mnemonic::Bit, mode: AddrMode::Abs, cycles: 4 }),
            0x2D => (Instruction { mnemonic: Mnemonic::And, mode: AddrMode::Abs, cycles: 4 }),
            0x2E => (Instruction { mnemonic: Mnemonic::Rol, mode: AddrMode::Abs, cycles: 6 }),
            0x30 => (Instruction { mnemonic: Mnemonic::Bmi, mode: AddrMode::Rel, cycles: 2 }),
            0x31 => (Instruction { mnemonic: Mnemonic::And, mode: AddrMode::Izy, cycles: 5 }),
            0x35 => (Instruction { mnemonic: Mnemonic::And, mode: AddrMode::Zpx, cycles: 4 }),
            0x36 => (Instruction { mnemonic: Mnemonic::Rol, mode: AddrMode::Zpx, cycles: 6 }),
            0x38 => (Instruction { mnemonic: Mnemonic::Sec, mode: AddrMode::Imp, cycles: 2 }),
            0x39 => (Instruction { mnemonic: Mnemonic::And, mode: AddrMode::Aby, cycles: 4 }),
            0x3D => (Instruction { mnemonic: Mnemonic::And, mode: AddrMode::Abx, cycles: 4 }),
            0x3E => (Instruction { mnemonic: Mnemonic::Rol, mode: AddrMode::Abx, cycles: 7 }),
            0x40 => (Instruction { mnemonic: Mnemonic::Rti, mode: AddrMode::Imp, cycles: 6 }),
            0x41 => (Instruction { mnemonic: Mnemonic::Eor, mode: AddrMode::Izx, cycles: 6 }),
            0x45 => (Instruction { mnemonic: Mnemonic::Eor, mode: AddrMode::Zp0, cycles: 3 }),
            0x46 => (Instruction { mnemonic: Mnemonic::Lsr, mode: AddrMode::Zp0, cycles: 5 }),
            0x48 => (Instruction { mnemonic: Mnemonic::Pha, mode: AddrMode::Imp, cycles: 3 }),
            0x49 => (Instruction { mnemonic: Mnemonic::Eor, mode: AddrMode::Imm, cycles: 2 }),
            0x4A => (Instruction { mnemonic: Mnemonic::Lsr, mode: AddrMode::Acc, cycles: 2 }),
            0x4C => (Instruction { mnemonic: Mnemonic::Jmp, mode: AddrMode::Abs, cycles: 3 }),
            0x4D => (Instruction { mnemonic: Mnemonic::Eor, mode: AddrMode::Abs, cycles: 4 }),
            0x4E => (Instruction { mnemonic: Mnemonic::Lsr, mode: AddrMode::Abs, cycles: 6 }),
            0x50 => (Instruction { mnemonic: Mnemonic::Bvc, mode: AddrMode::Rel, cycles: 2 }),
            0x51 => (Instruction { mnemonic: Mnemonic::Eor, mode: AddrMode::Izy, cycles: 5 }),
            0x55 => (Instruction { mnemonic: Mnemonic::Eor, mode: AddrMode::Zpx, cycles: 4 }),
            0x56 => (Instruction { mnemonic: Mnemonic::Lsr, mode: AddrMode::Zpx, cycles: 6 }),
            0x58 => (Instruction { mnemonic: Mnemonic::Cli, mode: AddrMode::Imp, cycles: 2 }),
            0x59 => (Instruction { mnemonic: Mnemonic::Eor, mode: AddrMode::Aby, cycles: 4 }),
            0x5D => (Instruction { mnemonic: Mnemonic::Eor, mode: AddrMode::Abx, cycles: 4 }),
            0x5E => (Instruction { mnemonic: Mnemonic::Lsr, mode: AddrMode::Abx, cycles: 7 }),
            0x60 => (Instruction { mnemonic: Mnemonic::Rts, mode: AddrMode::Imp, cycles: 6 }),
            0x61 => (Instruction { mnemonic: Mnemonic::Adc, mode: AddrMode::Izx, cycles: 6 }),
            0x65 => (Instruction { mnemonic: Mnemonic::Adc, mode: AddrMode::Zp0, cycles: 3 }),
            0x66 => (Instruction { mnemonic: Mnemonic::Ror, mode: AddrMode::Zp0, cycles: 5 }),
            0x68 => (Instruction { mnemonic: Mnemonic::Pla, mode: AddrMode::Imp, cycles: 4 }),
            0x69 => (Instruction { mnemonic: Mnemonic::Adc, mode: AddrMode::Imm, cycles: 2 }),
            0x6A => (Instruction { mnemonic: Mnemonic::Ror, mode: AddrMode::Acc, cycles: 2 }),
            0x6C => (Instruction { mnemonic: Mnemonic::Jmp, mode: AddrMode::Ind, cycles: 5 }),
            0x6D => (Instruction { mnemonic: Mnemonic::Adc, mode: AddrMode::Abs, cycles: 4 }),
            0x6E => (Instruction { mnemonic: Mnemonic::Ror, mode: AddrMode::Abs, cycles: 6 }),
            0x70 => (Instruction { mnemonic: Mnemonic::Bvs, mode: AddrMode::Rel, cycles: 2 }),
            0x71 => (Instruction { mnemonic: Mnemonic::Adc, mode: AddrMode::Izy, cycles: 5 }),
            0x75 => (Instruction { mnemonic: Mnemonic::Adc, mode: AddrMode::Zpx, cycles: 4 }),
            0x76 => (Instruction { mnemonic: Mnemonic::Ror, mode: AddrMode::Zpx, cycles: 6 }),
            0x78 => (Instruction { mnemonic: Mnemonic::Sei, mode: AddrMode::Imp, cycles: 2 }),
            0x79 => (Instruction { mnemonic: Mnemonic::Adc, mode: AddrMode::Aby, cycles: 4 }),
            0x7D => (Instruction { mnemonic: Mnemonic::Adc, mode: AddrMode::Abx, cycles: 4 }),
            0x7E => (Instruction { mnemonic: Mnemonic::Ror, mode: AddrMode::Abx, cycles: 7 }),
            0x81 => (Instruction { mnemonic: Mnemonic::Sta, mode: AddrMode::Izx, cycles: 6 }),
            0x84 => (Instruction { mnemonic: Mnemonic::Sty, mode: AddrMode::Zp0, cycles: 3 }),
            0x85 => (Instruction { mnemonic: Mnemonic::Sta, mode: AddrMode::Zp0, cycles: 3 }),
            0x86 => (Instruction { mnemonic: Mnemonic::Stx, mode: AddrMode::Zp0, cycles: 3 }),
            0x88 => (Instruction { mnemonic: Mnemonic::Dey, mode: AddrMode::Imp, cycles: 2 }),
            0x8A => (Instruction { mnemonic: Mnemonic::Txa, mode: AddrMode::Imp, cycles: 2 }),
            0x8C => (Instruction { mnemonic: Mnemonic::Sty, mode: AddrMode::Abs, cycles: 4 }),
            0x8D => (Instruction { mnemonic: Mnemonic::Sta, mode: AddrMode::Abs, cycles: 4 }),
            0x8E => (Instruction { mnemonic: Mnemonic::Stx, mode: AddrMode::Abs, cycles: 4 }),
            0x90 => (Instruction { mnemonic: Mnemonic::Bcc, mode: AddrMode::Rel, cycles: 2 }),
            0x91 => (Instruction { mnemonic: Mnemonic::Sta, mode: AddrMode::Izy, cycles: 6 }),
            0x94 => (Instruction { mnemonic: Mnemonic::Sty, mode: AddrMode::Zpx, cycles: 4 }),
            0x95 => (Instruction { mnemonic: Mnemonic::Sta, mode: AddrMode::Zpx, cycles: 4 }),
            0x96 => (Instruction { mnemonic: Mnemonic::Stx, mode: AddrMode::Zpy, cycles: 4 }),
            0x98 => (Instruction { mnemonic: Mnemonic::Tya, mode: AddrMode::Imp, cycles: 2 }),
            0x99 => (Instruction { mnemonic: Mnemonic::Sta, mode: AddrMode::Aby, cycles: 5 }),
            0x9A => (Instruction { mnemonic: Mnemonic::Txs, mode: AddrMode::Imp, cycles: 2 }),
            0x9D => (Instruction { mnemonic: Mnemonic::Sta, mode: AddrMode::Abx, cycles: 5 }),
            0xA0 => (Instruction { mnemonic: Mnemonic::Ldy, mode: AddrMode::Imm, cycles: 2 }),
            0xA1 => (Instruction { mnemonic: Mnemonic::Lda, mode: AddrMode::Izx, cycles: 6 }),
            0xA2 => (Instruction { mnemonic: Mnemonic::Ldx, mode: AddrMode::Imm, cycles: 2 }),
            0xA4 => (Instruction { mnemonic: Mnemonic::Ldy, mode: AddrMode::Zp0, cycles: 3 }),
            0xA5 => (Instruction { mnemonic: Mnemonic::Lda, mode: AddrMode::Zp0, cycles: 3 }),
            0xA6 => (Instruction { mnemonic: Mnemonic::Ldx, mode: AddrMode::Zp0, cycles: 3 }),
            0xA8 => (Instruction { mnemonic: Mnemonic::Tay, mode: AddrMode::Imp, cycles: 2 }),
            0xA9 => (Instruction { mnemonic: Mnemonic::Lda, mode: AddrMode::Imm, cycles: 2 }),
            0xAA => (Instruction { mnemonic: Mnemonic::Tax, mode: AddrMode::Imp, cycles: 2 }),
            0xAC => (Instruction { mnemonic: Mnemonic::Ldy, mode: AddrMode::Abs, cycles: 4 }),
            0xAD => (Instruction { mnemonic: Mnemonic::Lda, mode: AddrMode::Abs, cycles: 4 }),
            0xAE => (Instruction { mnemonic: Mnemonic::Ldx, mode: AddrMode::Abs, cycles: 4 }),
            0xB0 => (Instruction { mnemonic: Mnemonic::Bcs, mode: AddrMode::Rel, cycles: 2 }),
            0xB1 => (Instruction { mnemonic: Mnemonic::Lda, mode: AddrMode::Izy, cycles: 5 }),
            0xB4 => (Instruction { mnemonic: Mnemonic::Ldy, mode: AddrMode::Zpx, cycles: 4 }),
            0xB5 => (Instruction { mnemonic: Mnemonic::Lda, mode: AddrMode::Zpx, cycles: 4 }),
            0xB6 => (Instruction { mnemonic: Mnemonic::Ldx, mode: AddrMode::Zpy, cycles: 4 }),
            0xB8 => (Instruction { mnemonic: Mnemonic::Clv, mode: AddrMode::Imp, cycles: 2 }),
            0xB9 => (Instruction { mnemonic: Mnemonic::Lda, mode: AddrMode::Aby, cycles: 4 }),
            0xBA => (Instruction { mnemonic: Mnemonic::Tsx, mode: AddrMode::Imp, cycles: 2 }),
            0xBC => (Instruction { mnemonic: Mnemonic::Ldy, mode: AddrMode::Abx, cycles: 4 }),
            0xBD => (Instruction { mnemonic: Mnemonic::Lda, mode: AddrMode::Abx, cycles: 4 }),
            0xBE => (Instruction { mnemonic: Mnemonic::Ldx, mode: AddrMode::Aby, cycles: 4 }),
            0xC0 => (Instruction { mnemonic: Mnemonic::Cpy, mode: AddrMode::Imm, cycles: 2 }),
            0xC1 => (Instruction { mnemonic: Mnemonic::Cmp, mode: AddrMode::Izx, cycles: 6 }),
            0xC4 => (Instruction { mnemonic: Mnemonic::Cpy, mode: AddrMode::Zp0, cycles: 3 }),
            0xC5 => (Instruction { mnemonic: Mnemonic::Cmp, mode: AddrMode::Zp0, cycles: 3 }),
            0xC6 => (Instruction { mnemonic: Mnemonic::Dec, mode: AddrMode::Zp0, cycles: 5 }),
            0xC8 => (Instruction { mnemonic: Mnemonic::Iny, mode: AddrMode::Imp, cycles: 2 }),
            0xC9 => (Instruction { mnemonic: Mnemonic::Cmp, mode: AddrMode::Imm, cycles: 2 }),
            0xCA => (Instruction { mnemonic: Mnemonic::Dex, mode: AddrMode::Imp, cycles: 2 }),
            0xCC => (Instruction { mnemonic: Mnemonic::Cpy, mode: AddrMode::Abs, cycles: 4 }),
            0xCD => (Instruction { mnemonic: Mnemonic::Cmp, mode: AddrMode::Abs, cycles: 4 }),
            0xCE => (Instruction { mnemonic: Mnemonic::Dec, mode: AddrMode::Abs, cycles: 6 }),
            0xD0 => (Instruction { mnemonic: Mnemonic::Bne, mode: AddrMode::Rel, cycles: 2 }),
            0xD1 => (Instruction { mnemonic: Mnemonic::Cmp, mode: AddrMode::Izy, cycles: 5 }),
            0xD5 => (Instruction { mnemonic: Mnemonic::Cmp, mode: AddrMode::Zpx, cycles: 4 }),
            0xD6 => (Instruction { mnemonic: Mnemonic::Dec, mode: AddrMode::Zpx, cycles: 6 }),
            0xD8 => (Instruction { mnemonic: Mnemonic::Cld, mode: AddrMode::Imp, cycles: 2 }),
            0xD9 => (Instruction { mnemonic: Mnemonic::Cmp, mode: AddrMode::Aby, cycles: 4 }),
            0xDD => (Instruction { mnemonic: Mnemonic::Cmp, mode: AddrMode::Abx, cycles: 4 }),
            0xDE => (Instruction { mnemonic: Mnemonic::Dec, mode: AddrMode::Abx, cycles: 7 }),
            0xE0 => (Instruction { mnemonic: Mnemonic::Cpx, mode: AddrMode::Imm, cycles: 2 }),
            0xE1 => (Instruction { mnemonic: Mnemonic::Sbc, mode: AddrMode::Izx, cycles: 6 }),
            0xE4 => (Instruction { mnemonic: Mnemonic::Cpx, mode: AddrMode::Zp0, cycles: 3 }),
            0xE5 => (Instruction { mnemonic: Mnemonic::Sbc, mode: AddrMode::Zp0, cycles: 3 }),
            0xE6 => (Instruction { mnemonic: Mnemonic::Inc, mode: AddrMode::Zp0, cycles: 5 }),
            0xE8 => (Instruction { mnemonic: Mnemonic::Inx, mode: AddrMode::Imp, cycles: 2 }),
            0xE9 => (Instruction { mnemonic: Mnemonic::Sbc, mode: AddrMode::Imm, cycles: 2 }),
            0xEA => (Instruction { mnemonic: Mnemonic::Nop, mode: AddrMode::Imp, cycles: 2 }),
            0xEC => (Instruction { mnemonic: Mnemonic::Cpx, mode: AddrMode::Abs, cycles: 4 }),
            0xED => (Instruction { mnemonic: Mnemonic::Sbc, mode: AddrMode::Abs, cycles: 4 }),
            0xEE => (Instruction { mnemonic: Mnemonic::Inc, mode: AddrMode::Abs, cycles: 6 }),
            0xF0 => (Instruction { mnemonic: Mnemonic::Beq, mode: AddrMode::Rel, cycles: 2 }),
            0xF1 => (Instruction { mnemonic: Mnemonic::Sbc, mode: AddrMode::Izy, cycles: 5 }),
            0xF5 => (Instruction { mnemonic: Mnemonic::Sbc, mode: AddrMode::Zpx, cycles: 4 }),
            0xF6 => (Instruction { mnemonic: Mnemonic::Inc, mode: AddrMode::Zpx, cycles: 6 }),
            0xF8 => (Instruction { mnemonic: Mnemonic::Sed, mode: AddrMode::Imp, cycles: 2 }),
            0xF9 => (Instruction { mnemonic: Mnemonic::Sbc, mode: AddrMode::Aby, cycles: 4 }),
            0xFD => (Instruction { mnemonic: Mnemonic::Sbc, mode: AddrMode::Abx, cycles: 4 }),
            0xFE => (Instruction { mnemonic: Mnemonic::Inc, mode: AddrMode::Abx, cycles: 7 }),
            0x02 | 0x0B | 0x12 | 0x1A | 0x22 | 0x2B | 0x32 | 0x3A | 0x42 | 0x4B | 0x52 | 0x5A | 0x62 | 0x6B | 0x72 | 0x7A | 0x80 | 0x82 | 0x89 | 0x8B | 0x92 | 0xAB | 0xB2 | 0xC2 | 0xCB | 0xD2 | 0xDA | 0xE2 | 0xEB | 0xF2 | 0xFA => (Instruction { mnemonic: Mnemonic::Xxx, mode: AddrMode::Imp, cycles: 2 }),
            0x04 | 0x44 | 0x64 | 0x87 | 0xA7 => (Instruction { mnemonic: Mnemonic::Xxx, mode: AddrMode::Imp, cycles: 3 }),
            0x0C | 0x14 | 0x1C | 0x34 | 0x3C | 0x54 | 0x5C | 0x74 | 0x7C | 0x8F | 0x97 | 0xAF | 0xB7 | 0xBB | 0xBF | 0xD4 | 0xDC | 0xF4 | 0xFC => (Instruction { mnemonic: Mnemonic::Xxx, mode: AddrMode::Imp, cycles: 4 }),
            0x07 | 0x27 | 0x47 | 0x67 | 0x9B | 0x9C | 0x9E | 0x9F | 0xB3 | 0xC7 | 0xE7 => (Instruction { mnemonic: Mnemonic::Xxx, mode: AddrMode::Imp, cycles: 5 }),
            0x0F | 0x17 | 0x2F | 0x37 | 0x4F | 0x57 | 0x6F | 0x77 | 0x83 | 0x93 | 0xA3 | 0xCF | 0xD7 | 0xEF | 0xF7 => (Instruction { mnemonic: Mnemonic::Xxx, mode: AddrMode::Imp, cycles: 6 }),
            0x1B | 0x1F | 0x3B | 0x3F | 0x5B | 0x5F | 0x7B | 0x7F | 0xDB | 0xDF | 0xFB | 0xFF => (Instruction { mnemonic: Mnemonic::Xxx, mode: AddrMode::Imp, cycles: 7 }),
            0x03 | 0x13 | 0x23 | 0x33 | 0x43 | 0x53 | 0x63 | 0x73 | 0xC3 | 0xD3 | 0xE3 | 0xF3 => (Instruction { mnemonic: Mnemonic::Xxx, mode: AddrMode::Imp, cycles: 8 }),
        }
    }

    /// Executable face of `needs_fetch`.
    pub fn requires_fetch(&self) -> (r: bool)
        ensures
            r == needs_fetch(self.mnemonic, self.mode),
    {
        if matches!(self.mode, AddrMode::Imp | AddrMode::Acc | AddrMode::Rel) {
            false
        } else {
            matches!(self.mnemonic, Mnemonic::Adc | Mnemonic::And | Mnemonic::Asl | Mnemonic::Bit | Mnemonic::Cmp | Mnemonic::Cpx | Mnemonic::Cpy | Mnemonic::Dec | Mnemonic::Eor | Mnemonic::Inc | Mnemonic::Lda | Mnemonic::Ldx | Mnemonic::Ldy | Mnemonic::Lsr | Mnemonic::Ora | Mnemonic::Rol | Mnemonic::Ror | Mnemonic::Sbc)
        }
    }

    /// Executable face of `honors_page_cross`.
    pub fn pays_page_cross(&self) -> (r: bool)
        ensures
            r == honors_page_cross(self.mnemonic),
    {
        matches!(self.mnemonic, Mnemonic::Adc | Mnemonic::And | Mnemonic::Cmp | Mnemonic::Eor | Mnemonic::Lda | Mnemonic::Ldx | Mnemonic::Ldy | Mnemonic::Ora | Mnemonic::Sbc)
    }
}

} // verus!
