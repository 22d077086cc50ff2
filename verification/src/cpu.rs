//! 6502-class processor: eight-bit registers, a 16-bit program counter, a
//! stack in page one, packed status flags, and an interpreter covering the
//! 151 legal opcodes with their documented cycle costs.
//!
//! Every transition is mirrored by a spec function over [`MachV`], the pair
//! of processor state and bus state; the executable code is proved equal to
//! those mirrors, so `step`'s contract pins down the whole machine.

use vstd::prelude::*;
use crate::EmuError;
use crate::{wadd8, wsub8, wadd16, wsub16};
use crate::bus::{Bus, BusV, bus_wf, bus_read_spec, bus_write_spec};
use crate::optable::{AddrMode, Instruction, Mnemonic, decode, honors_page_cross, legal_opcode, needs_fetch};

verus! {

#[derive(Clone, Copy, PartialEq, Eq, Structural, Debug)]
pub struct Registers {
    /// Accumulator.
    pub a: u8,
    pub x: u8,
    pub y: u8,
    /// Program counter.
    pub pc: u16,
    /// Stack pointer; the stack lives at 0x0100 + sp and grows downward.
    pub sp: u8,
    /// Status flags, C,Z,I,D,B,U,V,N in bits 0..8.
    pub f: u8,
}

#[derive(Clone, Copy, PartialEq, Eq, Structural, Debug)]
pub struct CPU {
    /// Monotonic cycle counter.
    pub cycles: u64,
    pub registers: Registers,
    /// Effective address resolved by the current instruction's mode.
    pub addr_abs: u16,
    /// Relative branch offset, as the raw operand byte.
    pub addr_rel: u8,
    /// Memory operand read for the current instruction.
    pub fetched_data: u8,
}

/// One status flag.
#[derive(Clone, Copy, PartialEq, Eq, Structural, Debug)]
pub enum Flag {
    C,
    Z,
    I,
    D,
    B,
    U,
    V,
    N,
}

pub open spec fn flag_mask(fl: Flag) -> u8 {
    match fl {
        Flag::C => 0x01,
        Flag::Z => 0x02,
        Flag::I => 0x04,
        Flag::D => 0x08,
        Flag::B => 0x10,
        Flag::U => 0x20,
        Flag::V => 0x40,
        Flag::N => 0x80,
    }
}

pub open spec fn set_flag_spec(f: u8, mask: u8, on: bool) -> u8 {
    if on {
        f | mask
    } else {
        f & !mask
    }
}

pub open spec fn get_flag_spec(f: u8, mask: u8) -> u8 {
    if f & mask != 0 {
        1u8
    } else {
        0u8
    }
}

/// Z and N updated from a just-computed value, as every load, transfer and
/// arithmetic result does.
pub open spec fn set_zn(f: u8, v: u8) -> u8 {
    set_flag_spec(set_flag_spec(f, 0x02, v == 0), 0x80, v & 0x80 != 0)
}

/// The whole machine the processor acts on: its own registers plus the bus.
#[verifier::ext_equal]
pub ghost struct MachV {
    pub cpu: CPU,
    pub bus: BusV,
}

pub open spec fn mach(c: CPU, b: BusV) -> MachV {
    MachV { cpu: c, bus: b }
}

pub open spec fn mach_wf(m: MachV) -> bool {
    bus_wf(m.bus)
}

pub open spec fn with_cpu(m: MachV, c: CPU) -> MachV {
    MachV { cpu: c, ..m }
}

pub open spec fn with_pc(c: CPU, pc: u16) -> CPU {
    CPU { registers: Registers { pc: pc, ..c.registers }, ..c }
}

pub open spec fn with_f(c: CPU, f: u8) -> CPU {
    CPU { registers: Registers { f: f, ..c.registers }, ..c }
}

/// A read on the bus, lifted to the machine.
pub open spec fn read_m(m: MachV, addr: u16) -> (MachV, u8) {
    let (b2, v) = bus_read_spec(m.bus, addr);
    (MachV { bus: b2, ..m }, v)
}

/// A write on the bus, lifted to the machine.
pub open spec fn write_m(m: MachV, addr: u16, data: u8) -> MachV {
    MachV { bus: bus_write_spec(m.bus, addr, data), ..m }
}

/// Push one byte: store at 0x0100 + sp, then decrement sp modulo 256.
pub open spec fn push_spec(m: MachV, v: u8) -> MachV {
    let sp = m.cpu.registers.sp;
    let m1 = write_m(m, (0x0100 + sp as u16) as u16, v);
    with_cpu(m1, CPU { registers: Registers { sp: wsub8(sp, 1), ..m1.cpu.registers }, ..m1.cpu })
}

/// Pull one byte: increment sp modulo 256, then load from 0x0100 + sp.
pub open spec fn pull_spec(m: MachV) -> (MachV, u8) {
    let sp = wadd8(m.cpu.registers.sp, 1);
    let m1 = with_cpu(m, CPU { registers: Registers { sp: sp, ..m.cpu.registers }, ..m.cpu });
    read_m(m1, (0x0100 + sp as u16) as u16)
}

/// Read the instruction's memory operand into `fetched_data`.
pub open spec fn fetch_spec(m: MachV) -> MachV {
    let (m1, v) = read_m(m, m.cpu.addr_abs);
    with_cpu(m1, CPU { fetched_data: v, ..m1.cpu })
}

/// The branch offset as a 16-bit two's-complement displacement.
pub open spec fn sign_extend(off: u8) -> u16 {
    if off < 0x80 {
        off as u16
    } else {
        (off + 0xFF00) as u16
    }
}

pub open spec fn rel_target(pc: u16, off: u8) -> u16 {
    wadd16(pc, sign_extend(off))
}

// Addressing modes. Each steps the program counter past its operand bytes
// and leaves the effective address in `addr_abs` (the branch offset in
// `addr_rel`); the indexed modes also report whether the index carried into
// the address high byte.

pub open spec fn imm_spec(m: MachV) -> MachV {
    let c = m.cpu;
    with_cpu(
        m,
        CPU {
            addr_abs: c.registers.pc,
            registers: Registers { pc: wadd16(c.registers.pc, 1), ..c.registers },
            ..c
        },
    )
}

pub open spec fn zp0_spec(m: MachV) -> MachV {
    let (m1, v) = read_m(m, m.cpu.registers.pc);
    let c = m1.cpu;
    with_cpu(
        m1,
        CPU {
            addr_abs: v as u16,
            registers: Registers { pc: wadd16(c.registers.pc, 1), ..c.registers },
            ..c
        },
    )
}

pub open spec fn zpx_spec(m: MachV) -> MachV {
    let (m1, v) = read_m(m, m.cpu.registers.pc);
    let c = m1.cpu;
    with_cpu(
        m1,
        CPU {
            addr_abs: wadd8(v, c.registers.x) as u16,
            registers: Registers { pc: wadd16(c.registers.pc, 1), ..c.registers },
            ..c
        },
    )
}

pub open spec fn zpy_spec(m: MachV) -> MachV {
    let (m1, v) = read_m(m, m.cpu.registers.pc);
    let c = m1.cpu;
    with_cpu(
        m1,
        CPU {
            addr_abs: wadd8(v, c.registers.y) as u16,
            registers: Registers { pc: wadd16(c.registers.pc, 1), ..c.registers },
            ..c
        },
    )
}

/// The two little-endian operand bytes, program counter stepped past them.
pub open spec fn abs_operand(m: MachV) -> (MachV, u8, u8) {
    let (m1, lo) = read_m(m, m.cpu.registers.pc);
    let m1 = with_cpu(m1, with_pc(m1.cpu, wadd16(m1.cpu.registers.pc, 1)));
    let (m2, hi) = read_m(m1, m1.cpu.registers.pc);
    let m2 = with_cpu(m2, with_pc(m2.cpu, wadd16(m2.cpu.registers.pc, 1)));
    (m2, lo, hi)
}

pub open spec fn abs_spec(m: MachV) -> MachV {
    let (m2, lo, hi) = abs_operand(m);
    with_cpu(m2, CPU { addr_abs: ((hi as u16) << 8) | (lo as u16), ..m2.cpu })
}

pub open spec fn abx_spec(m: MachV) -> (MachV, bool) {
    let (m2, lo, hi) = abs_operand(m);
    let base = ((hi as u16) << 8) | (lo as u16);
    let addr = wadd16(base, m2.cpu.registers.x as u16);
    (
        with_cpu(m2, CPU { addr_abs: addr, ..m2.cpu }),
        (addr & 0xFF00) != ((hi as u16) << 8),
    )
}

pub open spec fn aby_spec(m: MachV) -> (MachV, bool) {
    let (m2, lo, hi) = abs_operand(m);
    let base = ((hi as u16) << 8) | (lo as u16);
    let addr = wadd16(base, m2.cpu.registers.y as u16);
    (
        with_cpu(m2, CPU { addr_abs: addr, ..m2.cpu }),
        (addr & 0xFF00) != ((hi as u16) << 8),
    )
}

/// Indirect addressing, with the hardware's page-wrap bug: when the pointer
/// low byte is 0xFF the high byte of the target comes from the start of the
/// same page, not from the next one.
pub open spec fn ind_spec(m: MachV) -> MachV {
    let (m2, lo, hi) = abs_operand(m);
    let ptr = ((hi as u16) << 8) | (lo as u16);
    if lo == 0xFF {
        let (mh, hb) = read_m(m2, ptr & 0xFF00);
        let (ml, lb) = read_m(mh, ptr);
        with_cpu(ml, CPU { addr_abs: ((hb as u16) << 8) | (lb as u16), ..ml.cpu })
    } else {
        let (mh, hb) = read_m(m2, wadd16(ptr, 1));
        let (ml, lb) = read_m(mh, ptr);
        with_cpu(ml, CPU { addr_abs: ((hb as u16) << 8) | (lb as u16), ..ml.cpu })
    }
}

pub open spec fn izx_spec(m: MachV) -> MachV {
    let (m1, t) = read_m(m, m.cpu.registers.pc);
    let m1 = with_cpu(m1, with_pc(m1.cpu, wadd16(m1.cpu.registers.pc, 1)));
    let (m2, lo) = read_m(m1, wadd8(t, m1.cpu.registers.x) as u16);
    let (m3, hi) = read_m(m2, wadd8(wadd8(t, m2.cpu.registers.x), 1) as u16);
    with_cpu(m3, CPU { addr_abs: ((hi as u16) << 8) | (lo as u16), ..m3.cpu })
}

pub open spec fn izy_spec(m: MachV) -> (MachV, bool) {
    let (m1, t) = read_m(m, m.cpu.registers.pc);
    let m1 = with_cpu(m1, with_pc(m1.cpu, wadd16(m1.cpu.registers.pc, 1)));
    let (m2, lo) = read_m(m1, t as u16);
    let (m3, hi) = read_m(m2, wadd8(t, 1) as u16);
    let base = ((hi as u16) << 8) | (lo as u16);
    let addr = wadd16(base, m3.cpu.registers.y as u16);
    (
        with_cpu(m3, CPU { addr_abs: addr, ..m3.cpu }),
        (addr & 0xFF00) != ((hi as u16) << 8),
    )
}

pub open spec fn rel_spec(m: MachV) -> MachV {
    let (m1, v) = read_m(m, m.cpu.registers.pc);
    let c = m1.cpu;
    with_cpu(
        m1,
        CPU {
            addr_rel: v,
            registers: Registers { pc: wadd16(c.registers.pc, 1), ..c.registers },
            ..c
        },
    )
}

/// Address resolution for a whole mode: the machine afterwards, plus
/// whether an indexed read crossed a page.
pub open spec fn mode_spec(m: MachV, mode: AddrMode) -> (MachV, bool) {
    match mode {
        AddrMode::Imp => (m, false),
        AddrMode::Acc => (m, false),
        AddrMode::Imm => (imm_spec(m), false),
        AddrMode::Zp0 => (zp0_spec(m), false),
        AddrMode::Zpx => (zpx_spec(m), false),
        AddrMode::Zpy => (zpy_spec(m), false),
        AddrMode::Abs => (abs_spec(m), false),
        AddrMode::Abx => abx_spec(m),
        AddrMode::Aby => aby_spec(m),
        AddrMode::Ind => (ind_spec(m), false),
        AddrMode::Izx => (izx_spec(m), false),
        AddrMode::Izy => izy_spec(m),
        AddrMode::Rel => (rel_spec(m), false),
    }
}


// Instruction operations over the processor alone. Each mirrors one
// executable helper below.

pub open spec fn adc_cpu(c: CPU) -> CPU {
    let a = c.registers.a as u16;
    let md = c.fetched_data as u16;
    let carry = get_flag_spec(c.registers.f, 0x01) as u16;
    let result = (a + md + carry) as u16;
    let f1 = set_flag_spec(c.registers.f, 0x01, result > 0xFF);
    let f2 = set_flag_spec(f1, 0x02, result & 0x00FF == 0);
    let f3 = set_flag_spec(f2, 0x40, (!(a ^ md) & (a ^ result)) & 0x0080 != 0);
    let f4 = set_flag_spec(f3, 0x80, result & 0x80 != 0);
    CPU { registers: Registers { a: (result & 0x00FF) as u8, f: f4, ..c.registers }, ..c }
}

/// SBC is ADC with the operand complemented; decimal mode is not
/// implemented, matching the console variant of the processor.
pub open spec fn sbc_cpu(c: CPU) -> CPU {
    let a = c.registers.a as u16;
    let md = (c.fetched_data as u16) ^ 0x00FF;
    let carry = get_flag_spec(c.registers.f, 0x01) as u16;
    let result = (a + md + carry) as u16;
    let f1 = set_flag_spec(c.registers.f, 0x01, result > 0xFF);
    let f2 = set_flag_spec(f1, 0x02, result & 0x00FF == 0);
    let f3 = set_flag_spec(f2, 0x40, ((a ^ result) & (md ^ result)) & 0x0080 != 0);
    let f4 = set_flag_spec(f3, 0x80, result & 0x80 != 0);
    CPU { registers: Registers { a: (result & 0x00FF) as u8, f: f4, ..c.registers }, ..c }
}

pub open spec fn and_cpu(c: CPU) -> CPU {
    let v = c.registers.a & c.fetched_data;
    CPU { registers: Registers { a: v, f: set_zn(c.registers.f, v), ..c.registers }, ..c }
}

pub open spec fn ora_cpu(c: CPU) -> CPU {
    let v = c.registers.a | c.fetched_data;
    CPU { registers: Registers { a: v, f: set_zn(c.registers.f, v), ..c.registers }, ..c }
}

pub open spec fn eor_cpu(c: CPU) -> CPU {
    let v = c.registers.a ^ c.fetched_data;
    CPU { registers: Registers { a: v, f: set_zn(c.registers.f, v), ..c.registers }, ..c }
}

pub open spec fn lda_cpu(c: CPU) -> CPU {
    let v = c.fetched_data;
    CPU { registers: Registers { a: v, f: set_zn(c.registers.f, v), ..c.registers }, ..c }
}

pub open spec fn ldx_cpu(c: CPU) -> CPU {
    let v = c.fetched_data;
    CPU { registers: Registers { x: v, f: set_zn(c.registers.f, v), ..c.registers }, ..c }
}

pub open spec fn ldy_cpu(c: CPU) -> CPU {
    let v = c.fetched_data;
    CPU { registers: Registers { y: v, f: set_zn(c.registers.f, v), ..c.registers }, ..c }
}

/// Flags of a compare: C when the register is no less than the operand, Z
/// on equality, N from bit 7 of the wrapping difference.
pub open spec fn cmp_flags(f: u8, reg: u8, md: u8) -> u8 {
    let f1 = set_flag_spec(f, 0x01, reg >= md);
    let f2 = set_flag_spec(f1, 0x02, reg == md);
    set_flag_spec(f2, 0x80, wsub8(reg, md) & 0x80 != 0)
}

pub open spec fn cmp_cpu(c: CPU) -> CPU {
    with_f(c, cmp_flags(c.registers.f, c.registers.a, c.fetched_data))
}

pub open spec fn cpx_cpu(c: CPU) -> CPU {
    with_f(c, cmp_flags(c.registers.f, c.registers.x, c.fetched_data))
}

pub open spec fn cpy_cpu(c: CPU) -> CPU {
    with_f(c, cmp_flags(c.registers.f, c.registers.y, c.fetched_data))
}

pub open spec fn bit_cpu(c: CPU) -> CPU {
    let f1 = set_flag_spec(c.registers.f, 0x02, c.registers.a & c.fetched_data == 0);
    let f2 = set_flag_spec(f1, 0x40, c.fetched_data & 0x40 != 0);
    with_f(c, set_flag_spec(f2, 0x80, c.fetched_data & 0x80 != 0))
}

pub open spec fn tax_cpu(c: CPU) -> CPU {
    let v = c.registers.a;
    CPU { registers: Registers { x: v, f: set_zn(c.registers.f, v), ..c.registers }, ..c }
}

pub open spec fn tay_cpu(c: CPU) -> CPU {
    let v = c.registers.a;
    CPU { registers: Registers { y: v, f: set_zn(c.registers.f, v), ..c.registers }, ..c }
}

pub open spec fn txa_cpu(c: CPU) -> CPU {
    let v = c.registers.x;
    CPU { registers: Registers { a: v, f: set_zn(c.registers.f, v), ..c.registers }, ..c }
}

pub open spec fn tya_cpu(c: CPU) -> CPU {
    let v = c.registers.y;
    CPU { registers: Registers { a: v, f: set_zn(c.registers.f, v), ..c.registers }, ..c }
}

pub open spec fn tsx_cpu(c: CPU) -> CPU {
    let v = c.registers.sp;
    CPU { registers: Registers { x: v, f: set_zn(c.registers.f, v), ..c.registers }, ..c }
}

/// TSX's counterpart sets no flags.
pub open spec fn txs_cpu(c: CPU) -> CPU {
    CPU { registers: Registers { sp: c.registers.x, ..c.registers }, ..c }
}

pub open spec fn inx_cpu(c: CPU) -> CPU {
    let v = wadd8(c.registers.x, 1);
    CPU { registers: Registers { x: v, f: set_zn(c.registers.f, v), ..c.registers }, ..c }
}

pub open spec fn iny_cpu(c: CPU) -> CPU {
    let v = wadd8(c.registers.y, 1);
    CPU { registers: Registers { y: v, f: set_zn(c.registers.f, v), ..c.registers }, ..c }
}

pub open spec fn dex_cpu(c: CPU) -> CPU {
    let v = wsub8(c.registers.x, 1);
    CPU { registers: Registers { x: v, f: set_zn(c.registers.f, v), ..c.registers }, ..c }
}

pub open spec fn dey_cpu(c: CPU) -> CPU {
    let v = wsub8(c.registers.y, 1);
    CPU { registers: Registers { y: v, f: set_zn(c.registers.f, v), ..c.registers }, ..c }
}

pub open spec fn jmp_cpu(c: CPU) -> CPU {
    with_pc(c, c.addr_abs)
}

/// A taken branch retargets the program counter and costs one extra cycle,
/// two when the target lies in another page than the next instruction.
pub open spec fn branch_cpu(c: CPU, cond: bool) -> (CPU, u8) {
    if cond {
        let t = rel_target(c.registers.pc, c.addr_rel);
        let e: u8 = if (t & 0xFF00) != (c.registers.pc & 0xFF00) {
            2
        } else {
            1
        };
        (with_pc(c, t), e)
    } else {
        (c, 0)
    }
}

/// Shift left: C takes bit 7, Z and N follow the result.
pub open spec fn asl_val(f: u8, v: u8) -> (u8, u8) {
    let f1 = set_flag_spec(f, 0x01, v & 0x80 != 0);
    let v2 = v << 1;
    (v2, set_zn(f1, v2))
}

/// Shift right: C takes bit 0.
pub open spec fn lsr_val(f: u8, v: u8) -> (u8, u8) {
    let f1 = set_flag_spec(f, 0x01, v & 0x01 != 0);
    let v2 = v >> 1;
    (v2, set_zn(f1, v2))
}

/// Rotate left through C.
pub open spec fn rol_val(f: u8, v: u8) -> (u8, u8) {
    let old_carry = get_flag_spec(f, 0x01);
    let f1 = set_flag_spec(f, 0x01, v & 0x80 != 0);
    let v2 = (v << 1) | old_carry;
    (v2, set_zn(f1, v2))
}

/// Rotate right through C.
pub open spec fn ror_val(f: u8, v: u8) -> (u8, u8) {
    let old_carry = get_flag_spec(f, 0x01);
    let f1 = set_flag_spec(f, 0x01, v & 0x01 != 0);
    let v2 = (v >> 1) | (old_carry << 7);
    (v2, set_zn(f1, v2))
}

/// A shift or rotate applied to the accumulator.
pub open spec fn shift_acc_cpu(c: CPU, out: (u8, u8)) -> CPU {
    CPU { registers: Registers { a: out.0, f: out.1, ..c.registers }, ..c }
}

/// A shift or rotate applied to the resolved memory operand.
pub open spec fn shift_mem_spec(m: MachV, out: (u8, u8)) -> MachV {
    let m1 = write_m(m, m.cpu.addr_abs, out.0);
    with_cpu(m1, with_f(m1.cpu, out.1))
}

pub open spec fn inc_spec(m: MachV) -> MachV {
    let v = wadd8(m.cpu.fetched_data, 1);
    let m1 = write_m(m, m.cpu.addr_abs, v);
    with_cpu(m1, with_f(m1.cpu, set_zn(m1.cpu.registers.f, v)))
}

pub open spec fn dec_spec(m: MachV) -> MachV {
    let v = wsub8(m.cpu.fetched_data, 1);
    let m1 = write_m(m, m.cpu.addr_abs, v);
    with_cpu(m1, with_f(m1.cpu, set_zn(m1.cpu.registers.f, v)))
}

/// PHP pushes the status with both B and U set, a convention of the
/// hardware; the register itself is unchanged.
pub open spec fn php_spec(m: MachV) -> MachV {
    push_spec(m, m.cpu.registers.f | 0x10 | 0x20)
}

pub open spec fn pha_spec(m: MachV) -> MachV {
    push_spec(m, m.cpu.registers.a)
}

pub open spec fn pla_spec(m: MachV) -> MachV {
    let (m1, v) = pull_spec(m);
    with_cpu(
        m1,
        CPU {
            registers: Registers { a: v, f: set_zn(m1.cpu.registers.f, v), ..m1.cpu.registers },
            ..m1.cpu
        },
    )
}

/// PLP loads the status from the stack, forcing U set and B clear.
pub open spec fn plp_spec(m: MachV) -> MachV {
    let (m1, v) = pull_spec(m);
    with_cpu(m1, with_f(m1.cpu, (v | 0x20) & !0x10))
}

/// JSR pushes the address of its last operand byte, high byte first.
pub open spec fn jsr_spec(m: MachV) -> MachV {
    let pc1 = wsub16(m.cpu.registers.pc, 1);
    let m1 = with_cpu(m, with_pc(m.cpu, pc1));
    let m2 = push_spec(m1, ((pc1 >> 8) & 0x00FF) as u8);
    let m3 = push_spec(m2, (pc1 & 0x00FF) as u8);
    with_cpu(m3, with_pc(m3.cpu, m3.cpu.addr_abs))
}

pub open spec fn rts_spec(m: MachV) -> MachV {
    let (m1, lo) = pull_spec(m);
    let (m2, hi) = pull_spec(m1);
    with_cpu(m2, with_pc(m2.cpu, wadd16(((hi as u16) << 8) | (lo as u16), 1)))
}

pub open spec fn rti_spec(m: MachV) -> MachV {
    let (m1, v) = pull_spec(m);
    let m1 = with_cpu(m1, with_f(m1.cpu, (v | 0x20) & !0x10));
    let (m2, lo) = pull_spec(m1);
    let (m3, hi) = pull_spec(m2);
    with_cpu(m3, with_pc(m3.cpu, ((hi as u16) << 8) | (lo as u16)))
}

/// BRK pushes the byte after its padding byte and the status with B and U
/// set, sets I, and vectors through 0xFFFE.
pub open spec fn brk_spec(m: MachV) -> MachV {
    let pc1 = wadd16(m.cpu.registers.pc, 1);
    let m1 = with_cpu(m, with_pc(m.cpu, pc1));
    let m2 = push_spec(m1, ((pc1 >> 8) & 0x00FF) as u8);
    let m3 = push_spec(m2, (pc1 & 0x00FF) as u8);
    let m4 = push_spec(m3, m3.cpu.registers.f | 0x10 | 0x20);
    let m5 = with_cpu(m4, with_f(m4.cpu, m4.cpu.registers.f | 0x04));
    let (m6, lo) = read_m(m5, 0xFFFE);
    let (m7, hi) = read_m(m6, 0xFFFF);
    with_cpu(m7, with_pc(m7.cpu, ((hi as u16) << 8) | (lo as u16)))
}

/// One instruction's effect once its address and operand stand resolved:
/// the machine afterwards, plus the branch cycle penalty.
pub open spec fn exec_spec(m: MachV, mn: Mnemonic, acc: bool) -> (MachV, u8) {
    let c = m.cpu;
    match mn {
        Mnemonic::Adc => (with_cpu(m, adc_cpu(c)), 0),
        Mnemonic::Sbc => (with_cpu(m, sbc_cpu(c)), 0),
        Mnemonic::And => (with_cpu(m, and_cpu(c)), 0),
        Mnemonic::Ora => (with_cpu(m, ora_cpu(c)), 0),
        Mnemonic::Eor => (with_cpu(m, eor_cpu(c)), 0),
        Mnemonic::Lda => (with_cpu(m, lda_cpu(c)), 0),
        Mnemonic::Ldx => (with_cpu(m, ldx_cpu(c)), 0),
        Mnemonic::Ldy => (with_cpu(m, ldy_cpu(c)), 0),
        Mnemonic::Cmp => (with_cpu(m, cmp_cpu(c)), 0),
        Mnemonic::Cpx => (with_cpu(m, cpx_cpu(c)), 0),
        Mnemonic::Cpy => (with_cpu(m, cpy_cpu(c)), 0),
        Mnemonic::Bit => (with_cpu(m, bit_cpu(c)), 0),
        Mnemonic::Sta => (write_m(m, c.addr_abs, c.registers.a), 0),
        Mnemonic::Stx => (write_m(m, c.addr_abs, c.registers.x), 0),
        Mnemonic::Sty => (write_m(m, c.addr_abs, c.registers.y), 0),
        Mnemonic::Tax => (with_cpu(m, tax_cpu(c)), 0),
        Mnemonic::Tay => (with_cpu(m, tay_cpu(c)), 0),
        Mnemonic::Txa => (with_cpu(m, txa_cpu(c)), 0),
        Mnemonic::Tya => (with_cpu(m, tya_cpu(c)), 0),
        Mnemonic::Tsx => (with_cpu(m, tsx_cpu(c)), 0),
        Mnemonic::Txs => (with_cpu(m, txs_cpu(c)), 0),
        Mnemonic::Inx => (with_cpu(m, inx_cpu(c)), 0),
        Mnemonic::Iny => (with_cpu(m, iny_cpu(c)), 0),
        Mnemonic::Dex => (with_cpu(m, dex_cpu(c)), 0),
        Mnemonic::Dey => (with_cpu(m, dey_cpu(c)), 0),
        Mnemonic::Inc => (inc_spec(m), 0),
        Mnemonic::Dec => (dec_spec(m), 0),
        Mnemonic::Asl => if acc {
            (with_cpu(m, shift_acc_cpu(c, asl_val(c.registers.f, c.registers.a))), 0)
        } else {
            (shift_mem_spec(m, asl_val(c.registers.f, c.fetched_data)), 0)
        },
        Mnemonic::Lsr => if acc {
            (with_cpu(m, shift_acc_cpu(c, lsr_val(c.registers.f, c.registers.a))), 0)
        } else {
            (shift_mem_spec(m, lsr_val(c.registers.f, c.fetched_data)), 0)
        },
        Mnemonic::Rol => if acc {
            (with_cpu(m, shift_acc_cpu(c, rol_val(c.registers.f, c.registers.a))), 0)
        } else {
            (shift_mem_spec(m, rol_val(c.registers.f, c.fetched_data)), 0)
        },
        Mnemonic::Ror => if acc {
            (with_cpu(m, shift_acc_cpu(c, ror_val(c.registers.f, c.registers.a))), 0)
        } else {
            (shift_mem_spec(m, ror_val(c.registers.f, c.fetched_data)), 0)
        },
        Mnemonic::Bcs => {
            let (c2, e) = branch_cpu(c, c.registers.f & 0x01 != 0);
            (with_cpu(m, c2), e)
        },
        Mnemonic::Bcc => {
            let (c2, e) = branch_cpu(c, c.registers.f & 0x01 == 0);
            (with_cpu(m, c2), e)
        },
        Mnemonic::Beq => {
            let (c2, e) = branch_cpu(c, c.registers.f & 0x02 != 0);
            (with_cpu(m, c2), e)
        },
        Mnemonic::Bne => {
            let (c2, e) = branch_cpu(c, c.registers.f & 0x02 == 0);
            (with_cpu(m, c2), e)
        },
        Mnemonic::Bmi => {
            let (c2, e) = branch_cpu(c, c.registers.f & 0x80 != 0);
            (with_cpu(m, c2), e)
        },
        Mnemonic::Bpl => {
            let (c2, e) = branch_cpu(c, c.registers.f & 0x80 == 0);
            (with_cpu(m, c2), e)
        },
        Mnemonic::Bvs => {
            let (c2, e) = branch_cpu(c, c.registers.f & 0x40 != 0);
            (with_cpu(m, c2), e)
        },
        Mnemonic::Bvc => {
            let (c2, e) = branch_cpu(c, c.registers.f & 0x40 == 0);
            (with_cpu(m, c2), e)
        },
        Mnemonic::Jmp => (with_cpu(m, jmp_cpu(c)), 0),
        Mnemonic::Jsr => (jsr_spec(m), 0),
        Mnemonic::Rts => (rts_spec(m), 0),
        Mnemonic::Rti => (rti_spec(m), 0),
        Mnemonic::Brk => (brk_spec(m), 0),
        Mnemonic::Pha => (pha_spec(m), 0),
        Mnemonic::Php => (php_spec(m), 0),
        Mnemonic::Pla => (pla_spec(m), 0),
        Mnemonic::Plp => (plp_spec(m), 0),
        Mnemonic::Clc => (with_cpu(m, with_f(c, set_flag_spec(c.registers.f, 0x01, false))), 0),
        Mnemonic::Cld => (with_cpu(m, with_f(c, set_flag_spec(c.registers.f, 0x08, false))), 0),
        Mnemonic::Cli => (with_cpu(m, with_f(c, set_flag_spec(c.registers.f, 0x04, false))), 0),
        Mnemonic::Clv => (with_cpu(m, with_f(c, set_flag_spec(c.registers.f, 0x40, false))), 0),
        Mnemonic::Sec => (with_cpu(m, with_f(c, set_flag_spec(c.registers.f, 0x01, true))), 0),
        Mnemonic::Sei => (with_cpu(m, with_f(c, set_flag_spec(c.registers.f, 0x04, true))), 0),
        Mnemonic::Sed => (with_cpu(m, with_f(c, set_flag_spec(c.registers.f, 0x08, true))), 0),
        Mnemonic::Nop => (m, 0),
        Mnemonic::Xxx => (m, 0),
    }
}

/// `reset`: clear the registers, reload the entry point from the vector at
/// 0xFFFC, and spend 8 cycles.
pub open spec fn reset_spec(m: MachV) -> MachV {
    let c = m.cpu;
    let c1 = CPU {
        registers: Registers { a: 0, x: 0, y: 0, sp: 0xFD, f: 0x24, pc: c.registers.pc },
        addr_abs: 0,
        addr_rel: 0,
        fetched_data: 0,
        cycles: c.cycles,
    };
    let (m1, lo) = read_m(with_cpu(m, c1), 0xFFFC);
    let (m2, hi) = read_m(m1, 0xFFFD);
    with_cpu(
        m2,
        CPU {
            registers: Registers {
                pc: ((hi as u16) << 8) | (lo as u16),
                ..m2.cpu.registers
            },
            cycles: (m2.cpu.cycles + 8) as u64,
            ..m2.cpu
        },
    )
}

/// The shared interrupt entry: push the return address and the status with
/// B clear and U set, set I, vector through `vec_lo`, spend 7 cycles.
pub open spec fn interrupt_spec(m: MachV, vec_lo: u16) -> MachV {
    let c = m.cpu;
    let m1 = push_spec(m, ((c.registers.pc >> 8) & 0x00FF) as u8);
    let m2 = push_spec(m1, (m1.cpu.registers.pc & 0x00FF) as u8);
    let f2 = set_flag_spec(
        set_flag_spec(set_flag_spec(m2.cpu.registers.f, 0x10, false), 0x20, true),
        0x04,
        true,
    );
    let m3 = with_cpu(m2, with_f(m2.cpu, f2));
    let m4 = push_spec(m3, m3.cpu.registers.f);
    let (m5, lo) = read_m(m4, vec_lo);
    let (m6, hi) = read_m(m5, wadd16(vec_lo, 1));
    with_cpu(
        m6,
        CPU {
            registers: Registers {
                pc: ((hi as u16) << 8) | (lo as u16),
                ..m6.cpu.registers
            },
            cycles: (m6.cpu.cycles + 7) as u64,
            ..m6.cpu
        },
    )
}

/// `nmi` is unconditional and vectors through 0xFFFA.
pub open spec fn nmi_spec(m: MachV) -> MachV {
    interrupt_spec(m, 0xFFFA)
}

/// `irq` is gated on the I flag and vectors through 0xFFFE.
pub open spec fn irq_spec(m: MachV) -> MachV {
    if m.cpu.registers.f & 0x04 == 0 {
        interrupt_spec(m, 0xFFFE)
    } else {
        m
    }
}

/// One whole instruction: fetch the opcode, fail on an illegal byte, else
/// resolve the address, read the operand where the instruction wants one,
/// execute, and account the base cycles plus the page-cross and branch
/// penalties. Returns the machine afterwards and the cycles consumed.
#[verifier::opaque]
pub open spec fn step_spec(m: MachV) -> Option<(MachV, u8)> {
    let pc0 = m.cpu.registers.pc;
    let (mr, op) = read_m(m, pc0);
    let m1 = with_cpu(mr, with_pc(mr.cpu, wadd16(pc0, 1)));
    let ins = decode(op);
    if ins.mnemonic == Mnemonic::Xxx {
        None
    } else {
        let (m2, crossed) = mode_spec(m1, ins.mode);
        let m3 = if needs_fetch(ins.mnemonic, ins.mode) {
            fetch_spec(m2)
        } else {
            m2
        };
        let (m4, branch_extra) = exec_spec(m3, ins.mnemonic, ins.mode == AddrMode::Acc);
        let cross_extra: u8 = if honors_page_cross(ins.mnemonic) && crossed {
            1
        } else {
            0
        };
        let n = wadd8(wadd8(ins.cycles, cross_extra), branch_extra);
        let m5 = with_cpu(m4, CPU { cycles: (m4.cpu.cycles + n) as u64, ..m4.cpu });
        Some((m5, n))
    }
}

/// The power-up register file, before `reset` has loaded the entry vector.
pub open spec fn new_spec() -> CPU {
    CPU {
        cycles: 0,
        registers: Registers { a: 0, x: 0, y: 0, pc: 0, sp: 0xFD, f: 0x24 },
        addr_abs: 0,
        addr_rel: 0,
        fetched_data: 0,
    }
}

impl CPU {
    /// A powered-up processor, before `reset` has loaded the entry vector.
    pub fn new() -> (r: CPU)
        ensures
            r == new_spec(),
    {
        CPU {
            cycles: 0,
            registers: Registers { a: 0, x: 0, y: 0, pc: 0, sp: 0xFD, f: 0x24 },
            addr_abs: 0,
            addr_rel: 0,
            fetched_data: 0,
        }
    }

    /// 1 when the flag is set, 0 when it is clear.
    pub fn get_flag(&self, fl: Flag) -> (r: u8)
        ensures
            r == get_flag_spec(self.registers.f, flag_mask(fl)),
    {
        let mask = match fl {
            Flag::C => 0x01u8,
            Flag::Z => 0x02,
            Flag::I => 0x04,
            Flag::D => 0x08,
            Flag::B => 0x10,
            Flag::U => 0x20,
            Flag::V => 0x40,
            Flag::N => 0x80,
        };
        if self.registers.f & mask != 0 {
            0x01
        } else {
            0x00
        }
    }

    /// Set or clear one flag.
    pub fn set_flag(&mut self, fl: Flag, state: bool)
        ensures
            *final(self) == with_f(
                *old(self),
                set_flag_spec(old(self).registers.f, flag_mask(fl), state),
            ),
    {
        let mask = match fl {
            Flag::C => 0x01u8,
            Flag::Z => 0x02,
            Flag::I => 0x04,
            Flag::D => 0x08,
            Flag::B => 0x10,
            Flag::U => 0x20,
            Flag::V => 0x40,
            Flag::N => 0x80,
        };
        if state {
            self.registers.f = self.registers.f | mask;
        } else {
            self.registers.f = self.registers.f & !mask;
        }
    }

    /// Store Z and N for a result byte.
    fn update_zn(&mut self, v: u8)
        ensures
            *final(self) == with_f(*old(self), set_zn(old(self).registers.f, v)),
    {
        if v == 0 {
            self.registers.f = self.registers.f | 0x02;
        } else {
            self.registers.f = self.registers.f & !0x02;
        }
        if v & 0x80 != 0 {
            self.registers.f = self.registers.f | 0x80;
        } else {
            self.registers.f = self.registers.f & !0x80;
        }
    }

    fn push(&mut self, bus: &mut Bus, v: u8)
        requires
            bus_wf(old(bus)@),
        ensures
            mach(*final(self), final(bus)@) == push_spec(mach(*old(self), old(bus)@), v),
            bus_wf(final(bus)@),
    {
        bus.write(0x0100 + self.registers.sp as u16, v);
        self.registers.sp = self.registers.sp.wrapping_sub(1);
        proof {
            assert(mach(*self, bus@) =~= push_spec(mach(*old(self), old(bus)@), v));
        }
    }

    fn pull(&mut self, bus: &mut Bus) -> (r: u8)
        requires
            bus_wf(old(bus)@),
        ensures
            ({
                let (m2, v) = pull_spec(mach(*old(self), old(bus)@));
                mach(*final(self), final(bus)@) == m2 && r == v
            }),
            bus_wf(final(bus)@),
    {
        self.registers.sp = self.registers.sp.wrapping_add(1);
        let r = bus.read(0x0100 + self.registers.sp as u16);
        proof {
            assert(mach(*self, bus@) =~= pull_spec(mach(*old(self), old(bus)@)).0);
        }
        r
    }

    fn fetch(&mut self, bus: &mut Bus)
        requires
            bus_wf(old(bus)@),
        ensures
            mach(*final(self), final(bus)@) == fetch_spec(mach(*old(self), old(bus)@)),
            bus_wf(final(bus)@),
            final(self).cycles == old(self).cycles,
    {
        let v = bus.read(self.addr_abs);
        self.fetched_data = v;
        proof {
            assert(mach(*self, bus@) =~= fetch_spec(mach(*old(self), old(bus)@)));
        }
    }

    /// Resolve the effective address for `mode`, stepping the program
    /// counter past the operand; reports a page crossing by the index.
    fn resolve(&mut self, bus: &mut Bus, mode: AddrMode) -> (crossed: bool)
        requires
            bus_wf(old(bus)@),
        ensures
            ({
                let (m2, cr) = mode_spec(mach(*old(self), old(bus)@), mode);
                mach(*final(self), final(bus)@) == m2 && crossed == cr
            }),
            bus_wf(final(bus)@),
            final(self).cycles == old(self).cycles,
    {
        match mode {
            AddrMode::Imp | AddrMode::Acc => false,
            AddrMode::Imm => {
                self.addr_abs = self.registers.pc;
                self.registers.pc = self.registers.pc.wrapping_add(1);
                proof {
                    assert(mach(*self, bus@) =~= imm_spec(mach(*old(self), old(bus)@)));
                }
                false
            }
            AddrMode::Zp0 => {
                let v = bus.read(self.registers.pc);
                self.addr_abs = v as u16;
                self.registers.pc = self.registers.pc.wrapping_add(1);
                proof {
                    assert(mach(*self, bus@) =~= zp0_spec(mach(*old(self), old(bus)@)));
                }
                false
            }
            AddrMode::Zpx => {
                let v = bus.read(self.registers.pc);
                self.addr_abs = v.wrapping_add(self.registers.x) as u16;
                self.registers.pc = self.registers.pc.wrapping_add(1);
                proof {
                    assert(mach(*self, bus@) =~= zpx_spec(mach(*old(self), old(bus)@)));
                }
                false
            }
            AddrMode::Zpy => {
                let v = bus.read(self.registers.pc);
                self.addr_abs = v.wrapping_add(self.registers.y) as u16;
                self.registers.pc = self.registers.pc.wrapping_add(1);
                proof {
                    assert(mach(*self, bus@) =~= zpy_spec(mach(*old(self), old(bus)@)));
                }
                false
            }
            AddrMode::Abs => {
                let lo = bus.read(self.registers.pc);
                self.registers.pc = self.registers.pc.wrapping_add(1);
                let hi = bus.read(self.registers.pc);
                self.registers.pc = self.registers.pc.wrapping_add(1);
                self.addr_abs = ((hi as u16) << 8) | (lo as u16);
                proof {
                    assert(mach(*self, bus@) =~= abs_spec(mach(*old(self), old(bus)@)));
                }
                false
            }
            AddrMode::Abx => {
                let lo = bus.read(self.registers.pc);
                self.registers.pc = self.registers.pc.wrapping_add(1);
                let hi = bus.read(self.registers.pc);
                self.registers.pc = self.registers.pc.wrapping_add(1);
                let base = ((hi as u16) << 8) | (lo as u16);
                let addr = base.wrapping_add(self.registers.x as u16);
                self.addr_abs = addr;
                let crossed = (addr & 0xFF00) != ((hi as u16) << 8);
                proof {
                    assert(mach(*self, bus@) =~= abx_spec(mach(*old(self), old(bus)@)).0);
                }
                crossed
            }
            AddrMode::Aby => {
                let lo = bus.read(self.registers.pc);
                self.registers.pc = self.registers.pc.wrapping_add(1);
                let hi = bus.read(self.registers.pc);
                self.registers.pc = self.registers.pc.wrapping_add(1);
                let base = ((hi as u16) << 8) | (lo as u16);
                let addr = base.wrapping_add(self.registers.y as u16);
                self.addr_abs = addr;
                let crossed = (addr & 0xFF00) != ((hi as u16) << 8);
                proof {
                    assert(mach(*self, bus@) =~= aby_spec(mach(*old(self), old(bus)@)).0);
                }
                crossed
            }
            AddrMode::Ind => {
                let lo = bus.read(self.registers.pc);
                self.registers.pc = self.registers.pc.wrapping_add(1);
                let hi = bus.read(self.registers.pc);
                self.registers.pc = self.registers.pc.wrapping_add(1);
                let ptr = ((hi as u16) << 8) | (lo as u16);
                if lo == 0xFF {
                    let hb = bus.read(ptr & 0xFF00);
                    let lb = bus.read(ptr);
                    self.addr_abs = ((hb as u16) << 8) | (lb as u16);
                } else {
                    let hb = bus.read(ptr.wrapping_add(1));
                    let lb = bus.read(ptr);
                    self.addr_abs = ((hb as u16) << 8) | (lb as u16);
                }
                proof {
                    assert(mach(*self, bus@) =~= ind_spec(mach(*old(self), old(bus)@)));
                }
                false
            }
            AddrMode::Izx => {
                let t = bus.read(self.registers.pc);
                self.registers.pc = self.registers.pc.wrapping_add(1);
                let lo = bus.read(t.wrapping_add(self.registers.x) as u16);
                let hi = bus.read(t.wrapping_add(self.registers.x).wrapping_add(1) as u16);
                self.addr_abs = ((hi as u16) << 8) | (lo as u16);
                proof {
                    assert(mach(*self, bus@) =~= izx_spec(mach(*old(self), old(bus)@)));
                }
                false
            }
            AddrMode::Izy => {
                let t = bus.read(self.registers.pc);
                self.registers.pc = self.registers.pc.wrapping_add(1);
                let lo = bus.read(t as u16);
                let hi = bus.read(t.wrapping_add(1) as u16);
                let base = ((hi as u16) << 8) | (lo as u16);
                let addr = base.wrapping_add(self.registers.y as u16);
                self.addr_abs = addr;
                let crossed = (addr & 0xFF00) != ((hi as u16) << 8);
                proof {
                    assert(mach(*self, bus@) =~= izy_spec(mach(*old(self), old(bus)@)).0);
                }
                crossed
            }
            AddrMode::Rel => {
                let v = bus.read(self.registers.pc);
                self.addr_rel = v;
                self.registers.pc = self.registers.pc.wrapping_add(1);
                proof {
                    assert(mach(*self, bus@) =~= rel_spec(mach(*old(self), old(bus)@)));
                }
                false
            }
        }
    }

    /// Set or clear one flag bit by mask.
    fn put_flag(&mut self, mask: u8, on: bool)
        ensures
            *final(self) == with_f(*old(self), set_flag_spec(old(self).registers.f, mask, on)),
    {
        if on {
            self.registers.f = self.registers.f | mask;
        } else {
            self.registers.f = self.registers.f & !mask;
        }
    }

    fn adc(&mut self)
        ensures
            *final(self) == adc_cpu(*old(self)),
    {
        let a = self.registers.a as u16;
        let md = self.fetched_data as u16;
        let carry: u16 = if self.registers.f & 0x01 != 0 { 1 } else { 0 };
        let result = a + md + carry;
        self.registers.a = (result & 0x00FF) as u8;
        self.put_flag(0x01, result > 0xFF);
        self.put_flag(0x02, result & 0x00FF == 0);
        self.put_flag(0x40, (!(a ^ md) & (a ^ result)) & 0x0080 != 0);
        self.put_flag(0x80, result & 0x80 != 0);
    }

    fn sbc(&mut self)
        ensures
            *final(self) == sbc_cpu(*old(self)),
    {
        let a = self.registers.a as u16;
        let fd = self.fetched_data;
        let md = (fd as u16) ^ 0x00FF;
        proof {
            assert((fd as u16) ^ 0x00FF <= 0xFF) by (bit_vector);
        }
        let carry: u16 = if self.registers.f & 0x01 != 0 { 1 } else { 0 };
        let result = a + md + carry;
        self.registers.a = (result & 0x00FF) as u8;
        self.put_flag(0x01, result > 0xFF);
        self.put_flag(0x02, result & 0x00FF == 0);
        self.put_flag(0x40, ((a ^ result) & (md ^ result)) & 0x0080 != 0);
        self.put_flag(0x80, result & 0x80 != 0);
    }

    fn and(&mut self)
        ensures
            *final(self) == and_cpu(*old(self)),
    {
        let v = self.registers.a & self.fetched_data;
        self.registers.a = v;
        self.update_zn(v);
    }

    fn ora(&mut self)
        ensures
            *final(self) == ora_cpu(*old(self)),
    {
        let v = self.registers.a | self.fetched_data;
        self.registers.a = v;
        self.update_zn(v);
    }

    fn eor(&mut self)
        ensures
            *final(self) == eor_cpu(*old(self)),
    {
        let v = self.registers.a ^ self.fetched_data;
        self.registers.a = v;
        self.update_zn(v);
    }

    fn lda(&mut self)
        ensures
            *final(self) == lda_cpu(*old(self)),
    {
        let v = self.fetched_data;
        self.registers.a = v;
        self.update_zn(v);
    }

    fn ldx(&mut self)
        ensures
            *final(self) == ldx_cpu(*old(self)),
    {
        let v = self.fetched_data;
        self.registers.x = v;
        self.update_zn(v);
    }

    fn ldy(&mut self)
        ensures
            *final(self) == ldy_cpu(*old(self)),
    {
        let v = self.fetched_data;
        self.registers.y = v;
        self.update_zn(v);
    }

    fn compare(&mut self, reg: u8)
        ensures
            *final(self) == with_f(
                *old(self),
                cmp_flags(old(self).registers.f, reg, old(self).fetched_data),
            ),
    {
        self.put_flag(0x01, reg >= self.fetched_data);
        self.put_flag(0x02, reg == self.fetched_data);
        self.put_flag(0x80, reg.wrapping_sub(self.fetched_data) & 0x80 != 0);
    }

    fn bit(&mut self)
        ensures
            *final(self) == bit_cpu(*old(self)),
    {
        self.put_flag(0x02, self.registers.a & self.fetched_data == 0);
        self.put_flag(0x40, self.fetched_data & 0x40 != 0);
        self.put_flag(0x80, self.fetched_data & 0x80 != 0);
    }

    fn branch_target(&self) -> (t: u16)
        ensures
            t == rel_target(self.registers.pc, self.addr_rel),
    {
        let off16: u16 = if self.addr_rel < 0x80 {
            self.addr_rel as u16
        } else {
            self.addr_rel as u16 + 0xFF00
        };
        self.registers.pc.wrapping_add(off16)
    }

    /// Apply one branch: retarget the program counter when `cond` holds and
    /// report the taken/page-cross penalty.
    fn branch_if(&mut self, cond: bool) -> (extra: u8)
        ensures
            ({
                let (c2, e) = branch_cpu(*old(self), cond);
                *final(self) == c2 && extra == e
            }),
    {
        if cond {
            let target = self.branch_target();
            let crossed = (target & 0xFF00) != (self.registers.pc & 0xFF00);
            self.registers.pc = target;
            if crossed {
                2
            } else {
                1
            }
        } else {
            0
        }
    }

    /// Shift or rotate either the accumulator or the resolved operand.
    fn shift(&mut self, bus: &mut Bus, mn: Mnemonic, acc: bool)
        requires
            bus_wf(old(bus)@),
            mn == Mnemonic::Asl || mn == Mnemonic::Lsr || mn == Mnemonic::Rol || mn
                == Mnemonic::Ror,
        ensures
            mach(*final(self), final(bus)@) == exec_spec(mach(*old(self), old(bus)@), mn, acc).0,
            bus_wf(final(bus)@),
            final(self).cycles == old(self).cycles,
    {
        let v = if acc {
            self.registers.a
        } else {
            self.fetched_data
        };
        let old_carry: u8 = if self.registers.f & 0x01 != 0 { 1 } else { 0 };
        let v2: u8;
        match mn {
            Mnemonic::Asl => {
                self.put_flag(0x01, v & 0x80 != 0);
                v2 = v << 1;
            }
            Mnemonic::Lsr => {
                self.put_flag(0x01, v & 0x01 != 0);
                v2 = v >> 1;
            }
            Mnemonic::Rol => {
                self.put_flag(0x01, v & 0x80 != 0);
                v2 = (v << 1) | old_carry;
            }
            _ => {
                self.put_flag(0x01, v & 0x01 != 0);
                v2 = (v >> 1) | (old_carry << 7);
            }
        }
        if acc {
            self.registers.a = v2;
        } else {
            bus.write(self.addr_abs, v2);
        }
        self.update_zn(v2);
    }

    fn inc(&mut self, bus: &mut Bus)
        requires
            bus_wf(old(bus)@),
        ensures
            mach(*final(self), final(bus)@) == inc_spec(mach(*old(self), old(bus)@)),
            bus_wf(final(bus)@),
    {
        let v = self.fetched_data.wrapping_add(1);
        bus.write(self.addr_abs, v);
        self.update_zn(v);
    }

    fn dec(&mut self, bus: &mut Bus)
        requires
            bus_wf(old(bus)@),
        ensures
            mach(*final(self), final(bus)@) == dec_spec(mach(*old(self), old(bus)@)),
            bus_wf(final(bus)@),
    {
        let v = self.fetched_data.wrapping_sub(1);
        bus.write(self.addr_abs, v);
        self.update_zn(v);
    }

    fn jsr(&mut self, bus: &mut Bus)
        requires
            bus_wf(old(bus)@),
        ensures
            mach(*final(self), final(bus)@) == jsr_spec(mach(*old(self), old(bus)@)),
            bus_wf(final(bus)@),
    {
        self.registers.pc = self.registers.pc.wrapping_sub(1);
        let hi = ((self.registers.pc >> 8) & 0x00FF) as u8;
        self.push(bus, hi);
        let lo = (self.registers.pc & 0x00FF) as u8;
        self.push(bus, lo);
        self.registers.pc = self.addr_abs;
    }

    fn rts(&mut self, bus: &mut Bus)
        requires
            bus_wf(old(bus)@),
        ensures
            mach(*final(self), final(bus)@) == rts_spec(mach(*old(self), old(bus)@)),
            bus_wf(final(bus)@),
    {
        let lo = self.pull(bus);
        let hi = self.pull(bus);
        self.registers.pc = (((hi as u16) << 8) | (lo as u16)).wrapping_add(1);
    }

    fn rti(&mut self, bus: &mut Bus)
        requires
            bus_wf(old(bus)@),
        ensures
            mach(*final(self), final(bus)@) == rti_spec(mach(*old(self), old(bus)@)),
            bus_wf(final(bus)@),
    {
        let v = self.pull(bus);
        self.registers.f = (v | 0x20) & !0x10;
        let lo = self.pull(bus);
        let hi = self.pull(bus);
        self.registers.pc = ((hi as u16) << 8) | (lo as u16);
    }

    fn brk(&mut self, bus: &mut Bus)
        requires
            bus_wf(old(bus)@),
        ensures
            mach(*final(self), final(bus)@) == brk_spec(mach(*old(self), old(bus)@)),
            bus_wf(final(bus)@),
    {
        self.registers.pc = self.registers.pc.wrapping_add(1);
        let hi = ((self.registers.pc >> 8) & 0x00FF) as u8;
        self.push(bus, hi);
        let lo = (self.registers.pc & 0x00FF) as u8;
        self.push(bus, lo);
        let status_to_stack = self.registers.f | 0x10 | 0x20;
        self.push(bus, status_to_stack);
        self.registers.f = self.registers.f | 0x04;
        let vlo = bus.read(0xFFFE);
        let vhi = bus.read(0xFFFF);
        self.registers.pc = ((vhi as u16) << 8) | (vlo as u16);
    }

    fn pla(&mut self, bus: &mut Bus)
        requires
            bus_wf(old(bus)@),
        ensures
            mach(*final(self), final(bus)@) == pla_spec(mach(*old(self), old(bus)@)),
            bus_wf(final(bus)@),
    {
        let v = self.pull(bus);
        self.registers.a = v;
        self.update_zn(v);
    }

    fn plp(&mut self, bus: &mut Bus)
        requires
            bus_wf(old(bus)@),
        ensures
            mach(*final(self), final(bus)@) == plp_spec(mach(*old(self), old(bus)@)),
            bus_wf(final(bus)@),
    {
        let v = self.pull(bus);
        self.registers.f = (v | 0x20) & !0x10;
    }

    /// Run one decoded instruction; the effective address and operand stand
    /// resolved already. Returns the branch cycle penalty.
    fn execute(&mut self, bus: &mut Bus, mn: Mnemonic, acc: bool) -> (extra: u8)
        requires
            bus_wf(old(bus)@),
        ensures
            ({
                let (m2, e) = exec_spec(mach(*old(self), old(bus)@), mn, acc);
                mach(*final(self), final(bus)@) == m2 && extra == e
            }),
            bus_wf(final(bus)@),
            final(self).cycles == old(self).cycles,
    {
        match mn {
            Mnemonic::Adc => { self.adc(); 0 }
            Mnemonic::Sbc => { self.sbc(); 0 }
            Mnemonic::And => { self.and(); 0 }
            Mnemonic::Ora => { self.ora(); 0 }
            Mnemonic::Eor => { self.eor(); 0 }
            Mnemonic::Lda => { self.lda(); 0 }
            Mnemonic::Ldx => { self.ldx(); 0 }
            Mnemonic::Ldy => { self.ldy(); 0 }
            Mnemonic::Cmp => { let r = self.registers.a; self.compare(r); 0 }
            Mnemonic::Cpx => { let r = self.registers.x; self.compare(r); 0 }
            Mnemonic::Cpy => { let r = self.registers.y; self.compare(r); 0 }
            Mnemonic::Bit => { self.bit(); 0 }
            Mnemonic::Sta => { let v = self.registers.a; bus.write(self.addr_abs, v); 0 }
            Mnemonic::Stx => { let v = self.registers.x; bus.write(self.addr_abs, v); 0 }
            Mnemonic::Sty => { let v = self.registers.y; bus.write(self.addr_abs, v); 0 }
            Mnemonic::Tax => { let v = self.registers.a; self.registers.x = v; self.update_zn(v); 0 }
            Mnemonic::Tay => { let v = self.registers.a; self.registers.y = v; self.update_zn(v); 0 }
            Mnemonic::Txa => { let v = self.registers.x; self.registers.a = v; self.update_zn(v); 0 }
            Mnemonic::Tya => { let v = self.registers.y; self.registers.a = v; self.update_zn(v); 0 }
            Mnemonic::Tsx => { let v = self.registers.sp; self.registers.x = v; self.update_zn(v); 0 }
            Mnemonic::Txs => { self.registers.sp = self.registers.x; 0 }
            Mnemonic::Inx => { let v = self.registers.x.wrapping_add(1); self.registers.x = v; self.update_zn(v); 0 }
            Mnemonic::Iny => { let v = self.registers.y.wrapping_add(1); self.registers.y = v; self.update_zn(v); 0 }
            Mnemonic::Dex => { let v = self.registers.x.wrapping_sub(1); self.registers.x = v; self.update_zn(v); 0 }
            Mnemonic::Dey => { let v = self.registers.y.wrapping_sub(1); self.registers.y = v; self.update_zn(v); 0 }
            Mnemonic::Inc => { self.inc(bus); 0 }
            Mnemonic::Dec => { self.dec(bus); 0 }
            Mnemonic::Asl | Mnemonic::Lsr | Mnemonic::Rol | Mnemonic::Ror => {
                self.shift(bus, mn, acc);
                0
            }
            Mnemonic::Bcs => { let c = self.registers.f & 0x01 != 0; self.branch_if(c) }
            Mnemonic::Bcc => { let c = self.registers.f & 0x01 == 0; self.branch_if(c) }
            Mnemonic::Beq => { let c = self.registers.f & 0x02 != 0; self.branch_if(c) }
            Mnemonic::Bne => { let c = self.registers.f & 0x02 == 0; self.branch_if(c) }
            Mnemonic::Bmi => { let c = self.registers.f & 0x80 != 0; self.branch_if(c) }
            Mnemonic::Bpl => { let c = self.registers.f & 0x80 == 0; self.branch_if(c) }
            Mnemonic::Bvs => { let c = self.registers.f & 0x40 != 0; self.branch_if(c) }
            Mnemonic::Bvc => { let c = self.registers.f & 0x40 == 0; self.branch_if(c) }
            Mnemonic::Jmp => { self.registers.pc = self.addr_abs; 0 }
            Mnemonic::Jsr => { self.jsr(bus); 0 }
            Mnemonic::Rts => { self.rts(bus); 0 }
            Mnemonic::Rti => { self.rti(bus); 0 }
            Mnemonic::Brk => { self.brk(bus); 0 }
            Mnemonic::Pha => { let v = self.registers.a; self.push(bus, v); 0 }
            Mnemonic::Php => { let v = self.registers.f | 0x10 | 0x20; self.push(bus, v); 0 }
            Mnemonic::Pla => { self.pla(bus); 0 }
            Mnemonic::Plp => { self.plp(bus); 0 }
            Mnemonic::Clc => { self.put_flag(0x01, false); 0 }
            Mnemonic::Cld => { self.put_flag(0x08, false); 0 }
            Mnemonic::Cli => { self.put_flag(0x04, false); 0 }
            Mnemonic::Clv => { self.put_flag(0x40, false); 0 }
            Mnemonic::Sec => { self.put_flag(0x01, true); 0 }
            Mnemonic::Sei => { self.put_flag(0x04, true); 0 }
            Mnemonic::Sed => { self.put_flag(0x08, true); 0 }
            Mnemonic::Nop => 0,
            Mnemonic::Xxx => 0,
        }
    }

    /// Clear the registers and reload the program counter from the reset
    /// vector at 0xFFFC; costs 8 cycles.
    pub fn reset(&mut self, bus: &mut Bus)
        requires
            bus_wf(old(bus)@),
            old(self).cycles <= u64::MAX - 8,
        ensures
            mach(*final(self), final(bus)@) == reset_spec(mach(*old(self), old(bus)@)),
            bus_wf(final(bus)@),
            final(self).registers.sp == 0xFD && final(self).registers.f == 0x24,
            final(self).registers.a == 0 && final(self).registers.x == 0
                && final(self).registers.y == 0,
            final(self).cycles == old(self).cycles + 8,
    {
        self.registers.a = 0;
        self.registers.x = 0;
        self.registers.y = 0;
        self.registers.sp = 0xFD;
        self.registers.f = 0x24;
        self.addr_abs = 0;
        self.addr_rel = 0;
        self.fetched_data = 0;
        let lo = bus.read(0xFFFC);
        let hi = bus.read(0xFFFD);
        self.registers.pc = ((hi as u16) << 8) | (lo as u16);
        self.cycles = self.cycles + 8;
        proof {
            assert(mach(*self, bus@) =~= reset_spec(mach(*old(self), old(bus)@)));
        }
    }

    /// Shared entry for the two interrupts.
    fn interrupt(&mut self, bus: &mut Bus, vec_lo: u16)
        requires
            bus_wf(old(bus)@),
            old(self).cycles <= u64::MAX - 7,
        ensures
            mach(*final(self), final(bus)@) == interrupt_spec(
                mach(*old(self), old(bus)@),
                vec_lo,
            ),
            bus_wf(final(bus)@),
    {
        let hi = ((self.registers.pc >> 8) & 0x00FF) as u8;
        self.push(bus, hi);
        let lo = (self.registers.pc & 0x00FF) as u8;
        self.push(bus, lo);
        self.put_flag(0x10, false);
        self.put_flag(0x20, true);
        self.put_flag(0x04, true);
        let f = self.registers.f;
        self.push(bus, f);
        let vlo = bus.read(vec_lo);
        let vhi = bus.read(vec_lo.wrapping_add(1));
        self.registers.pc = ((vhi as u16) << 8) | (vlo as u16);
        self.cycles = self.cycles + 7;
        proof {
            assert(mach(*self, bus@) =~= interrupt_spec(mach(*old(self), old(bus)@), vec_lo));
        }
    }

    /// Non-maskable interrupt: push the return address and the status with
    /// B clear and U set, set I, vector through 0xFFFA; costs 7 cycles.
    pub fn nmi(&mut self, bus: &mut Bus)
        requires
            bus_wf(old(bus)@),
            old(self).cycles <= u64::MAX - 7,
        ensures
            mach(*final(self), final(bus)@) == nmi_spec(mach(*old(self), old(bus)@)),
            bus_wf(final(bus)@),
            final(self).cycles == old(self).cycles + 7,
    {
        self.interrupt(bus, 0xFFFA);
    }

    /// Maskable interrupt: as `nmi`, but gated on the I flag and vectored
    /// through 0xFFFE.
    pub fn irq(&mut self, bus: &mut Bus)
        requires
            bus_wf(old(bus)@),
            old(self).cycles <= u64::MAX - 7,
        ensures
            mach(*final(self), final(bus)@) == irq_spec(mach(*old(self), old(bus)@)),
            bus_wf(final(bus)@),
    {
        if self.registers.f & 0x04 == 0 {
            self.interrupt(bus, 0xFFFE);
        }
    }

    /// Fetch, decode and execute one instruction.
    ///
    /// Returns the cycles the instruction consumed -- its base cost plus
    /// the documented page-cross and branch-taken penalties -- and advances
    /// the cycle counter by exactly that amount. Fails with `UnknownOpcode`
    /// exactly when the byte at the program counter is not one of the 151
    /// legal opcodes; the processor's state is unspecified afterwards.
    #[verifier::rlimit(100)]
    pub fn step(&mut self, bus: &mut Bus) -> (r: Result<u8, EmuError>)
        requires
            bus_wf(old(bus)@),
            old(self).cycles <= u64::MAX - 255,
        ensures
            bus_wf(final(bus)@),
            ({
                let m0 = mach(*old(self), old(bus)@);
                match step_spec(m0) {
                    Some((m2, n)) => r == Ok::<u8, EmuError>(n) && mach(
                        *final(self),
                        final(bus)@,
                    ) == m2,
                    None => r == Err::<u8, EmuError>(
                        EmuError::UnknownOpcode {
                            opcode: read_m(m0, old(self).registers.pc).1,
                            pc: old(self).registers.pc,
                        },
                    ),
                }
            }),
            r matches Ok(n) ==> final(self).cycles == old(self).cycles + n,
            r matches Err(e) ==> !legal_opcode(read_m(mach(*old(self), old(bus)@), old(self).registers.pc).1),
    {
        proof {
            reveal(step_spec);
        }
        let ghost m0 = mach(*old(self), old(bus)@);
        let pc0 = self.registers.pc;
        let opcode = bus.read(pc0);
        self.registers.pc = self.registers.pc.wrapping_add(1);
        let ghost m1 = with_cpu(
            read_m(m0, pc0).0,
            with_pc(read_m(m0, pc0).0.cpu, wadd16(pc0, 1)),
        );
        proof {
            assert(mach(*self, bus@) =~= m1);
        }
        let ins = Instruction::lookup_table(opcode);
        if matches!(ins.mnemonic, Mnemonic::Xxx) {
            return Err(EmuError::UnknownOpcode { opcode, pc: pc0 });
        }
        let crossed = self.resolve(bus, ins.mode);
        let ghost m2 = mode_spec(m1, ins.mode).0;
        if ins.requires_fetch() {
            self.fetch(bus);
        }
        let ghost m3 = if needs_fetch(ins.mnemonic, ins.mode) {
            fetch_spec(m2)
        } else {
            m2
        };
        proof {
            assert(mach(*self, bus@) == m3);
        }
        let acc = matches!(ins.mode, AddrMode::Acc);
        let branch_extra = self.execute(bus, ins.mnemonic, acc);
        let ghost m4 = exec_spec(m3, ins.mnemonic, acc).0;
        let cross_extra: u8 = if ins.pays_page_cross() && crossed {
            1
        } else {
            0
        };
        let n = ins.cycles.wrapping_add(cross_extra).wrapping_add(branch_extra);
        self.cycles = self.cycles + (n as u64);
        proof {
            assert(mach(*self, bus@) =~= step_spec(m0)->Some_0.0);
            assert(n == step_spec(m0)->Some_0.1);
        }
        Ok(n)
    }
}

// Laws of the processor, stated over the spec mirrors and proved once for
// every state.

/// Bit-level facts behind the ADC/SBC characterization, over the 9-bit sum.
proof fn lemma_sum_bits(a8: u8, md: u16, carry: u16)
    by (bit_vector)
    requires
        md < 0x100,
        carry <= 1,
    ensures
        ((a8 as u16 + md + carry) as u16 & 0x00FF) as u8 as int == (a8 + md + carry) % 0x100,
        ((a8 as u16 + md + carry) as u16 > 0xFF) <==> (a8 + md + carry > 0xFF),
        ((!((a8 as u16) ^ md) & ((a8 as u16) ^ ((a8 as u16 + md + carry) as u16))) & 0x0080
            != 0) <==> (((a8 >= 0x80) == (md >= 0x80)) && (((((a8 as u16 + md + carry) as u16)
            & 0x00FF) as u8 >= 0x80) != (a8 >= 0x80))),
        ((((a8 as u16) ^ ((a8 as u16 + md + carry) as u16)) & (md ^ ((a8 as u16 + md
            + carry) as u16))) & 0x0080 != 0) <==> (((a8 >= 0x80) == (md >= 0x80)) && (((((
        a8 as u16 + md + carry) as u16) & 0x00FF) as u8 >= 0x80) != (a8 >= 0x80))),
        (((a8 as u16 + md + carry) as u16 & 0x80) != 0) <==> (((((a8 as u16 + md
            + carry) as u16) & 0x00FF) as u8) & 0x80) != 0,
        (((a8 as u16 + md + carry) as u16 & 0x00FF) == 0) <==> ((a8 + md + carry) % 0x100
            == 0),
{
}

/// In the C,Z,V,N chain every flag lands in its own bit and disturbs no
/// other bit.
proof fn lemma_flag_chain(f: u8, bc: bool, bz: bool, bo: bool, bn: bool)
    by (bit_vector)
    ensures
        ({
            let f4 = set_flag_spec(
                set_flag_spec(set_flag_spec(set_flag_spec(f, 0x01, bc), 0x02, bz), 0x40, bo),
                0x80,
                bn,
            );
            &&& (f4 & 0x01 != 0) == bc
            &&& (f4 & 0x02 != 0) == bz
            &&& (f4 & 0x40 != 0) == bo
            &&& (f4 & 0x80 != 0) == bn
        }),
{
}

/// ADC computes A + M + C as a 9-bit value: the new accumulator is the sum
/// modulo 256, C is the carry out of bit 7, Z and N follow the result, and
/// V -- the signed-overflow predicate -- holds exactly when both operands
/// share a sign that the result lost.
pub proof fn lemma_adc(c: CPU)
    ensures
        ({
            let sum = c.registers.a + c.fetched_data + get_flag_spec(c.registers.f, 0x01);
            let r = adc_cpu(c);
            &&& r.registers.a as int == sum % 256
            &&& ((r.registers.f & 0x01 != 0) <==> sum > 255)
            &&& ((r.registers.f & 0x02 != 0) <==> sum % 256 == 0)
            &&& ((r.registers.f & 0x80 != 0) <==> (r.registers.a & 0x80) != 0)
            &&& ((r.registers.f & 0x40 != 0) <==> (((c.registers.a >= 0x80) == (c.fetched_data
                >= 0x80)) && ((r.registers.a >= 0x80) != (c.registers.a >= 0x80))))
        }),
{
    let a8 = c.registers.a;
    let fd = c.fetched_data;
    let md = fd as u16;
    let carry = get_flag_spec(c.registers.f, 0x01) as u16;
    let result = (a8 as u16 + md + carry) as u16;
    lemma_sum_bits(a8, md, carry);
    lemma_flag_chain(
        c.registers.f,
        result > 0xFF,
        result & 0x00FF == 0,
        (!((a8 as u16) ^ md) & ((a8 as u16) ^ result)) & 0x0080 != 0,
        result & 0x80 != 0,
    );
}

/// SBC is ADC with the operand complemented: the new accumulator is
/// A + (M xor 0xFF) + C modulo 256, with the same carry, zero, sign and
/// signed-overflow readings over the complemented operand.
pub proof fn lemma_sbc(c: CPU)
    ensures
        ({
            let mc = c.fetched_data ^ 0xFF;
            let sum = c.registers.a + mc + get_flag_spec(c.registers.f, 0x01);
            let r = sbc_cpu(c);
            &&& r.registers.a as int == sum % 256
            &&& ((r.registers.f & 0x01 != 0) <==> sum > 255)
            &&& ((r.registers.f & 0x02 != 0) <==> sum % 256 == 0)
            &&& ((r.registers.f & 0x80 != 0) <==> (r.registers.a & 0x80) != 0)
            &&& ((r.registers.f & 0x40 != 0) <==> (((c.registers.a >= 0x80) == (mc >= 0x80))
                && ((r.registers.a >= 0x80) != (c.registers.a >= 0x80))))
        }),
{
    let a8 = c.registers.a;
    let fd = c.fetched_data;
    let md = (fd as u16) ^ 0x00FF;
    let carry = get_flag_spec(c.registers.f, 0x01) as u16;
    let result = (a8 as u16 + md + carry) as u16;
    assert(md < 0x100 && md == (fd ^ 0xFF) as u16) by (bit_vector)
        requires
            md == (fd as u16) ^ 0x00FF,
    ;
    lemma_sum_bits(a8, md, carry);
    lemma_flag_chain(
        c.registers.f,
        result > 0xFF,
        result & 0x00FF == 0,
        (((a8 as u16) ^ result) & (md ^ result)) & 0x0080 != 0,
        result & 0x80 != 0,
    );
}

/// PHP then PLP leaves every register as it was except the status, which
/// reads back as (original | U) & !B: the stack push stores the status with
/// B and U set, and the pull forces U on and B off.
pub proof fn lemma_php_plp(m: MachV)
    requires
        mach_wf(m),
    ensures
        ({
            let m2 = plp_spec(php_spec(m));
            &&& m2.cpu.registers.f == (m.cpu.registers.f | 0x20) & !0x10
            &&& m2.cpu.registers.sp == m.cpu.registers.sp
            &&& m2.cpu.registers.a == m.cpu.registers.a
            &&& m2.cpu.registers.pc == m.cpu.registers.pc
        }),
{
    let sp = m.cpu.registers.sp;
    crate::lemma_mask_bounds((0x0100 + sp as u16) as u16);
    assert(wadd8(wsub8(sp, 1), 1) == sp);
    assert(forall|f: u8| ((f | 0x10 | 0x20) | 0x20) & !0x10 == (f | 0x20) & !0x10)
        by (bit_vector);
}

/// One stack operation: a push of a value, or a pull.
pub type StackOp = Option<u8>;

pub open spec fn apply_stack_ops(m: MachV, ops: Seq<StackOp>) -> MachV
    decreases ops.len(),
{
    if ops.len() == 0 {
        m
    } else {
        let m1 = match ops[0] {
            Some(v) => push_spec(m, v),
            None => pull_spec(m).0,
        };
        apply_stack_ops(m1, ops.subrange(1, ops.len() as int))
    }
}

pub open spec fn push_count(ops: Seq<StackOp>) -> int
    decreases ops.len(),
{
    if ops.len() == 0 {
        0
    } else {
        (if ops[0] is Some {
            1int
        } else {
            0int
        }) + push_count(ops.subrange(1, ops.len() as int))
    }
}

pub open spec fn pull_count(ops: Seq<StackOp>) -> int
    decreases ops.len(),
{
    if ops.len() == 0 {
        0
    } else {
        (if ops[0] is None {
            1int
        } else {
            0int
        }) + pull_count(ops.subrange(1, ops.len() as int))
    }
}

/// Any sequence of pushes and pulls moves the stack pointer by their
/// difference modulo 256 -- so a balanced sequence returns it to its start
/// -- touches memory only within the stack page 0x0100..0x0200, and leaves
/// every processor register but the stack pointer alone.
#[verifier::rlimit(100)]
pub proof fn lemma_stack_ops(m: MachV, ops: Seq<StackOp>)
    requires
        mach_wf(m),
    ensures
        ({
            let m2 = apply_stack_ops(m, ops);
            &&& mach_wf(m2)
            &&& m2.cpu.registers.sp as int == (m.cpu.registers.sp + pull_count(ops)
                - push_count(ops)) % 256
            &&& m2.cpu == CPU { registers: Registers { sp: m2.cpu.registers.sp, ..m.cpu.registers }, ..m.cpu }
            &&& m2.bus.ram.len() == m.bus.ram.len()
            &&& (forall|i: int|
                0 <= i < m.bus.ram.len() && !(0x0100 <= i < 0x0200) ==> m2.bus.ram[i]
                    == m.bus.ram[i])
            &&& m2.bus.ppu == m.bus.ppu
            &&& m2.bus.rom == m.bus.rom
            &&& m2.bus.c0 == m.bus.c0
            &&& m2.bus.c1 == m.bus.c1
        }),
    decreases ops.len(),
{
    if ops.len() == 0 {
        assert(m.cpu.registers.sp as int == (m.cpu.registers.sp + 0 - 0) % 256);
        assert(m.cpu == CPU {
            registers: Registers { sp: m.cpu.registers.sp, ..m.cpu.registers },
            ..m.cpu
        });
    } else {
        let sp = m.cpu.registers.sp;
        crate::lemma_mask_bounds((0x0100 + sp as u16) as u16);
        crate::lemma_mask_bounds((0x0100 + wadd8(sp, 1) as u16) as u16);
        let m1 = match ops[0] {
            Some(v) => push_spec(m, v),
            None => pull_spec(m).0,
        };
        assert(mach_wf(m1));
        lemma_stack_ops(m1, ops.subrange(1, ops.len() as int));
    }
}



/// A balanced sequence of pushes and pulls returns the stack pointer to
/// its starting value.
pub proof fn lemma_stack_balance(m: MachV, ops: Seq<StackOp>)
    requires
        mach_wf(m),
        push_count(ops) == pull_count(ops),
    ensures
        apply_stack_ops(m, ops).cpu.registers.sp == m.cpu.registers.sp,
{
    lemma_stack_ops(m, ops);
}

/// The indirect-jump page-wrap bug: when the pointer's low byte is 0xFF the
/// target's high byte is fetched from the start of the pointer's own page
/// (ptr & 0xFF00), never from the following page.
pub proof fn lemma_indirect_page_wrap(m: MachV)
    ensures
        ({
            let (m2, lo, hi) = abs_operand(m);
            let ptr = ((hi as u16) << 8) | (lo as u16);
            lo == 0xFF ==> ind_spec(m).cpu.addr_abs == ({
                let (mh, hb) = read_m(m2, ptr & 0xFF00);
                let (ml, lb) = read_m(mh, ptr);
                ((hb as u16) << 8) | (lb as u16)
            })
        }),
{
}

} // verus!
