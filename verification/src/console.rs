//! The assembled console: one processor, one bus holding work RAM, the
//! cartridge, the picture unit and both controllers. The host drives it by
//! frames: `run_frame` steps the processor until a frame's worth of cycles
//! has been spent, advancing the picture unit three dots per processor
//! cycle and delivering the vertical-blank interrupt, then renders the
//! frame.

use vstd::prelude::*;
use crate::EmuError;
use crate::bus::{Bus, BusV, bus_wf};
use crate::controller::{self, Controller};
use crate::cpu::{self, CPU, MachV, mach, nmi_spec, read_m, reset_spec, step_spec};
use crate::ines_file::{Rom, rom_wf};
use crate::ppu::{self, PpuV, tick_spec};
use crate::render::{Rgb, frame_pixel, render_frame};

verus! {

pub struct Console {
    pub cpu: CPU,
    pub bus: Bus,
}

/// The picture unit after `k` ticks.
pub open spec fn tick_n(p: PpuV, k: int) -> PpuV
    decreases k,
{
    if k <= 0 {
        p
    } else {
        tick_spec(tick_n(p, k - 1))
    }
}

/// Interrupt delivery the host performs after ticking the picture unit:
/// when the interrupt is pending, consume the flag and enter the
/// processor's interrupt sequence.
pub open spec fn nmi_check(m: MachV) -> MachV {
    if m.bus.ppu.emitted_nmi {
        let m1 = MachV {
            bus: BusV { ppu: PpuV { emitted_nmi: false, ..m.bus.ppu }, ..m.bus },
            ..m
        };
        nmi_spec(m1)
    } else {
        m
    }
}

/// One turn of the frame loop: one processor step, three picture-unit dots
/// per cycle spent, then interrupt delivery. Fails on an illegal opcode
/// with the byte and its address.
pub open spec fn frame_iter(m: MachV) -> Result<(MachV, u8), (u8, u16)> {
    match step_spec(m) {
        Some((m1, n)) => {
            let m2 = MachV { bus: BusV { ppu: tick_n(m1.bus.ppu, 3 * n), ..m1.bus }, ..m1 };
            Ok((nmi_check(m2), n))
        },
        None => Err((read_m(m, m.cpu.registers.pc).1, m.cpu.registers.pc)),
    }
}

/// The frame loop: turns of `frame_iter` until the frame's cycle budget of
/// 29780 is spent. The step bound of 20000 turns can never bind on legal
/// programs -- every instruction costs at least two cycles -- and only
/// makes the loop a total function.
pub open spec fn frame_loop(m: MachV, ctf: int, steps: int) -> Result<MachV, (u8, u16)>
    decreases 20000 - steps,
{
    if ctf >= 29780 || steps >= 20000 {
        Ok(m)
    } else {
        match frame_iter(m) {
            Ok((m2, n)) => frame_loop(m2, ctf + n, steps + 1),
            Err(e) => Err(e),
        }
    }
}

impl Console {
    /// A powered-up console around one cartridge.
    pub fn new(rom: Rom) -> (r: Console)
        requires
            rom_wf(rom@),
        ensures
            bus_wf(r.bus@),
            r.bus@.rom == rom@,
            r.cpu == cpu::new_spec(),
            r.bus@.ppu == ppu::new_spec(),
            r.bus@.ram =~= Seq::new(0x800, |i: int| 0u8),
            r.bus@.c0 == (Controller { buttons: 0, index: 0, strobe: 0 }),
            r.bus@.c1 == (Controller { buttons: 0, index: 0, strobe: 0 }),
    {
        Console { cpu: CPU::new(), bus: Bus::new(rom) }
    }

    /// Reset the processor through the cartridge's reset vector.
    pub fn reset(&mut self)
        requires
            bus_wf(old(self).bus@),
            old(self).cpu.cycles <= u64::MAX - 8,
        ensures
            mach(final(self).cpu, final(self).bus@) == reset_spec(
                mach(old(self).cpu, old(self).bus@),
            ),
            bus_wf(final(self).bus@),
    {
        self.cpu.reset(&mut self.bus);
    }

    /// Host-driven update of one button on one of the two pads.
    pub fn set_button(&mut self, player: u8, button_mask: u8, pressed: bool)
        ensures
            player == 0 ==> final(self).bus@.c0 == controller::set_button_spec(
                old(self).bus@.c0,
                button_mask,
                pressed,
            ) && final(self).bus@ == (BusV { c0: final(self).bus@.c0, ..old(self).bus@ }),
            player != 0 ==> final(self).bus@.c1 == controller::set_button_spec(
                old(self).bus@.c1,
                button_mask,
                pressed,
            ) && final(self).bus@ == (BusV { c1: final(self).bus@.c1, ..old(self).bus@ }),
            final(self).cpu == old(self).cpu,
    {
        if player == 0 {
            self.bus.controller0.set_button(button_mask, pressed);
        } else {
            self.bus.controller1.set_button(button_mask, pressed);
        }
        proof {
            assert(self.bus@ =~= (if player == 0 {
                BusV { c0: self.bus@.c0, ..old(self).bus@ }
            } else {
                BusV { c1: self.bus@.c1, ..old(self).bus@ }
            }));
        }
    }

    /// Run one frame: step the processor until 29780 cycles have been spent
    /// this call, advancing the picture unit three dots per cycle and
    /// delivering the vertical-blank interrupt, then render the 256x240
    /// frame. Fails exactly where the frame loop meets an illegal opcode.
    #[verifier::rlimit(100)]
    #[verifier::spinoff_prover]
    pub fn run_frame(&mut self) -> (r: Result<Vec<Rgb>, EmuError>)
        requires
            bus_wf(old(self).bus@),
            old(self).cpu.cycles <= u64::MAX - 0x600000,
        ensures
            bus_wf(final(self).bus@),
            ({
                let outcome = frame_loop(mach(old(self).cpu, old(self).bus@), 0, 0);
                match outcome {
                    Ok(m2) => {
                        &&& mach(final(self).cpu, final(self).bus@) == m2
                        &&& r matches Ok(fb) && fb@.len() == 61440 && (forall|j: int|
                            0 <= j < 61440 ==> #[trigger] fb@[j] == frame_pixel(
                                m2.bus.ppu,
                                m2.bus.rom,
                                j % 256,
                                j / 256,
                            ))
                    },
                    Err(e) => r == Err::<Vec<Rgb>, EmuError>(
                        EmuError::UnknownOpcode { opcode: e.0, pc: e.1 },
                    ),
                }
            }),
    {
        let ghost m_init = mach(old(self).cpu, old(self).bus@);
        let mut ctf: u32 = 0;
        let mut steps: u32 = 0;
        while ctf < 29780 && steps < 20000
            invariant
                m_init == mach(old(self).cpu, old(self).bus@),
                bus_wf(self.bus@),
                ctf <= 29780 + 255,
                steps <= 20000,
                self.cpu.cycles <= old(self).cpu.cycles + 262 * (steps as int),
                old(self).cpu.cycles <= u64::MAX - 0x600000,
                frame_loop(m_init, 0, 0) == frame_loop(
                    mach(self.cpu, self.bus@),
                    ctf as int,
                    steps as int,
                ),
            decreases 20000 - steps,
        {
            let ghost m_cur = mach(self.cpu, self.bus@);
            let n = match self.cpu.step(&mut self.bus) {
                Ok(n) => n,
                Err(e) => {
                    proof {
                        assert(step_spec(m_cur) is None);
                        let pc = m_cur.cpu.registers.pc;
                        let pair = (read_m(m_cur, pc).1, pc);
                        assert(frame_iter(m_cur) == Err::<(MachV, u8), (u8, u16)>(pair));
                        assert(frame_loop(m_cur, ctf as int, steps as int) == Err::<
                            MachV,
                            (u8, u16),
                        >(pair));
                        assert(e == (EmuError::UnknownOpcode { opcode: pair.0, pc: pair.1 }));
                    }
                    return Err(e);
                },
            };
            proof {
                assert(step_spec(m_cur) is Some);
            }
            let ghost m1 = step_spec(m_cur)->Some_0.0;
            let ghost p_start = self.bus.ppu@;
            let ticks: u32 = 3 * (n as u32);
            let mut t: u32 = 0;
            while t < ticks
                invariant
                    t <= ticks,
                    ticks <= 765,
                    ppu::ppu_wf(self.bus.ppu@),
                    self.bus.ppu@ == tick_n(p_start, t as int),
                    self.bus@ == (BusV { ppu: self.bus.ppu@, ..m1.bus }),
                    self.cpu == m1.cpu,
                    bus_wf(self.bus@),
                decreases ticks - t,
            {
                self.bus.ppu.step();
                t = t + 1;
                proof {
                    assert(self.bus@ =~= (BusV { ppu: self.bus.ppu@, ..m1.bus }));
                }
            }
            let ghost m2 = MachV { bus: BusV { ppu: tick_n(m1.bus.ppu, 3 * n), ..m1.bus }, ..m1 };
            proof {
                assert(mach(self.cpu, self.bus@) =~= m2);
            }
            if self.bus.ppu.emitted_nmi {
                self.bus.ppu.emitted_nmi = false;
                proof {
                    assert(mach(self.cpu, self.bus@) =~= (MachV {
                        bus: BusV { ppu: PpuV { emitted_nmi: false, ..m2.bus.ppu }, ..m2.bus },
                        ..m2
                    }));
                }
                self.cpu.nmi(&mut self.bus);
            }
            proof {
                assert(mach(self.cpu, self.bus@) == nmi_check(m2));
                assert(frame_iter(m_cur) == Ok::<(MachV, u8), (u8, u16)>((nmi_check(m2), n)));
            }
            ctf = ctf + (n as u32);
            steps = steps + 1;
        }
        let fb = render_frame(&self.bus.ppu, &self.bus.rom);
        Ok(fb)
    }
}

} // verus!
