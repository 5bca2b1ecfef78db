//! The machine: CPU, bus and frame composed, stepped in the fixed order
//! CIA1, CIA2, CPU, VIC.  Interrupt lines pulled by the chips are applied
//! to the CPU between component steps, so every component observes the
//! cycle counter monotonically.

use crate::bus::Bus;
use crate::cpu::Cpu;
use crate::screen::Screen;
use vstd::prelude::*;

verus! {

/// What one machine tick reports: whether to keep running (false exactly
/// when the CPU hit an opcode outside the documented set), and whether a
/// video frame just completed.
#[derive(Clone, Copy, PartialEq, Eq, Structural, Debug)]
pub struct TickOutcome {
    pub cont: bool,
    pub frame_done: bool,
}

/// How a run of the processor exercise program ended.
#[derive(Clone, Copy, PartialEq, Eq, Structural, Debug)]
pub enum TestOutcome {
    Passed,
    Stuck(u16),
    Halted,
    OutOfSteps,
}

pub struct C64 {
    pub cpu: Cpu,
    pub bus: Bus,
    pub screen: Screen,
}

impl C64 {
    pub open spec fn wf(self) -> bool {
        &&& self.bus.wf()
        &&& self.screen.wf()
    }

    pub fn new() -> (c: C64)
        ensures
            c.wf(),
            c.cpu.cycles == 0,
            c.cpu.pc == 0,
            c.bus@.mem.ram == Seq::new(0x10000, |i: int| 0u8).update(0x0001, 0x07u8),
            c.bus@.mem.rom == Seq::new(0x10000, |i: int| 0u8),
    {
        C64 { cpu: Cpu::new(), bus: Bus::new(), screen: Screen::new() }
    }

    /// Resets the CPU through the reset vector; memory and devices keep
    /// their state.
    pub fn reset(&mut self)
        requires
            old(self).wf(),
        ensures
            final(self).wf(),
            final(self).bus@ == old(self).bus@.after_read_word(0xfffc),
            final(self).screen == old(self).screen,
            final(self).cpu == (crate::cpu::Cpu {
                pc: old(self).bus@.read_word_val(0xfffc),
                sp: 0xff,
                a: 0,
                x: 0,
                y: 0,
                cycles: 6,
                cf: false,
                zf: false,
                idf: true,
                dmf: false,
                bcf: false,
                of: false,
                nf: false,
                debug: old(self).cpu.debug,
            }),
    {
        self.cpu.reset(&mut self.bus);
    }

    /// One machine tick in the fixed component order.  The cycle counter
    /// never decreases across ticks.
    pub fn step(&mut self) -> (r: TickOutcome)
        requires
            old(self).wf(),
        ensures
            final(self).wf(),
            final(self).cpu.cycles >= old(self).cpu.cycles,
    {
        let raise1 = self.bus.cia1.step(self.cpu.cycles());
        if raise1 {
            self.cpu.irq(&mut self.bus);
        }
        let raise2 = self.bus.cia2.step(self.cpu.cycles());
        if raise2 {
            self.cpu.nmi(&mut self.bus);
        }
        let cont = self.cpu.step(&mut self.bus);
        if !cont {
            return TickOutcome { cont: false, frame_done: false };
        }
        let vr = self.bus.vic.step(self.cpu.cycles(), &self.bus.mem, &mut self.screen);
        if vr.raise_irq {
            self.cpu.irq(&mut self.bus);
        }
        TickOutcome { cont: true, frame_done: vr.frame_done }
    }
}

/// Runs the CPU alone until it reaches `pass_pc`, repeats an instruction
/// address (the exercise program's failure traps spin in place), hits an
/// opcode outside the documented set, or exhausts the step budget.
pub fn run_cpu_test(cpu: &mut Cpu, bus: &mut Bus, pass_pc: u16, max_steps: u32) -> (r: TestOutcome)
    requires
        old(bus).wf(),
    ensures
        final(bus).wf(),
        final(cpu).cycles >= old(cpu).cycles,
        r == TestOutcome::Passed ==> final(cpu).pc == pass_pc,
        r matches TestOutcome::Stuck(pc) ==> final(cpu).pc == pc,
{
    let mut steps: u32 = 0;
    while steps < max_steps
        invariant
            bus.wf(),
            cpu.cycles >= old(cpu).cycles,
        decreases max_steps - steps,
    {
        if cpu.pc == pass_pc {
            return TestOutcome::Passed;
        }
        let prev_pc = cpu.pc;
        if !cpu.step(bus) {
            return TestOutcome::Halted;
        }
        if cpu.pc == prev_pc {
            return TestOutcome::Stuck(prev_pc);
        }
        steps += 1;
    }
    if cpu.pc == pass_pc {
        TestOutcome::Passed
    } else {
        TestOutcome::OutOfSteps
    }
}

} // verus!
