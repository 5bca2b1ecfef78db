//! The second CIA chip: the same timer pair as the first, wired to the CPU
//! NMI line instead of IRQ.  The low two bits of its data port A, inverted,
//! select which 16 KiB bank of RAM the VIC sees.

use crate::common::{
    spec_icr_status, spec_irq_enable_after, spec_latch_high, spec_latch_low,
    spec_timer_after_control, InputMode, RunMode, Timer,
};
use vstd::prelude::*;

verus! {

pub struct Cia2 {
    pub timer_a: Timer,
    pub timer_b: Timer,
    pub prev_cpu_cycles: u32,
    pub pra: u8,
    pub prb: u8,
}

impl Cia2 {
    /// The elapsed-cycle delta a tick applies, as the 16-bit counters see
    /// it.
    pub open spec fn spec_delta(self, cpu_cycles: u32) -> i16 {
        cpu_cycles.wrapping_sub(self.prev_cpu_cycles) as i16
    }

    /// The chip state one tick leaves behind: both timers count the same
    /// delta and the cycle snapshot is updated.
    pub open spec fn spec_after_step(self, cpu_cycles: u32) -> Cia2 {
        let d = self.spec_delta(cpu_cycles);
        Cia2 {
            timer_a: self.timer_a.spec_after_tick(d),
            timer_b: self.timer_b.spec_after_tick(d),
            prev_cpu_cycles: cpu_cycles,
            ..self
        }
    }

    /// True when a tick pulls the chip's NMI line: a timer ran out with its
    /// interrupt enabled.
    pub open spec fn spec_step_raises(self, cpu_cycles: u32) -> bool {
        let d = self.spec_delta(cpu_cycles);
        self.timer_a.spec_raises(d) || self.timer_b.spec_raises(d)
    }

    /// The chip state a register write leaves behind.
    pub open spec fn spec_write_register(self, r: u8, v: u8) -> Cia2 {
        if r == 0x0 {
            Cia2 { pra: v, ..self }
        } else if r == 0x1 {
            Cia2 { prb: v, ..self }
        } else if r == 0x4 {
            Cia2 { timer_a: Timer { latch: spec_latch_low(self.timer_a.latch, v), ..self.timer_a }, ..self }
        } else if r == 0x5 {
            Cia2 { timer_a: Timer { latch: spec_latch_high(self.timer_a.latch, v), ..self.timer_a }, ..self }
        } else if r == 0x6 {
            Cia2 { timer_b: Timer { latch: spec_latch_low(self.timer_b.latch, v), ..self.timer_b }, ..self }
        } else if r == 0x7 {
            Cia2 { timer_b: Timer { latch: spec_latch_high(self.timer_b.latch, v), ..self.timer_b }, ..self }
        } else if r == 0xd {
            Cia2 {
                timer_a: Timer {
                    irq_enabled: spec_irq_enable_after(self.timer_a.irq_enabled, v, 0x01),
                    ..self.timer_a
                },
                timer_b: Timer {
                    irq_enabled: spec_irq_enable_after(self.timer_b.irq_enabled, v, 0x02),
                    ..self.timer_b
                },
                ..self
            }
        } else if r == 0xe {
            Cia2 { timer_a: spec_timer_after_control(self.timer_a, v), ..self }
        } else if r == 0xf {
            Cia2 { timer_b: spec_timer_after_control(self.timer_b, v), ..self }
        } else {
            self
        }
    }

    /// The byte a register read yields.  Reading the interrupt status
    /// register (0xd) also clears the triggered flags; the bus performs
    /// that through `ack_irqs`.
    pub open spec fn spec_read_register(self, r: u8) -> u8 {
        if r == 0x0 {
            self.pra
        } else if r == 0x1 {
            self.prb
        } else if r == 0x4 {
            ((self.timer_a.counter as u16) % 0x100) as u8
        } else if r == 0x5 {
            ((self.timer_a.counter as u16) / 0x100) as u8
        } else if r == 0x6 {
            ((self.timer_b.counter as u16) % 0x100) as u8
        } else if r == 0x7 {
            ((self.timer_b.counter as u16) / 0x100) as u8
        } else if r == 0xd {
            spec_icr_status(self.timer_a.irq_triggered, self.timer_b.irq_triggered)
        } else {
            0
        }
    }

    pub fn new() -> (c: Cia2)
        ensures
            c.timer_a.spec_is_init(),
            c.timer_b.spec_is_init(),
            c.prev_cpu_cycles == 0,
            c.pra == 0xff,
            c.prb == 0xff,
    {
        Cia2 {
            timer_a: Timer::new(),
            timer_b: Timer::new(),
            prev_cpu_cycles: 0,
            pra: 0xff,
            prb: 0xff,
        }
    }

    pub fn write_register(&mut self, r: u8, v: u8)
        ensures
            *final(self) == old(self).spec_write_register(r, v),
    {
        match r {
            0x0 => {
                self.pra = v;
            },
            0x1 => {
                self.prb = v;
            },
            0x4 => {
                self.timer_a.latch = (self.timer_a.latch & 0xff00) | v as u16;
            },
            0x5 => {
                self.timer_a.latch = (self.timer_a.latch & 0x00ff) | ((v as u16) << 8);
            },
            0x6 => {
                self.timer_b.latch = (self.timer_b.latch & 0xff00) | v as u16;
            },
            0x7 => {
                self.timer_b.latch = (self.timer_b.latch & 0x00ff) | ((v as u16) << 8);
            },
            0xd => {
                if v & 0x01 != 0 {
                    self.timer_a.irq_enabled = v & 0x80 != 0;
                }
                if v & 0x02 != 0 {
                    self.timer_b.irq_enabled = v & 0x80 != 0;
                }
            },
            0xe => {
                self.timer_a.enabled = v & 0x01 != 0;
                self.timer_a.run_mode = if v & 0x08 != 0 {
                    RunMode::OneTime
                } else {
                    RunMode::Restart
                };
                self.timer_a.input_mode = if v & 0x20 != 0 {
                    InputMode::CNT
                } else {
                    InputMode::Processor
                };
                if v & 0x10 != 0 {
                    self.timer_a.counter = #[verifier::truncate] (self.timer_a.latch as i16);
                }
            },
            0xf => {
                self.timer_b.enabled = v & 0x01 != 0;
                self.timer_b.run_mode = if v & 0x08 != 0 {
                    RunMode::OneTime
                } else {
                    RunMode::Restart
                };
                self.timer_b.input_mode = if v & 0x20 != 0 {
                    InputMode::CNT
                } else {
                    InputMode::Processor
                };
                if v & 0x10 != 0 {
                    self.timer_b.counter = #[verifier::truncate] (self.timer_b.latch as i16);
                }
            },
            _ => {},
        }
    }

    pub fn read_register(&self, r: u8) -> (ret: u8)
        ensures
            ret == self.spec_read_register(r),
    {
        match r {
            0x0 => self.pra,
            0x1 => self.prb,
            0x4 => ((#[verifier::truncate] (self.timer_a.counter as u16)) % 0x100) as u8,
            0x5 => ((#[verifier::truncate] (self.timer_a.counter as u16)) / 0x100) as u8,
            0x6 => ((#[verifier::truncate] (self.timer_b.counter as u16)) % 0x100) as u8,
            0x7 => ((#[verifier::truncate] (self.timer_b.counter as u16)) / 0x100) as u8,
            0xd => {
                let mut ret: u8 = 0;
                if self.timer_a.irq_triggered {
                    ret = ret + 1;
                }
                if self.timer_b.irq_triggered {
                    ret = ret + 2;
                }
                if ret != 0 {
                    ret = ret + 0x80;
                }
                ret
            },
            _ => 0,
        }
    }

    /// The chip with both triggered flags cleared, as a CPU read of the
    /// interrupt status register leaves it.
    pub open spec fn spec_acked(self) -> Cia2 {
        Cia2 {
            timer_a: Timer { irq_triggered: false, ..self.timer_a },
            timer_b: Timer { irq_triggered: false, ..self.timer_b },
            ..self
        }
    }

    /// Clears the triggered flags, as a CPU read of the interrupt status
    /// register does.
    pub fn ack_irqs(&mut self)
        ensures
            *final(self) == old(self).spec_acked(),
    {
        self.timer_a.irq_triggered = false;
        self.timer_b.irq_triggered = false;
    }

    pub fn reset_timer_a(&mut self)
        ensures
            *final(self) == (Cia2 { timer_a: old(self).timer_a.spec_after_reset(), ..*old(self) }),
    {
        self.timer_a.reset();
    }

    pub fn reset_timer_b(&mut self)
        ensures
            *final(self) == (Cia2 { timer_b: old(self).timer_b.spec_after_reset(), ..*old(self) }),
    {
        self.timer_b.reset();
    }

    /// The base address of the 16 KiB window of RAM the VIC sees, selected
    /// by the inverted low two bits of data port A.
    pub fn vic_base_address(&self) -> (r: u16)
        ensures
            r == ((!self.pra & 0x3) as u16) << 14,
    {
        ((!self.pra & 0x3) as u16) << 14
    }

    /// One tick: both timers count the cycles elapsed since the last tick,
    /// and the returned flag says whether the chip pulls the CPU NMI line.
    pub fn step(&mut self, cpu_cycles: u32) -> (raise: bool)
        ensures
            *final(self) == old(self).spec_after_step(cpu_cycles),
            raise == old(self).spec_step_raises(cpu_cycles),
    {
        let delta: i16 = #[verifier::truncate] (cpu_cycles.wrapping_sub(
            self.prev_cpu_cycles,
        ) as i16);
        let raise_a = self.timer_a.tick(delta);
        let raise_b = self.timer_b.tick(delta);
        self.prev_cpu_cycles = cpu_cycles;
        raise_a || raise_b
    }
}

} // verus!
