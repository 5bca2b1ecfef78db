//! The interval-timer core shared by the two CIA chips: run and input
//! modes, and a 16-bit down-counter with a reload latch.  A timer observes
//! the CPU cycle counter through the delta its chip hands it each tick.

use vstd::prelude::*;

verus! {

/// What clocks a timer.  Only `Processor` (count CPU cycles) is
/// implemented; the other sources are accepted in the control register but
/// never advance the counter.
#[derive(Clone, Copy, PartialEq, Eq, Structural, Debug)]
pub enum InputMode {
    Processor,
    CNT,
    TimerA,
    TimerACNT,
}

impl InputMode {
    pub fn as_u8(self) -> (r: u8)
        ensures
            r == self.spec_as_u8(),
    {
        match self {
            InputMode::Processor => 0,
            InputMode::CNT => 1,
            InputMode::TimerA => 2,
            InputMode::TimerACNT => 3,
        }
    }

    pub open spec fn spec_as_u8(self) -> u8 {
        match self {
            InputMode::Processor => 0,
            InputMode::CNT => 1,
            InputMode::TimerA => 2,
            InputMode::TimerACNT => 3,
        }
    }

    pub fn from_u8(value: u8) -> (r: Option<InputMode>)
        ensures
            match r {
                Some(m) => value <= 3 && m.spec_as_u8() == value,
                None => value > 3,
            },
    {
        match value {
            0 => Some(InputMode::Processor),
            1 => Some(InputMode::CNT),
            2 => Some(InputMode::TimerA),
            3 => Some(InputMode::TimerACNT),
            _ => None,
        }
    }
}

/// What a timer does when its counter runs out: reload from the latch and
/// keep counting, or stop.
#[derive(Clone, Copy, PartialEq, Eq, Structural, Debug)]
pub enum RunMode {
    Restart,
    OneTime,
}

impl RunMode {
    pub fn as_u8(self) -> (r: u8)
        ensures
            r == self.spec_as_u8(),
    {
        match self {
            RunMode::Restart => 0,
            RunMode::OneTime => 1,
        }
    }

    pub open spec fn spec_as_u8(self) -> u8 {
        match self {
            RunMode::Restart => 0,
            RunMode::OneTime => 1,
        }
    }

    pub fn from_u8(value: u8) -> (r: Option<RunMode>)
        ensures
            match r {
                Some(m) => value <= 1 && m.spec_as_u8() == value,
                None => value > 1,
            },
    {
        match value {
            0 => Some(RunMode::Restart),
            1 => Some(RunMode::OneTime),
            _ => None,
        }
    }
}

/// One CIA interval timer: a 16-bit reload latch, a signed down-counter
/// (the counter may run past zero within a tick), enable and
/// interrupt-enable switches, and the sticky triggered flag the interrupt
/// status register reports.
pub struct Timer {
    pub latch: u16,
    pub counter: i16,
    pub enabled: bool,
    pub irq_enabled: bool,
    pub irq_triggered: bool,
    pub run_mode: RunMode,
    pub input_mode: InputMode,
}

impl Timer {
    /// True when applying the elapsed-cycle delta runs the counter out this
    /// tick: the timer counts CPU cycles and reaches or passes zero.
    pub open spec fn spec_fired(self, delta: i16) -> bool {
        self.enabled && self.input_mode == InputMode::Processor && self.counter.wrapping_sub(
            delta,
        ) <= 0
    }

    /// True when this tick pulls the chip's interrupt line: the timer ran
    /// out and its interrupt is enabled.
    pub open spec fn spec_raises(self, delta: i16) -> bool {
        self.spec_fired(delta) && self.irq_enabled
    }

    /// The counter reload a run-out applies: reload from the latch in
    /// `Restart` mode, stop counting in `OneTime` mode.
    pub open spec fn spec_after_reset(self) -> Timer {
        match self.run_mode {
            RunMode::Restart => Timer { counter: self.latch as i16, ..self },
            RunMode::OneTime => Timer { enabled: false, ..self },
        }
    }

    /// The timer state one tick leaves behind: subtract the delta when
    /// counting, then on a run-out record the trigger (when the interrupt
    /// is enabled) and reload or stop.
    pub open spec fn spec_after_tick(self, delta: i16) -> Timer {
        if self.enabled && self.input_mode == InputMode::Processor {
            let counted = Timer { counter: self.counter.wrapping_sub(delta), ..self };
            if counted.counter <= 0 {
                let marked = Timer {
                    irq_triggered: counted.irq_triggered || counted.irq_enabled,
                    ..counted
                };
                marked.spec_after_reset()
            } else {
                counted
            }
        } else {
            self
        }
    }

    /// The power-on state: everything cleared, Restart mode, processor
    /// clocked.
    pub open spec fn spec_is_init(self) -> bool {
        &&& self.latch == 0
        &&& self.counter == 0
        &&& !self.enabled
        &&& !self.irq_enabled
        &&& !self.irq_triggered
        &&& self.run_mode == RunMode::Restart
        &&& self.input_mode == InputMode::Processor
    }

    pub fn new() -> (t: Timer)
        ensures
            t.spec_is_init(),
    {
        Timer {
            latch: 0,
            counter: 0,
            enabled: false,
            irq_enabled: false,
            irq_triggered: false,
            run_mode: RunMode::Restart,
            input_mode: InputMode::Processor,
        }
    }

    /// Applies a run-out: reload from the latch in `Restart` mode, stop in
    /// `OneTime` mode.
    pub fn reset(&mut self)
        ensures
            *final(self) == old(self).spec_after_reset(),
    {
        match self.run_mode {
            RunMode::Restart => {
                self.counter = #[verifier::truncate] (self.latch as i16);
            },
            RunMode::OneTime => {
                self.enabled = false;
            },
        }
    }

    /// Advances the timer by an elapsed-cycle delta and reports whether it
    /// pulls the chip's interrupt line this tick.
    pub fn tick(&mut self, delta: i16) -> (raise: bool)
        ensures
            *final(self) == old(self).spec_after_tick(delta),
            raise == old(self).spec_raises(delta),
    {
        if self.enabled && matches!(self.input_mode, InputMode::Processor) {
            self.counter = self.counter.wrapping_sub(delta);
            if self.counter <= 0 {
                let raise = self.irq_enabled;
                if self.irq_enabled {
                    self.irq_triggered = true;
                }
                self.reset();
                return raise;
            }
        }
        false
    }
}

/// An interrupt-status byte: bit 7 flags that any source fired, bit 0 is
/// timer A, bit 1 is timer B.  Reading the register hands this out and
/// clears the triggered flags.
pub open spec fn spec_icr_status(a_triggered: bool, b_triggered: bool) -> u8 {
    if a_triggered || b_triggered {
        (0x80 + (if a_triggered {
            1u8
        } else {
            0u8
        }) + (if b_triggered {
            2u8
        } else {
            0u8
        })) as u8
    } else {
        0
    }
}

/// One timer's interrupt-enable switch after a write to the interrupt
/// control register: bit 7 says whether the selected sources are switched
/// on or off, and the source's own bit selects it.
pub open spec fn spec_irq_enable_after(current: bool, v: u8, source_bit: u8) -> bool {
    if v & source_bit != 0 {
        v & 0x80 != 0
    } else {
        current
    }
}

/// One timer after a write to its control register: bit 0 enables it,
/// bit 3 picks the run mode, bit 5 the input source, and bit 4 forces a
/// reload from the latch.
pub open spec fn spec_timer_after_control(t: Timer, v: u8) -> Timer {
    Timer {
        enabled: v & 0x01 != 0,
        run_mode: if v & 0x08 != 0 {
            RunMode::OneTime
        } else {
            RunMode::Restart
        },
        input_mode: if v & 0x20 != 0 {
            InputMode::CNT
        } else {
            InputMode::Processor
        },
        counter: if v & 0x10 != 0 {
            t.latch as i16
        } else {
            t.counter
        },
        ..t
    }
}

/// A timer latch with its low or high half replaced.
pub open spec fn spec_latch_low(latch: u16, v: u8) -> u16 {
    (latch & 0xff00) | v as u16
}

pub open spec fn spec_latch_high(latch: u16, v: u8) -> u16 {
    (latch & 0x00ff) | ((v as u16) << 8)
}

} // verus!
