//! System-wide laws, each stated over the spec functions the components'
//! contracts use and proved once and for all: stack and status round trips,
//! bank reconfiguration, the raster interrupt's once-per-frame behavior,
//! and the two timer run modes.

use crate::bus::BusView;
use crate::common::{InputMode, RunMode, Timer};
use crate::cpu::Cpu;
use crate::mem::MemView;
use crate::vic::Vic;
use vstd::prelude::*;

verus! {

/// Law: pushing a byte onto the stack and pulling it back yields the same
/// byte, leaves the rest of the bus alone, and returns the stack pointer
/// to its prior value.  `push` stores at 0x0100 + SP and decrements SP;
/// the following `pop` increments SP and reads the same slot.
pub proof fn lemma_stack_round_trip(cpu: Cpu, b: BusView, v: u8)
    requires
        b.wf(),
    ensures
        ({
            let addr_push = (0x0100 + cpu.sp as u16) as u16;
            let sp1 = cpu.sp.wrapping_sub(1);
            let addr_pop = (0x0100 + sp1.wrapping_add(1) as u16) as u16;
            let b1 = b.after_write(addr_push, v);
            &&& addr_pop == addr_push
            &&& b1.read_val(addr_pop) == v
            &&& b1.after_read(addr_pop) == b1
            &&& sp1.wrapping_add(1) == cpu.sp
            &&& b1.vic == b.vic && b1.cia1 == b.cia1 && b1.cia2 == b.cia2
            &&& b1.mem.rom == b.mem.rom && b1.mem.banks == b.mem.banks
        }),
{
    let sp = cpu.sp;
    let addr = (0x0100 + sp as u16) as u16;
    assert(((0x0100 + (sp as u16)) as u16) & 0xff00 == 0x0100) by (bit_vector);
    assert(!crate::mem::spec_device_page(addr));
    let b1 = b.after_write(addr, v);
    assert(b1.mem.ram == b.mem.ram.update(addr as int, v));
    assert(b1.read_val(addr) == b1.mem.read_byte(addr));
    assert(b1.mem.read_byte(addr) == b1.mem.ram[addr as int]);
}

/// Law: the status byte PHP pushes, read back by PLP, restores all seven
/// observable flags (B is not stored and keeps its prior value, and PHP
/// pushes it as set).
pub proof fn lemma_status_round_trip(cpu: Cpu)
    ensures
        ({
            let restored = cpu.spec_with_flags(cpu.spec_flags());
            &&& restored.cf == cpu.cf
            &&& restored.zf == cpu.zf
            &&& restored.idf == cpu.idf
            &&& restored.dmf == cpu.dmf
            &&& restored.of == cpu.of
            &&& restored.nf == cpu.nf
            &&& restored.bcf == cpu.bcf
            &&& restored.pc == cpu.pc && restored.sp == cpu.sp && restored.a == cpu.a
            &&& restored.x == cpu.x && restored.y == cpu.y && restored.cycles == cpu.cycles
        }),
{
    let c: u8 = if cpu.cf {
        1
    } else {
        0
    };
    let z: u8 = if cpu.zf {
        1
    } else {
        0
    };
    let i: u8 = if cpu.idf {
        1
    } else {
        0
    };
    let d: u8 = if cpu.dmf {
        1
    } else {
        0
    };
    let o: u8 = if cpu.of {
        1
    } else {
        0
    };
    let n: u8 = if cpu.nf {
        1
    } else {
        0
    };
    let f: u8 = (c + 2 * z + 4 * i + 8 * d + 48 + 64 * o + 128 * n) as u8;
    assert(cpu.spec_flags() == f);
    assert((f & 0x01 != 0) == (c == 1) && (f & 0x02 != 0) == (z == 1) && (f & 0x04 != 0) == (i
        == 1) && (f & 0x08 != 0) == (d == 1) && (f & 0x40 != 0) == (o == 1) && (f & 0x80 != 0) == (n
        == 1)) by (bit_vector)
        requires
            f == (c + 2 * z + 4 * i + 8 * d + 48 + 64 * o + 128 * n) as u8,
            c <= 1 && z <= 1 && i <= 1 && d <= 1 && o <= 1 && n <= 1,
    ;
}

/// Law: writing the same layout byte to 0x0001 twice leaves exactly the
/// state one write leaves: the bank slots depend on the written byte
/// alone, and the byte itself is mirrored in RAM.
pub proof fn lemma_bank_write_idempotent(m: MemView, v: u8)
    requires
        m.wf(),
    ensures
        m.write_byte(0x0001, v).write_byte(0x0001, v) == m.write_byte(0x0001, v),
{
    let once = m.write_byte(0x0001, v);
    let twice = once.write_byte(0x0001, v);
    assert(twice.ram =~= once.ram);
    assert(twice =~= once);
}

/// Law: a layout byte with LORAM, HIRAM and CHAREN all set maps the BASIC
/// window to ROM: after writing 0x07 to 0x0001, a CPU read of 0xA000
/// returns the ROM byte.
pub proof fn lemma_banks_map_basic_rom(m: MemView)
    requires
        m.wf(),
    ensures
        m.write_byte(0x0001, 0x07).read_byte(0xa000) == m.rom[0xa000],
{
    assert(0x07u8 & 0x01 != 0 && 0x07u8 & 0x02 != 0 && 0x07u8 & 0x04 != 0) by (bit_vector);
    assert(0xa000u16 & 0xff00 == 0xa000) by (bit_vector);
}

/// A run of VIC ticks in which every tick reaches a raster line.
pub open spec fn spec_vic_run_due(v: Vic, stamps: Seq<u32>) -> bool
    decreases stamps.len(),
{
    stamps.len() == 0 || (v.spec_raster_due(stamps[0]) && spec_vic_run_due(
        v.spec_after_step(stamps[0]),
        stamps.drop_first(),
    ))
}

/// How many ticks of the run fire the raster-compare interrupt.
pub open spec fn spec_raster_trigger_count(v: Vic, stamps: Seq<u32>) -> int
    decreases stamps.len(),
{
    if stamps.len() == 0 {
        0
    } else {
        (if v.spec_raster_triggers(stamps[0]) {
            1int
        } else {
            0int
        }) + spec_raster_trigger_count(v.spec_after_step(stamps[0]), stamps.drop_first())
    }
}

/// A raster tick advances the raster counter by one, wrapping to zero
/// after the last line, and leaves the compare value, the enable register
/// and the low control bits alone; the pending bit is set exactly when the
/// compare fires.
pub proof fn lemma_raster_advance(v: Vic, cycles: u32)
    requires
        v.wf(),
        v.spec_raster_due(cycles),
    ensures
        ({
            let v2 = v.spec_after_step(cycles);
            &&& v2.wf()
            &&& 0 <= v.spec_raster() < 512
            &&& v2.spec_raster() == if v.spec_raster() + 1 >= 312 {
                0int
            } else {
                v.spec_raster() + 1
            }
            &&& v2.irq_enabled == v.irq_enabled
            &&& v2.raster_irq == v.raster_irq
            &&& v2.irq_status == if v.spec_raster_triggers(cycles) {
                v.irq_status | 0x01
            } else {
                v.irq_status
            }
        }),
{
    let c = v.cr1;
    assert((c | 0x80) & 0x80 != 0 && (c & 0x7f) & 0x80 == 0) by (bit_vector);
    let r = v.spec_raster();
    if r + 1 >= 312 {
        assert(v.spec_after_step(cycles).spec_raster() == 0);
    } else {
        let st1 = if v.spec_raster_triggers(cycles) {
            Vic { irq_status: v.irq_status | 0x01, ..v }
        } else {
            v
        };
        let c1 = st1.cr1;
        assert((c1 | 0x80) & 0x80 != 0 && (c1 & 0x7f) & 0x80 == 0) by (bit_vector);
        assert(v.spec_after_step(cycles).spec_raster() == r + 1);
    }
}

/// The raster-compare interrupt fires exactly once while the raster runs
/// through a window of lines containing the compare value, and never while
/// it runs through a window that misses it.
pub proof fn lemma_raster_trigger_window(v: Vic, stamps: Seq<u32>)
    requires
        v.wf(),
        v.spec_raster_irq_enabled(),
        spec_vic_run_due(v, stamps),
        0 <= v.raster_irq < 312,
        v.spec_raster() + stamps.len() <= 312,
    ensures
        spec_raster_trigger_count(v, stamps) == if v.spec_raster() <= v.raster_irq < v.spec_raster()
            + stamps.len() {
            1int
        } else {
            0int
        },
    decreases stamps.len(),
{
    if stamps.len() == 0 {
    } else {
        lemma_raster_advance(v, stamps[0]);
        let v2 = v.spec_after_step(stamps[0]);
        lemma_raster_trigger_window(v2, stamps.drop_first());
    }
}

/// Law: with the raster interrupt enabled and a compare value K within the
/// frame, a full frame of raster ticks starting at line zero fires the
/// compare exactly once — at line K.
pub proof fn lemma_raster_irq_once_per_frame(v: Vic, stamps: Seq<u32>)
    requires
        v.wf(),
        v.spec_raster_irq_enabled(),
        spec_vic_run_due(v, stamps),
        0 <= v.raster_irq < 312,
        v.spec_raster() == 0,
        stamps.len() == 312,
    ensures
        spec_raster_trigger_count(v, stamps) == 1,
{
    lemma_raster_trigger_window(v, stamps);
}

/// Law: writing the status register with bit 0 set acknowledges a pending
/// raster interrupt: the pending bit reads clear afterwards.
pub proof fn lemma_raster_irq_ack(v: Vic)
    ensures
        v.spec_write_register(0x19, 0x01).irq_status & 0x01 == 0,
{
    let s = v.irq_status;
    assert((s & !(0x01u8 & 0x0f)) & 0x01 == 0) by (bit_vector);
}

/// A timer driven through a sequence of per-tick cycle deltas.
pub open spec fn spec_timer_run(t: Timer, deltas: Seq<i16>) -> Timer
    decreases deltas.len(),
{
    if deltas.len() == 0 {
        t
    } else {
        spec_timer_run(t.spec_after_tick(deltas[0]), deltas.drop_first())
    }
}

/// How many of the ticks run the timer out.
pub open spec fn spec_timer_fire_count(t: Timer, deltas: Seq<i16>) -> int
    decreases deltas.len(),
{
    if deltas.len() == 0 {
        0
    } else {
        (if t.spec_fired(deltas[0]) {
            1int
        } else {
            0int
        }) + spec_timer_fire_count(t.spec_after_tick(deltas[0]), deltas.drop_first())
    }
}

pub open spec fn spec_delta_sum(deltas: Seq<i16>) -> int
    decreases deltas.len(),
{
    if deltas.len() == 0 {
        0
    } else {
        deltas[0] + spec_delta_sum(deltas.drop_first())
    }
}

/// A sequence of single-cycle deltas.
pub open spec fn spec_unit_deltas(n: nat) -> Seq<i16> {
    Seq::new(n, |i: int| 1i16)
}

/// A stopped timer stays exactly as it is, whatever ticks arrive.
pub proof fn lemma_timer_disabled_stays(t: Timer, deltas: Seq<i16>)
    requires
        !t.enabled,
    ensures
        spec_timer_run(t, deltas) == t,
        spec_timer_fire_count(t, deltas) == 0,
    decreases deltas.len(),
{
    if deltas.len() > 0 {
        lemma_timer_disabled_stays(t, deltas.drop_first());
    }
}

/// Law: a one-shot timer with its interrupt enabled, once enough cycles
/// have elapsed to run its counter out, ends up stopped with the triggered
/// flag set — and stays that way.  Holds for non-negative per-tick deltas
/// within the counter's positive range.
pub proof fn lemma_timer_one_shot(t: Timer, deltas: Seq<i16>)
    requires
        t.enabled,
        t.irq_enabled,
        t.input_mode == InputMode::Processor,
        t.run_mode == RunMode::OneTime,
        0 <= t.counter,
        deltas.len() > 0,
        forall|i: int| 0 <= i < deltas.len() ==> 0 <= #[trigger] deltas[i] <= 0x7fff,
        spec_delta_sum(deltas) >= t.counter,
    ensures
        ({
            let end = spec_timer_run(t, deltas);
            &&& !end.enabled
            &&& end.irq_triggered
        }),
    decreases deltas.len(),
{
    let d0 = deltas[0];
    let t1 = t.spec_after_tick(d0);
    let rest = deltas.drop_first();
    if t.counter - d0 <= 0 {
        assert(t.spec_fired(d0));
        assert(!t1.enabled && t1.irq_triggered);
        lemma_timer_disabled_stays(t1, rest);
    } else {
        assert(t1.counter == t.counter - d0);
        assert(spec_delta_sum(rest) == spec_delta_sum(deltas) - d0);
        assert(rest.len() > 0) by {
            if rest.len() == 0 {
                assert(spec_delta_sum(rest) == 0);
            }
        }
        lemma_timer_one_shot(t1, rest);
    }
}

/// Counting down from `counter` with single-cycle ticks reaches one
/// without firing.
pub proof fn lemma_timer_unit_countdown(t: Timer, k: nat)
    requires
        t.enabled,
        t.input_mode == InputMode::Processor,
        t.counter == k + 1,
        k + 1 <= 0x7fff,
    ensures
        spec_timer_run(t, spec_unit_deltas(k)) == (Timer { counter: 1i16, ..t }),
        spec_timer_fire_count(t, spec_unit_deltas(k)) == 0,
    decreases k,
{
    if k == 0 {
        assert(spec_unit_deltas(0).len() == 0);
        assert(t == (Timer { counter: 1i16, ..t }));
    } else {
        let ds = spec_unit_deltas(k);
        let t1 = t.spec_after_tick(1i16);
        assert(t1.counter == t.counter - 1);
        assert(t1 == (Timer { counter: (t.counter - 1) as i16, ..t }));
        assert(ds.drop_first() =~= spec_unit_deltas((k - 1) as nat));
        lemma_timer_unit_countdown(t1, (k - 1) as nat);
    }
}

/// Runs compose: driving a timer through a concatenation is driving it
/// through the parts in order, and the fire counts add.
pub proof fn lemma_timer_run_concat(t: Timer, s1: Seq<i16>, s2: Seq<i16>)
    ensures
        spec_timer_run(t, s1 + s2) == spec_timer_run(spec_timer_run(t, s1), s2),
        spec_timer_fire_count(t, s1 + s2) == spec_timer_fire_count(t, s1) + spec_timer_fire_count(
            spec_timer_run(t, s1),
            s2,
        ),
    decreases s1.len(),
{
    if s1.len() == 0 {
        assert(s1 + s2 =~= s2);
    } else {
        let t1 = t.spec_after_tick(s1[0]);
        assert((s1 + s2).drop_first() =~= s1.drop_first() + s2);
        lemma_timer_run_concat(t1, s1.drop_first(), s2);
    }
}

/// Law: a restarting timer with latch L, counter L and its interrupt
/// enabled fires exactly twice over 2L single-cycle ticks: once when the
/// counter first runs out and once more after the reload.
pub proof fn lemma_timer_restart_fires_twice(t: Timer, l: nat)
    requires
        t.enabled,
        t.irq_enabled,
        t.input_mode == InputMode::Processor,
        t.run_mode == RunMode::Restart,
        1 <= l <= 0x7fff,
        t.latch == l,
        t.counter == l,
    ensures
        spec_timer_fire_count(t, spec_unit_deltas(2 * l)) == 2,
        spec_timer_run(t, spec_unit_deltas(2 * l)) == (Timer { irq_triggered: true, ..t }),
{
    let period = spec_unit_deltas((l - 1) as nat).push(1i16);
    assert(period =~= spec_unit_deltas(l));
    lemma_timer_unit_countdown(t, (l - 1) as nat);
    let t_low = spec_timer_run(t, spec_unit_deltas((l - 1) as nat));
    assert(t_low == (Timer { counter: 1i16, ..t }));

    // the l-th tick fires and reloads the latch
    let t_fire = t_low.spec_after_tick(1i16);
    assert(t_low.spec_fired(1i16));
    let lat = t.latch;
    assert(lat <= 0x7fff ==> lat as i16 == lat) by (bit_vector);
    assert(t_fire == (Timer { counter: t.latch as i16, irq_triggered: true, ..t }));
    assert(t_fire.counter == l);

    // one period: l unit ticks, one fire
    assert(spec_unit_deltas((l - 1) as nat) + seq![1i16] =~= spec_unit_deltas(l));
    lemma_timer_run_concat(t, spec_unit_deltas((l - 1) as nat), seq![1i16]);
    assert(spec_timer_run(t_low, seq![1i16]) == t_fire) by {
        reveal_with_fuel(spec_timer_run, 3);
        assert(seq![1i16].drop_first() =~= Seq::<i16>::empty());
        assert(spec_timer_run(t_fire, seq![1i16].drop_first()) == t_fire);
    }
    assert(spec_timer_run(t, spec_unit_deltas(l)) == t_fire);
    assert(spec_timer_fire_count(t, spec_unit_deltas(l)) == 1) by {
        assert(spec_timer_fire_count(t_low, seq![1i16]) == 1) by {
            reveal_with_fuel(spec_timer_fire_count, 3);
            assert(seq![1i16].drop_first() =~= Seq::<i16>::empty());
            assert(spec_timer_fire_count(t_fire, seq![1i16].drop_first()) == 0);
        }
    }

    // the second period repeats from the reloaded state
    let t2 = Timer { irq_triggered: true, ..t };
    assert(t_fire == (Timer { counter: t.latch as i16, ..t2 }));
    lemma_timer_unit_countdown(t_fire, (l - 1) as nat);
    let t2_low = spec_timer_run(t_fire, spec_unit_deltas((l - 1) as nat));
    assert(t2_low == (Timer { counter: 1i16, ..t2 }));
    let t2_fire = t2_low.spec_after_tick(1i16);
    assert(t2_low.spec_fired(1i16));
    assert(t2_fire == (Timer { counter: t.latch as i16, ..t2 }));
    lemma_timer_run_concat(t_fire, spec_unit_deltas((l - 1) as nat), seq![1i16]);
    assert(spec_timer_run(t_fire, spec_unit_deltas(l)) == t2_fire) by {
        reveal_with_fuel(spec_timer_run, 3);
        assert(seq![1i16].drop_first() =~= Seq::<i16>::empty());
        assert(spec_timer_run(t2_fire, seq![1i16].drop_first()) == t2_fire);
    }
    assert(spec_timer_fire_count(t_fire, spec_unit_deltas(l)) == 1) by {
        assert(spec_timer_fire_count(t2_low, seq![1i16]) == 1) by {
            reveal_with_fuel(spec_timer_fire_count, 3);
            assert(seq![1i16].drop_first() =~= Seq::<i16>::empty());
            assert(spec_timer_fire_count(t2_fire, seq![1i16].drop_first()) == 0);
        }
    }

    // stitch the two periods together
    assert(spec_unit_deltas(l) + spec_unit_deltas(l) =~= spec_unit_deltas(2 * l));
    lemma_timer_run_concat(t, spec_unit_deltas(l), spec_unit_deltas(l));
    assert(t2_fire == (Timer { irq_triggered: true, ..t }));
}

} // verus!
