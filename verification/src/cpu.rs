//! The 6502 interpreter: registers, flags, a monotone cycle counter, and
//! one instruction helper per operation, each with an exact contract over
//! the register file and the bus view.  `step` fetches one opcode at PC and
//! dispatches; interrupt entry points push state and revector through the
//! bus.  The cycle counter saturates instead of wrapping, so it never
//! decreases.

use crate::bus::{Bus, BusView};
use vstd::prelude::*;

verus! {

pub struct Cpu {
    pub pc: u16,
    pub sp: u8,
    pub a: u8,
    pub x: u8,
    pub y: u8,
    pub cycles: u32,
    pub cf: bool,
    pub zf: bool,
    pub idf: bool,
    pub dmf: bool,
    pub bcf: bool,
    pub of: bool,
    pub nf: bool,
    pub debug: bool,
}

/// The branch target of a relative branch: the program counter plus the
/// sign-extended offset, wrapping around the 16-bit space.
pub open spec fn spec_branch_target(pc: u16, offset: u8) -> u16 {
    pc.wrapping_add((offset as i8) as u16)
}

/// The accumulator-sized intermediate an ADC produces, before masking: the
/// plain sum in binary mode, the nibble-adjusted sum in decimal mode.
pub open spec fn spec_adc_t(a: u8, v: u8, c: bool, dec: bool) -> int {
    let carry: int = if c {
        1
    } else {
        0
    };
    if dec {
        let t0 = (a & 0x0f) + (v & 0x0f) + carry;
        let t1 = if t0 > 0x09 {
            t0 + 0x06
        } else {
            t0
        };
        let t2 = t1 + (a & 0xf0) + (v & 0xf0);
        if t2 % 512 >= 0xa0 {
            t2 + 0x60
        } else {
            t2
        }
    } else {
        a + v + carry
    }
}

/// The signed intermediate an SBC produces, before masking: the plain
/// difference in binary mode, the nibble-adjusted difference in decimal
/// mode.  The carry flag ends up set exactly when this value is
/// non-negative (no borrow).
pub open spec fn spec_sbc_t(a: u8, v: u8, c: bool, dec: bool) -> int {
    let borrow: int = if c {
        0
    } else {
        1
    };
    if dec {
        let d0 = (a & 0x0f) - (v & 0x0f) - borrow;
        let t0 = if d0 < 0 {
            (d0 + 26) % 16 + (a & 0xf0) - (v & 0xf0) - 0x10
        } else {
            d0 + (a & 0xf0) - (v & 0xf0)
        };
        if t0 < 0 {
            t0 - 0x60
        } else {
            t0
        }
    } else {
        a - v - borrow
    }
}

impl Cpu {
    /// The status byte as pushed by PHP and BRK: N V 1 B D I Z C with the
    /// B and unused bits reading as set.
    pub open spec fn spec_flags(self) -> u8 {
        ((if self.cf {
            1int
        } else {
            0int
        }) + (if self.zf {
            2int
        } else {
            0int
        }) + (if self.idf {
            4int
        } else {
            0int
        }) + (if self.dmf {
            8int
        } else {
            0int
        }) + 48 + (if self.of {
            64int
        } else {
            0int
        }) + (if self.nf {
            128int
        } else {
            0int
        })) as u8
    }

    /// The register file after loading a status byte: every flag from its
    /// bit, except B and the unused bit, which stay untouched.
    pub open spec fn spec_with_flags(self, v: u8) -> Cpu {
        Cpu {
            cf: v & 0x01 != 0,
            zf: v & 0x02 != 0,
            idf: v & 0x04 != 0,
            dmf: v & 0x08 != 0,
            of: v & 0x40 != 0,
            nf: v & 0x80 != 0,
            ..self
        }
    }

    /// The register file with Z and N set from a result byte.
    pub open spec fn spec_with_nz(self, v: u8) -> Cpu {
        Cpu { zf: v == 0, nf: v >= 0x80, ..self }
    }

    /// The register file with the cycle counter advanced; the counter
    /// saturates, so it never decreases.
    pub open spec fn spec_ticked(self, n: u8) -> Cpu {
        Cpu { cycles: self.cycles.saturating_add(n as u32), ..self }
    }

    pub fn new() -> (c: Cpu)
        ensures
            c.pc == 0 && c.sp == 0xff && c.a == 0 && c.x == 0 && c.y == 0,
            c.cycles == 0,
            !c.cf && !c.zf && c.idf && !c.dmf && !c.bcf && !c.of && !c.nf,
            !c.debug,
    {
        Cpu {
            pc: 0,
            sp: 0xff,
            a: 0,
            x: 0,
            y: 0,
            cycles: 0,
            cf: false,
            zf: false,
            idf: true,
            dmf: false,
            bcf: false,
            of: false,
            nf: false,
            debug: false,
        }
    }

    /// Clears the registers and loads the program counter from the reset
    /// vector; the cycle counter restarts at the reset entry cost.
    pub fn reset(&mut self, bus: &mut Bus)
        requires
            old(bus).wf(),
        ensures
            final(bus).wf(),
            final(bus)@ == old(bus)@.after_read_word(0xfffc),
            *final(self) == (Cpu {
                pc: old(bus)@.read_word_val(0xfffc),
                sp: 0xff,
                a: 0,
                x: 0,
                y: 0,
                cycles: 6,
                cf: false,
                zf: false,
                idf: true,
                dmf: false,
                bcf: false,
                of: false,
                nf: false,
                debug: old(self).debug,
            }),
    {
        self.a = 0;
        self.x = 0;
        self.y = 0;
        self.sp = 0xff;
        self.cf = false;
        self.zf = false;
        self.idf = true;
        self.dmf = false;
        self.bcf = false;
        self.of = false;
        self.nf = false;
        self.pc = bus.cpu_read_word(0xfffc);
        self.cycles = 6;
    }

    pub fn set_debug(&mut self, debug: bool)
        ensures
            *final(self) == (Cpu { debug, ..*old(self) }),
    {
        self.debug = debug;
    }

    pub fn cycles(&self) -> (r: u32)
        ensures
            r == self.cycles,
    {
        self.cycles
    }

    /// Advances the cycle counter; saturating, so the counter is
    /// monotone over any sequence of operations.
    pub fn tick(&mut self, v: u8)
        ensures
            *final(self) == old(self).spec_ticked(v),
            final(self).cycles >= old(self).cycles,
    {
        self.cycles = self.cycles.saturating_add(v as u32);
    }

    /// Reads one byte through the bus without touching the registers.
    pub fn load_byte(&self, bus: &mut Bus, addr: u16) -> (r: u8)
        requires
            old(bus).wf(),
        ensures
            final(bus).wf(),
            r == old(bus)@.read_val(addr),
            final(bus)@ == old(bus)@.after_read(addr),
    {
        bus.cpu_read(addr)
    }

    /// Fetches the byte at PC and advances PC.
    pub fn fetch_op(&mut self, bus: &mut Bus) -> (r: u8)
        requires
            old(bus).wf(),
        ensures
            final(bus).wf(),
            r == old(bus)@.read_val(old(self).pc),
            final(bus)@ == old(bus)@.after_read(old(self).pc),
            *final(self) == (Cpu { pc: old(self).pc.wrapping_add(1), ..*old(self) }),
    {
        let byte = bus.cpu_read(self.pc);
        self.pc = self.pc.wrapping_add(1);
        byte
    }

    /// Fetches the little-endian word at PC and advances PC by two.
    pub fn fetch_opw(&mut self, bus: &mut Bus) -> (r: u16)
        requires
            old(bus).wf(),
        ensures
            final(bus).wf(),
            r == old(bus)@.read_word_val(old(self).pc),
            final(bus)@ == old(bus)@.after_read_word(old(self).pc),
            *final(self) == (Cpu { pc: old(self).pc.wrapping_add(2), ..*old(self) }),
    {
        let retval = bus.cpu_read_word(self.pc);
        self.pc = self.pc.wrapping_add(2);
        retval
    }

    /// Pushes one byte at the stack page slot SP and decrements SP.
    pub fn push(&mut self, bus: &mut Bus, v: u8)
        requires
            old(bus).wf(),
        ensures
            final(bus).wf(),
            final(bus)@ == old(bus)@.after_write((0x0100 + old(self).sp as u16) as u16, v),
            *final(self) == (Cpu { sp: old(self).sp.wrapping_sub(1), ..*old(self) }),
    {
        let addr: u16 = 0x0100 + self.sp as u16;
        bus.cpu_write(addr, v);
        self.sp = self.sp.wrapping_sub(1);
    }

    /// Increments SP and reads the byte at the stack page slot SP.
    pub fn pop(&mut self, bus: &mut Bus) -> (r: u8)
        requires
            old(bus).wf(),
        ensures
            final(bus).wf(),
            r == old(bus)@.read_val((0x0100 + old(self).sp.wrapping_add(1) as u16) as u16),
            final(bus)@ == old(bus)@.after_read(
                (0x0100 + old(self).sp.wrapping_add(1) as u16) as u16,
            ),
            *final(self) == (Cpu { sp: old(self).sp.wrapping_add(1), ..*old(self) }),
    {
        self.sp = self.sp.wrapping_add(1);
        let addr: u16 = 0x0100 + self.sp as u16;
        bus.cpu_read(addr)
    }

    /// Assembles the status byte; B and the unused bit always read as set.
    pub fn flags(&self) -> (r: u8)
        ensures
            r == self.spec_flags(),
    {
        let mut v: u8 = 48;
        if self.cf {
            v = v + 1;
        }
        if self.zf {
            v = v + 2;
        }
        if self.idf {
            v = v + 4;
        }
        if self.dmf {
            v = v + 8;
        }
        if self.of {
            v = v + 64;
        }
        if self.nf {
            v = v + 128;
        }
        v
    }

    /// Loads the flags from a status byte; B and the unused bit are
    /// ignored.
    pub fn set_flags(&mut self, v: u8)
        ensures
            *final(self) == old(self).spec_with_flags(v),
    {
        self.cf = v & 0x01 != 0;
        self.zf = v & 0x02 != 0;
        self.idf = v & 0x04 != 0;
        self.dmf = v & 0x08 != 0;
        self.of = v & 0x40 != 0;
        self.nf = v & 0x80 != 0;
    }

    fn set_zf(&mut self, val: u8)
        ensures
            *final(self) == (Cpu { zf: val == 0, ..*old(self) }),
    {
        self.zf = val == 0;
    }

    fn set_nf(&mut self, val: u8)
        ensures
            *final(self) == (Cpu { nf: val >= 0x80, ..*old(self) }),
    {
        proof {
            assert((val & 0x80 != 0) == (val >= 0x80)) by (bit_vector);
        }
        self.nf = (val & 0x80) != 0;
    }

    /// Zero-page operand address: the fetched byte.
    pub fn addr_zero(&mut self, bus: &mut Bus) -> (r: u16)
        requires
            old(bus).wf(),
        ensures
            final(bus).wf(),
            r == old(bus)@.read_val(old(self).pc) as u16,
            final(bus)@ == old(bus)@.after_read(old(self).pc),
            *final(self) == (Cpu { pc: old(self).pc.wrapping_add(1), ..*old(self) }),
    {
        self.fetch_op(bus) as u16
    }

    /// Zero-page,X operand address: the fetched byte plus X, wrapping
    /// within the zero page.
    pub fn addr_zerox(&mut self, bus: &mut Bus) -> (r: u16)
        requires
            old(bus).wf(),
        ensures
            final(bus).wf(),
            r == (old(bus)@.read_val(old(self).pc) + old(self).x) % 0x100,
            final(bus)@ == old(bus)@.after_read(old(self).pc),
            *final(self) == (Cpu { pc: old(self).pc.wrapping_add(1), ..*old(self) }),
    {
        (self.fetch_op(bus) as u16 + self.x as u16) % 0x100
    }

    /// Zero-page,Y operand address: the fetched byte plus Y, wrapping
    /// within the zero page.
    pub fn addr_zeroy(&mut self, bus: &mut Bus) -> (r: u16)
        requires
            old(bus).wf(),
        ensures
            final(bus).wf(),
            r == (old(bus)@.read_val(old(self).pc) + old(self).y) % 0x100,
            final(bus)@ == old(bus)@.after_read(old(self).pc),
            *final(self) == (Cpu { pc: old(self).pc.wrapping_add(1), ..*old(self) }),
    {
        (self.fetch_op(bus) as u16 + self.y as u16) % 0x100
    }

    /// Absolute operand address: the fetched word.
    pub fn addr_abs(&mut self, bus: &mut Bus) -> (r: u16)
        requires
            old(bus).wf(),
        ensures
            final(bus).wf(),
            r == old(bus)@.read_word_val(old(self).pc),
            final(bus)@ == old(bus)@.after_read_word(old(self).pc),
            *final(self) == (Cpu { pc: old(self).pc.wrapping_add(2), ..*old(self) }),
    {
        self.fetch_opw(bus)
    }

    /// Absolute,X operand address: the fetched word plus X, wrapping.
    pub fn addr_absx(&mut self, bus: &mut Bus) -> (r: u16)
        requires
            old(bus).wf(),
        ensures
            final(bus).wf(),
            r == old(bus)@.read_word_val(old(self).pc).wrapping_add(old(self).x as u16),
            final(bus)@ == old(bus)@.after_read_word(old(self).pc),
            *final(self) == (Cpu { pc: old(self).pc.wrapping_add(2), ..*old(self) }),
    {
        let base = self.fetch_opw(bus);
        base.wrapping_add(self.x as u16)
    }

    /// Absolute,Y operand address: the fetched word plus Y, wrapping.
    pub fn addr_absy(&mut self, bus: &mut Bus) -> (r: u16)
        requires
            old(bus).wf(),
        ensures
            final(bus).wf(),
            r == old(bus)@.read_word_val(old(self).pc).wrapping_add(old(self).y as u16),
            final(bus)@ == old(bus)@.after_read_word(old(self).pc),
            *final(self) == (Cpu { pc: old(self).pc.wrapping_add(2), ..*old(self) }),
    {
        let base = self.fetch_opw(bus);
        base.wrapping_add(self.y as u16)
    }

    /// Indexed-indirect (X) operand address: the word read from the
    /// zero-page slot at the fetched byte plus X.
    pub fn addr_indx(&mut self, bus: &mut Bus) -> (r: u16)
        requires
            old(bus).wf(),
        ensures
            final(bus).wf(),
            ({
                let b1 = old(bus)@.after_read(old(self).pc);
                let ptr = ((old(bus)@.read_val(old(self).pc) + old(self).x) % 0x100) as u16;
                &&& r == b1.read_word_val(ptr)
                &&& final(bus)@ == b1.after_read_word(ptr)
            }),
            *final(self) == (Cpu { pc: old(self).pc.wrapping_add(1), ..*old(self) }),
    {
        let addr_zero = self.addr_zerox(bus);
        bus.cpu_read_word(addr_zero)
    }

    /// Indirect-indexed (Y) operand address: the word read from the
    /// zero-page slot at the fetched byte, plus Y, wrapping.
    pub fn addr_indy(&mut self, bus: &mut Bus) -> (r: u16)
        requires
            old(bus).wf(),
        ensures
            final(bus).wf(),
            ({
                let b1 = old(bus)@.after_read(old(self).pc);
                let ptr = old(bus)@.read_val(old(self).pc) as u16;
                &&& r == b1.read_word_val(ptr).wrapping_add(old(self).y as u16)
                &&& final(bus)@ == b1.after_read_word(ptr)
            }),
            *final(self) == (Cpu { pc: old(self).pc.wrapping_add(1), ..*old(self) }),
    {
        let addr_zero = self.addr_zero(bus);
        let base = bus.cpu_read_word(addr_zero);
        base.wrapping_add(self.y as u16)
    }

    /// ORA: bitwise OR into the accumulator.
    pub fn ora(&mut self, v: u8, cycles: u8)
        ensures
            *final(self) == (Cpu {
                a: old(self).a | v,
                ..old(self).spec_with_nz(old(self).a | v)
            }).spec_ticked(cycles),
    {
        self.a = self.a | v;
        let a = self.a;
        self.set_zf(a);
        self.set_nf(a);
        self.tick(cycles);
    }

    /// AND: bitwise AND into the accumulator.
    pub fn and(&mut self, v: u8, cycles: u8)
        ensures
            *final(self) == (Cpu {
                a: old(self).a & v,
                ..old(self).spec_with_nz(old(self).a & v)
            }).spec_ticked(cycles),
    {
        self.a = self.a & v;
        let a = self.a;
        self.set_zf(a);
        self.set_nf(a);
        self.tick(cycles);
    }

    /// EOR: bitwise exclusive OR into the accumulator.
    pub fn eor(&mut self, v: u8, cycles: u8)
        ensures
            *final(self) == (Cpu {
                a: old(self).a ^ v,
                ..old(self).spec_with_nz(old(self).a ^ v)
            }).spec_ticked(cycles),
    {
        self.a = self.a ^ v;
        let a = self.a;
        self.set_zf(a);
        self.set_nf(a);
        self.tick(cycles);
    }

    /// Shift left; the carry takes the bit shifted out.
    pub fn asl(&mut self, v: u8) -> (r: u8)
        ensures
            r == v << 1,
            *final(self) == (Cpu { cf: v >= 0x80, ..old(self).spec_with_nz(v << 1) }),
    {
        let t = v << 1;
        proof {
            assert((v & 0x80 != 0) == (v >= 0x80)) by (bit_vector);
        }
        self.cf = (v & 0x80) != 0;
        self.set_zf(t);
        self.set_nf(t);
        t
    }

    pub fn asl_a(&mut self)
        ensures
            *final(self) == (Cpu {
                a: old(self).a << 1,
                cf: old(self).a >= 0x80,
                ..old(self).spec_with_nz(old(self).a << 1)
            }).spec_ticked(2),
    {
        let a = self.a;
        let t = self.asl(a);
        self.a = t;
        self.tick(2);
    }

    /// Read-modify-write shift left: the original byte is written back
    /// before the shifted byte lands, as the processor does.
    pub fn asl_mem(&mut self, bus: &mut Bus, addr: u16, cycles: u8)
        requires
            old(bus).wf(),
        ensures
            final(bus).wf(),
            ({
                let v0 = old(bus)@.read_val(addr);
                &&& final(bus)@ == old(bus)@.after_read(addr).after_write(addr, v0).after_write(
                    addr,
                    v0 << 1,
                )
                &&& *final(self) == (Cpu {
                    cf: v0 >= 0x80,
                    ..old(self).spec_with_nz(v0 << 1)
                }).spec_ticked(cycles)
            }),
    {
        let v = self.load_byte(bus, addr);
        bus.cpu_write(addr, v);
        let t = self.asl(v);
        bus.cpu_write(addr, t);
        self.tick(cycles);
    }

    /// Rotate left through the carry.
    pub fn rol(&mut self, v: u8) -> (r: u8)
        ensures
            r == (((v as u16) << 1) | (if old(self).cf {
                1u16
            } else {
                0u16
            })) as u8,
            *final(self) == (Cpu { cf: v >= 0x80, ..old(self).spec_with_nz(r) }),
    {
        let c: u16 = if self.cf {
            1
        } else {
            0
        };
        let t16: u16 = ((v as u16) << 1) | c;
        proof {
            assert((t16 & 0x100 != 0) == (v >= 0x80)) by (bit_vector)
                requires
                    t16 == ((v as u16) << 1) | c,
                    c <= 1,
            ;
        }
        self.cf = (t16 & 0x100) != 0;
        let t = #[verifier::truncate] (t16 as u8);
        self.set_zf(t);
        self.set_nf(t);
        t
    }

    pub fn rol_a(&mut self)
        ensures
            ({
                let r = (((old(self).a as u16) << 1) | (if old(self).cf {
                    1u16
                } else {
                    0u16
                })) as u8;
                *final(self) == (Cpu {
                    a: r,
                    cf: old(self).a >= 0x80,
                    ..old(self).spec_with_nz(r)
                }).spec_ticked(2)
            }),
    {
        let a = self.a;
        let t = self.rol(a);
        self.a = t;
        self.tick(2);
    }

    pub fn rol_mem(&mut self, bus: &mut Bus, addr: u16, cycles: u8)
        requires
            old(bus).wf(),
        ensures
            final(bus).wf(),
            ({
                let v0 = old(bus)@.read_val(addr);
                let r = (((v0 as u16) << 1) | (if old(self).cf {
                    1u16
                } else {
                    0u16
                })) as u8;
                &&& final(bus)@ == old(bus)@.after_read(addr).after_write(addr, v0).after_write(
                    addr,
                    r,
                )
                &&& *final(self) == (Cpu {
                    cf: v0 >= 0x80,
                    ..old(self).spec_with_nz(r)
                }).spec_ticked(cycles)
            }),
    {
        let v = self.load_byte(bus, addr);
        bus.cpu_write(addr, v);
        let t = self.rol(v);
        bus.cpu_write(addr, t);
        self.tick(cycles);
    }

    /// Shift right; the carry takes the bit shifted out.
    pub fn lsr(&mut self, v: u8) -> (r: u8)
        ensures
            r == v >> 1,
            *final(self) == (Cpu { cf: v & 0x01 != 0, ..old(self).spec_with_nz(v >> 1) }),
    {
        let t = v >> 1;
        self.cf = (v & 0x01) != 0;
        self.set_zf(t);
        self.set_nf(t);
        t
    }

    pub fn lsr_a(&mut self)
        ensures
            *final(self) == (Cpu {
                a: old(self).a >> 1,
                cf: old(self).a & 0x01 != 0,
                ..old(self).spec_with_nz(old(self).a >> 1)
            }).spec_ticked(2),
    {
        let a = self.a;
        let t = self.lsr(a);
        self.a = t;
        self.tick(2);
    }

    pub fn lsr_mem(&mut self, bus: &mut Bus, addr: u16, cycles: u8)
        requires
            old(bus).wf(),
        ensures
            final(bus).wf(),
            ({
                let v0 = old(bus)@.read_val(addr);
                &&& final(bus)@ == old(bus)@.after_read(addr).after_write(addr, v0).after_write(
                    addr,
                    v0 >> 1,
                )
                &&& *final(self) == (Cpu {
                    cf: v0 & 0x01 != 0,
                    ..old(self).spec_with_nz(v0 >> 1)
                }).spec_ticked(cycles)
            }),
    {
        let v = self.load_byte(bus, addr);
        bus.cpu_write(addr, v);
        let t = self.lsr(v);
        bus.cpu_write(addr, t);
        self.tick(cycles);
    }

    /// Rotate right through the carry.
    pub fn ror(&mut self, v: u8) -> (r: u8)
        ensures
            r == (v >> 1) | (if old(self).cf {
                0x80u8
            } else {
                0u8
            }),
            *final(self) == (Cpu { cf: v & 0x01 != 0, ..old(self).spec_with_nz(r) }),
    {
        let hi: u8 = if self.cf {
            0x80
        } else {
            0
        };
        let t = (v >> 1) | hi;
        self.cf = (v & 0x01) != 0;
        self.set_zf(t);
        self.set_nf(t);
        t
    }

    pub fn ror_a(&mut self)
        ensures
            ({
                let r = (old(self).a >> 1) | (if old(self).cf {
                    0x80u8
                } else {
                    0u8
                });
                *final(self) == (Cpu {
                    a: r,
                    cf: old(self).a & 0x01 != 0,
                    ..old(self).spec_with_nz(r)
                }).spec_ticked(2)
            }),
    {
        let a = self.a;
        let t = self.ror(a);
        self.a = t;
        self.tick(2);
    }

    pub fn ror_mem(&mut self, bus: &mut Bus, addr: u16, cycles: u8)
        requires
            old(bus).wf(),
        ensures
            final(bus).wf(),
            ({
                let v0 = old(bus)@.read_val(addr);
                let r = (v0 >> 1) | (if old(self).cf {
                    0x80u8
                } else {
                    0u8
                });
                &&& final(bus)@ == old(bus)@.after_read(addr).after_write(addr, v0).after_write(
                    addr,
                    r,
                )
                &&& *final(self) == (Cpu {
                    cf: v0 & 0x01 != 0,
                    ..old(self).spec_with_nz(r)
                }).spec_ticked(cycles)
            }),
    {
        let v = self.load_byte(bus, addr);
        bus.cpu_write(addr, v);
        let t = self.ror(v);
        bus.cpu_write(addr, t);
        self.tick(cycles);
    }

    /// BIT: N and V from the memory byte's top bits, Z from the AND with
    /// the accumulator.
    pub fn bit(&mut self, bus: &mut Bus, addr: u16, cycles: u8)
        requires
            old(bus).wf(),
        ensures
            final(bus).wf(),
            final(bus)@ == old(bus)@.after_read(addr),
            ({
                let t = old(bus)@.read_val(addr);
                *final(self) == (Cpu {
                    of: t & 0x40 != 0,
                    nf: t >= 0x80,
                    zf: t & old(self).a == 0,
                    ..*old(self)
                }).spec_ticked(cycles)
            }),
    {
        let t = self.load_byte(bus, addr);
        self.of = (t & 0x40) != 0;
        self.set_nf(t);
        let masked = t & self.a;
        self.set_zf(masked);
        self.tick(cycles);
    }

    /// ADC: add with carry, in binary or decimal mode per the D flag.
    pub fn adc(&mut self, v: u8, cycles: u8)
        ensures
            ({
                let t = spec_adc_t(old(self).a, v, old(self).cf, old(self).dmf);
                let t8 = (t % 256) as u8;
                *final(self) == (Cpu {
                    a: t8,
                    cf: t > 0xff,
                    of: ((old(self).a ^ v) & 0x80 == 0) && ((old(self).a ^ t8) & 0x80 != 0),
                    ..old(self).spec_with_nz(t8)
                }).spec_ticked(cycles)
            }),
    {
        let t: u16;
        if self.dmf {
            let mut t0: u16 = (self.a & 0x0f) as u16 + (v & 0x0f) as u16 + if self.cf {
                1
            } else {
                0
            };
            if t0 > 0x09 {
                t0 = t0 + 0x06;
            }
            let mut t2: u16 = t0 + (self.a & 0xf0) as u16 + (v & 0xf0) as u16;
            if t2 % 512 >= 0xa0 {
                t2 = t2 + 0x60;
            }
            t = t2;
        } else {
            t = self.a as u16 + v as u16 + if self.cf {
                1
            } else {
                0
            };
        }
        self.cf = t > 0xff;
        let t8 = (t % 0x100) as u8;
        self.of = ((self.a ^ v) & 0x80 == 0) && ((self.a ^ t8) & 0x80 != 0);
        self.set_zf(t8);
        self.set_nf(t8);
        self.a = t8;
        self.tick(cycles);
    }

    /// SBC: subtract with borrow, in binary or decimal mode per the D
    /// flag; the carry ends up set exactly when no borrow occurred.
    pub fn sbc(&mut self, v: u8, cycles: u8)
        ensures
            ({
                let t = spec_sbc_t(old(self).a, v, old(self).cf, old(self).dmf);
                let t8 = ((t + 0x200) % 256) as u8;
                *final(self) == (Cpu {
                    a: t8,
                    cf: t >= 0,
                    of: ((old(self).a ^ t8) & 0x80 != 0) && ((old(self).a ^ v) & 0x80 != 0),
                    ..old(self).spec_with_nz(t8)
                }).spec_ticked(cycles)
            }),
    {
        proof {
            let aa = self.a;
            let vv = v;
            assert(aa & 0x0f <= 0x0f && vv & 0x0f <= 0x0f && aa & 0xf0 <= 0xf0 && vv & 0xf0
                <= 0xf0) by (bit_vector);
        }
        let borrow: i32 = if self.cf {
            0
        } else {
            1
        };
        let t: i32;
        if self.dmf {
            let d0: i32 = (self.a & 0x0f) as i32 - (v & 0x0f) as i32 - borrow;
            let mut t0: i32;
            if d0 < 0 {
                t0 = (d0 + 26) % 16 + (self.a & 0xf0) as i32 - (v & 0xf0) as i32 - 0x10;
            } else {
                t0 = d0 + (self.a & 0xf0) as i32 - (v & 0xf0) as i32;
            }
            if t0 < 0 {
                t0 = t0 - 0x60;
            }
            t = t0;
        } else {
            t = self.a as i32 - v as i32 - borrow;
        }
        self.cf = t >= 0;
        let t8: u8 = ((t + 0x200) % 0x100) as u8;
        self.of = ((self.a ^ t8) & 0x80 != 0) && ((self.a ^ v) & 0x80 != 0);
        self.set_zf(t8);
        self.set_nf(t8);
        self.a = t8;
        self.tick(cycles);
    }

    /// CMP: compare the accumulator with a byte; C means no borrow.
    pub fn cmp(&mut self, v: u8, cycles: u8)
        ensures
            ({
                let t8 = ((old(self).a - v + 0x100) % 0x100) as u8;
                *final(self) == (Cpu {
                    cf: old(self).a >= v,
                    ..old(self).spec_with_nz(t8)
                }).spec_ticked(cycles)
            }),
    {
        let t: u16 = 0x100 + self.a as u16 - v as u16;
        self.cf = t >= 0x100;
        let t8 = (t % 0x100) as u8;
        self.set_zf(t8);
        self.set_nf(t8);
        self.tick(cycles);
    }

    /// CPX: compare the X register with a byte.
    pub fn cpx(&mut self, v: u8, cycles: u8)
        ensures
            ({
                let t8 = ((old(self).x - v + 0x100) % 0x100) as u8;
                *final(self) == (Cpu {
                    cf: old(self).x >= v,
                    ..old(self).spec_with_nz(t8)
                }).spec_ticked(cycles)
            }),
    {
        let t: u16 = 0x100 + self.x as u16 - v as u16;
        self.cf = t >= 0x100;
        let t8 = (t % 0x100) as u8;
        self.set_zf(t8);
        self.set_nf(t8);
        self.tick(cycles);
    }

    /// CPY: compare the Y register with a byte.
    pub fn cpy(&mut self, v: u8, cycles: u8)
        ensures
            ({
                let t8 = ((old(self).y - v + 0x100) % 0x100) as u8;
                *final(self) == (Cpu {
                    cf: old(self).y >= v,
                    ..old(self).spec_with_nz(t8)
                }).spec_ticked(cycles)
            }),
    {
        let t: u16 = 0x100 + self.y as u16 - v as u16;
        self.cf = t >= 0x100;
        let t8 = (t % 0x100) as u8;
        self.set_zf(t8);
        self.set_nf(t8);
        self.tick(cycles);
    }

    pub fn lda(&mut self, v: u8, cycles: u8)
        ensures
            *final(self) == (Cpu { a: v, ..old(self).spec_with_nz(v) }).spec_ticked(cycles),
    {
        self.a = v;
        self.set_zf(v);
        self.set_nf(v);
        self.tick(cycles);
    }

    pub fn ldx(&mut self, v: u8, cycles: u8)
        ensures
            *final(self) == (Cpu { x: v, ..old(self).spec_with_nz(v) }).spec_ticked(cycles),
    {
        self.x = v;
        self.set_zf(v);
        self.set_nf(v);
        self.tick(cycles);
    }

    pub fn ldy(&mut self, v: u8, cycles: u8)
        ensures
            *final(self) == (Cpu { y: v, ..old(self).spec_with_nz(v) }).spec_ticked(cycles),
    {
        self.y = v;
        self.set_zf(v);
        self.set_nf(v);
        self.tick(cycles);
    }

    pub fn sta(&mut self, bus: &mut Bus, addr: u16, cycles: u8)
        requires
            old(bus).wf(),
        ensures
            final(bus).wf(),
            final(bus)@ == old(bus)@.after_write(addr, old(self).a),
            *final(self) == old(self).spec_ticked(cycles),
    {
        bus.cpu_write(addr, self.a);
        self.tick(cycles);
    }

    pub fn stx(&mut self, bus: &mut Bus, addr: u16, cycles: u8)
        requires
            old(bus).wf(),
        ensures
            final(bus).wf(),
            final(bus)@ == old(bus)@.after_write(addr, old(self).x),
            *final(self) == old(self).spec_ticked(cycles),
    {
        bus.cpu_write(addr, self.x);
        self.tick(cycles);
    }

    pub fn sty(&mut self, bus: &mut Bus, addr: u16, cycles: u8)
        requires
            old(bus).wf(),
        ensures
            final(bus).wf(),
            final(bus)@ == old(bus)@.after_write(addr, old(self).y),
            *final(self) == old(self).spec_ticked(cycles),
    {
        bus.cpu_write(addr, self.y);
        self.tick(cycles);
    }

    /// DEC: read-modify-write decrement of a memory byte.
    pub fn dec(&mut self, bus: &mut Bus, addr: u16, cycles: u8)
        requires
            old(bus).wf(),
        ensures
            final(bus).wf(),
            ({
                let v0 = old(bus)@.read_val(addr);
                let r = v0.wrapping_sub(1);
                &&& final(bus)@ == old(bus)@.after_read(addr).after_write(addr, v0).after_write(
                    addr,
                    r,
                )
                &&& *final(self) == old(self).spec_with_nz(r).spec_ticked(cycles)
            }),
    {
        let v = self.load_byte(bus, addr);
        bus.cpu_write(addr, v);
        let r = v.wrapping_sub(1);
        bus.cpu_write(addr, r);
        self.set_zf(r);
        self.set_nf(r);
        self.tick(cycles);
    }

    /// INC: read-modify-write increment of a memory byte.
    pub fn inc(&mut self, bus: &mut Bus, addr: u16, cycles: u8)
        requires
            old(bus).wf(),
        ensures
            final(bus).wf(),
            ({
                let v0 = old(bus)@.read_val(addr);
                let r = v0.wrapping_add(1);
                &&& final(bus)@ == old(bus)@.after_read(addr).after_write(addr, v0).after_write(
                    addr,
                    r,
                )
                &&& *final(self) == old(self).spec_with_nz(r).spec_ticked(cycles)
            }),
    {
        let v = self.load_byte(bus, addr);
        bus.cpu_write(addr, v);
        let r = v.wrapping_add(1);
        bus.cpu_write(addr, r);
        self.set_zf(r);
        self.set_nf(r);
        self.tick(cycles);
    }

    pub fn inx(&mut self)
        ensures
            *final(self) == (Cpu {
                x: old(self).x.wrapping_add(1),
                ..old(self).spec_with_nz(old(self).x.wrapping_add(1))
            }).spec_ticked(2),
    {
        self.x = self.x.wrapping_add(1);
        let x = self.x;
        self.set_zf(x);
        self.set_nf(x);
        self.tick(2);
    }

    pub fn iny(&mut self)
        ensures
            *final(self) == (Cpu {
                y: old(self).y.wrapping_add(1),
                ..old(self).spec_with_nz(old(self).y.wrapping_add(1))
            }).spec_ticked(2),
    {
        self.y = self.y.wrapping_add(1);
        let y = self.y;
        self.set_zf(y);
        self.set_nf(y);
        self.tick(2);
    }

    pub fn dex(&mut self)
        ensures
            *final(self) == (Cpu {
                x: old(self).x.wrapping_sub(1),
                ..old(self).spec_with_nz(old(self).x.wrapping_sub(1))
            }).spec_ticked(2),
    {
        self.x = self.x.wrapping_sub(1);
        let x = self.x;
        self.set_zf(x);
        self.set_nf(x);
        self.tick(2);
    }

    pub fn dey(&mut self)
        ensures
            *final(self) == (Cpu {
                y: old(self).y.wrapping_sub(1),
                ..old(self).spec_with_nz(old(self).y.wrapping_sub(1))
            }).spec_ticked(2),
    {
        self.y = self.y.wrapping_sub(1);
        let y = self.y;
        self.set_zf(y);
        self.set_nf(y);
        self.tick(2);
    }

    pub fn txa(&mut self)
        ensures
            *final(self) == (Cpu {
                a: old(self).x,
                ..old(self).spec_with_nz(old(self).x)
            }).spec_ticked(2),
    {
        self.a = self.x;
        let a = self.a;
        self.set_zf(a);
        self.set_nf(a);
        self.tick(2);
    }

    pub fn tax(&mut self)
        ensures
            *final(self) == (Cpu {
                x: old(self).a,
                ..old(self).spec_with_nz(old(self).a)
            }).spec_ticked(2),
    {
        self.x = self.a;
        let x = self.x;
        self.set_zf(x);
        self.set_nf(x);
        self.tick(2);
    }

    pub fn tay(&mut self)
        ensures
            *final(self) == (Cpu {
                y: old(self).a,
                ..old(self).spec_with_nz(old(self).a)
            }).spec_ticked(2),
    {
        self.y = self.a;
        let y = self.y;
        self.set_zf(y);
        self.set_nf(y);
        self.tick(2);
    }

    pub fn tya(&mut self)
        ensures
            *final(self) == (Cpu {
                a: old(self).y,
                ..old(self).spec_with_nz(old(self).y)
            }).spec_ticked(2),
    {
        self.a = self.y;
        let a = self.a;
        self.set_zf(a);
        self.set_nf(a);
        self.tick(2);
    }

    /// TXS: X to the stack pointer; no flags move.
    pub fn txs(&mut self)
        ensures
            *final(self) == (Cpu { sp: old(self).x, ..*old(self) }).spec_ticked(2),
    {
        self.sp = self.x;
        self.tick(2);
    }

    pub fn tsx(&mut self)
        ensures
            *final(self) == (Cpu {
                x: old(self).sp,
                ..old(self).spec_with_nz(old(self).sp)
            }).spec_ticked(2),
    {
        self.x = self.sp;
        let x = self.x;
        self.set_zf(x);
        self.set_nf(x);
        self.tick(2);
    }

    pub fn clc(&mut self)
        ensures
            *final(self) == (Cpu { cf: false, ..*old(self) }).spec_ticked(2),
    {
        self.cf = false;
        self.tick(2);
    }

    pub fn sec(&mut self)
        ensures
            *final(self) == (Cpu { cf: true, ..*old(self) }).spec_ticked(2),
    {
        self.cf = true;
        self.tick(2);
    }

    pub fn cli(&mut self)
        ensures
            *final(self) == (Cpu { idf: false, ..*old(self) }).spec_ticked(2),
    {
        self.idf = false;
        self.tick(2);
    }

    pub fn sei(&mut self)
        ensures
            *final(self) == (Cpu { idf: true, ..*old(self) }).spec_ticked(2),
    {
        self.idf = true;
        self.tick(2);
    }

    pub fn clv(&mut self)
        ensures
            *final(self) == (Cpu { of: false, ..*old(self) }).spec_ticked(2),
    {
        self.of = false;
        self.tick(2);
    }

    pub fn cld(&mut self)
        ensures
            *final(self) == (Cpu { dmf: false, ..*old(self) }).spec_ticked(2),
    {
        self.dmf = false;
        self.tick(2);
    }

    pub fn sed(&mut self)
        ensures
            *final(self) == (Cpu { dmf: true, ..*old(self) }).spec_ticked(2),
    {
        self.dmf = true;
        self.tick(2);
    }

    pub fn nop(&mut self)
        ensures
            *final(self) == old(self).spec_ticked(2),
    {
        self.tick(2);
    }

    /// PHP: push the status byte with B and the unused bit set.
    pub fn php(&mut self, bus: &mut Bus)
        requires
            old(bus).wf(),
        ensures
            final(bus).wf(),
            final(bus)@ == old(bus)@.after_write(
                (0x0100 + old(self).sp as u16) as u16,
                old(self).spec_flags(),
            ),
            *final(self) == (Cpu { sp: old(self).sp.wrapping_sub(1), ..*old(self) }).spec_ticked(
                3,
            ),
    {
        let f = self.flags();
        self.push(bus, f);
        self.tick(3);
    }

    /// PLP: pull the status byte; B and the unused bit are ignored.
    pub fn plp(&mut self, bus: &mut Bus)
        requires
            old(bus).wf(),
        ensures
            final(bus).wf(),
            ({
                let addr = (0x0100 + old(self).sp.wrapping_add(1) as u16) as u16;
                &&& final(bus)@ == old(bus)@.after_read(addr)
                &&& *final(self) == (Cpu {
                    sp: old(self).sp.wrapping_add(1),
                    ..old(self).spec_with_flags(old(bus)@.read_val(addr))
                }).spec_ticked(4)
            }),
    {
        let v = self.pop(bus);
        self.set_flags(v);
        self.tick(4);
    }

    pub fn pha(&mut self, bus: &mut Bus)
        requires
            old(bus).wf(),
        ensures
            final(bus).wf(),
            final(bus)@ == old(bus)@.after_write(
                (0x0100 + old(self).sp as u16) as u16,
                old(self).a,
            ),
            *final(self) == (Cpu { sp: old(self).sp.wrapping_sub(1), ..*old(self) }).spec_ticked(
                3,
            ),
    {
        let a = self.a;
        self.push(bus, a);
        self.tick(3);
    }

    pub fn pla(&mut self, bus: &mut Bus)
        requires
            old(bus).wf(),
        ensures
            final(bus).wf(),
            ({
                let addr = (0x0100 + old(self).sp.wrapping_add(1) as u16) as u16;
                let v = old(bus)@.read_val(addr);
                &&& final(bus)@ == old(bus)@.after_read(addr)
                &&& *final(self) == (Cpu {
                    sp: old(self).sp.wrapping_add(1),
                    a: v,
                    ..old(self).spec_with_nz(v)
                }).spec_ticked(4)
            }),
    {
        let v = self.pop(bus);
        self.a = v;
        self.set_zf(v);
        self.set_nf(v);
        self.tick(4);
    }

    /// BPL: branch when N is clear.
    pub fn bpl(&mut self, bus: &mut Bus)
        requires
            old(bus).wf(),
        ensures
            final(bus).wf(),
            final(bus)@ == old(bus)@.after_read(old(self).pc),
            ({
                let off = old(bus)@.read_val(old(self).pc);
                let pc1 = old(self).pc.wrapping_add(1);
                *final(self) == (Cpu {
                    pc: if !old(self).nf {
                        spec_branch_target(pc1, off)
                    } else {
                        pc1
                    },
                    ..*old(self)
                }).spec_ticked(2)
            }),
    {
        let offset = self.fetch_op(bus);
        let target = self.pc.wrapping_add(#[verifier::truncate] ((offset as i8) as u16));
        if !self.nf {
            self.pc = target;
        }
        self.tick(2);
    }

    /// BMI: branch when N is set.
    pub fn bmi(&mut self, bus: &mut Bus)
        requires
            old(bus).wf(),
        ensures
            final(bus).wf(),
            final(bus)@ == old(bus)@.after_read(old(self).pc),
            ({
                let off = old(bus)@.read_val(old(self).pc);
                let pc1 = old(self).pc.wrapping_add(1);
                *final(self) == (Cpu {
                    pc: if old(self).nf {
                        spec_branch_target(pc1, off)
                    } else {
                        pc1
                    },
                    ..*old(self)
                }).spec_ticked(2)
            }),
    {
        let offset = self.fetch_op(bus);
        let target = self.pc.wrapping_add(#[verifier::truncate] ((offset as i8) as u16));
        if self.nf {
            self.pc = target;
        }
        self.tick(2);
    }

    /// BVC: branch when V is clear.
    pub fn bvc(&mut self, bus: &mut Bus)
        requires
            old(bus).wf(),
        ensures
            final(bus).wf(),
            final(bus)@ == old(bus)@.after_read(old(self).pc),
            ({
                let off = old(bus)@.read_val(old(self).pc);
                let pc1 = old(self).pc.wrapping_add(1);
                *final(self) == (Cpu {
                    pc: if !old(self).of {
                        spec_branch_target(pc1, off)
                    } else {
                        pc1
                    },
                    ..*old(self)
                }).spec_ticked(2)
            }),
    {
        let offset = self.fetch_op(bus);
        let target = self.pc.wrapping_add(#[verifier::truncate] ((offset as i8) as u16));
        if !self.of {
            self.pc = target;
        }
        self.tick(2);
    }

    /// BVS: branch when V is set.
    pub fn bvs(&mut self, bus: &mut Bus)
        requires
            old(bus).wf(),
        ensures
            final(bus).wf(),
            final(bus)@ == old(bus)@.after_read(old(self).pc),
            ({
                let off = old(bus)@.read_val(old(self).pc);
                let pc1 = old(self).pc.wrapping_add(1);
                *final(self) == (Cpu {
                    pc: if old(self).of {
                        spec_branch_target(pc1, off)
                    } else {
                        pc1
                    },
                    ..*old(self)
                }).spec_ticked(2)
            }),
    {
        let offset = self.fetch_op(bus);
        let target = self.pc.wrapping_add(#[verifier::truncate] ((offset as i8) as u16));
        if self.of {
            self.pc = target;
        }
        self.tick(2);
    }

    /// BCC: branch when C is clear.
    pub fn bcc(&mut self, bus: &mut Bus)
        requires
            old(bus).wf(),
        ensures
            final(bus).wf(),
            final(bus)@ == old(bus)@.after_read(old(self).pc),
            ({
                let off = old(bus)@.read_val(old(self).pc);
                let pc1 = old(self).pc.wrapping_add(1);
                *final(self) == (Cpu {
                    pc: if !old(self).cf {
                        spec_branch_target(pc1, off)
                    } else {
                        pc1
                    },
                    ..*old(self)
                }).spec_ticked(2)
            }),
    {
        let offset = self.fetch_op(bus);
        let target = self.pc.wrapping_add(#[verifier::truncate] ((offset as i8) as u16));
        if !self.cf {
            self.pc = target;
        }
        self.tick(2);
    }

    /// BCS: branch when C is set.
    pub fn bcs(&mut self, bus: &mut Bus)
        requires
            old(bus).wf(),
        ensures
            final(bus).wf(),
            final(bus)@ == old(bus)@.after_read(old(self).pc),
            ({
                let off = old(bus)@.read_val(old(self).pc);
                let pc1 = old(self).pc.wrapping_add(1);
                *final(self) == (Cpu {
                    pc: if old(self).cf {
                        spec_branch_target(pc1, off)
                    } else {
                        pc1
                    },
                    ..*old(self)
                }).spec_ticked(2)
            }),
    {
        let offset = self.fetch_op(bus);
        let target = self.pc.wrapping_add(#[verifier::truncate] ((offset as i8) as u16));
        if self.cf {
            self.pc = target;
        }
        self.tick(2);
    }

    /// BNE: branch when Z is clear.
    pub fn bne(&mut self, bus: &mut Bus)
        requires
            old(bus).wf(),
        ensures
            final(bus).wf(),
            final(bus)@ == old(bus)@.after_read(old(self).pc),
            ({
                let off = old(bus)@.read_val(old(self).pc);
                let pc1 = old(self).pc.wrapping_add(1);
                *final(self) == (Cpu {
                    pc: if !old(self).zf {
                        spec_branch_target(pc1, off)
                    } else {
                        pc1
                    },
                    ..*old(self)
                }).spec_ticked(2)
            }),
    {
        let offset = self.fetch_op(bus);
        let target = self.pc.wrapping_add(#[verifier::truncate] ((offset as i8) as u16));
        if !self.zf {
            self.pc = target;
        }
        self.tick(2);
    }

    /// BEQ: branch when Z is set.
    pub fn beq(&mut self, bus: &mut Bus)
        requires
            old(bus).wf(),
        ensures
            final(bus).wf(),
            final(bus)@ == old(bus)@.after_read(old(self).pc),
            ({
                let off = old(bus)@.read_val(old(self).pc);
                let pc1 = old(self).pc.wrapping_add(1);
                *final(self) == (Cpu {
                    pc: if old(self).zf {
                        spec_branch_target(pc1, off)
                    } else {
                        pc1
                    },
                    ..*old(self)
                }).spec_ticked(2)
            }),
    {
        let offset = self.fetch_op(bus);
        let target = self.pc.wrapping_add(#[verifier::truncate] ((offset as i8) as u16));
        if self.zf {
            self.pc = target;
        }
        self.tick(2);
    }

    /// JMP absolute.
    pub fn jmp(&mut self, bus: &mut Bus)
        requires
            old(bus).wf(),
        ensures
            final(bus).wf(),
            final(bus)@ == old(bus)@.after_read_word(old(self).pc),
            *final(self) == (Cpu {
                pc: old(bus)@.read_word_val(old(self).pc),
                ..*old(self)
            }).spec_ticked(3),
    {
        let addr = self.addr_abs(bus);
        self.pc = addr;
        self.tick(3);
    }

    /// JMP indirect: the target is the word at the fetched address.
    pub fn jmp_ind(&mut self, bus: &mut Bus)
        requires
            old(bus).wf(),
        ensures
            final(bus).wf(),
            ({
                let abs = old(bus)@.read_word_val(old(self).pc);
                let b1 = old(bus)@.after_read_word(old(self).pc);
                &&& final(bus)@ == b1.after_read_word(abs)
                &&& *final(self) == (Cpu { pc: b1.read_word_val(abs), ..*old(self) }).spec_ticked(
                    3,
                )
            }),
    {
        let addr_abs = self.addr_abs(bus);
        let addr = bus.cpu_read_word(addr_abs);
        self.pc = addr;
        self.tick(3);
    }

    /// JSR: push the address of the last byte of this instruction, then
    /// jump.
    #[verifier::rlimit(100)]
    pub fn jsr(&mut self, bus: &mut Bus)
        requires
            old(bus).wf(),
        ensures
            final(bus).wf(),
            ({
                let target = old(bus)@.read_word_val(old(self).pc);
                let ret = old(self).pc.wrapping_add(2).wrapping_sub(1);
                let b1 = old(bus)@.after_read_word(old(self).pc);
                let b2 = b1.after_write((0x0100 + old(self).sp as u16) as u16, (ret >> 8) as u8);
                &&& final(bus)@ == b2.after_write(
                    (0x0100 + old(self).sp.wrapping_sub(1) as u16) as u16,
                    (ret % 0x100) as u8,
                )
                &&& *final(self) == (Cpu {
                    pc: target,
                    sp: old(self).sp.wrapping_sub(2),
                    ..*old(self)
                }).spec_ticked(6)
            }),
    {
        let addr = self.addr_abs(bus);
        let ret = self.pc.wrapping_sub(1);
        self.push(bus, (ret >> 8) as u8);
        self.push(bus, (ret % 0x100) as u8);
        self.pc = addr;
        self.tick(6);
    }

    /// RTS: pull the return address and resume one past it.
    #[verifier::rlimit(100)]
    pub fn rts(&mut self, bus: &mut Bus)
        requires
            old(bus).wf(),
        ensures
            final(bus).wf(),
            ({
                let lo_addr = (0x0100 + old(self).sp.wrapping_add(1) as u16) as u16;
                let hi_addr = (0x0100 + old(self).sp.wrapping_add(2) as u16) as u16;
                let b1 = old(bus)@.after_read(lo_addr);
                let lo = old(bus)@.read_val(lo_addr);
                let hi = b1.read_val(hi_addr);
                &&& final(bus)@ == b1.after_read(hi_addr)
                &&& *final(self) == (Cpu {
                    pc: ((lo + hi * 0x100) as u16).wrapping_add(1),
                    sp: old(self).sp.wrapping_add(2),
                    ..*old(self)
                }).spec_ticked(6)
            }),
    {
        let lo = self.pop(bus);
        let hi = self.pop(bus);
        let addr: u16 = lo as u16 + hi as u16 * 0x100;
        self.pc = addr.wrapping_add(1);
        self.tick(6);
    }

    /// RTI: pull the status byte, then the interrupted program counter.
    #[verifier::rlimit(100)]
    pub fn rti(&mut self, bus: &mut Bus)
        requires
            old(bus).wf(),
        ensures
            final(bus).wf(),
            ({
                let f_addr = (0x0100 + old(self).sp.wrapping_add(1) as u16) as u16;
                let lo_addr = (0x0100 + old(self).sp.wrapping_add(2) as u16) as u16;
                let hi_addr = (0x0100 + old(self).sp.wrapping_add(3) as u16) as u16;
                let f = old(bus)@.read_val(f_addr);
                let b1 = old(bus)@.after_read(f_addr);
                let lo = b1.read_val(lo_addr);
                let b2 = b1.after_read(lo_addr);
                let hi = b2.read_val(hi_addr);
                &&& final(bus)@ == b2.after_read(hi_addr)
                &&& *final(self) == (Cpu {
                    pc: (lo + hi * 0x100) as u16,
                    sp: old(self).sp.wrapping_add(3),
                    ..old(self).spec_with_flags(f)
                }).spec_ticked(7)
            }),
    {
        let f = self.pop(bus);
        self.set_flags(f);
        let lo = self.pop(bus);
        let hi = self.pop(bus);
        self.pc = lo as u16 + hi as u16 * 0x100;
        self.tick(7);
    }

    /// BRK: push the program counter one past the padding byte and the
    /// status with B set, set I, and revector through the IRQ vector.
    #[verifier::rlimit(100)]
    pub fn brk(&mut self, bus: &mut Bus)
        requires
            old(bus).wf(),
        ensures
            final(bus).wf(),
            ({
                let ret = old(self).pc.wrapping_add(1);
                let b1 = old(bus)@.after_write((0x0100 + old(self).sp as u16) as u16, (ret
                    >> 8) as u8);
                let b2 = b1.after_write(
                    (0x0100 + old(self).sp.wrapping_sub(1) as u16) as u16,
                    (ret % 0x100) as u8,
                );
                let b3 = b2.after_write(
                    (0x0100 + old(self).sp.wrapping_sub(2) as u16) as u16,
                    old(self).spec_flags(),
                );
                &&& final(bus)@ == b3.after_read_word(0xfffe)
                &&& *final(self) == (Cpu {
                    pc: b3.read_word_val(0xfffe),
                    sp: old(self).sp.wrapping_sub(3),
                    idf: true,
                    bcf: true,
                    ..*old(self)
                }).spec_ticked(7)
            }),
    {
        let ret = self.pc.wrapping_add(1);
        self.push(bus, (ret >> 8) as u8);
        self.push(bus, (ret % 0x100) as u8);
        let f = self.flags();
        self.push(bus, f);
        self.pc = bus.cpu_read_word(0xfffe);
        self.idf = true;
        self.bcf = true;
        self.tick(7);
    }

    /// IRQ entry: when I is clear, push the program counter and the status
    /// with B clear, set I, and revector through the IRQ vector; ignored
    /// otherwise.
    #[verifier::rlimit(100)]
    pub fn irq(&mut self, bus: &mut Bus)
        requires
            old(bus).wf(),
        ensures
            final(bus).wf(),
            ({
                if old(self).idf {
                    &&& *final(self) == *old(self)
                    &&& final(bus)@ == old(bus)@
                } else {
                    let b1 = old(bus)@.after_write(
                        (0x0100 + old(self).sp as u16) as u16,
                        (old(self).pc >> 8) as u8,
                    );
                    let b2 = b1.after_write(
                        (0x0100 + old(self).sp.wrapping_sub(1) as u16) as u16,
                        (old(self).pc % 0x100) as u8,
                    );
                    let b3 = b2.after_write(
                        (0x0100 + old(self).sp.wrapping_sub(2) as u16) as u16,
                        old(self).spec_flags() & 0xef,
                    );
                    &&& final(bus)@ == b3.after_read_word(0xfffe)
                    &&& *final(self) == (Cpu {
                        pc: b3.read_word_val(0xfffe),
                        sp: old(self).sp.wrapping_sub(3),
                        idf: true,
                        ..*old(self)
                    }).spec_ticked(7)
                }
            }),
    {
        if !self.idf {
            let pc = self.pc;
            self.push(bus, (pc >> 8) as u8);
            self.push(bus, (pc % 0x100) as u8);
            let f = self.flags();
            self.push(bus, f & 0xef);
            self.pc = bus.cpu_read_word(0xfffe);
            self.idf = true;
            self.tick(7);
        }
    }

    /// NMI entry: unconditionally push the program counter and the status
    /// with B clear, and revector through the NMI vector; I is unchanged.
    #[verifier::rlimit(100)]
    pub fn nmi(&mut self, bus: &mut Bus)
        requires
            old(bus).wf(),
        ensures
            final(bus).wf(),
            ({
                let b1 = old(bus)@.after_write(
                    (0x0100 + old(self).sp as u16) as u16,
                    (old(self).pc >> 8) as u8,
                );
                let b2 = b1.after_write(
                    (0x0100 + old(self).sp.wrapping_sub(1) as u16) as u16,
                    (old(self).pc % 0x100) as u8,
                );
                let b3 = b2.after_write(
                    (0x0100 + old(self).sp.wrapping_sub(2) as u16) as u16,
                    old(self).spec_flags() & 0xef,
                );
                &&& final(bus)@ == b3.after_read_word(0xfffa)
                &&& *final(self) == (Cpu {
                    pc: b3.read_word_val(0xfffa),
                    sp: old(self).sp.wrapping_sub(3),
                    ..*old(self)
                }).spec_ticked(7)
            }),
    {
        let pc = self.pc;
        self.push(bus, (pc >> 8) as u8);
        self.push(bus, (pc % 0x100) as u8);
        let f = self.flags();
        self.push(bus, f & 0xef);
        self.pc = bus.cpu_read_word(0xfffa);
        self.tick(7);
    }

    /// Stores a byte through the bus; a debugger convenience.
    pub fn write_memory(&mut self, bus: &mut Bus, addr: u16, value: u8)
        requires
            old(bus).wf(),
        ensures
            final(bus).wf(),
            final(bus)@ == old(bus)@.after_write(addr, value),
            *final(self) == *old(self),
    {
        bus.cpu_write(addr, value);
    }

    /// Reads a byte through the bus; a debugger convenience.
    pub fn read_memory(&self, bus: &mut Bus, addr: u16) -> (r: u8)
        requires
            old(bus).wf(),
        ensures
            final(bus).wf(),
            r == old(bus)@.read_val(addr),
            final(bus)@ == old(bus)@.after_read(addr),
    {
        bus.cpu_read(addr)
    }
}


/// True exactly for the opcodes of the documented instruction set; `step`
/// halts the machine on any other byte.
pub open spec fn spec_legal_opcode(op: u8) -> bool {
    match op {
        0x00 | 0x01 | 0x05 | 0x06 | 0x08 | 0x09 | 0x0a | 0x0d | 0x0e | 0x10 | 0x11 | 0x15 | 0x16 |
        0x18 | 0x19 | 0x1d | 0x1e | 0x20 | 0x21 | 0x24 | 0x25 | 0x26 | 0x28 | 0x29 | 0x2a | 0x2c |
        0x2d | 0x2e | 0x30 | 0x31 | 0x35 | 0x36 | 0x38 | 0x39 | 0x3d | 0x3e | 0x40 | 0x41 | 0x45 |
        0x46 | 0x48 | 0x49 | 0x4a | 0x4c | 0x4d | 0x4e | 0x50 | 0x51 | 0x55 | 0x56 | 0x58 | 0x59 |
        0x5d | 0x5e | 0x60 | 0x61 | 0x65 | 0x66 | 0x68 | 0x69 | 0x6a | 0x6c | 0x6d | 0x6e | 0x70 |
        0x71 | 0x75 | 0x76 | 0x78 | 0x79 | 0x7d | 0x7e | 0x81 | 0x84 | 0x85 | 0x86 | 0x88 | 0x8a |
        0x8c | 0x8d | 0x8e | 0x90 | 0x91 | 0x94 | 0x95 | 0x96 | 0x98 | 0x99 | 0x9a | 0x9d | 0xa0 |
        0xa1 | 0xa2 | 0xa4 | 0xa5 | 0xa6 | 0xa8 | 0xa9 | 0xaa | 0xac | 0xad | 0xae | 0xb0 | 0xb1 |
        0xb4 | 0xb5 | 0xb6 | 0xb8 | 0xb9 | 0xba | 0xbc | 0xbd | 0xbe | 0xc0 | 0xc1 | 0xc4 | 0xc5 |
        0xc6 | 0xc8 | 0xc9 | 0xca | 0xcc | 0xcd | 0xce | 0xd0 | 0xd1 | 0xd5 | 0xd6 | 0xd8 | 0xd9 |
        0xdd | 0xde | 0xe0 | 0xe1 | 0xe4 | 0xe5 | 0xe6 | 0xe8 | 0xe9 | 0xea | 0xec | 0xed | 0xee |
        0xf0 | 0xf1 | 0xf5 | 0xf6 | 0xf8 | 0xf9 | 0xfd | 0xfe => true,
        _ => false,
    }
}

impl Cpu {
    /// One instruction: fetch the opcode at PC, execute it, and advance PC
    /// and the cycle counter.  On an opcode outside the documented set it
    /// returns false and leaves the machine exactly as the opcode fetch
    /// left it: PC one past the opcode, nothing else moved.  Each arm's
    /// full effect is fixed by the contract of the helper it dispatches to.
    #[verifier::rlimit(100)]
    pub fn step(&mut self, bus: &mut Bus) -> (r: bool)
        requires
            old(bus).wf(),
        ensures
            final(bus).wf(),
            r == spec_legal_opcode(old(bus)@.read_val(old(self).pc)),
            final(self).cycles >= old(self).cycles,
            !r ==> *final(self) == (Cpu { pc: old(self).pc.wrapping_add(1), ..*old(self) })
                && final(bus)@ == old(bus)@.after_read(old(self).pc),
    {
        let opcode = self.fetch_op(bus);
        let mut retval = true;
        match opcode {
            0x00 => {
                self.brk(bus);
            },
            0x01 => {
                let addr = self.addr_indx(bus);
                let v = self.load_byte(bus, addr);
                self.ora(v, 6);
            },
            0x05 => {
                let addr = self.addr_zero(bus);
                let v = self.load_byte(bus, addr);
                self.ora(v, 3);
            },
            0x06 => {
                let addr = self.addr_zero(bus);
                self.asl_mem(bus, addr, 5);
            },
            0x08 => {
                self.php(bus);
            },
            0x09 => {
                let v = self.fetch_op(bus);
                self.ora(v, 2);
            },
            0x0a => {
                self.asl_a();
            },
            0x0d => {
                let addr = self.addr_abs(bus);
                let v = self.load_byte(bus, addr);
                self.ora(v, 4);
            },
            0x0e => {
                let addr = self.addr_abs(bus);
                self.asl_mem(bus, addr, 6);
            },
            0x10 => {
                self.bpl(bus);
            },
            0x11 => {
                let addr = self.addr_indy(bus);
                let v = self.load_byte(bus, addr);
                self.ora(v, 5);
            },
            0x15 => {
                let addr = self.addr_zerox(bus);
                let v = self.load_byte(bus, addr);
                self.ora(v, 4);
            },
            0x16 => {
                let addr = self.addr_zerox(bus);
                self.asl_mem(bus, addr, 6);
            },
            0x18 => {
                self.clc();
            },
            0x19 => {
                let addr = self.addr_absy(bus);
                let v = self.load_byte(bus, addr);
                self.ora(v, 4);
            },
            0x1d => {
                let addr = self.addr_absx(bus);
                let v = self.load_byte(bus, addr);
                self.ora(v, 4);
            },
            0x1e => {
                let addr = self.addr_absx(bus);
                self.asl_mem(bus, addr, 7);
            },
            0x20 => {
                self.jsr(bus);
            },
            0x21 => {
                let addr = self.addr_indx(bus);
                let v = self.load_byte(bus, addr);
                self.and(v, 6);
            },
            0x24 => {
                let addr = self.addr_zero(bus);
                self.bit(bus, addr, 3);
            },
            0x25 => {
                let addr = self.addr_zero(bus);
                let v = self.load_byte(bus, addr);
                self.and(v, 3);
            },
            0x26 => {
                let addr = self.addr_zero(bus);
                self.rol_mem(bus, addr, 5);
            },
            0x28 => {
                self.plp(bus);
            },
            0x29 => {
                let v = self.fetch_op(bus);
                self.and(v, 2);
            },
            0x2a => {
                self.rol_a();
            },
            0x2c => {
                let addr = self.addr_abs(bus);
                self.bit(bus, addr, 4);
            },
            0x2d => {
                let addr = self.addr_abs(bus);
                let v = self.load_byte(bus, addr);
                self.and(v, 4);
            },
            0x2e => {
                let addr = self.addr_abs(bus);
                self.rol_mem(bus, addr, 6);
            },
            0x30 => {
                self.bmi(bus);
            },
            0x31 => {
                let addr = self.addr_indy(bus);
                let v = self.load_byte(bus, addr);
                self.and(v, 5);
            },
            0x35 => {
                let addr = self.addr_zerox(bus);
                let v = self.load_byte(bus, addr);
                self.and(v, 4);
            },
            0x36 => {
                let addr = self.addr_zerox(bus);
                self.rol_mem(bus, addr, 6);
            },
            0x38 => {
                self.sec();
            },
            0x39 => {
                let addr = self.addr_absy(bus);
                let v = self.load_byte(bus, addr);
                self.and(v, 4);
            },
            0x3d => {
                let addr = self.addr_absx(bus);
                let v = self.load_byte(bus, addr);
                self.and(v, 4);
            },
            0x3e => {
                let addr = self.addr_absx(bus);
                self.rol_mem(bus, addr, 7);
            },
            0x40 => {
                self.rti(bus);
            },
            0x41 => {
                let addr = self.addr_indx(bus);
                let v = self.load_byte(bus, addr);
                self.eor(v, 6);
            },
            0x45 => {
                let addr = self.addr_zero(bus);
                let v = self.load_byte(bus, addr);
                self.eor(v, 3);
            },
            0x46 => {
                let addr = self.addr_zero(bus);
                self.lsr_mem(bus, addr, 5);
            },
            0x48 => {
                self.pha(bus);
            },
            0x49 => {
                let v = self.fetch_op(bus);
                self.eor(v, 2);
            },
            0x4a => {
                self.lsr_a();
            },
            0x4c => {
                self.jmp(bus);
            },
            0x4d => {
                let addr = self.addr_abs(bus);
                let v = self.load_byte(bus, addr);
                self.eor(v, 4);
            },
            0x4e => {
                let addr = self.addr_abs(bus);
                self.lsr_mem(bus, addr, 6);
            },
            0x50 => {
                self.bvc(bus);
            },
            0x51 => {
                let addr = self.addr_indy(bus);
                let v = self.load_byte(bus, addr);
                self.eor(v, 5);
            },
            0x55 => {
                let addr = self.addr_zerox(bus);
                let v = self.load_byte(bus, addr);
                self.eor(v, 4);
            },
            0x56 => {
                let addr = self.addr_zerox(bus);
                self.lsr_mem(bus, addr, 6);
            },
            0x58 => {
                self.cli();
            },
            0x59 => {
                let addr = self.addr_absy(bus);
                let v = self.load_byte(bus, addr);
                self.eor(v, 4);
            },
            0x5d => {
                let addr = self.addr_absx(bus);
                let v = self.load_byte(bus, addr);
                self.eor(v, 4);
            },
            0x5e => {
                let addr = self.addr_absx(bus);
                self.lsr_mem(bus, addr, 7);
            },
            0x60 => {
                self.rts(bus);
            },
            0x61 => {
                let addr = self.addr_indx(bus);
                let v = self.load_byte(bus, addr);
                self.adc(v, 6);
            },
            0x65 => {
                let addr = self.addr_zero(bus);
                let v = self.load_byte(bus, addr);
                self.adc(v, 3);
            },
            0x66 => {
                let addr = self.addr_zero(bus);
                self.ror_mem(bus, addr, 5);
            },
            0x68 => {
                self.pla(bus);
            },
            0x69 => {
                let v = self.fetch_op(bus);
                self.adc(v, 2);
            },
            0x6a => {
                self.ror_a();
            },
            0x6c => {
                self.jmp_ind(bus);
            },
            0x6d => {
                let addr = self.addr_abs(bus);
                let v = self.load_byte(bus, addr);
                self.adc(v, 4);
            },
            0x6e => {
                let addr = self.addr_abs(bus);
                self.ror_mem(bus, addr, 6);
            },
            0x70 => {
                self.bvs(bus);
            },
            0x71 => {
                let addr = self.addr_indy(bus);
                let v = self.load_byte(bus, addr);
                self.adc(v, 5);
            },
            0x75 => {
                let addr = self.addr_zerox(bus);
                let v = self.load_byte(bus, addr);
                self.adc(v, 4);
            },
            0x76 => {
                let addr = self.addr_zerox(bus);
                self.ror_mem(bus, addr, 6);
            },
            0x78 => {
                self.sei();
            },
            0x79 => {
                let addr = self.addr_absy(bus);
                let v = self.load_byte(bus, addr);
                self.adc(v, 4);
            },
            0x7d => {
                let addr = self.addr_absx(bus);
                let v = self.load_byte(bus, addr);
                self.adc(v, 4);
            },
            0x7e => {
                let addr = self.addr_absx(bus);
                self.ror_mem(bus, addr, 7);
            },
            0x81 => {
                let addr = self.addr_indx(bus);
                self.sta(bus, addr, 6);
            },
            0x84 => {
                let addr = self.addr_zero(bus);
                self.sty(bus, addr, 3);
            },
            0x85 => {
                let addr = self.addr_zero(bus);
                self.sta(bus, addr, 3);
            },
            0x86 => {
                let addr = self.addr_zero(bus);
                self.stx(bus, addr, 3);
            },
            0x88 => {
                self.dey();
            },
            0x8a => {
                self.txa();
            },
            0x8c => {
                let addr = self.addr_abs(bus);
                self.sty(bus, addr, 4);
            },
            0x8d => {
                let addr = self.addr_abs(bus);
                self.sta(bus, addr, 4);
            },
            0x8e => {
                let addr = self.addr_abs(bus);
                self.stx(bus, addr, 4);
            },
            0x90 => {
                self.bcc(bus);
            },
            0x91 => {
                let addr = self.addr_indy(bus);
                self.sta(bus, addr, 6);
            },
            0x94 => {
                let addr = self.addr_zerox(bus);
                self.sty(bus, addr, 4);
            },
            0x95 => {
                let addr = self.addr_zerox(bus);
                self.sta(bus, addr, 4);
            },
            0x96 => {
                let addr = self.addr_zeroy(bus);
                self.stx(bus, addr, 4);
            },
            0x98 => {
                self.tya();
            },
            0x99 => {
                let addr = self.addr_absy(bus);
                self.sta(bus, addr, 5);
            },
            0x9a => {
                self.txs();
            },
            0x9d => {
                let addr = self.addr_absx(bus);
                self.sta(bus, addr, 5);
            },
            0xa0 => {
                let v = self.fetch_op(bus);
                self.ldy(v, 2);
            },
            0xa1 => {
                let addr = self.addr_indx(bus);
                let v = self.load_byte(bus, addr);
                self.lda(v, 6);
            },
            0xa2 => {
                let v = self.fetch_op(bus);
                self.ldx(v, 2);
            },
            0xa4 => {
                let addr = self.addr_zero(bus);
                let v = self.load_byte(bus, addr);
                self.ldy(v, 3);
            },
            0xa5 => {
                let addr = self.addr_zero(bus);
                let v = self.load_byte(bus, addr);
                self.lda(v, 3);
            },
            0xa6 => {
                let addr = self.addr_zero(bus);
                let v = self.load_byte(bus, addr);
                self.ldx(v, 3);
            },
            0xa8 => {
                self.tay();
            },
            0xa9 => {
                let v = self.fetch_op(bus);
                self.lda(v, 2);
            },
            0xaa => {
                self.tax();
            },
            0xac => {
                let addr = self.addr_abs(bus);
                let v = self.load_byte(bus, addr);
                self.ldy(v, 4);
            },
            0xad => {
                let addr = self.addr_abs(bus);
                let v = self.load_byte(bus, addr);
                self.lda(v, 4);
            },
            0xae => {
                let addr = self.addr_abs(bus);
                let v = self.load_byte(bus, addr);
                self.ldx(v, 4);
            },
            0xb0 => {
                self.bcs(bus);
            },
            0xb1 => {
                let addr = self.addr_indy(bus);
                let v = self.load_byte(bus, addr);
                self.lda(v, 5);
            },
            0xb4 => {
                let addr = self.addr_zerox(bus);
                let v = self.load_byte(bus, addr);
                self.ldy(v, 3);
            },
            0xb5 => {
                let addr = self.addr_zerox(bus);
                let v = self.load_byte(bus, addr);
                self.lda(v, 3);
            },
            0xb6 => {
                let addr = self.addr_zeroy(bus);
                let v = self.load_byte(bus, addr);
                self.ldx(v, 3);
            },
            0xb8 => {
                self.clv();
            },
            0xb9 => {
                let addr = self.addr_absy(bus);
                let v = self.load_byte(bus, addr);
                self.lda(v, 4);
            },
            0xba => {
                self.tsx();
            },
            0xbc => {
                let addr = self.addr_absx(bus);
                let v = self.load_byte(bus, addr);
                self.ldy(v, 4);
            },
            0xbd => {
                let addr = self.addr_absx(bus);
                let v = self.load_byte(bus, addr);
                self.lda(v, 4);
            },
            0xbe => {
                let addr = self.addr_absy(bus);
                let v = self.load_byte(bus, addr);
                self.ldx(v, 4);
            },
            0xc0 => {
                let v = self.fetch_op(bus);
                self.cpy(v, 2);
            },
            0xc1 => {
                let addr = self.addr_indx(bus);
                let v = self.load_byte(bus, addr);
                self.cmp(v, 6);
            },
            0xc4 => {
                let addr = self.addr_zero(bus);
                let v = self.load_byte(bus, addr);
                self.cpy(v, 3);
            },
            0xc5 => {
                let addr = self.addr_zero(bus);
                let v = self.load_byte(bus, addr);
                self.cmp(v, 3);
            },
            0xc6 => {
                let addr = self.addr_zero(bus);
                self.dec(bus, addr, 5);
            },
            0xc8 => {
                self.iny();
            },
            0xc9 => {
                let v = self.fetch_op(bus);
                self.cmp(v, 2);
            },
            0xca => {
                self.dex();
            },
            0xcc => {
                let addr = self.addr_abs(bus);
                let v = self.load_byte(bus, addr);
                self.cpy(v, 4);
            },
            0xcd => {
                let addr = self.addr_abs(bus);
                let v = self.load_byte(bus, addr);
                self.cmp(v, 4);
            },
            0xce => {
                let addr = self.addr_abs(bus);
                self.dec(bus, addr, 6);
            },
            0xd0 => {
                self.bne(bus);
            },
            0xd1 => {
                let addr = self.addr_indy(bus);
                let v = self.load_byte(bus, addr);
                self.cmp(v, 5);
            },
            0xd5 => {
                let addr = self.addr_zerox(bus);
                let v = self.load_byte(bus, addr);
                self.cmp(v, 4);
            },
            0xd6 => {
                let addr = self.addr_zerox(bus);
                self.dec(bus, addr, 6);
            },
            0xd8 => {
                self.cld();
            },
            0xd9 => {
                let addr = self.addr_absy(bus);
                let v = self.load_byte(bus, addr);
                self.cmp(v, 4);
            },
            0xdd => {
                let addr = self.addr_absx(bus);
                let v = self.load_byte(bus, addr);
                self.cmp(v, 4);
            },
            0xde => {
                let addr = self.addr_absx(bus);
                self.dec(bus, addr, 7);
            },
            0xe0 => {
                let v = self.fetch_op(bus);
                self.cpx(v, 2);
            },
            0xe1 => {
                let addr = self.addr_indx(bus);
                let v = self.load_byte(bus, addr);
                self.sbc(v, 6);
            },
            0xe4 => {
                let addr = self.addr_zero(bus);
                let v = self.load_byte(bus, addr);
                self.cpx(v, 3);
            },
            0xe5 => {
                let addr = self.addr_zero(bus);
                let v = self.load_byte(bus, addr);
                self.sbc(v, 3);
            },
            0xe6 => {
                let addr = self.addr_zero(bus);
                self.inc(bus, addr, 5);
            },
            0xe8 => {
                self.inx();
            },
            0xe9 => {
                let v = self.fetch_op(bus);
                self.sbc(v, 2);
            },
            0xea => {
                self.nop();
            },
            0xec => {
                let addr = self.addr_abs(bus);
                let v = self.load_byte(bus, addr);
                self.cpx(v, 4);
            },
            0xed => {
                let addr = self.addr_abs(bus);
                let v = self.load_byte(bus, addr);
                self.sbc(v, 4);
            },
            0xee => {
                let addr = self.addr_abs(bus);
                self.inc(bus, addr, 6);
            },
            0xf0 => {
                self.beq(bus);
            },
            0xf1 => {
                let addr = self.addr_indy(bus);
                let v = self.load_byte(bus, addr);
                self.sbc(v, 5);
            },
            0xf5 => {
                let addr = self.addr_zerox(bus);
                let v = self.load_byte(bus, addr);
                self.sbc(v, 4);
            },
            0xf6 => {
                let addr = self.addr_zerox(bus);
                self.inc(bus, addr, 6);
            },
            0xf8 => {
                self.sed();
            },
            0xf9 => {
                let addr = self.addr_absy(bus);
                let v = self.load_byte(bus, addr);
                self.sbc(v, 4);
            },
            0xfd => {
                let addr = self.addr_absx(bus);
                let v = self.load_byte(bus, addr);
                self.sbc(v, 4);
            },
            0xfe => {
                let addr = self.addr_absx(bus);
                self.inc(bus, addr, 7);
            },
            _ => {
                retval = false;
            },
        }
        retval
    }

}


} // verus!
