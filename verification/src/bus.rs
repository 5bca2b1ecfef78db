//! The system bus the CPU sees: every fetch, load and store goes through
//! here, and the bank configuration decides whether it lands in RAM, ROM or
//! a device register.  Reading a CIA interrupt status register clears its
//! triggered flags, so a bus read mutates the bus.

use crate::cia1::Cia1;
use crate::cia2::Cia2;
use crate::mem::{MemView, Memory};
use crate::vic::Vic;
use vstd::prelude::*;

verus! {

/// The mathematical content of the bus: the memory view and the three
/// device register files.
#[verifier::ext_equal]
pub struct BusView {
    pub mem: MemView,
    pub vic: Vic,
    pub cia1: Cia1,
    pub cia2: Cia2,
}

impl BusView {
    pub open spec fn wf(self) -> bool {
        &&& self.mem.wf()
        &&& self.vic.wf()
        &&& self.cia1.wf()
    }

    pub open spec fn io_mapped(self, addr: u16) -> bool {
        self.mem.io_mapped(addr)
    }

    /// The byte a CPU read of `addr` returns: a device register when the
    /// address is device-mapped, the banked RAM or ROM byte otherwise.
    pub open spec fn read_val(self, addr: u16) -> u8 {
        let page = addr & 0xff00;
        if self.io_mapped(addr) {
            if page == 0xdc00 {
                self.cia1.spec_read_register((addr & 0x0f) as u8)
            } else if page == 0xdd00 {
                self.cia2.spec_read_register((addr & 0x0f) as u8)
            } else {
                self.vic.spec_read_register((addr & 0x7f) as u8)
            }
        } else {
            self.mem.read_byte(addr)
        }
    }

    /// The bus after a CPU read of `addr`: reading a CIA interrupt status
    /// register clears its triggered flags, every other read changes
    /// nothing.
    pub open spec fn after_read(self, addr: u16) -> BusView {
        let page = addr & 0xff00;
        if self.io_mapped(addr) {
            if page == 0xdc00 && addr & 0x0f == 0x0d {
                BusView { cia1: self.cia1.spec_acked(), ..self }
            } else if page == 0xdd00 && addr & 0x0f == 0x0d {
                BusView { cia2: self.cia2.spec_acked(), ..self }
            } else {
                self
            }
        } else {
            self
        }
    }

    /// The bus after a CPU write of `v` to `addr`: a device register when
    /// the address is device-mapped, otherwise a memory store (which
    /// reconfigures the banks when `addr` is the layout register).
    pub open spec fn after_write(self, addr: u16, v: u8) -> BusView {
        let page = addr & 0xff00;
        if self.io_mapped(addr) {
            if page == 0xdc00 {
                BusView { cia1: self.cia1.spec_write_register((addr & 0x0f) as u8, v), ..self }
            } else if page == 0xdd00 {
                BusView { cia2: self.cia2.spec_write_register((addr & 0x0f) as u8, v), ..self }
            } else {
                BusView { vic: self.vic.spec_write_register((addr & 0x7f) as u8, v), ..self }
            }
        } else {
            BusView { mem: self.mem.write_byte(addr, v), ..self }
        }
    }

    /// The little-endian word two consecutive CPU reads of `addr` return;
    /// the second read observes any effect of the first.
    pub open spec fn read_word_val(self, addr: u16) -> u16 {
        (self.read_val(addr) + self.after_read(addr).read_val(addr.wrapping_add(1)) * 0x100) as u16
    }

    /// The bus after those two reads.
    pub open spec fn after_read_word(self, addr: u16) -> BusView {
        self.after_read(addr).after_read(addr.wrapping_add(1))
    }
}

pub struct Bus {
    pub mem: Memory,
    pub vic: Vic,
    pub cia1: Cia1,
    pub cia2: Cia2,
}

impl View for Bus {
    type V = BusView;

    open spec fn view(&self) -> BusView {
        BusView { mem: self.mem@, vic: self.vic, cia1: self.cia1, cia2: self.cia2 }
    }
}

impl Bus {
    pub open spec fn wf(self) -> bool {
        self@.wf()
    }

    pub fn new() -> (b: Bus)
        ensures
            b.wf(),
            b@.mem.ram == Seq::new(0x10000, |i: int| 0u8).update(0x0001, 0x07u8),
            b@.mem.rom == Seq::new(0x10000, |i: int| 0u8),
            b@.mem.banks == crate::mem::spec_banks_of(0x07),
            b@.cia1.timer_a.spec_is_init() && b@.cia1.timer_b.spec_is_init(),
            b@.cia2.timer_a.spec_is_init() && b@.cia2.timer_b.spec_is_init(),
            b@.cia1.prev_cpu_cycles == 0 && b@.cia2.prev_cpu_cycles == 0,
            b@.cia1.pra == 0xff && b@.cia2.pra == 0xff,
            b@.cia1.keyboard.key_event_queue@.len() == 0,
            b@.vic.irq_status == 0 && b@.vic.irq_enabled == 0,
            b@.vic.raster_c == 0 && b@.vic.cr1 == 0 && b@.vic.raster_irq == 0,
            b@.vic.next_raster_at == crate::vic::LINE_CYCLES,
            b@.vic.frame_c == 0,
            b@.vic.graphic_mode == crate::vic::GraphicsMode::CharMode,
    {
        proof {
            assert(0x01u8 | 0x02u8 | 0x04u8 == 0x07u8) by (bit_vector);
        }
        Bus { mem: Memory::new(), vic: Vic::new(), cia1: Cia1::new(), cia2: Cia2::new() }
    }

    /// Reads the byte the CPU sees at `addr`, dispatching to a device
    /// register when the banks map one there.
    pub fn cpu_read(&mut self, addr: u16) -> (r: u8)
        requires
            old(self).wf(),
        ensures
            final(self).wf(),
            r == old(self)@.read_val(addr),
            final(self)@ == old(self)@.after_read(addr),
    {
        let page = addr & 0xff00;
        let device = self.mem.banks[5] == 2 && ((page >= 0xd000 && page <= 0xd300) || page
            == 0xdc00 || page == 0xdd00);
        if device {
            if page == 0xdc00 {
                let r = self.cia1.read_register((addr & 0x0f) as u8);
                if addr & 0x0f == 0x0d {
                    self.cia1.ack_irqs();
                }
                r
            } else if page == 0xdd00 {
                let r = self.cia2.read_register((addr & 0x0f) as u8);
                if addr & 0x0f == 0x0d {
                    self.cia2.ack_irqs();
                }
                r
            } else {
                self.vic.read_register((addr & 0x7f) as u8)
            }
        } else {
            self.mem.read_byte(addr)
        }
    }

    /// Stores the byte the CPU writes at `addr`, dispatching to a device
    /// register when the banks map one there.
    pub fn cpu_write(&mut self, addr: u16, v: u8)
        requires
            old(self).wf(),
        ensures
            final(self).wf(),
            final(self)@ == old(self)@.after_write(addr, v),
    {
        let page = addr & 0xff00;
        let device = self.mem.banks[5] == 2 && ((page >= 0xd000 && page <= 0xd300) || page
            == 0xdc00 || page == 0xdd00);
        if device {
            if page == 0xdc00 {
                self.cia1.write_register((addr & 0x0f) as u8, v);
            } else if page == 0xdd00 {
                self.cia2.write_register((addr & 0x0f) as u8, v);
            } else {
                self.vic.write_register((addr & 0x7f) as u8, v);
            }
        } else {
            self.mem.write_byte(addr, v);
        }
    }

    /// Reads a 16-bit little-endian word through two CPU reads.
    pub fn cpu_read_word(&mut self, addr: u16) -> (r: u16)
        requires
            old(self).wf(),
        ensures
            final(self).wf(),
            r == old(self)@.read_word_val(addr),
            final(self)@ == old(self)@.after_read_word(addr),
    {
        let lsb = self.cpu_read(addr);
        let msb = self.cpu_read(addr.wrapping_add(1));
        lsb as u16 + msb as u16 * 0x100
    }
}

} // verus!
