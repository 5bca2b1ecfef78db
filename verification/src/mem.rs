//! The bank-switched memory map: a flat 64 KiB RAM, a flat 64 KiB ROM image
//! buffer (BASIC, CHARGEN and KERNAL windows populated), and seven bank
//! slots of which three are meaningful.  The accessors here cover every
//! address that resolves to RAM or ROM under the current configuration;
//! addresses that resolve to a memory-mapped device register are dispatched
//! one level up, by the system bus, which owns the device state.

use vstd::prelude::*;

verus! {

pub const MEM_SIZE: usize = 0x10000;
pub const BASE_ADDR_BASIC: u16 = 0xa000;
pub const BASE_ADDR_KERNAL: u16 = 0xe000;
pub const BASE_ADDR_STACK: u16 = 0x0100;
pub const BASE_ADDR_SCREEN: u16 = 0x0400;
pub const BASE_ADDR_CHARS: u16 = 0xd000;
pub const BASE_ADDR_BITMAP: u16 = 0x0000;
pub const ADDR_RESET_VECTOR: u16 = 0xfffc;
pub const ADDR_IRQ_VECTOR: u16 = 0xfffe;
pub const ADDR_NMI_VECTOR: u16 = 0xfffa;
pub const ADDR_DATA_DIRECTION: u16 = 0x0000;
pub const ADDR_MEMORY_LAYOUT: u16 = 0x0001;
pub const ADDR_COLOR_RAM: u16 = 0xd800;
pub const ADDR_ZERO_PAGE: u16 = 0x0000;
pub const ADDR_VIC_FIRST_PAGE: u16 = 0xd000;
pub const ADDR_VIC_LAST_PAGE: u16 = 0xd300;
pub const ADDR_CIA1_PAGE: u16 = 0xdc00;
pub const ADDR_CIA2_PAGE: u16 = 0xdd00;
pub const ADDR_BASIC_FIRST_PAGE: u16 = 0xa000;
pub const ADDR_BASIC_LAST_PAGE: u16 = 0xbf00;
pub const ADDR_KERNAL_FIRST_PAGE: u16 = 0xe000;
pub const ADDR_KERNAL_LAST_PAGE: u16 = 0xff00;
pub const LORAM: u8 = 0x01;
pub const HIRAM: u8 = 0x02;
pub const CHAREN: u8 = 0x04;

/// What a bank slot routes accesses to.
#[derive(Clone, Copy, PartialEq, Eq, Structural, Debug)]
pub enum BankCfg {
    Rom,
    Ram,
    Io,
}

impl BankCfg {
    pub fn as_u8(self) -> (r: u8)
        ensures
            r == self.spec_as_u8(),
    {
        match self {
            BankCfg::Rom => 0,
            BankCfg::Ram => 1,
            BankCfg::Io => 2,
        }
    }

    pub open spec fn spec_as_u8(self) -> u8 {
        match self {
            BankCfg::Rom => 0,
            BankCfg::Ram => 1,
            BankCfg::Io => 2,
        }
    }

    pub fn from_u8(value: u8) -> (r: Option<BankCfg>)
        ensures
            match r {
                Some(cfg) => value <= 2 && cfg.spec_as_u8() == value,
                None => value > 2,
            },
    {
        match value {
            0 => Some(BankCfg::Rom),
            1 => Some(BankCfg::Ram),
            2 => Some(BankCfg::Io),
            _ => None,
        }
    }
}

/// The three meaningful bank slots, named by their index in the slot array.
#[derive(Clone, Copy, PartialEq, Eq, Structural, Debug)]
pub enum Banks {
    BankBasic,
    BankCharen,
    BankKernal,
}

impl Banks {
    pub fn to_usize(self) -> (r: usize)
        ensures
            r == self.spec_to_usize(),
    {
        match self {
            Banks::BankBasic => 3,
            Banks::BankCharen => 5,
            Banks::BankKernal => 6,
        }
    }

    pub open spec fn spec_to_usize(self) -> usize {
        match self {
            Banks::BankBasic => 3,
            Banks::BankCharen => 5,
            Banks::BankKernal => 6,
        }
    }
}

/// The bank slot states implied by a layout byte (the value at 0x0001):
/// the KERNAL slot is ROM iff HIRAM; the BASIC slot is ROM iff LORAM and
/// HIRAM; the CHAREN slot is I/O iff CHAREN and (LORAM or HIRAM), RAM iff
/// CHAREN alone, and ROM otherwise.  Slots are stored as `BankCfg` codes.
pub open spec fn spec_bank_basic(config: u8) -> u8 {
    if config & LORAM != 0 && config & HIRAM != 0 {
        0
    } else {
        1
    }
}

pub open spec fn spec_bank_charen(config: u8) -> u8 {
    if config & CHAREN != 0 {
        if config & LORAM != 0 || config & HIRAM != 0 {
            2
        } else {
            1
        }
    } else {
        0
    }
}

pub open spec fn spec_bank_kernal(config: u8) -> u8 {
    if config & HIRAM != 0 {
        0
    } else {
        1
    }
}

pub open spec fn spec_banks_of(config: u8) -> Seq<u8> {
    seq![
        1u8,
        1u8,
        1u8,
        spec_bank_basic(config),
        1u8,
        spec_bank_charen(config),
        spec_bank_kernal(config),
    ]
}

/// True when the page holding `addr` belongs to a memory-mapped device
/// window (VIC 0xD000-0xD3FF, CIA1 0xDC00-0xDCFF, CIA2 0xDD00-0xDDFF).
pub open spec fn spec_device_page(addr: u16) -> bool {
    let page = addr & 0xff00;
    (0xd000 <= page && page <= 0xd300) || page == 0xdc00 || page == 0xdd00
}

/// True when a CPU access to `addr` resolves to a device register under the
/// bank slots `banks`.
pub open spec fn spec_io_mapped_banks(banks: Seq<u8>, addr: u16) -> bool {
    banks[Banks::BankCharen.spec_to_usize() as int] == BankCfg::Io.spec_as_u8()
        && spec_device_page(addr)
}

/// RAM contents after a non-device CPU store: the byte lands in RAM at
/// `addr` whether or not `addr` is the layout register.
pub open spec fn spec_ram_after_write(ram: Seq<u8>, addr: u16, v: u8) -> Seq<u8> {
    ram.update(addr as int, v)
}

/// Bank slots after a non-device CPU store: a store to 0x0001 recomputes
/// them from the stored byte, any other store leaves them alone.
pub open spec fn spec_banks_after_write(banks: Seq<u8>, addr: u16, v: u8) -> Seq<u8> {
    if addr == ADDR_MEMORY_LAYOUT {
        spec_banks_of(v)
    } else {
        banks
    }
}

/// The mathematical content of the memory: RAM, ROM and bank slots as
/// sequences.
#[verifier::ext_equal]
pub struct MemView {
    pub ram: Seq<u8>,
    pub rom: Seq<u8>,
    pub banks: Seq<u8>,
}

impl MemView {
    pub open spec fn wf(self) -> bool {
        &&& self.ram.len() == MEM_SIZE
        &&& self.rom.len() == MEM_SIZE
    }

    /// True when a CPU access to `addr` resolves to a device register.
    pub open spec fn io_mapped(self, addr: u16) -> bool {
        spec_io_mapped_banks(self.banks, addr)
    }

    /// The byte a CPU read of `addr` yields when the address does not
    /// resolve to a device register.
    pub open spec fn read_byte(self, addr: u16) -> u8 {
        let page = addr & 0xff00;
        if 0xd000 <= page && page <= 0xd300 {
            if self.banks[5] == 0 {
                self.rom[addr as int]
            } else {
                self.ram[addr as int]
            }
        } else if 0xa000 <= page && page <= 0xbf00 {
            if self.banks[3] == 0 {
                self.rom[addr as int]
            } else {
                self.ram[addr as int]
            }
        } else if 0xe000 <= page {
            if self.banks[6] == 0 {
                self.rom[addr as int]
            } else {
                self.ram[addr as int]
            }
        } else {
            self.ram[addr as int]
        }
    }

    /// The memory after a non-device CPU store.
    pub open spec fn write_byte(self, addr: u16, v: u8) -> MemView {
        MemView {
            ram: spec_ram_after_write(self.ram, addr, v),
            rom: self.rom,
            banks: spec_banks_after_write(self.banks, addr, v),
        }
    }
}

pub struct Memory {
    pub mem_ram: Vec<u8>,
    pub mem_rom: Vec<u8>,
    pub banks: [u8; 7],
}

impl View for Memory {
    type V = MemView;

    open spec fn view(&self) -> MemView {
        MemView { ram: self.mem_ram@, rom: self.mem_rom@, banks: self.banks@ }
    }
}

impl Memory {
    pub open spec fn wf(self) -> bool {
        &&& self.mem_ram@.len() == MEM_SIZE
        &&& self.mem_rom@.len() == MEM_SIZE
    }

    /// True when a CPU access to `addr` resolves to a device register under
    /// the current bank configuration.  The plain accessors below refuse
    /// such addresses; the bus forwards them to the device.
    pub open spec fn spec_io_mapped(self, addr: u16) -> bool {
        spec_io_mapped_banks(self.banks@, addr)
    }

    /// The byte a CPU read of `addr` yields, stated over the view.
    pub open spec fn spec_read_byte(self, addr: u16) -> u8 {
        self@.read_byte(addr)
    }


    pub fn new() -> (m: Memory)
        ensures
            m.wf(),
            m.mem_rom@ == Seq::new(MEM_SIZE as nat, |i: int| 0u8),
            m.mem_ram@ == Seq::new(MEM_SIZE as nat, |i: int| 0u8).update(
                ADDR_MEMORY_LAYOUT as int,
                (LORAM | HIRAM | CHAREN) as u8,
            ),
            m.banks@ == spec_banks_of(LORAM | HIRAM | CHAREN),
    {
        let mem_ram: Vec<u8> = vec![0u8; MEM_SIZE];
        let mem_rom: Vec<u8> = vec![0u8; MEM_SIZE];
        let banks: [u8; 7] = [1u8; 7];
        let mut memory = Memory { mem_ram, mem_rom, banks };
        proof {
            assert(memory.mem_ram@ =~= Seq::new(MEM_SIZE as nat, |i: int| 0u8));
            assert(memory.mem_rom@ =~= Seq::new(MEM_SIZE as nat, |i: int| 0u8));
        }
        memory.setup_memory_banks(LORAM | HIRAM | CHAREN);
        memory
    }

    /// Writes a byte straight to RAM, bypassing bank and device dispatch.
    pub fn write_byte_no_io(&mut self, addr: u16, value: u8)
        requires
            old(self).wf(),
        ensures
            final(self).wf(),
            final(self).mem_ram@ == old(self).mem_ram@.update(addr as int, value),
            final(self).mem_rom@ == old(self).mem_rom@,
            final(self).banks@ == old(self).banks@,
    {
        self.mem_ram[addr as usize] = value;
    }

    /// Reads a byte straight from RAM, bypassing bank and device dispatch.
    pub fn read_byte_no_io(&self, addr: u16) -> (r: u8)
        requires
            self.wf(),
        ensures
            r == self.mem_ram@[addr as int],
    {
        self.mem_ram[addr as usize]
    }

    /// The RAM-only read the VIC uses to fetch graphics data: the VIC bus
    /// ignores the CPU's bank state entirely.
    pub fn vic_read_byte(&self, addr: u16) -> (r: u8)
        requires
            self.wf(),
        ensures
            r == self.mem_ram@[addr as int],
    {
        self.mem_ram[addr as usize]
    }

    /// Reads the byte visible at `addr` under the current bank
    /// configuration.  Addresses that resolve to a device register are the
    /// bus's business and are refused here.
    pub fn read_byte(&self, addr: u16) -> (r: u8)
        requires
            self.wf(),
            !self.spec_io_mapped(addr),
        ensures
            r == self.spec_read_byte(addr),
    {
        let page = addr & 0xff00;
        if 0xd000 <= page && page <= 0xd300 {
            if self.banks[5] == 0 {
                self.mem_rom[addr as usize]
            } else {
                self.mem_ram[addr as usize]
            }
        } else if 0xa000 <= page && page <= 0xbf00 {
            if self.banks[3] == 0 {
                self.mem_rom[addr as usize]
            } else {
                self.mem_ram[addr as usize]
            }
        } else if 0xe000 <= page {
            if self.banks[6] == 0 {
                self.mem_rom[addr as usize]
            } else {
                self.mem_ram[addr as usize]
            }
        } else {
            self.mem_ram[addr as usize]
        }
    }

    /// Stores a byte at `addr` under the current bank configuration: a
    /// store to 0x0001 reconfigures the banks, every other non-device store
    /// goes to RAM (ROM windows write through to the RAM underneath).
    pub fn write_byte(&mut self, addr: u16, value: u8)
        requires
            old(self).wf(),
            !old(self).spec_io_mapped(addr),
        ensures
            final(self).wf(),
            final(self).mem_ram@ == spec_ram_after_write(old(self).mem_ram@, addr, value),
            final(self).banks@ == spec_banks_after_write(old(self).banks@, addr, value),
            final(self).mem_rom@ == old(self).mem_rom@,
    {
        if addr == ADDR_MEMORY_LAYOUT {
            self.setup_memory_banks(value);
        } else {
            self.mem_ram[addr as usize] = value;
        }
    }

    /// Recomputes the three bank slots from a layout byte and mirrors the
    /// byte at 0x0001.
    pub fn setup_memory_banks(&mut self, config: u8)
        requires
            old(self).wf(),
        ensures
            final(self).wf(),
            final(self).banks@ == spec_banks_of(config),
            final(self).mem_ram@ == old(self).mem_ram@.update(ADDR_MEMORY_LAYOUT as int, config),
            final(self).mem_rom@ == old(self).mem_rom@,
    {
        let hiram = (config & HIRAM) != 0;
        let loram = (config & LORAM) != 0;
        let charen = (config & CHAREN) != 0;

        let basic: u8 = if loram && hiram { 0 } else { 1 };
        let charen_slot: u8 = if charen && (loram || hiram) {
            2
        } else if charen {
            1
        } else {
            0
        };
        let kernal: u8 = if hiram { 0 } else { 1 };

        self.banks = [1u8, 1u8, 1u8, basic, 1u8, charen_slot, kernal];
        self.mem_ram[ADDR_MEMORY_LAYOUT as usize] = config;
        proof {
            assert(self.banks@ =~= spec_banks_of(config));
        }
    }

    /// Reads a 16-bit little-endian word from two consecutive addresses.
    pub fn read_word(&self, addr: u16) -> (r: u16)
        requires
            self.wf(),
            addr < 0xffff,
            !self.spec_io_mapped(addr),
            !self.spec_io_mapped((addr + 1) as u16),
        ensures
            r == self.spec_read_byte(addr) + self.spec_read_byte((addr + 1) as u16) * 0x100,
    {
        let lsb = self.read_byte(addr);
        let msb = self.read_byte(addr + 1);
        lsb as u16 + msb as u16 * 0x100
    }

    /// Writes a 16-bit little-endian word to two consecutive addresses.
    pub fn write_word(&mut self, addr: u16, value: u16)
        requires
            old(self).wf(),
            addr < 0xffff,
            !old(self).spec_io_mapped(addr),
            !spec_io_mapped_banks(
                spec_banks_after_write(old(self).banks@, addr, (value & 0xff) as u8),
                (addr + 1) as u16,
            ),
        ensures
            final(self).wf(),
            final(self).mem_rom@ == old(self).mem_rom@,
            final(self).mem_ram@ == spec_ram_after_write(
                spec_ram_after_write(old(self).mem_ram@, addr, (value & 0xff) as u8),
                (addr + 1) as u16,
                ((value >> 8) & 0xff) as u8,
            ),
            final(self).banks@ == spec_banks_after_write(
                spec_banks_after_write(old(self).banks@, addr, (value & 0xff) as u8),
                (addr + 1) as u16,
                ((value >> 8) & 0xff) as u8,
            ),
    {
        let lsb = (value & 0xff) as u8;
        let msb = ((value >> 8) & 0xff) as u8;
        self.write_byte(addr, lsb);
        self.write_byte(addr + 1, msb);
    }

    /// Copies a ROM image into the ROM buffer at `baseaddr`, clipping at
    /// the end of the buffer.
    pub fn load_rom(&mut self, data: &[u8], baseaddr: u16)
        requires
            old(self).wf(),
        ensures
            final(self).wf(),
            final(self).mem_ram@ == old(self).mem_ram@,
            final(self).banks@ == old(self).banks@,
            final(self).mem_rom@.len() == MEM_SIZE,
            forall|j: int|
                0 <= j < MEM_SIZE ==> final(self).mem_rom@[j] == if baseaddr <= j
                    && j - baseaddr < data@.len() {
                    data@[j - baseaddr]
                } else {
                    old(self).mem_rom@[j]
                },
    {
        let base = baseaddr as usize;
        let mut i: usize = 0;
        while i < data.len() && i < MEM_SIZE && base + i < MEM_SIZE
            invariant
                self.wf(),
                base == baseaddr,
                i <= data@.len(),
                self.mem_ram@ == old(self).mem_ram@,
                self.banks@ == old(self).banks@,
                forall|j: int|
                    0 <= j < MEM_SIZE ==> self.mem_rom@[j] == if base <= j && j - base < i {
                        data@[j - base]
                    } else {
                        old(self).mem_rom@[j]
                    },
            decreases data@.len() - i,
        {
            self.mem_rom[base + i] = data[i];
            i += 1;
        }
    }

    /// Copies a program image into RAM at `baseaddr`, clipping at the end
    /// of the buffer.
    pub fn load_ram(&mut self, data: &[u8], baseaddr: u16)
        requires
            old(self).wf(),
        ensures
            final(self).wf(),
            final(self).mem_rom@ == old(self).mem_rom@,
            final(self).banks@ == old(self).banks@,
            final(self).mem_ram@.len() == MEM_SIZE,
            forall|j: int|
                0 <= j < MEM_SIZE ==> final(self).mem_ram@[j] == if baseaddr <= j
                    && j - baseaddr < data@.len() {
                    data@[j - baseaddr]
                } else {
                    old(self).mem_ram@[j]
                },
    {
        let base = baseaddr as usize;
        let mut i: usize = 0;
        while i < data.len() && i < MEM_SIZE && base + i < MEM_SIZE
            invariant
                self.wf(),
                base == baseaddr,
                i <= data@.len(),
                self.mem_rom@ == old(self).mem_rom@,
                self.banks@ == old(self).banks@,
                forall|j: int|
                    0 <= j < MEM_SIZE ==> self.mem_ram@[j] == if base <= j && j - base < i {
                        data@[j - base]
                    } else {
                        old(self).mem_ram@[j]
                    },
            decreases data@.len() - i,
        {
            self.mem_ram[base + i] = data[i];
            i += 1;
        }
    }
}

} // verus!
