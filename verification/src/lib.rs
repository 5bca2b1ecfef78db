//! A Commodore 64 emulation core: a 6502 CPU interpreter, a bank-switched
//! 64 KiB memory map, two CIA timer/interrupt chips and a VIC-II video chip,
//! each specified and verified as a pure state machine over plain values.
//! Host concerns (window, keyboard events, frame pacing, ROM files) stay
//! outside; they exchange plain bytes with this crate.

pub mod bus;
pub mod c64;
pub mod cpu;
pub mod cia1;
pub mod cia2;
pub mod common;
pub mod keyboard;
pub mod laws;
pub mod mem;
pub mod screen;
pub mod vic;

pub use bus::Bus;
pub use c64::C64;
pub use cpu::Cpu;
pub use mem::Memory;
