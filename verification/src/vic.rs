//! The VIC-II video chip: a 9-bit raster counter advancing through 312
//! lines per frame, a raster-compare interrupt, and per-line rendering of
//! the current graphics mode and sprites into the visible frame.  The chip
//! observes the CPU cycle counter to decide when the next raster line is
//! due; it never blocks.  Interrupt lines are reported to the caller, which
//! owns the CPU.

use crate::mem::Memory;
use crate::screen::{Screen, VISIBLE_SCREEN_HEIGHT, VISIBLE_SCREEN_WIDTH};
use vstd::prelude::*;

verus! {

pub const SCREEN_LINES: u32 = 312;
pub const FIRST_VISIBLE_LINE: u32 = 14;
pub const LAST_VISIBLE_LINE: u32 = 298;
pub const LINE_CYCLES: u32 = 63;
pub const BAD_LINE_CYCLES: u32 = 23;
pub const SPRITE_PTRS_OFFSET: u32 = 0x3f8;
pub const G_RES_X: u32 = 320;
pub const G_RES_Y: u32 = 200;
pub const G_COLS: u32 = 40;
pub const G_ROWS: u32 = 25;
pub const G_FIRST_LINE: u32 = 56;
pub const G_LAST_LINE: u32 = 256;
pub const G_FIRST_COL: u32 = 42;
pub const SPRITE_WIDTH: u32 = 24;
pub const SPRITE_HEIGHT: u32 = 21;
pub const SPRITE_SIZE: u32 = 64;
pub const SPRITES_FIRST_LINE: u32 = 6;
pub const SPRITES_FIRST_COL: u32 = 18;

/// The rendering mode implied by control-register bits ECM (CR1 bit 6),
/// BMM (CR1 bit 5) and MCM (CR2 bit 4).  `ExitBgMode` and `IllegalMode`
/// draw nothing.
#[derive(Clone, Copy, PartialEq, Eq, Structural, Debug)]
pub enum GraphicsMode {
    CharMode,
    MCCharMode,
    BitmapMode,
    MCBitmapMode,
    ExitBgMode,
    IllegalMode,
}

/// The graphics mode the control registers select.
pub open spec fn spec_graphics_mode(cr1: u8, cr2: u8) -> GraphicsMode {
    let ecm = cr1 & 0x40 != 0;
    let bmm = cr1 & 0x20 != 0;
    let mcm = cr2 & 0x10 != 0;
    if !ecm && !bmm && !mcm {
        GraphicsMode::CharMode
    } else if !ecm && !bmm && mcm {
        GraphicsMode::MCCharMode
    } else if !ecm && bmm && !mcm {
        GraphicsMode::BitmapMode
    } else if !ecm && bmm && mcm {
        GraphicsMode::MCBitmapMode
    } else if ecm && !bmm && !mcm {
        GraphicsMode::ExitBgMode
    } else {
        GraphicsMode::IllegalMode
    }
}

/// What one VIC tick reports to the machine: whether the chip pulls the
/// CPU IRQ line, and whether a full frame just completed (time for the
/// host to present the picture).
#[derive(Clone, Copy, PartialEq, Eq, Structural, Debug)]
pub struct VicStep {
    pub raise_irq: bool,
    pub frame_done: bool,
}

/// True when `after` differs from `before` at most within frame line `y`.
pub open spec fn spec_only_line_touched(before: Seq<u8>, after: Seq<u8>, y: int) -> bool {
    &&& after.len() == before.len()
    &&& forall|j: int|
        0 <= j < before.len() && !(y * (VISIBLE_SCREEN_WIDTH as int) <= j < (y + 1) * (
        VISIBLE_SCREEN_WIDTH as int)) ==> after[j] == before[j]
}

pub struct Vic {
    pub mx: [u8; 8],
    pub my: [u8; 8],
    pub msbx: u8,
    pub sprite_enabled: u8,
    pub sprite_priority: u8,
    pub sprite_multicolor: u8,
    pub sprite_double_width: u8,
    pub sprite_double_height: u8,
    pub sprite_shared_colors: [u8; 2],
    pub sprite_colors: [u8; 8],
    pub border_color: u8,
    pub bgcolor: [u8; 4],
    pub cr1: u8,
    pub cr2: u8,
    pub next_raster_at: u32,
    pub frame_c: u32,
    pub raster_c: u8,
    pub raster_irq: i32,
    pub irq_status: u8,
    pub irq_enabled: u8,
    pub screen_mem: u16,
    pub char_mem: u16,
    pub bitmap_mem: u16,
    pub mem_pointers: u8,
    pub graphic_mode: GraphicsMode,
}

impl Vic {
    /// Address-range bounds every fetch helper relies on: the raster
    /// compare value is 9 bits, and the derived memory pointers stay low
    /// enough that every fetch address fits in 16 bits.
    pub open spec fn wf(self) -> bool {
        &&& 0 <= self.raster_irq < 512
        &&& self.screen_mem <= 0x3c00
        &&& self.char_mem <= 0xd000
        &&& self.bitmap_mem <= 0x2000
    }

    /// The 9-bit raster counter: low byte plus CR1 bit 7 as bit 8.
    pub open spec fn spec_raster(self) -> int {
        self.raster_c + if self.cr1 & 0x80 != 0 {
            256int
        } else {
            0int
        }
    }

    /// The state with the raster counter set to `v` (0 <= v < 512): the
    /// low byte and CR1 bit 7 are rewritten, nothing else moves.
    pub open spec fn spec_with_raster(self, v: int) -> Vic {
        Vic {
            raster_c: (v % 256) as u8,
            cr1: if v >= 256 {
                self.cr1 | 0x80
            } else {
                self.cr1 & 0x7f
            },
            ..self
        }
    }

    pub open spec fn spec_raster_irq_enabled(self) -> bool {
        self.irq_enabled & 0x01 != 0
    }

    /// A bad line steals CPU cycles for character fetches: raster in
    /// [0x30, 0xf7] and the low three raster bits equal to the vertical
    /// scroll.
    pub open spec fn spec_is_bad_line(self) -> bool {
        let r = self.spec_raster();
        0x30 <= r && r <= 0xf7 && r % 8 == (self.cr1 & 0x7) as int
    }

    /// True when this tick reaches the next raster line.
    pub open spec fn spec_raster_due(self, cycles: u32) -> bool {
        cycles >= self.next_raster_at
    }

    /// True when the raster-compare interrupt fires on this tick.
    pub open spec fn spec_raster_triggers(self, cycles: u32) -> bool {
        self.spec_raster_due(cycles) && self.spec_raster_irq_enabled() && self.spec_raster()
            == self.raster_irq
    }

    /// The register state one tick leaves behind: when a raster line is
    /// due, record a raster-compare trigger, move the next-line mark by
    /// the line's cycle cost, and advance the raster counter, wrapping
    /// into a new frame past the last line.
    pub open spec fn spec_after_step(self, cycles: u32) -> Vic {
        if self.spec_raster_due(cycles) {
            let r = self.spec_raster();
            let st1 = if self.spec_raster_triggers(cycles) {
                Vic { irq_status: self.irq_status | 0x01, ..self }
            } else {
                self
            };
            let st2 = Vic {
                next_raster_at: st1.next_raster_at.saturating_add(
                    if st1.spec_is_bad_line() {
                        BAD_LINE_CYCLES
                    } else {
                        LINE_CYCLES
                    },
                ),
                ..st1
            };
            if r + 1 >= SCREEN_LINES {
                Vic { frame_c: st2.frame_c.wrapping_add(1), ..st2.spec_with_raster(0) }
            } else {
                st2.spec_with_raster(r + 1)
            }
        } else {
            self
        }
    }

    /// True when a tick pulls the CPU IRQ line: an unacknowledged
    /// interrupt is still pending, or the raster compare fires now.
    pub open spec fn spec_step_raises(self, cycles: u32) -> bool {
        self.irq_status & 0x0f != 0 || self.spec_raster_triggers(cycles)
    }

    /// True when a tick completes a frame.
    pub open spec fn spec_step_frame_done(self, cycles: u32) -> bool {
        self.spec_raster_due(cycles) && self.spec_raster() + 1 >= SCREEN_LINES
    }

    pub fn new() -> (v: Vic)
        ensures
            v.wf(),
            v.raster_irq == 0,
            v.raster_c == 0,
            v.irq_enabled == 0,
            v.irq_status == 0,
            v.next_raster_at == LINE_CYCLES,
            v.frame_c == 0,
            v.cr1 == 0,
            v.cr2 == 0,
            v.screen_mem == 0x0400,
            v.char_mem == 0xd000,
            v.bitmap_mem == 0,
            v.mem_pointers == 1,
            v.graphic_mode == GraphicsMode::CharMode,
            v.msbx == 0 && v.sprite_enabled == 0 && v.sprite_priority == 0,
            v.sprite_multicolor == 0 && v.sprite_double_width == 0 && v.sprite_double_height == 0,
            v.border_color == 0,
            v.mx@ == Seq::new(8, |i: int| 0u8),
            v.my@ == Seq::new(8, |i: int| 0u8),
            v.sprite_colors@ == Seq::new(8, |i: int| 0u8),
            v.sprite_shared_colors@ == Seq::new(2, |i: int| 0u8),
            v.bgcolor@ == Seq::new(4, |i: int| 0u8),
    {
        let v = Vic {
            mx: [0u8; 8],
            my: [0u8; 8],
            msbx: 0,
            sprite_enabled: 0,
            sprite_priority: 0,
            sprite_multicolor: 0,
            sprite_double_width: 0,
            sprite_double_height: 0,
            sprite_shared_colors: [0u8; 2],
            sprite_colors: [0u8; 8],
            border_color: 0,
            bgcolor: [0u8; 4],
            cr1: 0,
            cr2: 0,
            next_raster_at: LINE_CYCLES,
            frame_c: 0,
            raster_c: 0,
            raster_irq: 0,
            irq_status: 0,
            irq_enabled: 0,
            screen_mem: 0x0400,
            char_mem: 0xd000,
            bitmap_mem: 0,
            mem_pointers: 1,
            graphic_mode: GraphicsMode::CharMode,
        };
        proof {
            assert(v.mx@ =~= Seq::new(8, |i: int| 0u8));
            assert(v.my@ =~= Seq::new(8, |i: int| 0u8));
            assert(v.sprite_colors@ =~= Seq::new(8, |i: int| 0u8));
            assert(v.sprite_shared_colors@ =~= Seq::new(2, |i: int| 0u8));
            assert(v.bgcolor@ =~= Seq::new(4, |i: int| 0u8));
        }
        v
    }

    /// Recomputes the graphics mode from the control registers.
    pub fn set_graphic_mode(&mut self)
        ensures
            *final(self) == (Vic {
                graphic_mode: spec_graphics_mode(old(self).cr1, old(self).cr2),
                ..*old(self)
            }),
    {
        let ecm = (self.cr1 & 0x40) != 0;
        let bmm = (self.cr1 & 0x20) != 0;
        let mcm = (self.cr2 & 0x10) != 0;
        self.graphic_mode = if !ecm && !bmm && !mcm {
            GraphicsMode::CharMode
        } else if !ecm && !bmm && mcm {
            GraphicsMode::MCCharMode
        } else if !ecm && bmm && !mcm {
            GraphicsMode::BitmapMode
        } else if !ecm && bmm && mcm {
            GraphicsMode::MCBitmapMode
        } else if ecm && !bmm && !mcm {
            GraphicsMode::ExitBgMode
        } else {
            GraphicsMode::IllegalMode
        };
    }

    pub fn raster_counter(&self) -> (r: i32)
        ensures
            r == self.spec_raster(),
    {
        self.raster_c as i32 + if self.cr1 & 0x80 != 0 {
            256
        } else {
            0
        }
    }

    pub fn raster_counter_set(&mut self, v: i32)
        requires
            0 <= v < 512,
        ensures
            *final(self) == old(self).spec_with_raster(v as int),
    {
        self.raster_c = (v % 256) as u8;
        self.cr1 = if v >= 256 {
            self.cr1 | 0x80
        } else {
            self.cr1 & 0x7f
        };
    }

    pub fn is_screen_off(&self) -> (r: bool)
        ensures
            r == (self.cr1 & 0x10 == 0),
    {
        (self.cr1 & 0x10) == 0
    }

    pub fn is_bad_line(&self) -> (r: bool)
        ensures
            r == self.spec_is_bad_line(),
    {
        let rstr = self.raster_counter();
        rstr >= 0x30 && rstr <= 0xf7 && (rstr % 8) == self.vertical_scroll() as i32
    }

    pub fn raster_irq_enabled(&self) -> (r: bool)
        ensures
            r == self.spec_raster_irq_enabled(),
    {
        (self.irq_enabled & 0x01) != 0
    }

    pub fn vertical_scroll(&self) -> (r: u8)
        ensures
            r == self.cr1 & 0x7,
            r < 8,
    {
        proof {
            let c = self.cr1;
            assert(c & 0x7 < 8) by (bit_vector);
        }
        self.cr1 & 0x7
    }

    pub fn horizontal_scroll(&self) -> (r: u8)
        ensures
            r == self.cr2 & 0x7,
            r < 8,
    {
        proof {
            let c = self.cr2;
            assert(c & 0x7 < 8) by (bit_vector);
        }
        self.cr2 & 0x7
    }

    pub fn is_sprite_enabled(&self, n: usize) -> (r: bool)
        requires
            n < 8,
        ensures
            r == (self.sprite_enabled & (1u8 << n) != 0),
    {
        (self.sprite_enabled & (1u8 << n)) != 0
    }

    pub fn is_background_sprite(&self, n: usize) -> (r: bool)
        requires
            n < 8,
        ensures
            r == (self.sprite_priority & (1u8 << n) != 0),
    {
        (self.sprite_priority & (1u8 << n)) != 0
    }

    pub fn is_double_width_sprite(&self, n: usize) -> (r: bool)
        requires
            n < 8,
        ensures
            r == (self.sprite_double_width & (1u8 << n) != 0),
    {
        (self.sprite_double_width & (1u8 << n)) != 0
    }

    pub fn is_double_height_sprite(&self, n: usize) -> (r: bool)
        requires
            n < 8,
        ensures
            r == (self.sprite_double_height & (1u8 << n) != 0),
    {
        (self.sprite_double_height & (1u8 << n)) != 0
    }

    pub fn is_multicolor_sprite(&self, n: usize) -> (r: bool)
        requires
            n < 8,
        ensures
            r == (self.sprite_multicolor & (1u8 << n) != 0),
    {
        (self.sprite_multicolor & (1u8 << n)) != 0
    }

    /// A sprite's 9-bit X position: its position byte plus the sprite's
    /// bit of the X-MSB register as bit 8.
    pub fn sprite_x(&self, n: usize) -> (r: i32)
        requires
            n < 8,
        ensures
            r == self.mx@[n as int] + if self.msbx & (1u8 << n) != 0 {
                256int
            } else {
                0int
            },
    {
        let x = self.mx[n] as i32;
        if (self.msbx & (1u8 << n)) != 0 {
            x + 256
        } else {
            x
        }
    }

    /// The chip state a register write leaves behind: sprite positions and
    /// colors land in their arrays, control-register writes rederive the
    /// raster-compare bit 8 and the graphics mode, a memory-pointers write
    /// rederives the three fetch bases, and a status write acknowledges the
    /// interrupt bits that are set in the value.
    pub open spec fn spec_write_register(self, r: u8, v: u8) -> Vic {
        if r <= 0x0f {
            if r % 2 == 0 {
                Vic { mx: vstd::array::spec_array_update(self.mx, (r / 2) as int, v), ..self }
            } else {
                Vic { my: vstd::array::spec_array_update(self.my, (r / 2) as int, v), ..self }
            }
        } else if r == 0x10 {
            Vic { msbx: v, ..self }
        } else if r == 0x11 {
            let st = Vic {
                cr1: v & 0x7f,
                raster_irq: ((self.raster_irq % 256) + if v & 0x80 != 0 {
                    256int
                } else {
                    0int
                }) as i32,
                ..self
            };
            Vic { graphic_mode: spec_graphics_mode(st.cr1, st.cr2), ..st }
        } else if r == 0x12 {
            Vic {
                raster_irq: (v + if self.raster_irq >= 256 {
                    256int
                } else {
                    0int
                }) as i32,
                ..self
            }
        } else if r == 0x15 {
            Vic { sprite_enabled: v, ..self }
        } else if r == 0x16 {
            let st = Vic { cr2: v, ..self };
            Vic { graphic_mode: spec_graphics_mode(st.cr1, st.cr2), ..st }
        } else if r == 0x17 {
            Vic { sprite_double_height: v, ..self }
        } else if r == 0x18 {
            Vic {
                char_mem: ((v & 0x0e) as u16) << 10,
                screen_mem: ((v & 0xf0) as u16) << 6,
                bitmap_mem: ((v & 0x08) as u16) << 10,
                mem_pointers: v | 0x01,
                ..self
            }
        } else if r == 0x19 {
            Vic { irq_status: self.irq_status & !(v & 0x0f), ..self }
        } else if r == 0x1a {
            Vic { irq_enabled: v, ..self }
        } else if r == 0x1b {
            Vic { sprite_priority: v, ..self }
        } else if r == 0x1c {
            Vic { sprite_multicolor: v, ..self }
        } else if r == 0x1d {
            Vic { sprite_double_width: v, ..self }
        } else if r == 0x20 {
            Vic { border_color: v, ..self }
        } else if 0x21 <= r && r <= 0x24 {
            Vic {
                bgcolor: vstd::array::spec_array_update(self.bgcolor, r - 0x21, v),
                ..self
            }
        } else if 0x25 <= r && r <= 0x26 {
            Vic {
                sprite_shared_colors: vstd::array::spec_array_update(
                    self.sprite_shared_colors,
                    r - 0x25,
                    v,
                ),
                ..self
            }
        } else if 0x27 <= r && r <= 0x2e {
            Vic {
                sprite_colors: vstd::array::spec_array_update(self.sprite_colors, r - 0x27, v),
                ..self
            }
        } else {
            self
        }
    }

    /// The byte a register read yields: the status register folds the
    /// pending bits under bit 7 and reports the unconnected bits as set,
    /// unmapped offsets read as 0xff.
    pub open spec fn spec_read_register(self, r: u8) -> u8 {
        if r <= 0x0f {
            if r % 2 == 0 {
                self.mx@[(r / 2) as int]
            } else {
                self.my@[(r / 2) as int]
            }
        } else if r == 0x10 {
            self.msbx
        } else if r == 0x11 {
            self.cr1
        } else if r == 0x12 {
            self.raster_c
        } else if r == 0x15 {
            self.sprite_enabled
        } else if r == 0x16 {
            self.cr2
        } else if r == 0x17 {
            self.sprite_double_height
        } else if r == 0x18 {
            self.mem_pointers
        } else if r == 0x19 {
            (if self.irq_status & 0x0f != 0 {
                (self.irq_status & 0x0f) | 0x80
            } else {
                0
            }) | 0x70
        } else if r == 0x1a {
            0xf0 | self.irq_enabled
        } else if r == 0x1b {
            self.sprite_priority
        } else if r == 0x1c {
            self.sprite_multicolor
        } else if r == 0x1d {
            self.sprite_double_width
        } else if r == 0x20 {
            self.border_color
        } else if 0x21 <= r && r <= 0x24 {
            self.bgcolor@[r - 0x21]
        } else if 0x25 <= r && r <= 0x26 {
            self.sprite_shared_colors@[r - 0x25]
        } else if 0x27 <= r && r <= 0x2e {
            self.sprite_colors@[r - 0x27]
        } else {
            0xff
        }
    }

    pub fn write_register(&mut self, r: u8, v: u8)
        requires
            old(self).wf(),
        ensures
            final(self).wf(),
            *final(self) == old(self).spec_write_register(r, v),
    {
        if r <= 0x0f {
            if r % 2 == 0 {
                self.mx[(r / 2) as usize] = v;
                proof {
                    assert(self.mx =~= vstd::array::spec_array_update(
                        old(self).mx,
                        (r / 2) as int,
                        v,
                    ));
                }
            } else {
                self.my[(r / 2) as usize] = v;
                proof {
                    assert(self.my =~= vstd::array::spec_array_update(
                        old(self).my,
                        (r / 2) as int,
                        v,
                    ));
                }
            }
        } else if r == 0x10 {
            self.msbx = v;
        } else if r == 0x11 {
            self.cr1 = v & 0x7f;
            self.raster_irq = (self.raster_irq % 256) + if v & 0x80 != 0 {
                256
            } else {
                0
            };
            self.set_graphic_mode();
        } else if r == 0x12 {
            self.raster_irq = v as i32 + if self.raster_irq >= 256 {
                256
            } else {
                0
            };
        } else if r == 0x15 {
            self.sprite_enabled = v;
        } else if r == 0x16 {
            self.cr2 = v;
            self.set_graphic_mode();
        } else if r == 0x17 {
            self.sprite_double_height = v;
        } else if r == 0x18 {
            proof {
                assert((((v & 0x0e) as u16) << 10) <= 0x3800) by (bit_vector);
                assert((((v & 0xf0) as u16) << 6) <= 0x3c00) by (bit_vector);
                assert((((v & 0x08) as u16) << 10) <= 0x2000) by (bit_vector);
            }
            self.char_mem = ((v & 0x0e) as u16) << 10;
            self.screen_mem = ((v & 0xf0) as u16) << 6;
            self.bitmap_mem = ((v & 0x08) as u16) << 10;
            self.mem_pointers = v | 0x01;
        } else if r == 0x19 {
            self.irq_status = self.irq_status & !(v & 0x0f);
        } else if r == 0x1a {
            self.irq_enabled = v;
        } else if r == 0x1b {
            self.sprite_priority = v;
        } else if r == 0x1c {
            self.sprite_multicolor = v;
        } else if r == 0x1d {
            self.sprite_double_width = v;
        } else if r == 0x20 {
            self.border_color = v;
        } else if 0x21 <= r && r <= 0x24 {
            self.bgcolor[(r - 0x21) as usize] = v;
            proof {
                assert(self.bgcolor =~= vstd::array::spec_array_update(
                    old(self).bgcolor,
                    r - 0x21,
                    v,
                ));
            }
        } else if 0x25 <= r && r <= 0x26 {
            self.sprite_shared_colors[(r - 0x25) as usize] = v;
            proof {
                assert(self.sprite_shared_colors =~= vstd::array::spec_array_update(
                    old(self).sprite_shared_colors,
                    r - 0x25,
                    v,
                ));
            }
        } else if 0x27 <= r && r <= 0x2e {
            self.sprite_colors[(r - 0x27) as usize] = v;
            proof {
                assert(self.sprite_colors =~= vstd::array::spec_array_update(
                    old(self).sprite_colors,
                    r - 0x27,
                    v,
                ));
            }
        }
    }

    pub fn read_register(&self, r: u8) -> (ret: u8)
        ensures
            ret == self.spec_read_register(r),
    {
        if r <= 0x0f {
            if r % 2 == 0 {
                self.mx[(r / 2) as usize]
            } else {
                self.my[(r / 2) as usize]
            }
        } else if r == 0x10 {
            self.msbx
        } else if r == 0x11 {
            self.cr1
        } else if r == 0x12 {
            self.raster_c
        } else if r == 0x15 {
            self.sprite_enabled
        } else if r == 0x16 {
            self.cr2
        } else if r == 0x17 {
            self.sprite_double_height
        } else if r == 0x18 {
            self.mem_pointers
        } else if r == 0x19 {
            (if self.irq_status & 0x0f != 0 {
                (self.irq_status & 0x0f) | 0x80
            } else {
                0
            }) | 0x70
        } else if r == 0x1a {
            0xf0 | self.irq_enabled
        } else if r == 0x1b {
            self.sprite_priority
        } else if r == 0x1c {
            self.sprite_multicolor
        } else if r == 0x1d {
            self.sprite_double_width
        } else if r == 0x20 {
            self.border_color
        } else if 0x21 <= r && r <= 0x24 {
            self.bgcolor[(r - 0x21) as usize]
        } else if 0x25 <= r && r <= 0x26 {
            self.sprite_shared_colors[(r - 0x25) as usize]
        } else if 0x27 <= r && r <= 0x2e {
            self.sprite_colors[(r - 0x27) as usize]
        } else {
            0xff
        }
    }

    /// Retrieves a screen code from screen memory.
    pub fn get_screen_char(&self, mem: &Memory, column: u32, row: u32) -> (r: u8)
        requires
            self.wf(),
            mem.wf(),
            column < G_COLS,
            row < G_ROWS,
        ensures
            r == mem.mem_ram@[self.screen_mem + row * G_COLS + column],
    {
        let addr: u32 = self.screen_mem as u32 + (row * G_COLS) + column;
        mem.vic_read_byte(addr as u16)
    }

    /// Retrieves the color nibble for screen coordinates from color RAM.
    pub fn get_char_color(&self, mem: &Memory, column: u32, row: u32) -> (r: u8)
        requires
            self.wf(),
            mem.wf(),
            column < G_COLS,
            row < G_ROWS,
        ensures
            r == mem.mem_ram@[0xd800 + row * G_COLS + column] & 0x0f,
    {
        let addr: u32 = 0xd800 + (row * G_COLS) + column;
        mem.read_byte_no_io(addr as u16) & 0x0f
    }

    /// Retrieves one row of a character's pixel data from character memory.
    pub fn get_char_data(&self, mem: &Memory, chr: i32, line: i32) -> (r: u8)
        requires
            self.wf(),
            mem.wf(),
            0 <= chr < 256,
            0 <= line < 8,
        ensures
            r == mem.mem_ram@[self.char_mem + chr * 8 + line],
    {
        let addr: u32 = self.char_mem as u32 + (chr * 8) as u32 + line as u32;
        mem.vic_read_byte(addr as u16)
    }

    /// Retrieves one row of a bitmap cell from bitmap memory.
    pub fn get_bitmap_data(&self, mem: &Memory, column: u32, row: u32, line: u32) -> (r: u8)
        requires
            self.wf(),
            mem.wf(),
            column < G_COLS,
            row < G_ROWS,
            line < 8,
        ensures
            r == mem.mem_ram@[self.bitmap_mem + (row * G_COLS + column) * 8 + line],
    {
        let addr: u32 = self.bitmap_mem as u32 + ((row * G_COLS + column) * 8 + line);
        mem.vic_read_byte(addr as u16)
    }

    /// A sprite's data base address: its pointer byte at the end of screen
    /// memory, times the sprite data size.
    pub fn get_sprite_ptr(&self, mem: &Memory, n: u32) -> (r: u16)
        requires
            self.wf(),
            mem.wf(),
            n < 8,
        ensures
            r == SPRITE_SIZE * mem.mem_ram@[self.screen_mem + SPRITE_PTRS_OFFSET + n],
            r <= 0xffc0,
    {
        let ptraddr: u32 = self.screen_mem as u32 + SPRITE_PTRS_OFFSET + n;
        SPRITE_SIZE as u16 * mem.vic_read_byte(ptraddr as u16) as u16
    }

    /// Draws one monochrome character row at (x, y): set bits paint the
    /// color, clear bits leave the background, shifted right by the
    /// horizontal scroll and clipped at the right edge of the graphics
    /// window.
    pub fn draw_char(&self, screen: &mut Screen, x: u32, y: u32, data: u8, color: u8)
        requires
            old(screen).wf(),
            x <= 1000,
        ensures
            final(screen).wf(),
            spec_only_line_touched(old(screen).frame@, final(screen).frame@, y as int),
    {
        let hs = self.horizontal_scroll() as u32;
        let mut i: u32 = 0;
        while i < 8
            invariant
                screen.wf(),
                x <= 1000,
                i <= 8,
                hs < 8,
                spec_only_line_touched(old(screen).frame@, screen.frame@, y as int),
            decreases 8 - i,
        {
            let xoffs = x + 8 - i + hs;
            if xoffs <= G_FIRST_COL + G_RES_X {
                if data & (1u8 << i) != 0 {
                    screen.screen_update_pixel(xoffs, y, color as u32);
                }
            }
            i += 1;
        }
    }

    /// Draws one multicolor character row at (x, y): four double-width
    /// cells whose two data bits pick among the shared background colors
    /// and the character color.
    pub fn draw_mcchar(&self, screen: &mut Screen, x: u32, y: u32, data: u8, color: u8)
        requires
            old(screen).wf(),
            x <= 1000,
        ensures
            final(screen).wf(),
            spec_only_line_touched(old(screen).frame@, final(screen).frame@, y as int),
    {
        let hs = self.horizontal_scroll() as u32;
        let mut i: u32 = 0;
        while i < 4
            invariant
                screen.wf(),
                x <= 1000,
                i <= 4,
                hs < 8,
                spec_only_line_touched(old(screen).frame@, screen.frame@, y as int),
            decreases 4 - i,
        {
            let cs = (data >> ((i * 2) as u8)) & 0x3;
            let c = if cs == 0 {
                self.bgcolor[0]
            } else if cs == 1 {
                self.bgcolor[1]
            } else if cs == 2 {
                self.bgcolor[2]
            } else {
                color
            };
            let xoffs = x + 8 - i * 2 + hs;
            screen.screen_update_pixel(xoffs, y, c as u32);
            screen.screen_update_pixel(xoffs + 1, y, c as u32);
            i += 1;
        }
    }

    /// Draws one monochrome bitmap row at (x, y): the screen byte's high
    /// nibble colors set bits, the low nibble clear bits.
    pub fn draw_bitmap(&self, screen: &mut Screen, x: u32, y: u32, data: u8, color: u8)
        requires
            old(screen).wf(),
            x <= 1000,
        ensures
            final(screen).wf(),
            spec_only_line_touched(old(screen).frame@, final(screen).frame@, y as int),
    {
        let forec = (color >> 4) & 0xf;
        let bgc = color & 0xf;
        let hs = self.horizontal_scroll() as u32;
        let mut i: u32 = 0;
        while i < 8
            invariant
                screen.wf(),
                x <= 1000,
                i <= 8,
                hs < 8,
                spec_only_line_touched(old(screen).frame@, screen.frame@, y as int),
            decreases 8 - i,
        {
            let xoffs = x + 8 - i + hs;
            if xoffs <= G_FIRST_COL + G_RES_X {
                if data & (1u8 << i) != 0 {
                    screen.screen_update_pixel(xoffs, y, forec as u32);
                } else {
                    screen.screen_update_pixel(xoffs, y, bgc as u32);
                }
            }
            i += 1;
        }
    }

    /// Draws one multicolor bitmap row at (x, y): four double-width cells
    /// whose two data bits pick among the background, the screen byte's
    /// nibbles and the color-RAM nibble.
    pub fn draw_mcbitmap(&self, screen: &mut Screen, x: u32, y: u32, data: u8, scolor: u8, rcolor: u8)
        requires
            old(screen).wf(),
            x <= 1000,
        ensures
            final(screen).wf(),
            spec_only_line_touched(old(screen).frame@, final(screen).frame@, y as int),
    {
        let hs = self.horizontal_scroll() as u32;
        let mut i: u32 = 0;
        while i < 4
            invariant
                screen.wf(),
                x <= 1000,
                i <= 4,
                hs < 8,
                spec_only_line_touched(old(screen).frame@, screen.frame@, y as int),
            decreases 4 - i,
        {
            let cs = (data >> ((i * 2) as u8)) & 0x3;
            let c = if cs == 0 {
                self.bgcolor[0]
            } else if cs == 1 {
                (scolor >> 4) & 0xf
            } else if cs == 2 {
                scolor & 0xf
            } else {
                rcolor
            };
            let xoffs = x + 8 - i * 2 + hs;
            screen.screen_update_pixel(xoffs, y, c as u32);
            screen.screen_update_pixel(xoffs + 1, y, c as u32);
            i += 1;
        }
    }

    /// Draws the character-mode portion of the current raster line: a
    /// background run over the graphics window, then the forty character
    /// cells of the row, honoring 38-column mode and per-cell multicolor.
    pub fn draw_raster_char_mode(&self, mem: &Memory, screen: &mut Screen)
        requires
            self.wf(),
            mem.wf(),
            old(screen).wf(),
        ensures
            final(screen).wf(),
            spec_only_line_touched(
                old(screen).frame@,
                final(screen).frame@,
                self.spec_raster() - FIRST_VISIBLE_LINE,
            ),
    {
        let rstr = self.raster_counter();
        if rstr >= G_FIRST_LINE as i32 && rstr < G_LAST_LINE as i32 && !self.is_screen_off() {
            let y = (rstr - FIRST_VISIBLE_LINE as i32) as u32;
            screen.screen_draw_rect(G_FIRST_COL, y, G_RES_X, self.bgcolor[0] as u32);
            let line: u32 = (rstr - G_FIRST_LINE as i32) as u32;
            let row: u32 = line / 8;
            let char_row: u32 = line % 8;
            let mut column: u32 = 0;
            while column < G_COLS
                invariant
                    self.wf(),
                    mem.wf(),
                    screen.wf(),
                    row < G_ROWS,
                    char_row < 8,
                    y == self.spec_raster() - FIRST_VISIBLE_LINE,
                    spec_only_line_touched(old(screen).frame@, screen.frame@, y as int),
                decreases G_COLS - column,
            {
                if !((self.cr2 & 0x08) == 0 && (column == 0 || column == G_COLS - 1)) {
                    let x = G_FIRST_COL + column * 8;
                    let c = self.get_screen_char(mem, column, row);
                    let data = self.get_char_data(mem, c as i32, char_row as i32);
                    let color = self.get_char_color(mem, column, row);
                    if matches!(self.graphic_mode, GraphicsMode::MCCharMode) && (color & 0x08)
                        != 0 {
                        self.draw_mcchar(screen, x, y, data, color & 0x7);
                    } else {
                        self.draw_char(screen, x, y, data, color);
                    }
                }
                column += 1;
            }
        }
    }

    /// Draws the bitmap-mode portion of the current raster line: a
    /// background run, then the forty bitmap cells of the row.
    pub fn draw_raster_bitmap_mode(&self, mem: &Memory, screen: &mut Screen)
        requires
            self.wf(),
            mem.wf(),
            old(screen).wf(),
        ensures
            final(screen).wf(),
            spec_only_line_touched(
                old(screen).frame@,
                final(screen).frame@,
                self.spec_raster() - FIRST_VISIBLE_LINE,
            ),
    {
        let rstr = self.raster_counter();
        if rstr >= G_FIRST_LINE as i32 && rstr < G_LAST_LINE as i32 && !self.is_screen_off() {
            let y = (rstr - FIRST_VISIBLE_LINE as i32) as u32;
            screen.screen_draw_rect(G_FIRST_COL, y, G_RES_X, self.bgcolor[0] as u32);
            let line: u32 = (rstr - G_FIRST_LINE as i32) as u32;
            let row: u32 = line / 8;
            let bitmap_row: u32 = line % 8;
            let mut column: u32 = 0;
            while column < G_COLS
                invariant
                    self.wf(),
                    mem.wf(),
                    screen.wf(),
                    row < G_ROWS,
                    bitmap_row < 8,
                    y == self.spec_raster() - FIRST_VISIBLE_LINE,
                    spec_only_line_touched(old(screen).frame@, screen.frame@, y as int),
                decreases G_COLS - column,
            {
                let x = G_FIRST_COL + column * 8;
                let data = self.get_bitmap_data(mem, column, row, bitmap_row);
                let scolor = self.get_screen_char(mem, column, row);
                let rcolor = self.get_char_color(mem, column, row);
                if matches!(self.graphic_mode, GraphicsMode::BitmapMode) {
                    self.draw_bitmap(screen, x, y, data, scolor);
                } else {
                    self.draw_mcbitmap(screen, x, y, data, scolor, rcolor);
                }
                column += 1;
            }
        }
    }

    /// Draws one row of a multicolor sprite at (x, y): bits are taken in
    /// pairs selecting transparency, the shared colors or the sprite's own
    /// color, each cell two pixels wide.
    pub fn draw_mcsprite(&self, mem: &Memory, screen: &mut Screen, x: u32, y: u32, sprite: usize, row: u16)
        requires
            self.wf(),
            mem.wf(),
            old(screen).wf(),
            sprite < 8,
            row <= 20,
            x <= 1000,
        ensures
            final(screen).wf(),
            spec_only_line_touched(old(screen).frame@, final(screen).frame@, y as int),
    {
        let addr = self.get_sprite_ptr(mem, sprite as u32);
        let mut i: u16 = 0;
        while i < 3
            invariant
                self.wf(),
                mem.wf(),
                screen.wf(),
                sprite < 8,
                row <= 20,
                x <= 1000,
                i <= 3,
                addr <= 0xffc0,
                spec_only_line_touched(old(screen).frame@, screen.frame@, y as int),
            decreases 3 - i,
        {
            let data = mem.vic_read_byte(addr + row * 3 + i);
            let mut j: u32 = 0;
            while j < 4
                invariant
                    screen.wf(),
                    sprite < 8,
                    x <= 1000,
                    i <= 3,
                    j <= 4,
                    spec_only_line_touched(old(screen).frame@, screen.frame@, y as int),
                decreases 4 - j,
            {
                let cs = (data >> ((j * 2) as u8)) & 0x3;
                if cs != 0 {
                    let c = if cs == 1 {
                        self.sprite_shared_colors[0]
                    } else if cs == 2 {
                        self.sprite_colors[sprite]
                    } else {
                        self.sprite_shared_colors[1]
                    };
                    let px = x + (i as u32) * 8 + 8 - j * 2;
                    screen.screen_update_pixel(px, y, c as u32);
                    screen.screen_update_pixel(px + 1, y, c as u32);
                }
                j += 1;
            }
            i += 1;
        }
    }

    /// Draws one row of a monochrome sprite at (x, y), doubling the width
    /// when the sprite is stretched; pixels that land in the border area
    /// take the border color.
    pub fn draw_sprite(&self, mem: &Memory, screen: &mut Screen, x: u32, y: u32, sprite: usize, row: u16)
        requires
            self.wf(),
            mem.wf(),
            old(screen).wf(),
            sprite < 8,
            row <= 20,
            x <= 1000,
        ensures
            final(screen).wf(),
            spec_only_line_touched(old(screen).frame@, final(screen).frame@, y as int),
    {
        let swid: u32 = if self.is_double_width_sprite(sprite) {
            2
        } else {
            1
        };
        let addr = self.get_sprite_ptr(mem, sprite as u32);
        let mut w: u32 = 0;
        while w < swid
            invariant
                self.wf(),
                mem.wf(),
                screen.wf(),
                sprite < 8,
                row <= 20,
                x <= 1000,
                1 <= swid <= 2,
                w <= swid,
                addr <= 0xffc0,
                spec_only_line_touched(old(screen).frame@, screen.frame@, y as int),
            decreases swid - w,
        {
            let mut i: u16 = 0;
            while i < 3
                invariant
                    self.wf(),
                    mem.wf(),
                    screen.wf(),
                    sprite < 8,
                    row <= 20,
                    x <= 1000,
                    1 <= swid <= 2,
                    w < swid,
                    i <= 3,
                    addr <= 0xffc0,
                    spec_only_line_touched(old(screen).frame@, screen.frame@, y as int),
                decreases 3 - i,
            {
                let data = mem.vic_read_byte(addr + row * 3 + i);
                let mut j: u32 = 0;
                while j < 8
                    invariant
                        self.wf(),
                        screen.wf(),
                        sprite < 8,
                        x <= 1000,
                        1 <= swid <= 2,
                        w < swid,
                        i <= 3,
                        j <= 8,
                        spec_only_line_touched(old(screen).frame@, screen.frame@, y as int),
                    decreases 8 - j,
                {
                    if (data & (1u8 << (j as u8))) != 0 {
                        proof {
                            assert(w * 8 * swid <= 16 && (i as u32) * 8 * swid <= 48 && j * swid
                                <= 8 * swid && 8 * swid <= 16) by (nonlinear_arith)
                                requires
                                    1 <= swid <= 2,
                                    w < swid,
                                    i <= 3,
                                    j < 8,
                            ;
                        }
                        let new_x = x + w * 8 * swid + (i as u32) * 8 * swid + (8 * swid - j
                            * swid);
                        let mut color = self.sprite_colors[sprite];
                        let side_border_offset: u32 = if (self.cr2 & 0x08) == 0 {
                            8
                        } else {
                            0
                        };
                        let mut top_border_offset: u32 = 0;
                        let mut btm_border_offset: u32 = 0;
                        if (self.cr1 & 0x08) == 0 {
                            top_border_offset = 2;
                            btm_border_offset = 4;
                        }
                        if new_x <= G_FIRST_COL + side_border_offset || y < G_FIRST_COL
                            + top_border_offset || new_x > G_RES_X + G_FIRST_COL
                            - side_border_offset || y >= G_RES_Y + G_FIRST_COL
                            - btm_border_offset {
                            color = self.border_color;
                        }
                        screen.screen_update_pixel(new_x, y, color as u32);
                    }
                    j += 1;
                }
                i += 1;
            }
            w += 1;
        }
    }

    /// Draws the sprites crossing the current raster line, back to front so
    /// sprite 0 lands on top.
    pub fn draw_raster_sprites(&self, mem: &Memory, screen: &mut Screen)
        requires
            self.wf(),
            mem.wf(),
            old(screen).wf(),
            FIRST_VISIBLE_LINE <= self.spec_raster(),
        ensures
            final(screen).wf(),
            spec_only_line_touched(
                old(screen).frame@,
                final(screen).frame@,
                self.spec_raster() - FIRST_VISIBLE_LINE,
            ),
    {
        if self.sprite_enabled != 0 {
            let rstr = self.raster_counter();
            let y = (rstr - FIRST_VISIBLE_LINE as i32) as u32;
            let sp_y = rstr - SPRITES_FIRST_LINE as i32;
            let mut k: usize = 0;
            while k < 8
                invariant
                    self.wf(),
                    mem.wf(),
                    screen.wf(),
                    k <= 8,
                    rstr == self.spec_raster(),
                    rstr >= FIRST_VISIBLE_LINE,
                    y == rstr - FIRST_VISIBLE_LINE,
                    sp_y == rstr - SPRITES_FIRST_LINE,
                    spec_only_line_touched(old(screen).frame@, screen.frame@, y as int),
                decreases 8 - k,
            {
                let n = 7 - k;
                let height: i32 = if self.is_double_height_sprite(n) {
                    (SPRITE_HEIGHT * 2) as i32
                } else {
                    SPRITE_HEIGHT as i32
                };
                if self.is_sprite_enabled(n) && sp_y >= self.my[n] as i32 && sp_y < self.my[n]
                    as i32 + height {
                    let mut row: i32 = sp_y - self.my[n] as i32;
                    if self.is_double_height_sprite(n) {
                        row = row / 2;
                    }
                    let sx = self.sprite_x(n);
                    let x: u32 = SPRITES_FIRST_COL + sx as u32;
                    if self.is_multicolor_sprite(n) {
                        self.draw_mcsprite(mem, screen, x, y, n, row as u16);
                    } else {
                        self.draw_sprite(mem, screen, x, y, n, row as u16);
                    }
                }
                k += 1;
            }
        }
    }

    /// One tick: while an interrupt is unacknowledged the IRQ line stays
    /// raised; when the CPU cycle counter reaches the next raster line, the
    /// raster compare may trigger, the visible portion of the line is
    /// rendered, and the raster advances, wrapping into a new frame after
    /// the last line.
    pub fn step(&mut self, cycles: u32, mem: &Memory, screen: &mut Screen) -> (res: VicStep)
        requires
            old(self).wf(),
            mem.wf(),
            old(screen).wf(),
        ensures
            final(self).wf(),
            final(screen).wf(),
            *final(self) == old(self).spec_after_step(cycles),
            res.raise_irq == old(self).spec_step_raises(cycles),
            res.frame_done == old(self).spec_step_frame_done(cycles),
            ({
                let r = old(self).spec_raster();
                if old(self).spec_raster_due(cycles) && FIRST_VISIBLE_LINE <= r
                    < LAST_VISIBLE_LINE {
                    spec_only_line_touched(
                        old(screen).frame@,
                        final(screen).frame@,
                        r - FIRST_VISIBLE_LINE,
                    )
                } else {
                    final(screen).frame@ == old(screen).frame@
                }
            }),
    {
        let mut raise = self.irq_status & 0x0f != 0;
        let mut frame_done = false;
        if cycles >= self.next_raster_at {
            let rstr = self.raster_counter();
            if self.raster_irq_enabled() && rstr == self.raster_irq {
                self.irq_status = self.irq_status | 0x01;
                raise = true;
            }
            if rstr >= FIRST_VISIBLE_LINE as i32 && rstr < LAST_VISIBLE_LINE as i32 {
                let screen_y = (rstr - FIRST_VISIBLE_LINE as i32) as u32;
                screen.screen_draw_border(screen_y, self.border_color as u32);
                match self.graphic_mode {
                    GraphicsMode::CharMode | GraphicsMode::MCCharMode => {
                        self.draw_raster_char_mode(mem, screen);
                    },
                    GraphicsMode::BitmapMode | GraphicsMode::MCBitmapMode => {
                        self.draw_raster_bitmap_mode(mem, screen);
                    },
                    _ => {},
                }
                self.draw_raster_sprites(mem, screen);
            }
            let bad = self.is_bad_line();
            self.next_raster_at = self.next_raster_at.saturating_add(
                if bad {
                    BAD_LINE_CYCLES
                } else {
                    LINE_CYCLES
                },
            );
            if rstr + 1 >= SCREEN_LINES as i32 {
                self.raster_counter_set(0);
                self.frame_c = self.frame_c.wrapping_add(1);
                frame_done = true;
            } else {
                self.raster_counter_set(rstr + 1);
            }
        }
        VicStep { raise_irq: raise, frame_done }
    }
}

} // verus!
