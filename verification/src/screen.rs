//! The visible frame the VIC renders into: one 4-bit color index per pixel,
//! 403 columns by 284 lines.  The host maps indices through its palette and
//! blits the frame when a frame completes; this module only stores indices.
//! Writes outside the visible area are clipped.

use vstd::prelude::*;

verus! {

pub const VISIBLE_SCREEN_WIDTH: u32 = 403;
pub const VISIBLE_SCREEN_HEIGHT: u32 = 284;
pub const FRAME_PIXELS: usize = 403 * 284;

pub struct Screen {
    pub frame: Vec<u8>,
}

impl Screen {
    pub open spec fn wf(self) -> bool {
        self.frame@.len() == FRAME_PIXELS
    }

    /// The frame after one pixel write: the color index lands at
    /// (x, y) when that position is visible, and nowhere otherwise.
    pub open spec fn spec_after_pixel(frame: Seq<u8>, x: u32, y: u32, color: u32) -> Seq<u8> {
        if x < VISIBLE_SCREEN_WIDTH && y < VISIBLE_SCREEN_HEIGHT {
            frame.update(y * VISIBLE_SCREEN_WIDTH + x, (color & 0xf) as u8)
        } else {
            frame
        }
    }

    pub fn new() -> (s: Screen)
        ensures
            s.wf(),
            s.frame@ == Seq::new(FRAME_PIXELS as nat, |i: int| 0u8),
    {
        let s = Screen { frame: vec![0u8; FRAME_PIXELS] };
        proof {
            assert(s.frame@ =~= Seq::new(FRAME_PIXELS as nat, |i: int| 0u8));
        }
        s
    }

    /// Writes one color index at (x, y); positions outside the visible
    /// frame are clipped.
    pub fn screen_update_pixel(&mut self, x: u32, y: u32, color: u32)
        requires
            old(self).wf(),
        ensures
            final(self).wf(),
            final(self).frame@ == Screen::spec_after_pixel(old(self).frame@, x, y, color),
    {
        if x < VISIBLE_SCREEN_WIDTH && y < VISIBLE_SCREEN_HEIGHT {
            proof {
                assert((y as usize) * 403 + (x as usize) < FRAME_PIXELS) by (nonlinear_arith)
                    requires
                        y < 284,
                        x < 403,
                ;
            }
            let idx: usize = (y as usize) * 403 + (x as usize);
            self.frame[idx] = (color & 0xf) as u8;
        }
    }

    /// Fills `n` consecutive pixels of line `y` starting at column `x`,
    /// clipped to the visible frame.
    pub fn screen_draw_rect(&mut self, x: u32, y: u32, n: u32, color: u32)
        requires
            old(self).wf(),
        ensures
            final(self).wf(),
            forall|j: int|
                0 <= j < FRAME_PIXELS ==> final(self).frame@[j] == if y < VISIBLE_SCREEN_HEIGHT
                    && y * VISIBLE_SCREEN_WIDTH + x <= j && j < y * VISIBLE_SCREEN_WIDTH + vstd::math::min(
                    x + n,
                    VISIBLE_SCREEN_WIDTH as int,
                ) {
                    (color & 0xf) as u8
                } else {
                    old(self).frame@[j]
                },
    {
        let mut i: u32 = 0;
        while i < n
            invariant
                self.wf(),
                i <= n,
                forall|j: int|
                    0 <= j < FRAME_PIXELS ==> self.frame@[j] == if y < VISIBLE_SCREEN_HEIGHT && y
                        * VISIBLE_SCREEN_WIDTH + x <= j && j < y * VISIBLE_SCREEN_WIDTH
                        + vstd::math::min(x + i, VISIBLE_SCREEN_WIDTH as int) {
                        (color & 0xf) as u8
                    } else {
                        old(self).frame@[j]
                    },
            decreases n - i,
        {
            if x <= u32::MAX - i {
                self.screen_update_pixel(x + i, y, color);
            }
            i += 1;
        }
    }

    /// Fills the whole visible line `y` with one color index.
    pub fn screen_draw_border(&mut self, y: u32, color: u32)
        requires
            old(self).wf(),
        ensures
            final(self).wf(),
            forall|j: int|
                0 <= j < FRAME_PIXELS ==> final(self).frame@[j] == if y < VISIBLE_SCREEN_HEIGHT && y
                    * VISIBLE_SCREEN_WIDTH <= j && j < (y + 1) * VISIBLE_SCREEN_WIDTH {
                    (color & 0xf) as u8
                } else {
                    old(self).frame@[j]
                },
    {
        self.screen_draw_rect(0, y, VISIBLE_SCREEN_WIDTH, color);
    }
}

} // verus!
