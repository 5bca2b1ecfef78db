//! The keyboard-matrix state the first CIA chip scans: eight row bytes with
//! 0 = pressed and 1 = released, and a queue of synthetic key events that
//! are applied one at a time, paced against the CPU cycle counter, so typed
//! characters are not swallowed by the firmware's scan loop.  Mapping host
//! key codes to matrix positions is the host's business; this module works
//! on plain row and column numbers.

use vstd::prelude::*;

verus! {

/// Cycles to wait between two queued key events.
pub const WAIT_DURATION: u32 = 18000;

/// A key transition: the key at a matrix position goes down or up.
#[derive(Clone, Copy, PartialEq, Eq, Structural, Debug)]
pub enum KeyEvent {
    Press,
    Release,
}

pub struct Keyboard {
    pub keyboard_matrix: [u8; 8],
    pub key_event_queue: Vec<(KeyEvent, u8, u8)>,
    pub next_key_event_at: u32,
}

/// The matrix row byte after a key transition at (row, col): a press
/// clears the column bit, a release sets it.
pub open spec fn spec_row_after(row_bits: u8, col: u8, ev: KeyEvent) -> u8 {
    match ev {
        KeyEvent::Press => row_bits & !((1u8 << col) as u8),
        KeyEvent::Release => row_bits | ((1u8 << col) as u8),
    }
}

impl Keyboard {
    pub open spec fn wf(self) -> bool {
        forall|i: int|
            0 <= i < self.key_event_queue@.len() ==> (#[trigger] self.key_event_queue@[i]).1 < 8
                && self.key_event_queue@[i].2 < 8
    }

    pub fn new() -> (k: Keyboard)
        ensures
            k.wf(),
            k.keyboard_matrix@ == Seq::new(8, |i: int| 0xffu8),
            k.key_event_queue@.len() == 0,
            k.next_key_event_at == 0,
    {
        let k = Keyboard {
            keyboard_matrix: [0xffu8; 8],
            key_event_queue: Vec::new(),
            next_key_event_at: 0,
        };
        proof {
            assert(k.keyboard_matrix@ =~= Seq::new(8, |i: int| 0xffu8));
        }
        k
    }

    /// The matrix row selected by a column line: 0 = pressed keys.
    pub fn keyboard_matrix_row(&self, col: usize) -> (r: u8)
        requires
            col < 8,
        ensures
            r == self.keyboard_matrix@[col as int],
    {
        self.keyboard_matrix[col]
    }

    /// Records a key going down at a matrix position.
    pub fn handle_keydown(&mut self, row: u8, col: u8)
        requires
            row < 8,
            col < 8,
        ensures
            final(self).keyboard_matrix@ == old(self).keyboard_matrix@.update(
                row as int,
                spec_row_after(old(self).keyboard_matrix@[row as int], col, KeyEvent::Press),
            ),
            final(self).key_event_queue@ == old(self).key_event_queue@,
            final(self).next_key_event_at == old(self).next_key_event_at,
    {
        let mask: u8 = !((1u8 << col) as u8);
        self.keyboard_matrix[row as usize] = self.keyboard_matrix[row as usize] & mask;
    }

    /// Records a key going up at a matrix position.
    pub fn handle_keyup(&mut self, row: u8, col: u8)
        requires
            row < 8,
            col < 8,
        ensures
            final(self).keyboard_matrix@ == old(self).keyboard_matrix@.update(
                row as int,
                spec_row_after(old(self).keyboard_matrix@[row as int], col, KeyEvent::Release),
            ),
            final(self).key_event_queue@ == old(self).key_event_queue@,
            final(self).next_key_event_at == old(self).next_key_event_at,
    {
        let mask: u8 = (1u8 << col) as u8;
        self.keyboard_matrix[row as usize] = self.keyboard_matrix[row as usize] | mask;
    }

    /// Appends a synthetic key event to the paced queue.
    pub fn queue_key_event(&mut self, event: KeyEvent, row: u8, col: u8)
        requires
            old(self).wf(),
            row < 8,
            col < 8,
        ensures
            final(self).wf(),
            final(self).key_event_queue@ == old(self).key_event_queue@.push((event, row, col)),
            final(self).keyboard_matrix@ == old(self).keyboard_matrix@,
            final(self).next_key_event_at == old(self).next_key_event_at,
    {
        self.key_event_queue.push((event, row, col));
    }

    /// Applies the next queued key event once the CPU cycle counter has
    /// passed the pacing mark, and re-arms the mark.
    pub fn process_key_event(&mut self, cycles: u32)
        requires
            old(self).wf(),
        ensures
            final(self).wf(),
            if old(self).key_event_queue@.len() > 0 && cycles > old(self).next_key_event_at {
                let ev = old(self).key_event_queue@[0];
                &&& final(self).key_event_queue@ == old(self).key_event_queue@.drop_first()
                &&& final(self).next_key_event_at == cycles.saturating_add(WAIT_DURATION)
                &&& final(self).keyboard_matrix@ == old(self).keyboard_matrix@.update(
                    ev.1 as int,
                    spec_row_after(old(self).keyboard_matrix@[ev.1 as int], ev.2, ev.0),
                )
            } else {
                *final(self) == *old(self)
            },
    {
        if self.key_event_queue.len() > 0 && cycles > self.next_key_event_at {
            let (event, row, col) = self.key_event_queue.remove(0);
            match event {
                KeyEvent::Press => self.handle_keydown(row, col),
                KeyEvent::Release => self.handle_keyup(row, col),
            }
            self.next_key_event_at = cycles.saturating_add(WAIT_DURATION);
            proof {
                assert(self.key_event_queue@ =~= old(self).key_event_queue@.drop_first());
            }
        }
    }

    /// Queues the key strokes that type one character: the matrix position
    /// of its key, preceded by the left shift key where the character
    /// needs it.  Characters without a key are ignored.
    pub fn type_character(&mut self, character: char)
        requires
            old(self).wf(),
        ensures
            final(self).wf(),
            final(self).keyboard_matrix@ == old(self).keyboard_matrix@,
    {
        let keys: [(u8, u8); 2];
        let n: usize;
        match character {
            'A' => { keys = [(1, 2), (0, 0)]; n = 1; },
            'B' => { keys = [(3, 4), (0, 0)]; n = 1; },
            'C' => { keys = [(2, 4), (0, 0)]; n = 1; },
            'D' => { keys = [(2, 2), (0, 0)]; n = 1; },
            'E' => { keys = [(1, 6), (0, 0)]; n = 1; },
            'F' => { keys = [(2, 5), (0, 0)]; n = 1; },
            'G' => { keys = [(3, 2), (0, 0)]; n = 1; },
            'H' => { keys = [(3, 5), (0, 0)]; n = 1; },
            'I' => { keys = [(4, 1), (0, 0)]; n = 1; },
            'J' => { keys = [(4, 2), (0, 0)]; n = 1; },
            'K' => { keys = [(4, 5), (0, 0)]; n = 1; },
            'L' => { keys = [(5, 2), (0, 0)]; n = 1; },
            'M' => { keys = [(4, 4), (0, 0)]; n = 1; },
            'N' => { keys = [(4, 7), (0, 0)]; n = 1; },
            'O' => { keys = [(4, 6), (0, 0)]; n = 1; },
            'P' => { keys = [(5, 1), (0, 0)]; n = 1; },
            'Q' => { keys = [(7, 6), (0, 0)]; n = 1; },
            'R' => { keys = [(2, 1), (0, 0)]; n = 1; },
            'S' => { keys = [(1, 5), (0, 0)]; n = 1; },
            'T' => { keys = [(2, 6), (0, 0)]; n = 1; },
            'U' => { keys = [(3, 6), (0, 0)]; n = 1; },
            'V' => { keys = [(3, 7), (0, 0)]; n = 1; },
            'W' => { keys = [(1, 1), (0, 0)]; n = 1; },
            'X' => { keys = [(2, 7), (0, 0)]; n = 1; },
            'Y' => { keys = [(3, 1), (0, 0)]; n = 1; },
            'Z' => { keys = [(1, 4), (0, 0)]; n = 1; },
            '1' => { keys = [(7, 0), (0, 0)]; n = 1; },
            '2' => { keys = [(7, 3), (0, 0)]; n = 1; },
            '3' => { keys = [(1, 0), (0, 0)]; n = 1; },
            '4' => { keys = [(1, 3), (0, 0)]; n = 1; },
            '5' => { keys = [(2, 0), (0, 0)]; n = 1; },
            '6' => { keys = [(2, 3), (0, 0)]; n = 1; },
            '7' => { keys = [(3, 0), (0, 0)]; n = 1; },
            '8' => { keys = [(3, 3), (0, 0)]; n = 1; },
            '9' => { keys = [(4, 0), (0, 0)]; n = 1; },
            '0' => { keys = [(4, 3), (0, 0)]; n = 1; },
            '\n' => { keys = [(0, 1), (0, 0)]; n = 1; },
            ' ' => { keys = [(7, 4), (0, 0)]; n = 1; },
            ',' => { keys = [(5, 7), (0, 0)]; n = 1; },
            '.' => { keys = [(5, 4), (0, 0)]; n = 1; },
            '/' => { keys = [(6, 7), (0, 0)]; n = 1; },
            ';' => { keys = [(6, 2), (0, 0)]; n = 1; },
            '=' => { keys = [(6, 5), (0, 0)]; n = 1; },
            '-' => { keys = [(5, 3), (0, 0)]; n = 1; },
            ':' => { keys = [(5, 5), (0, 0)]; n = 1; },
            '+' => { keys = [(5, 0), (0, 0)]; n = 1; },
            '*' => { keys = [(6, 1), (0, 0)]; n = 1; },
            '@' => { keys = [(5, 6), (0, 0)]; n = 1; },
            '(' => { keys = [(1, 7), (3, 3)]; n = 2; },
            ')' => { keys = [(1, 7), (4, 0)]; n = 2; },
            '<' => { keys = [(1, 7), (5, 7)]; n = 2; },
            '>' => { keys = [(1, 7), (5, 4)]; n = 2; },
            '"' => { keys = [(1, 7), (7, 3)]; n = 2; },
            '$' => { keys = [(1, 7), (1, 3)]; n = 2; },
            _ => {
                return ;
            },
        }
        let mut i: usize = 0;
        while i < n && i < 2
            invariant
                self.wf(),
                self.keyboard_matrix@ == old(self).keyboard_matrix@,
                self.next_key_event_at == old(self).next_key_event_at,
            decreases n - i,
        {
            let (row, col) = keys[i];
            if row < 8 && col < 8 {
                self.queue_key_event(KeyEvent::Press, row, col);
                self.queue_key_event(KeyEvent::Release, row, col);
            }
            i += 1;
        }
    }
}

} // verus!
