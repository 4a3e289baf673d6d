//! The editor of a grid's name.

use crate::setter::{StringCursor, StringCursorV};
use crate::tools::NAME_LEN;
use vstd::prelude::*;

verus! {

/// A name buffer is well formed when the cursor stays within the text and
/// the text within the fixed name width.
pub open spec fn gridname_wf(c: StringCursorV) -> bool {
    &&& c.pos <= c.value.len()
    &&& c.value.len() <= NAME_LEN
    &&& c.max_length == NAME_LEN
}

/// A customizable name for a grid, edited character by character.
pub struct GridName {
    cursor: StringCursor,
}

impl View for GridName {
    type V = StringCursorV;

    closed spec fn view(&self) -> StringCursorV {
        self.cursor@
    }
}

impl GridName {
    /// An empty name buffer.
    pub fn new() -> (r: GridName)
        ensures
            r@ == (StringCursorV { pos: 0, value: Seq::empty(), max_length: NAME_LEN }),
            gridname_wf(r@),
    {
        GridName { cursor: StringCursor::new(NAME_LEN) }
    }

    /// Where the cursor stands.
    pub fn get_pos(&self) -> (r: usize)
        ensures
            r == self@.pos,
    {
        self.cursor.get_pos()
    }

    /// Whether the cursor is in the lit half of its blink period. The
    /// result depends on the clock alone.
    pub fn cursor_is_blinking(&self) -> bool {
        self.cursor.cursor_is_blinking()
    }

    /// Moves the cursor one character left, stopping at the first.
    pub fn cursor_left(&mut self)
        ensures
            final(self)@ == (StringCursorV {
                pos: if old(self)@.pos > 0 {
                    (old(self)@.pos - 1) as usize
                } else {
                    0
                },
                ..old(self)@
            }),
    {
        self.cursor.cursor_left();
    }

    /// Moves the cursor one character right, stopping past the last.
    pub fn cursor_right(&mut self)
        ensures
            final(self)@ == (StringCursorV {
                pos: if old(self)@.pos < old(self)@.value.len() {
                    (old(self)@.pos + 1) as usize
                } else {
                    old(self)@.pos
                },
                ..old(self)@
            }),
    {
        self.cursor.cursor_right();
    }

    /// The name typed so far.
    pub fn get_value(&self) -> (r: String)
        ensures
            r@ == self@.value,
    {
        let mut cs: Vec<char> = Vec::new();
        let mut i: usize = 0;
        while i < self.cursor.value.len()
            invariant
                i <= self.cursor.value@.len(),
                cs@ =~= self.cursor.value@.take(i as int),
                self.cursor.value@ == self@.value,
            decreases self.cursor.value@.len() - i,
        {
            cs.push(self.cursor.value[i]);
            i += 1;
        }
        proof {
            assert(cs@ =~= self@.value);
        }
        crate::text::chars_to_string(cs)
    }

    /// Removes the character left of the cursor, if any, and moves the
    /// cursor onto its place.
    pub fn backspace(&mut self)
        requires
            gridname_wf(old(self)@),
        ensures
            final(self)@ == if old(self)@.pos > 0 {
                StringCursorV {
                    pos: (old(self)@.pos - 1) as usize,
                    value: old(self)@.value.remove(old(self)@.pos - 1),
                    ..old(self)@
                }
            } else {
                old(self)@
            },
            gridname_wf(final(self)@),
    {
        if self.cursor.pos > 0 {
            self.cursor.cursor_left();
            let index = self.cursor.pos;
            self.cursor.value.remove(index);
        }
    }

    /// Empties the buffer and puts the cursor back at the start.
    pub fn reset(&mut self)
        ensures
            final(self)@ == (StringCursorV { pos: 0, value: Seq::empty(), ..old(self)@ }),
            gridname_wf(final(self)@) == (old(self)@.max_length == NAME_LEN),
    {
        self.cursor.value.clear();
        self.cursor.pos = 0;
        proof {
            assert(self@.value =~= Seq::<char>::empty());
        }
    }

    /// Takes one typed character: it is inserted at the cursor while the
    /// name stays within the fixed width, and the cursor then moves
    /// right; otherwise the keystroke is ignored.
    pub fn set_value(&mut self, letter: char)
        requires
            gridname_wf(old(self)@),
        ensures
            final(self)@ == if old(self)@.value.len() < NAME_LEN {
                StringCursorV {
                    pos: (old(self)@.pos + 1) as usize,
                    value: old(self)@.value.insert(old(self)@.pos as int, letter),
                    ..old(self)@
                }
            } else {
                old(self)@
            },
            gridname_wf(final(self)@),
    {
        if self.cursor.value.len() < self.cursor.max_length {
            let index = self.cursor.pos;
            self.cursor.value.insert(index, letter);
            self.cursor.cursor_right();
        }
    }
}

} // verus!
