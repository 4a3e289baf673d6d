//! The editor of how many textures one generation produces.

use crate::setter::{digit_of, is_digit, triple_val, Cursor, CursorV};
use vstd::prelude::*;

verus! {

/// Number of digit characters of the buffer.
pub const NUMBER_LEN: usize = 3;

/// A generation number buffer is well formed when it holds three digits
/// whose value keeps between the bounds, and the cursor stands on a
/// digit.
pub open spec fn number_wf(c: CursorV) -> bool {
    &&& c.value.len() == NUMBER_LEN
    &&& c.pos < NUMBER_LEN
    &&& forall|i: int| 0 <= i < NUMBER_LEN ==> is_digit(#[trigger] c.value[i])
    &&& c.min_value <= triple_val(c.value, 0) <= c.max_value
    &&& c.min_value == 1
    &&& c.max_value == 500
}

/// What one keystroke does to the buffer: the digit replaces the
/// character under the cursor if the whole number stays between the
/// bounds, and the cursor then moves right; otherwise nothing changes.
pub open spec fn number_set(c: CursorV, number: char) -> CursorV {
    let replaced = c.value.update(c.pos as int, number);
    if c.min_value <= triple_val(replaced, 0) && triple_val(replaced, 0) <= c.max_value {
        CursorV {
            value: replaced,
            pos: if c.pos + 1 < c.value.len() {
                (c.pos + 1) as usize
            } else {
                c.pos
            },
            ..c
        }
    } else {
        c
    }
}

/// A customizable number of generated textures, edited digit by digit.
pub struct GenerationNumber {
    cursor: Cursor,
}

impl View for GenerationNumber {
    type V = CursorV;

    closed spec fn view(&self) -> CursorV {
        self.cursor@
    }
}

impl GenerationNumber {
    /// A buffer holding one, with the cursor on its first digit.
    pub fn new() -> (r: GenerationNumber)
        ensures
            r@ == (CursorV { pos: 0, value: seq!['0', '0', '1'], min_value: 1, max_value: 500 }),
            number_wf(r@),
    {
        let mut value: Vec<char> = Vec::new();
        value.push('0');
        value.push('0');
        value.push('1');
        proof {
            assert(value@ =~= seq!['0', '0', '1']);
        }
        GenerationNumber { cursor: Cursor::new(value, 1, 500) }
    }

    /// Where the cursor stands.
    pub fn get_pos(&self) -> (r: usize)
        ensures
            r == self@.pos,
    {
        self.cursor.get_pos()
    }

    /// Whether the cursor is in the lit half of its blink period. The
    /// result depends on the clock alone.
    pub fn cursor_is_blinking(&self) -> bool {
        self.cursor.cursor_is_blinking()
    }

    /// Puts the cursor back on the first digit.
    pub fn reset_cursor(&mut self)
        ensures
            final(self)@ == (CursorV { pos: 0, ..old(self)@ }),
    {
        self.cursor.reset_cursor();
    }

    /// Moves the cursor one digit left, stopping at the first.
    pub fn cursor_left(&mut self)
        ensures
            final(self)@ == (CursorV {
                pos: if old(self)@.pos > 0 {
                    (old(self)@.pos - 1) as usize
                } else {
                    0
                },
                ..old(self)@
            }),
    {
        self.cursor.cursor_left();
    }

    /// Moves the cursor one digit right, stopping at the last.
    pub fn cursor_right(&mut self)
        requires
            old(self)@.value.len() >= 1,
        ensures
            final(self)@ == (CursorV {
                pos: if old(self)@.pos + 1 < old(self)@.value.len() {
                    (old(self)@.pos + 1) as usize
                } else {
                    old(self)@.pos
                },
                ..old(self)@
            }),
    {
        self.cursor.cursor_right();
    }

    /// The buffer as a string.
    pub fn get_value(&self) -> (r: String)
        requires
            number_wf(self@),
        ensures
            r@ == self@.value,
    {
        let mut cs: Vec<char> = Vec::new();
        cs.push(self.cursor.value[0]);
        cs.push(self.cursor.value[1]);
        cs.push(self.cursor.value[2]);
        proof {
            assert(cs@ =~= self@.value);
        }
        crate::text::chars_to_string(cs)
    }

    /// The buffer's number.
    pub fn get_number(&self) -> (r: u16)
        requires
            number_wf(self@),
        ensures
            r == triple_val(self@.value, 0),
    {
        let v = digit_of(self.cursor.value[0]) * 100 + digit_of(self.cursor.value[1]) * 10
            + digit_of(self.cursor.value[2]);
        v as u16
    }

    /// Takes one typed digit: it replaces the character under the cursor
    /// if the whole number stays between the bounds, and the cursor then
    /// moves right; otherwise the keystroke is ignored.
    pub fn set_value(&mut self, number: char)
        requires
            number_wf(old(self)@),
            is_digit(number),
        ensures
            final(self)@ == number_set(old(self)@, number),
            number_wf(final(self)@),
    {
        let pos = self.cursor.get_pos();
        let c0 = if pos == 0 {
            number
        } else {
            self.cursor.value[0]
        };
        let c1 = if pos == 1 {
            number
        } else {
            self.cursor.value[1]
        };
        let c2 = if pos == 2 {
            number
        } else {
            self.cursor.value[2]
        };
        let candidate = digit_of(c0) * 100 + digit_of(c1) * 10 + digit_of(c2);
        proof {
            let replaced = self@.value.update(pos as int, number);
            assert(replaced[0] == c0 && replaced[1] == c1 && replaced[2] == c2);
        }
        if self.cursor.min_value as u32 <= candidate && candidate <= self.cursor.max_value as u32 {
            self.cursor.value[pos] = number;
            self.cursor.cursor_right();
        }
    }
}

} // verus!
