//! The editor of the brush's explicit color: three digit triplets.

use crate::setter::{digit_of, is_digit, triple_val, Cursor, CursorV};
use vstd::prelude::*;

verus! {

/// Number of digit characters of the color buffer: three triplets.
pub const COLOR_LEN: usize = 9;

/// A color buffer is well formed when it holds nine digits, each of its
/// three triplets keeps to the bound, the bounds are the byte range and
/// the cursor stands on a digit.
pub open spec fn color_wf(c: CursorV) -> bool {
    &&& c.value.len() == COLOR_LEN
    &&& c.pos < COLOR_LEN
    &&& forall|i: int| 0 <= i < COLOR_LEN ==> is_digit(#[trigger] c.value[i])
    &&& triple_val(c.value, 0) <= c.max_value
    &&& triple_val(c.value, 3) <= c.max_value
    &&& triple_val(c.value, 6) <= c.max_value
    &&& c.min_value == 0
    &&& c.max_value == 255
}

/// What one keystroke does to the color buffer: the digit replaces the
/// character under the cursor if its triplet stays within the bound, and
/// the cursor then moves right; otherwise nothing changes.
pub open spec fn color_set(c: CursorV, number: char) -> CursorV {
    let replaced = c.value.update(c.pos as int, number);
    let base = (c.pos as int / 3) * 3;
    if triple_val(replaced, base) <= c.max_value {
        CursorV {
            value: replaced,
            pos: if c.pos + 1 < c.value.len() {
                (c.pos + 1) as usize
            } else {
                c.pos
            },
            ..c
        }
    } else {
        c
    }
}

/// A customizable color usable by the brush tool, edited digit by digit.
pub struct BrushColor {
    cursor: Cursor,
}

impl View for BrushColor {
    type V = CursorV;

    closed spec fn view(&self) -> CursorV {
        self.cursor@
    }
}

impl BrushColor {
    /// A color buffer holding white, with the cursor on its first digit.
    pub fn new() -> (r: BrushColor)
        ensures
            r@ == (CursorV {
                pos: 0,
                value: seq!['2', '5', '5', '2', '5', '5', '2', '5', '5'],
                min_value: 0,
                max_value: 255,
            }),
            color_wf(r@),
    {
        let mut value: Vec<char> = Vec::new();
        value.push('2');
        value.push('5');
        value.push('5');
        value.push('2');
        value.push('5');
        value.push('5');
        value.push('2');
        value.push('5');
        value.push('5');
        proof {
            assert(value@ =~= seq!['2', '5', '5', '2', '5', '5', '2', '5', '5']);
        }
        BrushColor { cursor: Cursor::new(value, 0, 255) }
    }

    /// Where the cursor stands.
    pub fn get_pos(&self) -> (r: usize)
        ensures
            r == self@.pos,
    {
        self.cursor.get_pos()
    }

    /// Whether the cursor is in the lit half of its blink period. The
    /// result depends on the clock alone.
    pub fn cursor_is_blinking(&self) -> bool {
        self.cursor.cursor_is_blinking()
    }

    /// Puts the cursor back on the first digit.
    pub fn reset_cursor(&mut self)
        ensures
            final(self)@ == (CursorV { pos: 0, ..old(self)@ }),
    {
        self.cursor.reset_cursor();
    }

    /// Moves the cursor one digit left, stopping at the first.
    pub fn cursor_left(&mut self)
        ensures
            final(self)@ == (CursorV {
                pos: if old(self)@.pos > 0 {
                    (old(self)@.pos - 1) as usize
                } else {
                    0
                },
                ..old(self)@
            }),
    {
        self.cursor.cursor_left();
    }

    /// Moves the cursor one digit right, stopping at the last.
    pub fn cursor_right(&mut self)
        requires
            old(self)@.value.len() >= 1,
        ensures
            final(self)@ == (CursorV {
                pos: if old(self)@.pos + 1 < old(self)@.value.len() {
                    (old(self)@.pos + 1) as usize
                } else {
                    old(self)@.pos
                },
                ..old(self)@
            }),
    {
        self.cursor.cursor_right();
    }

    /// The three triplets as strings: red, green and blue.
    pub fn get_value(&self) -> (r: (String, String, String))
        requires
            color_wf(self@),
        ensures
            r.0@ == self@.value.subrange(0, 3),
            r.1@ == self@.value.subrange(3, 6),
            r.2@ == self@.value.subrange(6, 9),
    {
        let mut red: Vec<char> = Vec::new();
        red.push(self.cursor.value[0]);
        red.push(self.cursor.value[1]);
        red.push(self.cursor.value[2]);
        let mut green: Vec<char> = Vec::new();
        green.push(self.cursor.value[3]);
        green.push(self.cursor.value[4]);
        green.push(self.cursor.value[5]);
        let mut blue: Vec<char> = Vec::new();
        blue.push(self.cursor.value[6]);
        blue.push(self.cursor.value[7]);
        blue.push(self.cursor.value[8]);
        proof {
            assert(red@ =~= self@.value.subrange(0, 3));
            assert(green@ =~= self@.value.subrange(3, 6));
            assert(blue@ =~= self@.value.subrange(6, 9));
        }
        (
            crate::text::chars_to_string(red),
            crate::text::chars_to_string(green),
            crate::text::chars_to_string(blue),
        )
    }

    /// The color as a byte triple.
    pub fn get_rgb(&self) -> (r: (u8, u8, u8))
        requires
            color_wf(self@),
        ensures
            r.0 == triple_val(self@.value, 0),
            r.1 == triple_val(self@.value, 3),
            r.2 == triple_val(self@.value, 6),
    {
        let red = digit_of(self.cursor.value[0]) * 100 + digit_of(self.cursor.value[1]) * 10
            + digit_of(self.cursor.value[2]);
        let green = digit_of(self.cursor.value[3]) * 100 + digit_of(self.cursor.value[4]) * 10
            + digit_of(self.cursor.value[5]);
        let blue = digit_of(self.cursor.value[6]) * 100 + digit_of(self.cursor.value[7]) * 10
            + digit_of(self.cursor.value[8]);
        (red as u8, green as u8, blue as u8)
    }

    /// Takes one typed digit: it replaces the character under the cursor
    /// if its triplet stays within the byte bound, and the cursor then
    /// moves right; otherwise the keystroke is ignored.
    pub fn set_value(&mut self, number: char)
        requires
            color_wf(old(self)@),
            is_digit(number),
        ensures
            final(self)@ == color_set(old(self)@, number),
            color_wf(final(self)@),
    {
        let pos = self.cursor.get_pos();
        let base = (pos / 3) * 3;
        let c0 = if pos == base {
            number
        } else {
            self.cursor.value[base]
        };
        let c1 = if pos == base + 1 {
            number
        } else {
            self.cursor.value[base + 1]
        };
        let c2 = if pos == base + 2 {
            number
        } else {
            self.cursor.value[base + 2]
        };
        let candidate = digit_of(c0) * 100 + digit_of(c1) * 10 + digit_of(c2);
        proof {
            let replaced = self@.value.update(pos as int, number);
            assert(base == (pos as int / 3) * 3);
            assert(replaced[base as int] == c0);
            assert(replaced[base as int + 1] == c1);
            assert(replaced[base as int + 2] == c2);
        }
        if candidate <= self.cursor.max_value as u32 {
            self.cursor.value[pos] = number;
            self.cursor.cursor_right();
            proof {
                let v = self@.value;
                assert(base == 0 || base == 3 || base == 6);
                assert(triple_val(v, 0) <= 255 && triple_val(v, 3) <= 255 && triple_val(v, 6)
                    <= 255);
            }
        }
    }
}

} // verus!
