//! Cursors for the fields the user edits one character at a time.

use vstd::prelude::*;

verus! {

/// The timestamp type of the blink clock. Verus sees it as opaque; only
/// the trusted functions below touch it.
#[verifier::external_type_specification]
#[verifier::external_body]
pub struct ExInstant(std::time::Instant);

/// Relies on `Instant::now`: an opaque timestamp of the moment of the
/// call. Nothing can be promised of a clock reading.
#[verifier::external_body]
fn instant_now() -> std::time::Instant {
    std::time::Instant::now()
}

/// Relies on `Instant::elapsed`: the span since the timestamp. Nothing can
/// be promised of a clock reading.
#[verifier::external_body]
fn instant_elapsed(i: &std::time::Instant) -> core::time::Duration {
    i.elapsed()
}

/// Relies on `Duration::as_millis`: the span in whole milliseconds,
/// truncated to `u64`. Nothing can be promised of a clock reading.
#[verifier::external_body]
fn duration_millis(d: &core::time::Duration) -> u64 {
    let ms = d.as_millis();
    if ms > u64::MAX as u128 {
        u64::MAX
    } else {
        ms as u64
    }
}

/// A setter consumes one typed character at a time.
pub trait Setter {
    fn set_value(&mut self, value: char);
}

/// Whether a character is a decimal digit.
pub open spec fn is_digit(c: char) -> bool {
    48 <= c as u32 <= 57
}

/// The value of a decimal digit character.
pub open spec fn digit(c: char) -> int {
    c as u32 - 48
}

/// The number written by the three digit characters starting at `k`.
pub open spec fn triple_val(s: Seq<char>, k: int) -> int
    recommends
        0 <= k,
        k + 3 <= s.len(),
{
    digit(s[k]) * 100 + digit(s[k + 1]) * 10 + digit(s[k + 2])
}

/// The value of a decimal digit character, in executable code.
pub fn digit_of(c: char) -> (r: u32)
    requires
        is_digit(c),
    ensures
        r == digit(c),
{
    (c as u32) - 48
}

/// The abstract state of a numeric cursor: the blink clock is left out.
#[verifier::ext_equal]
pub ghost struct CursorV {
    pub pos: usize,
    pub value: Seq<char>,
    pub min_value: u16,
    pub max_value: u16,
}

/// A numeric cursor: a fixed-length digit buffer, a position in it, the
/// bounds the buffer's number must keep, and a blink clock.
pub struct Cursor {
    pub pos: usize,
    pub value: Vec<char>,
    pub min_value: u16,
    pub max_value: u16,
    pub instant: std::time::Instant,
}

impl View for Cursor {
    type V = CursorV;

    open spec fn view(&self) -> CursorV {
        CursorV { pos: self.pos, value: self.value@, min_value: self.min_value, max_value: self.max_value }
    }
}

impl Cursor {
    /// A cursor at the first character of the given buffer.
    pub fn new(default_value: Vec<char>, min: u16, max: u16) -> (r: Cursor)
        ensures
            r@ == (CursorV { pos: 0, value: default_value@, min_value: min, max_value: max }),
    {
        Cursor { pos: 0, value: default_value, min_value: min, max_value: max, instant: instant_now() }
    }

    /// Where the cursor stands.
    pub fn get_pos(&self) -> (r: usize)
        ensures
            r == self@.pos,
    {
        self.pos
    }

    /// Whether the cursor is in the lit half of its blink period. The
    /// result depends on the clock alone.
    pub fn cursor_is_blinking(&self) -> bool {
        (duration_millis(&instant_elapsed(&self.instant)) % 1000) < 500
    }

    /// Puts the cursor back on the first character.
    pub fn reset_cursor(&mut self)
        ensures
            final(self)@ == (CursorV { pos: 0, ..old(self)@ }),
    {
        self.pos = 0;
        self.instant = instant_now();
    }

    /// Moves the cursor one character left, stopping at the first.
    pub fn cursor_left(&mut self)
        ensures
            final(self)@ == (CursorV {
                pos: if old(self)@.pos > 0 {
                    (old(self)@.pos - 1) as usize
                } else {
                    0
                },
                ..old(self)@
            }),
    {
        if self.pos > 0 {
            self.pos -= 1;
        }
        self.instant = instant_now();
    }

    /// Moves the cursor one character right, stopping at the last.
    pub fn cursor_right(&mut self)
        requires
            old(self)@.value.len() >= 1,
        ensures
            final(self)@ == (CursorV {
                pos: if old(self)@.pos + 1 < old(self)@.value.len() {
                    (old(self)@.pos + 1) as usize
                } else {
                    old(self)@.pos
                },
                ..old(self)@
            }),
    {
        let last = self.value.len() - 1;
        if self.pos < last {
            self.pos += 1;
        }
        self.instant = instant_now();
    }
}

/// The abstract state of an alphabetic cursor: the blink clock is left
/// out.
#[verifier::ext_equal]
pub ghost struct StringCursorV {
    pub pos: usize,
    pub value: Seq<char>,
    pub max_length: usize,
}

/// An alphabetic cursor: a growable character buffer, a position in it, a
/// length bound, and a blink clock.
pub struct StringCursor {
    pub pos: usize,
    pub value: Vec<char>,
    pub max_length: usize,
    pub instant: std::time::Instant,
}

impl View for StringCursor {
    type V = StringCursorV;

    open spec fn view(&self) -> StringCursorV {
        StringCursorV { pos: self.pos, value: self.value@, max_length: self.max_length }
    }
}

impl StringCursor {
    /// An empty buffer whose length stays within the given bound.
    pub fn new(max_length: usize) -> (r: StringCursor)
        ensures
            r@ == (StringCursorV { pos: 0, value: Seq::empty(), max_length }),
    {
        let r = StringCursor { pos: 0, value: Vec::new(), max_length, instant: instant_now() };
        proof {
            assert(r@.value =~= Seq::<char>::empty());
            assert(r@ =~= (StringCursorV { pos: 0, value: Seq::empty(), max_length }));
        }
        r
    }

    /// Where the cursor stands.
    pub fn get_pos(&self) -> (r: usize)
        ensures
            r == self@.pos,
    {
        self.pos
    }

    /// Whether the cursor is in the lit half of its blink period. The
    /// result depends on the clock alone.
    pub fn cursor_is_blinking(&self) -> bool {
        (duration_millis(&instant_elapsed(&self.instant)) % 1000) < 500
    }

    /// Moves the cursor one character left, stopping at the first.
    pub fn cursor_left(&mut self)
        ensures
            final(self)@ == (StringCursorV {
                pos: if old(self)@.pos > 0 {
                    (old(self)@.pos - 1) as usize
                } else {
                    0
                },
                ..old(self)@
            }),
    {
        if self.pos > 0 {
            self.pos -= 1;
        }
        self.instant = instant_now();
    }

    /// Moves the cursor one character right, stopping past the last.
    pub fn cursor_right(&mut self)
        ensures
            final(self)@ == (StringCursorV {
                pos: if old(self)@.pos < old(self)@.value.len() {
                    (old(self)@.pos + 1) as usize
                } else {
                    old(self)@.pos
                },
                ..old(self)@
            }),
    {
        let len = self.value.len();
        if self.pos < len {
            self.pos += 1;
        }
        self.instant = instant_now();
    }
}

} // verus!
