//! The brush tool: which pixel content a paint stroke writes.

use crate::pixel::FullPixel;
use vstd::prelude::*;

verus! {

/// How many brush choices the brush cycles over: the four categorical
/// effects and the explicit color.
pub const NB_BRUSH_CHOICES: usize = 5;

/// The pixel content the brush writes for a given choice index and
/// explicit color.
pub open spec fn brush_pixel(choice: usize, color: (u8, u8, u8)) -> FullPixel {
    if choice == 0 {
        FullPixel::BodyEmpty
    } else if choice == 1 {
        FullPixel::BodyBorder
    } else if choice == 2 {
        FullPixel::Border
    } else if choice == 3 {
        FullPixel::Body
    } else {
        FullPixel::SpecificColor(color.0, color.1, color.2)
    }
}

/// The brush tool. The fields are public so that contracts can speak of
/// them directly.
pub struct Brush {
    /// The explicit color, written when the last choice is current.
    pub color: (u8, u8, u8),
    /// Which choice is current, always below `NB_BRUSH_CHOICES`.
    pub current_action: usize,
    /// Percent chance of a body pixel where a cell is body-or-empty.
    pub body_de_ratio: u8,
    /// Percent chance of a body pixel where a cell is body-or-border.
    pub body_dr_ratio: u8,
}

/// A brush is well formed when its choice index is one of the choices.
pub open spec fn brush_wf(b: Brush) -> bool {
    b.current_action < NB_BRUSH_CHOICES
}

impl Brush {
    /// A brush on its first choice, with a white explicit color and even
    /// ratios.
    pub fn new() -> (r: Brush)
        ensures
            r == (Brush {
                color: (255, 255, 255),
                current_action: 0,
                body_de_ratio: 50,
                body_dr_ratio: 50,
            }),
            brush_wf(r),
    {
        Brush { color: (255, 255, 255), current_action: 0, body_de_ratio: 50, body_dr_ratio: 50 }
    }

    /// The pixel content a stroke writes now.
    pub fn get_current_action(&self) -> (r: FullPixel)
        requires
            brush_wf(*self),
        ensures
            r == brush_pixel(self.current_action, self.color),
    {
        if self.current_action == 0 {
            FullPixel::BodyEmpty
        } else if self.current_action == 1 {
            FullPixel::BodyBorder
        } else if self.current_action == 2 {
            FullPixel::Border
        } else if self.current_action == 3 {
            FullPixel::Body
        } else {
            let (red, green, blue) = self.color;
            FullPixel::SpecificColor(red, green, blue)
        }
    }

    /// Cycles to the next choice.
    pub fn next(&mut self)
        requires
            brush_wf(*old(self)),
        ensures
            *final(self) == (Brush {
                current_action: if old(self).current_action == NB_BRUSH_CHOICES - 1 {
                    0
                } else {
                    (old(self).current_action + 1) as usize
                },
                ..*old(self)
            }),
            brush_wf(*final(self)),
    {
        if self.current_action == NB_BRUSH_CHOICES - 1 {
            self.current_action = 0;
        } else {
            self.current_action += 1;
        }
    }

    /// Cycles to the previous choice.
    pub fn previous(&mut self)
        requires
            brush_wf(*old(self)),
        ensures
            *final(self) == (Brush {
                current_action: if old(self).current_action == 0 {
                    (NB_BRUSH_CHOICES - 1) as usize
                } else {
                    (old(self).current_action - 1) as usize
                },
                ..*old(self)
            }),
            brush_wf(*final(self)),
    {
        if self.current_action == 0 {
            self.current_action = NB_BRUSH_CHOICES - 1;
        } else {
            self.current_action -= 1;
        }
    }

    /// The explicit color.
    pub fn get_color(&self) -> (r: (u8, u8, u8))
        ensures
            r == self.color,
    {
        self.color
    }

    /// Replaces the explicit color.
    pub fn set_color(&mut self, color: (u8, u8, u8))
        ensures
            *final(self) == (Brush { color, ..*old(self) }),
    {
        self.color = color;
    }

    /// The body-or-empty ratio, in percent.
    pub fn get_body_de_ratio(&self) -> (r: u8)
        ensures
            r == self.body_de_ratio,
    {
        self.body_de_ratio
    }

    /// Tightens the body-or-empty ratio, stopping at one percent.
    pub fn incr_body_de_ratio(&mut self)
        ensures
            *final(self) == (Brush {
                body_de_ratio: if old(self).body_de_ratio > 1 {
                    (old(self).body_de_ratio - 1) as u8
                } else {
                    old(self).body_de_ratio
                },
                ..*old(self)
            }),
    {
        if self.body_de_ratio > 1 {
            self.body_de_ratio -= 1;
        }
    }

    /// Loosens the body-or-empty ratio, stopping at ninety-nine percent.
    pub fn decr_body_de_ratio(&mut self)
        ensures
            *final(self) == (Brush {
                body_de_ratio: if old(self).body_de_ratio < 99 {
                    (old(self).body_de_ratio + 1) as u8
                } else {
                    old(self).body_de_ratio
                },
                ..*old(self)
            }),
    {
        if self.body_de_ratio < 99 {
            self.body_de_ratio += 1;
        }
    }

    /// The body-or-border ratio, in percent.
    pub fn get_body_dr_ratio(&self) -> (r: u8)
        ensures
            r == self.body_dr_ratio,
    {
        self.body_dr_ratio
    }

    /// Tightens the body-or-border ratio, stopping at one percent.
    pub fn incr_body_dr_ratio(&mut self)
        ensures
            *final(self) == (Brush {
                body_dr_ratio: if old(self).body_dr_ratio > 1 {
                    (old(self).body_dr_ratio - 1) as u8
                } else {
                    old(self).body_dr_ratio
                },
                ..*old(self)
            }),
    {
        if self.body_dr_ratio > 1 {
            self.body_dr_ratio -= 1;
        }
    }

    /// Loosens the body-or-border ratio, stopping at ninety-nine percent.
    pub fn drcr_body_dr_ratio(&mut self)
        ensures
            *final(self) == (Brush {
                body_dr_ratio: if old(self).body_dr_ratio < 99 {
                    (old(self).body_dr_ratio + 1) as u8
                } else {
                    old(self).body_dr_ratio
                },
                ..*old(self)
            }),
    {
        if self.body_dr_ratio < 99 {
            self.body_dr_ratio += 1;
        }
    }
}

} // verus!
