//! The parameters of texture generation.

use crate::palette::PaletteGeneration;
use vstd::prelude::*;

verus! {

/// Number of pixel-ratio steps the setting cycles over.
pub const NB_PIXEL_RATIO_SETTINGS: usize = 15;

/// Number of offered texture formats.
pub const NB_FORMAT: usize = 2;

/// The texture file formats a generation task can write. Encoding is the
/// task runner's business, outside this crate.
#[derive(Clone, Copy, PartialEq, Eq, Structural, Debug)]
pub enum TextureFormat {
    Png,
    Jpeg,
}

/// The pixel ratio of one step of the setting.
pub open spec fn spec_pixel_ratio(i: usize) -> u16 {
    if i == 0 {
        1
    } else if i == 1 {
        2
    } else if i == 2 {
        3
    } else if i == 3 {
        4
    } else if i == 4 {
        5
    } else if i == 5 {
        6
    } else if i == 6 {
        7
    } else if i == 7 {
        8
    } else if i == 8 {
        9
    } else if i == 9 {
        10
    } else if i == 10 {
        12
    } else if i == 11 {
        15
    } else if i == 12 {
        20
    } else if i == 13 {
        25
    } else {
        30
    }
}

/// The format of one step of the setting.
pub open spec fn spec_format(i: usize) -> TextureFormat {
    if i == 0 {
        TextureFormat::Png
    } else {
        TextureFormat::Jpeg
    }
}

/// The parameters of texture generation. The fields are public so that
/// contracts can speak of them directly.
pub struct TexturesSettings {
    /// Which pixel-ratio step is current, always below
    /// `NB_PIXEL_RATIO_SETTINGS`.
    pub current_pixel_ratio: usize,
    /// Ratio between a border pixel's color and a body pixel's color.
    pub border_ratio: u8,
    /// How the palette is picked.
    pub palette: PaletteGeneration,
    /// How many textures one generation produces.
    pub number_generation: u16,
    /// Which format is current, always below `NB_FORMAT`.
    pub current_format: usize,
}

/// The settings are well formed when both indices point at a step.
pub open spec fn textures_wf(t: TexturesSettings) -> bool {
    &&& t.current_pixel_ratio < NB_PIXEL_RATIO_SETTINGS
    &&& t.current_format < NB_FORMAT
}

impl TexturesSettings {
    /// The default parameters.
    pub fn new() -> (r: TexturesSettings)
        ensures
            r == (TexturesSettings {
                current_pixel_ratio: 3,
                border_ratio: 3,
                palette: PaletteGeneration::RandomPredefinedColors,
                number_generation: 1,
                current_format: 0,
            }),
            textures_wf(r),
    {
        TexturesSettings {
            current_pixel_ratio: 3,
            border_ratio: 3,
            palette: PaletteGeneration::RandomPredefinedColors,
            number_generation: 1,
            current_format: 0,
        }
    }

    /// How many texture pixels one grid cell spans.
    pub fn get_pixel_ratio(&self) -> (r: u16)
        ensures
            r == spec_pixel_ratio(self.current_pixel_ratio),
    {
        if self.current_pixel_ratio < 10 {
            (self.current_pixel_ratio + 1) as u16
        } else if self.current_pixel_ratio == 10 {
            12
        } else if self.current_pixel_ratio == 11 {
            15
        } else if self.current_pixel_ratio == 12 {
            20
        } else if self.current_pixel_ratio == 13 {
            25
        } else {
            30
        }
    }

    /// Moves to the next pixel-ratio step, stopping at the last.
    pub fn incr_pixel_ratio(&mut self)
        ensures
            *final(self) == (TexturesSettings {
                current_pixel_ratio: if old(self).current_pixel_ratio + 1
                    < NB_PIXEL_RATIO_SETTINGS {
                    (old(self).current_pixel_ratio + 1) as usize
                } else {
                    old(self).current_pixel_ratio
                },
                ..*old(self)
            }),
    {
        if self.current_pixel_ratio < NB_PIXEL_RATIO_SETTINGS - 1 {
            self.current_pixel_ratio += 1;
        }
    }

    /// Moves to the previous pixel-ratio step, stopping at the first.
    pub fn decr_pixel_ratio(&mut self)
        ensures
            *final(self) == (TexturesSettings {
                current_pixel_ratio: if old(self).current_pixel_ratio > 0 {
                    (old(self).current_pixel_ratio - 1) as usize
                } else {
                    0
                },
                ..*old(self)
            }),
    {
        if self.current_pixel_ratio > 0 {
            self.current_pixel_ratio -= 1;
        }
    }

    /// Ratio between a border pixel's color and a body pixel's color.
    pub fn get_border_ratio(&self) -> (r: u8)
        ensures
            r == self.border_ratio,
    {
        self.border_ratio
    }

    /// How the palette is picked.
    pub fn get_palette(&self) -> (r: PaletteGeneration)
        ensures
            r == self.palette,
    {
        self.palette
    }

    /// How many textures one generation produces.
    pub fn get_number(&self) -> (r: u16)
        ensures
            r == self.number_generation,
    {
        self.number_generation
    }

    /// Replaces how many textures one generation produces.
    pub fn set_number(&mut self, number: u16)
        ensures
            *final(self) == (TexturesSettings { number_generation: number, ..*old(self) }),
    {
        self.number_generation = number;
    }

    /// The current texture format.
    pub fn get_format(&self) -> (r: TextureFormat)
        ensures
            r == spec_format(self.current_format),
    {
        if self.current_format == 0 {
            TextureFormat::Png
        } else {
            TextureFormat::Jpeg
        }
    }

    /// Moves to the previous format in display order, stopping at the
    /// first.
    pub fn next_format(&mut self)
        ensures
            *final(self) == (TexturesSettings {
                current_format: if old(self).current_format > 0 {
                    (old(self).current_format - 1) as usize
                } else {
                    0
                },
                ..*old(self)
            }),
    {
        if self.current_format > 0 {
            self.current_format -= 1;
        }
    }

    /// Moves to the next format in display order, stopping at the last.
    pub fn previous_format(&mut self)
        ensures
            *final(self) == (TexturesSettings {
                current_format: if old(self).current_format + 1 < NB_FORMAT {
                    (old(self).current_format + 1) as usize
                } else {
                    old(self).current_format
                },
                ..*old(self)
            }),
    {
        if self.current_format < NB_FORMAT - 1 {
            self.current_format += 1;
        }
    }

    /// The offered formats in display order, and which one is current.
    pub fn get_format_info(&self) -> (r: ([TextureFormat; NB_FORMAT], usize))
        ensures
            r.0@ == seq![TextureFormat::Png, TextureFormat::Jpeg],
            r.1 == self.current_format,
    {
        let formats: [TextureFormat; NB_FORMAT] = [TextureFormat::Png, TextureFormat::Jpeg];
        proof {
            broadcast use vstd::array::group_array_axioms;

            assert(formats@ =~= seq![TextureFormat::Png, TextureFormat::Jpeg]);
        }
        (formats, self.current_format)
    }
}

} // verus!
