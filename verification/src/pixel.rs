//! The closed vocabulary of paintable cell contents.

use vstd::prelude::*;

verus! {

/// Content of a filled cell: four categorical brush effects plus one
/// explicit RGB triple.
#[derive(Clone, Copy, PartialEq, Eq, Structural, Debug, Hash)]
pub enum FullPixel {
    Body,
    Border,
    BodyBorder,
    BodyEmpty,
    SpecificColor(u8, u8, u8),
}

/// Content of any cell: either empty or one of the full variants.
#[derive(Clone, Copy, PartialEq, Eq, Structural, Debug)]
pub enum Pixel {
    Empty,
    Full(FullPixel),
}

} // verus!
