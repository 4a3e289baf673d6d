//! How a generation task picks its colors.

use vstd::prelude::*;

verus! {

/// The ways a generation task can pick a palette. Drawing the colors
/// themselves is the task runner's business, outside this crate.
#[derive(Clone, Copy, PartialEq, Eq, Structural, Debug)]
pub enum PaletteGeneration {
    RandomPredefinedColors,
}

} // verus!
