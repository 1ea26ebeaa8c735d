//! The colors of the painter's wheel.
use vstd::prelude::*;

verus! {

/// The primary colors of the RYB color model.
#[derive(PartialEq, Eq, Structural, Clone, Copy, Debug)]
pub enum PrimaryColor {
    Red,
    Yellow,
    Blue,
}

/// The secondary colors of the RYB color model, each mixed from two
/// primary colors.
#[derive(PartialEq, Eq, Structural, Clone, Copy, Debug)]
pub enum SecondaryColor {
    Orange,
    Green,
    Purple,
}

} // verus!
