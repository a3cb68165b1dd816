use vstd::prelude::*;

verus! {

/// The named colours of the palette.
#[derive(Debug, Clone, Copy, PartialEq, Eq, Structural)]
pub enum Colour {
    /// Warnings and fatal errors.
    Red,
    /// Backgrounds and text on dark surfaces.
    White,
    /// The strong accent.
    Blue,
    /// Secondary text.
    Grey,
    /// The secondary accent.
    Lilac,
    /// Text on light surfaces.
    Black,
}

} // verus!
