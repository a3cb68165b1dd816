use vstd::prelude::*;

use crate::colours::Colour;

verus! {

#[derive(Debug, Clone, Copy, PartialEq, Eq, Structural)]
pub enum CircularLoadingTheme {
    Primary,
    Secondary,
}

/// The colours a loading spinner is drawn with.
#[derive(Debug, Clone, Copy, PartialEq, Eq, Structural)]
pub struct SpinnerAppearance {
    pub bar: Colour,
    pub track: Colour,
}

pub fn as_circular_theme(theme: CircularLoadingTheme) -> (r: SpinnerAppearance)
    ensures
        r.track == Colour::White,
        r.bar == (match theme {
            CircularLoadingTheme::Primary => Colour::Blue,
            CircularLoadingTheme::Secondary => Colour::Lilac,
        }),
{
    let bar = match theme {
        CircularLoadingTheme::Primary => Colour::Blue,
        CircularLoadingTheme::Secondary => Colour::Lilac,
    };
    SpinnerAppearance { bar, track: Colour::White }
}

} // verus!
