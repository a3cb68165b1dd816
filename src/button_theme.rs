use vstd::prelude::*;

use crate::colours::Colour;

verus! {

#[derive(Debug, Clone, Copy, PartialEq, Eq, Structural)]
pub enum ButtonTheme {
    Primary,
    Secondary,
}

/// The colours a button is drawn with.
#[derive(Debug, Clone, Copy, PartialEq, Eq, Structural)]
pub struct ButtonAppearance {
    pub background: Colour,
    pub text: Colour,
}

pub fn as_button_theme(theme: ButtonTheme) -> (r: ButtonAppearance)
    ensures
        r == (match theme {
            ButtonTheme::Primary => ButtonAppearance { background: Colour::Blue, text: Colour::White },
            ButtonTheme::Secondary => ButtonAppearance {
                background: Colour::Lilac,
                text: Colour::Black,
            },
        }),
{
    match theme {
        ButtonTheme::Primary => ButtonAppearance { background: Colour::Blue, text: Colour::White },
        ButtonTheme::Secondary => ButtonAppearance { background: Colour::Lilac, text: Colour::Black },
    }
}

} // verus!
