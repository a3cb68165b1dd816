use vstd::prelude::*;

use crate::colours::Colour;

verus! {

#[derive(Debug, Clone, Copy, PartialEq, Eq, Structural)]
pub enum ContainerTheme {
    Light,
    Dark,
}

/// The background colour of a container.
pub fn as_container_theme(theme: ContainerTheme) -> (r: Colour)
    ensures
        r == (match theme {
            ContainerTheme::Light => Colour::White,
            ContainerTheme::Dark => Colour::Blue,
        }),
{
    match theme {
        ContainerTheme::Light => Colour::White,
        ContainerTheme::Dark => Colour::Blue,
    }
}

} // verus!
