//! The buttons of the screen, the interactions they can see, and the
//! colour each combination takes. Colours are sRGB channels in thousandths,
//! so that the palette stays in plain integers; the shell divides by a
//! thousand when it hands them to the renderer.

use vstd::prelude::*;

verus! {

/// An sRGB colour, each channel in thousandths (the renderer's 1.0 is 1000).
#[derive(Clone, Copy, Debug, PartialEq, Eq, Structural)]
pub struct Rgb {
    pub red_milli: u16,
    pub green_milli: u16,
    pub blue_milli: u16,
}

/// The buttons on the screen.
#[derive(Clone, Copy, Debug, PartialEq, Eq, Structural)]
pub enum ButtonKind {
    Click,
    Reset,
    Info,
    DoubleClick,
    SpecialEffect,
}

/// What a button saw this frame: a press, the pointer over it, or nothing.
#[derive(Clone, Copy, Debug, PartialEq, Eq, Structural)]
pub enum Interaction {
    Pressed,
    Hovered,
    Idle,
}

/// The colour a button takes for an interaction, given the toggle state.
/// Only the main click button changes with the toggle.
pub open spec fn button_color_spec(kind: ButtonKind, interaction: Interaction, state: bool) -> Rgb {
    match kind {
        ButtonKind::Click => match interaction {
            Interaction::Pressed => Rgb { red_milli: 100, green_milli: 300, blue_milli: 800 },
            Interaction::Hovered => if state {
                Rgb { red_milli: 300, green_milli: 700, blue_milli: 300 }
            } else {
                Rgb { red_milli: 300, green_milli: 500, blue_milli: 1200 }
            },
            Interaction::Idle => if state {
                Rgb { red_milli: 200, green_milli: 600, blue_milli: 200 }
            } else {
                Rgb { red_milli: 200, green_milli: 400, blue_milli: 1000 }
            },
        },
        ButtonKind::Reset => match interaction {
            Interaction::Pressed => Rgb { red_milli: 600, green_milli: 100, blue_milli: 100 },
            Interaction::Hovered => Rgb { red_milli: 1000, green_milli: 300, blue_milli: 300 },
            Interaction::Idle => Rgb { red_milli: 800, green_milli: 200, blue_milli: 200 },
        },
        _ => match interaction {
            Interaction::Pressed => Rgb { red_milli: 200, green_milli: 200, blue_milli: 200 },
            Interaction::Hovered => Rgb { red_milli: 400, green_milli: 400, blue_milli: 400 },
            Interaction::Idle => Rgb { red_milli: 300, green_milli: 300, blue_milli: 300 },
        },
    }
}

/// Picks the colour of `kind` after it saw `interaction`, with the toggle
/// at `state`.
pub fn button_color(kind: ButtonKind, interaction: Interaction, state: bool) -> (c: Rgb)
    ensures
        c == button_color_spec(kind, interaction, state),
{
    match kind {
        ButtonKind::Click => match interaction {
            Interaction::Pressed => Rgb { red_milli: 100, green_milli: 300, blue_milli: 800 },
            Interaction::Hovered => if state {
                Rgb { red_milli: 300, green_milli: 700, blue_milli: 300 }
            } else {
                Rgb { red_milli: 300, green_milli: 500, blue_milli: 1200 }
            },
            Interaction::Idle => if state {
                Rgb { red_milli: 200, green_milli: 600, blue_milli: 200 }
            } else {
                Rgb { red_milli: 200, green_milli: 400, blue_milli: 1000 }
            },
        },
        ButtonKind::Reset => match interaction {
            Interaction::Pressed => Rgb { red_milli: 600, green_milli: 100, blue_milli: 100 },
            Interaction::Hovered => Rgb { red_milli: 1000, green_milli: 300, blue_milli: 300 },
            Interaction::Idle => Rgb { red_milli: 800, green_milli: 200, blue_milli: 200 },
        },
        _ => match interaction {
            Interaction::Pressed => Rgb { red_milli: 200, green_milli: 200, blue_milli: 200 },
            Interaction::Hovered => Rgb { red_milli: 400, green_milli: 400, blue_milli: 400 },
            Interaction::Idle => Rgb { red_milli: 300, green_milli: 300, blue_milli: 300 },
        },
    }
}

} // verus!
