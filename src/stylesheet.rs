use crate::color::Color;
use vstd::prelude::*;

verus! {

/// The colours and flags that every screen is drawn with.
#[derive(Clone, Copy, Debug, PartialEq, Eq, Structural)]
pub struct Stylesheet {
    pub enable_box_art: bool,
    pub foreground_color: Color,
    pub background_color: Color,
    pub highlight_color: Color,
    pub button_a_color: Color,
    pub button_b_color: Color,
    pub button_x_color: Color,
    pub button_y_color: Color,
}

/// The stylesheet of a fresh installation.
pub open spec fn default_stylesheet() -> Stylesheet {
    Stylesheet {
        enable_box_art: true,
        foreground_color: Color { r: 255, g: 255, b: 255 },
        background_color: Color { r: 0, g: 0, b: 0 },
        highlight_color: Color { r: 151, g: 135, b: 187 },
        button_a_color: Color { r: 235, g: 26, b: 29 },
        button_b_color: Color { r: 254, g: 206, b: 21 },
        button_x_color: Color { r: 7, g: 73, b: 180 },
        button_y_color: Color { r: 0, g: 141, b: 69 },
    }
}

impl Default for Stylesheet {
    fn default() -> (s: Stylesheet)
        ensures
            s == default_stylesheet(),
    {
        Stylesheet {
            enable_box_art: true,
            foreground_color: Color::new(255, 255, 255),
            background_color: Color::new(0, 0, 0),
            highlight_color: Color::new(151, 135, 187),
            button_a_color: Color::new(235, 26, 29),
            button_b_color: Color::new(254, 206, 21),
            button_x_color: Color::new(7, 73, 180),
            button_y_color: Color::new(0, 141, 69),
        }
    }
}

} // verus!
