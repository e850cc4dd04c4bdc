//! The colour palette and widget appearances of the command bar.
//!
//! Colours are sRGB with each channel an integer in 0..=255; the renderer
//! divides by 255 to get the unit-interval channels it draws with. Border
//! radius and width are in whole pixels.

use vstd::prelude::*;

verus! {

/// An sRGB colour with an alpha channel, each component in 0..=255.
#[derive(Debug, Clone, Copy, PartialEq, Eq, Structural)]
pub struct Rgba {
    pub red: u8,
    pub green: u8,
    pub blue: u8,
    pub alpha: u8,
}

/// A colour with no opacity.
pub open spec fn spec_transparent() -> Rgba {
    Rgba { red: 0, green: 0, blue: 0, alpha: 0 }
}

/// The white colour.
pub open spec fn spec_white() -> Rgba {
    Rgba { red: 255, green: 255, blue: 255, alpha: 255 }
}

/// The dark grey of the placeholder text.
pub open spec fn spec_placeholder_grey() -> Rgba {
    Rgba { red: 65, green: 65, blue: 65, alpha: 255 }
}

/// The desaturated blue behind selected text.
pub open spec fn spec_selection_blue() -> Rgba {
    Rgba { red: 116, green: 164, blue: 188, alpha: 255 }
}

/// How the text field is drawn: its background, border and icon colour.
#[derive(Debug, Clone, Copy, PartialEq, Eq, Structural)]
pub struct InputAppearance {
    pub background: Rgba,
    pub border_radius: u8,
    pub border_width: u8,
    pub border_color: Rgba,
    pub icon_color: Rgba,
}

/// The bar's field carries no decoration of its own: everything transparent,
/// no border, square corners.
pub open spec fn spec_bare_appearance() -> InputAppearance {
    InputAppearance {
        background: spec_transparent(),
        border_radius: 0,
        border_width: 0,
        border_color: spec_transparent(),
        icon_color: spec_transparent(),
    }
}

/// The style of the search field: one bare, borderless appearance in every
/// interaction state, white text over a transparent background.
#[derive(Debug, PartialEq)]
pub struct SearchInputStyles;

impl SearchInputStyles {
    /// The field at rest.
    pub fn active(&self) -> (r: InputAppearance)
        ensures
            r == spec_bare_appearance(),
    {
        InputAppearance {
            background: Rgba { red: 0, green: 0, blue: 0, alpha: 0 },
            border_radius: 0,
            border_width: 0,
            border_color: Rgba { red: 0, green: 0, blue: 0, alpha: 0 },
            icon_color: Rgba { red: 0, green: 0, blue: 0, alpha: 0 },
        }
    }

    /// Focusing the field changes nothing: it looks exactly as at rest.
    pub fn focused(&self) -> (r: InputAppearance)
        ensures
            r == spec_bare_appearance(),
    {
        self.active()
    }

    /// Hovering the field changes nothing either.
    pub fn hovered(&self) -> (r: InputAppearance)
        ensures
            r == spec_bare_appearance(),
    {
        self.focused()
    }

    /// A disabled field is drawn like an active one.
    pub fn disabled(&self) -> (r: InputAppearance)
        ensures
            r == spec_bare_appearance(),
    {
        InputAppearance {
            background: Rgba { red: 0, green: 0, blue: 0, alpha: 0 },
            border_radius: 0,
            border_width: 0,
            border_color: Rgba { red: 0, green: 0, blue: 0, alpha: 0 },
            icon_color: Rgba { red: 0, green: 0, blue: 0, alpha: 0 },
        }
    }

    /// Placeholder text is a dark, fully opaque grey.
    pub fn placeholder_color(&self) -> (r: Rgba)
        ensures
            r == spec_placeholder_grey(),
    {
        Rgba { red: 65, green: 65, blue: 65, alpha: 255 }
    }

    /// Typed text is white.
    pub fn value_color(&self) -> (r: Rgba)
        ensures
            r == spec_white(),
    {
        Rgba { red: 255, green: 255, blue: 255, alpha: 255 }
    }

    /// Text of a disabled field is invisible.
    pub fn disabled_color(&self) -> (r: Rgba)
        ensures
            r == spec_transparent(),
    {
        Rgba { red: 0, green: 0, blue: 0, alpha: 0 }
    }

    /// Selected text sits on a desaturated blue.
    pub fn selection_color(&self) -> (r: Rgba)
        ensures
            r == spec_selection_blue(),
    {
        Rgba { red: 116, green: 164, blue: 188, alpha: 255 }
    }
}

/// How the window itself is painted behind the widgets.
#[derive(Debug, Clone, Copy, PartialEq, Eq, Structural)]
pub struct WindowAppearance {
    pub background_color: Rgba,
    pub text_color: Rgba,
}

/// The application style: the window contributes no paint of its own, so the
/// bar floats over whatever is behind it.
#[derive(Debug, PartialEq)]
pub struct ApplicationStyles;

impl ApplicationStyles {
    /// Both the window background and its default text colour are fully
    /// transparent.
    pub fn appearance(&self) -> (r: WindowAppearance)
        ensures
            r.background_color == spec_transparent(),
            r.text_color == spec_transparent(),
    {
        WindowAppearance {
            background_color: Rgba { red: 0, green: 0, blue: 0, alpha: 0 },
            text_color: Rgba { red: 0, green: 0, blue: 0, alpha: 0 },
        }
    }
}

} // verus!
