//! The fixed layout of the bar's view: one text field, centred in the window.
//!
//! The only varying part of the view is the text the field shows, which is
//! the state itself; everything here is the same on every frame.

use vstd::prelude::*;

verus! {

/// How the text field is laid out and lettered.
#[derive(Debug, PartialEq)]
pub struct FieldLayout {
    /// Shown, in the placeholder colour, while the field is empty.
    pub placeholder: String,
    /// Inner padding around the text, in logical pixels.
    pub padding: u8,
    /// The name of the font family the field is set in.
    pub font_family: String,
    /// The field uses the family's bold weight.
    pub bold: bool,
    /// The field does not ask for the monospaced variant.
    pub monospaced: bool,
    /// The field stretches to the full width of its container.
    pub fill_width: bool,
    /// The field's container centres it horizontally.
    pub center_x: bool,
    /// The field's container centres it vertically.
    pub center_y: bool,
}

/// The one layout the bar ever shows: a full-width field prompting "Search",
/// set in bold SF Pro Text with a little padding, centred both ways.
pub fn field_layout() -> (r: FieldLayout)
    ensures
        r.placeholder@ == "Search"@,
        r.padding == 8,
        r.font_family@ == "SF Pro Text"@,
        r.bold,
        !r.monospaced,
        r.fill_width,
        r.center_x,
        r.center_y,
{
    FieldLayout {
        placeholder: "Search".to_owned(),
        padding: 8,
        font_family: "SF Pro Text".to_owned(),
        bold: true,
        monospaced: false,
        fill_width: true,
        center_x: true,
        center_y: true,
    }
}

} // verus!
