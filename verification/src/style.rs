//! Styling value types. Colors and dimensions are floating-point and live
//! with the renderer, outside this crate.

use vstd::prelude::*;

verus! {

/// Horizontal alignment of rendered text.
#[derive(Clone, Copy, Debug, PartialEq, Eq, Structural)]
pub enum TextAlign {
    Left,
    Center,
    Right,
}

impl Default for TextAlign {
    /// Text is left-aligned unless told otherwise.
    fn default() -> (r: TextAlign)
        ensures
            r == TextAlign::Left,
    {
        TextAlign::Left
    }
}

} // verus!
