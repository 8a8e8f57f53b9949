//! Component value types. Component layout and rendering are floating-point
//! and live with the renderer, outside this crate.

use vstd::prelude::*;

verus! {

/// The axis along which a stack lays out its children.
#[derive(Clone, Copy, Debug)]
pub enum Direction {
    Horizontal,
    Vertical,
}

} // verus!
