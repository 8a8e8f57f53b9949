//! Layout value types. The size arithmetic is floating-point and lives with
//! the renderer, outside this crate.

use vstd::prelude::*;

verus! {

/// The main axis of a container.
#[derive(Clone, Copy, Debug, PartialEq, Eq, Structural)]
pub enum Layout {
    Row,
    Column,
}

impl Default for Layout {
    /// Containers lay out as columns unless told otherwise.
    fn default() -> (r: Layout)
        ensures
            r == Layout::Column,
    {
        Layout::Column
    }
}

/// Screen-width classes for responsive layouts.
#[derive(Clone, Copy, Debug, PartialEq, Eq, Structural)]
pub enum Breakpoint {
    Small,
    Medium,
    Large,
    XLarge,
}

} // verus!
