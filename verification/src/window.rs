//! Window value types. Window geometry is floating-point and lives with the
//! platform backends, outside this crate.

use vstd::prelude::*;

verus! {

/// How a mobile window is oriented.
#[derive(Clone, Copy, Debug)]
pub enum Orientation {
    Portrait,
    Landscape,
}

} // verus!
