//! Animation value types. The interpolation math itself is floating-point
//! and lives with the renderer, outside this crate.

use vstd::prelude::*;

verus! {

/// How an animated value progresses over time.
#[derive(Clone, Copy, Debug)]
pub enum EasingFunction {
    Linear,
    EaseIn,
    EaseOut,
    EaseInOut,
}

} // verus!
