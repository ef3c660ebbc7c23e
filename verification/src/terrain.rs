//! The empty test level: a walled room with the player, the stairs and one
//! larva.

use vstd::prelude::*;
use crate::coord::Size;

verus! {

/// The width and height of the empty level.
pub const EMPTY_LEVEL_DIMENSION: u32 = 29;

/// The size of the empty level.
pub fn size() -> (s: Size)
    ensures
        s == (Size { width: EMPTY_LEVEL_DIMENSION, height: EMPTY_LEVEL_DIMENSION }),
        s.wf(),
{
    assert(29 * 29 <= 0xffff_ffff) by (nonlinear_arith);
    Size { width: EMPTY_LEVEL_DIMENSION, height: EMPTY_LEVEL_DIMENSION }
}

} // verus!
