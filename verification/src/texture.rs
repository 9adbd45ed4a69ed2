//! Units of texture coordinates.
use vstd::prelude::*;

verus! {

/// The number of texture-coordinate units that one pixel takes up.
/// Coordinates are sixteen bits wide.
pub const PIXEL_SIZE: u32 = 8;

} // verus!
