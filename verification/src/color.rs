//! Colours with eight bits per channel.
use vstd::prelude::*;

verus! {

#[derive(Clone, Copy, Debug, PartialEq, Eq, Structural)]
pub struct RGBA8 {
    pub r: u8,
    pub g: u8,
    pub b: u8,
    pub a: u8,
}

impl RGBA8 {
    /// Opaque white.
    pub open spec fn spec_white() -> RGBA8 {
        RGBA8 { r: 255, g: 255, b: 255, a: 255 }
    }

    /// Opaque black.
    pub open spec fn spec_black() -> RGBA8 {
        RGBA8 { r: 0, g: 0, b: 0, a: 255 }
    }

    #[verifier::when_used_as_spec(spec_white)]
    pub fn white() -> (color: RGBA8)
        ensures
            color == Self::spec_white(),
    {
        RGBA8 { r: 255, g: 255, b: 255, a: 255 }
    }

    #[verifier::when_used_as_spec(spec_black)]
    pub fn black() -> (color: RGBA8)
        ensures
            color == Self::spec_black(),
    {
        RGBA8 { r: 0, g: 0, b: 0, a: 255 }
    }

    pub fn new(r: u8, g: u8, b: u8, a: u8) -> (color: RGBA8)
        ensures
            color == (RGBA8 { r, g, b, a }),
    {
        RGBA8 { r, g, b, a }
    }
}

} // verus!
