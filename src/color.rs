use vstd::prelude::*;

verus! {

/// Tag of a color triple: red, green and blue intensities.
#[derive(PartialEq, Debug)]
pub struct Color;

/// The output value of one pixel: one integer intensity per channel, where
/// `255` is full intensity. A channel is not clamped, so a color component a
/// little above `1` may come out as `256`.
#[derive(PartialEq, Eq, Structural, Debug, Clone, Copy)]
pub struct Pixel {
    pub r: u64,
    pub g: u64,
    pub b: u64,
}

impl Pixel {
    pub fn new(r: u64, g: u64, b: u64) -> (p: Self)
        ensures
            p == (Pixel { r, g, b }),
    {
        Pixel { r, g, b }
    }
}

} // verus!
