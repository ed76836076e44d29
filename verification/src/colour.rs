//! 24-bit colours.

use vstd::prelude::*;

verus! {

/// A 24-bit RGB colour. Two colours are equal exactly when all three
/// channels are.
#[derive(Clone, Copy, PartialEq, Debug)]
pub struct Colour {
    pub r: u8,
    pub g: u8,
    pub b: u8,
}

impl Colour {
    /// The colour with the given red, green and blue channels.
    pub fn rgb(r: u8, g: u8, b: u8) -> (colour: Self)
        ensures
            colour == (Colour { r, g, b }),
    {
        Self { r, g, b }
    }
}

} // verus!
