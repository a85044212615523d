//! Colours of the chat messages that the commands answer with.

use vstd::prelude::*;

verus! {

/// A colour as its red, green and blue parts.
#[derive(Clone, Copy, Debug, PartialEq, Eq, Structural)]
pub struct Colour {
    pub red: u8,
    pub green: u8,
    pub blue: u8,
}

/// The colour of a message that reports success.
pub fn success_colour() -> (colour: Colour)
    ensures
        colour == (Colour { red: 105, green: 255, blue: 145 }),
{
    Colour { red: 105, green: 255, blue: 145 }
}

/// The colour of a message that reports a failure.
pub fn error_colour() -> (colour: Colour)
    ensures
        colour == (Colour { red: 255, green: 46, blue: 105 }),
{
    Colour { red: 255, green: 46, blue: 105 }
}

/// The colour of a message that only informs.
pub fn neutral_colour() -> (colour: Colour)
    ensures
        colour == (Colour { red: 105, green: 200, blue: 255 }),
{
    Colour { red: 105, green: 200, blue: 255 }
}

} // verus!
