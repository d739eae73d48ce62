//! Drawing operations, the animation's only output.
//!
//! A tick does not touch the terminal. It appends `Paint` values to a list,
//! in the order in which they are to reach the screen; whoever owns the
//! terminal replays the list and flushes once.

use vstd::prelude::*;

verus! {

/// A 24-bit colour.
#[derive(Clone, Copy, Debug, PartialEq, Eq, Structural)]
pub struct Rgb {
    pub red: u8,
    pub green: u8,
    pub blue: u8,
}

/// One drawing operation.
#[derive(Clone, Copy, Debug, PartialEq, Eq, Structural)]
pub enum Paint {
    /// Clear the whole screen.
    Clear,
    /// Print the character with code `code` at (`column`, `row`) in colour
    /// `ink`, on background `ground` where there is one, then reset colours.
    Glyph { column: u16, row: u16, code: u8, ink: Rgb, ground: Option<Rgb> },
    /// Print a space at (`column`, `row`) with colours reset.
    Blank { column: u16, row: u16 },
}

/// Brightest value of a colour channel.
pub const FULL: u8 = 255;

/// The foreground of a glyph of brightness `shade`: green at full strength,
/// red and blue at `shade`, so that 255 is white and 0 is pure green.
pub open spec fn ink_of(shade: int) -> Rgb {
    Rgb { red: shade as u8, green: FULL, blue: shade as u8 }
}

/// The background that goes with brightness `shade`: green at `shade`, no
/// red or blue.
pub open spec fn ground_of(shade: int) -> Rgb {
    Rgb { red: 0, green: shade as u8, blue: 0 }
}

/// Computes `ink_of`.
pub fn ink(shade: u8) -> (colour: Rgb)
    ensures
        colour == ink_of(shade as int),
{
    Rgb { red: shade, green: FULL, blue: shade }
}

/// Computes `ground_of`.
pub fn ground(shade: u8) -> (colour: Rgb)
    ensures
        colour == ground_of(shade as int),
{
    Rgb { red: 0, green: shade, blue: 0 }
}

} // verus!
