//! The terminal outcomes of the console.
use vstd::prelude::*;

verus! {

/// A condition after which the console cannot go on. None of them is
/// recoverable: a kernel that receives one reports it and halts.
#[derive(Clone, Copy, Debug, PartialEq, Eq, Structural)]
pub enum Fault {
    /// The geometry declares a pixel format that the encoder cannot produce.
    UnsupportedPixelFormat,
    /// The font holds no bitmap for the requested character.
    GlyphNotFound,
    /// A coordinate or a byte offset left the machine word, or a pixel would
    /// be written outside the buffer.
    OutOfBounds,
}

} // verus!
