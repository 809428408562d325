//! Errors for the LED matrix screen.
use vstd::prelude::*;

verus! {

/// Errors that this crate can return.
#[derive(Copy, Clone, Debug, PartialEq, Eq, Structural)]
pub enum ScreenError {
    /// The framebuffer device could not be opened or written.
    Framebuffer,
    /// A text could not be decoded into unicode symbols.
    Unicode,
}

} // verus!
