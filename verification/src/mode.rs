//! How an image is laid out on the screen.

use vstd::prelude::*;

verus! {

/// The ways a desktop can fit an image to the screen. Every backend maps each of them to
/// a token of its own; two of them may share a token where a desktop does not tell them
/// apart.
#[derive(Clone, Copy, Debug, PartialEq, Eq, Structural)]
pub enum Mode {
    Center,
    Crop,
    Fit,
    Span,
    Stretch,
    Tile,
}

} // verus!
