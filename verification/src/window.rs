//! Windows on the screen.

use vstd::prelude::*;

verus! {

/// The rectangle of a window on the screen, in pixels: the left and top
/// edges, and the edges just past the right and the bottom.
#[derive(Clone, Copy, Debug, PartialEq, Eq)]
pub struct Rect {
    pub left: i32,
    pub top: i32,
    pub right: i32,
    pub bottom: i32,
}

} // verus!
