//! Two-dimensional sizes in whole units.
use vstd::prelude::*;

verus! {

/// An amount of space in two dimensions.
#[derive(Debug, Clone, Copy, PartialEq, Eq, Structural)]
pub struct Size {
    /// The width.
    pub width: u32,
    /// The height.
    pub height: u32,
}

impl Size {
    /// Creates a new [`Size`] with the given width and height.
    pub fn new(width: u32, height: u32) -> (size: Self)
        ensures
            size == (Size { width, height }),
    {
        Size { width, height }
    }
}

} // verus!
