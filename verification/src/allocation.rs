//! Where an image lies in a layered texture atlas.
use crate::size::Size;
use vstd::prelude::*;

verus! {

/// The side of a layer of the atlas, in pixels.
pub const SIZE: u32 = 2048;

/// A rectangle that an allocator handed out inside one layer.
#[derive(Debug, Clone, Copy, PartialEq, Eq, Structural)]
pub struct Region {
    /// The horizontal offset of the rectangle in its layer.
    pub x: u32,
    /// The vertical offset of the rectangle in its layer.
    pub y: u32,
    /// The width of the rectangle.
    pub width: u32,
    /// The height of the rectangle.
    pub height: u32,
}

impl Region {
    /// The offset of the top left corner.
    pub fn position(&self) -> (position: (u32, u32))
        ensures
            position == (self.x, self.y),
    {
        (self.x, self.y)
    }

    /// The extent of the rectangle.
    pub fn size(&self) -> (size: Size)
        ensures
            size == (Size { width: self.width, height: self.height }),
    {
        Size::new(self.width, self.height)
    }
}

/// The space an image takes in the atlas: part of a layer, or a whole one.
#[derive(Debug)]
pub enum Allocation {
    /// A region of a layer that is shared with other images.
    Partial {
        /// The index of the layer.
        layer: usize,
        /// The region inside the layer.
        region: Region,
    },
    /// A layer that the image has for itself.
    Full {
        /// The index of the layer.
        layer: usize,
    },
}

impl Allocation {
    /// The index of the layer that holds the allocation.
    pub open spec fn layer(&self) -> usize {
        match *self {
            Allocation::Partial { layer, .. } => layer,
            Allocation::Full { layer } => layer,
        }
    }

    /// The offset of the allocation inside its layer. A full layer starts at
    /// the origin.
    pub fn position(&self) -> (position: (u32, u32))
        ensures
            position == match *self {
                Allocation::Partial { region, .. } => (region.x, region.y),
                Allocation::Full { .. } => (0u32, 0u32),
            },
    {
        match self {
            Allocation::Partial { region, .. } => region.position(),
            Allocation::Full { .. } => (0, 0),
        }
    }

    /// The extent of the allocation. A full layer spans [`SIZE`] in both
    /// directions.
    pub fn size(&self) -> (size: Size)
        ensures
            size == match *self {
                Allocation::Partial { region, .. } => Size {
                    width: region.width,
                    height: region.height,
                },
                Allocation::Full { .. } => Size { width: SIZE, height: SIZE },
            },
    {
        match self {
            Allocation::Partial { region, .. } => region.size(),
            Allocation::Full { .. } => Size::new(SIZE, SIZE),
        }
    }

    /// The depth of the allocation in the stack of layers, counted from one.
    pub fn z_position(&self) -> (z: usize)
        requires
            self.layer() < usize::MAX,
        ensures
            z == self.layer() + 1,
    {
        match self {
            Allocation::Partial { layer, .. } => *layer + 1,
            Allocation::Full { layer } => *layer + 1,
        }
    }
}

} // verus!
