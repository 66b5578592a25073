use vstd::prelude::*;

verus! {

/// A size in physical pixels.
#[derive(Clone, Copy, Debug, PartialEq, Eq, Structural)]
pub struct Extent {
    pub width: u32,
    pub height: u32,
}

/// The size of a framebuffer: a surface extent one layer deep.
#[derive(Clone, Copy, Debug, PartialEq, Eq, Structural)]
pub struct ImageExtent {
    pub width: u32,
    pub height: u32,
    pub depth: u32,
}

/// A rectangle in the sixteen-bit coordinates that viewports and scissors use.
#[derive(Clone, Copy, Debug, PartialEq, Eq, Structural)]
pub struct Rect {
    pub x: i16,
    pub y: i16,
    pub w: i16,
    pub h: i16,
}

/// The value of the low sixteen bits of `size`, read as a signed number.
pub open spec fn low_sixteen(size: u32) -> int {
    let low = size as int % 0x1_0000;
    if low < 0x8000 {
        low
    } else {
        low - 0x1_0000
    }
}

/// Narrows a pixel count to a rectangle coordinate, keeping its low sixteen bits.
pub fn coordinate(size: u32) -> (narrow: i16)
    ensures
        narrow == low_sixteen(size),
        size <= i16::MAX ==> narrow == size,
{
    let low: u32 = size % 0x1_0000;
    if low < 0x8000 {
        low as i16
    } else {
        (low as i32 - 0x1_0000) as i16
    }
}

impl Extent {
    /// Builds an extent from its two dimensions.
    pub fn new(width: u32, height: u32) -> (extent: Extent)
        ensures
            extent == (Extent { width, height }),
    {
        Extent { width, height }
    }

    /// The framebuffer size for a surface of this extent.
    pub open spec fn image_extent(self) -> ImageExtent {
        ImageExtent { width: self.width, height: self.height, depth: 1 }
    }

    /// The rectangle that covers a surface of this extent from its origin.
    pub open spec fn full_rect(self) -> Rect {
        Rect { x: 0, y: 0, w: low_sixteen(self.width) as i16, h: low_sixteen(self.height) as i16 }
    }

    /// Computes the framebuffer size for a surface of this extent.
    pub fn to_image_extent(&self) -> (image: ImageExtent)
        ensures
            image == self.image_extent(),
    {
        ImageExtent { width: self.width, height: self.height, depth: 1 }
    }

    /// Computes the viewport and scissor rectangle of a surface of this extent.
    pub fn to_rect(&self) -> (rect: Rect)
        ensures
            rect == self.full_rect(),
    {
        Rect { x: 0, y: 0, w: coordinate(self.width), h: coordinate(self.height) }
    }
}

} // verus!
