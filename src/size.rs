use vstd::prelude::*;

use crate::common::{clamp_spec, is_i32, normalize_index};
use crate::error::GeometryError;
use crate::offset::GeometryOffset;
use crate::region::Region;

verus! {

/// The dimensions of a rectangle, without a position. Nothing forces them to
/// be positive: a zero or negative dimension makes the size empty.
#[derive(Debug, Clone, Copy, PartialEq, Eq, Structural, Hash)]
pub struct Size {
    pub width: i32,
    pub height: i32,
}

impl Size {
    pub open spec fn spec_area(self) -> int {
        self.width * self.height
    }

    /// The field at position `i` (0 is `width`, 1 is `height`).
    pub open spec fn field(self, i: int) -> i32 {
        if i == 0 {
            self.width
        } else {
            self.height
        }
    }

    /// Half-open containment: `0 <= x < width` and `0 <= y < height`.
    pub open spec fn spec_contains(self, x: int, y: int) -> bool {
        0 <= x < self.width && 0 <= y < self.height
    }

    pub fn new(width: i32, height: i32) -> (r: Size)
        ensures
            r == (Size { width, height }),
    {
        Size { width, height }
    }

    /// Indexed access: 0 is `width`, 1 is `height`, negative indices count
    /// from the end.
    pub fn get(&self, index: isize) -> (r: Result<i32, GeometryError>)
        ensures
            ({
                let i = normalize_index(index as int, 2);
                &&& 0 <= i < 2 ==> r == Ok::<i32, GeometryError>(self.field(i))
                &&& !(0 <= i < 2) ==> r == Err::<i32, GeometryError>(GeometryError::IndexOutOfRange)
            }),
    {
        let i: isize = if index < 0 {
            2 + index
        } else {
            index
        };
        if i == 0 {
            Ok(self.width)
        } else if i == 1 {
            Ok(self.height)
        } else {
            Err(GeometryError::IndexOutOfRange)
        }
    }

    /// The number of fields.
    pub fn len(&self) -> (r: usize)
        ensures
            r == 2,
    {
        2
    }

    /// Truth value of a size: true when its area is not zero.
    pub fn is_nonzero(&self) -> (r: bool)
        ensures
            r == (self.spec_area() != 0),
    {
        proof {
            if self.width != 0 && self.height != 0 {
                assert(self.width * self.height != 0) by (nonlinear_arith)
                    requires
                        self.width != 0,
                        self.height != 0,
                ;
            }
        }
        self.width != 0 && self.height != 0
    }

    /// The dimensions as `(width, height)`.
    pub fn as_tuple(&self) -> (r: (i32, i32))
        ensures
            r == (self.width, self.height),
    {
        (self.width, self.height)
    }

    /// Dimension-wise sum.
    pub fn add(&self, other: &Size) -> (r: Size)
        requires
            is_i32(self.width + other.width),
            is_i32(self.height + other.height),
        ensures
            r.width == self.width + other.width,
            r.height == self.height + other.height,
    {
        Size { width: self.width + other.width, height: self.height + other.height }
    }

    /// Dimension-wise difference.
    pub fn sub(&self, other: &Size) -> (r: Size)
        requires
            is_i32(self.width - other.width),
            is_i32(self.height - other.height),
        ensures
            r.width == self.width - other.width,
            r.height == self.height - other.height,
    {
        Size { width: self.width - other.width, height: self.height - other.height }
    }

    /// The region of this size at the origin.
    pub fn region(&self) -> (r: Region)
        ensures
            r == (Region { x: 0, y: 0, width: self.width, height: self.height }),
    {
        Region { x: 0, y: 0, width: self.width, height: self.height }
    }

    /// `width * height`.
    pub fn area(&self) -> (r: i32)
        requires
            is_i32(self.spec_area()),
        ensures
            r == self.spec_area(),
    {
        self.width * self.height
    }

    /// A copy with the width replaced.
    pub fn with_width(&self, width: i32) -> (r: Size)
        ensures
            r == (Size { width, height: self.height }),
    {
        Size { width, height: self.height }
    }

    /// A copy with the height replaced.
    pub fn with_height(&self, height: i32) -> (r: Size)
        ensures
            r == (Size { width: self.width, height }),
    {
        Size { width: self.width, height }
    }

    /// Whether the cell `(x, y)` lies inside a rectangle of this size at the
    /// origin.
    pub fn contains(&self, x: i32, y: i32) -> (r: bool)
        ensures
            r == self.spec_contains(x as int, y as int),
    {
        x >= 0 && x < self.width && y >= 0 && y < self.height
    }

    /// The offset clamped to the cells of this size.
    pub fn clamp_offset(&self, offset: &GeometryOffset) -> (r: GeometryOffset)
        requires
            self.width > i32::MIN,
            self.height > i32::MIN,
        ensures
            r.x == clamp_spec(offset.x as int, 0, self.width - 1),
            r.y == clamp_spec(offset.y as int, 0, self.height - 1),
    {
        offset.clamp(self.width, self.height)
    }
}

} // verus!
