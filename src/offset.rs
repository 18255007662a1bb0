use vstd::prelude::*;

use crate::common::{clamp, clamp_spec, is_i32, max_int, normalize_index};
use crate::error::GeometryError;

verus! {

/// A signed point in cell coordinates, or a displacement between two points.
#[derive(Debug, Clone, Copy, PartialEq, Eq, Structural, Hash)]
pub struct GeometryOffset {
    pub x: i32,
    pub y: i32,
}

/// An offset given either as a bare `(x, y)` pair or as an offset value.
#[derive(Debug, Clone, Copy)]
pub enum OffsetPair {
    Tuple((i32, i32)),
    Offset(GeometryOffset),
}

impl OffsetPair {
    pub open spec fn spec_tuple(self) -> (i32, i32) {
        match self {
            OffsetPair::Tuple(t) => t,
            OffsetPair::Offset(o) => (o.x, o.y),
        }
    }

    /// The `(x, y)` pair that this argument stands for.
    pub fn to_tuple(&self) -> (r: (i32, i32))
        ensures
            r == self.spec_tuple(),
    {
        match self {
            OffsetPair::Tuple(tuple) => *tuple,
            OffsetPair::Offset(offset) => (offset.x, offset.y),
        }
    }
}

impl GeometryOffset {
    pub open spec fn spec_add(self, other: GeometryOffset) -> GeometryOffset {
        GeometryOffset { x: (self.x + other.x) as i32, y: (self.y + other.y) as i32 }
    }

    pub open spec fn spec_sub(self, other: GeometryOffset) -> GeometryOffset {
        GeometryOffset { x: (self.x - other.x) as i32, y: (self.y - other.y) as i32 }
    }

    pub open spec fn spec_neg(self) -> GeometryOffset {
        GeometryOffset { x: (-self.x) as i32, y: (-self.y) as i32 }
    }

    /// The field at position `i` (0 is `x`, 1 is `y`).
    pub open spec fn field(self, i: int) -> i32 {
        if i == 0 {
            self.x
        } else {
            self.y
        }
    }

    pub fn new(x: i32, y: i32) -> (r: GeometryOffset)
        ensures
            r == (GeometryOffset { x, y }),
    {
        GeometryOffset { x, y }
    }

    /// True for the zero offset.
    pub fn is_origin(&self) -> (r: bool)
        ensures
            r == (self.x == 0 && self.y == 0),
    {
        self.x == 0 && self.y == 0
    }

    /// The offset with each negative component replaced by zero.
    pub fn clamped(&self) -> (r: GeometryOffset)
        ensures
            r.x == max_int(self.x as int, 0),
            r.y == max_int(self.y as int, 0),
    {
        GeometryOffset {
            x: if self.x < 0 {
                0
            } else {
                self.x
            },
            y: if self.y < 0 {
                0
            } else {
                self.y
            },
        }
    }

    /// The components in swapped order, `(y, x)`.
    pub fn transpose(&self) -> (r: (i32, i32))
        ensures
            r == (self.y, self.x),
    {
        (self.y, self.x)
    }

    /// Truth value of an offset: any offset but the origin is true.
    pub fn is_nonzero(&self) -> (r: bool)
        ensures
            r == (self.x != 0 || self.y != 0),
    {
        self.x != 0 || self.y != 0
    }

    /// Indexed access: 0 is `x`, 1 is `y`, negative indices count from the end.
    pub fn get(&self, index: isize) -> (r: Result<i32, GeometryError>)
        ensures
            ({
                let i = normalize_index(index as int, 2);
                &&& 0 <= i < 2 ==> r == Ok::<i32, GeometryError>(self.field(i))
                &&& !(0 <= i < 2) ==> r == Err::<i32, GeometryError>(GeometryError::IndexOutOfRange)
            }),
    {
        let i: isize = if index < 0 {
            2 + index
        } else {
            index
        };
        if i == 0 {
            Ok(self.x)
        } else if i == 1 {
            Ok(self.y)
        } else {
            Err(GeometryError::IndexOutOfRange)
        }
    }

    /// The number of fields.
    pub fn len(&self) -> (r: usize)
        ensures
            r == 2,
    {
        2
    }

    /// Component-wise sum.
    pub fn add(&self, other: &GeometryOffset) -> (r: GeometryOffset)
        requires
            is_i32(self.x + other.x),
            is_i32(self.y + other.y),
        ensures
            r == self.spec_add(*other),
            r.x == self.x + other.x,
            r.y == self.y + other.y,
    {
        GeometryOffset { x: self.x + other.x, y: self.y + other.y }
    }

    /// Component-wise difference.
    pub fn sub(&self, other: &GeometryOffset) -> (r: GeometryOffset)
        requires
            is_i32(self.x - other.x),
            is_i32(self.y - other.y),
        ensures
            r == self.spec_sub(*other),
            r.x == self.x - other.x,
            r.y == self.y - other.y,
    {
        GeometryOffset { x: self.x - other.x, y: self.y - other.y }
    }

    /// Both components multiplied by one integer factor.
    pub fn scale(&self, factor: i32) -> (r: GeometryOffset)
        requires
            is_i32(self.x * factor),
            is_i32(self.y * factor),
        ensures
            r.x == self.x * factor,
            r.y == self.y * factor,
    {
        GeometryOffset { x: self.x * factor, y: self.y * factor }
    }

    /// Each component multiplied by its own integer factor.
    pub fn scale_each(&self, factor: (i32, i32)) -> (r: GeometryOffset)
        requires
            is_i32(self.x * factor.0),
            is_i32(self.y * factor.1),
        ensures
            r.x == self.x * factor.0,
            r.y == self.y * factor.1,
    {
        GeometryOffset { x: self.x * factor.0, y: self.y * factor.1 }
    }

    /// The offset pointing the opposite way.
    pub fn neg(&self) -> (r: GeometryOffset)
        requires
            self.x != i32::MIN,
            self.y != i32::MIN,
        ensures
            r == self.spec_neg(),
            r.x == -self.x,
            r.y == -self.y,
    {
        GeometryOffset { x: -self.x, y: -self.y }
    }

    /// Clamps `x` into `[0, width - 1]` and `y` into `[0, height - 1]`; a
    /// non-positive extent gives an inverted interval, which is tolerated.
    pub fn clamp(&self, width: i32, height: i32) -> (r: GeometryOffset)
        requires
            width > i32::MIN,
            height > i32::MIN,
        ensures
            r.x == clamp_spec(self.x as int, 0, width - 1),
            r.y == clamp_spec(self.y as int, 0, height - 1),
    {
        GeometryOffset { x: clamp(self.x, 0, width - 1), y: clamp(self.y, 0, height - 1) }
    }
}

} // verus!
