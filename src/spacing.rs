use vstd::prelude::*;

use crate::common::{is_i32, max_int, normalize_index};
use crate::error::GeometryError;
use crate::text::{decimal, push_char, push_decimal};

verus! {

/// A margin on the four edges of a rectangle, in CSS order: top, right,
/// bottom, left.
#[derive(Debug, Clone, Copy, PartialEq, Eq, Structural, Hash)]
pub struct Spacing {
    pub top: i32,
    pub right: i32,
    pub bottom: i32,
    pub left: i32,
}

/// The shapes from which a spacing can be unpacked: one integer for all four
/// edges, or a sequence of one, two or four integers.
#[derive(Debug)]
pub enum SpacingDimensions {
    Single(i32),
    Sequence(Vec<i32>),
}

/// The spacing that a sequence of integers unpacks to, if its length is one
/// (all edges), two (top and bottom, right and left) or four (each edge).
pub open spec fn unpack_values(values: Seq<i32>) -> Option<Spacing> {
    if values.len() == 1 {
        Some(Spacing { top: values[0], right: values[0], bottom: values[0], left: values[0] })
    } else if values.len() == 2 {
        Some(Spacing { top: values[0], right: values[1], bottom: values[0], left: values[1] })
    } else if values.len() == 4 {
        Some(Spacing { top: values[0], right: values[1], bottom: values[2], left: values[3] })
    } else {
        None
    }
}

impl Spacing {
    pub open spec fn uniform(amount: i32) -> Spacing {
        Spacing { top: amount, right: amount, bottom: amount, left: amount }
    }

    /// The field at position `i`, in CSS order.
    pub open spec fn field(self, i: int) -> i32 {
        if i == 0 {
            self.top
        } else if i == 1 {
            self.right
        } else if i == 2 {
            self.bottom
        } else {
            self.left
        }
    }

    pub open spec fn is_zero(self) -> bool {
        self.top == 0 && self.right == 0 && self.bottom == 0 && self.left == 0
    }

    pub open spec fn spec_width(self) -> int {
        self.left + self.right
    }

    pub open spec fn spec_height(self) -> int {
        self.top + self.bottom
    }

    pub open spec fn spec_max_width(self) -> int {
        max_int(self.left as int, self.right as int)
    }

    pub open spec fn spec_max_height(self) -> int {
        max_int(self.top as int, self.bottom as int)
    }

    /// The CSS shorthand: one value when all edges agree, two when top equals
    /// bottom and right equals left, else all four.
    pub open spec fn spec_css(self) -> Seq<char> {
        if self.top == self.right && self.right == self.bottom && self.bottom == self.left {
            decimal(self.top as int)
        } else if self.top == self.bottom && self.right == self.left {
            decimal(self.top as int) + seq![' '] + decimal(self.right as int)
        } else {
            decimal(self.top as int) + seq![' '] + decimal(self.right as int) + seq![' ']
                + decimal(self.bottom as int) + seq![' '] + decimal(self.left as int)
        }
    }

    pub fn new(top: i32, right: i32, bottom: i32, left: i32) -> (r: Spacing)
        ensures
            r == (Spacing { top, right, bottom, left }),
    {
        Spacing { top, right, bottom, left }
    }

    /// Indexed access in CSS order; negative indices count from the end.
    pub fn get(&self, index: isize) -> (r: Result<i32, GeometryError>)
        ensures
            ({
                let i = normalize_index(index as int, 4);
                &&& 0 <= i < 4 ==> r == Ok::<i32, GeometryError>(self.field(i))
                &&& !(0 <= i < 4) ==> r == Err::<i32, GeometryError>(GeometryError::IndexOutOfRange)
            }),
    {
        let i: isize = if index < 0 {
            4 + index
        } else {
            index
        };
        if i == 0 {
            Ok(self.top)
        } else if i == 1 {
            Ok(self.right)
        } else if i == 2 {
            Ok(self.bottom)
        } else if i == 3 {
            Ok(self.left)
        } else {
            Err(GeometryError::IndexOutOfRange)
        }
    }

    /// The number of fields.
    pub fn len(&self) -> (r: usize)
        ensures
            r == 4,
    {
        4
    }

    /// The four edges as `(top, right, bottom, left)`.
    pub fn as_tuple(&self) -> (r: (i32, i32, i32, i32))
        ensures
            r == (self.top, self.right, self.bottom, self.left),
    {
        (self.top, self.right, self.bottom, self.left)
    }

    /// Edge-wise sum.
    pub fn add(&self, other: &Spacing) -> (r: Spacing)
        requires
            is_i32(self.top + other.top),
            is_i32(self.right + other.right),
            is_i32(self.bottom + other.bottom),
            is_i32(self.left + other.left),
        ensures
            r.top == self.top + other.top,
            r.right == self.right + other.right,
            r.bottom == self.bottom + other.bottom,
            r.left == self.left + other.left,
    {
        Spacing {
            top: self.top + other.top,
            right: self.right + other.right,
            bottom: self.bottom + other.bottom,
            left: self.left + other.left,
        }
    }

    /// Edge-wise difference.
    pub fn sub(&self, other: &Spacing) -> (r: Spacing)
        requires
            is_i32(self.top - other.top),
            is_i32(self.right - other.right),
            is_i32(self.bottom - other.bottom),
            is_i32(self.left - other.left),
        ensures
            r.top == self.top - other.top,
            r.right == self.right - other.right,
            r.bottom == self.bottom - other.bottom,
            r.left == self.left - other.left,
    {
        Spacing {
            top: self.top - other.top,
            right: self.right - other.right,
            bottom: self.bottom - other.bottom,
            left: self.left - other.left,
        }
    }

    /// Horizontal total, `left + right`.
    pub fn width(&self) -> (r: i32)
        requires
            is_i32(self.spec_width()),
        ensures
            r == self.spec_width(),
    {
        self.left + self.right
    }

    /// Vertical total, `top + bottom`.
    pub fn height(&self) -> (r: i32)
        requires
            is_i32(self.spec_height()),
        ensures
            r == self.spec_height(),
    {
        self.top + self.bottom
    }

    /// The larger of the left and right edges.
    pub fn max_width(&self) -> (r: i32)
        ensures
            r == self.spec_max_width(),
    {
        if self.left >= self.right {
            self.left
        } else {
            self.right
        }
    }

    /// The larger of the top and bottom edges.
    pub fn max_height(&self) -> (r: i32)
        ensures
            r == self.spec_max_height(),
    {
        if self.top >= self.bottom {
            self.top
        } else {
            self.bottom
        }
    }

    /// The near edges as `(left, top)`.
    pub fn top_left(&self) -> (r: (i32, i32))
        ensures
            r == (self.left, self.top),
    {
        (self.left, self.top)
    }

    /// The far edges as `(right, bottom)`.
    pub fn bottom_right(&self) -> (r: (i32, i32))
        ensures
            r == (self.right, self.bottom),
    {
        (self.right, self.bottom)
    }

    /// Both totals as `(left + right, top + bottom)`.
    pub fn totals(&self) -> (r: (i32, i32))
        requires
            is_i32(self.spec_width()),
            is_i32(self.spec_height()),
        ensures
            r.0 == self.spec_width(),
            r.1 == self.spec_height(),
    {
        (self.left + self.right, self.top + self.bottom)
    }

    /// Truth value of a spacing: true unless all four edges are zero.
    pub fn is_nonzero(&self) -> (r: bool)
        ensures
            r == !self.is_zero(),
    {
        self.top != 0 || self.right != 0 || self.bottom != 0 || self.left != 0
    }

    /// The spacing in CSS shorthand, such as `"1"`, `"1 2"` or `"1 2 3 4"`.
    pub fn css(&self) -> (r: String)
        ensures
            r@ == self.spec_css(),
    {
        let mut out = String::new();
        push_decimal(&mut out, self.top);
        if self.top == self.right && self.right == self.bottom && self.bottom == self.left {
            return out;
        }
        push_char(&mut out, ' ');
        push_decimal(&mut out, self.right);
        if self.top == self.bottom && self.right == self.left {
            return out;
        }
        push_char(&mut out, ' ');
        push_decimal(&mut out, self.bottom);
        push_char(&mut out, ' ');
        push_decimal(&mut out, self.left);
        out
    }

    /// Reads a spacing from one integer or from a sequence of one, two or four.
    pub fn unpack(pad: &SpacingDimensions) -> (r: Result<Spacing, GeometryError>)
        ensures
            match pad {
                SpacingDimensions::Single(v) => r == Ok::<Spacing, GeometryError>(
                    Spacing::uniform(*v),
                ),
                SpacingDimensions::Sequence(values) => match unpack_values(values@) {
                    Some(s) => r == Ok::<Spacing, GeometryError>(s),
                    None => r == Err::<Spacing, GeometryError>(
                        GeometryError::ShapeMismatch { found: values@.len() as usize },
                    ),
                },
            },
    {
        match pad {
            SpacingDimensions::Single(space) => Ok(
                Spacing { top: *space, right: *space, bottom: *space, left: *space },
            ),
            SpacingDimensions::Sequence(values) => {
                if values.len() == 1 {
                    Ok(Spacing { top: values[0], right: values[0], bottom: values[0], left: values[0] })
                } else if values.len() == 2 {
                    Ok(Spacing { top: values[0], right: values[1], bottom: values[0], left: values[1] })
                } else if values.len() == 4 {
                    Ok(Spacing { top: values[0], right: values[1], bottom: values[2], left: values[3] })
                } else {
                    Err(GeometryError::ShapeMismatch { found: values.len() })
                }
            },
        }
    }

    /// `amount` on the top and bottom edges only.
    pub fn vertical(amount: i32) -> (r: Spacing)
        ensures
            r == (Spacing { top: amount, right: 0, bottom: amount, left: 0 }),
    {
        Spacing { top: amount, right: 0, bottom: amount, left: 0 }
    }

    /// `amount` on the left and right edges only.
    pub fn horizontal(amount: i32) -> (r: Spacing)
        ensures
            r == (Spacing { top: 0, right: amount, bottom: 0, left: amount }),
    {
        Spacing { top: 0, right: amount, bottom: 0, left: amount }
    }

    /// `amount` on all four edges.
    pub fn all(amount: i32) -> (r: Spacing)
        ensures
            r == Spacing::uniform(amount),
    {
        Spacing { top: amount, right: amount, bottom: amount, left: amount }
    }

    /// The edge-wise maximum of two spacings.
    pub fn grow_maximum(&self, other: &Spacing) -> (r: Spacing)
        ensures
            r.top == max_int(self.top as int, other.top as int),
            r.right == max_int(self.right as int, other.right as int),
            r.bottom == max_int(self.bottom as int, other.bottom as int),
            r.left == max_int(self.left as int, other.left as int),
    {
        Spacing {
            top: if self.top >= other.top {
                self.top
            } else {
                other.top
            },
            right: if self.right >= other.right {
                self.right
            } else {
                other.right
            },
            bottom: if self.bottom >= other.bottom {
                self.bottom
            } else {
                other.bottom
            },
            left: if self.left >= other.left {
                self.left
            } else {
                other.left
            },
        }
    }
}

} // verus!
