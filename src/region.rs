use vstd::prelude::*;

use crate::common::{clamp_spec, clamp_wide, is_i32, max_int, min_int, normalize_index};
use crate::error::GeometryError;
use crate::offset::{GeometryOffset, OffsetPair};
use crate::size::Size;
use crate::spacing::Spacing;

verus! {

/// An axis-aligned rectangle: `(x, y)` is its top-left corner. It holds the
/// cells `(px, py)` with `x <= px < x + width` and `y <= py < y + height`; a
/// zero or negative extent makes it empty.
#[derive(Debug, Clone, Copy, PartialEq, Eq, Structural, Hash)]
pub struct Region {
    pub x: i32,
    pub y: i32,
    pub width: i32,
    pub height: i32,
}

/// Whether a region spanning the corners `(x1, y1)` and `(x2, y2)` can be
/// stored: its origin and its extents must fit in `i32`.
pub open spec fn corners_fit(x1: int, y1: int, x2: int, y2: int) -> bool {
    is_i32(x1) && is_i32(y1) && is_i32(x2 - x1) && is_i32(y2 - y1)
}

/// The region with near corner `(x1, y1)` and far corner `(x2, y2)`, not
/// normalised: reversed corners give negative extents.
pub open spec fn region_from_corners(x1: int, y1: int, x2: int, y2: int) -> Region {
    Region { x: x1 as i32, y: y1 as i32, width: (x2 - x1) as i32, height: (y2 - y1) as i32 }
}

/// `v` pulled into `[lo, hi]`, testing the upper bound first.
pub open spec fn clip_to(v: int, lo: int, hi: int) -> int {
    if v > hi {
        hi
    } else if v < lo {
        lo
    } else {
        v
    }
}

/// Whether the span `[a1, a2)` meets the span `[b1, b2)` on one axis, by the
/// three cases that classify touching, nested and enclosing spans.
pub open spec fn spans_overlap(a1: int, a2: int, b1: int, b2: int) -> bool {
    (a2 > b1 && b1 >= a1) || (a2 > b2 && b2 > a1) || (b1 < a1 && b2 >= a2)
}

/// Where a cut lands on an extent: a negative cut is measured back from the
/// far edge.
pub open spec fn cut_point(cut: int, extent: int) -> int {
    if cut < 0 {
        extent + cut
    } else {
        cut
    }
}

/// The edge of a region chosen by `k`: 0 left, 1 top, 2 right, 3 bottom.
pub open spec fn edge(r: Region, k: int) -> int {
    if k == 0 {
        r.x as int
    } else if k == 1 {
        r.y as int
    } else if k == 2 {
        r.spec_right()
    } else {
        r.spec_bottom()
    }
}

/// `v` is the smallest edge `k` among the regions `s`.
pub open spec fn is_least_edge(s: Seq<Region>, k: int, v: int) -> bool {
    &&& exists|i: int| 0 <= i < s.len() && edge(s[i], k) == v
    &&& forall|i: int| 0 <= i < s.len() ==> v <= edge(#[trigger] s[i], k)
}

/// `v` is the largest edge `k` among the regions `s`.
pub open spec fn is_greatest_edge(s: Seq<Region>, k: int, v: int) -> bool {
    &&& exists|i: int| 0 <= i < s.len() && edge(s[i], k) == v
    &&& forall|i: int| 0 <= i < s.len() ==> edge(#[trigger] s[i], k) <= v
}

/// Whether the bounding box of `s` can be stored: every far edge less every
/// near edge fits in `i32`.
pub open spec fn union_span_fits(s: Seq<Region>) -> bool {
    forall|i: int, j: int|
        0 <= i < s.len() && 0 <= j < s.len() ==> is_i32(#[trigger] s[i].spec_right() - #[trigger] s[j].x)
            && is_i32(s[i].spec_bottom() - s[j].y)
}

impl Region {
    pub open spec fn spec_right(self) -> int {
        self.x + self.width
    }

    pub open spec fn spec_bottom(self) -> int {
        self.y + self.height
    }

    pub open spec fn spec_area(self) -> int {
        self.width * self.height
    }

    /// The field at position `i`: `x`, `y`, `width`, `height`.
    pub open spec fn field(self, i: int) -> i32 {
        if i == 0 {
            self.x
        } else if i == 1 {
            self.y
        } else if i == 2 {
            self.width
        } else {
            self.height
        }
    }

    /// Half-open containment of the cell `(px, py)`.
    pub open spec fn spec_contains(self, px: int, py: int) -> bool {
        self.x <= px < self.spec_right() && self.y <= py < self.spec_bottom()
    }

    /// Every corner of `other` lies in `[x, right] x [y, bottom]`, both ends
    /// included.
    pub open spec fn spec_contains_region(self, other: Region) -> bool {
        &&& self.x <= other.x <= self.spec_right()
        &&& self.y <= other.y <= self.spec_bottom()
        &&& self.x <= other.spec_right() <= self.spec_right()
        &&& self.y <= other.spec_bottom() <= self.spec_bottom()
    }

    pub open spec fn spec_overlaps(self, other: Region) -> bool {
        spans_overlap(self.x as int, self.spec_right(), other.x as int, other.spec_right())
            && spans_overlap(self.y as int, self.spec_bottom(), other.y as int, other.spec_bottom())
    }

    pub open spec fn grow_fits(self, margin: Spacing) -> bool {
        margin.is_zero() || {
            &&& is_i32(self.x - margin.left)
            &&& is_i32(self.y - margin.top)
            &&& is_i32(max_int(0, self.width + margin.left + margin.right))
            &&& is_i32(max_int(0, self.height + margin.top + margin.bottom))
        }
    }

    /// The region pushed outwards by `margin` on each edge; an extent that
    /// would go negative becomes zero, and a zero margin changes nothing.
    pub open spec fn spec_grow(self, margin: Spacing) -> Region {
        if margin.is_zero() {
            self
        } else {
            Region {
                x: (self.x - margin.left) as i32,
                y: (self.y - margin.top) as i32,
                width: max_int(0, self.width + margin.left + margin.right) as i32,
                height: max_int(0, self.height + margin.top + margin.bottom) as i32,
            }
        }
    }

    pub open spec fn shrink_fits(self, margin: Spacing) -> bool {
        margin.is_zero() || {
            &&& is_i32(self.x + margin.left)
            &&& is_i32(self.y + margin.top)
            &&& is_i32(max_int(0, self.width - (margin.left + margin.right)))
            &&& is_i32(max_int(0, self.height - (margin.top + margin.bottom)))
        }
    }

    /// The region pulled inwards by `margin` on each edge; an extent that
    /// would go negative becomes zero, and a zero margin changes nothing.
    pub open spec fn spec_shrink(self, margin: Spacing) -> Region {
        if margin.is_zero() {
            self
        } else {
            Region {
                x: (self.x + margin.left) as i32,
                y: (self.y + margin.top) as i32,
                width: max_int(0, self.width - (margin.left + margin.right)) as i32,
                height: max_int(0, self.height - (margin.top + margin.bottom)) as i32,
            }
        }
    }

    pub open spec fn intersection_fits(self, other: Region) -> bool {
        corners_fit(
            clip_to(self.x as int, other.x as int, other.spec_right()),
            clip_to(self.y as int, other.y as int, other.spec_bottom()),
            clip_to(self.spec_right(), other.x as int, other.spec_right()),
            clip_to(self.spec_bottom(), other.y as int, other.spec_bottom()),
        )
    }

    /// Each corner of `self` pulled into `other`; disjoint regions give an
    /// empty (zero or negative extent) result.
    pub open spec fn spec_intersection(self, other: Region) -> Region {
        region_from_corners(
            clip_to(self.x as int, other.x as int, other.spec_right()),
            clip_to(self.y as int, other.y as int, other.spec_bottom()),
            clip_to(self.spec_right(), other.x as int, other.spec_right()),
            clip_to(self.spec_bottom(), other.y as int, other.spec_bottom()),
        )
    }

    pub open spec fn union_fits(self, other: Region) -> bool {
        corners_fit(
            min_int(self.x as int, other.x as int),
            min_int(self.y as int, other.y as int),
            max_int(self.spec_right(), other.spec_right()),
            max_int(self.spec_bottom(), other.spec_bottom()),
        )
    }

    /// The bounding box of both regions' corners.
    pub open spec fn spec_union(self, other: Region) -> Region {
        region_from_corners(
            min_int(self.x as int, other.x as int),
            min_int(self.y as int, other.y as int),
            max_int(self.spec_right(), other.spec_right()),
            max_int(self.spec_bottom(), other.spec_bottom()),
        )
    }

    pub open spec fn split_fits(self, cut_x: int, cut_y: int) -> bool {
        let cx = cut_point(cut_x, self.width as int);
        let cy = cut_point(cut_y, self.height as int);
        &&& is_i32(cx) && is_i32(cy)
        &&& is_i32(self.x + cx) && is_i32(self.y + cy)
        &&& is_i32(self.width - cx) && is_i32(self.height - cy)
    }

    /// The quadrants `(top_left, top_right, bottom_left, bottom_right)` that
    /// meet at the cut point.
    pub open spec fn spec_split(self, cut_x: int, cut_y: int) -> (Region, Region, Region, Region) {
        let cx = cut_point(cut_x, self.width as int);
        let cy = cut_point(cut_y, self.height as int);
        (
            region_from_corners(self.x as int, self.y as int, self.x + cx, self.y + cy),
            region_from_corners(self.x + cx, self.y as int, self.spec_right(), self.y + cy),
            region_from_corners(self.x as int, self.y + cy, self.x + cx, self.spec_bottom()),
            region_from_corners(self.x + cx, self.y + cy, self.spec_right(), self.spec_bottom()),
        )
    }

    pub(crate) fn right_wide(&self) -> (r: i64)
        ensures
            r == self.spec_right(),
    {
        self.x as i64 + self.width as i64
    }

    pub(crate) fn bottom_wide(&self) -> (r: i64)
        ensures
            r == self.spec_bottom(),
    {
        self.y as i64 + self.height as i64
    }

    pub fn new(x: i32, y: i32, width: i32, height: i32) -> (r: Region)
        ensures
            r == (Region { x, y, width, height }),
    {
        Region { x, y, width, height }
    }

    /// The region with corners `(x1, y1)` and `(x2, y2)`; reversed corners
    /// give negative extents.
    pub fn from_corners(x1: i32, y1: i32, x2: i32, y2: i32) -> (r: Region)
        requires
            is_i32(x2 - x1),
            is_i32(y2 - y1),
        ensures
            r == (Region { x: x1, y: y1, width: (x2 - x1) as i32, height: (y2 - y1) as i32 }),
    {
        Region { x: x1, y: y1, width: x2 - x1, height: y2 - y1 }
    }

    /// The region at `offset` with the given size.
    pub fn from_offset(offset: &GeometryOffset, size: &Size) -> (r: Region)
        ensures
            r == (Region { x: offset.x, y: offset.y, width: size.width, height: size.height }),
    {
        Region { x: offset.x, y: offset.y, width: size.width, height: size.height }
    }

    /// Indexed access in field order; negative indices count from the end.
    pub fn get(&self, index: isize) -> (r: Result<i32, GeometryError>)
        ensures
            ({
                let i = normalize_index(index as int, 4);
                &&& 0 <= i < 4 ==> r == Ok::<i32, GeometryError>(self.field(i))
                &&& !(0 <= i < 4) ==> r == Err::<i32, GeometryError>(GeometryError::IndexOutOfRange)
            }),
    {
        let i: isize = if index < 0 {
            4 + index
        } else {
            index
        };
        if i == 0 {
            Ok(self.x)
        } else if i == 1 {
            Ok(self.y)
        } else if i == 2 {
            Ok(self.width)
        } else if i == 3 {
            Ok(self.height)
        } else {
            Err(GeometryError::IndexOutOfRange)
        }
    }

    /// The number of fields.
    pub fn len(&self) -> (r: usize)
        ensures
            r == 4,
    {
        4
    }

    /// Truth value of a region: true when its area is positive.
    pub fn is_nonzero(&self) -> (r: bool)
        ensures
            r == (self.spec_area() > 0),
    {
        let w = self.width;
        let h = self.height;
        proof {
            assert((w > 0 && h > 0) || (w < 0 && h < 0) ==> w * h > 0) by (nonlinear_arith);
            assert(w * h > 0 ==> (w > 0 && h > 0) || (w < 0 && h < 0)) by (nonlinear_arith);
        }
        (w > 0 && h > 0) || (w < 0 && h < 0)
    }

    /// The region moved by `delta`.
    pub fn add(&self, delta: (i32, i32)) -> (r: Region)
        requires
            is_i32(self.x + delta.0),
            is_i32(self.y + delta.1),
        ensures
            r == (Region {
                x: (self.x + delta.0) as i32,
                y: (self.y + delta.1) as i32,
                width: self.width,
                height: self.height,
            }),
    {
        Region { x: self.x + delta.0, y: self.y + delta.1, width: self.width, height: self.height }
    }

    /// The region moved back by `delta`.
    pub fn sub(&self, delta: (i32, i32)) -> (r: Region)
        requires
            is_i32(self.x - delta.0),
            is_i32(self.y - delta.1),
        ensures
            r == (Region {
                x: (self.x - delta.0) as i32,
                y: (self.y - delta.1) as i32,
                width: self.width,
                height: self.height,
            }),
    {
        Region { x: self.x - delta.0, y: self.y - delta.1, width: self.width, height: self.height }
    }

    /// The gaps from the edges of `self` to those of `region`; negative where
    /// `region` reaches beyond `self`.
    pub fn get_spacing_between(&self, region: &Region) -> (r: Spacing)
        requires
            is_i32(region.y - self.y),
            is_i32(self.spec_right() - region.spec_right()),
            is_i32(self.spec_bottom() - region.spec_bottom()),
            is_i32(region.x - self.x),
        ensures
            r.top == region.y - self.y,
            r.right == self.spec_right() - region.spec_right(),
            r.bottom == self.spec_bottom() - region.spec_bottom(),
            r.left == region.x - self.x,
    {
        Spacing {
            top: (region.y as i64 - self.y as i64) as i32,
            right: (self.right_wide() - region.right_wide()) as i32,
            bottom: (self.bottom_wide() - region.bottom_wide()) as i32,
            left: (region.x as i64 - self.x as i64) as i32,
        }
    }

    /// The horizontal span `(x, right)`.
    pub fn column_span(&self) -> (r: (i32, i32))
        requires
            is_i32(self.spec_right()),
        ensures
            r.0 == self.x,
            r.1 == self.spec_right(),
    {
        (self.x, self.x + self.width)
    }

    /// The vertical span `(y, bottom)`.
    pub fn line_span(&self) -> (r: (i32, i32))
        requires
            is_i32(self.spec_bottom()),
        ensures
            r.0 == self.y,
            r.1 == self.spec_bottom(),
    {
        (self.y, self.y + self.height)
    }

    /// The far horizontal edge, `x + width`.
    pub fn right(&self) -> (r: i32)
        requires
            is_i32(self.spec_right()),
        ensures
            r == self.spec_right(),
    {
        self.x + self.width
    }

    /// The far vertical edge, `y + height`.
    pub fn bottom(&self) -> (r: i32)
        requires
            is_i32(self.spec_bottom()),
        ensures
            r == self.spec_bottom(),
    {
        self.y + self.height
    }

    /// `width * height`.
    pub fn area(&self) -> (r: i32)
        requires
            is_i32(self.spec_area()),
        ensures
            r == self.spec_area(),
    {
        self.width * self.height
    }

    /// The top-left corner.
    pub fn offset(&self) -> (r: GeometryOffset)
        ensures
            r == (GeometryOffset { x: self.x, y: self.y }),
    {
        GeometryOffset { x: self.x, y: self.y }
    }

    /// The bottom-left corner, `(x, bottom)`.
    pub fn bottom_left(&self) -> (r: GeometryOffset)
        requires
            is_i32(self.spec_bottom()),
        ensures
            r.x == self.x,
            r.y == self.spec_bottom(),
    {
        GeometryOffset { x: self.x, y: self.y + self.height }
    }

    /// The top-right corner, `(right, y)`.
    pub fn top_right(&self) -> (r: GeometryOffset)
        requires
            is_i32(self.spec_right()),
        ensures
            r.x == self.spec_right(),
            r.y == self.y,
    {
        GeometryOffset { x: self.x + self.width, y: self.y }
    }

    /// The bottom-right corner, `(right, bottom)`.
    pub fn bottom_right(&self) -> (r: GeometryOffset)
        requires
            is_i32(self.spec_right()),
            is_i32(self.spec_bottom()),
        ensures
            r.x == self.spec_right(),
            r.y == self.spec_bottom(),
    {
        GeometryOffset { x: self.x + self.width, y: self.y + self.height }
    }

    /// The last cell inside the region, `(right - 1, bottom - 1)`.
    pub fn bottom_right_inclusive(&self) -> (r: GeometryOffset)
        requires
            is_i32(self.spec_right() - 1),
            is_i32(self.spec_bottom() - 1),
        ensures
            r.x == self.spec_right() - 1,
            r.y == self.spec_bottom() - 1,
    {
        GeometryOffset {
            x: (self.right_wide() - 1) as i32,
            y: (self.bottom_wide() - 1) as i32,
        }
    }

    /// The dimensions without the position.
    pub fn size(&self) -> (r: Size)
        ensures
            r == (Size { width: self.width, height: self.height }),
    {
        Size { width: self.width, height: self.height }
    }

    /// The corners as `(x, y, right, bottom)`.
    pub fn corners(&self) -> (r: (i32, i32, i32, i32))
        requires
            is_i32(self.spec_right()),
            is_i32(self.spec_bottom()),
        ensures
            r.0 == self.x,
            r.1 == self.y,
            r.2 == self.spec_right(),
            r.3 == self.spec_bottom(),
    {
        (self.x, self.y, self.x + self.width, self.y + self.height)
    }

    /// The same size at the origin.
    pub fn reset_offset(&self) -> (r: Region)
        ensures
            r == (Region { x: 0, y: 0, width: self.width, height: self.height }),
    {
        Region { x: 0, y: 0, width: self.width, height: self.height }
    }

    /// The same size with its origin replaced by `offset` (not added to it).
    pub fn at_offset(&self, offset: (i32, i32)) -> (r: Region)
        ensures
            r == (Region { x: offset.0, y: offset.1, width: self.width, height: self.height }),
    {
        Region { x: offset.0, y: offset.1, width: self.width, height: self.height }
    }

    /// The region cut down to no more than `size` on each axis; the origin
    /// stays.
    pub fn crop_size(&self, size: (i32, i32)) -> (r: Region)
        ensures
            r.x == self.x,
            r.y == self.y,
            r.width == min_int(self.width as int, size.0 as int),
            r.height == min_int(self.height as int, size.1 as int),
    {
        Region {
            x: self.x,
            y: self.y,
            width: if self.width <= size.0 {
                self.width
            } else {
                size.0
            },
            height: if self.height <= size.1 {
                self.height
            } else {
                size.1
            },
        }
    }

    /// The region grown by `size` on every side: the origin moves back by
    /// `size` and each extent grows by twice it.
    pub fn expand(&self, size: (i32, i32)) -> (r: Region)
        requires
            is_i32(self.x - size.0),
            is_i32(self.y - size.1),
            is_i32(self.width + 2 * size.0),
            is_i32(self.height + 2 * size.1),
        ensures
            r.x == self.x - size.0,
            r.y == self.y - size.1,
            r.width == self.width + 2 * size.0,
            r.height == self.height + 2 * size.1,
    {
        let (expand_width, expand_height) = size;
        Region {
            x: self.x - expand_width,
            y: self.y - expand_height,
            width: (self.width as i64 + expand_width as i64 * 2) as i32,
            height: (self.height as i64 + expand_height as i64 * 2) as i32,
        }
    }

    /// Whether the two regions share a cell on both axes.
    pub fn overlaps(&self, other: &Region) -> (r: bool)
        ensures
            r == self.spec_overlaps(*other),
    {
        let (x, y, x2, y2) = (self.x as i64, self.y as i64, self.right_wide(), self.bottom_wide());
        let (ox, oy, ox2, oy2) = (
            other.x as i64,
            other.y as i64,
            other.right_wide(),
            other.bottom_wide(),
        );
        ((x2 > ox && ox >= x) || (x2 > ox2 && ox2 > x) || (ox < x && ox2 >= x2)) && ((y2 > oy
            && oy >= y) || (y2 > oy2 && oy2 > y) || (oy < y && oy2 >= y2))
    }

    /// Whether the cell `(x, y)` lies inside the region.
    pub fn contains(&self, x: i32, y: i32) -> (r: bool)
        ensures
            r == self.spec_contains(x as int, y as int),
    {
        self.right_wide() > x as i64 && x >= self.x && self.bottom_wide() > y as i64 && y >= self.y
    }

    /// Whether every corner of `other` lies within this region, far edges
    /// included.
    pub fn contains_region(&self, other: &Region) -> (r: bool)
        ensures
            r == self.spec_contains_region(*other),
    {
        let (x1, y1, x2, y2) = (self.x as i64, self.y as i64, self.right_wide(), self.bottom_wide());
        let (ox, oy, ox2, oy2) = (
            other.x as i64,
            other.y as i64,
            other.right_wide(),
            other.bottom_wide(),
        );
        (x2 >= ox && ox >= x1) && (y2 >= oy && oy >= y1) && (x2 >= ox2 && ox2 >= x1) && (y2 >= oy2
            && oy2 >= y1)
    }

    /// The region moved by `offset`; the size stays.
    pub fn translate(&self, offset: OffsetPair) -> (r: Region)
        requires
            is_i32(self.x + offset.spec_tuple().0),
            is_i32(self.y + offset.spec_tuple().1),
        ensures
            r == (Region {
                x: (self.x + offset.spec_tuple().0) as i32,
                y: (self.y + offset.spec_tuple().1) as i32,
                width: self.width,
                height: self.height,
            }),
    {
        let (offset_x, offset_y) = offset.to_tuple();
        Region { x: self.x + offset_x, y: self.y + offset_y, width: self.width, height: self.height }
    }

    /// The region clipped to `[0, width] x [0, height]`: each corner is
    /// clamped into that box, so a region of non-negative extents stays so.
    pub fn clip(&self, width: i32, height: i32) -> (r: Region)
        requires
            is_i32(
                clamp_spec(self.spec_right(), 0, width as int) - clamp_spec(self.x as int, 0, width as int),
            ),
            is_i32(
                clamp_spec(self.spec_bottom(), 0, height as int) - clamp_spec(
                    self.y as int,
                    0,
                    height as int,
                ),
            ),
        ensures
            r.x == clamp_spec(self.x as int, 0, width as int),
            r.y == clamp_spec(self.y as int, 0, height as int),
            r.width == clamp_spec(self.spec_right(), 0, width as int) - clamp_spec(
                self.x as int,
                0,
                width as int,
            ),
            r.height == clamp_spec(self.spec_bottom(), 0, height as int) - clamp_spec(
                self.y as int,
                0,
                height as int,
            ),
            self.width >= 0 ==> r.width >= 0,
            self.height >= 0 ==> r.height >= 0,
    {
        let x = clamp_wide(self.x as i64, 0, width as i64);
        let y = clamp_wide(self.y as i64, 0, height as i64);
        let x2 = clamp_wide(self.right_wide(), 0, width as i64);
        let y2 = clamp_wide(self.bottom_wide(), 0, height as i64);
        Region { x: x as i32, y: y as i32, width: (x2 - x) as i32, height: (y2 - y) as i32 }
    }

    /// The region pushed outwards by `margin`; extents do not go below zero.
    pub fn grow(&self, margin: &Spacing) -> (r: Region)
        requires
            self.grow_fits(*margin),
        ensures
            r == self.spec_grow(*margin),
    {
        if margin.top == 0 && margin.right == 0 && margin.bottom == 0 && margin.left == 0 {
            return *self;
        }
        let width = self.width as i64 + margin.left as i64 + margin.right as i64;
        let height = self.height as i64 + margin.top as i64 + margin.bottom as i64;
        Region {
            x: (self.x as i64 - margin.left as i64) as i32,
            y: (self.y as i64 - margin.top as i64) as i32,
            width: if width < 0 {
                0
            } else {
                width as i32
            },
            height: if height < 0 {
                0
            } else {
                height as i32
            },
        }
    }

    /// The region pulled inwards by `margin`; extents do not go below zero.
    pub fn shrink(&self, margin: &Spacing) -> (r: Region)
        requires
            self.shrink_fits(*margin),
        ensures
            r == self.spec_shrink(*margin),
    {
        if margin.top == 0 && margin.right == 0 && margin.bottom == 0 && margin.left == 0 {
            return *self;
        }
        let width = self.width as i64 - (margin.left as i64 + margin.right as i64);
        let height = self.height as i64 - (margin.top as i64 + margin.bottom as i64);
        Region {
            x: (self.x as i64 + margin.left as i64) as i32,
            y: (self.y as i64 + margin.top as i64) as i32,
            width: if width < 0 {
                0
            } else {
                width as i32
            },
            height: if height < 0 {
                0
            } else {
                height as i32
            },
        }
    }

    /// The overlap of two regions, found by pulling each corner of `self`
    /// into `region`. Disjoint regions give an empty result, which is not
    /// special-cased: callers check its area.
    pub fn intersection(&self, region: &Region) -> (r: Region)
        requires
            self.intersection_fits(*region),
        ensures
            r == self.spec_intersection(*region),
    {
        let (x1, y1) = (self.x as i64, self.y as i64);
        let (x2, y2) = (self.right_wide(), self.bottom_wide());
        let (cx1, cy1) = (region.x as i64, region.y as i64);
        let (cx2, cy2) = (region.right_wide(), region.bottom_wide());

        let rx1 = if x1 > cx2 {
            cx2
        } else if x1 < cx1 {
            cx1
        } else {
            x1
        };
        let ry1 = if y1 > cy2 {
            cy2
        } else if y1 < cy1 {
            cy1
        } else {
            y1
        };
        let rx2 = if x2 > cx2 {
            cx2
        } else if x2 < cx1 {
            cx1
        } else {
            x2
        };
        let ry2 = if y2 > cy2 {
            cy2
        } else if y2 < cy1 {
            cy1
        } else {
            y2
        };

        Region {
            x: rx1 as i32,
            y: ry1 as i32,
            width: (rx2 - rx1) as i32,
            height: (ry2 - ry1) as i32,
        }
    }

    /// The smallest region covering the corners of both.
    pub fn union(&self, region: &Region) -> (r: Region)
        requires
            self.union_fits(*region),
        ensures
            r == self.spec_union(*region),
    {
        let x = if self.x <= region.x {
            self.x
        } else {
            region.x
        };
        let y = if self.y <= region.y {
            self.y
        } else {
            region.y
        };
        let x2 = if self.right_wide() >= region.right_wide() {
            self.right_wide()
        } else {
            region.right_wide()
        };
        let y2 = if self.bottom_wide() >= region.bottom_wide() {
            self.bottom_wide()
        } else {
            region.bottom_wide()
        };
        Region { x, y, width: (x2 - x as i64) as i32, height: (y2 - y as i64) as i32 }
    }
    /// The bounding box of a non-empty collection of regions.
    pub fn from_union(regions: &[Region]) -> (r: Result<Region, GeometryError>)
        requires
            union_span_fits(regions@),
        ensures
            regions@.len() == 0 ==> r == Err::<Region, GeometryError>(GeometryError::EmptyCollection),
            regions@.len() > 0 ==> (r matches Ok(b) && {
                &&& is_least_edge(regions@, 0, b.x as int)
                &&& is_least_edge(regions@, 1, b.y as int)
                &&& is_greatest_edge(regions@, 2, b.spec_right())
                &&& is_greatest_edge(regions@, 3, b.spec_bottom())
            }),
    {
        if regions.len() == 0 {
            return Err(GeometryError::EmptyCollection);
        }
        let mut min_x: i32 = regions[0].x;
        let mut min_y: i32 = regions[0].y;
        let mut max_x: i64 = regions[0].right_wide();
        let mut max_y: i64 = regions[0].bottom_wide();
        let ghost (mut ix, mut iy, mut jx, mut jy) = (0int, 0int, 0int, 0int);
        let mut i: usize = 1;
        while i < regions.len()
            invariant
                1 <= i <= regions@.len(),
                0 <= ix < i && regions@[ix].x == min_x,
                0 <= iy < i && regions@[iy].y == min_y,
                0 <= jx < i && regions@[jx].spec_right() == max_x,
                0 <= jy < i && regions@[jy].spec_bottom() == max_y,
                forall|k: int| 0 <= k < i ==> min_x <= (#[trigger] regions@[k]).x,
                forall|k: int| 0 <= k < i ==> min_y <= (#[trigger] regions@[k]).y,
                forall|k: int| 0 <= k < i ==> (#[trigger] regions@[k]).spec_right() <= max_x,
                forall|k: int| 0 <= k < i ==> (#[trigger] regions@[k]).spec_bottom() <= max_y,
            decreases regions@.len() - i,
        {
            let r = &regions[i];
            if r.x < min_x {
                min_x = r.x;
                proof {
                    ix = i as int;
                }
            }
            if r.y < min_y {
                min_y = r.y;
                proof {
                    iy = i as int;
                }
            }
            if r.right_wide() > max_x {
                max_x = r.right_wide();
                proof {
                    jx = i as int;
                }
            }
            if r.bottom_wide() > max_y {
                max_y = r.bottom_wide();
                proof {
                    jy = i as int;
                }
            }
            i = i + 1;
        }
        assert(is_i32(regions@[jx].spec_right() - regions@[ix].x));
        assert(is_i32(regions@[jy].spec_bottom() - regions@[iy].y));
        let b = Region {
            x: min_x,
            y: min_y,
            width: (max_x - min_x as i64) as i32,
            height: (max_y - min_y as i64) as i32,
        };
        assert(edge(regions@[ix], 0) == b.x);
        assert(edge(regions@[iy], 1) == b.y);
        assert(edge(regions@[jx], 2) == b.spec_right());
        assert(edge(regions@[jy], 3) == b.spec_bottom());
        Ok(b)
    }

    /// Four quadrants meeting at the cut point, as `(top_left, top_right,
    /// bottom_left, bottom_right)`. A negative cut is measured from the far
    /// edge. The quadrants tile the region.
    pub fn split(&self, cut_x: i32, cut_y: i32) -> (r: (Region, Region, Region, Region))
        requires
            self.split_fits(cut_x as int, cut_y as int),
        ensures
            r == self.spec_split(cut_x as int, cut_y as int),
    {
        let cx: i32 = if cut_x < 0 {
            (self.width as i64 + cut_x as i64) as i32
        } else {
            cut_x
        };
        let cy: i32 = if cut_y < 0 {
            (self.height as i64 + cut_y as i64) as i32
        } else {
            cut_y
        };
        let (x, y, width, height) = (self.x, self.y, self.width, self.height);
        (
            Region { x, y, width: cx, height: cy },
            Region { x: x + cx, y, width: width - cx, height: cy },
            Region { x, y: y + cy, width: cx, height: height - cy },
            Region { x: x + cx, y: y + cy, width: width - cx, height: height - cy },
        )
    }

    /// Two regions, one above the other, cut at `cut` rows from the top (or,
    /// for a negative `cut`, from the bottom).
    pub fn split_horizontal(&self, cut: i32) -> (r: (Region, Region))
        requires
            is_i32(cut_point(cut as int, self.height as int)),
            is_i32(self.y + cut_point(cut as int, self.height as int)),
            is_i32(self.height - cut_point(cut as int, self.height as int)),
        ensures
            ({
                let c = cut_point(cut as int, self.height as int);
                &&& r.0 == region_from_corners(
                    self.x as int,
                    self.y as int,
                    self.spec_right(),
                    self.y + c,
                )
                &&& r.1 == region_from_corners(
                    self.x as int,
                    self.y + c,
                    self.spec_right(),
                    self.spec_bottom(),
                )
            }),
    {
        let c: i32 = if cut < 0 {
            (self.height as i64 + cut as i64) as i32
        } else {
            cut
        };
        (
            Region { x: self.x, y: self.y, width: self.width, height: c },
            Region { x: self.x, y: self.y + c, width: self.width, height: self.height - c },
        )
    }

    /// Two regions side by side, cut at `cut` columns from the left (or, for
    /// a negative `cut`, from the right).
    pub fn split_vertical(&self, cut: i32) -> (r: (Region, Region))
        requires
            is_i32(cut_point(cut as int, self.width as int)),
            is_i32(self.x + cut_point(cut as int, self.width as int)),
            is_i32(self.width - cut_point(cut as int, self.width as int)),
        ensures
            ({
                let c = cut_point(cut as int, self.width as int);
                &&& r.0 == region_from_corners(
                    self.x as int,
                    self.y as int,
                    self.x + c,
                    self.spec_bottom(),
                )
                &&& r.1 == region_from_corners(
                    self.x + c,
                    self.y as int,
                    self.spec_right(),
                    self.spec_bottom(),
                )
            }),
    {
        let c: i32 = if cut < 0 {
            (self.width as i64 + cut as i64) as i32
        } else {
            cut
        };
        (
            Region { x: self.x, y: self.y, width: c, height: self.height },
            Region { x: self.x + c, y: self.y, width: self.width - c, height: self.height },
        )
    }
}

} // verus!
