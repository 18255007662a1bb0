//! Properties that relate several operations, proved for all inputs.
use vstd::prelude::*;

use crate::offset::GeometryOffset;
use crate::region::Region;
use crate::spacing::Spacing;

verus! {

/// Adding an offset to its negation gives the origin. (An offset with an
/// `i32::MIN` component has no negation in `i32`.)
pub proof fn offset_plus_negation_is_origin(a: GeometryOffset)
    requires
        a.x != i32::MIN,
        a.y != i32::MIN,
    ensures
        a.spec_add(a.spec_neg()) == (GeometryOffset { x: 0, y: 0 }),
{
}

/// Shrinking by a margin undoes growing by it, when the margin is zero or
/// when no edge of the margin and no extent of the region is negative.
pub proof fn shrink_undoes_grow(r: Region, m: Spacing)
    requires
        m.is_zero() || (m.top >= 0 && m.right >= 0 && m.bottom >= 0 && m.left >= 0 && r.width >= 0
            && r.height >= 0),
        r.grow_fits(m),
    ensures
        r.spec_grow(m).shrink_fits(m),
        r.spec_grow(m).spec_shrink(m) == r,
{
}

/// A region with non-negative extents is its own intersection with itself,
/// and contains itself.
pub proof fn region_meets_itself(r: Region)
    requires
        r.width >= 0,
        r.height >= 0,
    ensures
        r.intersection_fits(r),
        r.spec_intersection(r) == r,
        r.spec_contains_region(r),
{
}

/// The bounding box of two regions does not depend on their order.
pub proof fn union_commutes(a: Region, b: Region)
    requires
        a.union_fits(b),
    ensures
        b.union_fits(a),
        a.spec_union(b) == b.spec_union(a),
{
}

/// The four quadrants of a split cover the region's area exactly.
pub proof fn split_preserves_area(r: Region, cut_x: int, cut_y: int)
    requires
        r.split_fits(cut_x, cut_y),
    ensures
        ({
            let (a, b, c, d) = r.spec_split(cut_x, cut_y);
            a.spec_area() + b.spec_area() + c.spec_area() + d.spec_area() == r.spec_area()
        }),
{
    let (a, b, c, d) = r.spec_split(cut_x, cut_y);
    let w = r.width as int;
    let h = r.height as int;
    let cx = a.width as int;
    let cy = a.height as int;
    assert(b.width == w - cx && b.height == cy);
    assert(c.width == cx && c.height == h - cy);
    assert(d.width == w - cx && d.height == h - cy);
    assert(cx * cy + (w - cx) * cy + cx * (h - cy) + (w - cx) * (h - cy) == w * h)
        by (nonlinear_arith);
}

} // verus!
