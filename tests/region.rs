use textual_speedups::{GeometryError, GeometryOffset, OffsetPair, Region, Size, Spacing};

#[test]
fn split_into_quadrants() {
    let (a, b, c, d) = Region::new(0, 0, 10, 10).split(4, 6);
    assert_eq!(a, Region::new(0, 0, 4, 6));
    assert_eq!(b, Region::new(4, 0, 6, 6));
    assert_eq!(c, Region::new(0, 6, 4, 4));
    assert_eq!(d, Region::new(4, 6, 6, 4));
    assert_eq!(a.area() + b.area() + c.area() + d.area(), 100);
}

#[test]
fn split_with_negative_cuts() {
    let (a, b, c, d) = Region::new(2, 3, 10, 8).split(-3, -2);
    assert_eq!(a, Region::new(2, 3, 7, 6));
    assert_eq!(b, Region::new(9, 3, 3, 6));
    assert_eq!(c, Region::new(2, 9, 7, 2));
    assert_eq!(d, Region::new(9, 9, 3, 2));
}

#[test]
fn split_horizontal_negative_cut() {
    let (top, bottom) = Region::new(0, 0, 20, 20).split_horizontal(-5);
    assert_eq!(top, Region::new(0, 0, 20, 15));
    assert_eq!(bottom, Region::new(0, 15, 20, 5));
}

#[test]
fn split_horizontal_and_vertical() {
    assert_eq!(
        Region::new(1, 1, 10, 6).split_horizontal(2),
        (Region::new(1, 1, 10, 2), Region::new(1, 3, 10, 4))
    );
    assert_eq!(
        Region::new(1, 1, 10, 6).split_vertical(4),
        (Region::new(1, 1, 4, 6), Region::new(5, 1, 6, 6))
    );
    assert_eq!(
        Region::new(1, 1, 10, 6).split_vertical(-4),
        (Region::new(1, 1, 6, 6), Region::new(7, 1, 4, 6))
    );
}

#[test]
fn grow_then_shrink() {
    let r = Region::new(0, 0, 10, 10);
    let grown = r.grow(&Spacing::new(2, 2, 2, 2));
    assert_eq!(grown, Region::new(-2, -2, 14, 14));
    assert_eq!(grown.shrink(&Spacing::new(2, 2, 2, 2)), r);
}

#[test]
fn grow_and_shrink_floor_extents_at_zero() {
    let r = Region::new(5, 5, 4, 4);
    assert_eq!(r.shrink(&Spacing::new(1, 3, 1, 3)), Region::new(8, 6, 0, 2));
    assert_eq!(r.grow(&Spacing::new(-3, 0, -3, 0)), Region::new(5, 8, 4, 0));
    assert_eq!(r.grow(&Spacing::new(1, 2, 3, 4)), Region::new(1, 4, 10, 8));
}

#[test]
fn zero_margin_keeps_region() {
    let r = Region::new(3, 4, -2, -5);
    assert_eq!(r.grow(&Spacing::new(0, 0, 0, 0)), r);
    assert_eq!(r.shrink(&Spacing::new(0, 0, 0, 0)), r);
}

#[test]
fn grow_shrink_round_trip_on_values() {
    for r in [Region::new(0, 0, 0, 0), Region::new(-5, 3, 7, 1), Region::new(100, -40, 3, 9)] {
        for m in [Spacing::new(0, 0, 0, 0), Spacing::new(1, 2, 3, 4), Spacing::all(7)] {
            assert_eq!(r.grow(&m).shrink(&m), r);
        }
    }
}

#[test]
fn intersection_and_containment_of_self() {
    for r in [Region::new(0, 0, 0, 0), Region::new(-5, 3, 7, 1), Region::new(2, 2, 10, 10)] {
        assert_eq!(r.intersection(&r), r);
        assert!(r.contains_region(&r));
    }
}

#[test]
fn intersection_of_overlapping_and_disjoint() {
    let a = Region::new(0, 0, 10, 10);
    let b = Region::new(5, 5, 10, 10);
    assert_eq!(a.intersection(&b), Region::new(5, 5, 5, 5));
    assert_eq!(b.intersection(&a), Region::new(5, 5, 5, 5));
    let far = Region::new(20, 20, 5, 5);
    let empty = a.intersection(&far);
    assert_eq!(empty, Region::new(20, 20, 0, 0));
    assert!(!empty.is_nonzero());
}

#[test]
fn union_is_bounding_box_and_commutes() {
    let a = Region::new(0, 0, 10, 10);
    let b = Region::new(5, -5, 10, 3);
    assert_eq!(a.union(&b), Region::new(0, -5, 15, 15));
    assert_eq!(a.union(&b), b.union(&a));
    let c = Region::new(-3, 20, 1, 1);
    assert_eq!(a.union(&c), c.union(&a));
}

#[test]
fn from_union_bounds_all() {
    let regions = [Region::new(0, 0, 2, 2), Region::new(5, 7, 1, 1), Region::new(-3, 4, 2, 10)];
    assert_eq!(Region::from_union(&regions), Ok(Region::new(-3, 0, 9, 14)));
    assert_eq!(Region::from_union(&regions[..1]), Ok(Region::new(0, 0, 2, 2)));
}

#[test]
fn from_union_refuses_empty() {
    assert_eq!(Region::from_union(&[]), Err(GeometryError::EmptyCollection));
}

#[test]
fn region_constructors() {
    assert_eq!(Region::from_corners(1, 2, 5, 8), Region::new(1, 2, 4, 6));
    assert_eq!(Region::from_corners(5, 8, 1, 2), Region::new(5, 8, -4, -6));
    assert_eq!(
        Region::from_offset(&GeometryOffset::new(3, 4), &Size::new(5, 6)),
        Region::new(3, 4, 5, 6)
    );
}

#[test]
fn region_getters() {
    let r = Region::new(2, 3, 10, 5);
    assert_eq!(r.right(), 12);
    assert_eq!(r.bottom(), 8);
    assert_eq!(r.area(), 50);
    assert_eq!(r.corners(), (2, 3, 12, 8));
    assert_eq!(r.column_span(), (2, 12));
    assert_eq!(r.line_span(), (3, 8));
    assert_eq!(r.offset(), GeometryOffset::new(2, 3));
    assert_eq!(r.size(), Size::new(10, 5));
    assert_eq!(r.bottom_left(), GeometryOffset::new(2, 8));
    assert_eq!(r.top_right(), GeometryOffset::new(12, 3));
    assert_eq!(r.bottom_right(), GeometryOffset::new(12, 8));
    assert_eq!(r.bottom_right_inclusive(), GeometryOffset::new(11, 7));
    assert_eq!(r.reset_offset(), Region::new(0, 0, 10, 5));
    assert_eq!(r.len(), 4);
}

#[test]
fn region_indexing() {
    let r = Region::new(2, 3, 10, 5);
    assert_eq!(r.get(0), Ok(2));
    assert_eq!(r.get(2), Ok(10));
    assert_eq!(r.get(-1), Ok(5));
    assert_eq!(r.get(-4), Ok(2));
    assert_eq!(r.get(4), Err(GeometryError::IndexOutOfRange));
    assert_eq!(r.get(-5), Err(GeometryError::IndexOutOfRange));
}

#[test]
fn region_truth_value() {
    assert!(Region::new(0, 0, 1, 1).is_nonzero());
    assert!(!Region::new(0, 0, 0, 5).is_nonzero());
    assert!(!Region::new(0, 0, -1, 5).is_nonzero());
    assert!(Region::new(0, 0, -1, -5).is_nonzero());
}

#[test]
fn region_moves() {
    let r = Region::new(2, 3, 10, 5);
    assert_eq!(r.translate(OffsetPair::Tuple((1, -1))), Region::new(3, 2, 10, 5));
    assert_eq!(
        r.translate(OffsetPair::Offset(GeometryOffset::new(-2, 4))),
        Region::new(0, 7, 10, 5)
    );
    assert_eq!(r.at_offset((7, 8)), Region::new(7, 8, 10, 5));
    assert_eq!(r.add((1, 1)), Region::new(3, 4, 10, 5));
    assert_eq!(r.sub((1, 1)), Region::new(1, 2, 10, 5));
}

#[test]
fn region_resizes() {
    let r = Region::new(2, 3, 10, 5);
    assert_eq!(r.crop_size((4, 20)), Region::new(2, 3, 4, 5));
    assert_eq!(r.expand((1, 2)), Region::new(1, 1, 12, 9));
}

#[test]
fn clip_keeps_extents_non_negative() {
    assert_eq!(Region::new(-5, -5, 10, 10).clip(20, 20), Region::new(0, 0, 5, 5));
    assert_eq!(Region::new(15, 15, 10, 10).clip(20, 20), Region::new(15, 15, 5, 5));
    assert_eq!(Region::new(30, 30, 10, 10).clip(20, 20), Region::new(20, 20, 0, 0));
    assert_eq!(Region::new(2, 3, 4, 5).clip(20, 20), Region::new(2, 3, 4, 5));
}

#[test]
fn contains_point_is_half_open() {
    let r = Region::new(2, 3, 10, 5);
    assert!(r.contains(2, 3));
    assert!(r.contains(11, 7));
    assert!(!r.contains(12, 7));
    assert!(!r.contains(11, 8));
    assert!(!r.contains(1, 3));
}

#[test]
fn contains_region_includes_far_edges() {
    let r = Region::new(0, 0, 10, 10);
    assert!(r.contains_region(&Region::new(0, 0, 10, 10)));
    assert!(r.contains_region(&Region::new(10, 10, 0, 0)));
    assert!(r.contains_region(&Region::new(2, 2, 3, 3)));
    assert!(!r.contains_region(&Region::new(5, 5, 6, 1)));
    assert!(!r.contains_region(&Region::new(-1, 0, 2, 2)));
}

#[test]
fn overlaps_cases() {
    let r = Region::new(0, 0, 10, 10);
    assert!(r.overlaps(&Region::new(5, 5, 10, 10)));
    assert!(r.overlaps(&Region::new(-5, -5, 10, 10)));
    assert!(r.overlaps(&Region::new(2, 2, 2, 2)));
    assert!(r.overlaps(&Region::new(-5, -5, 30, 30)));
    assert!(!r.overlaps(&Region::new(10, 0, 5, 5)));
    assert!(!r.overlaps(&Region::new(0, 10, 5, 5)));
    assert!(!r.overlaps(&Region::new(-5, 0, 5, 5)));
    assert!(!r.overlaps(&Region::new(20, 20, 5, 5)));
}

#[test]
fn spacing_between_regions() {
    let outer = Region::new(0, 0, 20, 10);
    let inner = Region::new(2, 1, 15, 6);
    assert_eq!(outer.get_spacing_between(&inner), Spacing::new(1, 3, 3, 2));
    assert_eq!(inner.get_spacing_between(&outer), Spacing::new(-1, -3, -3, -2));
}
