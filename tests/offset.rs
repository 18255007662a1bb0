use textual_speedups::{clamp, GeometryError, GeometryOffset, OffsetPair};

#[test]
fn offset_plus_negation_is_origin_on_values() {
    for (x, y) in [(0, 0), (3, -7), (-12, 40), (i32::MAX, -i32::MAX)] {
        let a = GeometryOffset::new(x, y);
        let sum = a.add(&a.neg());
        assert_eq!(sum, GeometryOffset::new(0, 0));
        assert!(sum.is_origin());
    }
}

#[test]
fn offset_arithmetic() {
    let a = GeometryOffset::new(3, 4);
    let b = GeometryOffset::new(-1, 10);
    assert_eq!(a.add(&b), GeometryOffset::new(2, 14));
    assert_eq!(a.sub(&b), GeometryOffset::new(4, -6));
    assert_eq!(a.scale(3), GeometryOffset::new(9, 12));
    assert_eq!(a.scale_each((2, -1)), GeometryOffset::new(6, -4));
    assert_eq!(a.neg(), GeometryOffset::new(-3, -4));
}

#[test]
fn offset_predicates_and_getters() {
    assert!(GeometryOffset::new(0, 0).is_origin());
    assert!(!GeometryOffset::new(0, 1).is_origin());
    assert!(!GeometryOffset::new(0, 0).is_nonzero());
    assert!(GeometryOffset::new(-1, 0).is_nonzero());
    assert_eq!(GeometryOffset::new(-5, 7).clamped(), GeometryOffset::new(0, 7));
    assert_eq!(GeometryOffset::new(5, -7).clamped(), GeometryOffset::new(5, 0));
    assert_eq!(GeometryOffset::new(5, 7).transpose(), (7, 5));
    assert_eq!(GeometryOffset::new(5, 7).len(), 2);
}

#[test]
fn offset_indexing() {
    let a = GeometryOffset::new(5, 7);
    assert_eq!(a.get(0), Ok(5));
    assert_eq!(a.get(1), Ok(7));
    assert_eq!(a.get(-1), Ok(7));
    assert_eq!(a.get(-2), Ok(5));
    assert_eq!(a.get(2), Err(GeometryError::IndexOutOfRange));
    assert_eq!(a.get(-3), Err(GeometryError::IndexOutOfRange));
}

#[test]
fn offset_clamp_into_size() {
    assert_eq!(GeometryOffset::new(-3, 50).clamp(10, 20), GeometryOffset::new(0, 19));
    assert_eq!(GeometryOffset::new(4, 5).clamp(10, 20), GeometryOffset::new(4, 5));
    assert_eq!(GeometryOffset::new(12, -1).clamp(10, 20), GeometryOffset::new(9, 0));
    // A zero extent gives the inverted interval [-1, 0].
    assert_eq!(GeometryOffset::new(5, -5).clamp(0, 0), GeometryOffset::new(0, -1));
}

#[test]
fn clamp_tolerates_swapped_bounds() {
    assert_eq!(clamp(5, 0, 10), 5);
    assert_eq!(clamp(-5, 0, 10), 0);
    assert_eq!(clamp(15, 0, 10), 10);
    assert_eq!(clamp(5, 10, 0), 5);
    assert_eq!(clamp(-5, 10, 0), 0);
    assert_eq!(clamp(15, 10, 0), 10);
    assert_eq!(clamp(3, 3, 3), 3);
}

#[test]
fn offset_pair_to_tuple() {
    assert_eq!(OffsetPair::Tuple((1, 2)).to_tuple(), (1, 2));
    assert_eq!(OffsetPair::Offset(GeometryOffset::new(3, 4)).to_tuple(), (3, 4));
}
