use textual_speedups::{GeometryError, GeometryOffset, Region, Size};

#[test]
fn size_area_and_truth() {
    assert_eq!(Size::new(3, 4).area(), 12);
    assert!(Size::new(3, 4).is_nonzero());
    assert!(!Size::new(0, 4).is_nonzero());
    assert!(!Size::new(3, 0).is_nonzero());
    assert!(Size::new(-3, 4).is_nonzero());
}

#[test]
fn size_contains_is_half_open() {
    let s = Size::new(10, 5);
    assert!(s.contains(0, 0));
    assert!(s.contains(9, 4));
    assert!(!s.contains(10, 4));
    assert!(!s.contains(9, 5));
    assert!(!s.contains(-1, 0));
    assert!(!Size::new(0, 0).contains(0, 0));
}

#[test]
fn size_copies_and_arithmetic() {
    let s = Size::new(10, 5);
    assert_eq!(s.with_width(3), Size::new(3, 5));
    assert_eq!(s.with_height(3), Size::new(10, 3));
    assert_eq!(s.add(&Size::new(1, 2)), Size::new(11, 7));
    assert_eq!(s.sub(&Size::new(1, 2)), Size::new(9, 3));
    assert_eq!(s.as_tuple(), (10, 5));
    assert_eq!(s.region(), Region::new(0, 0, 10, 5));
    assert_eq!(s.len(), 2);
}

#[test]
fn size_indexing() {
    let s = Size::new(10, 5);
    assert_eq!(s.get(0), Ok(10));
    assert_eq!(s.get(-1), Ok(5));
    assert_eq!(s.get(2), Err(GeometryError::IndexOutOfRange));
}

#[test]
fn size_clamp_offset() {
    let s = Size::new(10, 5);
    assert_eq!(s.clamp_offset(&GeometryOffset::new(20, -3)), GeometryOffset::new(9, 0));
    assert_eq!(s.clamp_offset(&GeometryOffset::new(2, 3)), GeometryOffset::new(2, 3));
}
