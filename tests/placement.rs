use textual_speedups::{ConstrainMode, GeometryOffset, Region, Spacing};

#[test]
fn scroll_to_region_right_of_window() {
    let window = Region::new(0, 0, 80, 24);
    let region = Region::new(90, 0, 10, 1);
    let offset = Region::get_scroll_to_visible(&window, &region, false);
    // Aligning left edges needs 90, aligning right edges needs 20.
    assert_eq!(offset, GeometryOffset::new(20, 0));
}

#[test]
fn scroll_not_needed_when_visible() {
    let window = Region::new(0, 0, 80, 24);
    let region = Region::new(10, 5, 10, 3);
    assert_eq!(Region::get_scroll_to_visible(&window, &region, false), GeometryOffset::new(0, 0));
}

#[test]
fn scroll_to_region_left_and_above() {
    let window = Region::new(10, 10, 20, 10);
    let region = Region::new(5, 2, 4, 2);
    assert_eq!(Region::get_scroll_to_visible(&window, &region, false), GeometryOffset::new(-5, -8));
}

#[test]
fn scroll_with_top_aligns_top_edges() {
    let window = Region::new(0, 0, 80, 24);
    let region = Region::new(10, 5, 10, 3);
    assert_eq!(Region::get_scroll_to_visible(&window, &region, true), GeometryOffset::new(0, 5));
    let below = Region::new(10, 40, 10, 3);
    assert_eq!(Region::get_scroll_to_visible(&window, &below, true), GeometryOffset::new(0, 40));
}

#[test]
fn scroll_crops_oversized_region() {
    let window = Region::new(0, 0, 10, 10);
    let region = Region::new(5, 0, 50, 5);
    // Cropped to width 10 at x = 5: both candidates are 5; the right-edge one is taken.
    assert_eq!(Region::get_scroll_to_visible(&window, &region, false), GeometryOffset::new(5, 0));
}

#[test]
fn translate_inside_container() {
    let container = Region::new(0, 0, 20, 10);
    assert_eq!(
        Region::new(18, 8, 5, 5).translate_inside(&container, true, true),
        Region::new(15, 5, 5, 5)
    );
    assert_eq!(
        Region::new(-3, -2, 5, 5).translate_inside(&container, true, true),
        Region::new(0, 0, 5, 5)
    );
    assert_eq!(
        Region::new(18, 8, 5, 5).translate_inside(&container, false, true),
        Region::new(18, 5, 5, 5)
    );
    // Too wide for the container: pinned to its near edge.
    assert_eq!(
        Region::new(5, 0, 30, 5).translate_inside(&container, true, true),
        Region::new(0, 0, 30, 5)
    );
}

#[test]
fn inflect_moves_by_extent_and_margin() {
    let r = Region::new(10, 10, 5, 3);
    assert_eq!(r.inflect(1, 1, None), Region::new(15, 13, 5, 3));
    assert_eq!(r.inflect(-1, 0, None), Region::new(5, 10, 5, 3));
    assert_eq!(
        r.inflect(0, -1, Some(Spacing::new(1, 2, 4, 3))),
        Region::new(10, 3, 5, 3)
    );
    assert_eq!(
        r.inflect(1, 0, Some(Spacing::new(1, 2, 4, 3))),
        Region::new(18, 10, 5, 3)
    );
}

#[test]
fn constrain_flips_overflowing_popup() {
    let container = Region::new(0, 0, 80, 24);
    let popup = Region::new(5, 20, 10, 5);
    let margin = Spacing::new(1, 1, 1, 1);
    let placed = popup.constrain(ConstrainMode::Inflect, ConstrainMode::Inflect, &margin, &container);
    assert_eq!(placed, Region::new(5, 14, 10, 5));
}

#[test]
fn constrain_inside_and_unconstrained() {
    let container = Region::new(0, 0, 80, 24);
    let popup = Region::new(75, 22, 10, 5);
    let margin = Spacing::new(1, 1, 1, 1);
    assert_eq!(
        popup.constrain(ConstrainMode::Inside, ConstrainMode::Inside, &margin, &container),
        Region::new(69, 18, 10, 5)
    );
    assert_eq!(
        popup.constrain(ConstrainMode::Unconstrained, ConstrainMode::Inside, &margin, &container),
        Region::new(75, 18, 10, 5)
    );
    assert_eq!(
        popup.constrain(
            ConstrainMode::Unconstrained,
            ConstrainMode::Unconstrained,
            &margin,
            &container
        ),
        popup
    );
}
