use oval_player::geometry::{normalize_offset, point_in_oval};

#[test]
fn center_is_inside() {
    assert!(point_in_oval(200, 400, 400, 800));
    assert!(point_in_oval(225, 400, 450, 800));
}

#[test]
fn corners_are_outside() {
    assert!(!point_in_oval(0, 0, 400, 800));
    assert!(!point_in_oval(400, 800, 400, 800));
    assert!(!point_in_oval(0, 800, 400, 800));
    assert!(!point_in_oval(400, 0, 400, 800));
}

#[test]
fn boundary_points_on_the_axes_are_inside() {
    // The ellipse boundary itself satisfies the non-strict test.
    assert!(point_in_oval(0, 400, 400, 800));
    assert!(point_in_oval(400, 400, 400, 800));
    assert!(point_in_oval(200, 0, 400, 800));
    assert!(point_in_oval(200, 800, 400, 800));
    // One pixel beyond the boundary is out.
    assert!(!point_in_oval(401, 400, 400, 800));
    assert!(!point_in_oval(-1, 400, 400, 800));
}

#[test]
fn degenerate_window_contains_nothing() {
    assert!(!point_in_oval(0, 0, 0, 800));
    assert!(!point_in_oval(200, 400, 400, 0));
    assert!(!point_in_oval(200, 400, 0, 0));
    assert!(!point_in_oval(200, 400, -400, 800));
}

#[test]
fn hit_test_is_reflection_symmetric() {
    let (w, h) = (450i64, 801i64);
    for &(x, y) in &[(10i64, 10i64), (225, 400), (300, 700), (440, 1), (37, 599)] {
        assert_eq!(point_in_oval(x, y, w, h), point_in_oval(w - x, h - y, w, h));
    }
}

#[test]
fn offsets_normalize_to_signed_unit_range() {
    // Center, edges, and a three-quarter point of a 400-pixel extent.
    assert_eq!(normalize_offset(200, 400), 0);
    assert_eq!(normalize_offset(0, 400), -1_000_000);
    assert_eq!(normalize_offset(400, 400), 1_000_000);
    assert_eq!(normalize_offset(300, 400), 500_000);
    // Points outside the window clamp to the range ends.
    assert_eq!(normalize_offset(999, 400), 1_000_000);
    assert_eq!(normalize_offset(-999, 400), -1_000_000);
}
