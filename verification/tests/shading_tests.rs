use oval_player::fixed::SCALE;
use oval_player::shading::{color, ellipse_alpha, ellipse_distance, DrawOval};

fn idle() -> DrawOval {
    DrawOval { mouse_offset_x: 0, mouse_offset_y: 0, time: 0, hover: 0 }
}

#[test]
fn radial_coordinate_of_center_and_corner() {
    assert_eq!(ellipse_distance(500_000, 500_000), 0);
    // A corner lies at sqrt(2) from the center.
    assert_eq!(ellipse_distance(0, 0), 1_414_213);
    assert_eq!(ellipse_distance(1_000_000, 1_000_000), 1_414_213);
    // The middle of an edge lies exactly on the boundary.
    assert_eq!(ellipse_distance(0, 500_000), 1_000_000);
    // Out-of-range positions clamp to the unit square.
    assert_eq!(ellipse_distance(-7_000_000, 500_000), 1_000_000);
}

#[test]
fn alpha_outside_the_band_is_zero() {
    assert_eq!(ellipse_alpha(1_010_000), 0);
    assert_eq!(ellipse_alpha(1_500_000), 0);
    assert_eq!(ellipse_alpha(2_000_000), 0);
}

#[test]
fn alpha_inside_the_band_is_one() {
    assert_eq!(ellipse_alpha(0), SCALE);
    assert_eq!(ellipse_alpha(500_000), SCALE);
    assert_eq!(ellipse_alpha(990_000), SCALE);
}

#[test]
fn alpha_softens_only_within_the_band() {
    // Exactly at the boundary the ramp is halfway down.
    assert_eq!(ellipse_alpha(1_000_000), 500_000);
    let just_in = ellipse_alpha(995_000);
    let just_out = ellipse_alpha(1_005_000);
    assert!(0 < just_out && just_out < just_in && just_in < SCALE);
}

#[test]
fn center_pixel_is_opaque() {
    let c = color(500_000, 500_000, 450, 800, &idle());
    assert_eq!(c.a, SCALE);
}

#[test]
fn corner_pixel_is_fully_transparent() {
    let c = color(0, 0, 450, 800, &idle());
    assert_eq!(c.a, 0);
    assert_eq!(c.r, 0);
    assert_eq!(c.g, 0);
    assert_eq!(c.b, 0);
}

#[test]
fn degenerate_surface_is_fully_transparent() {
    let c = color(500_000, 500_000, 0, 800, &idle());
    assert_eq!((c.r, c.g, c.b, c.a), (0, 0, 0, 0));
    let c = color(500_000, 500_000, 450, -3, &idle());
    assert_eq!((c.r, c.g, c.b, c.a), (0, 0, 0, 0));
}

#[test]
fn channels_stay_in_unit_range_for_wild_inputs() {
    let uniforms = [
        DrawOval { mouse_offset_x: 0, mouse_offset_y: 0, time: 0, hover: 0 },
        DrawOval { mouse_offset_x: i64::MAX, mouse_offset_y: i64::MIN, time: i64::MAX, hover: i64::MAX },
        DrawOval { mouse_offset_x: -1_000_000, mouse_offset_y: 1_000_000, time: 987_654_321, hover: 1_000_000 },
        DrawOval { mouse_offset_x: 333_333, mouse_offset_y: -777_777, time: -5, hover: 500_000 },
    ];
    let positions = [
        (0i64, 0i64),
        (500_000, 500_000),
        (i64::MIN, i64::MAX),
        (999_999, 1),
        (250_000, 750_000),
    ];
    for uni in &uniforms {
        for &(u, v) in &positions {
            let c = color(u, v, 450, 800, uni);
            assert!(0 <= c.r && c.r <= SCALE);
            assert!(0 <= c.g && c.g <= SCALE);
            assert!(0 <= c.b && c.b <= SCALE);
            assert!(0 <= c.a && c.a <= SCALE);
        }
    }
}

#[test]
fn hover_ring_lights_up() {
    // A pixel at radial coordinate 0.6, the ring's fixed radius.
    let hovered = DrawOval { mouse_offset_x: 0, mouse_offset_y: 0, time: 0, hover: SCALE };
    let on = color(800_000, 500_000, 450, 800, &hovered);
    let off = color(800_000, 500_000, 450, 800, &idle());
    assert!(on.r > off.r);
}

#[test]
fn breathing_changes_the_base_over_time() {
    // A quarter of the breathing period after the start the luminance
    // modulation is at its peak; the center pixel brightens.
    let later = DrawOval { mouse_offset_x: 0, mouse_offset_y: 0, time: 1_963_495, hover: 0 };
    let at_start = color(500_000, 500_000, 450, 800, &idle());
    let at_peak = color(500_000, 500_000, 450, 800, &later);
    assert!(at_peak.r > at_start.r);
}
