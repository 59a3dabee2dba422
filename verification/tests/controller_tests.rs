use oval_player::controller::{App, KeyCode, KeyResponse, PlayerState};
use oval_player::fixed::SCALE;

fn sized_app() -> App {
    let mut app = App::new();
    app.on_geometry_changed(450, 800);
    app
}

#[test]
fn fresh_session_is_empty() {
    let app = App::new();
    assert_eq!(app.state, PlayerState::Empty);
    assert_eq!(app.video_path, None);
    assert_eq!(app.ticks, 0);
    assert_eq!(app.uniforms.time, 0);
    assert_eq!(app.uniforms.hover, 0);
    assert!(!app.mouse_inside);
    assert_eq!(PlayerState::default(), PlayerState::Empty);
}

#[test]
fn sixty_ticks_make_exactly_one_second() {
    let mut app = sized_app();
    for _ in 0..60 {
        let redraw = app.on_timer_tick();
        assert!(redraw);
    }
    assert_eq!(app.ticks, 60);
    assert_eq!(app.uniforms.time, SCALE);
    // Ninety more: two and a half seconds in all, no drift.
    for _ in 0..90 {
        app.on_timer_tick();
    }
    assert_eq!(app.ticks, 150);
    assert_eq!(app.uniforms.time, 2_500_000);
}

#[test]
fn geometry_change_alone_repaints_nothing() {
    let mut app = App::new();
    let before = app.uniforms;
    app.on_geometry_changed(640, 480);
    assert_eq!(app.window_width, 640);
    assert_eq!(app.window_height, 480);
    assert_eq!(app.uniforms, before);
}

#[test]
fn pointer_move_normalizes_and_sets_hover() {
    let mut app = App::new();
    app.on_geometry_changed(400, 400);
    let redraw = app.on_pointer_move(300, 200);
    assert!(redraw);
    assert_eq!(app.uniforms.mouse_offset_x, 500_000);
    assert_eq!(app.uniforms.mouse_offset_y, 0);
    assert_eq!(app.uniforms.hover, SCALE);
    assert!(app.mouse_inside);
    // Inside the oval with nothing loaded: the drop label shows.
    assert!(app.drop_label_visible);
}

#[test]
fn pointer_move_outside_the_oval_clears_hover() {
    let mut app = App::new();
    app.on_geometry_changed(400, 400);
    app.on_pointer_move(5, 5);
    assert_eq!(app.uniforms.hover, 0);
    assert!(!app.mouse_inside);
    assert!(!app.drop_label_visible);
}

#[test]
fn pointer_move_on_degenerate_geometry_is_a_no_op() {
    let mut app = App::new();
    let redraw = app.on_pointer_move(10, 10);
    assert!(!redraw);
    assert_eq!(app.uniforms.hover, 0);
    assert_eq!(app.uniforms.mouse_offset_x, 0);
}

#[test]
fn drag_query_follows_the_hit_test() {
    let app = sized_app();
    // Center: start a window move.
    assert!(app.on_window_drag_query(225, 400));
    // Strictly outside the ellipse: never start one.
    assert!(!app.on_window_drag_query(3, 2));
    assert!(!app.on_window_drag_query(449, 799));
}

#[test]
fn drag_hover_accepts_only_inside() {
    let app = sized_app();
    assert!(app.on_drag_hover(225, 400));
    assert!(!app.on_drag_hover(1, 1));
}

#[test]
fn accepted_drop_loads_and_pauses() {
    let mut app = sized_app();
    app.on_pointer_move(225, 400);
    assert!(app.drop_label_visible);
    let paths = vec![String::from("clip.MP4")];
    app.on_drop(225, 400, &paths);
    assert_eq!(app.video_path, Some(String::from("clip.MP4")));
    assert_eq!(app.state, PlayerState::Paused);
    assert!(!app.drop_label_visible);
}

#[test]
fn unqualified_drop_changes_nothing() {
    let mut app = sized_app();
    let paths = vec![String::from("notes.txt")];
    app.on_drop(225, 400, &paths);
    assert_eq!(app.state, PlayerState::Empty);
    assert_eq!(app.video_path, None);
    app.on_drop(1, 1, &paths);
    assert_eq!(app.state, PlayerState::Empty);
    assert_eq!(app.video_path, None);
}

#[test]
fn drop_outside_the_oval_is_ignored() {
    let mut app = sized_app();
    let paths = vec![String::from("clip.mp4")];
    app.on_drop(1, 1, &paths);
    assert_eq!(app.state, PlayerState::Empty);
    assert_eq!(app.video_path, None);
}

#[test]
fn last_qualifying_path_wins() {
    let mut app = sized_app();
    let paths = vec![
        String::from("first.mp4"),
        String::from("notes.txt"),
        String::from("second.webm"),
    ];
    app.on_drop(225, 400, &paths);
    assert_eq!(app.video_path, Some(String::from("second.webm")));
    assert_eq!(app.state, PlayerState::Paused);
}

#[test]
fn a_later_drop_keeps_the_phase() {
    let mut app = sized_app();
    app.on_drop(225, 400, &vec![String::from("a.mp4")]);
    app.on_key_down(KeyCode::Space);
    assert_eq!(app.state, PlayerState::Playing);
    app.on_drop(225, 400, &vec![String::from("b.mkv")]);
    assert_eq!(app.video_path, Some(String::from("b.mkv")));
    assert_eq!(app.state, PlayerState::Playing);
}

#[test]
fn space_toggles_a_loaded_session() {
    let mut app = sized_app();
    app.on_drop(225, 400, &vec![String::from("a.mp4")]);
    assert_eq!(app.state, PlayerState::Paused);
    app.on_key_down(KeyCode::Space);
    assert_eq!(app.state, PlayerState::Playing);
    app.on_key_down(KeyCode::Space);
    assert_eq!(app.state, PlayerState::Paused);
}

#[test]
fn space_on_an_empty_session_does_nothing() {
    let mut app = sized_app();
    let r = app.on_key_down(KeyCode::Space);
    assert_eq!(app.state, PlayerState::Empty);
    assert_eq!(r, KeyResponse::NoRequest);
}

#[test]
fn escape_requests_termination() {
    let mut app = sized_app();
    let r = app.on_key_down(KeyCode::Escape);
    assert_eq!(r, KeyResponse::Quit);
    assert_eq!(app.state, PlayerState::Empty);
}

#[test]
fn other_keys_are_ignored() {
    let mut app = sized_app();
    let r = app.on_key_down(KeyCode::Other);
    assert_eq!(r, KeyResponse::NoRequest);
    assert_eq!(app.state, PlayerState::Empty);
}

#[test]
fn pointer_move_hides_the_label_once_loaded() {
    let mut app = sized_app();
    app.on_drop(225, 400, &vec![String::from("a.mp4")]);
    app.on_pointer_move(225, 400);
    // Hovering the oval with media loaded: no drop label.
    assert!(app.mouse_inside);
    assert!(!app.drop_label_visible);
}
