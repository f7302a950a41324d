use sim_viewer::views::camera::{
    scale, Camera, Point, Rectangle, BORDER, CAMERA_SENSITIVITY, UNIT, ZOOM_MIN, ZOOM_SENSITIVITY,
};

fn standard() -> Camera {
    Camera::new(0, 0, 1_000_000, 1_000_000, 800_000, 600_000)
}

#[test]
fn constants_are_in_thousandths() {
    assert_eq!(UNIT, 1000);
    assert_eq!(ZOOM_MIN, 10);
    assert_eq!(BORDER, 50_000);
    assert_eq!(CAMERA_SENSITIVITY, 10_000_000);
    assert_eq!(ZOOM_SENSITIVITY, 10_000);
}

#[test]
fn new_camera_keeps_its_arguments_and_zooms_by_one() {
    let cam = Camera::new(7, -9, 1_000_000, 2_000_000, 800_000, 600_000);
    assert_eq!(
        cam,
        Camera {
            pos_x: 7,
            pos_y: -9,
            width: 800_000,
            height: 600_000,
            max_x: 1_000_000,
            max_y: 2_000_000,
            zoom: 1000,
        }
    );
}

#[test]
fn panning_far_left_clamps_to_minus_fifty() {
    let mut cam = standard();
    cam.move_left(10_000_000);
    cam.check();
    assert_eq!(cam.pos_x, -50_000);
    assert_eq!(cam.pos_y, 0);
}

#[test]
fn panning_far_up_clamps_to_minus_fifty() {
    let mut cam = standard();
    cam.move_up(10_000_000);
    assert_eq!(cam.pos_y, -50_000);
}

#[test]
fn panning_far_down_clamps_to_the_far_edge() {
    let mut cam = standard();
    cam.move_down(10_000_000);
    assert_eq!(cam.pos_y, 450_000);
}

#[test]
fn panning_far_right_clamps_to_the_far_edge() {
    let mut cam = standard();
    cam.move_right(10_000_000);
    assert_eq!(cam.pos_x, 250_000);
}

#[test]
fn small_moves_are_kept() {
    let mut cam = standard();
    cam.move_right(100_000);
    cam.move_down(30_000);
    assert_eq!((cam.pos_x, cam.pos_y), (100_000, 30_000));
    cam.move_left(40_000);
    cam.move_up(10_000);
    assert_eq!((cam.pos_x, cam.pos_y), (60_000, 20_000));
}

#[test]
fn horizontal_clamp_compares_the_zoomed_position() {
    let mut cam = standard();
    cam.zoom = 2000;
    // The far edge is 1000 - 800 / 2 + 50 = 650.
    cam.move_right(400_000);
    assert_eq!(cam.pos_x, 650_000);
    let mut near = standard();
    near.zoom = 2000;
    near.move_right(300_000);
    assert_eq!(near.pos_x, 300_000);
}

#[test]
fn moves_saturate_at_the_ends_of_the_range() {
    let mut cam = standard();
    cam.pos_x = i64::MIN + 5;
    cam.move_left(i64::MAX);
    assert_eq!(cam.pos_x, -50_000);
    let mut cam = standard();
    cam.pos_y = i64::MAX - 5;
    cam.move_down(i64::MAX);
    assert_eq!(cam.pos_y, 450_000);
}

#[test]
fn zoom_is_held_at_its_floor() {
    let mut cam = standard();
    cam.zoom(-5_000);
    assert_eq!(cam.zoom, 10);
    cam.zoom(-1);
    assert_eq!(cam.zoom, 10);
    cam.zoom(i64::MIN);
    assert_eq!(cam.zoom, 10);
    cam.zoom(5);
    assert_eq!(cam.zoom, 15);
}

#[test]
fn zoom_adds_and_clamps_the_position() {
    let mut cam = standard();
    cam.move_right(200_000);
    cam.zoom(-500);
    // At a zoom of one half the far edge is 1000 - 1600 + 50 = -550, so the
    // camera is put there and then raised to the near edge.
    assert_eq!(cam.zoom, 500);
    assert_eq!(cam.pos_x, -50_000);
}

#[test]
fn resize_takes_the_new_world_and_clamps() {
    let mut cam = standard();
    cam.move_down(400_000);
    assert_eq!(cam.pos_y, 400_000);
    cam.resize(900_000, 700_000);
    assert_eq!((cam.max_x, cam.max_y), (900_000, 700_000));
    assert_eq!(cam.pos_y, 150_000);
    assert_eq!((cam.width, cam.height), (800_000, 600_000));
}

#[test]
fn check_leaves_a_position_inside_alone() {
    let mut cam = standard();
    cam.pos_x = 10_000;
    cam.pos_y = 20_000;
    cam.check();
    assert_eq!((cam.pos_x, cam.pos_y), (10_000, 20_000));
}

#[test]
fn handle_input_moves_by_sensitivity_times_time() {
    let mut cam = standard();
    cam.handle_input(false, true, false, true, 0, 16);
    assert_eq!((cam.pos_x, cam.pos_y), (160_000, 160_000));
    cam.handle_input(true, false, true, false, 0, 10);
    assert_eq!((cam.pos_x, cam.pos_y), (60_000, 60_000));
    cam.handle_input(true, true, true, true, 0, 1);
    assert_eq!((cam.pos_x, cam.pos_y), (60_000, 60_000));
    assert_eq!(cam.zoom, 1000);
}

#[test]
fn handle_input_turns_the_wheel_into_zoom() {
    let mut cam = standard();
    cam.handle_input(false, false, false, false, 1000, 100);
    assert_eq!(cam.zoom, 2000);
    cam.handle_input(false, false, false, false, -1000, 100);
    assert_eq!(cam.zoom, 1000);
    cam.handle_input(false, false, false, false, -1000, 1000);
    assert_eq!(cam.zoom, 10);
}

#[test]
fn handle_input_without_input_changes_nothing() {
    let mut cam = standard();
    cam.pos_x = 5_000_000;
    cam.handle_input(false, false, false, false, 0, 1000);
    assert_eq!(cam.pos_x, 5_000_000);
}

#[test]
fn translate_rect_is_the_affine_map() {
    let mut cam = standard();
    cam.pos_x = 100_000;
    cam.pos_y = 50_000;
    cam.zoom = 2000;
    let screen = cam.translate_rect(Rectangle { x: 150_000, y: 70_000, w: 16_000, h: 8_000 });
    assert_eq!(screen, Rectangle { x: 100_000, y: 40_000, w: 32_000, h: 16_000 });
    let behind = cam.translate_rect(Rectangle { x: 0, y: 0, w: 1, h: 3 });
    assert_eq!(behind, Rectangle { x: -200_000, y: -100_000, w: 2, h: 6 });
}

#[test]
fn translate_rect_rounds_down() {
    let mut cam = standard();
    cam.zoom = 1500;
    let screen = cam.translate_rect(Rectangle { x: -1, y: 1, w: 3, h: -3 });
    assert_eq!(screen, Rectangle { x: -2, y: 1, w: 4, h: -5 });
}

#[test]
fn translate_rect_round_trip_is_within_rounding() {
    let mut cam = standard();
    cam.pos_x = 12_345;
    cam.pos_y = -6_789;
    cam.zoom = 1_700;
    let rect = Rectangle { x: 98_765, y: 43_210, w: 16_001, h: 15_999 };
    let screen = cam.translate_rect(rect);
    let back = |s: i64, pos: i64| (s * 1000).div_euclid(cam.zoom) + pos;
    for (orig, got) in [
        (rect.x, back(screen.x, cam.pos_x)),
        (rect.y, back(screen.y, cam.pos_y)),
        (rect.w, back(screen.w, 0)),
        (rect.h, back(screen.h, 0)),
    ] {
        assert!(got <= orig);
        assert!((orig - got) * cam.zoom < 1000 + cam.zoom);
    }
}

#[test]
fn create_point_truncates_toward_zero() {
    let cam = standard();
    assert_eq!(cam.create_point(1_500, -1_500), Point { x: 1, y: -1 });
    assert_eq!(cam.create_point(999, -999), Point { x: 0, y: 0 });
    let mut moved = standard();
    moved.pos_x = 100_000;
    moved.pos_y = 50_000;
    moved.zoom = 2000;
    assert_eq!(moved.create_point(150_000, 70_250), Point { x: 100, y: 40 });
}

#[test]
fn create_point_saturates() {
    let mut cam = standard();
    cam.zoom = i64::MAX;
    assert_eq!(cam.create_point(i64::MAX, i64::MIN), Point { x: i32::MAX, y: i32::MIN });
}

#[test]
fn scale_multiplies_rounds_down_and_clips() {
    assert_eq!(scale(2_000, 3_000), 6_000);
    assert_eq!(scale(-1, 1_500), -2);
    assert_eq!(scale(1, 999), 0);
    assert_eq!(scale(i64::MAX, i64::MAX), i64::MAX);
    assert_eq!(scale(i64::MIN, i64::MAX), i64::MIN);
    assert_eq!(scale(i64::MIN, i64::MIN), i64::MAX);
}

#[test]
fn pan_moves_both_ways_and_clamps() {
    let mut cam = standard();
    cam.pan(100_000, 30_000);
    assert_eq!((cam.pos_x, cam.pos_y), (100_000, 30_000));
    cam.pan(-10_000_000, 10_000_000);
    assert_eq!((cam.pos_x, cam.pos_y), (-50_000, 450_000));
    cam.pan(10_000_000, -10_000_000);
    assert_eq!((cam.pos_x, cam.pos_y), (250_000, -50_000));
}

#[test]
fn pans_keep_the_four_inequalities() {
    let mut cam = standard();
    let edge_x = cam.max_x - cam.width * 1000 / cam.zoom + BORDER;
    let edge_y = cam.max_y - cam.height * 1000 / cam.zoom + BORDER;
    let moves: [(i64, i64); 6] = [
        (10_000_000, 0),
        (0, 10_000_000),
        (-3, 7),
        (-10_000_000, -10_000_000),
        (i64::MAX, i64::MIN),
        (i64::MIN, i64::MAX),
    ];
    for (dx, dy) in moves {
        cam.pan(dx, dy);
        assert!(cam.pos_y <= edge_y);
        assert!(cam.pos_x * cam.zoom <= edge_x * 1000);
        assert!(cam.pos_y >= -BORDER);
        assert!(cam.pos_x >= -BORDER);
    }
}

#[test]
fn zoomed_in_clamp_can_leave_the_camera_past_its_edge() {
    let mut cam = standard();
    cam.zoom = 2000;
    cam.pan(10_000_000, 0);
    // The camera is put on the far edge, 650, and seen zoomed that is 1300.
    assert_eq!(cam.pos_x, 650_000);
    assert!(cam.pos_x * cam.zoom > 650_000 * 1000);
}

#[test]
fn repeated_zooming_never_goes_below_the_floor() {
    let mut cam = standard();
    for d in [-1, -999, 5, -20, i64::MIN, 3, -3, -1_000_000] {
        cam.zoom(d);
        assert!(cam.zoom >= ZOOM_MIN);
    }
    assert_eq!(cam.zoom, 10);
}
