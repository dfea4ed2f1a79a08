use raycaster::map::{ConfigError, GridMap};
use raycaster::player::Player;
use raycaster::renderer::{
    fisheye_correct, key_in_pickup_range, Renderer, FOV_FP, MAX_SCREEN,
};

/// A six-by-six grid with a solid one-cell border and an open four-by-four
/// interior.
fn bordered_box() -> GridMap {
    let grid = vec![
        vec![1, 1, 1, 1, 1, 1],
        vec![1, 0, 0, 0, 0, 1],
        vec![1, 0, 0, 0, 0, 1],
        vec![1, 0, 0, 0, 0, 1],
        vec![1, 0, 0, 0, 0, 1],
        vec![1, 1, 1, 1, 1, 1],
    ];
    GridMap::from_grid(grid, 2500, 2500).unwrap()
}

#[test]
fn viewport_validation() {
    assert!(matches!(Renderer::new(0, 600), Err(ConfigError::ZeroViewport)));
    assert!(matches!(Renderer::new(800, 0), Err(ConfigError::ZeroViewport)));
    assert!(matches!(Renderer::new(-1, -1), Err(ConfigError::ZeroViewport)));
    assert!(matches!(
        Renderer::new(MAX_SCREEN + 1, 600),
        Err(ConfigError::ViewportTooLarge)
    ));
    let r = Renderer::new(800, 600).unwrap();
    assert_eq!(r.screen_width, 800);
    assert_eq!(r.screen_height, 600);
}

#[test]
fn column_angles_span_the_field_of_view() {
    let r = Renderer::new(800, 600).unwrap();
    let facing: i64 = 1000;
    // The center column looks exactly along the facing angle; the edge
    // columns look half the field of view (about thirty degrees) aside.
    assert_eq!(r.column_angle(facing, 400), facing);
    assert_eq!(r.column_angle(facing, 0), facing - FOV_FP / 2);
    assert_eq!(r.column_angle(facing, 799), facing + 522);
    assert!(r.column_angle(facing, 0) < r.column_angle(facing, 400));
    assert!(r.column_angle(facing, 400) < r.column_angle(facing, 799));
}

#[test]
fn fisheye_identity_at_center() {
    for d in [0, 1, 100, 1900, 20000] {
        assert_eq!(fisheye_correct(d, 0), d);
    }
}

#[test]
fn fisheye_shortens_off_center_rays() {
    // At an offset of 524 milliradians the fixed-point cosine is 864.
    assert_eq!(fisheye_correct(2000, 524), 1728);
    assert_eq!(fisheye_correct(2000, -524), 1728);
    assert!(fisheye_correct(2000, 300) < 2000);
}

#[test]
fn strips_are_centered_on_the_horizon() {
    let r = Renderer::new(800, 600).unwrap();
    for d in [-5, 0, 1, 37, 100, 1000, 1900, 20000] {
        let s = r.project_column(7, 1900, d);
        assert_eq!(s.x, 7);
        assert_eq!(s.height % 2, 0);
        assert_eq!(s.start + s.height / 2, 300);
    }
}

#[test]
fn strip_height_is_inverse_in_distance() {
    let r = Renderer::new(800, 600).unwrap();
    // One world unit away: the wall fills the screen exactly.
    let s = r.project_column(0, 1000, 1000);
    assert_eq!(s.height, 600);
    assert_eq!(s.start, 0);
    // Twice as far: half as tall, centered.
    let s = r.project_column(0, 2000, 2000);
    assert_eq!(s.height, 300);
    assert_eq!(s.start, 150);
    // A clamped non-positive distance gives a very tall strip, not a fault.
    let s = r.project_column(0, 100, 0);
    assert_eq!(s.height, 600_000);
}

#[test]
fn texture_coordinate_repeats_each_unit() {
    let r = Renderer::new(800, 600).unwrap();
    assert_eq!(r.project_column(0, 1500, 1500).texture_x, 500);
    assert_eq!(r.project_column(0, 3700, 3700).texture_x, 700);
    assert_eq!(r.project_column(0, 2000, 2000).texture_x, 0);
}

#[test]
fn render_scene_emits_one_strip_per_column() {
    let map = bordered_box();
    let p = Player::new(3000, 3000, 0);
    let r = Renderer::new(10, 8).unwrap();
    let strips = r.render_scene(&p, &map);
    assert_eq!(strips.len(), 10);
    for (i, s) in strips.iter().enumerate() {
        assert_eq!(s.x, i as i64);
        assert_eq!(s.start + s.height / 2, 4);
        assert!(s.texture_x >= 0 && s.texture_x < 1000);
    }
    // Column five looks exactly along the facing angle: two units to the
    // border, uncorrected, giving a half-height of two rows.
    assert_eq!(r.column_angle(0, 5), 0);
    assert_eq!(strips[5].height, 4);
    assert_eq!(strips[5].start, 2);
    assert_eq!(strips[5].texture_x, 0);
}

#[test]
fn key_pickup_range_test() {
    let map = GridMap::new();
    let at_key = Player::new(5500, 3500, 0);
    assert!(key_in_pickup_range(&at_key, &map));
    let near = Player::new(5200, 3400, 0);
    assert!(key_in_pickup_range(&near, &map));
    let far = Player::new(3000, 3000, 0);
    assert!(!key_in_pickup_range(&far, &map));
    // Exactly half a unit away is already out of range.
    let boundary = Player::new(5000, 3500, 0);
    assert!(!key_in_pickup_range(&boundary, &map));
}
