use raycaster::map::GridMap;
use raycaster::player::Player;
use raycaster::raycaster::{cast_ray, MAX_RANGE_FP, STEP_FP};
use raycaster::trig::{PI_FP, TWO_PI_FP};

/// A six-by-six grid with a solid one-cell border and an open four-by-four
/// interior.
fn bordered_box() -> GridMap {
    let grid = vec![
        vec![1, 1, 1, 1, 1, 1],
        vec![1, 0, 0, 0, 0, 1],
        vec![1, 0, 0, 0, 0, 1],
        vec![1, 0, 0, 0, 0, 1],
        vec![1, 0, 0, 0, 0, 1],
        vec![1, 1, 1, 1, 1, 1],
    ];
    GridMap::from_grid(grid, 2500, 2500).unwrap()
}

#[test]
fn east_ray_hits_border_near_two_units() {
    let map = bordered_box();
    let p = Player::new(3000, 3000, 0);
    let hit = cast_ray(&p, &map, 0);
    // About two world units to the border wall at cell column five.
    assert!(1900 <= hit.distance && hit.distance <= 2000);
    assert_eq!(hit.distance, 2000);
    assert!(!hit.is_vertical);
}

#[test]
fn west_ray_hits_border() {
    let map = bordered_box();
    let p = Player::new(3000, 3000, 0);
    let hit = cast_ray(&p, &map, PI_FP);
    // Border cell zero ends at fixed-point coordinate 1000; the first
    // sampled position inside it is 900, reached after 21 steps.
    assert_eq!(hit.distance, 2100);
}

#[test]
fn open_space_reports_max_range() {
    let grid = vec![vec![0; 100]; 100];
    let map = GridMap::from_grid(grid, 0, 0).unwrap();
    let p = Player::new(50_000, 50_000, 0);
    let hit = cast_ray(&p, &map, 0);
    assert_eq!(hit.distance, MAX_RANGE_FP);
}

#[test]
fn distance_always_within_bounds() {
    let map = bordered_box();
    let p = Player::new(3500, 3500, 0);
    let mut a: i64 = 0;
    while a < TWO_PI_FP {
        let hit = cast_ray(&p, &map, a);
        assert!(hit.distance >= STEP_FP);
        assert!(hit.distance <= MAX_RANGE_FP);
        assert_eq!(hit.distance % STEP_FP, 0);
        a += 97;
    }
}

#[test]
fn origin_inside_wall_reports_one_step() {
    let map = bordered_box();
    let p = Player::new(500, 500, 0);
    // The caster advances once before its first occupancy test.
    let hit = cast_ray(&p, &map, 0);
    assert_eq!(hit.distance, STEP_FP);
}

#[test]
fn nearer_wall_gives_shorter_distance() {
    let map = bordered_box();
    let near = Player::new(4000, 3000, 0);
    let far = Player::new(2000, 3000, 0);
    let d_near: i64 = cast_ray(&near, &map, 0).distance;
    let d_far: i64 = cast_ray(&far, &map, 0).distance;
    assert!(d_near < d_far);
    assert_eq!(d_near, 1000);
    assert_eq!(d_far, 3000);
}
