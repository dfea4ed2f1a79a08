use raycaster::map::{ConfigError, GridMap};

/// A six-by-six grid with a solid one-cell border and an open four-by-four
/// interior.
fn bordered_box() -> GridMap {
    let grid = vec![
        vec![1, 1, 1, 1, 1, 1],
        vec![1, 0, 0, 0, 0, 1],
        vec![1, 0, 0, 0, 0, 1],
        vec![1, 0, 0, 0, 0, 1],
        vec![1, 0, 0, 0, 0, 1],
        vec![1, 1, 1, 1, 1, 1],
    ];
    GridMap::from_grid(grid, 2500, 2500).unwrap()
}

#[test]
fn out_of_bounds_is_solid() {
    let m = GridMap::new();
    assert!(m.is_wall(-1, 500));
    assert!(m.is_wall(500, -1));
    assert!(m.is_wall(-1000000, -1000000));
    assert!(m.is_wall(10_000, 500));
    assert!(m.is_wall(500, 10_000));
    assert!(m.is_wall(i64::MAX, 500));
    assert!(m.is_wall(500, i64::MIN));
}

#[test]
fn reference_grid_cells() {
    let m = GridMap::new();
    // Border cells are solid; the cell at (1, 1) is open.
    assert!(m.is_wall(500, 500));
    assert!(!m.is_wall(1500, 1500));
    // Interior pillar at column 2, row 2.
    assert!(m.is_wall(2500, 2500));
    // The key's cell (column 5, row 3) is open.
    assert!(!m.is_wall(5500, 3500));
    assert_eq!(m.key_position, (5500, 3500));
    assert_eq!(m.grid.len(), 10);
    assert_eq!(m.grid[0].len(), 10);
}

#[test]
fn truncation_maps_positions_to_cells() {
    let m = bordered_box();
    // Any position within cell (1, 1) is open; one unit further is the wall.
    assert!(!m.is_wall(1000, 1000));
    assert!(!m.is_wall(1999, 1999));
    assert!(m.is_wall(999, 1500));
    assert!(m.is_wall(5000, 1500));
}

#[test]
fn empty_grid_rejected() {
    let r = GridMap::from_grid(vec![], 0, 0);
    assert!(matches!(r, Err(ConfigError::EmptyGrid)));
    let r = GridMap::from_grid(vec![vec![]], 0, 0);
    assert!(matches!(r, Err(ConfigError::EmptyGrid)));
}

#[test]
fn oversized_grid_rejected() {
    let tall = vec![vec![0]; 1_000_001];
    let r = GridMap::from_grid(tall, 0, 0);
    assert!(matches!(r, Err(ConfigError::GridTooLarge)));
}

#[test]
fn ragged_grid_rejected() {
    let r = GridMap::from_grid(vec![vec![1, 1, 1], vec![1, 1], vec![1, 1, 1]], 0, 0);
    assert!(matches!(r, Err(ConfigError::RaggedGrid)));
}

#[test]
fn rectangular_grid_accepted() {
    let m = GridMap::from_grid(vec![vec![0, 1], vec![1, 0]], 500, 1500).unwrap();
    assert!(!m.is_wall(500, 500));
    assert!(m.is_wall(1500, 500));
    assert!(m.is_wall(500, 1500));
    assert!(!m.is_wall(1500, 1500));
    assert_eq!(m.key_position, (500, 1500));
}
