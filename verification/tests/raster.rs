use galaxy::raster::{grid_size, mark_cell, raster_cell, star_grid, target_reached};

#[test]
fn grid_size_covers_the_inclusive_region() {
    assert_eq!(grid_size(-50, 50), 101);
    assert_eq!(grid_size(0, 0), 1);
    assert_eq!(grid_size(1, 0), 0);
}

#[test]
fn star_grid_starts_empty() {
    let g = star_grid(3);
    assert_eq!(g, vec![vec![false; 3]; 3]);
    assert!(star_grid(0).is_empty());
}

#[test]
fn raster_cell_offsets_by_min() {
    assert_eq!(raster_cell(-50, -50, -50, 101), Some((0, 0)));
    assert_eq!(raster_cell(0, 3, -50, 101), Some((50, 53)));
    assert_eq!(raster_cell(50, 50, -50, 101), Some((100, 100)));
    assert_eq!(raster_cell(51, 0, -50, 101), None);
    assert_eq!(raster_cell(0, -51, -50, 101), None);
}

#[test]
fn mark_cell_sets_one_cell() {
    let mut g = star_grid(3);
    mark_cell(&mut g, 2, 1);
    assert_eq!(
        g,
        vec![vec![false, false, false], vec![false, false, true], vec![false, false, false]]
    );
    mark_cell(&mut g, 2, 1);
    assert_eq!(g[1], vec![false, false, true]);
}

#[test]
fn target_stops_placement() {
    assert!(!target_reached(100, None));
    assert!(!target_reached(9, Some(10)));
    assert!(target_reached(10, Some(10)));
    assert!(target_reached(11, Some(10)));
    assert!(target_reached(0, Some(0)));
}
