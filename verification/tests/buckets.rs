use galaxy::buckets::{neighbor_range, BucketGrid};

#[test]
fn neighbor_range_clamps_at_the_edges() {
    assert_eq!(neighbor_range(0, 5), (0, 1));
    assert_eq!(neighbor_range(2, 5), (1, 3));
    assert_eq!(neighbor_range(4, 5), (3, 4));
    assert_eq!(neighbor_range(0, 1), (0, 0));
}

#[test]
fn cell_of_rejects_outside_cells() {
    let g = BucketGrid::new(4, 3);
    assert_eq!(g.cell_of(-1, 0), None);
    assert_eq!(g.cell_of(0, -1), None);
    assert_eq!(g.cell_of(4, 0), None);
    assert_eq!(g.cell_of(0, 3), None);
    assert_eq!(g.cell_of(3, 2), Some((3, 2)));
    assert_eq!(g.grid_width(), 4);
    assert_eq!(g.grid_height(), 3);
}

#[test]
fn neighbors_cover_the_three_by_three_block() {
    let mut g = BucketGrid::new(5, 5);
    g.insert(2, 2, 0);
    g.insert(0, 0, 1);
    g.insert(4, 4, 2);
    g.insert(1, 3, 3);
    g.insert(2, 2, 4);
    // rows top to bottom, cells left to right, buckets in insertion order
    assert_eq!(g.neighbors(2, 2), vec![0, 4, 3]);
    assert_eq!(g.neighbors(1, 1), vec![1, 0, 4]);
    assert_eq!(g.neighbors(0, 0), vec![1]);
    assert_eq!(g.neighbors(4, 4), vec![2]);
    assert_eq!(g.neighbors(3, 3), vec![0, 4, 2]);
    assert_eq!(g.neighbors(4, 0), Vec::<usize>::new());
}

#[test]
fn inserted_star_is_found_from_every_adjacent_cell() {
    let mut g = BucketGrid::new(3, 3);
    g.insert(1, 1, 7);
    for y in 0..3 {
        for x in 0..3 {
            assert!(g.neighbors(x, y).contains(&7));
        }
    }
    let mut h = BucketGrid::new(4, 1);
    h.insert(0, 0, 9);
    assert!(h.neighbors(1, 0).contains(&9));
    assert!(!h.neighbors(2, 0).contains(&9));
}
