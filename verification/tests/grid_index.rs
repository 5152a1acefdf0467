use arctic_drone_sim::grid::{lower_cell_index, upper_cell_index, GridShape};

#[test]
fn lower_index_keeps_interior_floor() {
    assert_eq!(lower_cell_index(3, 11), 3);
    assert_eq!(lower_cell_index(0, 11), 0);
    assert_eq!(lower_cell_index(9, 11), 9);
}

#[test]
fn lower_index_steps_back_from_last_point() {
    // Floor on the last grid point: the cell starts one point earlier.
    assert_eq!(lower_cell_index(10, 11), 9);
}

#[test]
fn lower_index_of_far_query_is_edge_cell() {
    assert_eq!(lower_cell_index(999, 11), 9);
    assert_eq!(lower_cell_index(1000, 11), 9);
}

#[test]
fn lower_index_on_tiny_axes() {
    assert_eq!(lower_cell_index(0, 1), 0);
    assert_eq!(lower_cell_index(5, 1), 0);
    assert_eq!(lower_cell_index(0, 0), 0);
    assert_eq!(lower_cell_index(1, 2), 0);
}

#[test]
fn upper_index_is_next_point() {
    assert_eq!(upper_cell_index(3, 11), 4);
    assert_eq!(upper_cell_index(9, 11), 10);
}

#[test]
fn upper_index_clamped_on_single_point_axis() {
    assert_eq!(upper_cell_index(0, 1), 0);
}

#[test]
fn interior_cell_corners() {
    let shape = GridShape::new(11, 11, 11);
    let c = shape.cell_corners(lower_cell_index(3, 11), lower_cell_index(4, 11), lower_cell_index(1, 11));
    assert_eq!((c.i0, c.i1), (3, 4));
    assert_eq!((c.j0, c.j1), (4, 5));
    assert_eq!((c.k0, c.k1), (1, 2));
}

#[test]
fn clamped_edge_cell_corners() {
    // Out-of-domain queries clamp their floor indices to the last point.
    let shape = GridShape::new(11, 11, 11);
    let c = shape.cell_corners(lower_cell_index(10, 11), lower_cell_index(0, 11), lower_cell_index(10, 11));
    assert_eq!((c.i0, c.i1), (9, 10));
    assert_eq!((c.j0, c.j1), (0, 1));
    assert_eq!((c.k0, c.k1), (9, 10));
}

#[test]
fn flat_grid_cell_corners() {
    let shape = GridShape::new(41, 1, 11);
    let c = shape.cell_corners(lower_cell_index(5, 41), lower_cell_index(0, 1), lower_cell_index(0, 11));
    assert_eq!((c.i0, c.i1), (5, 6));
    assert_eq!((c.j0, c.j1), (0, 0));
    assert_eq!((c.k0, c.k1), (0, 1));
}

#[test]
fn cell_corners_from_lower_corner() {
    let shape = GridShape::new(2, 1, 3);
    let c = shape.cell_corners(1, 0, 2);
    assert_eq!((c.i0, c.i1), (1, 1));
    assert_eq!((c.j0, c.j1), (0, 0));
    assert_eq!((c.k0, c.k1), (2, 2));
}

#[test]
fn last_indices_saturate() {
    assert_eq!(GridShape::new(11, 11, 50).last_indices(), (10, 10, 49));
    assert_eq!(GridShape::new(0, 1, 2).last_indices(), (0, 0, 1));
}

#[test]
fn point_count_is_product() {
    assert_eq!(GridShape::new(32, 32, 16).point_count(), 16384);
    assert_eq!(GridShape::new(16, 0, 16).point_count(), 0);
}

#[test]
fn dims_lists_axes_in_order() {
    assert_eq!(GridShape::new(11, 12, 50).dims(), [11, 12, 50]);
}

#[test]
fn sample_points_row_major() {
    let shape = GridShape::new(2, 3, 4);
    let v = shape.sample_points(|i, j, k| (i, j, k));
    assert_eq!(v.len(), 24);
    for i in 0..2 {
        for j in 0..3 {
            for k in 0..4 {
                assert_eq!(v[(i * 3 + j) * 4 + k], (i, j, k));
            }
        }
    }
}

#[test]
fn sample_points_empty_axis() {
    let shape = GridShape::new(3, 0, 5);
    let v = shape.sample_points(|i, j, k| i + j + k);
    assert!(v.is_empty());
}

#[test]
fn sample_points_evaluates_coordinates() {
    // Coordinates of a 11 x 1 x 1 line at 10 m spacing.
    let shape = GridShape::new(11, 1, 1);
    let v = shape.sample_points(|i, _j, _k| i as f64 * 10.0);
    assert_eq!(v.len(), 11);
    assert_eq!(v[0], 0.0);
    assert_eq!(v[10], 100.0);
}
