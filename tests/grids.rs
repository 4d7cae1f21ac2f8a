use plotview::grid::{grid_side, slice_column, slice_of, slice_row};
use plotview::surface::SurfaceRows;

#[test]
fn grid_side_is_ceiling_root() {
    assert_eq!(grid_side(0), 0);
    assert_eq!(grid_side(1), 1);
    assert_eq!(grid_side(2), 2);
    assert_eq!(grid_side(4), 2);
    assert_eq!(grid_side(5), 3);
    assert_eq!(grid_side(9), 3);
    assert_eq!(grid_side(10), 4);
    assert_eq!(grid_side(10_000), 100);
}

#[test]
fn row_slice_is_contiguous() {
    let data: Vec<u32> = (0..9).collect();
    assert_eq!(slice_row(&data, 3, 0), vec![0, 1, 2]);
    assert_eq!(slice_row(&data, 3, 1), vec![3, 4, 5]);
    assert_eq!(slice_of(&data, 3, 2, true), vec![6, 7, 8]);
}

#[test]
fn column_slice_is_strided() {
    let data: Vec<u32> = (0..9).collect();
    assert_eq!(slice_column(&data, 3, 0), vec![0, 3, 6]);
    assert_eq!(slice_column(&data, 3, 1), vec![1, 4, 7]);
    assert_eq!(slice_of(&data, 3, 2, false), vec![2, 5, 8]);
}

#[test]
fn slices_of_a_ragged_grid_stop_at_the_end() {
    let data: Vec<u32> = (0..5).collect();
    assert_eq!(slice_row(&data, 3, 1), vec![3, 4]);
    assert_eq!(slice_row(&data, 3, 2), Vec::<u32>::new());
    assert_eq!(slice_column(&data, 3, 1), vec![1, 4]);
    assert_eq!(slice_column(&data, 3, 2), vec![2]);
}

#[test]
fn slices_of_empty_data() {
    let data: Vec<u32> = Vec::new();
    assert!(slice_row(&data, 1, 0).is_empty());
    assert!(slice_column(&data, 1, 0).is_empty());
}

#[test]
fn surface_neighbours() {
    let mut rows: SurfaceRows<u32> = SurfaceRows::new(3);
    let mut seen = Vec::new();
    for i in 0..9u32 {
        seen.push((rows.left(), rows.up()));
        rows.push(Some(i));
    }
    assert_eq!(seen[0], (None, None));
    assert_eq!(seen[1], (Some(0), None));
    assert_eq!(seen[2], (Some(1), None));
    assert_eq!(seen[3], (None, Some(0)));
    assert_eq!(seen[4], (Some(3), Some(1)));
    assert_eq!(seen[8], (Some(7), Some(5)));
}

#[test]
fn surface_neighbours_keep_gaps() {
    let mut rows: SurfaceRows<u32> = SurfaceRows::new(2);
    rows.push(None);
    rows.push(Some(1));
    assert_eq!(rows.up(), None);
    rows.push(Some(2));
    assert_eq!(rows.left(), Some(2));
    assert_eq!(rows.up(), Some(1));
}
