use crowd_sim::grid::index_to_pos;
use crowd_sim::grid::pos_to_index;
use crowd_sim::grid::Grid;
use crowd_sim::grid::RowMajorGrid;

#[test]
fn set_then_get_returns_value() {
    let mut g: RowMajorGrid<u32> = RowMajorGrid::new(4, 3, 0);
    for x in 0..4 {
        for y in 0..3 {
            g.set(x, y, (10 * x + y) as u32);
        }
    }
    for x in 0..4 {
        for y in 0..3 {
            assert_eq!(g.get(x, y), Some(&((10 * x + y) as u32)));
        }
    }
}

#[test]
fn out_of_window_get_is_absent_and_set_is_noop() {
    let mut g: RowMajorGrid<u32> = RowMajorGrid::new(4, 3, 7);
    assert_eq!(g.get(4, 0), None);
    assert_eq!(g.get(0, 3), None);
    g.set(4, 0, 99);
    g.set(0, 3, 99);
    for x in 0..4 {
        for y in 0..3 {
            assert_eq!(g.get(x, y), Some(&7));
        }
    }
}

#[test]
fn window_offset_shifts_coordinates() {
    let mut g: RowMajorGrid<i64> = RowMajorGrid::new_sub_grid(3, 2, 10, 20, -1);
    assert!(!g.in_bounds(0, 0));
    assert!(!g.in_bounds(9, 21));
    assert!(g.in_bounds(10, 20));
    assert!(g.in_bounds(12, 21));
    assert!(!g.in_bounds(13, 21));
    assert!(!g.in_bounds(12, 22));
    assert_eq!(g.get(0, 0), None);
    g.set(11, 21, 5);
    assert_eq!(g.get(11, 21), Some(&5));
    assert_eq!(g.get(11, 20), Some(&-1));
}

#[test]
fn position_iter_is_row_major_and_complete() {
    let g: RowMajorGrid<u8> = RowMajorGrid::new(3, 2, 0);
    let mut it = g.position_iter();
    let mut seen = Vec::new();
    while let Some(p) = it.next() {
        seen.push(p);
    }
    assert_eq!(seen, vec![(0, 0), (1, 0), (2, 0), (0, 1), (1, 1), (2, 1)]);
    assert_eq!(seen.len(), 3 * 2);
    for a in 0..seen.len() {
        for b in (a + 1)..seen.len() {
            assert_ne!(seen[a], seen[b]);
        }
    }
}

#[test]
fn position_iter_respects_window_offset() {
    let g: RowMajorGrid<u8> = RowMajorGrid::new_sub_grid(2, 2, 5, 9, 0);
    let mut it = g.position_iter();
    let mut seen = Vec::new();
    while let Some(p) = it.next() {
        seen.push(p);
    }
    assert_eq!(seen, vec![(5, 9), (6, 9), (5, 10), (6, 10)]);
}

#[test]
fn position_iter_of_empty_grid_yields_nothing() {
    let g: RowMajorGrid<u8> = RowMajorGrid::new(0, 5, 0);
    let mut it = g.position_iter();
    assert_eq!(it.next(), None);
}

#[test]
fn row_iter_yields_full_rows_in_order() {
    let mut g: RowMajorGrid<u32> = RowMajorGrid::new(3, 2, 0);
    for x in 0..3 {
        for y in 0..2 {
            g.set(x, y, (x + 10 * y) as u32);
        }
    }
    let mut rows = g.row_iter();
    assert_eq!(rows.next(), Some(&[0u32, 1, 2][..]));
    assert_eq!(rows.next(), Some(&[10u32, 11, 12][..]));
    assert_eq!(rows.next(), None);
}

#[test]
fn iter_yields_coordinates_with_cells() {
    let mut g: RowMajorGrid<u32> = RowMajorGrid::new(2, 2, 0);
    g.set(1, 0, 7);
    let mut it = g.iter();
    let mut seen = Vec::new();
    while let Some((x, y, v)) = it.next() {
        seen.push((x, y, *v));
    }
    assert_eq!(seen, vec![(0, 0, 0), (1, 0, 7), (0, 1, 0), (1, 1, 0)]);
}

#[test]
fn index_mapping_is_consistent() {
    assert_eq!(pos_to_index(2, 1, 4, 3, 0, 0), Some(6));
    assert_eq!(index_to_pos(6, 4, 3, 0, 0), Some((2, 1)));
    assert_eq!(pos_to_index(4, 0, 4, 3, 0, 0), None);
    assert_eq!(index_to_pos(12, 4, 3, 0, 0), None);
    assert_eq!(pos_to_index(12, 21, 3, 2, 10, 20), Some(5));
    assert_eq!(index_to_pos(5, 3, 2, 10, 20), Some((12, 21)));
}
