use tetris_core::grid::Cell;
use tetris_core::grid::Grid;

#[test]
fn new_grid_all_empty() {
    let g = Grid::new(10, 20);
    assert_eq!(g.width(), 10);
    assert_eq!(g.height(), 20);
    assert_eq!(g.cell_count(), 200);
    for x in 0..10 {
        for y in 0..20 {
            assert_eq!(g.get(x, y), Cell::Empty);
        }
    }
}

#[test]
fn set_then_get_in_bounds() {
    let mut g = Grid::new(10, 20);
    g.set(3, 5, Cell::Filled);
    assert_eq!(g.get(3, 5), Cell::Filled);
    g.set(0, 0, Cell::Filled);
    assert_eq!(g.get(0, 0), Cell::Filled);
    g.set(9, 19, Cell::Filled);
    assert_eq!(g.get(9, 19), Cell::Filled);
    g.set(3, 5, Cell::Empty);
    assert_eq!(g.get(3, 5), Cell::Empty);
}

#[test]
fn set_leaves_other_cells_alone() {
    let mut g = Grid::new(10, 20);
    g.set(4, 7, Cell::Filled);
    for x in 0..10 {
        for y in 0..20 {
            if (x, y) != (4, 7) {
                assert_eq!(g.get(x, y), Cell::Empty);
            }
        }
    }
}

#[test]
fn out_of_bounds_set_is_noop() {
    let mut g = Grid::new(10, 20);
    g.set(10, 0, Cell::Filled);
    g.set(0, 20, Cell::Filled);
    g.set(usize::MAX, usize::MAX, Cell::Filled);
    for x in 0..10 {
        for y in 0..20 {
            assert_eq!(g.get(x, y), Cell::Empty);
        }
    }
}

#[test]
fn out_of_bounds_get_returns_empty() {
    let mut g = Grid::new(10, 20);
    g.set(9, 19, Cell::Filled);
    assert_eq!(g.get(10, 19), Cell::Empty);
    assert_eq!(g.get(9, 20), Cell::Empty);
    assert_eq!(g.get(usize::MAX, 0), Cell::Empty);
    assert!(!g.in_bounds(10, 0));
    assert!(!g.in_bounds(0, 20));
    assert!(g.in_bounds(9, 19));
}

#[test]
fn clear_resets_every_cell() {
    let mut g = Grid::new(10, 20);
    g.set(0, 0, Cell::Filled);
    g.set(5, 5, Cell::Filled);
    g.set(9, 19, Cell::Filled);
    g.clear();
    assert_eq!(g.width(), 10);
    assert_eq!(g.height(), 20);
    for x in 0..10 {
        for y in 0..20 {
            assert_eq!(g.get(x, y), Cell::Empty);
        }
    }
}

#[test]
fn single_cell_grid() {
    let mut g = Grid::new(1, 1);
    assert_eq!(g.get(0, 0), Cell::Empty);
    g.set(0, 0, Cell::Filled);
    assert_eq!(g.get(0, 0), Cell::Filled);
    g.set(1, 0, Cell::Filled);
    g.set(0, 1, Cell::Filled);
    assert_eq!(g.get(1, 0), Cell::Empty);
    assert_eq!(g.get(0, 1), Cell::Empty);
}

#[test]
fn empty_extent_grid_never_panics() {
    let mut g = Grid::new(0, 0);
    assert_eq!(g.cell_count(), 0);
    g.set(0, 0, Cell::Filled);
    assert_eq!(g.get(0, 0), Cell::Empty);
    let mut h = Grid::new(5, 0);
    h.set(2, 0, Cell::Filled);
    assert_eq!(h.get(2, 0), Cell::Empty);
    h.clear();
    assert_eq!(h.cell_count(), 0);
}
