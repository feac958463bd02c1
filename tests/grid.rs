use mpm::grid::{clear_grid, is_sticky, update_nodes, Grid, Node};

#[test]
fn new_grid_has_width_plus_one_nodes_per_side() {
    let grid = Grid::new(4, 7u32);
    assert_eq!(grid.grid_width(), 4);
    for x in 0..=4 {
        for y in 0..=4 {
            let node = grid.get(x, y).unwrap();
            assert_eq!(node.state, 7);
            assert_eq!(node.index_x, x as usize);
            assert_eq!(node.index_y, y as usize);
        }
    }
}

#[test]
fn lookups_outside_the_lattice_are_absent() {
    let grid = Grid::new(4, 0u32);
    assert!(grid.get(-1, 0).is_none());
    assert!(grid.get(0, -1).is_none());
    assert!(grid.get(5, 0).is_none());
    assert!(grid.get(0, 5).is_none());
    assert!(grid.get(i32::MIN, i32::MAX).is_none());
    assert!(grid.get(4, 4).is_some());
    assert!(grid.inside_grid(0, 4));
    assert!(!grid.inside_grid(4, 5));
}

#[test]
fn get_mut_changes_one_node() {
    let mut grid = Grid::new(3, 0u32);
    *grid.get_mut(1, 2).unwrap() = 9;
    assert!(grid.get_mut(4, 0).is_none());
    for x in 0..=3 {
        for y in 0..=3 {
            let expected = if x == 1 && y == 2 { 9 } else { 0 };
            assert_eq!(grid.get(x, y).unwrap().state, expected);
        }
    }
}

#[test]
fn cursor_walks_columns_in_order() {
    let mut grid = Grid::new(2, 0u32);
    let mut cursor = grid.iter_mut();
    let mut seen = Vec::new();
    let mut count = 0u32;
    while let Some((x, y, state)) = cursor.next(&mut grid) {
        count += 1;
        *state = count;
        seen.push((x, y));
    }
    assert_eq!(
        seen,
        vec![(0, 0), (0, 1), (0, 2), (1, 0), (1, 1), (1, 2), (2, 0), (2, 1), (2, 2)]
    );
    assert_eq!(grid.get(1, 0).unwrap().state, 4);
    assert!(cursor.next(&mut grid).is_none());
}

#[test]
fn clear_grid_zeroes_every_node() {
    let mut grid = Grid::new(3, 5i64);
    *grid.get_mut(2, 2).unwrap() = -4;
    clear_grid(&mut grid, 0);
    for x in 0..=3 {
        for y in 0..=3 {
            let node = grid.get(x, y).unwrap();
            assert_eq!(node.state, 0);
            assert_eq!((node.index_x, node.index_y), (x as usize, y as usize));
        }
    }
}

#[test]
fn empty_grid_has_no_mass_after_clearing() {
    let mut grid = Grid::new(8, (1.5f32, 2.0f32));
    clear_grid(&mut grid, (0.0, 0.0));
    let mut cursor = grid.iter_mut();
    while let Some((_, _, state)) = cursor.next(&mut grid) {
        assert!(!(state.0 > 0.0));
    }
}

#[test]
fn nodes_on_the_edges_stick() {
    let grid = Grid::new(64, ());
    for i in 0..=64 {
        assert!(grid.get(0, i).unwrap().sticks_x(64));
        assert!(grid.get(64, i).unwrap().sticks_x(64));
        assert!(grid.get(i, 0).unwrap().sticks_y(64));
        assert!(grid.get(i, 64).unwrap().sticks_y(64));
    }
}

#[test]
fn sticky_band_is_two_nodes_thick() {
    assert!(is_sticky(0, 64));
    assert!(is_sticky(1, 64));
    assert!(!is_sticky(2, 64));
    assert!(!is_sticky(62, 64));
    assert!(is_sticky(63, 64));
    assert!(is_sticky(64, 64));
    assert!(is_sticky(0, 1));
    assert!(is_sticky(1, 0));
}

#[test]
fn node_reset_keeps_coordinates() {
    let mut node = Node::new(3, 4, 10u8);
    node.reset(0);
    assert_eq!(node.state, 0);
    assert_eq!((node.index_x, node.index_y), (3, 4));
    assert!(!node.sticks_x(10));
    assert!(node.sticks_y(5));
}

#[derive(Clone, Copy, Debug, PartialEq)]
struct Cell {
    v: (f32, f32),
    mass: f32,
}

fn integrate(dt: f32, gravity: f32) -> impl Fn(Cell, bool, bool) -> Cell {
    move |c: Cell, sticks_x: bool, sticks_y: bool| {
        if c.mass <= 0.0 {
            return c;
        }
        let mut v = (c.v.0 / c.mass, c.v.1 / c.mass + dt * gravity);
        if sticks_x {
            v.0 = 0.0;
        }
        if sticks_y {
            v.1 = 0.0;
        }
        Cell { v, ..c }
    }
}

#[test]
fn update_nodes_passes_the_sticky_flags() {
    let mut grid = Grid::new(4, (false, false));
    update_nodes(&mut grid, |_, sx, sy| (sx, sy));
    for x in 0..=4i32 {
        for y in 0..=4i32 {
            let expected = (x < 2 || x > 2, y < 2 || y > 2);
            assert_eq!(grid.get(x, y).unwrap().state, expected);
        }
    }
}

#[test]
fn gravity_reaches_a_single_massive_node() {
    let empty = Cell { v: (0.0, 0.0), mass: 0.0 };
    let mut grid = Grid::new(64, empty);
    *grid.get_mut(32, 32).unwrap() = Cell { v: (0.0, 0.0), mass: 1.0 };
    update_nodes(&mut grid, integrate(0.2, -0.3));
    let node = grid.get(32, 32).unwrap().state;
    assert!((node.v.1 - 0.2 * -0.3).abs() < 1e-6);
    assert_eq!(node.v.0, 0.0);
    assert_eq!(grid.get(10, 10).unwrap().state, empty);
}

#[test]
fn edge_nodes_lose_their_normal_velocity() {
    let empty = Cell { v: (0.0, 0.0), mass: 0.0 };
    let moving = Cell { v: (5.0, 3.0), mass: 1.0 };
    let mut grid = Grid::new(64, empty);
    for &x in &[0, 64, 30] {
        *grid.get_mut(x, 30).unwrap() = moving;
    }
    update_nodes(&mut grid, integrate(0.2, 0.0));
    assert_eq!(grid.get(0, 30).unwrap().state.v, (0.0, 3.0));
    assert_eq!(grid.get(64, 30).unwrap().state.v, (0.0, 3.0));
    assert_eq!(grid.get(30, 30).unwrap().state.v, (5.0, 3.0));
}
