use hyprgrd::command::Direction;
use hyprgrd::grid::{Grid, WorkspaceMapping};

fn monitors() -> Vec<String> {
    vec!["DP-1".into(), "HDMI-A-1".into()]
}

#[test]
fn new_grid_starts_1x1_at_origin() {
    let g = Grid::new(monitors());
    assert_eq!(g.position(), (0, 0));
    assert_eq!(g.dimensions(), (1, 1));
}

#[test]
fn initial_mapping_covers_all_monitors() {
    let g = Grid::new(monitors());
    let m = g.current_mapping().expect("should have mapping at (0,0)");
    assert_eq!(m.len(), 2);
    assert!(m.get("DP-1").is_some());
    assert!(m.get("HDMI-A-1").is_some());
}

#[test]
fn go_right_grows_columns() {
    let mut g = Grid::new(monitors());
    let pos = g.go(Direction::Right);
    assert_eq!(pos, (1, 0));
    assert_eq!(g.dimensions(), (2, 1));
}

#[test]
fn go_down_grows_rows() {
    let mut g = Grid::new(monitors());
    let pos = g.go(Direction::Down);
    assert_eq!(pos, (0, 1));
    assert_eq!(g.dimensions(), (1, 2));
}

#[test]
fn go_left_at_origin_stays() {
    let mut g = Grid::new(monitors());
    let pos = g.go(Direction::Left);
    assert_eq!(pos, (0, 0));
}

#[test]
fn go_up_at_origin_stays() {
    let mut g = Grid::new(monitors());
    let pos = g.go(Direction::Up);
    assert_eq!(pos, (0, 0));
}

#[test]
fn switch_to_beyond_bounds_grows_grid() {
    let mut g = Grid::new(monitors());
    let pos = g.switch_to(3, 2);
    assert_eq!(pos, (3, 2));
    assert_eq!(g.dimensions(), (4, 3));
}

#[test]
fn workspace_ids_are_unique_across_cells() {
    let mut g = Grid::new(monitors());
    g.go(Direction::Right);
    g.go(Direction::Down);

    // Collect all workspace ids
    let mut ids: Vec<i32> = Vec::new();
    for col in 0..g.dimensions().0 {
        for row in 0..g.dimensions().1 {
            if let Some(m) = g.mapping_at(col, row) {
                for (_, id) in m.iter() {
                    ids.push(id);
                }
            }
        }
    }
    let unique: std::collections::HashSet<i32> = ids.iter().copied().collect();
    assert_eq!(ids.len(), unique.len(), "all workspace ids must be unique");
}

#[test]
fn revisiting_cell_keeps_same_mapping() {
    let mut g = Grid::new(monitors());
    g.go(Direction::Right);
    let first = g.current_mapping().cloned();
    g.go(Direction::Left);
    g.go(Direction::Right);
    let second = g.current_mapping().cloned();
    assert_eq!(first, second, "mapping should be stable");
}

#[test]
fn single_monitor_grid() {
    let mut g = Grid::new(vec!["eDP-1".into()]);
    g.go(Direction::Right);
    let m = g.current_mapping().unwrap();
    assert_eq!(m.len(), 1);
    assert!(m.get("eDP-1").is_some());
}

#[test]
fn complex_navigation_sequence() {
    let mut g = Grid::new(monitors());
    // Build a 3x3 grid
    g.go(Direction::Right); // (1,0)
    g.go(Direction::Right); // (2,0)
    g.go(Direction::Down); // (2,1)
    g.go(Direction::Down); // (2,2)
    g.go(Direction::Left); // (1,2)
    g.go(Direction::Left); // (0,2)
    g.go(Direction::Up); // (0,1)
    assert_eq!(g.position(), (0, 1));
    assert_eq!(g.dimensions(), (3, 3));
}

#[test]
fn go_diagonal_steps_both_axes() {
    let mut g = Grid::new(monitors());
    let pos = g.go(Direction::DownRight);
    assert_eq!(pos, (1, 1));
    assert_eq!(g.dimensions(), (2, 2));
    let pos = g.go(Direction::UpLeft);
    assert_eq!(pos, (0, 0));
    assert_eq!(g.dimensions(), (2, 2));
}

#[test]
fn get_abs_from_clamps_negative_directions() {
    assert_eq!(Grid::get_abs_from(Direction::Left, 0, 5), (0, 5));
    assert_eq!(Grid::get_abs_from(Direction::Up, 5, 0), (5, 0));
    assert_eq!(Grid::get_abs_from(Direction::UpLeft, 0, 0), (0, 0));
    // Diagonals apply the two single-axis rules independently.
    assert_eq!(Grid::get_abs_from(Direction::UpLeft, 3, 0), (2, 0));
    assert_eq!(Grid::get_abs_from(Direction::DownLeft, 0, 2), (0, 3));
    assert_eq!(Grid::get_abs_from(Direction::DownRight, 1, 1), (2, 2));
}

#[test]
fn grow_to_contain_is_idempotent_and_monotone() {
    let mut g = Grid::new(monitors());
    g.grow_to_contain(4, 2);
    assert_eq!(g.dimensions(), (5, 3));
    g.grow_to_contain(4, 2);
    assert_eq!(g.dimensions(), (5, 3));
    // Growing to a smaller cell never shrinks.
    g.grow_to_contain(1, 1);
    assert_eq!(g.dimensions(), (5, 3));
}

#[test]
fn first_cell_ids_are_sequential_from_one() {
    let g = Grid::new(monitors());
    let m = g.current_mapping().unwrap();
    assert_eq!(m.get("DP-1"), Some(1));
    assert_eq!(m.get("HDMI-A-1"), Some(2));
    assert_eq!(m.get("nope"), None);
    assert!(!m.is_empty());
}

#[test]
fn visited_cells_lists_every_allocated_cell() {
    let mut g = Grid::new(monitors());
    g.go(Direction::Right);
    g.go(Direction::Down);
    let cells = g.visited_cells();
    assert_eq!(cells.len(), 3);
    assert!(cells.contains(&(0, 0)));
    assert!(cells.contains(&(1, 0)));
    assert!(cells.contains(&(1, 1)));
    assert!(g.has_mapping(1, 1));
    assert!(!g.has_mapping(0, 1));
}

#[test]
fn workspace_mapping_new_keeps_pairs() {
    let m = WorkspaceMapping::new(vec![("A".to_string(), 7), ("B".to_string(), 9)]);
    assert_eq!(m.len(), 2);
    assert_eq!(m.get("A"), Some(7));
    assert_eq!(m.get("B"), Some(9));
    assert_eq!(m.iter(), vec![("A".to_string(), 7), ("B".to_string(), 9)]);
}
