use dots_and_boxes::box_grid::{BoxGrid, EdgeState};
use dots_and_boxes::edge::Edge;
use dots_and_boxes::point::Point;

#[test]
fn test_max_edges() {
    // arrange
    let box_grid_small = BoxGrid::new(2, 2);
    let box_grid_medium = BoxGrid::new(4, 4);
    let box_grid_tall = BoxGrid::new(2, 6);
    let box_grid_wide = BoxGrid::new(6, 2);

    // act
    let max_edges_small = box_grid_small.max_edges();
    let max_edges_medium = box_grid_medium.max_edges();
    let max_edges_tall = box_grid_tall.max_edges();
    let max_edges_wide = box_grid_wide.max_edges();

    // assert
    assert_eq!(max_edges_small, 4);
    assert_eq!(max_edges_medium, 24);
    assert_eq!(max_edges_tall, 16);
    assert_eq!(max_edges_wide, 16);
}

#[test]
fn test_edge_store() {
    // make an edge store
    let width = 3;
    let height = 4;

    let mut box_grid = BoxGrid::new(width, height);

    let test_edge = Edge::new(0, 0, 0, 1);

    let occupancy_result = box_grid.is_occupied(&test_edge);
    assert_eq!(occupancy_result, &EdgeState::Empty);

    box_grid.set_occupied(&test_edge, 0);

    let occupancy_result_2 = box_grid.is_occupied(&test_edge);

    assert_eq!(occupancy_result_2, &EdgeState::Occupied { player_index: 0 });
    assert_eq!(box_grid.column_count(), usize::from(width - 1));
}

// every edge that a grid of the given size has a cell for
fn all_edges(width: u8, height: u8) -> Vec<Edge> {
    let mut edges = Vec::new();
    for x in 0..width - 1 {
        for y in 0..height {
            edges.push(Edge { start: Point { x, y }, end: Point { x, y: y + 1 } });
        }
    }
    for y in 0..height - 1 {
        for x in 0..width {
            edges.push(Edge { start: Point { x, y }, end: Point { x: x + 1, y } });
        }
    }
    edges
}

#[test]
fn a_new_grid_reports_its_size() {
    let grid = BoxGrid::new(3, 4);
    assert_eq!(grid.width(), 3);
    assert_eq!(grid.height(), 4);
    assert_eq!(grid.column_count(), 2);
    assert_eq!(grid.row_count(), 3);
}

#[test]
fn max_edges_counts_the_cells() {
    for (width, height) in [(1u8, 1u8), (1, 5), (5, 1), (2, 2), (3, 4), (4, 4), (7, 3)] {
        let grid = BoxGrid::new(width, height);
        let edges = all_edges(width, height);
        assert_eq!(grid.max_edges() as usize, edges.len());
        for edge in &edges {
            assert!(grid.contains(edge));
        }
    }
}

#[test]
fn max_edges_of_a_single_vertex_is_zero() {
    assert_eq!(BoxGrid::new(1, 1).max_edges(), 0);
}

#[test]
fn max_edges_of_the_largest_grid() {
    // 254 * 255 + 254 * 255
    assert_eq!(BoxGrid::new(255, 255).max_edges(), 129540);
    assert_eq!(BoxGrid::new(255, 1).max_edges(), 254);
    assert_eq!(BoxGrid::new(1, 255).max_edges(), 254);
}

#[test]
fn a_new_grid_is_empty_everywhere() {
    let grid = BoxGrid::new(4, 3);
    let edges = all_edges(4, 3);
    assert_eq!(edges.len(), 17);
    for edge in &edges {
        assert_eq!(grid.is_occupied(edge), &EdgeState::Empty);
    }
}

#[test]
fn a_claim_changes_one_cell_only() {
    let edges = all_edges(4, 3);
    for (claimed, target) in edges.iter().enumerate() {
        let mut grid = BoxGrid::new(4, 3);
        grid.set_occupied(target, 5);
        for (index, edge) in edges.iter().enumerate() {
            if index == claimed {
                assert_eq!(grid.is_occupied(edge), &EdgeState::Occupied { player_index: 5 });
            } else {
                assert_eq!(grid.is_occupied(edge), &EdgeState::Empty);
            }
        }
        assert_eq!(grid.width(), 4);
        assert_eq!(grid.height(), 3);
        assert_eq!(grid.max_edges(), 17);
    }
}

#[test]
fn a_horizontal_claim_is_stored_with_the_horizontal_edges() {
    let mut grid = BoxGrid::new(3, 4);
    let horizontal = Edge::new(1, 0, 2, 0);
    // the vertical edges whose cells have the same or the swapped indices
    let vertical_at_same_start = Edge::new(1, 0, 1, 1);
    let vertical_at_swapped_start = Edge::new(0, 1, 0, 2);

    grid.set_occupied(&horizontal, 1);

    assert_eq!(grid.is_occupied(&horizontal), &EdgeState::Occupied { player_index: 1 });
    assert_eq!(grid.is_occupied(&vertical_at_same_start), &EdgeState::Empty);
    assert_eq!(grid.is_occupied(&vertical_at_swapped_start), &EdgeState::Empty);
}

#[test]
fn a_vertical_claim_is_stored_with_the_vertical_edges() {
    let mut grid = BoxGrid::new(3, 4);
    let vertical = Edge::new(1, 0, 1, 1);
    let horizontal_at_same_start = Edge::new(1, 0, 2, 0);
    let horizontal_at_swapped_start = Edge::new(0, 1, 1, 1);

    grid.set_occupied(&vertical, 2);

    assert_eq!(grid.is_occupied(&vertical), &EdgeState::Occupied { player_index: 2 });
    assert_eq!(grid.is_occupied(&horizontal_at_same_start), &EdgeState::Empty);
    assert_eq!(grid.is_occupied(&horizontal_at_swapped_start), &EdgeState::Empty);
}

#[test]
fn a_claim_in_the_last_row_and_the_last_column() {
    let mut grid = BoxGrid::new(3, 4);
    // the last cell of the last row, and the last cell of the last column
    let horizontal = Edge::new(2, 2, 3, 2);
    let vertical = Edge::new(1, 3, 1, 4);
    assert!(grid.contains(&horizontal));
    assert!(grid.contains(&vertical));

    grid.set_occupied(&horizontal, 3);
    grid.set_occupied(&vertical, 4);

    assert_eq!(grid.is_occupied(&horizontal), &EdgeState::Occupied { player_index: 3 });
    assert_eq!(grid.is_occupied(&vertical), &EdgeState::Occupied { player_index: 4 });
}

#[test]
fn claims_are_kept_and_can_be_taken_over() {
    let mut grid = BoxGrid::new(3, 3);
    let first = Edge::new(0, 0, 0, 1);
    let second = Edge::new(0, 0, 1, 0);

    grid.set_occupied(&first, 1);
    grid.set_occupied(&second, 2);
    assert_eq!(grid.is_occupied(&first), &EdgeState::Occupied { player_index: 1 });
    assert_eq!(grid.is_occupied(&second), &EdgeState::Occupied { player_index: 2 });

    grid.set_occupied(&first, 4294967295);
    assert_eq!(grid.is_occupied(&first), &EdgeState::Occupied { player_index: 4294967295 });
    assert_eq!(grid.is_occupied(&second), &EdgeState::Occupied { player_index: 2 });
}

#[test]
fn edges_with_one_start_and_orientation_share_a_cell() {
    let mut grid = BoxGrid::new(3, 4);
    let short = Edge::new(0, 1, 0, 2);
    let long = Edge::new(0, 1, 0, 3);
    grid.set_occupied(&short, 9);
    assert_eq!(grid.is_occupied(&long), &EdgeState::Occupied { player_index: 9 });
}

#[test]
fn contains_follows_the_bounds_of_each_orientation() {
    let grid = BoxGrid::new(3, 4);
    // vertical edges: x below width - 1, y below height
    assert!(grid.contains(&Edge::new(1, 3, 1, 4)));
    assert!(!grid.contains(&Edge::new(2, 0, 2, 1)));
    assert!(!grid.contains(&Edge::new(0, 4, 0, 5)));
    // horizontal edges: y below height - 1, x below width
    assert!(grid.contains(&Edge::new(2, 2, 3, 2)));
    assert!(!grid.contains(&Edge::new(0, 3, 1, 3)));
    assert!(!grid.contains(&Edge::new(3, 0, 4, 0)));
}

#[test]
fn no_grid_contains_a_diagonal_edge() {
    let diagonal = Edge::new(0, 0, 1, 1);
    assert!(!BoxGrid::new(2, 2).contains(&diagonal));
    assert!(!BoxGrid::new(255, 255).contains(&diagonal));
    assert!(!BoxGrid::new(255, 255).contains(&Edge::new(1, 0, 0, 1)));
}

#[test]
fn a_grid_of_one_vertex_has_no_cells() {
    let grid = BoxGrid::new(1, 1);
    assert_eq!(grid.column_count(), 0);
    assert_eq!(grid.row_count(), 0);
    assert!(!grid.contains(&Edge::new(0, 0, 0, 1)));
    assert!(!grid.contains(&Edge::new(0, 0, 1, 0)));
}
