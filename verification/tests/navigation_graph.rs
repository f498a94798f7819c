use focus_navigation::handle::ElementHandle;
use focus_navigation::navigation::{Direction, NavigationGraph, NavigationNeighbors};

fn handle(bits: u64) -> ElementHandle {
    ElementHandle::from_bits(bits)
}

#[test]
fn handle_round_trips_through_bits() {
    assert_eq!(handle(0).to_bits(), 0);
    assert_eq!(handle(42).to_bits(), 42);
    assert_eq!(handle(u64::MAX).to_bits(), u64::MAX);
    assert_eq!(handle(7), ElementHandle(7));
    assert_ne!(handle(7), handle(8));
}

#[test]
fn new_neighbors_have_no_neighbor() {
    let neighbors = NavigationNeighbors::new();
    assert_eq!(neighbors.up, None);
    assert_eq!(neighbors.down, None);
    assert_eq!(neighbors.left, None);
    assert_eq!(neighbors.right, None);
    assert_eq!(neighbors, NavigationNeighbors::default());
}

#[test]
fn with_methods_set_one_direction_each() {
    let neighbors = NavigationNeighbors::new()
        .with_up(Some(handle(1)))
        .with_down(Some(handle(2)))
        .with_left(Some(handle(3)))
        .with_right(Some(handle(4)));
    assert_eq!(
        neighbors,
        NavigationNeighbors {
            up: Some(handle(1)),
            down: Some(handle(2)),
            left: Some(handle(3)),
            right: Some(handle(4)),
        }
    );
    let only_left = NavigationNeighbors::new().with_left(Some(handle(9)));
    assert_eq!(
        only_left,
        NavigationNeighbors { up: None, down: None, left: Some(handle(9)), right: None }
    );
}

#[test]
fn with_methods_can_remove_a_neighbor() {
    let neighbors = NavigationNeighbors::new().with_up(Some(handle(1))).with_up(None);
    assert_eq!(neighbors, NavigationNeighbors::new());
}

#[test]
fn neighbor_picks_the_field_of_the_direction() {
    let neighbors = NavigationNeighbors {
        up: Some(handle(1)),
        down: Some(handle(2)),
        left: Some(handle(3)),
        right: Some(handle(4)),
    };
    assert_eq!(neighbors.neighbor(Direction::Up), Some(handle(1)));
    assert_eq!(neighbors.neighbor(Direction::Down), Some(handle(2)));
    assert_eq!(neighbors.neighbor(Direction::Left), Some(handle(3)));
    assert_eq!(neighbors.neighbor(Direction::Right), Some(handle(4)));
    assert_eq!(NavigationNeighbors::new().neighbor(Direction::Right), None);
}

#[test]
fn new_graph_is_empty_and_unfocused() {
    let graph = NavigationGraph::new();
    assert_eq!(graph.focused(), None);
    assert_eq!(graph.neighbors_of(handle(0)), None);
    assert_eq!(graph.neighbors_of(handle(1)), None);
    let by_default = NavigationGraph::default();
    assert_eq!(by_default.focused(), None);
    assert_eq!(by_default.neighbors_of(handle(1)), None);
}

#[test]
fn register_then_lookup_returns_the_neighbors() {
    let mut graph = NavigationGraph::new();
    let neighbors = NavigationNeighbors::new().with_down(Some(handle(2)));
    graph.register_button(handle(1), neighbors);
    assert_eq!(graph.neighbors_of(handle(1)), Some(neighbors));
    assert_eq!(graph.neighbors_of(handle(2)), None);
    assert_eq!(graph.focused(), None);
}

#[test]
fn register_overwrites_an_existing_entry() {
    let mut graph = NavigationGraph::new();
    graph.register_button(handle(1), NavigationNeighbors::new().with_down(Some(handle(2))));
    graph.register_button(handle(1), NavigationNeighbors::new().with_right(Some(handle(3))));
    assert_eq!(
        graph.neighbors_of(handle(1)),
        Some(NavigationNeighbors { up: None, down: None, left: None, right: Some(handle(3)) })
    );
}

#[test]
fn register_leaves_the_focus_alone() {
    let mut graph = NavigationGraph::new();
    graph.set_focus(handle(5));
    graph.register_button(handle(1), NavigationNeighbors::new());
    assert_eq!(graph.focused(), Some(handle(5)));
}

#[test]
fn lookup_of_a_handle_never_registered_is_none() {
    let mut graph = NavigationGraph::new();
    graph.register_button(handle(1), NavigationNeighbors::new().with_down(Some(handle(2))));
    assert_eq!(graph.neighbors_of(handle(2)), None);
    assert_eq!(graph.neighbors_of(handle(u64::MAX)), None);
}

#[test]
fn set_focus_accepts_an_unregistered_handle() {
    let mut graph = NavigationGraph::new();
    graph.set_focus(handle(77));
    assert_eq!(graph.focused(), Some(handle(77)));
    assert_eq!(graph.neighbors_of(handle(77)), None);
}

#[test]
fn set_focus_replaces_the_previous_focus_and_keeps_entries() {
    let mut graph = NavigationGraph::new();
    let neighbors = NavigationNeighbors::new().with_down(Some(handle(2)));
    graph.register_button(handle(1), neighbors);
    graph.set_focus(handle(1));
    graph.set_focus(handle(2));
    assert_eq!(graph.focused(), Some(handle(2)));
    assert_eq!(graph.neighbors_of(handle(1)), Some(neighbors));
}

#[test]
fn clear_forgets_entries_and_focus() {
    let mut graph = NavigationGraph::new();
    graph.register_button(handle(1), NavigationNeighbors::new().with_down(Some(handle(2))));
    graph.register_button(handle(2), NavigationNeighbors::new().with_up(Some(handle(1))));
    graph.set_focus(handle(1));
    graph.clear();
    assert_eq!(graph.neighbors_of(handle(1)), None);
    assert_eq!(graph.neighbors_of(handle(2)), None);
    assert_eq!(graph.focused(), None);
    assert_eq!(graph.move_focus(Direction::Down), None);
}

#[test]
fn clear_of_an_empty_graph_is_harmless() {
    let mut graph = NavigationGraph::new();
    graph.clear();
    assert_eq!(graph.focused(), None);
    assert_eq!(graph.neighbors_of(handle(1)), None);
}

#[test]
fn move_focus_without_a_focus_does_nothing() {
    let mut graph = NavigationGraph::new();
    graph.register_button(handle(1), NavigationNeighbors::new().with_down(Some(handle(2))));
    assert_eq!(graph.move_focus(Direction::Down), None);
    assert_eq!(graph.focused(), None);
}

#[test]
fn move_focus_from_an_unregistered_focus_does_nothing() {
    let mut graph = NavigationGraph::new();
    graph.register_button(handle(1), NavigationNeighbors::new().with_down(Some(handle(2))));
    graph.set_focus(handle(9));
    assert_eq!(graph.move_focus(Direction::Down), None);
    assert_eq!(graph.focused(), Some(handle(9)));
}

#[test]
fn move_focus_at_a_boundary_keeps_the_focus() {
    let mut graph = NavigationGraph::new();
    graph.register_button(handle(1), NavigationNeighbors::new().with_down(Some(handle(2))));
    graph.register_button(handle(2), NavigationNeighbors::new().with_up(Some(handle(1))));
    graph.set_focus(handle(1));
    assert_eq!(graph.move_focus(Direction::Up), None);
    assert_eq!(graph.focused(), Some(handle(1)));
    assert_eq!(graph.move_focus(Direction::Left), None);
    assert_eq!(graph.move_focus(Direction::Right), None);
    assert_eq!(graph.focused(), Some(handle(1)));
}

#[test]
fn move_focus_toward_a_neighbor_focuses_it() {
    let mut graph = NavigationGraph::new();
    graph.register_button(handle(1), NavigationNeighbors::new().with_down(Some(handle(2))));
    graph.register_button(handle(2), NavigationNeighbors::new().with_up(Some(handle(1))));
    graph.set_focus(handle(1));
    assert_eq!(graph.move_focus(Direction::Down), Some(handle(2)));
    assert_eq!(graph.focused(), Some(handle(2)));
    assert_eq!(
        graph.neighbors_of(handle(1)),
        Some(NavigationNeighbors::new().with_down(Some(handle(2))))
    );
}

#[test]
fn move_focus_follows_each_direction() {
    let mut graph = NavigationGraph::new();
    let center = NavigationNeighbors {
        up: Some(handle(1)),
        down: Some(handle(2)),
        left: Some(handle(3)),
        right: Some(handle(4)),
    };
    graph.register_button(handle(0), center);
    graph.set_focus(handle(0));
    assert_eq!(graph.move_focus(Direction::Up), Some(handle(1)));
    graph.set_focus(handle(0));
    assert_eq!(graph.move_focus(Direction::Down), Some(handle(2)));
    graph.set_focus(handle(0));
    assert_eq!(graph.move_focus(Direction::Left), Some(handle(3)));
    graph.set_focus(handle(0));
    assert_eq!(graph.move_focus(Direction::Right), Some(handle(4)));
    assert_eq!(graph.focused(), Some(handle(4)));
}

#[test]
fn move_focus_may_reach_an_unregistered_element_and_stops_there() {
    let mut graph = NavigationGraph::new();
    graph.register_button(handle(1), NavigationNeighbors::new().with_right(Some(handle(2))));
    graph.set_focus(handle(1));
    assert_eq!(graph.move_focus(Direction::Right), Some(handle(2)));
    assert_eq!(graph.focused(), Some(handle(2)));
    assert_eq!(graph.move_focus(Direction::Left), None);
    assert_eq!(graph.focused(), Some(handle(2)));
}

#[test]
fn a_self_loop_keeps_the_focus_and_reports_the_move() {
    let mut graph = NavigationGraph::new();
    graph.register_button(handle(1), NavigationNeighbors::new().with_up(Some(handle(1))));
    graph.set_focus(handle(1));
    assert_eq!(graph.move_focus(Direction::Up), Some(handle(1)));
    assert_eq!(graph.focused(), Some(handle(1)));
}
