use bevy::prelude::{Entity, World};
use focus_navigation::button_builder::{ButtonNavigationBuilder, MarkerInstruction};
use focus_navigation::handle::ElementHandle;
use focus_navigation::layout::NavigationLayout;
use focus_navigation::navigation::{Direction, NavigationGraph, NavigationNeighbors};

fn handle_of(entity: Entity) -> ElementHandle {
    ElementHandle::from_bits(entity.to_bits())
}

fn entity_of(handle: ElementHandle) -> Entity {
    Entity::from_bits(handle.to_bits())
}

#[test]
fn handles_of_entities_lead_back_to_the_entities() {
    let mut world = World::new();
    for _ in 0..5 {
        let entity = world.spawn_empty().id();
        assert_eq!(entity_of(handle_of(entity)), entity);
        assert_eq!(handle_of(entity).to_bits(), entity.to_bits());
    }
}

#[test]
fn entities_of_one_world_are_different_elements() {
    let mut world = World::new();
    let entities: Vec<Entity> = (0..4).map(|_| world.spawn_empty().id()).collect();
    for (i, a) in entities.iter().enumerate() {
        for (j, b) in entities.iter().enumerate() {
            assert_eq!(handle_of(*a) == handle_of(*b), i == j);
        }
    }
}

#[test]
fn menu_of_spawned_entities_is_walked_in_display_order() {
    let mut world = World::new();
    let entities: Vec<Entity> = (0..3).map(|_| world.spawn_empty().id()).collect();

    let mut graph = NavigationGraph::new();
    let mut builder = ButtonNavigationBuilder::new(NavigationLayout::Vertical).unwrap();
    for entity in &entities {
        builder.add_button(handle_of(*entity));
    }
    let instructions = builder.build(&mut graph, true);

    let marked: Vec<(bool, Entity)> = instructions
        .iter()
        .map(|instruction| match instruction {
            MarkerInstruction::MarkFocusable(handle) => (false, entity_of(*handle)),
            MarkerInstruction::MarkFocused(handle) => (true, entity_of(*handle)),
        })
        .collect();
    assert_eq!(
        marked,
        vec![
            (false, entities[0]),
            (false, entities[1]),
            (false, entities[2]),
            (true, entities[0]),
        ]
    );

    assert_eq!(graph.focused().map(entity_of), Some(entities[0]));
    assert_eq!(graph.move_focus(Direction::Down).map(entity_of), Some(entities[1]));
    assert_eq!(graph.move_focus(Direction::Down).map(entity_of), Some(entities[2]));
    assert_eq!(graph.move_focus(Direction::Down).map(entity_of), None);
    assert_eq!(graph.move_focus(Direction::Up).map(entity_of), Some(entities[1]));
}

#[test]
fn an_entity_spawned_after_a_despawn_is_unknown_to_the_graph() {
    let mut world = World::new();
    let gone = world.spawn_empty().id();
    let mut graph = NavigationGraph::new();
    graph.register_button(handle_of(gone), NavigationNeighbors::new());
    graph.set_focus(handle_of(gone));

    assert!(world.despawn(gone));
    let fresh = world.spawn_empty().id();

    assert_ne!(fresh, gone);
    assert_eq!(graph.neighbors_of(handle_of(fresh)), None);
    assert_eq!(graph.neighbors_of(handle_of(gone)), Some(NavigationNeighbors::new()));

    graph.clear();
    assert_eq!(graph.neighbors_of(handle_of(gone)), None);
    assert_eq!(graph.focused(), None);
}
