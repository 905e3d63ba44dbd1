use square_game::entity::create_entities;
use square_game::entity::EntityDirection;
use square_game::entity::EntityLocation;
use square_game::world::GameWindow;
use square_game::world::GameWorld;

fn fresh_world() -> GameWorld {
    GameWorld {
        entities: create_entities(),
        window: GameWindow { x: 800, y: 600 },
    }
}

#[test]
fn window_snapshot_accessors() {
    let mut window = GameWindow { x: 800, y: 600 };
    assert_eq!(window.get_x(), 800);
    assert_eq!(window.get_y(), 600);
    window.set(1024, 768);
    assert_eq!(window.get_x(), 1024);
    assert_eq!(window.get_y(), 768);
    window.set_x(640);
    assert_eq!(window.get_x(), 640);
    assert_eq!(window.get_y(), 768);
    window.set_y(480);
    assert_eq!(window.get_y(), 480);
}

#[test]
fn lookup_finds_registered_entities() {
    let world = fresh_world();
    assert!(world.has_entity(1));
    assert!(world.has_entity(2));
    assert!(!world.has_entity(3));
    assert!(world.has_unique_ids());

    assert_eq!(world.get_entity_ref(1).location, EntityLocation { x: 0, y: 0 });
    assert_eq!(world.get_entity_ref(2).location, EntityLocation { x: 100, y: 200 });
}

#[test]
fn duplicate_identities_are_detected() {
    let mut entities = create_entities();
    entities[1].id = 1;
    let world = GameWorld {
        entities,
        window: GameWindow { x: 800, y: 600 },
    };
    assert!(!world.has_unique_ids());
}

#[test]
fn mutation_through_lookup_sticks() {
    let mut world = fresh_world();
    {
        let player = world.get_entity(1);
        player.direction = EntityDirection::Right;
        player.update_location(50, 0);
    }
    assert_eq!(world.get_entity_ref(1).direction, EntityDirection::Right);
    assert_eq!(world.get_entity_ref(1).location, EntityLocation { x: 50, y: 0 });
    // The other entity is untouched.
    assert_eq!(world.get_entity_ref(2).location, EntityLocation { x: 100, y: 200 });
}

#[test]
fn draw_commands_mirror_the_listed_entities() {
    let world = fresh_world();
    let cmds = world.draw_entities(&vec![2, 1]);
    assert_eq!(cmds.len(), 2);

    assert_eq!(cmds[0].x, 100);
    assert_eq!(cmds[0].y, 200);
    assert_eq!(cmds[0].width, 50);
    assert_eq!(cmds[0].height, 50);
    assert_eq!(cmds[0].color.g, 200);

    assert_eq!(cmds[1].x, 0);
    assert_eq!(cmds[1].y, 0);
    assert_eq!(cmds[1].width, 50);
    assert_eq!(cmds[1].height, 50);
    assert_eq!(cmds[1].color.g, 100);
}
