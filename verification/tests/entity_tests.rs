use square_game::entity::create_entities;
use square_game::entity::Entity;
use square_game::entity::EntityColor;
use square_game::entity::EntityDirection;
use square_game::entity::EntityLocation;
use square_game::entity::EntitySize;

fn square(x: i32, y: i32, direction: EntityDirection) -> Entity {
    Entity {
        id: 7,
        location: EntityLocation { x, y },
        last_location: EntityLocation { x: -1, y: -1 },
        direction,
        size: EntitySize {
            width: 50,
            height: 50,
        },
        color: EntityColor {
            r: 10,
            g: 20,
            b: 30,
            a: 255,
        },
        movement_scale: 50,
    }
}

#[test]
fn movement_right_changes_only_x() {
    let mut e = square(100, 200, EntityDirection::Right);
    e.update_direction();
    assert_eq!(e.location, EntityLocation { x: 150, y: 200 });
    assert_eq!(e.last_location, EntityLocation { x: 100, y: 200 });
}

#[test]
fn movement_left_changes_only_x() {
    let mut e = square(100, 200, EntityDirection::Left);
    e.update_direction();
    assert_eq!(e.location, EntityLocation { x: 50, y: 200 });
    assert_eq!(e.last_location, EntityLocation { x: 100, y: 200 });
}

#[test]
fn movement_down_changes_only_y() {
    let mut e = square(100, 200, EntityDirection::Down);
    e.update_direction();
    assert_eq!(e.location, EntityLocation { x: 100, y: 250 });
    assert_eq!(e.last_location, EntityLocation { x: 100, y: 200 });
}

#[test]
fn movement_up_changes_only_y() {
    let mut e = square(100, 200, EntityDirection::Up);
    e.update_direction();
    assert_eq!(e.location, EntityLocation { x: 100, y: 150 });
    assert_eq!(e.last_location, EntityLocation { x: 100, y: 200 });
}

#[test]
fn movement_idle_changes_nothing_but_saves_position() {
    let mut e = square(100, 200, EntityDirection::Idle);
    e.update_direction();
    assert_eq!(e.location, EntityLocation { x: 100, y: 200 });
    assert_eq!(e.last_location, EntityLocation { x: 100, y: 200 });
}

#[test]
fn right_bound_blocks_at_the_edge() {
    // 750 + 50 = 800 >= 800: the 16th cell of an 800-wide window is out.
    let e = square(750, 0, EntityDirection::Idle);
    assert_eq!(e.check_entity_collision_right(800), 0);
    let e = square(700, 0, EntityDirection::Idle);
    assert_eq!(e.check_entity_collision_right(800), 1);
}

#[test]
fn left_bound_blocks_before_zero() {
    let e = square(0, 0, EntityDirection::Idle);
    assert_eq!(e.check_entity_collision_left(), 0);
    // 50 - 50 = 0 >= 0: moving onto the very edge cell is permitted.
    let e = square(50, 0, EntityDirection::Idle);
    assert_eq!(e.check_entity_collision_left(), 1);
}

#[test]
fn top_bound_blocks_before_zero() {
    let e = square(0, 0, EntityDirection::Idle);
    assert_eq!(e.check_entity_collision_up(), 0);
    let e = square(0, 50, EntityDirection::Idle);
    assert_eq!(e.check_entity_collision_up(), 1);
}

#[test]
fn bottom_bound_blocks_at_the_edge() {
    let e = square(0, 550, EntityDirection::Idle);
    assert_eq!(e.check_entity_collision_down(600), 0);
    let e = square(0, 500, EntityDirection::Idle);
    assert_eq!(e.check_entity_collision_down(600), 1);
}

#[test]
fn overlap_is_exact_position_equality() {
    let a = square(100, 200, EntityDirection::Idle);
    let b = square(100, 200, EntityDirection::Right);
    let c = square(150, 200, EntityDirection::Idle);
    assert!(a.check_collision_entity(&b));
    assert!(b.check_collision_entity(&a));
    assert!(a.check_collision_entity(&a));
    assert!(!a.check_collision_entity(&c));
    assert!(!c.check_collision_entity(&a));
}

#[test]
fn equal_to_compares_against_entity_position() {
    let here = EntityLocation { x: 100, y: 200 };
    let on_cell = square(100, 200, EntityDirection::Idle);
    let off_cell = square(100, 250, EntityDirection::Idle);
    assert!(here.equal_to(&on_cell));
    assert!(!here.equal_to(&off_cell));
}

#[test]
fn created_entities_match_the_fixed_setup() {
    let v = create_entities();
    assert_eq!(v.len(), 2);

    assert_eq!(v[0].id, 1);
    assert_eq!(v[0].location, EntityLocation { x: 0, y: 0 });
    assert_eq!(v[0].last_location, EntityLocation { x: 0, y: 0 });
    assert_eq!(v[0].direction, EntityDirection::Idle);
    assert_eq!(v[0].size.width, 50);
    assert_eq!(v[0].size.height, 50);
    assert_eq!(v[0].color, EntityColor { r: 0, g: 100, b: 255, a: 1 });
    assert_eq!(v[0].movement_scale, 50);

    assert_eq!(v[1].id, 2);
    assert_eq!(v[1].location, EntityLocation { x: 100, y: 200 });
    assert_eq!(v[1].last_location, EntityLocation { x: 0, y: 0 });
    assert_eq!(v[1].direction, EntityDirection::Idle);
    assert_eq!(v[1].size.width, 50);
    assert_eq!(v[1].size.height, 50);
    assert_eq!(v[1].color, EntityColor { r: 0, g: 200, b: 255, a: 1 });
    assert_eq!(v[1].movement_scale, 50);
}
