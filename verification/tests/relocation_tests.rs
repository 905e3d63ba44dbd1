use square_game::entity::EntityLocation;

#[test]
fn relocation_returns_the_old_position() {
    let mut loc = EntityLocation { x: 300, y: 250 };
    let avoid = EntityLocation { x: 100, y: 200 };
    let old = loc.generate_location(avoid, 800, 600, 50);
    assert_eq!(old, vec![300, 250]);
}

#[test]
fn relocation_lands_on_a_valid_grid_cell() {
    // Repeat the draw: every result must be grid-aligned, strictly inside
    // the window with room for the square, and off the avoided cell.
    for _ in 0..50 {
        let mut loc = EntityLocation { x: 100, y: 200 };
        let avoid = EntityLocation { x: 100, y: 200 };
        loc.generate_location(avoid, 800, 600, 50);
        assert!(0 <= loc.x && loc.x < 800 - 50);
        assert!(0 <= loc.y && loc.y < 600 - 50);
        assert_eq!(loc.x % 50, 0);
        assert_eq!(loc.y % 50, 0);
        assert!(!(loc.x == avoid.x && loc.y == avoid.y));
    }
}

#[test]
fn relocation_moves_the_entity_off_its_cell() {
    // The entity stands on the avoided cell, as it does after a catch: the
    // new position must differ from the old one.
    for _ in 0..50 {
        let mut loc = EntityLocation { x: 400, y: 300 };
        let avoid = EntityLocation { x: 400, y: 300 };
        let old = loc.generate_location(avoid, 800, 600, 50);
        assert_eq!(old, vec![400, 300]);
        assert!(!(loc.x == old[0] && loc.y == old[1]));
    }
}

#[test]
fn relocation_on_a_two_cell_grid_is_forced() {
    // A 150 by 100 window with step 50 holds exactly the cells (0, 0) and
    // (50, 0); avoiding (0, 0) forces the other one.
    let mut loc = EntityLocation { x: 0, y: 0 };
    let avoid = EntityLocation { x: 0, y: 0 };
    let old = loc.generate_location(avoid, 150, 100, 50);
    assert_eq!(old, vec![0, 0]);
    assert_eq!(loc.x, 50);
    assert_eq!(loc.y, 0);
}

#[test]
fn relocation_with_unaligned_avoided_position() {
    // The avoided position need not itself sit on the grid.
    let mut loc = EntityLocation { x: 20, y: 30 };
    let avoid = EntityLocation { x: 25, y: 35 };
    loc.generate_location(avoid, 200, 200, 50);
    assert_eq!(loc.x % 50, 0);
    assert_eq!(loc.y % 50, 0);
    assert!(0 <= loc.x && loc.x < 150);
    assert!(0 <= loc.y && loc.y < 150);
}
