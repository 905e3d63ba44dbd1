//! Entities of the game: a grid-aligned square with a position, a previous
//! position (for erasing the stale rectangle of the prior frame), a movement
//! direction, and fixed size, color and step width. Movement is discrete:
//! one step of `movement_scale` pixels along a single axis per frame.

use vstd::prelude::*;

verus! {

/// The direction an entity intends to move in during the current frame.
#[derive(Debug, Clone, Copy, PartialEq, Eq, Structural)]
pub enum EntityDirection {
    Idle,
    Up,
    Down,
    Left,
    Right,
}

/// A pixel position; the origin is the window's top-left corner.
#[derive(Debug, Clone, Copy, PartialEq, Eq, Structural)]
pub struct EntityLocation {
    pub x: i32,
    pub y: i32,
}

/// Width and height of an entity's rectangle, in pixels.
#[derive(Debug, Clone, Copy, PartialEq, Eq, Structural)]
pub struct EntitySize {
    pub width: u32,
    pub height: u32,
}

/// An RGBA color, one byte per channel.
#[derive(Debug, Clone, Copy, PartialEq, Eq, Structural)]
pub struct EntityColor {
    pub r: u8,
    pub g: u8,
    pub b: u8,
    pub a: u8,
}

/// A square on the grid. `last_location` always holds the position as of the
/// prior movement step, so the caller can erase exactly one stale rectangle
/// per moved entity. Size, color and step width never change after creation.
#[derive(Debug)]
pub struct Entity {
    pub id: u64,
    pub location: EntityLocation,
    pub last_location: EntityLocation,
    pub direction: EntityDirection,
    pub size: EntitySize,
    pub color: EntityColor,
    pub movement_scale: i32,
}

/// The x coordinate an entity reaches by applying its current direction.
pub open spec fn moved_x(e: Entity) -> int {
    match e.direction {
        EntityDirection::Right => e.location.x + e.movement_scale,
        EntityDirection::Left => e.location.x - e.movement_scale,
        _ => e.location.x as int,
    }
}

/// The y coordinate an entity reaches by applying its current direction.
pub open spec fn moved_y(e: Entity) -> int {
    match e.direction {
        EntityDirection::Down => e.location.y + e.movement_scale,
        EntityDirection::Up => e.location.y - e.movement_scale,
        _ => e.location.y as int,
    }
}

/// A rightward step keeps the entity inside a window of width `window_x`.
pub open spec fn in_right_bound(e: Entity, window_x: int) -> bool {
    e.location.x + e.movement_scale < window_x
}

/// A leftward step keeps the entity at or right of the window's left edge.
pub open spec fn in_left_bound(e: Entity) -> bool {
    e.location.x - e.movement_scale >= 0
}

/// An upward step keeps the entity at or below the window's top edge.
pub open spec fn in_top_bound(e: Entity) -> bool {
    e.location.y - e.movement_scale >= 0
}

/// A downward step keeps the entity inside a window of height `window_y`.
pub open spec fn in_bottom_bound(e: Entity, window_y: int) -> bool {
    e.location.y + e.movement_scale < window_y
}

/// Two entities overlap exactly when they occupy the same cell: positions are
/// compared for equality, not for bounding-box intersection, because every
/// placed entity is cell-aligned and the squares are of one size.
pub open spec fn overlaps(a: Entity, b: Entity) -> bool {
    a.location.x == b.location.x && a.location.y == b.location.y
}

/// How many random draws a relocation makes before it falls back to the
/// first free grid cell. Rejection sampling accepts a draw with probability
/// about one in the square of the step width, so a million draws make the
/// fallback practically unreachable for game-sized grids.
pub const MAX_RELOCATION_TRIES: u32 = 1_000_000;

/// Relies on rand::random_range over `0..bound`: the sample is drawn
/// uniformly from the half-open range, so the result lies in `[0, bound)`;
/// the range is non-empty because `bound` is positive, which rules out the
/// panic on an empty range.
#[verifier::external_body]
fn sample_below(bound: i32) -> (r: i32)
    requires
        0 < bound,
    ensures
        0 <= r < bound,
{
    rand::random_range(0..bound)
}

impl EntityLocation {
    /// True exactly when `entity` stands on this location.
    pub fn equal_to(&self, entity: &Entity) -> (r: bool)
        ensures
            r == (entity.location.x == self.x && entity.location.y == self.y),
    {
        let is_equal = if entity.location.x == self.x && entity.location.y == self.y {
            true
        } else {
            false
        };
        is_equal
    }

    /// Relocate onto a uniformly chosen grid cell of a `screen_width` by
    /// `screen_height` window: the new position is a multiple of
    /// `entity_scale` on both axes, lies strictly inside the window with room
    /// for the entity, and differs from `player_position`. Samples are drawn
    /// until one qualifies, up to a retry bound; should every draw be
    /// rejected, the first free grid cell is taken instead, so the call
    /// always lands somewhere valid. The precondition demands a grid with a
    /// cell to land on: at least two cells along some axis, or an avoided
    /// position away from the origin. Returns the pre-call position as the
    /// pair `[x, y]`, for erasing the stale rectangle.
    pub fn generate_location(
        &mut self,
        player_position: EntityLocation,
        screen_width: i32,
        screen_height: i32,
        entity_scale: i32,
    ) -> (r: Vec<i32>)
        requires
            0 < entity_scale < screen_width,
            entity_scale < screen_height,
            2 * entity_scale < screen_width || 2 * entity_scale < screen_height || !(
            player_position.x == 0 && player_position.y == 0),
        ensures
            r@.len() == 2,
            r@[0] == old(self).x,
            r@[1] == old(self).y,
            0 <= final(self).x < screen_width - entity_scale,
            0 <= final(self).y < screen_height - entity_scale,
            final(self).x % entity_scale == 0,
            final(self).y % entity_scale == 0,
            !(final(self).x == player_position.x && final(self).y == player_position.y),
    {
        let mut old_location: Vec<i32> = Vec::new();
        old_location.push(self.x);
        old_location.push(self.y);

        let mut new_x: i32 = 0;
        let mut new_y: i32 = 0;
        let mut found: bool = false;
        let mut tries: u32 = 0;
        while !found && tries < MAX_RELOCATION_TRIES
            invariant
                0 < entity_scale < screen_width,
                entity_scale < screen_height,
                found ==> {
                    &&& 0 <= new_x < screen_width - entity_scale
                    &&& 0 <= new_y < screen_height - entity_scale
                    &&& new_x % entity_scale == 0
                    &&& new_y % entity_scale == 0
                    &&& !(new_x == player_position.x && new_y == player_position.y)
                },
            decreases MAX_RELOCATION_TRIES - tries,
        {
            let generated_x = sample_below(screen_width - entity_scale);
            let generated_y = sample_below(screen_height - entity_scale);

            if generated_x % entity_scale == 0 && generated_y % entity_scale == 0 {
                if generated_x != player_position.x || generated_y != player_position.y {
                    new_x = generated_x;
                    new_y = generated_y;
                    found = true;
                }
            }
            tries += 1;
        }

        if !found {
            // Every draw was rejected: take the first free grid cell, which
            // the precondition guarantees to exist.
            proof {
                assert(entity_scale % entity_scale == 0) by (nonlinear_arith)
                    requires 0 < entity_scale;
                assert(0int % (entity_scale as int) == 0) by (nonlinear_arith)
                    requires 0 < entity_scale;
            }
            new_x = 0;
            new_y = 0;
            if player_position.x == 0 && player_position.y == 0 {
                if entity_scale < screen_width - entity_scale {
                    new_x = entity_scale;
                } else {
                    new_y = entity_scale;
                }
            }
        }

        self.x = new_x;
        self.y = new_y;

        old_location
    }
}

impl Entity {
    /// Replace the current position.
    pub fn update_location(&mut self, x: i32, y: i32)
        ensures
            *final(self) == (Entity { location: (EntityLocation { x, y }), ..*old(self) }),
    {
        self.location.x = x;
        self.location.y = y;
    }

    /// Replace the remembered previous position.
    pub fn update_last_location(&mut self, x: i32, y: i32)
        ensures
            *final(self) == (Entity { last_location: (EntityLocation { x, y }), ..*old(self) }),
    {
        self.last_location.x = x;
        self.last_location.y = y;
    }

    /// Apply one movement step along the current direction: the previous
    /// position is saved first, then exactly one axis changes by exactly
    /// `movement_scale` (none for `Idle`). Call at most once per frame.
    pub fn update_direction(&mut self)
        requires
            i32::MIN <= moved_x(*old(self)) <= i32::MAX,
            i32::MIN <= moved_y(*old(self)) <= i32::MAX,
        ensures
            final(self).location.x == moved_x(*old(self)),
            final(self).location.y == moved_y(*old(self)),
            final(self).last_location == old(self).location,
            final(self).direction == old(self).direction,
            final(self).id == old(self).id,
            final(self).size == old(self).size,
            final(self).color == old(self).color,
            final(self).movement_scale == old(self).movement_scale,
    {
        self.last_location.x = self.location.x;
        self.last_location.y = self.location.y;

        match self.direction {
            EntityDirection::Right => {
                let x = self.location.x + self.movement_scale;
                let y = self.location.y;
                self.update_location(x, y);
            },
            EntityDirection::Left => {
                let x = self.location.x - self.movement_scale;
                let y = self.location.y;
                self.update_location(x, y);
            },
            EntityDirection::Down => {
                let x = self.location.x;
                let y = self.location.y + self.movement_scale;
                self.update_location(x, y);
            },
            EntityDirection::Up => {
                let x = self.location.x;
                let y = self.location.y - self.movement_scale;
                self.update_location(x, y);
            },
            EntityDirection::Idle => {},
        }
    }

    /// Whether a rightward step stays inside a window `window_x` wide:
    /// 1 permits the move, 0 blocks it.
    pub fn check_entity_collision_right(&self, window_x: i32) -> (r: i32)
        requires
            i32::MIN <= self.location.x + self.movement_scale <= i32::MAX,
        ensures
            r == 0 || r == 1,
            (r == 1) <==> in_right_bound(*self, window_x as int),
    {
        let entity_moved_location = self.location.x + self.movement_scale;

        let in_window = if entity_moved_location >= window_x {
            0
        } else {
            1
        };
        in_window
    }

    /// Whether a leftward step stays at or right of x = 0: 1 permits the
    /// move, 0 blocks it.
    pub fn check_entity_collision_left(&self) -> (r: i32)
        requires
            i32::MIN <= self.location.x - self.movement_scale <= i32::MAX,
        ensures
            r == 0 || r == 1,
            (r == 1) <==> in_left_bound(*self),
    {
        let entity_moved_location = self.location.x - self.movement_scale;

        let in_window = if entity_moved_location < 0 {
            0
        } else {
            1
        };
        in_window
    }

    /// Whether an upward step stays at or below y = 0: 1 permits the move,
    /// 0 blocks it.
    pub fn check_entity_collision_up(&self) -> (r: i32)
        requires
            i32::MIN <= self.location.y - self.movement_scale <= i32::MAX,
        ensures
            r == 0 || r == 1,
            (r == 1) <==> in_top_bound(*self),
    {
        let entity_moved_location = self.location.y - self.movement_scale;

        let in_window = if entity_moved_location < 0 {
            0
        } else {
            1
        };
        in_window
    }

    /// Whether a downward step stays inside a window `window_y` high:
    /// 1 permits the move, 0 blocks it.
    pub fn check_entity_collision_down(&self, window_y: i32) -> (r: i32)
        requires
            i32::MIN <= self.location.y + self.movement_scale <= i32::MAX,
        ensures
            r == 0 || r == 1,
            (r == 1) <==> in_bottom_bound(*self, window_y as int),
    {
        let entity_moved_location = self.location.y + self.movement_scale;

        let in_window = if entity_moved_location >= window_y {
            0
        } else {
            1
        };
        in_window
    }

    /// True exactly when this entity and `entity` occupy the same cell.
    pub fn check_collision_entity(&self, entity: &Entity) -> (r: bool)
        ensures
            r == overlaps(*self, *entity),
    {
        self.location.equal_to(entity)
    }
}

/// A blocked rightward move is exactly one that would carry the entity to or
/// past the right edge: for an entity moving right, the right-bound check
/// fails iff the position after the step would satisfy `x >= window_x`.
pub proof fn lemma_right_bound_blocks_exit(e: Entity, window_x: int)
    requires
        e.direction is Right,
    ensures
        !in_right_bound(e, window_x) <==> moved_x(e) >= window_x,
{
}

/// Overlap is symmetric: whether two entities share a cell does not depend on
/// the order in which they are compared.
pub proof fn lemma_overlaps_symmetric(a: Entity, b: Entity)
    ensures
        overlaps(a, b) == overlaps(b, a),
{
}

/// Overlap is reflexive: every entity shares its own cell, and so any two
/// entities with identical positions overlap.
pub proof fn lemma_overlaps_reflexive(a: Entity)
    ensures
        overlaps(a, a),
{
}

/// The initial player entity: a blue square of side 50 at the origin.
pub open spec fn initial_player() -> Entity {
    Entity {
        id: 1,
        location: EntityLocation { x: 0, y: 0 },
        last_location: EntityLocation { x: 0, y: 0 },
        direction: EntityDirection::Idle,
        size: EntitySize { width: 50, height: 50 },
        color: EntityColor { r: 0, g: 100, b: 255, a: 1 },
        movement_scale: 50,
    }
}

/// The initial target entity: a lighter square of side 50 at (100, 200).
pub open spec fn initial_target() -> Entity {
    Entity {
        id: 2,
        location: EntityLocation { x: 100, y: 200 },
        last_location: EntityLocation { x: 0, y: 0 },
        direction: EntityDirection::Idle,
        size: EntitySize { width: 50, height: 50 },
        color: EntityColor { r: 0, g: 200, b: 255, a: 1 },
        movement_scale: 50,
    }
}

/// Build the two entities of the game, player first, in registry order.
pub fn create_entities() -> (r: Vec<Entity>)
    ensures
        r@.len() == 2,
        r@[0] == initial_player(),
        r@[1] == initial_target(),
{
    let entity_one = Entity {
        id: 1,
        location: EntityLocation { x: 0, y: 0 },
        last_location: EntityLocation { x: 0, y: 0 },
        direction: EntityDirection::Idle,
        size: EntitySize { width: 50, height: 50 },
        color: EntityColor { r: 0, g: 100, b: 255, a: 1 },
        movement_scale: 50,
    };

    let entity_two = Entity {
        id: 2,
        location: EntityLocation { x: 100, y: 200 },
        last_location: EntityLocation { x: 0, y: 0 },
        direction: EntityDirection::Idle,
        size: EntitySize { width: 50, height: 50 },
        color: EntityColor { r: 0, g: 200, b: 255, a: 1 },
        movement_scale: 50,
    };

    let mut r: Vec<Entity> = Vec::new();
    r.push(entity_one);
    r.push(entity_two);
    r
}

/// Relocation moves the entity off the avoided cell: when the entity stood
/// on the avoided position before relocating — the situation after a catch —
/// the new position always differs from the old one, because the new
/// position never equals the avoided one.
pub proof fn lemma_relocation_leaves_cell(
    old_loc: EntityLocation,
    new_loc: EntityLocation,
    avoid: EntityLocation,
)
    requires
        old_loc.x == avoid.x && old_loc.y == avoid.y,
        !(new_loc.x == avoid.x && new_loc.y == avoid.y),
    ensures
        !(new_loc.x == old_loc.x && new_loc.y == old_loc.y),
{
}

/// A movement step with a positive step width along a non-idle direction
/// changes exactly one axis, and changes it by exactly `movement_scale`.
pub proof fn lemma_movement_steps_one_axis(e: Entity)
    requires
        !(e.direction is Idle),
        0 < e.movement_scale,
    ensures
        moved_x(e) == e.location.x ==> (moved_y(e) == e.location.y + e.movement_scale
            || moved_y(e) == e.location.y - e.movement_scale),
        moved_y(e) == e.location.y ==> (moved_x(e) == e.location.x + e.movement_scale
            || moved_x(e) == e.location.x - e.movement_scale),
        moved_x(e) == e.location.x || moved_y(e) == e.location.y,
        !(moved_x(e) == e.location.x && moved_y(e) == e.location.y),
{
}

} // verus!
