//! The per-frame step of the game loop: draining the frame's input events
//! into a movement direction, applying the movement, testing for a catch,
//! and on a catch relocating the target and raising the score. The
//! surrounding program polls the events, renders, presents and sleeps; every
//! decision of a frame is taken here.

use vstd::prelude::*;

use crate::entity::Entity;
use crate::entity::EntityDirection;
use crate::entity::EntityLocation;
use crate::entity::moved_x;
use crate::entity::moved_y;
use crate::world::GameWorld;

verus! {

/// One discrete input event, drained once per frame in arrival order.
#[derive(Debug, Clone, Copy, PartialEq, Eq, Structural)]
pub enum GameInput {
    Quit,
    Escape,
    Right,
    Left,
    Down,
    Up,
    Other,
}

/// An event that ends the game.
pub open spec fn is_quit(ev: GameInput) -> bool {
    ev is Quit || ev is Escape
}

/// Some event of the frame asks to end the game.
pub open spec fn quit_requested(events: Seq<GameInput>) -> bool {
    exists|i: int| 0 <= i < events.len() && is_quit(events[i])
}

/// The direction `d` keeps the entity inside the window: the step it asks
/// for stays within the bounds captured for this frame.
pub open spec fn direction_allowed(
    d: EntityDirection,
    loc: EntityLocation,
    scale: int,
    w: int,
    h: int,
) -> bool {
    match d {
        EntityDirection::Right => loc.x + scale < w,
        EntityDirection::Left => loc.x - scale >= 0,
        EntityDirection::Up => loc.y - scale >= 0,
        EntityDirection::Down => loc.y + scale < h,
        EntityDirection::Idle => true,
    }
}

/// The direction after one event: a directional key overwrites the current
/// direction when the step it asks for stays in bounds, and is ignored
/// otherwise; every other event leaves the direction alone.
pub open spec fn apply_one_input(
    d: EntityDirection,
    loc: EntityLocation,
    scale: int,
    w: int,
    h: int,
    ev: GameInput,
) -> EntityDirection {
    match ev {
        GameInput::Right => if loc.x + scale < w {
            EntityDirection::Right
        } else {
            d
        },
        GameInput::Left => if loc.x - scale >= 0 {
            EntityDirection::Left
        } else {
            d
        },
        GameInput::Up => if loc.y - scale >= 0 {
            EntityDirection::Up
        } else {
            d
        },
        GameInput::Down => if loc.y + scale < h {
            EntityDirection::Down
        } else {
            d
        },
        _ => d,
    }
}

/// The direction after draining the frame's events in order, starting from
/// `d`: the last accepted directional key wins, and a quit event stops the
/// drain, leaving later events unapplied.
pub open spec fn direction_after_inputs(
    d: EntityDirection,
    loc: EntityLocation,
    scale: int,
    w: int,
    h: int,
    events: Seq<GameInput>,
) -> EntityDirection
    decreases events.len(),
{
    if events.len() == 0 {
        d
    } else if is_quit(events[0]) {
        d
    } else {
        direction_after_inputs(
            apply_one_input(d, loc, scale, w, h, events[0]),
            loc,
            scale,
            w,
            h,
            events.drop_first(),
        )
    }
}

/// Draining events preserves in-bounds directions: starting from an allowed
/// direction, the direction left behind by any event sequence is allowed
/// too, because a directional key is only accepted after its bound check.
pub proof fn lemma_direction_after_inputs_allowed(
    d: EntityDirection,
    loc: EntityLocation,
    scale: int,
    w: int,
    h: int,
    events: Seq<GameInput>,
)
    requires
        direction_allowed(d, loc, scale, w, h),
    ensures
        direction_allowed(direction_after_inputs(d, loc, scale, w, h, events), loc, scale, w, h),
    decreases events.len(),
{
    if events.len() == 0 || is_quit(events[0]) {
    } else {
        lemma_direction_after_inputs_allowed(
            apply_one_input(d, loc, scale, w, h, events[0]),
            loc,
            scale,
            w,
            h,
            events.drop_first(),
        );
    }
}

/// Drain the frame's events into the player's direction, in arrival order:
/// each directional key overwrites the direction if its bound check passes;
/// a quit event stops the drain at once. Returns whether a quit was seen.
#[verifier::loop_isolation(false)]
pub fn apply_inputs(player: &mut Entity, events: &Vec<GameInput>, w: i32, h: i32) -> (quit: bool)
    requires
        i32::MIN <= old(player).location.x + old(player).movement_scale <= i32::MAX,
        i32::MIN <= old(player).location.x - old(player).movement_scale <= i32::MAX,
        i32::MIN <= old(player).location.y + old(player).movement_scale <= i32::MAX,
        i32::MIN <= old(player).location.y - old(player).movement_scale <= i32::MAX,
    ensures
        quit == quit_requested(events@),
        final(player).direction == direction_after_inputs(
            old(player).direction,
            old(player).location,
            old(player).movement_scale as int,
            w as int,
            h as int,
            events@,
        ),
        *final(player) == (Entity { direction: final(player).direction, ..*old(player) }),
{
    let ghost orig = *player;
    let n = events.len();
    proof {
        assert(events@.skip(0) =~= events@);
    }
    let mut k: usize = 0;
    while k < n
        invariant
            k <= n,
            *player == (Entity { direction: player.direction, ..orig }),
            forall|i: int| 0 <= i < k ==> !is_quit(events@[i]),
            direction_after_inputs(
                orig.direction,
                orig.location,
                orig.movement_scale as int,
                w as int,
                h as int,
                events@,
            ) == direction_after_inputs(
                player.direction,
                orig.location,
                orig.movement_scale as int,
                w as int,
                h as int,
                events@.skip(k as int),
            ),
        decreases n - k,
    {
        proof {
            assert(events@.skip(k as int)[0] == events@[k as int]);
            assert(events@.skip(k as int).drop_first() =~= events@.skip(k as int + 1));
        }
        match events[k] {
            GameInput::Quit => {
                proof {
                    assert(is_quit(events@[k as int]));
                    assert(quit_requested(events@));
                }
                return true;
            },
            GameInput::Escape => {
                proof {
                    assert(is_quit(events@[k as int]));
                    assert(quit_requested(events@));
                }
                return true;
            },
            GameInput::Right => {
                let in_window = player.check_entity_collision_right(w);
                if in_window == 1 {
                    player.direction = EntityDirection::Right;
                }
            },
            GameInput::Left => {
                let in_window = player.check_entity_collision_left();
                if in_window == 1 {
                    player.direction = EntityDirection::Left;
                }
            },
            GameInput::Down => {
                let in_window = player.check_entity_collision_down(h);
                if in_window == 1 {
                    player.direction = EntityDirection::Down;
                }
            },
            GameInput::Up => {
                let in_window = player.check_entity_collision_up();
                if in_window == 1 {
                    player.direction = EntityDirection::Up;
                }
            },
            GameInput::Other => {},
        }
        k += 1;
    }
    proof {
        assert(events@.skip(n as int) =~= Seq::<GameInput>::empty());
    }
    false
}

/// What one frame step reports back to the surrounding loop: whether a quit
/// event arrived, whether the player caught the target this frame, and the
/// score after the frame.
#[derive(Debug, Clone, Copy, PartialEq, Eq, Structural)]
pub struct FrameResult {
    pub quit: bool,
    pub collision: bool,
    pub score: i32,
}

/// How one frame transforms the world. Reading `pre` as the world at the
/// frame's start and `post` as the world after the step: the window and all
/// bystander entities are untouched; the player's direction is re-derived
/// from the frame's events (no velocity persists between frames); unless a
/// quit event cut the frame short, the player takes one movement step; a
/// catch is exactly the player's moved position equalling the target's, and
/// it raises the score by one and relocates the target onto a free,
/// grid-aligned, in-window cell away from the player.
pub open spec fn frame_post(
    pre: GameWorld,
    post: GameWorld,
    player_id: u64,
    enemy_id: u64,
    events: Seq<GameInput>,
    score0: i32,
    r: FrameResult,
) -> bool {
    let w = pre.window.x as int;
    let h = pre.window.y as int;
    let pidx = pre.entity_index(player_id);
    let eidx = pre.entity_index(enemy_id);
    let player_pre = pre.entities@[pidx];
    let target_pre = pre.entities@[eidx];
    let player_steered = (Entity {
        direction: direction_after_inputs(
            EntityDirection::Idle,
            player_pre.location,
            player_pre.movement_scale as int,
            w,
            h,
            events,
        ),
        ..player_pre
    });
    let player_post = post.entities@[pidx];
    let target_post = post.entities@[eidx];
    &&& post.window == pre.window
    &&& post.entities@.len() == pre.entities@.len()
    &&& forall|i: int|
        0 <= i < pre.entities@.len() && i != pidx && i != eidx ==> post.entities@[i]
            == pre.entities@[i]
    &&& r.quit == quit_requested(events)
    &&& if r.quit {
        &&& !r.collision
        &&& r.score == score0
        &&& player_post == player_steered
        &&& target_post == target_pre
    } else {
        &&& player_post.direction == player_steered.direction
        &&& player_post.location.x == moved_x(player_steered)
        &&& player_post.location.y == moved_y(player_steered)
        &&& player_post.last_location == player_pre.location
        &&& player_post.id == player_pre.id
        &&& player_post.size == player_pre.size
        &&& player_post.color == player_pre.color
        &&& player_post.movement_scale == player_pre.movement_scale
        &&& r.collision == (player_post.location.x == target_pre.location.x && player_post.location.y == target_pre.location.y)
        &&& r.score == score0 + (if r.collision {
            1int
        } else {
            0int
        })
        &&& if r.collision {
            &&& target_post.last_location == target_pre.location
            &&& 0 <= target_post.location.x < w - target_pre.movement_scale
            &&& 0 <= target_post.location.y < h - target_pre.movement_scale
            &&& (target_post.location.x as int) % (target_pre.movement_scale as int) == 0
            &&& (target_post.location.y as int) % (target_pre.movement_scale as int) == 0
            &&& !(target_post.location.x == player_post.location.x && target_post.location.y == player_post.location.y)
            &&& target_post.id == target_pre.id
            &&& target_post.direction == target_pre.direction
            &&& target_post.size == target_pre.size
            &&& target_post.color == target_pre.color
            &&& target_post.movement_scale == target_pre.movement_scale
        } else {
            target_post == target_pre
        }
    }
}

impl GameWorld {
    /// Run one frame of the game against the window extent captured in
    /// `self.window`: reset the player's direction, drain the frame's
    /// events, take the movement step, test for a catch, and on a catch
    /// relocate the target and raise the score. Exactly `frame_post` holds
    /// of the step; identities stay unique.
    pub fn step_frame(
        &mut self,
        player_id: u64,
        enemy_id: u64,
        events: &Vec<GameInput>,
        score: i32,
    ) -> (r: FrameResult)
        requires
            old(self).wf(),
            old(self).spec_has_entity(player_id),
            old(self).spec_has_entity(enemy_id),
            player_id != enemy_id,
            score < i32::MAX,
            0 < old(self).spec_entity(player_id).movement_scale,
            old(self).spec_entity(player_id).location.x + old(self).spec_entity(
                player_id,
            ).movement_scale <= i32::MAX,
            old(self).spec_entity(player_id).location.x - old(self).spec_entity(
                player_id,
            ).movement_scale >= i32::MIN,
            old(self).spec_entity(player_id).location.y + old(self).spec_entity(
                player_id,
            ).movement_scale <= i32::MAX,
            old(self).spec_entity(player_id).location.y - old(self).spec_entity(
                player_id,
            ).movement_scale >= i32::MIN,
            0 < old(self).spec_entity(enemy_id).movement_scale,
            old(self).spec_entity(enemy_id).movement_scale < old(self).window.x,
            old(self).spec_entity(enemy_id).movement_scale < old(self).window.y,
            2 * old(self).spec_entity(enemy_id).movement_scale < old(self).window.x || 2 * old(
                self,
            ).spec_entity(enemy_id).movement_scale < old(self).window.y,
        ensures
            final(self).wf(),
            frame_post(*old(self), *final(self), player_id, enemy_id, events@, score, r),
    {
        let w = self.window.get_x();
        let h = self.window.get_y();
        let pidx = self.find_index(player_id);
        let eidx = self.find_index(enemy_id);

        let ghost pre = *self;

        let player = &mut self.entities[pidx];
        player.direction = EntityDirection::Idle;
        let quit = apply_inputs(player, events, w, h);
        if quit {
            return FrameResult { quit: true, collision: false, score };
        }
        proof {
            lemma_direction_after_inputs_allowed(
                EntityDirection::Idle,
                pre.entities@[pidx as int].location,
                pre.entities@[pidx as int].movement_scale as int,
                w as int,
                h as int,
                events@,
            );
        }
        player.update_direction();

        let collision = {
            let pref = &self.entities[pidx];
            let eref = &self.entities[eidx];
            pref.check_collision_entity(eref)
        };

        if collision {
            let player_location = self.entities[pidx].location;
            let enemy = &mut self.entities[eidx];
            let enemy_scale = enemy.movement_scale;
            let old_location = enemy.location.generate_location(player_location, w, h, enemy_scale);
            let old_x = old_location[0];
            let old_y = old_location[1];
            enemy.update_last_location(old_x, old_y);

            let new_score = score + 1;
            FrameResult { quit: false, collision: true, score: new_score }
        } else {
            FrameResult { quit: false, collision: false, score }
        }
    }
}

} // verus!
