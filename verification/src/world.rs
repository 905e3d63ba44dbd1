//! The game world: a registry of entities looked up by identity, the
//! window extent snapshot taken once per frame, and the batch translation of
//! entities into plain draw commands for the rendering collaborator.

use vstd::prelude::*;

use crate::entity::Entity;
use crate::entity::EntityColor;

verus! {

/// The drawable extent of the window, captured at the start of a frame and
/// authoritative for that whole frame.
#[derive(Debug, Clone, Copy, PartialEq, Eq, Structural)]
pub struct GameWindow {
    pub x: i32,
    pub y: i32,
}

/// One rectangle to render: position, extent and fill color of an entity at
/// the moment the command was produced. This is the draw-dispatch boundary
/// toward the rendering collaborator, which the library never calls itself.
#[derive(Debug, Clone, Copy, PartialEq, Eq, Structural)]
pub struct DrawCommand {
    pub x: i32,
    pub y: i32,
    pub width: u32,
    pub height: u32,
    pub color: EntityColor,
}

/// The draw command that renders `e` where it currently stands.
pub open spec fn draw_command_for(e: Entity) -> DrawCommand {
    DrawCommand {
        x: e.location.x,
        y: e.location.y,
        width: e.size.width,
        height: e.size.height,
        color: e.color,
    }
}

/// The world: every entity of the game, in insertion order, plus the current
/// window extent. Entities are registered once at initialization and never
/// removed; their identities are unique.
#[derive(Debug)]
pub struct GameWorld {
    pub entities: Vec<Entity>,
    pub window: GameWindow,
}

impl GameWindow {
    pub fn get_x(&self) -> (r: i32)
        ensures
            r == self.x,
    {
        self.x
    }

    pub fn get_y(&self) -> (r: i32)
        ensures
            r == self.y,
    {
        self.y
    }

    /// Capture the window extent for the coming frame.
    pub fn set(&mut self, x: i32, y: i32)
        ensures
            *final(self) == (GameWindow { x, y }),
    {
        self.set_x(x);
        self.set_y(y);
    }

    pub fn set_x(&mut self, x: i32)
        ensures
            *final(self) == (GameWindow { x, ..*old(self) }),
    {
        self.x = x;
    }

    pub fn set_y(&mut self, y: i32)
        ensures
            *final(self) == (GameWindow { y, ..*old(self) }),
    {
        self.y = y;
    }
}

impl GameWorld {
    /// Well-formedness: entity identities are unique across the world.
    pub open spec fn wf(self) -> bool {
        forall|i: int, j: int|
            0 <= i < j < self.entities@.len() ==> self.entities@[i].id != self.entities@[j].id
    }

    /// Some registered entity carries the identity `id`.
    pub open spec fn spec_has_entity(self, id: u64) -> bool {
        exists|i: int| 0 <= i < self.entities@.len() && self.entities@[i].id == id
    }

    /// The index of the entity carrying `id`; meaningful when
    /// `spec_has_entity(id)` holds, and unique when the world is well-formed.
    pub open spec fn entity_index(self, id: u64) -> int {
        choose|i: int| 0 <= i < self.entities@.len() && self.entities@[i].id == id
    }

    /// The registered entity carrying `id`.
    pub open spec fn spec_entity(self, id: u64) -> Entity {
        self.entities@[self.entity_index(id)]
    }

    /// True exactly when an entity with identity `entity_id` is registered.
    pub fn has_entity(&self, entity_id: u64) -> (r: bool)
        ensures
            r == self.spec_has_entity(entity_id),
    {
        let n = self.entities.len();
        let mut k: usize = 0;
        while k < n
            invariant
                k <= n,
                n == self.entities@.len(),
                forall|i: int| 0 <= i < k ==> self.entities@[i].id != entity_id,
            decreases n - k,
        {
            if self.entities[k].id == entity_id {
                return true;
            }
            k += 1;
        }
        false
    }

    /// True exactly when every identity in the world is distinct, i.e. the
    /// world is well-formed.
    pub fn has_unique_ids(&self) -> (r: bool)
        ensures
            r == self.wf(),
    {
        let n = self.entities.len();
        let mut k: usize = 0;
        while k < n
            invariant
                k <= n,
                n == self.entities@.len(),
                forall|i: int, j: int|
                    0 <= i < j < self.entities@.len() && i < k ==> self.entities@[i].id
                        != self.entities@[j].id,
            decreases n - k,
        {
            let mut m: usize = k + 1;
            while m < n
                invariant
                    k < m <= n,
                    n == self.entities@.len(),
                    forall|j: int| k < j < m ==> self.entities@[k as int].id != self.entities@[j].id,
                decreases n - m,
            {
                if self.entities[m].id == self.entities[k].id {
                    return false;
                }
                m += 1;
            }
            k += 1;
        }
        true
    }

    /// The position of the entity carrying `entity_id` in the registry.
    #[verifier::loop_isolation(false)]
    pub(crate) fn find_index(&self, entity_id: u64) -> (i: usize)
        requires
            self.wf(),
            self.spec_has_entity(entity_id),
        ensures
            i as int == self.entity_index(entity_id),
            i < self.entities@.len(),
            self.entities@[i as int].id == entity_id,
    {
        let n = self.entities.len();
        let mut k: usize = 0;
        while k < n
            invariant
                k <= n,
                n == self.entities@.len(),
                self.spec_has_entity(entity_id),
                forall|i: int| 0 <= i < k ==> self.entities@[i].id != entity_id,
            decreases n - k,
        {
            if self.entities[k].id == entity_id {
                proof {
                    let w = self.entity_index(entity_id);
                    assert(0 <= w < self.entities@.len() && self.entities@[w].id == entity_id);
                    if w != k {
                        assert(self.entities@[w].id != self.entities@[k as int].id);
                    }
                }
                return k;
            }
            k += 1;
        }
        proof {
            let w = self.entity_index(entity_id);
            assert(0 <= w < self.entities@.len() && self.entities@[w].id == entity_id);
        }
        unreached()
    }

    /// A mutable reference to the entity carrying `entity_id`. The identity
    /// must be registered: lookup of an unknown identity is a programmer
    /// error, ruled out by the precondition.
    pub fn get_entity(&mut self, entity_id: u64) -> (e: &mut Entity)
        requires
            old(self).wf(),
            old(self).spec_has_entity(entity_id),
        ensures
            *e == old(self).spec_entity(entity_id),
            final(self).entities@ == old(self).entities@.update(
                old(self).entity_index(entity_id),
                *final(e),
            ),
            final(self).window == old(self).window,
    {
        let i = self.find_index(entity_id);
        &mut self.entities[i]
    }

    /// A shared reference to the entity carrying `entity_id`; same
    /// precondition as `get_entity`.
    pub fn get_entity_ref(&self, entity_id: u64) -> (e: &Entity)
        requires
            self.wf(),
            self.spec_has_entity(entity_id),
        ensures
            *e == self.spec_entity(entity_id),
    {
        let i = self.find_index(entity_id);
        &self.entities[i]
    }

    /// Produce, in the given order, one draw command per listed entity; the
    /// surrounding program renders them. Every listed identity must be
    /// registered.
    pub fn draw_entities(&self, entities: &Vec<u64>) -> (cmds: Vec<DrawCommand>)
        requires
            self.wf(),
            forall|i: int| 0 <= i < entities@.len() ==> self.spec_has_entity(entities@[i]),
        ensures
            cmds@.len() == entities@.len(),
            forall|i: int|
                0 <= i < cmds@.len() ==> cmds@[i] == draw_command_for(
                    self.spec_entity(entities@[i]),
                ),
    {
        let n = entities.len();
        let mut cmds: Vec<DrawCommand> = Vec::new();
        let mut k: usize = 0;
        while k < n
            invariant
                k <= n,
                n == entities@.len(),
                self.wf(),
                forall|i: int| 0 <= i < entities@.len() ==> self.spec_has_entity(entities@[i]),
                cmds@.len() == k,
                forall|i: int|
                    0 <= i < k ==> cmds@[i] == draw_command_for(self.spec_entity(entities@[i])),
            decreases n - k,
        {
            let entity = self.get_entity_ref(entities[k]);
            let cmd = DrawCommand {
                x: entity.location.x,
                y: entity.location.y,
                width: entity.size.width,
                height: entity.size.height,
                color: entity.color,
            };
            cmds.push(cmd);
            k += 1;
        }
        cmds
    }
}

} // verus!
