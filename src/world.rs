use vstd::prelude::*;
use crate::components::{MovementCommand, Position, Renderable, Velocity};

verus! {

/// An entity: an index into the component storages of its world.
#[derive(Clone, Copy, Debug, PartialEq, Eq, Structural)]
pub struct Entity {
    pub id: usize,
}

/// The components of an entity still to be created.
#[derive(Clone, Debug, PartialEq, Eq)]
pub struct EntityBuilder {
    pub position: Option<Position>,
    pub velocity: Option<Velocity>,
    pub renderable: Option<Renderable>,
    pub keyboard_controlled: bool,
}

/// Entities and their components, one densely indexed storage per component
/// type, with the shared movement command. Entities are created and deleted
/// only in `maintain`; until then such requests wait in a queue.
pub struct World {
    positions: Vec<Option<Position>>,
    velocities: Vec<Option<Velocity>>,
    renderables: Vec<Option<Renderable>>,
    controlled: Vec<bool>,
    movement_command: Option<MovementCommand>,
    pending_creates: Vec<EntityBuilder>,
    pending_deletes: Vec<usize>,
}

/// Slot `i` of a storage after the queued entities, whose components are
/// `created`, have been appended to `base`.
pub open spec fn created_slot<T>(base: Seq<Option<T>>, created: Seq<Option<T>>, i: int) -> Option<T> {
    if i < base.len() {
        base[i]
    } else {
        created[i - base.len()]
    }
}

/// A velocity, if there is one, never has a negative speed.
pub open spec fn speed_ok(v: Option<Velocity>) -> bool {
    v matches Some(vel) ==> vel.speed >= 0
}

/// The positions of queued entities, in queue order.
pub open spec fn positions_of(made: Seq<EntityBuilder>) -> Seq<Option<Position>> {
    made.map_values(|b: EntityBuilder| b.position)
}

/// The velocities of queued entities, in queue order.
pub open spec fn velocities_of(made: Seq<EntityBuilder>) -> Seq<Option<Velocity>> {
    made.map_values(|b: EntityBuilder| b.velocity)
}

/// The renderables of queued entities, in queue order.
pub open spec fn renderables_of(made: Seq<EntityBuilder>) -> Seq<Option<Renderable>> {
    made.map_values(|b: EntityBuilder| b.renderable)
}

/// The keyboard tags of queued entities, in queue order.
pub open spec fn controlled_of(made: Seq<EntityBuilder>) -> Seq<bool> {
    made.map_values(|b: EntityBuilder| b.keyboard_controlled)
}

/// One of the first `k` queued deletions names entity `i`.
pub open spec fn deleted_among(dels: Seq<usize>, k: int, i: int) -> bool {
    exists|j: int| 0 <= j < k && dels[j] as int == i
}

/// Slot `i` of a storage after creation and the first `k` deletions.
pub open spec fn synced<T>(base: Seq<Option<T>>, created: Seq<Option<T>>, dels: Seq<usize>, k: int, i: int) -> Option<T> {
    if deleted_among(dels, k, i) {
        None
    } else {
        created_slot(base, created, i)
    }
}

impl World {
    pub closed spec fn positions(&self) -> Seq<Option<Position>> {
        self.positions@
    }

    pub closed spec fn velocities(&self) -> Seq<Option<Velocity>> {
        self.velocities@
    }

    pub closed spec fn renderables(&self) -> Seq<Option<Renderable>> {
        self.renderables@
    }

    pub closed spec fn controlled(&self) -> Seq<bool> {
        self.controlled@
    }

    pub closed spec fn command(&self) -> Option<MovementCommand> {
        self.movement_command
    }

    pub closed spec fn creates(&self) -> Seq<EntityBuilder> {
        self.pending_creates@
    }

    pub closed spec fn deletes(&self) -> Seq<usize> {
        self.pending_deletes@
    }

    /// Number of entities, live or deleted.
    pub open spec fn count(&self) -> nat {
        self.positions().len()
    }

    /// Every storage has one slot per entity, and the ids still to be handed
    /// out fit in `usize`.
    pub open spec fn wf(&self) -> bool {
        &&& self.velocities().len() == self.count()
        &&& self.renderables().len() == self.count()
        &&& self.controlled().len() == self.count()
        &&& self.count() + self.creates().len() <= usize::MAX
        &&& forall|i: int| 0 <= i < self.count() ==> speed_ok(#[trigger] self.velocities()[i])
        &&& forall|j: int| 0 <= j < self.creates().len() ==> speed_ok(#[trigger] self.creates()[j].velocity)
    }

    /// Everything but the velocity storage is the same in `a` and `b`.
    pub open spec fn same_but_velocities(a: World, b: World) -> bool {
        &&& a.positions() == b.positions()
        &&& a.renderables() == b.renderables()
        &&& a.controlled() == b.controlled()
        &&& a.command() == b.command()
        &&& a.creates() == b.creates()
        &&& a.deletes() == b.deletes()
    }

    /// Everything but the position storage is the same in `a` and `b`.
    pub open spec fn same_but_positions(a: World, b: World) -> bool {
        &&& a.velocities() == b.velocities()
        &&& a.renderables() == b.renderables()
        &&& a.controlled() == b.controlled()
        &&& a.command() == b.command()
        &&& a.creates() == b.creates()
        &&& a.deletes() == b.deletes()
    }

    pub fn new() -> (r: World)
        ensures
            r.wf(),
            r.count() == 0,
            r.command() is None,
            r.creates().len() == 0,
            r.deletes().len() == 0,
    {
        World {
            positions: Vec::new(),
            velocities: Vec::new(),
            renderables: Vec::new(),
            controlled: Vec::new(),
            movement_command: None,
            pending_creates: Vec::new(),
            pending_deletes: Vec::new(),
        }
    }

    pub fn len(&self) -> (r: usize)
        ensures
            r == self.count(),
    {
        self.positions.len()
    }

    /// Replaces the shared movement command; written once per frame before
    /// the systems run.
    pub fn set_movement_command(&mut self, c: Option<MovementCommand>)
        ensures
            final(self).wf() == old(self).wf(),
            final(self).command() == c,
            final(self).positions() == old(self).positions(),
            final(self).velocities() == old(self).velocities(),
            final(self).renderables() == old(self).renderables(),
            final(self).controlled() == old(self).controlled(),
            final(self).creates() == old(self).creates(),
            final(self).deletes() == old(self).deletes(),
    {
        self.movement_command = c;
    }

    pub fn movement_command(&self) -> (r: Option<MovementCommand>)
        ensures
            r == self.command(),
    {
        self.movement_command
    }

    pub fn position(&self, e: Entity) -> (r: Option<Position>)
        ensures
            r == (if e.id < self.count() { self.positions()[e.id as int] } else { None }),
    {
        if e.id < self.positions.len() {
            self.positions[e.id]
        } else {
            None
        }
    }

    pub fn velocity(&self, e: Entity) -> (r: Option<Velocity>)
        requires
            self.wf(),
        ensures
            r == (if e.id < self.count() { self.velocities()[e.id as int] } else { None }),
    {
        if e.id < self.velocities.len() {
            self.velocities[e.id]
        } else {
            None
        }
    }

    pub fn renderable(&self, e: Entity) -> (r: Option<&Renderable>)
        requires
            self.wf(),
        ensures
            match r {
                Some(x) => e.id < self.count() && self.renderables()[e.id as int] == Some(*x),
                None => e.id >= self.count() || self.renderables()[e.id as int] is None,
            },
    {
        if e.id < self.renderables.len() {
            self.renderables[e.id].as_ref()
        } else {
            None
        }
    }

    pub fn is_keyboard_controlled(&self, e: Entity) -> (r: bool)
        requires
            self.wf(),
        ensures
            r == (e.id < self.count() && self.controlled()[e.id as int]),
    {
        e.id < self.controlled.len() && self.controlled[e.id]
    }

    /// Queues the creation of an entity; it exists from the next `maintain`
    /// on, under the returned id.
    pub fn create_entity(&mut self, b: EntityBuilder) -> (r: Entity)
        requires
            old(self).wf(),
            old(self).count() + old(self).creates().len() < usize::MAX,
            speed_ok(b.velocity),
        ensures
            final(self).wf(),
            r.id == old(self).count() + old(self).creates().len(),
            final(self).creates() == old(self).creates().push(b),
            final(self).positions() == old(self).positions(),
            final(self).velocities() == old(self).velocities(),
            final(self).renderables() == old(self).renderables(),
            final(self).controlled() == old(self).controlled(),
            final(self).command() == old(self).command(),
            final(self).deletes() == old(self).deletes(),
    {
        let id = self.positions.len() + self.pending_creates.len();
        self.pending_creates.push(b);
        Entity { id }
    }

    /// Queues the deletion of an entity; its components go at the next
    /// `maintain`.
    pub fn delete_entity(&mut self, e: Entity)
        ensures
            final(self).deletes() == old(self).deletes().push(e.id),
            final(self).wf() == old(self).wf(),
            final(self).positions() == old(self).positions(),
            final(self).velocities() == old(self).velocities(),
            final(self).renderables() == old(self).renderables(),
            final(self).controlled() == old(self).controlled(),
            final(self).command() == old(self).command(),
            final(self).creates() == old(self).creates(),
    {
        self.pending_deletes.push(e.id);
    }

    /// Applies the queued structural changes at once: every queued entity is
    /// created, in queue order, then every queued deletion empties its
    /// entity's slots. Ids are not reused.
    pub fn maintain(&mut self)
        requires
            old(self).wf(),
        ensures
            final(self).wf(),
            final(self).count() == old(self).count() + old(self).creates().len(),
            final(self).creates().len() == 0,
            final(self).deletes().len() == 0,
            final(self).command() == old(self).command(),
            forall|i: int|
                #![trigger final(self).positions()[i]]
                #![trigger final(self).velocities()[i]]
                #![trigger final(self).renderables()[i]]
                #![trigger final(self).controlled()[i]]
                0 <= i < final(self).count() ==> {
                    let n = old(self).count() as int;
                    let dels = old(self).deletes();
                    let k = dels.len() as int;
                    let made = old(self).creates();
                    &&& final(self).positions()[i] == synced(
                        old(self).positions(),
                        positions_of(made),
                        dels,
                        k,
                        i,
                    )
                    &&& final(self).velocities()[i] == synced(
                        old(self).velocities(),
                        velocities_of(made),
                        dels,
                        k,
                        i,
                    )
                    &&& final(self).renderables()[i] == synced(
                        old(self).renderables(),
                        renderables_of(made),
                        dels,
                        k,
                        i,
                    )
                    &&& final(self).controlled()[i] == (!deleted_among(dels, k, i) && if i < n {
                        old(self).controlled()[i]
                    } else {
                        made[i - n].keyboard_controlled
                    })
                },
    {
        let ghost w0 = *self;
        let ghost n = w0.count() as int;
        let ghost made = w0.creates();
        let mut queue: Vec<EntityBuilder> = Vec::new();
        core::mem::swap(&mut queue, &mut self.pending_creates);
        let mut j: usize = 0;
        while queue.len() > 0
            invariant
                w0.wf(),
                n == w0.count(),
                made == w0.creates(),
                j <= made.len(),
                queue@ == made.subrange(j as int, made.len() as int),
                self.positions@.len() == n + j,
                self.velocities@.len() == n + j,
                self.renderables@.len() == n + j,
                self.controlled@.len() == n + j,
                self.movement_command == w0.command(),
                self.pending_creates@.len() == 0,
                self.pending_deletes@ == w0.deletes(),
                self.positions@ == (w0.positions() + positions_of(made)).take(n + j),
                self.velocities@ == (w0.velocities() + velocities_of(made)).take(n + j),
                self.renderables@ == (w0.renderables() + renderables_of(made)).take(n + j),
                self.controlled@ == (w0.controlled() + controlled_of(made)).take(n + j),
            decreases queue@.len(),
        {
            let b = queue.remove(0);
            assert(b == made[j as int]);
            self.positions.push(b.position);
            self.velocities.push(b.velocity);
            self.renderables.push(b.renderable);
            self.controlled.push(b.keyboard_controlled);
            assert(self.positions@ =~= (w0.positions() + positions_of(made)).take(n + j + 1));
            assert(self.velocities@ =~= (w0.velocities() + velocities_of(made)).take(n + j + 1));
            assert(self.renderables@ =~= (w0.renderables() + renderables_of(made)).take(n + j + 1));
            assert(self.controlled@ =~= (w0.controlled() + controlled_of(made)).take(n + j + 1));
            j = j + 1;
        }
        assert(self.positions@ =~= w0.positions() + positions_of(made));
        assert(self.velocities@ =~= w0.velocities() + velocities_of(made));
        assert(self.renderables@ =~= w0.renderables() + renderables_of(made));
        assert(self.controlled@ =~= w0.controlled() + controlled_of(made));
        assert forall|i: int| 0 <= i < n + made.len() implies speed_ok(#[trigger] self.velocities@[i]) by {
            if i >= n {
                assert(velocities_of(made)[i - n] == made[i - n].velocity);
            }
        }
        let ghost total = n + made.len();
        let ghost base_p = self.positions@;
        let ghost base_v = self.velocities@;
        let ghost base_r = self.renderables@;
        let ghost base_c = self.controlled@;
        let ghost dels = w0.deletes();
        let mut k: usize = 0;
        while k < self.pending_deletes.len()
            invariant
                total == n + made.len(),
                total <= usize::MAX,
                base_p.len() == total,
                base_v.len() == total,
                base_r.len() == total,
                base_c.len() == total,
                self.positions@.len() == total,
                self.velocities@.len() == total,
                self.renderables@.len() == total,
                self.controlled@.len() == total,
                self.movement_command == w0.command(),
                self.pending_creates@.len() == 0,
                self.pending_deletes@ == dels,
                k <= dels.len(),
                forall|i: int| 0 <= i < total ==> speed_ok(#[trigger] self.velocities@[i]),
                forall|i: int|
                    0 <= i < total ==> {
                        &&& #[trigger] self.positions@[i] == if deleted_among(dels, k as int, i) {
                            None
                        } else {
                            base_p[i]
                        }
                        &&& self.velocities@[i] == if deleted_among(dels, k as int, i) {
                            None
                        } else {
                            base_v[i]
                        }
                        &&& self.renderables@[i] == if deleted_among(dels, k as int, i) {
                            None
                        } else {
                            base_r[i]
                        }
                        &&& self.controlled@[i] == (!deleted_among(dels, k as int, i) && base_c[i])
                    },
            decreases dels.len() - k,
        {
            let d = self.pending_deletes[k];
            let ghost pre_p = self.positions@;
            let ghost pre_v = self.velocities@;
            let ghost pre_r = self.renderables@;
            let ghost pre_c = self.controlled@;
            if d < self.positions.len() {
                self.positions.set(d, None);
                self.velocities.set(d, None);
                self.renderables.set(d, None);
                self.controlled.set(d, false);
            }
            proof {
                let k1 = k as int + 1;
                assert forall|i: int| 0 <= i < total implies {
                    &&& #[trigger] self.positions@[i] == if deleted_among(dels, k1, i) {
                        None
                    } else {
                        base_p[i]
                    }
                    &&& self.velocities@[i] == if deleted_among(dels, k1, i) {
                        None
                    } else {
                        base_v[i]
                    }
                    &&& self.renderables@[i] == if deleted_among(dels, k1, i) {
                        None
                    } else {
                        base_r[i]
                    }
                    &&& self.controlled@[i] == (!deleted_among(dels, k1, i) && base_c[i])
                } by {
                    assert(pre_p[i] == if deleted_among(dels, k as int, i) {
                        None
                    } else {
                        base_p[i]
                    });
                    if dels[k as int] as int == i {
                        assert(0 <= k < k1 && dels[k as int] as int == i);
                        assert(deleted_among(dels, k1, i));
                    } else {
                        if deleted_among(dels, k1, i) {
                            let j2 = choose|j2: int| 0 <= j2 < k1 && dels[j2] as int == i;
                            assert(0 <= j2 < k);
                            assert(deleted_among(dels, k as int, i));
                        }
                        if deleted_among(dels, k as int, i) {
                            let j2 = choose|j2: int| 0 <= j2 < k && dels[j2] as int == i;
                            assert(0 <= j2 < k1);
                        }
                    }
                }
            }
            k = k + 1;
        }
        self.pending_deletes = Vec::new();
    }

    /// Writes the velocity of an entity that has one.
    pub fn set_velocity(&mut self, e: Entity, v: Velocity)
        requires
            old(self).wf(),
            v.speed >= 0,
            e.id < old(self).count(),
        ensures
            final(self).wf(),
            final(self).count() == old(self).count(),
            final(self).velocities() == old(self).velocities().update(e.id as int, Some(v)),
            World::same_but_velocities(*final(self), *old(self)),
    {
        self.velocities.set(e.id, Some(v));
    }

    /// Writes the position of an entity.
    pub fn set_position(&mut self, e: Entity, p: Position)
        requires
            old(self).wf(),
            e.id < old(self).count(),
        ensures
            final(self).wf(),
            final(self).count() == old(self).count(),
            final(self).positions() == old(self).positions().update(e.id as int, Some(p)),
            World::same_but_positions(*final(self), *old(self)),
    {
        self.positions.set(e.id, Some(p));
    }
}

} // verus!
