//! The arena that scopes every entity to the mode that created it.
//!
//! Handles are handed out in increasing order and never reused. Leaving a
//! mode removes every entity that the mode owns in one sweep, and removing
//! what is already gone is a no-op.

use vstd::prelude::*;
use crate::backend::{Collider, EngineBody, Role, SimulationEntity, Visual};
use crate::geometry::Vec3;
use crate::mode::PhysicsMode;

verus! {

/// Where the host saw a ball in this update: its handle and its height.
#[derive(Clone, Copy, Debug, PartialEq, Eq, Structural)]
pub struct BallSighting {
    pub handle: u64,
    pub y: i64,
}

/// Whether some sighting shows the handle strictly below the floor.
pub open spec fn seen_below(sightings: Seq<BallSighting>, floor: i64, handle: u64) -> bool {
    exists|i: int|
        0 <= i < sightings.len() && (#[trigger] sightings[i]).handle == handle && sightings[i].y
            < floor
}

/// Which entities a sweep removes.
pub enum Selector {
    /// Every entity owned by the mode.
    Scope(PhysicsMode),
    /// The ball with the handle, if it is alive.
    Ball(u64),
    /// Every ball that one of the sightings shows strictly below the floor.
    Sunk(Seq<BallSighting>, i64),
}

impl Selector {
    /// Whether the sweep removes the entity.
    pub open spec fn selects(self, entity: SimulationEntity) -> bool {
        match self {
            Selector::Scope(mode) => entity.owner == mode,
            Selector::Ball(handle) => entity.handle == handle && entity.role == Role::Ball,
            Selector::Sunk(sightings, floor) => entity.role == Role::Ball && seen_below(
                sightings,
                floor,
                entity.handle,
            ),
        }
    }

    /// The entities that the sweep removes, as a predicate.
    pub open spec fn removed(self) -> spec_fn(SimulationEntity) -> bool {
        |entity: SimulationEntity| self.selects(entity)
    }

    /// The entities that the sweep leaves, as a predicate.
    pub open spec fn kept(self) -> spec_fn(SimulationEntity) -> bool {
        |entity: SimulationEntity| !self.selects(entity)
    }

}

/// A sweep as the arena carries it out: the selector, with the sightings held by reference.
enum Sweep<'a> {
    Scope(PhysicsMode),
    Ball(u64),
    Sunk(&'a Vec<BallSighting>, i64),
}

impl<'a> Sweep<'a> {
    spec fn selector(&self) -> Selector {
        match self {
            Sweep::Scope(mode) => Selector::Scope(*mode),
            Sweep::Ball(handle) => Selector::Ball(*handle),
            Sweep::Sunk(sightings, floor) => Selector::Sunk(sightings@, *floor),
        }
    }

    fn test(&self, entity: &SimulationEntity) -> (hit: bool)
        ensures
            hit == self.selector().selects(*entity),
    {
        match self {
            Sweep::Scope(mode) => entity.owner == *mode,
            Sweep::Ball(handle) => entity.handle == *handle && entity.role == Role::Ball,
            Sweep::Sunk(sightings, floor) => {
                if entity.role != Role::Ball {
                    return false;
                }
                let mut i: usize = 0;
                while i < sightings.len()
                    invariant
                        i <= sightings.len(),
                        entity.role == Role::Ball,
                        self.selector() == Selector::Sunk(sightings@, *floor),
                        forall|k: int|
                            0 <= k < i ==> !((#[trigger] sightings@[k]).handle == entity.handle
                                && sightings@[k].y < *floor),
                    decreases sightings.len() - i,
                {
                    if sightings[i].handle == entity.handle && sightings[i].y < *floor {
                        assert(seen_below(sightings@, *floor, entity.handle)) by {
                            assert(sightings@[i as int].handle == entity.handle);
                        }
                        return true;
                    }
                    i += 1;
                }
                false
            },
        }
    }
}

/// The handles of a sequence of entities, in the same order.
pub open spec fn handles_of(entities: Seq<SimulationEntity>) -> Seq<u64> {
    entities.map_values(|entity: SimulationEntity| entity.handle)
}

/// Handles grow strictly along the sequence.
pub open spec fn handles_increase(entities: Seq<SimulationEntity>) -> bool {
    forall|i: int, j: int|
        0 <= i < j < entities.len() ==> (#[trigger] entities[i]).handle < (
        #[trigger] entities[j]).handle
}

/// Whether an entity with the handle is in the sequence.
pub open spec fn has_handle(entities: Seq<SimulationEntity>, handle: u64) -> bool {
    exists|i: int| 0 <= i < entities.len() && (#[trigger] entities[i]).handle == handle
}

/// The live entities, oldest first, and the handle that the next one gets.
pub struct EntityArena {
    entities: Vec<SimulationEntity>,
    next_handle: u64,
}

impl View for EntityArena {
    type V = Seq<SimulationEntity>;

    closed spec fn view(&self) -> Seq<SimulationEntity> {
        self.entities@
    }
}

impl EntityArena {
    /// The handle that the next spawned entity receives.
    pub closed spec fn next_handle(&self) -> u64 {
        self.next_handle
    }

    /// Handles are distinct, grow with age, and lie below the next one.
    pub open spec fn wf(&self) -> bool {
        &&& handles_increase(self@)
        &&& forall|i: int| 0 <= i < self@.len() ==> (#[trigger] self@[i]).handle < self.next_handle()
    }

    /// An empty arena.
    pub fn new() -> (arena: EntityArena)
        ensures
            arena.wf(),
            arena@ == Seq::<SimulationEntity>::empty(),
            arena.next_handle() == 0,
    {
        EntityArena { entities: Vec::new(), next_handle: 0 }
    }

    /// Number of live entities.
    pub fn len(&self) -> (count: usize)
        ensures
            count == self@.len(),
    {
        self.entities.len()
    }

    /// The live entities, oldest first.
    pub fn entities(&self) -> (all: &Vec<SimulationEntity>)
        ensures
            all@ == self@,
    {
        &self.entities
    }

    /// The handle that the next spawned entity receives.
    pub fn peek_next_handle(&self) -> (handle: u64)
        ensures
            handle == self.next_handle(),
    {
        self.next_handle
    }

    /// Whether an entity with the handle is alive.
    pub fn contains(&self, handle: u64) -> (alive: bool)
        ensures
            alive == has_handle(self@, handle),
    {
        let mut i: usize = 0;
        while i < self.entities.len()
            invariant
                i <= self.entities.len(),
                forall|k: int| 0 <= k < i ==> (#[trigger] self@[k]).handle != handle,
            decreases self.entities.len() - i,
        {
            if self.entities[i].handle == handle {
                return true;
            }
            i += 1;
        }
        false
    }

    /// Number of live entities that the mode owns.
    pub fn count_scope(&self, mode: PhysicsMode) -> (count: usize)
        ensures
            count == self@.filter(Selector::Scope(mode).removed()).len(),
    {
        let mut count: usize = 0;
        let mut i: usize = 0;
        proof {
            reveal(Seq::filter);
            assert(self@.take(0) =~= Seq::<SimulationEntity>::empty());
        }
        while i < self.entities.len()
            invariant
                i <= self.entities.len(),
                count <= i,
                count == self@.take(i as int).filter(Selector::Scope(mode).removed()).len(),
            decreases self.entities.len() - i,
        {
            proof {
                lemma_take_step(self@, i as int, Selector::Scope(mode).removed());
            }
            if self.entities[i].owner == mode {
                count += 1;
            }
            i += 1;
        }
        proof {
            assert(self@.take(i as int) =~= self@);
        }
        count
    }

    /// Create an entity owned by `owner` and return its handle.
    pub fn spawn(
        &mut self,
        owner: PhysicsMode,
        role: Role,
        position: Vec3,
        body: EngineBody,
        collider: Collider,
        visual: Visual,
    ) -> (handle: u64)
        requires
            old(self).wf(),
            old(self).next_handle() < u64::MAX,
        ensures
            final(self).wf(),
            handle == old(self).next_handle(),
            final(self).next_handle() == handle + 1,
            final(self)@ == old(self)@.push(
                SimulationEntity { handle, owner, role, position, body, collider, visual },
            ),
    {
        let handle = self.next_handle;
        self.entities.push(SimulationEntity { handle, owner, role, position, body, collider, visual });
        self.next_handle = handle + 1;
        handle
    }

    /// Remove every entity that the selector picks; return their handles, oldest first.
    fn sweep(&mut self, sweep: Sweep<'_>) -> (removed: Vec<u64>)
        requires
            old(self).wf(),
        ensures
            final(self).wf(),
            final(self).next_handle() == old(self).next_handle(),
            final(self)@ == old(self)@.filter(sweep.selector().kept()),
            removed@ == handles_of(old(self)@.filter(sweep.selector().removed())),
            removed@.len() + final(self)@.len() == old(self)@.len(),
    {
        let ghost before = self@;
        let ghost selector = sweep.selector();
        let mut kept: Vec<SimulationEntity> = Vec::new();
        let mut removed: Vec<u64> = Vec::new();
        let mut i: usize = 0;
        proof {
            reveal(Seq::filter);
            assert(before.take(0) =~= Seq::<SimulationEntity>::empty());
            assert(handles_of(Seq::<SimulationEntity>::empty()) =~= Seq::<u64>::empty());
        }
        while i < self.entities.len()
            invariant
                self@ == before,
                self.next_handle() == old(self).next_handle(),
                self.wf(),
                i <= self.entities.len(),
                kept@ == before.take(i as int).filter(selector.kept()),
                removed@ == handles_of(before.take(i as int).filter(selector.removed())),
                handles_increase(kept@),
                forall|k: int, j: int|
                    0 <= k < kept@.len() && i <= j < before.len() ==> (#[trigger] kept@[k]).handle < (
                    #[trigger] before[j]).handle,
                forall|k: int| 0 <= k < kept@.len() ==> (#[trigger] kept@[k]).handle < self.next_handle(),
                selector == sweep.selector(),
                kept@.len() + removed@.len() == i,
            decreases self.entities.len() - i,
        {
            let entity = self.entities[i];
            proof {
                lemma_take_step(before, i as int, selector.kept());
                lemma_take_step(before, i as int, selector.removed());
            }
            if sweep.test(&entity) {
                proof {
                    let hit = before.take(i as int).filter(selector.removed());
                    assert(handles_of(hit.push(entity)) =~= handles_of(hit).push(entity.handle));
                }
                removed.push(entity.handle);
            } else {
                kept.push(entity);
            }
            i += 1;
        }
        proof {
            assert(before.take(i as int) =~= before);
        }
        self.entities = kept;
        removed
    }

    /// Destroy every entity that the mode owns and return their handles,
    /// oldest first. An empty scope yields an empty list and changes nothing.
    pub fn despawn_scope(&mut self, mode: PhysicsMode) -> (removed: Vec<u64>)
        requires
            old(self).wf(),
        ensures
            final(self).wf(),
            final(self).next_handle() == old(self).next_handle(),
            final(self)@ == old(self)@.filter(Selector::Scope(mode).kept()),
            removed@ == handles_of(old(self)@.filter(Selector::Scope(mode).removed())),
            forall|i: int| 0 <= i < final(self)@.len() ==> (#[trigger] final(self)@[i]).owner != mode,
    {
        let removed = self.sweep(Sweep::Scope(mode));
        proof {
            let kept = Selector::Scope(mode).kept();
            assert forall|i: int| 0 <= i < self@.len() implies (#[trigger] self@[i]).owner != mode by {
                old(self)@.lemma_filter_pred(kept, i);
            }
        }
        removed
    }

    /// Destroy every ball that one of the sightings shows strictly below
    /// `floor`, and return the handles of those destroyed, oldest first.
    /// A sighting of a ball that is no longer alive, or of a wall, is ignored.
    pub fn despawn_sunk(&mut self, sightings: &Vec<BallSighting>, floor: i64) -> (removed: Vec<u64>)
        requires
            old(self).wf(),
        ensures
            final(self).wf(),
            final(self).next_handle() == old(self).next_handle(),
            final(self)@ == old(self)@.filter(Selector::Sunk(sightings@, floor).kept()),
            removed@ == handles_of(old(self)@.filter(Selector::Sunk(sightings@, floor).removed())),
            removed@.len() + final(self)@.len() == old(self)@.len(),
    {
        self.sweep(Sweep::Sunk(sightings, floor))
    }

    /// Destroy the ball with the handle if it is alive, and say whether it was.
    /// A handle that is gone, or that belongs to a wall, changes nothing.
    pub fn despawn_ball(&mut self, handle: u64) -> (destroyed: bool)
        requires
            old(self).wf(),
        ensures
            final(self).wf(),
            final(self).next_handle() == old(self).next_handle(),
            final(self)@ == old(self)@.filter(Selector::Ball(handle).kept()),
            destroyed == has_ball(old(self)@, handle),
            !has_ball(final(self)@, handle),
            destroyed ==> final(self)@.len() + 1 == old(self)@.len(),
            !destroyed ==> final(self)@ == old(self)@,
    {
        let removed = self.sweep(Sweep::Ball(handle));
        proof {
            lemma_sweep_ball(old(self)@, handle);
        }
        removed.len() > 0
    }
}

/// Whether a ball with the handle is in the sequence.
pub open spec fn has_ball(entities: Seq<SimulationEntity>, handle: u64) -> bool {
    exists|i: int|
        0 <= i < entities.len() && (#[trigger] entities[i]).handle == handle && entities[i].role
            == Role::Ball
}

/// Filtering one element further: the prefix's result, with the element added if it passes.
pub proof fn lemma_take_step(
    entities: Seq<SimulationEntity>,
    i: int,
    pred: spec_fn(SimulationEntity) -> bool,
)
    requires
        0 <= i < entities.len(),
    ensures
        entities.take(i + 1).filter(pred) == if pred(entities[i]) {
            entities.take(i).filter(pred).push(entities[i])
        } else {
            entities.take(i).filter(pred)
        },
{
    reveal(Seq::filter);
    assert(entities.take(i + 1).drop_last() =~= entities.take(i));
}

/// Sweeping one ball out of a sequence with distinct handles removes exactly
/// that ball if it is there, and nothing otherwise.
pub proof fn lemma_sweep_ball(entities: Seq<SimulationEntity>, handle: u64)
    requires
        handles_increase(entities),
    ensures
        ({
            let kept = entities.filter(Selector::Ball(handle).kept());
            let removed = entities.filter(Selector::Ball(handle).removed());
            &&& (removed.len() > 0) == has_ball(entities, handle)
            &&& !has_ball(kept, handle)
            &&& kept.len() + removed.len() == entities.len()
            &&& removed.len() <= 1
            &&& (removed.len() == 0 ==> kept == entities)
        }),
    decreases entities.len(),
{
    reveal(Seq::filter);
    let kept_pred = Selector::Ball(handle).kept();
    let removed_pred = Selector::Ball(handle).removed();
    let kept = entities.filter(kept_pred);
    let removed = entities.filter(removed_pred);
    if entities.len() == 0 {
    } else {
        let rest = entities.drop_last();
        let last = entities.last();
        assert forall|i: int, j: int| 0 <= i < j < rest.len() implies (#[trigger] rest[i]).handle < (
        #[trigger] rest[j]).handle by {
            assert(rest[i] == entities[i]);
            assert(rest[j] == entities[j]);
        }
        lemma_sweep_ball(rest, handle);
        let rest_kept = rest.filter(kept_pred);
        let rest_removed = rest.filter(removed_pred);
        if has_ball(rest, handle) {
            let k = choose|k: int|
                0 <= k < rest.len() && (#[trigger] rest[k]).handle == handle && rest[k].role
                    == Role::Ball;
            assert(rest[k] == entities[k]);
            assert(entities[k].handle < entities[entities.len() - 1].handle);
            assert(!Selector::Ball(handle).selects(last));
            assert(has_ball(entities, handle));
        }
        if Selector::Ball(handle).selects(last) {
            assert(entities[entities.len() - 1].handle == handle);
            assert(has_ball(entities, handle));
            assert(rest_removed.len() == 0);
            assert(rest_kept == rest);
            assert(removed =~= rest_removed.push(last));
            assert(kept =~= rest);
            assert(!has_ball(kept, handle)) by {
                if has_ball(kept, handle) {
                    let k = choose|k: int|
                        0 <= k < kept.len() && (#[trigger] kept[k]).handle == handle
                            && kept[k].role == Role::Ball;
                    assert(rest[k] == entities[k]);
                    assert(has_ball(rest, handle));
                }
            }
        } else {
            assert(kept =~= rest_kept.push(last));
            assert(removed =~= rest_removed);
            if has_ball(entities, handle) {
                let k = choose|k: int|
                    0 <= k < entities.len() && (#[trigger] entities[k]).handle == handle
                        && entities[k].role == Role::Ball;
                assert(k < rest.len());
                assert(rest[k] == entities[k]);
                assert(has_ball(rest, handle));
            }
            if has_ball(kept, handle) {
                let k = choose|k: int|
                    0 <= k < kept.len() && (#[trigger] kept[k]).handle == handle && kept[k].role
                        == Role::Ball;
                if k < rest_kept.len() {
                    assert(rest_kept[k] == kept[k]);
                    assert(has_ball(rest_kept, handle));
                }
            }
            if removed.len() == 0 {
                assert(rest_kept == rest);
                assert(kept =~= entities);
            }
        }
    }
}

/// Despawning a scope twice is the same as despawning it once.
pub proof fn lemma_despawn_scope_idempotent(entities: Seq<SimulationEntity>, mode: PhysicsMode)
    ensures
        ({
            let once = entities.filter(Selector::Scope(mode).kept());
            &&& once.filter(Selector::Scope(mode).kept()) == once
            &&& once.filter(Selector::Scope(mode).removed()).len() == 0
        }),
{
    let once = entities.filter(Selector::Scope(mode).kept());
    assert forall|i: int| 0 <= i < once.len() implies (Selector::Scope(mode).kept())(
        #[trigger] once[i],
    ) by {
        entities.lemma_filter_pred(Selector::Scope(mode).kept(), i);
    }
    lemma_filter_all(once, Selector::Scope(mode).kept());
    lemma_filter_none(once, Selector::Scope(mode).removed());
}

/// A predicate that holds of every element filters nothing out.
pub proof fn lemma_filter_all(
    entities: Seq<SimulationEntity>,
    pred: spec_fn(SimulationEntity) -> bool,
)
    requires
        forall|i: int| 0 <= i < entities.len() ==> pred(#[trigger] entities[i]),
    ensures
        entities.filter(pred) == entities,
    decreases entities.len(),
{
    reveal(Seq::filter);
    if entities.len() > 0 {
        let rest = entities.drop_last();
        assert forall|i: int| 0 <= i < rest.len() implies pred(#[trigger] rest[i]) by {
            assert(rest[i] == entities[i]);
        }
        lemma_filter_all(rest, pred);
        assert(pred(entities[entities.len() - 1]));
        assert(rest.push(entities.last()) =~= entities);
    }
}

/// A predicate that holds of no element filters everything out.
pub proof fn lemma_filter_none(
    entities: Seq<SimulationEntity>,
    pred: spec_fn(SimulationEntity) -> bool,
)
    requires
        forall|i: int| 0 <= i < entities.len() ==> !pred(#[trigger] entities[i]),
    ensures
        entities.filter(pred).len() == 0,
    decreases entities.len(),
{
    reveal(Seq::filter);
    if entities.len() > 0 {
        let rest = entities.drop_last();
        assert forall|i: int| 0 <= i < rest.len() implies !pred(#[trigger] rest[i]) by {
            assert(rest[i] == entities[i]);
        }
        lemma_filter_none(rest, pred);
        assert(!pred(entities[entities.len() - 1]));
    }
}

} // verus!
