//! The controller that rebuilds the scene whenever its countdown expires.
//!
//! On every tick the controller takes the tick's duration off the countdown.
//! While something is left it waits. When nothing is left it tears down the
//! whole previous generation, builds the next one, and starts the countdown
//! again. All of it happens inside one call, so no caller ever sees a scene
//! that mixes two generations, and the scene is rebuilt at no other time.

use crate::countdown::{
    after_tick, after_ticks, expires, expiries, lemma_expiries_grow_with_ticks, CountdownModel,
    SceneTime,
};
use crate::scene::{
    entity_model, lemma_generation_holds_every_role, scene_generation, EntityId, EntityModel,
    SceneEntity, SceneRole,
};
use crate::target::CaptureTargetHandle;
use vstd::prelude::*;

verus! {

/// What a tick did.
#[derive(Clone, Copy, Debug, PartialEq, Eq, Structural)]
pub enum TickOutcome {
    /// Time is left on the countdown; the scene is as it was.
    Waiting,
    /// The countdown expired; the scene was rebuilt.
    Respawned,
}

/// The controller as plain values.
pub struct CycleModel {
    /// The countdown.
    pub time: CountdownModel,
    /// Number of the generation that is live; 0 before the first build.
    pub generation: nat,
    /// The capture target that the scene draws into and shows.
    pub target: CaptureTargetHandle,
    /// The live entities.
    pub entities: Seq<EntityModel>,
}

/// The live entities are exactly those of the live generation: none before
/// the first build, and after it the six that the last build made.
pub open spec fn coherent(s: CycleModel) -> bool {
    s.entities == if s.generation == 0 {
        Seq::<EntityModel>::empty()
    } else {
        scene_generation(s.generation, s.target)
    }
}

/// The state after a rebuild: the next generation replaces the live one.
pub open spec fn respawned(s: CycleModel) -> CycleModel {
    CycleModel {
        time: s.time,
        generation: s.generation + 1,
        target: s.target,
        entities: scene_generation(s.generation + 1, s.target),
    }
}

/// What a tick of `delta` units does when `remaining` units are on the countdown.
pub open spec fn outcome_of(remaining: nat, delta: nat) -> TickOutcome {
    if expires(remaining, delta) {
        TickOutcome::Respawned
    } else {
        TickOutcome::Waiting
    }
}

/// The state after one tick of `delta` units.
pub open spec fn step(s: CycleModel, delta: nat) -> CycleModel {
    let ticked = CycleModel {
        time: after_tick(s.time, delta),
        generation: s.generation,
        target: s.target,
        entities: s.entities,
    };
    if expires(s.time.remaining, delta) {
        respawned(ticked)
    } else {
        ticked
    }
}

/// The state after `ticks` ticks of `delta` units each.
pub open spec fn run(s: CycleModel, delta: nat, ticks: nat) -> CycleModel
    decreases ticks,
{
    if ticks == 0 {
        s
    } else {
        step(run(s, delta, (ticks - 1) as nat), delta)
    }
}

/// Whether `id` names a live entity.
pub open spec fn is_live(s: CycleModel, id: EntityId) -> bool {
    id.generation == s.generation && id.index < s.entities.len()
}

/// Owner of the countdown and of the live entities.
pub struct SceneCycleController {
    time: SceneTime,
    generation: u64,
    target: CaptureTargetHandle,
    entities: Vec<SceneEntity>,
}

impl View for SceneCycleController {
    type V = CycleModel;

    closed spec fn view(&self) -> CycleModel {
        CycleModel {
            time: self.time@,
            generation: self.generation as nat,
            target: self.target,
            entities: Seq::new(self.entities@.len(), |i: int| self.entities@[i]@),
        }
    }
}

impl SceneCycleController {
    /// The controller holds exactly the entities of its live generation.
    pub open spec fn wf(&self) -> bool {
        coherent(self@)
    }

    /// A controller for a scene that draws into `target`, with a whole period
    /// on the countdown before the first generation is built.
    pub fn new(target: CaptureTargetHandle, units_per_second: u64) -> (controller:
        SceneCycleController)
        requires
            SceneTime::resolution_fits(units_per_second),
        ensures
            controller.wf(),
            controller@ == (CycleModel {
                time: CountdownModel {
                    period: SceneTime::period_for(units_per_second),
                    remaining: SceneTime::period_for(units_per_second),
                },
                generation: 0,
                target,
                entities: Seq::<EntityModel>::empty(),
            }),
    {
        let controller = SceneCycleController {
            time: SceneTime::new(units_per_second),
            generation: 0,
            target,
            entities: Vec::new(),
        };
        assert(controller@.entities =~= Seq::<EntityModel>::empty());
        controller
    }

    /// Tears down every live entity and builds the next generation: display
    /// camera, capture camera, left sprite, right sprite, preview, caption.
    /// Only an expired countdown leads here.
    fn respawn(&mut self)
        requires
            old(self).wf(),
            old(self)@.generation < u64::MAX,
        ensures
            final(self).wf(),
            final(self)@ == respawned(old(self)@),
    {
        let generation = self.generation + 1;
        let target = self.target;
        let mut entities: Vec<SceneEntity> = Vec::new();
        entities.push(SceneEntity::new(SceneRole::DisplayCamera, generation, target));
        entities.push(SceneEntity::new(SceneRole::CaptureCamera, generation, target));
        entities.push(SceneEntity::new(SceneRole::LeftSprite, generation, target));
        entities.push(SceneEntity::new(SceneRole::RightSprite, generation, target));
        entities.push(SceneEntity::new(SceneRole::CapturePreview, generation, target));
        entities.push(SceneEntity::new(SceneRole::Caption, generation, target));
        self.generation = generation;
        self.entities = entities;
        assert(self@.entities =~= scene_generation(generation as nat, target));
    }

    /// Advances the scene by one tick of `delta` units: waits while time is
    /// left on the countdown, rebuilds the scene when it expires.
    pub fn tick(&mut self, delta: u64) -> (outcome: TickOutcome)
        requires
            old(self).wf(),
            expires(old(self)@.time.remaining, delta as nat) ==> old(self)@.generation < u64::MAX,
        ensures
            final(self).wf(),
            final(self)@ == step(old(self)@, delta as nat),
            outcome == outcome_of(old(self)@.time.remaining, delta as nat),
    {
        if self.time.tick(delta) {
            self.respawn();
            TickOutcome::Respawned
        } else {
            TickOutcome::Waiting
        }
    }

    /// Advances the scene by `ticks` ticks of `delta` units each and returns
    /// how many of them rebuilt it.
    pub fn advance(&mut self, delta: u64, ticks: u64) -> (respawns: u64)
        requires
            old(self).wf(),
            old(self)@.generation + expiries(old(self)@.time, delta as nat, ticks as nat)
                <= u64::MAX,
        ensures
            final(self).wf(),
            final(self)@ == run(old(self)@, delta as nat, ticks as nat),
            respawns == expiries(old(self)@.time, delta as nat, ticks as nat),
    {
        let ghost start = self@;
        let mut respawns: u64 = 0;
        let mut done: u64 = 0;
        while done < ticks
            invariant
                done <= ticks,
                start.generation + expiries(start.time, delta as nat, ticks as nat) <= u64::MAX,
                self.wf(),
                self@ == run(start, delta as nat, done as nat),
                respawns == expiries(start.time, delta as nat, done as nat),
                self@.generation == start.generation + respawns,
                respawns <= done,
            decreases ticks - done,
        {
            proof {
                lemma_run_follows_countdown(start, delta as nat, done as nat);
                lemma_expiries_grow_with_ticks(
                    start.time,
                    delta as nat,
                    (done + 1) as nat,
                    ticks as nat,
                );
                lemma_expiries_grow_with_ticks(start.time, delta as nat, 0, done as nat);
            }
            match self.tick(delta) {
                TickOutcome::Respawned => {
                    respawns = respawns + 1;
                },
                TickOutcome::Waiting => {},
            }
            done = done + 1;
        }
        respawns
    }

    /// Units left on the countdown.
    pub fn remaining(&self) -> (units: u64)
        ensures
            units == self@.time.remaining,
    {
        self.time.remaining()
    }

    /// Units from one rebuild to the next.
    pub fn period(&self) -> (units: u64)
        ensures
            units == self@.time.period,
    {
        self.time.period()
    }

    /// Number of the live generation; 0 before the first build.
    pub fn generation(&self) -> (generation: u64)
        ensures
            generation == self@.generation,
    {
        self.generation
    }

    /// The capture target of the scene.
    pub fn target(&self) -> (target: CaptureTargetHandle)
        ensures
            target == self@.target,
    {
        self.target
    }

    /// Number of live entities.
    pub fn len(&self) -> (count: usize)
        ensures
            count == self@.entities.len(),
    {
        self.entities.len()
    }

    /// The live entity that `id` names. A handle of an earlier generation
    /// names nothing.
    pub fn get(&self, id: EntityId) -> (found: Option<&SceneEntity>)
        requires
            self.wf(),
        ensures
            match found {
                Some(entity) => is_live(self@, id) && entity@ == self@.entities[id.index as int]
                    && entity.wf(),
                None => !is_live(self@, id),
            },
    {
        if id.generation == self.generation && id.index < self.entities.len() {
            let entity = &self.entities[id.index];
            proof {
                lemma_generation_holds_every_role(self@.generation, self@.target);
            }
            assert(entity@ == self@.entities[id.index as int]);
            Some(entity)
        } else {
            None
        }
    }

    /// The live entity of `role`, once the first generation has been built.
    pub fn entity(&self, role: SceneRole) -> (found: Option<&SceneEntity>)
        requires
            self.wf(),
        ensures
            match found {
                Some(entity) => self@.generation > 0 && entity@ == entity_model(
                    role,
                    self@.generation,
                    self@.target,
                ) && entity.wf(),
                None => self@.generation == 0,
            },
    {
        self.get(EntityId { generation: self.generation, index: role.index() })
    }
}

/// Over any number of ticks the controller's countdown does what a countdown
/// on its own does, the generation number grows by one per expiry, and the
/// capture target stays the same.
pub proof fn lemma_run_follows_countdown(s: CycleModel, delta: nat, ticks: nat)
    ensures
        run(s, delta, ticks).time == after_ticks(s.time, delta, ticks),
        run(s, delta, ticks).generation == s.generation + expiries(s.time, delta, ticks),
        run(s, delta, ticks).target == s.target,
    decreases ticks,
{
    if ticks > 0 {
        lemma_run_follows_countdown(s, delta, (ticks - 1) as nat);
    }
}

/// A coherent state stays coherent however long the scene runs.
pub proof fn lemma_run_keeps_coherence(s: CycleModel, delta: nat, ticks: nat)
    requires
        coherent(s),
    ensures
        coherent(run(s, delta, ticks)),
    decreases ticks,
{
    if ticks > 0 {
        lemma_run_keeps_coherence(s, delta, (ticks - 1) as nat);
    }
}

} // verus!
