//! What holds of the scene however long it runs.
//!
//! Each law is stated over the plain-value models that the contracts of the
//! controller and of the runtime speak of, for every starting state that the
//! law names, every tick duration and every number of ticks.

use crate::controller::{
    coherent, is_live, lemma_run_follows_countdown, lemma_run_keeps_coherence, respawned, run,
    step, CycleModel,
};
use crate::countdown::{
    expires, lemma_expiries_bounded_by_elapsed_periods, lemma_expiries_match_elapsed_periods,
    CountdownModel,
};
use crate::layers::{RENDER_LAYER_PRIMARY, RENDER_LAYER_SELECTION};
use crate::countdown::SceneTime;
use crate::runtime::{established, runtime_run, started, RuntimeModel};
use crate::scene::{
    lemma_generation_holds_every_role, observes, opaque_black, role_index, ClearBehavior,
    EntityId, RenderDestination, SceneRole, SCENE_ENTITY_COUNT,
};
use vstd::prelude::*;

verus! {

/// Where the tick divides the period and a full period is on the countdown
/// at the start, the scene has been rebuilt once for every whole period that
/// has elapsed: after `elapsed` units, that is after `elapsed / delta` ticks,
/// it has been rebuilt `elapsed / period` times.
pub proof fn lemma_respawns_match_elapsed_periods(s: CycleModel, delta: nat, elapsed: nat)
    requires
        delta > 0,
        s.time.period > 0,
        s.time.period % delta == 0,
        s.time.remaining == s.time.period,
    ensures
        run(s, delta, elapsed / delta).generation == s.generation + elapsed / s.time.period,
{
    lemma_run_follows_countdown(s, delta, elapsed / delta);
    lemma_expiries_match_elapsed_periods(s.time, delta, elapsed);
}

/// Rebuilds never come early: with a full period on the countdown at the
/// start, `k` rebuilds take at least `k` periods, whatever the tick.
pub proof fn lemma_respawns_never_early(s: CycleModel, delta: nat, ticks: nat)
    requires
        s.time.remaining == s.time.period,
    ensures
        (run(s, delta, ticks).generation - s.generation) * s.time.period <= ticks * delta,
{
    lemma_run_follows_countdown(s, delta, ticks);
    lemma_expiries_bounded_by_elapsed_periods(s.time, delta, ticks);
}

/// While the ticks so far add up to less than what was on the countdown at
/// the start, the scene is as it was.
pub proof fn lemma_no_respawn_before_time_is_up(s: CycleModel, delta: nat, ticks: nat)
    requires
        ticks * delta < s.time.remaining,
    ensures
        run(s, delta, ticks) == (CycleModel {
            time: CountdownModel {
                period: s.time.period,
                remaining: (s.time.remaining - ticks * delta) as nat,
            },
            generation: s.generation,
            target: s.target,
            entities: s.entities,
        }),
    decreases ticks,
{
    if ticks > 0 {
        let earlier = (ticks - 1) as nat;
        assert(ticks * delta == earlier * delta + delta) by (nonlinear_arith)
            requires
                ticks == earlier + 1,
        ;
        lemma_no_respawn_before_time_is_up(s, delta, earlier);
    } else {
        assert(ticks * delta == 0) by (nonlinear_arith)
            requires
                ticks == 0,
        ;
    }
}

/// A tick that does not expire the countdown leaves the generation and its
/// entities as they were.
pub proof fn lemma_waiting_keeps_the_scene(s: CycleModel, delta: nat)
    requires
        !expires(s.time.remaining, delta),
    ensures
        step(s, delta).generation == s.generation,
        step(s, delta).entities == s.entities,
{
}

/// At any time the live entities are those of one generation: none before
/// the first build, and after it one entity for each of the six roles, each
/// at its place and each tagged with the live generation.
pub proof fn lemma_live_entities_are_one_generation(s: CycleModel, delta: nat, ticks: nat)
    requires
        coherent(s),
    ensures
        run(s, delta, ticks).generation == 0 ==> run(s, delta, ticks).entities.len() == 0,
        run(s, delta, ticks).generation > 0 ==> {
            &&& run(s, delta, ticks).entities.len() == SCENE_ENTITY_COUNT
            &&& forall|i: int|
                #![trigger run(s, delta, ticks).entities[i]]
                0 <= i < SCENE_ENTITY_COUNT ==> {
                    &&& run(s, delta, ticks).entities[i].generation == run(
                        s,
                        delta,
                        ticks,
                    ).generation
                    &&& run(s, delta, ticks).entities[i].index == i
                    &&& role_index(run(s, delta, ticks).entities[i].role) == i
                }
        },
{
    let r = run(s, delta, ticks);
    lemma_run_keeps_coherence(s, delta, ticks);
    lemma_generation_holds_every_role(r.generation, r.target);
}

/// A rebuild frees exactly the previous generation: no handle that was live
/// before it is live after it, and every entity it made is live.
pub proof fn lemma_respawn_retires_previous_handles(s: CycleModel, id: EntityId)
    ensures
        is_live(s, id) ==> !is_live(respawned(s), id),
        is_live(respawned(s), id) <==> id.generation == s.generation + 1 && id.index
            < SCENE_ENTITY_COUNT,
{
    lemma_generation_holds_every_role(s.generation + 1, s.target);
}

/// In every generation the left sprite and the capture camera share no
/// label, and the left sprite and the display camera share `PRIMARY`.
pub proof fn lemma_left_sprite_shares_no_label_with_capture_camera(
    s: CycleModel,
    delta: nat,
    ticks: nat,
)
    requires
        coherent(s),
        run(s, delta, ticks).generation > 0,
    ensures
        run(s, delta, ticks).entities[role_index(SceneRole::LeftSprite) as int].layers.intersect(
            run(s, delta, ticks).entities[role_index(SceneRole::CaptureCamera) as int].layers,
        ) == Set::<nat>::empty(),
        run(s, delta, ticks).entities[role_index(SceneRole::LeftSprite) as int].layers.intersect(
            run(s, delta, ticks).entities[role_index(SceneRole::DisplayCamera) as int].layers,
        ) == set![RENDER_LAYER_PRIMARY as nat],
{
    let r = run(s, delta, ticks);
    lemma_run_keeps_coherence(s, delta, ticks);
    lemma_generation_holds_every_role(r.generation, r.target);
    let sprite = r.entities[role_index(SceneRole::LeftSprite) as int];
    let capture = r.entities[role_index(SceneRole::CaptureCamera) as int];
    let display = r.entities[role_index(SceneRole::DisplayCamera) as int];
    assert(sprite.layers.intersect(capture.layers) =~= Set::<nat>::empty());
    assert(sprite.layers.intersect(display.layers) =~= set![RENDER_LAYER_PRIMARY as nat]);
}

/// In every generation the right sprite and the capture camera share the
/// label `SELECTION` and no other, and the right sprite and the display
/// camera share `PRIMARY` and no other.
pub proof fn lemma_right_sprite_shares_selection_with_capture_camera(
    s: CycleModel,
    delta: nat,
    ticks: nat,
)
    requires
        coherent(s),
        run(s, delta, ticks).generation > 0,
    ensures
        run(s, delta, ticks).entities[role_index(SceneRole::RightSprite) as int].layers.intersect(
            run(s, delta, ticks).entities[role_index(SceneRole::CaptureCamera) as int].layers,
        ) == set![RENDER_LAYER_SELECTION as nat],
        run(s, delta, ticks).entities[role_index(SceneRole::RightSprite) as int].layers.intersect(
            run(s, delta, ticks).entities[role_index(SceneRole::DisplayCamera) as int].layers,
        ) == set![RENDER_LAYER_PRIMARY as nat],
{
    let r = run(s, delta, ticks);
    lemma_run_keeps_coherence(s, delta, ticks);
    lemma_generation_holds_every_role(r.generation, r.target);
    let sprite = r.entities[role_index(SceneRole::RightSprite) as int];
    let capture = r.entities[role_index(SceneRole::CaptureCamera) as int];
    let display = r.entities[role_index(SceneRole::DisplayCamera) as int];
    assert(sprite.layers.intersect(capture.layers) =~= set![RENDER_LAYER_SELECTION as nat]);
    assert(sprite.layers.intersect(display.layers) =~= set![RENDER_LAYER_PRIMARY as nat]);
}

/// In every generation the capture camera observes the right sprite and
/// nothing else, and the display camera observes everything that is no camera.
pub proof fn lemma_cameras_observe_what_their_labels_say(s: CycleModel, delta: nat, ticks: nat)
    requires
        coherent(s),
        run(s, delta, ticks).generation > 0,
    ensures
        forall|i: int|
            #![trigger run(s, delta, ticks).entities[i]]
            0 <= i < SCENE_ENTITY_COUNT ==> {
                &&& observes(
                    run(s, delta, ticks).entities[role_index(SceneRole::CaptureCamera) as int],
                    run(s, delta, ticks).entities[i],
                ) <==> i == role_index(SceneRole::RightSprite)
                &&& observes(
                    run(s, delta, ticks).entities[role_index(SceneRole::DisplayCamera) as int],
                    run(s, delta, ticks).entities[i],
                ) <==> i >= role_index(SceneRole::LeftSprite)
            },
{
    let r = run(s, delta, ticks);
    lemma_run_keeps_coherence(s, delta, ticks);
    lemma_generation_holds_every_role(r.generation, r.target);
    let capture = r.entities[role_index(SceneRole::CaptureCamera) as int];
    let display = r.entities[role_index(SceneRole::DisplayCamera) as int];
    assert forall|i: int| 0 <= i < SCENE_ENTITY_COUNT implies {
        &&& observes(capture, #[trigger] r.entities[i]) <==> i == role_index(
            SceneRole::RightSprite,
        )
        &&& observes(display, r.entities[i]) <==> i >= role_index(SceneRole::LeftSprite)
    } by {
        let subject = r.entities[i];
        assert(display.layers.contains(RENDER_LAYER_PRIMARY as nat));
        assert(capture.layers.contains(RENDER_LAYER_SELECTION as nat));
        if i == role_index(SceneRole::RightSprite) {
            assert(subject.layers.contains(RENDER_LAYER_SELECTION as nat));
        }
        if i >= role_index(SceneRole::LeftSprite) {
            assert(subject.layers.contains(RENDER_LAYER_PRIMARY as nat));
        }
    }
}

/// In every generation the capture camera draws before the display camera,
/// it draws over opaque black into the capture target of the scene, and that
/// is the target that the preview samples.
pub proof fn lemma_capture_feeds_the_preview(s: CycleModel, delta: nat, ticks: nat)
    requires
        coherent(s),
        run(s, delta, ticks).generation > 0,
    ensures
        ({
            let r = run(s, delta, ticks);
            let capture = r.entities[role_index(SceneRole::CaptureCamera) as int].body;
            let display = r.entities[role_index(SceneRole::DisplayCamera) as int].body;
            let preview = r.entities[role_index(SceneRole::CapturePreview) as int].body;
            &&& capture is Camera
            &&& display is Camera
            &&& preview is Preview
            &&& capture->Camera_0.order < display->Camera_0.order
            &&& capture->Camera_0.destination == RenderDestination::Capture(s.target)
            &&& capture->Camera_0.clear == ClearBehavior::Solid(opaque_black())
            &&& capture->Camera_0.active
            &&& display->Camera_0.destination == RenderDestination::Surface
            &&& preview->Preview_image == s.target
        }),
{
    let r = run(s, delta, ticks);
    lemma_run_keeps_coherence(s, delta, ticks);
    lemma_run_follows_countdown(s, delta, ticks);
    lemma_generation_holds_every_role(r.generation, r.target);
}

/// The capture target is provisioned once and for all: however long the
/// scene runs and however often it is rebuilt, the asset table holds the one
/// target it held at the start, and the scene uses the same handle.
pub proof fn lemma_capture_target_is_stable(r: RuntimeModel, delta: nat, ticks: nat)
    requires
        established(r),
    ensures
        established(runtime_run(r, delta, ticks)),
        runtime_run(r, delta, ticks).assets == r.assets,
        runtime_run(r, delta, ticks).cycle == run(r.cycle, delta, ticks),
        runtime_run(r, delta, ticks).cycle.target == r.cycle.target,
    decreases ticks,
{
    if ticks > 0 {
        lemma_capture_target_is_stable(r, delta, (ticks - 1) as nat);
    }
    lemma_run_follows_countdown(r.cycle, delta, ticks);
    lemma_run_keeps_coherence(r.cycle, delta, ticks);
}

/// From startup on, where the tick divides the period, the scene has been
/// rebuilt once for every whole period that has elapsed, and not once more:
/// after `elapsed` units, that is after `elapsed / delta` ticks, the live
/// generation is number `elapsed / period`.
pub proof fn lemma_respawns_from_startup(
    surface_width: u32,
    surface_height: u32,
    units_per_second: u64,
    delta: nat,
    elapsed: nat,
)
    requires
        SceneTime::resolution_fits(units_per_second),
        delta > 0,
        SceneTime::period_for(units_per_second) % delta == 0,
    ensures
        runtime_run(
            started(surface_width, surface_height, units_per_second),
            delta,
            elapsed / delta,
        ).cycle.generation == elapsed / SceneTime::period_for(units_per_second),
{
    let start = started(surface_width, surface_height, units_per_second);
    lemma_capture_target_is_stable(start, delta, elapsed / delta);
    lemma_respawns_match_elapsed_periods(start.cycle, delta, elapsed);
}

/// From startup on, whatever the tick, `k` rebuilds take at least `k`
/// periods: nothing is built before the first period is over.
pub proof fn lemma_respawns_from_startup_never_early(
    surface_width: u32,
    surface_height: u32,
    units_per_second: u64,
    delta: nat,
    ticks: nat,
)
    ensures
        runtime_run(
            started(surface_width, surface_height, units_per_second),
            delta,
            ticks,
        ).cycle.generation * SceneTime::period_for(units_per_second) <= ticks * delta,
{
    let start = started(surface_width, surface_height, units_per_second);
    lemma_capture_target_is_stable(start, delta, ticks);
    lemma_respawns_never_early(start.cycle, delta, ticks);
}

} // verus!
