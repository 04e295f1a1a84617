//! The application root: it provisions the capture target once, at startup,
//! and from then on only ticks the controller.

use crate::controller::{
    coherent, outcome_of, step, CycleModel, SceneCycleController, TickOutcome,
};
use crate::countdown::{expires, CountdownModel, SceneTime};
use crate::scene::EntityModel;
use crate::target::{
    capture_target_for, surface_exists, AssetTable, CaptureTarget, CaptureTargetHandle,
    ProvisionError,
};
use vstd::prelude::*;

verus! {

/// The application root as plain values.
pub struct RuntimeModel {
    /// The registered capture targets.
    pub assets: Seq<CaptureTarget>,
    /// The controller.
    pub cycle: CycleModel,
}

/// Exactly one capture target is registered, the scene uses it, and the
/// controller is coherent.
pub open spec fn established(r: RuntimeModel) -> bool {
    &&& r.assets.len() == 1
    &&& r.cycle.target == CaptureTargetHandle { index: 0 }
    &&& coherent(r.cycle)
}

/// The state after one tick of `delta` units. A tick touches the controller
/// alone.
pub open spec fn runtime_step(r: RuntimeModel, delta: nat) -> RuntimeModel {
    RuntimeModel { assets: r.assets, cycle: step(r.cycle, delta) }
}

/// The state after `ticks` ticks of `delta` units each.
pub open spec fn runtime_run(r: RuntimeModel, delta: nat, ticks: nat) -> RuntimeModel
    decreases ticks,
{
    if ticks == 0 {
        r
    } else {
        runtime_step(runtime_run(r, delta, (ticks - 1) as nat), delta)
    }
}

/// The state right after startup on a surface of the given size.
pub open spec fn started(
    surface_width: u32,
    surface_height: u32,
    units_per_second: u64,
) -> RuntimeModel {
    RuntimeModel {
        assets: seq![capture_target_for(surface_width, surface_height)],
        cycle: CycleModel {
            time: CountdownModel {
                period: SceneTime::period_for(units_per_second),
                remaining: SceneTime::period_for(units_per_second),
            },
            generation: 0,
            target: CaptureTargetHandle { index: 0 },
            entities: Seq::<EntityModel>::empty(),
        },
    }
}

/// Owner of the asset table and of the controller.
pub struct SceneRuntime {
    assets: AssetTable,
    controller: SceneCycleController,
}

impl View for SceneRuntime {
    type V = RuntimeModel;

    closed spec fn view(&self) -> RuntimeModel {
        RuntimeModel { assets: self.assets@, cycle: self.controller@ }
    }
}

impl SceneRuntime {
    /// The runtime holds one capture target and a coherent controller that uses it.
    pub open spec fn wf(&self) -> bool {
        established(self@)
    }

    /// Provisions the capture target for the display surface and sets up the
    /// controller with it.
    ///
    /// Fails exactly when the surface has no pixels.
    pub fn startup(
        surface_width: u32,
        surface_height: u32,
        units_per_second: u64,
    ) -> (made: Result<SceneRuntime, ProvisionError>)
        requires
            SceneTime::resolution_fits(units_per_second),
        ensures
            match made {
                Ok(runtime) => {
                    &&& surface_exists(surface_width, surface_height)
                    &&& runtime.wf()
                    &&& runtime@ == started(surface_width, surface_height, units_per_second)
                },
                Err(error) => {
                    &&& !surface_exists(surface_width, surface_height)
                    &&& error == ProvisionError::NoDisplaySurface
                },
            },
    {
        let mut assets = AssetTable::new();
        match assets.provision(surface_width, surface_height) {
            Ok(target) => {
                let runtime = SceneRuntime {
                    assets,
                    controller: SceneCycleController::new(target, units_per_second),
                };
                assert(runtime@.assets =~= seq![
                    capture_target_for(surface_width, surface_height),
                ]);
                Ok(runtime)
            },
            Err(error) => Err(error),
        }
    }

    /// Advances the scene by one tick of `delta` units. The asset table is
    /// not touched.
    pub fn fixed_update(&mut self, delta: u64) -> (outcome: TickOutcome)
        requires
            old(self).wf(),
            expires(old(self)@.cycle.time.remaining, delta as nat) ==> old(self)@.cycle.generation
                < u64::MAX,
        ensures
            final(self).wf(),
            final(self)@ == runtime_step(old(self)@, delta as nat),
            outcome == outcome_of(old(self)@.cycle.time.remaining, delta as nat),
    {
        self.controller.tick(delta)
    }

    /// The asset table.
    pub fn assets(&self) -> (assets: &AssetTable)
        ensures
            assets@ == self@.assets,
    {
        &self.assets
    }

    /// The controller.
    pub fn controller(&self) -> (controller: &SceneCycleController)
        ensures
            controller@ == self@.cycle,
            self.wf() ==> controller.wf(),
    {
        &self.controller
    }

    /// The one capture target of the scene.
    pub fn capture_target(&self) -> (found: Option<CaptureTarget>)
        requires
            self.wf(),
        ensures
            found == Some(self@.assets[0]),
    {
        self.assets.get(self.controller.target())
    }
}

} // verus!
