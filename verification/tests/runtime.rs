use scene_cycle::controller::TickOutcome;
use scene_cycle::runtime::SceneRuntime;
use scene_cycle::scene::SceneRole;
use scene_cycle::target::{CaptureTargetHandle, PixelFormat, ProvisionError};

#[test]
fn startup_provisions_one_target_of_the_surface_size() {
    let runtime = SceneRuntime::startup(1280, 720, 60).ok().unwrap();
    assert_eq!(runtime.assets().len(), 1);
    let target = runtime.capture_target().unwrap();
    assert_eq!((target.width, target.height), (1280, 720));
    assert_eq!(target.format, PixelFormat::Rgba8UnormSrgb);
    assert_eq!(runtime.controller().target(), CaptureTargetHandle { index: 0 });
    assert_eq!(runtime.controller().generation(), 0);
    assert_eq!(runtime.controller().remaining(), 180);
    assert_eq!(runtime.controller().period(), 180);
    assert_eq!(runtime.controller().len(), 0);
}

#[test]
fn startup_fails_without_a_display_surface() {
    assert_eq!(
        SceneRuntime::startup(0, 720, 60).err(),
        Some(ProvisionError::NoDisplaySurface)
    );
    assert_eq!(
        SceneRuntime::startup(1280, 0, 60).err(),
        Some(ProvisionError::NoDisplaySurface)
    );
}

#[test]
fn scene_is_built_after_each_whole_period_and_not_before() {
    let mut runtime = SceneRuntime::startup(1280, 720, 60).ok().unwrap();
    for _ in 0..179 {
        assert_eq!(runtime.fixed_update(1), TickOutcome::Waiting);
        assert_eq!(runtime.controller().len(), 0);
    }
    assert_eq!(runtime.fixed_update(1), TickOutcome::Respawned);
    assert_eq!(runtime.controller().generation(), 1);
    assert_eq!(runtime.controller().len(), 6);
    for _ in 0..179 {
        assert_eq!(runtime.fixed_update(1), TickOutcome::Waiting);
        assert_eq!(runtime.controller().len(), 6);
    }
    assert_eq!(runtime.fixed_update(1), TickOutcome::Respawned);
    assert_eq!(runtime.controller().generation(), 2);
}

#[test]
fn rebuilds_since_startup_match_elapsed_periods() {
    for delta in [1u64, 2, 3, 60, 90, 180] {
        let mut runtime = SceneRuntime::startup(1280, 720, 60).ok().unwrap();
        for tick in 1..=1000u64 {
            runtime.fixed_update(delta);
            assert_eq!(runtime.controller().generation(), tick * delta / 180);
        }
    }
}

#[test]
fn provisioning_happens_once_however_often_the_scene_is_rebuilt() {
    let mut runtime = SceneRuntime::startup(640, 480, 60).ok().unwrap();
    let target = runtime.capture_target();
    let handle = runtime.controller().target();
    let mut respawns = 0;
    for _ in 0..1000 {
        if runtime.fixed_update(1) == TickOutcome::Respawned {
            respawns += 1;
        }
        assert_eq!(runtime.assets().len(), 1);
        assert_eq!(runtime.controller().target(), handle);
        assert_eq!(runtime.capture_target(), target);
    }
    assert_eq!(respawns, 5);
    assert!(runtime.controller().entity(SceneRole::CaptureCamera).is_some());
}
