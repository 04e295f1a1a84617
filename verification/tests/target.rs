use scene_cycle::target::{
    AssetTable, CaptureTarget, CaptureTargetHandle, PixelFormat, ProvisionError, TargetUsages,
};

fn expected(width: u32, height: u32) -> CaptureTarget {
    CaptureTarget {
        width,
        height,
        format: PixelFormat::Rgba8UnormSrgb,
        usages: TargetUsages {
            shader_sampling: true,
            copy_source: true,
            copy_destination: true,
            render_attachment: true,
        },
        mip_level_count: 1,
        sample_count: 1,
    }
}

#[test]
fn target_is_sized_to_the_surface() {
    assert_eq!(CaptureTarget::for_surface(1280, 720), Ok(expected(1280, 720)));
    assert_eq!(CaptureTarget::for_surface(1, 1), Ok(expected(1, 1)));
    assert_eq!(
        CaptureTarget::for_surface(u32::MAX, u32::MAX),
        Ok(expected(u32::MAX, u32::MAX))
    );
}

#[test]
fn target_has_all_four_usages() {
    let target = CaptureTarget::for_surface(640, 480).unwrap();
    assert!(target.usages.shader_sampling);
    assert!(target.usages.copy_source);
    assert!(target.usages.copy_destination);
    assert!(target.usages.render_attachment);
}

#[test]
fn surface_without_pixels_is_refused() {
    assert_eq!(
        CaptureTarget::for_surface(0, 720),
        Err(ProvisionError::NoDisplaySurface)
    );
    assert_eq!(
        CaptureTarget::for_surface(1280, 0),
        Err(ProvisionError::NoDisplaySurface)
    );
    assert_eq!(
        CaptureTarget::for_surface(0, 0),
        Err(ProvisionError::NoDisplaySurface)
    );
}

#[test]
fn new_table_is_empty() {
    let table = AssetTable::new();
    assert_eq!(table.len(), 0);
    assert_eq!(table.get(CaptureTargetHandle { index: 0 }), None);
}

#[test]
fn provisioning_registers_the_target_and_returns_its_handle() {
    let mut table = AssetTable::new();
    let handle = table.provision(1280, 720).unwrap();
    assert_eq!(handle, CaptureTargetHandle { index: 0 });
    assert_eq!(table.len(), 1);
    assert_eq!(table.get(handle), Some(expected(1280, 720)));
}

#[test]
fn earlier_handles_stay_valid_when_more_is_provisioned() {
    let mut table = AssetTable::new();
    let first = table.provision(1280, 720).unwrap();
    let second = table.provision(800, 600).unwrap();
    assert_eq!(second, CaptureTargetHandle { index: 1 });
    assert_eq!(table.len(), 2);
    assert_eq!(table.get(first), Some(expected(1280, 720)));
    assert_eq!(table.get(second), Some(expected(800, 600)));
}

#[test]
fn failed_provisioning_leaves_the_table_unchanged() {
    let mut table = AssetTable::new();
    let handle = table.provision(1280, 720).unwrap();
    assert_eq!(table.provision(0, 600), Err(ProvisionError::NoDisplaySurface));
    assert_eq!(table.provision(800, 0), Err(ProvisionError::NoDisplaySurface));
    assert_eq!(table.len(), 1);
    assert_eq!(table.get(handle), Some(expected(1280, 720)));
}

#[test]
fn handle_past_the_end_names_nothing() {
    let mut table = AssetTable::new();
    table.provision(1280, 720).unwrap();
    assert_eq!(table.get(CaptureTargetHandle { index: 1 }), None);
    assert_eq!(table.get(CaptureTargetHandle { index: usize::MAX }), None);
}
