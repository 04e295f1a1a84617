use bevy::render::view::RenderLayers;
use scene_cycle::layers::{RENDER_LAYER_PRIMARY, RENDER_LAYER_SELECTION};
use scene_cycle::scene::SceneRole;

fn labels(layers: &RenderLayers) -> Vec<usize> {
    layers.iter().collect()
}

#[test]
fn layer_labels_are_zero_and_one() {
    assert_eq!(RENDER_LAYER_PRIMARY, 0);
    assert_eq!(RENDER_LAYER_SELECTION, 1);
}

#[test]
fn capture_camera_is_labelled_selection_only() {
    assert_eq!(labels(&SceneRole::CaptureCamera.layers()), vec![1]);
}

#[test]
fn right_sprite_is_labelled_primary_and_selection() {
    assert_eq!(labels(&SceneRole::RightSprite.layers()), vec![0, 1]);
}

#[test]
fn every_other_role_is_labelled_primary_only() {
    for role in [
        SceneRole::DisplayCamera,
        SceneRole::LeftSprite,
        SceneRole::CapturePreview,
        SceneRole::Caption,
    ] {
        assert_eq!(labels(&role.layers()), vec![RENDER_LAYER_PRIMARY]);
    }
}

#[test]
fn left_sprite_and_capture_camera_share_no_label() {
    let sprite = SceneRole::LeftSprite.layers();
    let camera = SceneRole::CaptureCamera.layers();
    assert_eq!(sprite.intersection(&camera), RenderLayers::none());
    assert!(!camera.intersects(&sprite));
}

#[test]
fn right_sprite_and_capture_camera_share_selection_only() {
    let sprite = SceneRole::RightSprite.layers();
    let camera = SceneRole::CaptureCamera.layers();
    assert_eq!(
        labels(&sprite.intersection(&camera)),
        vec![RENDER_LAYER_SELECTION]
    );
    assert!(camera.intersects(&sprite));
}
