//! The entities of one scene generation.
//!
//! A generation is always the same six entities: the display camera, the
//! capture camera, the two sprites, the preview of the capture target, and
//! the caption. What each of them is, where it sits and which labels it
//! carries depends on its role alone; only the generation number and the
//! capture target change from one build to the next.

use crate::layers::{
    layer_set, primary_and_selection, primary_only, selection_only, RENDER_LAYER_PRIMARY,
    RENDER_LAYER_SELECTION,
};
use crate::target::CaptureTargetHandle;
use bevy::render::view::RenderLayers;
use vstd::prelude::*;

verus! {

/// Number of entities in a generation.
pub const SCENE_ENTITY_COUNT: usize = 6;

/// Horizontal offset of the left sprite from the scene origin.
pub const LEFT_SPRITE_OFFSET: i32 = -200;

/// Horizontal offset of the right sprite from the scene origin.
pub const RIGHT_SPRITE_OFFSET: i32 = 200;

/// Width of the preview rectangle, in pixels.
pub const PREVIEW_WIDTH: u32 = 480;

/// Height of the preview rectangle, in pixels.
pub const PREVIEW_HEIGHT: u32 = 270;

/// Distance of the preview rectangle from the right and bottom edges, in pixels.
pub const PREVIEW_MARGIN: u32 = 50;

/// Distance of the caption from the right and bottom edges, in pixels.
pub const CAPTION_MARGIN: u32 = 5;

/// Font size of the caption.
pub const CAPTION_FONT_SIZE: u32 = 14;

/// Draw-order key of the display camera.
pub const DISPLAY_CAMERA_ORDER: isize = 0;

/// Draw-order key of the capture camera. It is drawn first, because the
/// display camera's frame shows what it captured.
pub const CAPTURE_CAMERA_ORDER: isize = -1;

/// Asset path of the image that both sprites show.
pub const SPRITE_IMAGE_PATH: &'static str = "branding/bevy_bird_dark.png";

/// Asset path of the caption's font.
pub const CAPTION_FONT_PATH: &'static str = "fonts/FiraSans-Bold.ttf";

/// What the caption says.
pub const CAPTION_TEXT: &'static str =
    "the left bird should never be visible in the lower right camera's view!\n it is on a different render layer";

/// Handle of an entity. It names a place in one generation and is dead as
/// soon as that generation is torn down.
#[derive(Clone, Copy, Debug, PartialEq, Eq, Structural)]
pub struct EntityId {
    /// The generation the entity belongs to.
    pub generation: u64,
    /// Its place among the entities of that generation.
    pub index: usize,
}

/// The part an entity plays in the scene.
#[derive(Clone, Copy, Debug, PartialEq, Eq, Structural)]
pub enum SceneRole {
    /// The camera that draws to the visible surface.
    DisplayCamera,
    /// The camera that draws into the capture target.
    CaptureCamera,
    /// The sprite left of the origin, which only the display camera shows.
    LeftSprite,
    /// The sprite right of the origin, which both cameras show.
    RightSprite,
    /// The rectangle in the corner that shows the capture target.
    CapturePreview,
    /// The line of text that says what to expect.
    Caption,
}

/// Where a camera draws to.
#[derive(Clone, Copy, Debug, PartialEq, Eq, Structural)]
pub enum RenderDestination {
    /// The visible surface.
    Surface,
    /// An off-screen capture target.
    Capture(CaptureTargetHandle),
}

/// A colour of four eight-bit channels.
#[derive(Clone, Copy, Debug, PartialEq, Eq, Structural)]
pub struct Rgba8 {
    /// Red.
    pub red: u8,
    /// Green.
    pub green: u8,
    /// Blue.
    pub blue: u8,
    /// Opacity.
    pub alpha: u8,
}

/// What a camera does to its destination before it draws.
#[derive(Clone, Copy, Debug, PartialEq, Eq, Structural)]
pub enum ClearBehavior {
    /// Whatever the engine does by default.
    EngineDefault,
    /// Fill it with one colour.
    Solid(Rgba8),
}

/// How a camera is set up.
#[derive(Clone, Copy, Debug, PartialEq, Eq, Structural)]
pub struct CameraSettings {
    /// Draw-order key: cameras with smaller keys draw first.
    pub order: isize,
    /// Whether the camera draws at all.
    pub active: bool,
    /// Where it draws to.
    pub destination: RenderDestination,
    /// What it does to the destination first.
    pub clear: ClearBehavior,
}

/// What an entity is, apart from its labels.
#[derive(Clone, Copy, Debug, PartialEq, Eq, Structural)]
pub enum EntityBody {
    /// A camera.
    Camera(CameraSettings),
    /// A sprite at an offset from the scene origin.
    Sprite {
        /// Horizontal offset.
        offset_x: i32,
        /// Vertical offset.
        offset_y: i32,
    },
    /// A rectangle that samples a capture target, at a fixed distance from
    /// the right and bottom edges of the viewport.
    Preview {
        /// The target it samples.
        image: CaptureTargetHandle,
        /// Width in pixels.
        width: u32,
        /// Height in pixels.
        height: u32,
        /// Distance from the right edge, in pixels.
        right: u32,
        /// Distance from the bottom edge, in pixels.
        bottom: u32,
    },
    /// A line of text at a fixed distance from the right and bottom edges of
    /// the viewport.
    Caption {
        /// Font size.
        font_size: u32,
        /// Distance from the right edge, in pixels.
        right: u32,
        /// Distance from the bottom edge, in pixels.
        bottom: u32,
    },
}

/// Opaque black.
pub open spec fn opaque_black() -> Rgba8 {
    Rgba8 { red: 0, green: 0, blue: 0, alpha: 255 }
}

/// The place of a role among the entities of a generation.
pub open spec fn role_index(role: SceneRole) -> nat {
    match role {
        SceneRole::DisplayCamera => 0,
        SceneRole::CaptureCamera => 1,
        SceneRole::LeftSprite => 2,
        SceneRole::RightSprite => 3,
        SceneRole::CapturePreview => 4,
        SceneRole::Caption => 5,
    }
}

/// The labels of a role. The capture camera looks at `SELECTION` alone, and
/// of all the entities only the right sprite carries that label.
pub open spec fn role_layers(role: SceneRole) -> Set<nat> {
    match role {
        SceneRole::CaptureCamera => selection_only(),
        SceneRole::RightSprite => primary_and_selection(),
        _ => primary_only(),
    }
}

/// What an entity of a role is, given the capture target of the scene.
pub open spec fn role_body(role: SceneRole, target: CaptureTargetHandle) -> EntityBody {
    match role {
        SceneRole::DisplayCamera => EntityBody::Camera(
            CameraSettings {
                order: DISPLAY_CAMERA_ORDER,
                active: true,
                destination: RenderDestination::Surface,
                clear: ClearBehavior::EngineDefault,
            },
        ),
        SceneRole::CaptureCamera => EntityBody::Camera(
            CameraSettings {
                order: CAPTURE_CAMERA_ORDER,
                active: true,
                destination: RenderDestination::Capture(target),
                clear: ClearBehavior::Solid(opaque_black()),
            },
        ),
        SceneRole::LeftSprite => EntityBody::Sprite { offset_x: LEFT_SPRITE_OFFSET, offset_y: 0 },
        SceneRole::RightSprite => EntityBody::Sprite { offset_x: RIGHT_SPRITE_OFFSET, offset_y: 0 },
        SceneRole::CapturePreview => EntityBody::Preview {
            image: target,
            width: PREVIEW_WIDTH,
            height: PREVIEW_HEIGHT,
            right: PREVIEW_MARGIN,
            bottom: PREVIEW_MARGIN,
        },
        SceneRole::Caption => EntityBody::Caption {
            font_size: CAPTION_FONT_SIZE,
            right: CAPTION_MARGIN,
            bottom: CAPTION_MARGIN,
        },
    }
}

/// An entity as plain values: its handle, its role, its labels and its body.
pub struct EntityModel {
    /// The generation it belongs to.
    pub generation: nat,
    /// Its place in the generation.
    pub index: nat,
    /// Its role.
    pub role: SceneRole,
    /// Its labels.
    pub layers: Set<nat>,
    /// What it is.
    pub body: EntityBody,
}

/// The entity of a role in a generation.
pub open spec fn entity_model(
    role: SceneRole,
    generation: nat,
    target: CaptureTargetHandle,
) -> EntityModel {
    EntityModel {
        generation,
        index: role_index(role),
        role,
        layers: role_layers(role),
        body: role_body(role, target),
    }
}

/// The entities of a generation, in the order in which they are made.
pub open spec fn scene_generation(generation: nat, target: CaptureTargetHandle) -> Seq<
    EntityModel,
> {
    seq![
        entity_model(SceneRole::DisplayCamera, generation, target),
        entity_model(SceneRole::CaptureCamera, generation, target),
        entity_model(SceneRole::LeftSprite, generation, target),
        entity_model(SceneRole::RightSprite, generation, target),
        entity_model(SceneRole::CapturePreview, generation, target),
        entity_model(SceneRole::Caption, generation, target),
    ]
}

/// A camera observes an entity that is no camera itself when the two share a label.
pub open spec fn observes(camera: EntityModel, subject: EntityModel) -> bool {
    &&& camera.body is Camera
    &&& !(subject.body is Camera)
    &&& !camera.layers.disjoint(subject.layers)
}

impl SceneRole {
    /// The place of this role among the entities of a generation.
    pub fn index(self) -> (index: usize)
        ensures
            index == role_index(self),
    {
        match self {
            SceneRole::DisplayCamera => 0,
            SceneRole::CaptureCamera => 1,
            SceneRole::LeftSprite => 2,
            SceneRole::RightSprite => 3,
            SceneRole::CapturePreview => 4,
            SceneRole::Caption => 5,
        }
    }

    /// Builds the label set of this role.
    pub fn layers(self) -> (layers: RenderLayers)
        ensures
            layer_set(layers) == role_layers(self),
    {
        match self {
            SceneRole::CaptureCamera => RenderLayers::layer(RENDER_LAYER_SELECTION),
            SceneRole::RightSprite => RenderLayers::layer(RENDER_LAYER_PRIMARY).with(
                RENDER_LAYER_SELECTION,
            ),
            _ => RenderLayers::layer(RENDER_LAYER_PRIMARY),
        }
    }

    /// What an entity of this role is, given the capture target of the scene.
    pub fn body(self, target: CaptureTargetHandle) -> (body: EntityBody)
        ensures
            body == role_body(self, target),
    {
        match self {
            SceneRole::DisplayCamera => EntityBody::Camera(
                CameraSettings {
                    order: DISPLAY_CAMERA_ORDER,
                    active: true,
                    destination: RenderDestination::Surface,
                    clear: ClearBehavior::EngineDefault,
                },
            ),
            SceneRole::CaptureCamera => EntityBody::Camera(
                CameraSettings {
                    order: CAPTURE_CAMERA_ORDER,
                    active: true,
                    destination: RenderDestination::Capture(target),
                    clear: ClearBehavior::Solid(Rgba8 { red: 0, green: 0, blue: 0, alpha: 255 }),
                },
            ),
            SceneRole::LeftSprite => EntityBody::Sprite {
                offset_x: LEFT_SPRITE_OFFSET,
                offset_y: 0,
            },
            SceneRole::RightSprite => EntityBody::Sprite {
                offset_x: RIGHT_SPRITE_OFFSET,
                offset_y: 0,
            },
            SceneRole::CapturePreview => EntityBody::Preview {
                image: target,
                width: PREVIEW_WIDTH,
                height: PREVIEW_HEIGHT,
                right: PREVIEW_MARGIN,
                bottom: PREVIEW_MARGIN,
            },
            SceneRole::Caption => EntityBody::Caption {
                font_size: CAPTION_FONT_SIZE,
                right: CAPTION_MARGIN,
                bottom: CAPTION_MARGIN,
            },
        }
    }
}

impl EntityBody {
    /// Whether this is a camera.
    pub fn is_camera(&self) -> (camera: bool)
        ensures
            camera == (*self is Camera),
    {
        match self {
            EntityBody::Camera(_) => true,
            _ => false,
        }
    }
}

/// One entity of the scene.
pub struct SceneEntity {
    id: EntityId,
    role: SceneRole,
    layers: RenderLayers,
    body: EntityBody,
}

impl View for SceneEntity {
    type V = EntityModel;

    closed spec fn view(&self) -> EntityModel {
        EntityModel {
            generation: self.id.generation as nat,
            index: self.id.index as nat,
            role: self.role,
            layers: layer_set(self.layers),
            body: self.body,
        }
    }
}

impl SceneEntity {
    /// An entity carries the labels of its role.
    pub open spec fn wf(&self) -> bool {
        self@.layers == role_layers(self@.role)
    }

    /// Makes the entity of `role` for `generation`.
    pub fn new(role: SceneRole, generation: u64, target: CaptureTargetHandle) -> (entity:
        SceneEntity)
        ensures
            entity@ == entity_model(role, generation as nat, target),
            entity.wf(),
    {
        SceneEntity {
            id: EntityId { generation, index: role.index() },
            role,
            layers: role.layers(),
            body: role.body(target),
        }
    }

    /// The handle of this entity.
    pub fn id(&self) -> (id: EntityId)
        ensures
            id.generation == self@.generation,
            id.index == self@.index,
    {
        self.id
    }

    /// The role of this entity.
    pub fn role(&self) -> (role: SceneRole)
        ensures
            role == self@.role,
    {
        self.role
    }

    /// The labels of this entity.
    pub fn layers(&self) -> (layers: &RenderLayers)
        ensures
            layer_set(*layers) == self@.layers,
    {
        &self.layers
    }

    /// What this entity is.
    pub fn body(&self) -> (body: EntityBody)
        ensures
            body == self@.body,
    {
        self.body
    }

    /// Whether this entity is a camera that observes `subject`.
    pub fn observes(&self, subject: &SceneEntity) -> (seen: bool)
        requires
            self.wf(),
            subject.wf(),
        ensures
            seen == observes(self@, subject@),
    {
        if !self.body.is_camera() || subject.body.is_camera() {
            return false;
        }
        proof {
            lemma_role_has_a_label(self.role);
        }
        self.layers.intersects(&subject.layers)
    }
}

/// A generation holds one entity for each role, at the place of that role,
/// and every entity in it carries the labels of its role.
pub proof fn lemma_generation_holds_every_role(generation: nat, target: CaptureTargetHandle)
    ensures
        scene_generation(generation, target).len() == SCENE_ENTITY_COUNT,
        forall|role: SceneRole|
            #![trigger role_index(role)]
            scene_generation(generation, target)[role_index(role) as int] == entity_model(
                role,
                generation,
                target,
            ),
        forall|i: int|
            #![trigger scene_generation(generation, target)[i]]
            0 <= i < SCENE_ENTITY_COUNT ==> {
                let entity = scene_generation(generation, target)[i];
                &&& entity.generation == generation
                &&& entity.index == i
                &&& role_index(entity.role) == i
                &&& entity.layers == role_layers(entity.role)
                &&& entity.body == role_body(entity.role, target)
            },
{
}

/// Every role carries at least one label.
pub proof fn lemma_role_has_a_label(role: SceneRole)
    ensures
        role_layers(role) != Set::<nat>::empty(),
{
    assert(role_layers(role).contains(RENDER_LAYER_PRIMARY as nat) || role_layers(role).contains(
        RENDER_LAYER_SELECTION as nat,
    ));
}

} // verus!
