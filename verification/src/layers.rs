//! Render-layer labels and the label sets that cameras and renderables carry.
//!
//! A label set is bevy's [`RenderLayers`]. Verus cannot look inside one, so the
//! set of labels that a value holds is given a name, [`layer_set`], and the few
//! operations the scene needs are specified over that name.

use bevy::render::view::RenderLayers;
use vstd::prelude::*;

verus! {

/// Label of everything that the display camera shows.
pub const RENDER_LAYER_PRIMARY: usize = 0;

/// Label of what the capture camera records as well.
pub const RENDER_LAYER_SELECTION: usize = 1;

/// Labels below this bound fit in the inline block of a [`RenderLayers`].
pub const INLINE_LAYERS: usize = 64;

/// bevy's `RenderLayers`, carried as a value that Verus does not look into.
#[verifier::external_type_specification]
#[verifier::external_body]
pub struct ExRenderLayers(RenderLayers);

/// The labels that a [`RenderLayers`] value holds.
pub uninterp spec fn layer_set(layers: RenderLayers) -> Set<nat>;

/// `RenderLayers::layer` builds the set that holds `n` and nothing else. It
/// asserts that `n` lies in the inline block, so larger labels are left out.
pub assume_specification[ RenderLayers::layer ](n: usize) -> (layers: RenderLayers)
    requires
        n < INLINE_LAYERS,
    ensures
        layer_set(layers) == set![n as nat],
;

/// `RenderLayers::with` sets the bit of `layer` and keeps every other bit. It
/// grows the block list up to the block of `layer`; labels of the inline block
/// need no allocation, and only those are admitted here.
pub assume_specification[ RenderLayers::with ](layers: RenderLayers, layer: usize) -> (grown:
    RenderLayers)
    requires
        layer < INLINE_LAYERS,
    ensures
        layer_set(grown) == layer_set(layers).insert(layer as nat),
;

/// `RenderLayers::intersects` tells whether the two sets share a label. It
/// answers `true` at once when both arguments are the same object, which is
/// wrong for the empty set only; so one of the two has to hold a label.
pub assume_specification[ RenderLayers::intersects ](
    layers: &RenderLayers,
    other: &RenderLayers,
) -> (shared: bool)
    requires
        layer_set(*layers) != Set::<nat>::empty() || layer_set(*other) != Set::<nat>::empty(),
    ensures
        shared == !layer_set(*layers).disjoint(layer_set(*other)),
;

/// The label set `{PRIMARY}`.
pub open spec fn primary_only() -> Set<nat> {
    set![RENDER_LAYER_PRIMARY as nat]
}

/// The label set `{SELECTION}`.
pub open spec fn selection_only() -> Set<nat> {
    set![RENDER_LAYER_SELECTION as nat]
}

/// The label set `{PRIMARY, SELECTION}`.
pub open spec fn primary_and_selection() -> Set<nat> {
    set![RENDER_LAYER_PRIMARY as nat, RENDER_LAYER_SELECTION as nat]
}

} // verus!
