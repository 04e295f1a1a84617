//! The off-screen capture target and the table it is registered in.
//!
//! Provisioning decides what the target looks like: its size is the size of
//! the display surface, its format and usages are fixed. The table hands out
//! handles that stay valid for as long as the table lives, because nothing is
//! ever removed from it.

use vstd::prelude::*;

verus! {

/// Pixel layout of a capture target.
#[derive(Clone, Copy, Debug, PartialEq, Eq, Structural)]
pub enum PixelFormat {
    /// Four channels of eight bits each, colour channels gamma-encoded.
    Rgba8UnormSrgb,
}

/// What a texture may be used for.
#[derive(Clone, Copy, Debug, PartialEq, Eq, Structural)]
pub struct TargetUsages {
    /// A shader may sample it.
    pub shader_sampling: bool,
    /// It may be the source of a copy.
    pub copy_source: bool,
    /// It may be the destination of a copy.
    pub copy_destination: bool,
    /// A camera may render into it.
    pub render_attachment: bool,
}

/// Description of an off-screen two-dimensional pixel buffer.
#[derive(Clone, Copy, Debug, PartialEq, Eq, Structural)]
pub struct CaptureTarget {
    /// Width in pixels.
    pub width: u32,
    /// Height in pixels.
    pub height: u32,
    /// Pixel layout.
    pub format: PixelFormat,
    /// Permitted usages.
    pub usages: TargetUsages,
    /// Number of mip levels.
    pub mip_level_count: u32,
    /// Samples per pixel.
    pub sample_count: u32,
}

/// Stable reference to a registered capture target.
#[derive(Clone, Copy, Debug, PartialEq, Eq, Structural)]
pub struct CaptureTargetHandle {
    /// Position of the target in its table.
    pub index: usize,
}

/// Why provisioning did not produce a target.
#[derive(Clone, Copy, Debug, PartialEq, Eq, Structural)]
pub enum ProvisionError {
    /// The display surface has no pixels, so there is nothing to size the target to.
    NoDisplaySurface,
}

/// The usages a capture target needs: a camera writes it and a preview
/// samples it in the same frame, and it may take part in copies.
pub open spec fn capture_usages() -> TargetUsages {
    TargetUsages {
        shader_sampling: true,
        copy_source: true,
        copy_destination: true,
        render_attachment: true,
    }
}

/// The capture target for a display surface of the given size.
pub open spec fn capture_target_for(surface_width: u32, surface_height: u32) -> CaptureTarget {
    CaptureTarget {
        width: surface_width,
        height: surface_height,
        format: PixelFormat::Rgba8UnormSrgb,
        usages: capture_usages(),
        mip_level_count: 1,
        sample_count: 1,
    }
}

/// A display surface can back a capture target when it has at least one pixel.
pub open spec fn surface_exists(surface_width: u32, surface_height: u32) -> bool {
    surface_width > 0 && surface_height > 0
}

impl CaptureTarget {
    /// Describes the capture target for a display surface of the given size.
    ///
    /// Fails exactly when the surface has no pixels.
    pub fn for_surface(surface_width: u32, surface_height: u32) -> (made: Result<
        CaptureTarget,
        ProvisionError,
    >)
        ensures
            surface_exists(surface_width, surface_height) ==> made == Ok::<
                CaptureTarget,
                ProvisionError,
            >(capture_target_for(surface_width, surface_height)),
            !surface_exists(surface_width, surface_height) ==> made == Err::<
                CaptureTarget,
                ProvisionError,
            >(ProvisionError::NoDisplaySurface),
    {
        if surface_width == 0 || surface_height == 0 {
            return Err(ProvisionError::NoDisplaySurface);
        }
        Ok(
            CaptureTarget {
                width: surface_width,
                height: surface_height,
                format: PixelFormat::Rgba8UnormSrgb,
                usages: TargetUsages {
                    shader_sampling: true,
                    copy_source: true,
                    copy_destination: true,
                    render_attachment: true,
                },
                mip_level_count: 1,
                sample_count: 1,
            },
        )
    }
}

/// The table that capture targets are registered in. Entries are only ever
/// added, so a handle stays valid once it has been handed out.
pub struct AssetTable {
    targets: Vec<CaptureTarget>,
}

impl View for AssetTable {
    type V = Seq<CaptureTarget>;

    closed spec fn view(&self) -> Seq<CaptureTarget> {
        self.targets@
    }
}

impl AssetTable {
    /// Whether `handle` refers to an entry of this table.
    pub open spec fn holds(&self, handle: CaptureTargetHandle) -> bool {
        handle.index < self@.len()
    }

    /// A table without entries.
    pub fn new() -> (table: AssetTable)
        ensures
            table@ == Seq::<CaptureTarget>::empty(),
    {
        AssetTable { targets: Vec::new() }
    }

    /// Number of registered targets.
    pub fn len(&self) -> (count: usize)
        ensures
            count == self@.len(),
    {
        self.targets.len()
    }

    /// The target that `handle` refers to, if it refers to one.
    pub fn get(&self, handle: CaptureTargetHandle) -> (found: Option<CaptureTarget>)
        ensures
            self.holds(handle) ==> found == Some(self@[handle.index as int]),
            !self.holds(handle) ==> found.is_none(),
    {
        if handle.index < self.targets.len() {
            Some(self.targets[handle.index])
        } else {
            None
        }
    }

    /// Sizes a capture target to the display surface, registers it, and
    /// returns its handle.
    ///
    /// Succeeds exactly when the surface has pixels; the new entry goes to the
    /// end of the table and every earlier entry stays where it was. On failure
    /// the table is unchanged.
    pub fn provision(&mut self, surface_width: u32, surface_height: u32) -> (made: Result<
        CaptureTargetHandle,
        ProvisionError,
    >)
        ensures
            surface_exists(surface_width, surface_height) ==> {
                &&& made == Ok::<CaptureTargetHandle, ProvisionError>(
                    CaptureTargetHandle { index: old(self)@.len() as usize },
                )
                &&& final(self)@ == old(self)@.push(
                    capture_target_for(surface_width, surface_height),
                )
            },
            !surface_exists(surface_width, surface_height) ==> {
                &&& made == Err::<CaptureTargetHandle, ProvisionError>(
                    ProvisionError::NoDisplaySurface,
                )
                &&& final(self)@ == old(self)@
            },
    {
        match CaptureTarget::for_surface(surface_width, surface_height) {
            Ok(target) => {
                let index = self.targets.len();
                self.targets.push(target);
                Ok(CaptureTargetHandle { index })
            },
            Err(error) => Err(error),
        }
    }
}

} // verus!
