//! The surface that frames are presented on.

use vstd::prelude::*;
use crate::error::RenderError;
use crate::gpu::{PixelFormat, PresentMode};
use crate::scene::Scene;

verus! {

/// The size and the layout of the images of the presentable chain.
#[derive(Clone, Copy, Debug, PartialEq, Eq, Structural)]
pub struct SurfaceConfig {
    pub width: u32,
    pub height: u32,
    pub pixel_format: PixelFormat,
    pub present_mode: PresentMode,
}

impl SurfaceConfig {
    /// The surface has a width and a height.
    pub open spec fn wf(self) -> bool {
        self.width > 0 && self.height > 0
    }

    /// The configuration of a surface of `width` by `height` pixels of
    /// gamma encoded blue, green, red and alpha. A surface without
    /// width or height is refused.
    pub fn new(width: u32, height: u32, present_mode: PresentMode) -> (r: Result<
        SurfaceConfig,
        RenderError,
    >)
        ensures
            width > 0 && height > 0 ==> r == Ok::<SurfaceConfig, RenderError>(
                SurfaceConfig {
                    width,
                    height,
                    pixel_format: PixelFormat::Bgra8UnormSrgb,
                    present_mode,
                },
            ),
            width == 0 || height == 0 ==> r == Err::<SurfaceConfig, RenderError>(
                RenderError::EmptySurface,
            ),
    {
        if width == 0 || height == 0 {
            Err(RenderError::EmptySurface)
        } else {
            Ok(SurfaceConfig { width, height, pixel_format: PixelFormat::Bgra8UnormSrgb, present_mode })
        }
    }

    /// The same surface at another size.
    pub open spec fn sized(self, width: u32, height: u32) -> SurfaceConfig {
        SurfaceConfig { width, height, ..self }
    }

    /// Whether a surface of `width` by `height` has the aspect ratio of
    /// this one: the two ratios are equal as fractions.
    pub open spec fn same_aspect(self, width: u32, height: u32) -> bool {
        self.width * height == width * self.height
    }

    /// Tells whether a surface of `width` by `height` has the aspect ratio
    /// of this one.
    pub fn has_aspect(&self, width: u32, height: u32) -> (same: bool)
        ensures
            same == self.same_aspect(width, height),
    {
        assert(self.width * height <= 0xffff_ffff * 0xffff_ffff && width * self.height
            <= 0xffff_ffff * 0xffff_ffff) by (nonlinear_arith)
            requires
                0 <= self.width <= 0xffff_ffff,
                0 <= self.height <= 0xffff_ffff,
                0 <= width <= 0xffff_ffff,
                0 <= height <= 0xffff_ffff,
        ;
        let ours: u64 = self.width as u64 * height as u64;
        let theirs: u64 = width as u64 * self.height as u64;
        ours == theirs
    }
}

/// The owner of the surface configuration.
#[derive(Clone, Copy, Debug, PartialEq, Eq, Structural)]
pub struct SurfacePresenter {
    pub config: SurfaceConfig,
}

impl SurfacePresenter {
    /// The presenter of a surface that has a width and a height.
    pub fn new(config: SurfaceConfig) -> (r: Result<SurfacePresenter, RenderError>)
        ensures
            config.wf() ==> r == Ok::<SurfacePresenter, RenderError>(SurfacePresenter { config }),
            !config.wf() ==> r == Err::<SurfacePresenter, RenderError>(RenderError::EmptySurface),
    {
        if config.width == 0 || config.height == 0 {
            Err(RenderError::EmptySurface)
        } else {
            Ok(SurfacePresenter { config })
        }
    }

    /// The presenter after a resize to `width` by `height`.
    pub open spec fn resized(self, width: u32, height: u32) -> SurfacePresenter {
        if width == 0 || height == 0 {
            self
        } else {
            SurfacePresenter { config: self.config.sized(width, height) }
        }
    }

    /// Takes the surface to `width` by `height`, and the depth buffer and
    /// the auxiliary target of `scene` with it. A size without width or
    /// height is refused and changes nothing. `Ok(true)` says that the
    /// size is another than before: then the presentable chain and the two
    /// textures are to be created anew, and the transform to be written
    /// for the new aspect ratio, before the next image is acquired. With
    /// the size it already has, nothing changes.
    pub fn resize(&mut self, scene: &mut Scene, width: u32, height: u32) -> (r: Result<
        bool,
        RenderError,
    >)
        ensures
            *final(self) == old(self).resized(width, height),
            *final(scene) == old(scene).resized(width, height),
            width == 0 || height == 0 ==> r == Err::<bool, RenderError>(RenderError::EmptySurface),
            width > 0 && height > 0 ==> r == Ok::<bool, RenderError>(
                width != old(self).config.width || height != old(self).config.height,
            ),
    {
        if width == 0 || height == 0 {
            return Err(RenderError::EmptySurface);
        }
        let changed = width != self.config.width || height != self.config.height;
        self.config.width = width;
        self.config.height = height;
        scene.resize(width, height);
        Ok(changed)
    }
}

} // verus!
