//! What stops the renderer.

use vstd::prelude::*;

verus! {

/// A condition under which nothing is handed to the device.
#[derive(Clone, Copy, Debug, PartialEq, Eq, Structural)]
pub enum RenderError {
    /// The surface has no width or no height.
    EmptySurface,
    /// The mesh has no vertex.
    EmptyMesh,
    /// The mesh has more vertices than one draw call can cover.
    MeshTooLarge,
    /// The depth buffer or the auxiliary target has not the size of the
    /// surface, or the pipeline not its pixel format.
    TargetMismatch,
    /// No image could be acquired from the presentable chain.
    AcquireTimeout,
}

impl RenderError {
    /// The stage that failed, in words.
    pub fn describe(&self) -> (text: &'static str)
        ensures
            text@ == match *self {
                RenderError::EmptySurface => "surface: width and height must not be zero"@,
                RenderError::EmptyMesh => "mesh: no vertices to draw"@,
                RenderError::MeshTooLarge => "mesh: too many vertices for one draw call"@,
                RenderError::TargetMismatch => "render targets: not made for this surface"@,
                RenderError::AcquireTimeout => "presentable chain: timeout when acquiring the next image"@,
            },
    {
        match self {
            RenderError::EmptySurface => "surface: width and height must not be zero",
            RenderError::EmptyMesh => "mesh: no vertices to draw",
            RenderError::MeshTooLarge => "mesh: too many vertices for one draw call",
            RenderError::TargetMismatch => "render targets: not made for this surface",
            RenderError::AcquireTimeout => "presentable chain: timeout when acquiring the next image",
        }
    }
}

} // verus!
