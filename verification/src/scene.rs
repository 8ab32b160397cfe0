//! Everything that the device holds for the sphere, and the pass that
//! draws it.

use vstd::prelude::*;
use crate::error::RenderError;
use crate::gpu::{
    Attribute, Blend, BufferCopy, BufferDesc, BufferUsage, Color, Compare, CullMode, FrontFace,
    PipelineDesc, PixelFormat, RenderPass, ShaderStage, TextureDesc, Topology, UniformBinding,
    DOUBLE_ONE, SINGLE_ONE, white,
};
use crate::pod::{Pod, encoding_of_all};
use crate::surface::SurfaceConfig;
use crate::transform::{Transform, TRANSFORM_SIZE};
use crate::vertex::{Vertex, VERTEX_SIZE, POSITION_OFFSET, NORMAL_OFFSET};

verus! {

/// The number of instances that the sphere is drawn in unless told
/// otherwise.
pub const DEFAULT_INSTANCES: u32 = 10_000;

/// One drawable object: its buffers, the binding of its own binding
/// group where it has one, the state it is drawn with and the number of
/// its vertices.
#[derive(Clone, Copy, Debug, PartialEq, Eq)]
pub struct Entity {
    pub vertex_buffer: BufferDesc,
    pub index_buffer: Option<BufferDesc>,
    pub bind_group: Option<UniformBinding>,
    pub render_pipeline: PipelineDesc,
    pub vertex_num: u32,
}

/// The resources of the renderer.
#[derive(Clone, Copy, Debug, PartialEq, Eq)]
pub struct Scene {
    /// The binding that shows the transform to the vertex program.
    pub global_binding: UniformBinding,
    /// The buffer that holds the transform.
    pub uniform_buffer: BufferDesc,
    /// The auxiliary target for normals.
    pub normals_fbo: TextureDesc,
    /// The depth buffer.
    pub depth_texture: TextureDesc,
    /// The sphere.
    pub icosphere: Entity,
    /// The number of instances that the sphere is drawn in.
    pub instances: u32,
}

/// What is to be handed to the device before the first frame.
#[derive(Debug, PartialEq, Eq)]
pub struct Upload {
    /// The bytes of the transform, for the uniform buffer.
    pub uniform_data: Vec<u8>,
    /// The staging buffer: host visible, and the source of the copy.
    pub staging_buffer: BufferDesc,
    /// The bytes of the mesh, for the staging buffer.
    pub staging_data: Vec<u8>,
    /// The copies to record, in order: the mesh from the staging buffer
    /// to the vertex buffer.
    pub copies: Vec<BufferCopy>,
}

/// The binding of the transform: slot 0, for the vertex program.
pub open spec fn transform_binding() -> UniformBinding {
    UniformBinding { binding: 0, visibility: ShaderStage::Vertex, offset: 0, size: TRANSFORM_SIZE }
}

/// The buffer of the transform.
pub open spec fn transform_buffer() -> BufferDesc {
    BufferDesc {
        size: TRANSFORM_SIZE,
        usage: BufferUsage { vertex: false, uniform: true, copy_src: false, copy_dst: true },
    }
}

/// The device local buffer for `count` vertices.
pub open spec fn mesh_buffer(count: u32) -> BufferDesc {
    BufferDesc {
        size: (count * VERTEX_SIZE) as u64,
        usage: BufferUsage { vertex: true, uniform: false, copy_src: false, copy_dst: true },
    }
}

/// The host visible buffer from which `count` vertices are copied.
pub open spec fn staging_buffer(count: u32) -> BufferDesc {
    BufferDesc {
        size: (count * VERTEX_SIZE) as u64,
        usage: BufferUsage { vertex: false, uniform: false, copy_src: true, copy_dst: false },
    }
}

/// The copy of `count` vertices from the staging buffer to the vertex
/// buffer.
pub open spec fn mesh_copy(count: u32) -> BufferCopy {
    BufferCopy {
        source: staging_buffer(count),
        source_offset: 0,
        target: mesh_buffer(count),
        target_offset: 0,
        size: (count * VERTEX_SIZE) as u64,
    }
}

/// A render target of the size of the surface.
pub open spec fn target(width: u32, height: u32, format: PixelFormat) -> TextureDesc {
    TextureDesc { width, height, format }
}

/// The state that the sphere is drawn with: a triangle strip of
/// vertices with a position and a normal, counter-clockwise faces in
/// front, back faces culled, the nearer fragment wins and is written
/// over what was there.
pub open spec fn sphere_pipeline(color_format: PixelFormat) -> PipelineDesc {
    PipelineDesc {
        topology: Topology::TriangleStrip,
        front_face: FrontFace::Ccw,
        cull_mode: CullMode::Back,
        color_format,
        blend: Blend::Replace,
        depth_format: PixelFormat::Depth32Float,
        depth_write: true,
        depth_compare: Compare::Less,
        stride: VERTEX_SIZE as u64,
        position: Attribute { offset: POSITION_OFFSET as u64, location: 0 },
        normal: Attribute { offset: NORMAL_OFFSET as u64, location: 1 },
        uniform: transform_binding(),
    }
}

/// The scene for a surface and a mesh of `count` vertices.
pub open spec fn scene_for(config: SurfaceConfig, count: u32, instances: u32) -> Scene {
    Scene {
        global_binding: transform_binding(),
        uniform_buffer: transform_buffer(),
        normals_fbo: target(config.width, config.height, PixelFormat::Rgba32Float),
        depth_texture: target(config.width, config.height, PixelFormat::Depth32Float),
        icosphere: Entity {
            vertex_buffer: mesh_buffer(count),
            index_buffer: None,
            bind_group: None,
            render_pipeline: sphere_pipeline(config.pixel_format),
            vertex_num: count,
        },
        instances,
    }
}

/// Every vertex takes the same number of bytes, so a mesh takes that
/// number for each of its vertices.
pub proof fn lemma_mesh_encoding_len(mesh: Seq<Vertex>)
    ensures
        encoding_of_all(mesh).len() == mesh.len() * VERTEX_SIZE,
    decreases mesh.len(),
{
    if mesh.len() > 0 {
        lemma_mesh_encoding_len(mesh.drop_last());
        mesh.last().lemma_encoding_len();
    }
}

impl Scene {
    /// The depth buffer and the auxiliary target have the size of the
    /// surface, and the sphere is drawn in its pixel format.
    pub open spec fn fits(self, config: SurfaceConfig) -> bool {
        &&& self.depth_texture.width == config.width
        &&& self.depth_texture.height == config.height
        &&& self.normals_fbo.width == config.width
        &&& self.normals_fbo.height == config.height
        &&& self.icosphere.render_pipeline.color_format == config.pixel_format
    }

    /// Describes every resource of the renderer for a surface, a mesh and
    /// a transform, and what is to be uploaded before the first frame.
    /// Nothing is described for a surface without width or height, for a
    /// mesh without vertices, or for one with more vertices than a draw
    /// call can count.
    pub fn new(config: &SurfaceConfig, mesh: &[Vertex], transform: &Transform, instances: u32) -> (r:
        Result<(Scene, Upload), RenderError>)
        ensures
            !config.wf() ==> r is Err && r->Err_0 == RenderError::EmptySurface,
            config.wf() && mesh@.len() == 0 ==> r is Err && r->Err_0 == RenderError::EmptyMesh,
            config.wf() && mesh@.len() > u32::MAX ==> r is Err && r->Err_0
                == RenderError::MeshTooLarge,
            config.wf() && 0 < mesh@.len() <= u32::MAX ==> {
                &&& r is Ok
                &&& r->Ok_0.0 == scene_for(*config, mesh@.len() as u32, instances)
                &&& r->Ok_0.0.fits(*config)
                &&& r->Ok_0.1.uniform_data@ == transform.encoding()
                &&& r->Ok_0.1.uniform_data@.len() == r->Ok_0.0.uniform_buffer.size
                &&& r->Ok_0.1.staging_buffer == staging_buffer(mesh@.len() as u32)
                &&& r->Ok_0.1.staging_data@ == encoding_of_all(mesh@)
                &&& r->Ok_0.1.staging_data@.len() == r->Ok_0.1.staging_buffer.size
                &&& r->Ok_0.1.copies@ == seq![mesh_copy(mesh@.len() as u32)]
            },
    {
        if config.width == 0 || config.height == 0 {
            return Err(RenderError::EmptySurface);
        }
        if mesh.len() == 0 {
            return Err(RenderError::EmptyMesh);
        }
        if mesh.len() > u32::MAX as usize {
            return Err(RenderError::MeshTooLarge);
        }
        let count: u32 = mesh.len() as u32;
        let size: u64 = count as u64 * VERTEX_SIZE as u64;
        let binding = UniformBinding {
            binding: 0,
            visibility: ShaderStage::Vertex,
            offset: 0,
            size: TRANSFORM_SIZE,
        };
        let staging = BufferDesc {
            size,
            usage: BufferUsage { vertex: false, uniform: false, copy_src: true, copy_dst: false },
        };
        let vertex_buffer = BufferDesc {
            size,
            usage: BufferUsage { vertex: true, uniform: false, copy_src: false, copy_dst: true },
        };
        let scene = Scene {
            global_binding: binding,
            uniform_buffer: BufferDesc {
                size: TRANSFORM_SIZE,
                usage: BufferUsage { vertex: false, uniform: true, copy_src: false, copy_dst: true },
            },
            normals_fbo: TextureDesc {
                width: config.width,
                height: config.height,
                format: PixelFormat::Rgba32Float,
            },
            depth_texture: TextureDesc {
                width: config.width,
                height: config.height,
                format: PixelFormat::Depth32Float,
            },
            icosphere: Entity {
                vertex_buffer,
                index_buffer: None,
                bind_group: None,
                render_pipeline: PipelineDesc {
                    topology: Topology::TriangleStrip,
                    front_face: FrontFace::Ccw,
                    cull_mode: CullMode::Back,
                    color_format: config.pixel_format,
                    blend: Blend::Replace,
                    depth_format: PixelFormat::Depth32Float,
                    depth_write: true,
                    depth_compare: Compare::Less,
                    stride: VERTEX_SIZE as u64,
                    position: Attribute { offset: POSITION_OFFSET as u64, location: 0 },
                    normal: Attribute { offset: NORMAL_OFFSET as u64, location: 1 },
                    uniform: binding,
                },
                vertex_num: count,
            },
            instances,
        };
        let uniform_data = transform.bytes();
        let staging_data = mesh.bytes();
        let mut copies: Vec<BufferCopy> = Vec::new();
        copies.push(
            BufferCopy {
                source: staging,
                source_offset: 0,
                target: vertex_buffer,
                target_offset: 0,
                size,
            },
        );
        proof {
            transform.lemma_encoding_len();
            lemma_mesh_encoding_len(mesh@);
            assert(copies@ =~= seq![mesh_copy(count)]);
        }
        Ok((scene, Upload { uniform_data, staging_buffer: staging, staging_data, copies }))
    }

    /// The scene with its depth buffer and its auxiliary target at
    /// `width` by `height`, where that is a size; the scene itself where
    /// it is none.
    pub open spec fn resized(self, width: u32, height: u32) -> Scene {
        if width == 0 || height == 0 {
            self
        } else {
            Scene {
                normals_fbo: TextureDesc { width, height, ..self.normals_fbo },
                depth_texture: TextureDesc { width, height, ..self.depth_texture },
                ..self
            }
        }
    }

    /// Takes the depth buffer and the auxiliary target to `width` by
    /// `height`. The buffers and the pipeline do not depend on the size
    /// and stay. A size without width or height is refused and changes
    /// nothing.
    pub fn resize(&mut self, width: u32, height: u32) -> (r: Result<(), RenderError>)
        ensures
            *final(self) == old(self).resized(width, height),
            width == 0 || height == 0 <==> r is Err,
            r is Err ==> r->Err_0 == RenderError::EmptySurface,
    {
        if width == 0 || height == 0 {
            return Err(RenderError::EmptySurface);
        }
        self.normals_fbo.width = width;
        self.normals_fbo.height = height;
        self.depth_texture.width = width;
        self.depth_texture.height = height;
        Ok(())
    }

    /// The pass that draws the scene.
    pub open spec fn pass(self) -> RenderPass {
        RenderPass {
            clear_color: white(),
            depth: self.depth_texture,
            clear_depth: SINGLE_ONE,
            clear_stencil: 0,
            pipeline: self.icosphere.render_pipeline,
            bind_group_slot: self.global_binding.binding,
            vertex_slot: 0,
            vertex_buffer: self.icosphere.vertex_buffer,
            vertex_count: self.icosphere.vertex_num,
            instance_count: self.instances,
        }
    }

    /// Describes the pass of one frame: the acquired image cleared to
    /// white, the depth buffer cleared to the far plane, and one draw call
    /// over all vertices of the sphere in every instance.
    pub fn draw(&self) -> (pass: RenderPass)
        ensures
            pass == self.pass(),
    {
        RenderPass {
            clear_color: Color { r: DOUBLE_ONE, g: DOUBLE_ONE, b: DOUBLE_ONE, a: DOUBLE_ONE },
            depth: self.depth_texture,
            clear_depth: SINGLE_ONE,
            clear_stencil: 0,
            pipeline: self.icosphere.render_pipeline,
            bind_group_slot: self.global_binding.binding,
            vertex_slot: 0,
            vertex_buffer: self.icosphere.vertex_buffer,
            vertex_count: self.icosphere.vertex_num,
            instance_count: self.instances,
        }
    }
}

} // verus!
