//! Descriptions of device resources and of the work recorded for the
//! device. They are plain values: whoever holds the device creates what
//! they describe.

use vstd::prelude::*;

verus! {

/// The layout of the pixels of a texture.
#[derive(Clone, Copy, Debug, PartialEq, Eq, Structural)]
pub enum PixelFormat {
    /// Blue, green, red and alpha, eight bits each, gamma encoded.
    Bgra8UnormSrgb,
    /// Red, green, blue and alpha, a single precision number each.
    Rgba32Float,
    /// One single precision depth.
    Depth32Float,
}

/// How finished images reach the screen.
#[derive(Clone, Copy, Debug, PartialEq, Eq, Structural)]
pub enum PresentMode {
    /// At once, tearing allowed.
    Immediate,
    /// The newest image at every refresh; older ones are dropped.
    Mailbox,
    /// In order, one image at every refresh.
    Fifo,
}

/// What a buffer may be used for.
#[derive(Clone, Copy, Debug, PartialEq, Eq, Structural)]
pub struct BufferUsage {
    pub vertex: bool,
    pub uniform: bool,
    pub copy_src: bool,
    pub copy_dst: bool,
}

/// A buffer of `size` bytes.
#[derive(Clone, Copy, Debug, PartialEq, Eq, Structural)]
pub struct BufferDesc {
    pub size: u64,
    pub usage: BufferUsage,
}

/// A two dimensional texture to render into, with one layer, one mip level
/// and one sample for every pixel.
#[derive(Clone, Copy, Debug, PartialEq, Eq, Structural)]
pub struct TextureDesc {
    pub width: u32,
    pub height: u32,
    pub format: PixelFormat,
}

/// A copy of `size` bytes between two buffers.
#[derive(Clone, Copy, Debug, PartialEq, Eq, Structural)]
pub struct BufferCopy {
    pub source: BufferDesc,
    pub source_offset: u64,
    pub target: BufferDesc,
    pub target_offset: u64,
    pub size: u64,
}

/// The shader stage that reads a binding.
#[derive(Clone, Copy, Debug, PartialEq, Eq, Structural)]
pub enum ShaderStage {
    Vertex,
    Fragment,
}

/// A range of a uniform buffer bound under a slot of a binding group.
#[derive(Clone, Copy, Debug, PartialEq, Eq, Structural)]
pub struct UniformBinding {
    pub binding: u32,
    pub visibility: ShaderStage,
    pub offset: u64,
    pub size: u64,
}

/// How the vertices of a draw call make up shapes.
#[derive(Clone, Copy, Debug, PartialEq, Eq, Structural)]
pub enum Topology {
    PointList,
    LineList,
    LineStrip,
    TriangleList,
    TriangleStrip,
}

/// The winding that marks the front of a triangle.
#[derive(Clone, Copy, Debug, PartialEq, Eq, Structural)]
pub enum FrontFace {
    Ccw,
    Cw,
}

/// The side of a triangle that is not drawn.
#[derive(Clone, Copy, Debug, PartialEq, Eq, Structural)]
pub enum CullMode {
    Nothing,
    Front,
    Back,
}

/// When a fragment passes the depth test.
#[derive(Clone, Copy, Debug, PartialEq, Eq, Structural)]
pub enum Compare {
    Never,
    Less,
    Equal,
    LessEqual,
    Greater,
    NotEqual,
    GreaterEqual,
    Always,
}

/// How a fragment is mixed with what is already there.
#[derive(Clone, Copy, Debug, PartialEq, Eq, Structural)]
pub enum Blend {
    /// The fragment takes the place of what was there.
    Replace,
}

/// Three single precision numbers read from a vertex, `offset` bytes
/// into it, for input `location` of the vertex program.
#[derive(Clone, Copy, Debug, PartialEq, Eq, Structural)]
pub struct Attribute {
    pub offset: u64,
    pub location: u32,
}

/// The fixed state of a draw call.
#[derive(Clone, Copy, Debug, PartialEq, Eq, Structural)]
pub struct PipelineDesc {
    pub topology: Topology,
    pub front_face: FrontFace,
    pub cull_mode: CullMode,
    pub color_format: PixelFormat,
    pub blend: Blend,
    pub depth_format: PixelFormat,
    pub depth_write: bool,
    pub depth_compare: Compare,
    pub stride: u64,
    pub position: Attribute,
    pub normal: Attribute,
    pub uniform: UniformBinding,
}

/// A colour of four double precision numbers, as their bits.
#[derive(Clone, Copy, Debug, PartialEq, Eq, Structural)]
pub struct Color {
    pub r: u64,
    pub g: u64,
    pub b: u64,
    pub a: u64,
}

/// The bits of the double precision number one.
pub const DOUBLE_ONE: u64 = 0x3ff0_0000_0000_0000;

/// The bits of the single precision number one.
pub const SINGLE_ONE: u32 = 0x3f80_0000;

/// Opaque white.
pub open spec fn white() -> Color {
    Color { r: DOUBLE_ONE, g: DOUBLE_ONE, b: DOUBLE_ONE, a: DOUBLE_ONE }
}

/// One render pass with one draw call: what is cleared, what is bound
/// and what is drawn.
#[derive(Clone, Copy, Debug, PartialEq, Eq, Structural)]
pub struct RenderPass {
    /// The colour that the acquired image is cleared to.
    pub clear_color: Color,
    /// The depth texture of the pass.
    pub depth: TextureDesc,
    /// The bits of the depth that it is cleared to.
    pub clear_depth: u32,
    /// The stencil value that it is cleared to.
    pub clear_stencil: u32,
    /// The state of the draw call.
    pub pipeline: PipelineDesc,
    /// The slot of the binding group with the transform.
    pub bind_group_slot: u32,
    /// The slot of the vertex buffer.
    pub vertex_slot: u32,
    /// The vertex buffer.
    pub vertex_buffer: BufferDesc,
    /// The number of vertices drawn, from the first of the buffer on.
    pub vertex_count: u32,
    /// The number of instances drawn, from instance 0 on.
    pub instance_count: u32,
}

/// Whether `mode` is among `supported`.
pub open spec fn offers(supported: Seq<PresentMode>, mode: PresentMode) -> bool {
    exists|i: int| 0 <= i < supported.len() && supported[i] == mode
}

/// The mode to present in where the device offers `supported`: the
/// mailbox where it is offered, else the queue, else whatever is left.
pub open spec fn preferred_mode(supported: Seq<PresentMode>) -> Option<PresentMode> {
    if offers(supported, PresentMode::Mailbox) {
        Some(PresentMode::Mailbox)
    } else if offers(supported, PresentMode::Fifo) {
        Some(PresentMode::Fifo)
    } else if offers(supported, PresentMode::Immediate) {
        Some(PresentMode::Immediate)
    } else {
        None
    }
}

/// Picks the mode to present in from those that the device offers;
/// `None` where it offers none.
pub fn choose_present_mode(supported: &[PresentMode]) -> (mode: Option<PresentMode>)
    ensures
        mode == preferred_mode(supported@),
        mode is None <==> supported@.len() == 0,
{
    let mut mailbox = false;
    let mut fifo = false;
    let mut immediate = false;
    let mut i: usize = 0;
    while i < supported.len()
        invariant
            i <= supported@.len(),
            mailbox == offers(supported@.take(i as int), PresentMode::Mailbox),
            fifo == offers(supported@.take(i as int), PresentMode::Fifo),
            immediate == offers(supported@.take(i as int), PresentMode::Immediate),
            i > 0 ==> mailbox || fifo || immediate,
        decreases supported@.len() - i,
    {
        let ghost before = supported@.take(i as int);
        let ghost after = supported@.take(i + 1);
        let mode = supported[i];
        proof {
            assert(after[i as int] == mode);
            assert forall|m: PresentMode| offers(after, m) == (offers(before, m) || m == mode) by {
                if offers(before, m) {
                    let k = choose|k: int| 0 <= k < before.len() && before[k] == m;
                    assert(after[k] == m);
                }
                if offers(after, m) && m != mode {
                    let k = choose|k: int| 0 <= k < after.len() && after[k] == m;
                    assert(before[k] == m);
                }
            }
        }
        match mode {
            PresentMode::Mailbox => {
                mailbox = true;
            },
            PresentMode::Fifo => {
                fifo = true;
            },
            PresentMode::Immediate => {
                immediate = true;
            },
        }
        i += 1;
    }
    assert(supported@.take(i as int) =~= supported@);
    if mailbox {
        Some(PresentMode::Mailbox)
    } else if fifo {
        Some(PresentMode::Fifo)
    } else if immediate {
        Some(PresentMode::Immediate)
    } else {
        None
    }
}

} // verus!
