//! Plain descriptions of the graphics state that the crate decides on.
//!
//! Nothing here touches a device. Each type names one setting of the
//! graphics pipeline or of the presentation surface by value, so that the
//! rest of the crate can state exactly which settings it chooses.

use vstd::prelude::*;

verus! {

/// Bit of the vertex stage in a stage mask.
pub const STAGE_VERTEX: u32 = 1;

/// Bit of the fragment stage in a stage mask.
pub const STAGE_FRAGMENT: u32 = 2;

/// Bit of the compute stage in a stage mask.
pub const STAGE_COMPUTE: u32 = 4;

/// A set of shader stages, one bit per stage.
#[derive(Clone, Copy, Debug, PartialEq, Eq, Structural)]
pub struct ShaderStage {
    pub bits: u32,
}

impl ShaderStage {
    /// The vertex stage alone.
    pub fn vertex() -> (stage: ShaderStage)
        ensures
            stage.bits == STAGE_VERTEX,
    {
        ShaderStage { bits: STAGE_VERTEX }
    }

    /// The fragment stage alone.
    pub fn fragment() -> (stage: ShaderStage)
        ensures
            stage.bits == STAGE_FRAGMENT,
    {
        ShaderStage { bits: STAGE_FRAGMENT }
    }

    /// The compute stage alone.
    pub fn compute() -> (stage: ShaderStage)
        ensures
            stage.bits == STAGE_COMPUTE,
    {
        ShaderStage { bits: STAGE_COMPUTE }
    }
}

/// How an index stream is assembled into primitives.
#[derive(Clone, Copy, Debug, PartialEq, Eq, Structural)]
pub enum PrimitiveTopology {
    PointList,
    LineList,
    LineStrip,
    TriangleList,
    TriangleStrip,
}

/// Width of one element of an index buffer.
#[derive(Clone, Copy, Debug, PartialEq, Eq, Structural)]
pub enum IndexFormat {
    Uint16,
    Uint32,
}

/// Winding order of a front-facing triangle.
#[derive(Clone, Copy, Debug, PartialEq, Eq, Structural)]
pub enum FrontFace {
    Ccw,
    Cw,
}

/// Which faces are discarded before rasterization.
#[derive(Clone, Copy, Debug, PartialEq, Eq, Structural)]
pub enum CullMode {
    Off,
    Front,
    Back,
}

/// A factor of the blend equation.
#[derive(Clone, Copy, Debug, PartialEq, Eq, Structural)]
pub enum BlendFactor {
    Zero,
    One,
}

/// The operator of the blend equation.
#[derive(Clone, Copy, Debug, PartialEq, Eq, Structural)]
pub enum BlendOperation {
    Add,
}

/// One blend equation: `src * src_factor (operation) dst * dst_factor`.
#[derive(Clone, Copy, Debug, PartialEq, Eq, Structural)]
pub struct BlendDescriptor {
    pub src_factor: BlendFactor,
    pub dst_factor: BlendFactor,
    pub operation: BlendOperation,
}

/// The blend equation that writes the source and drops the destination.
pub open spec fn blend_replace() -> BlendDescriptor {
    BlendDescriptor {
        src_factor: BlendFactor::One,
        dst_factor: BlendFactor::Zero,
        operation: BlendOperation::Add,
    }
}

/// Write mask that lets all four colour channels through.
pub const COLOR_WRITE_ALL: u32 = 15;

/// Texel format of a colour target.
#[derive(Clone, Copy, Debug, PartialEq, Eq, Structural)]
pub enum TextureFormat {
    Rgba8Unorm,
    Rgba8UnormSrgb,
    Bgra8Unorm,
    Bgra8UnormSrgb,
}

/// How finished images are handed to the display.
#[derive(Clone, Copy, Debug, PartialEq, Eq, Structural)]
pub enum PresentMode {
    Immediate,
    Mailbox,
    Fifo,
}

/// A colour of four 64-bit floating point channels, each held as its bit
/// pattern.
#[derive(Clone, Copy, Debug, PartialEq, Eq, Structural)]
pub struct Color {
    pub r: u64,
    pub g: u64,
    pub b: u64,
    pub a: u64,
}

/// Bit pattern of the 64-bit float 1.0.
pub const F64_ONE_BITS: u64 = 0x3FF0_0000_0000_0000;

/// Opaque black: the background that every frame is cleared to.
pub open spec fn color_black() -> Color {
    Color { r: 0, g: 0, b: 0, a: F64_ONE_BITS }
}

impl Color {
    /// Opaque black.
    pub fn black() -> (color: Color)
        ensures
            color == color_black(),
    {
        Color { r: 0, g: 0, b: 0, a: F64_ONE_BITS }
    }
}

/// What a buffer is used for.
#[derive(Clone, Copy, Debug, PartialEq, Eq, Structural)]
pub struct BufferUsage {
    pub vertex: bool,
    pub index: bool,
    pub uniform: bool,
    pub copy_dst: bool,
}

/// Size and use of a buffer that is created empty.
#[derive(Clone, Copy, Debug, PartialEq, Eq, Structural)]
pub struct BufferDescriptor {
    pub size: u64,
    pub usage: BufferUsage,
    pub mapped_at_creation: bool,
}

/// A uniform buffer of `size` bytes that is filled by writes from the queue.
pub open spec fn uniform_buffer(size: u64) -> BufferDescriptor {
    BufferDescriptor {
        size,
        usage: BufferUsage { vertex: false, index: false, uniform: true, copy_dst: true },
        mapped_at_creation: false,
    }
}

/// A buffer that holds nothing but vertices.
pub open spec fn vertex_usage() -> BufferUsage {
    BufferUsage { vertex: true, index: false, uniform: false, copy_dst: false }
}

/// A buffer that holds nothing but indices.
pub open spec fn index_usage() -> BufferUsage {
    BufferUsage { vertex: false, index: true, uniform: false, copy_dst: false }
}

impl BufferUsage {
    /// The use of the vertex buffer of a submesh.
    pub fn vertex() -> (usage: BufferUsage)
        ensures
            usage == vertex_usage(),
    {
        BufferUsage { vertex: true, index: false, uniform: false, copy_dst: false }
    }

    /// The use of the index buffer of a submesh.
    pub fn index() -> (usage: BufferUsage)
        ensures
            usage == index_usage(),
    {
        BufferUsage { vertex: false, index: true, uniform: false, copy_dst: false }
    }
}

} // verus!
