//! The per-vertex byte layout shared by the geometry uploader and the
//! pipeline builder, and the sizes of the uniform blocks that the shaders read.
//!
//! A vertex is six 32-bit words: three for the position, then three for the
//! normal. Every offset and size used elsewhere in the crate comes from here.

use vstd::prelude::*;

verus! {

/// Bytes in one 32-bit word.
pub const WORD_SIZE: u64 = 4;

/// Words in one three-component vector.
pub const WORDS_PER_VEC3: usize = 3;

/// Words in one vertex: a position followed by a normal.
pub const WORDS_PER_VERTEX: usize = 6;

/// Bytes from the start of one vertex to the start of the next.
pub const VERTEX_STRIDE: u64 = 24;

/// Byte offset of the position inside a vertex.
pub const POSITION_OFFSET: u64 = 0;

/// Byte offset of the normal inside a vertex.
pub const NORMAL_OFFSET: u64 = 12;

/// Shader input location of the position.
pub const POSITION_LOCATION: u32 = 0;

/// Shader input location of the normal.
pub const NORMAL_LOCATION: u32 = 1;

/// Words in the camera uniform block: two 4x4 matrices.
pub const CAMERA_UNIFORM_WORDS: usize = 32;

/// Bytes in the camera uniform block.
pub const CAMERA_UNIFORM_SIZE: u64 = 128;

/// Words in the object colour uniform block: one four-component vector.
pub const COLOR_UNIFORM_WORDS: usize = 4;

/// Bytes in the object colour uniform block.
pub const COLOR_UNIFORM_SIZE: u64 = 16;

/// The element type of one vertex attribute.
#[derive(Clone, Copy, Debug, PartialEq, Eq, Structural)]
pub enum VertexFormat {
    /// Three 32-bit floating point components.
    Float3,
}

impl VertexFormat {
    /// Bytes that one attribute of this format occupies.
    pub open spec fn spec_size(self) -> int {
        match self {
            VertexFormat::Float3 => 12,
        }
    }

    /// Bytes that one attribute of this format occupies.
    pub fn size(self) -> (bytes: u64)
        ensures
            bytes == self.spec_size(),
    {
        match self {
            VertexFormat::Float3 => 12,
        }
    }
}

/// How often the pipeline steps to the next element of a vertex buffer.
#[derive(Clone, Copy, Debug, PartialEq, Eq, Structural)]
pub enum InputStepMode {
    /// Once per vertex.
    Vertex,
    /// Once per instance.
    Instance,
}

/// One attribute inside a vertex.
#[derive(Clone, Copy, Debug, PartialEq, Eq, Structural)]
pub struct VertexAttributeDescriptor {
    pub format: VertexFormat,
    pub offset: u64,
    pub shader_location: u32,
}

/// The layout of one vertex buffer as the pipeline reads it.
#[derive(Debug, PartialEq, Eq)]
pub struct VertexBufferDescriptor {
    pub stride: u64,
    pub step_mode: InputStepMode,
    pub attributes: Vec<VertexAttributeDescriptor>,
}

/// The position attribute: three floats at the start of the vertex.
pub open spec fn position_attribute() -> VertexAttributeDescriptor {
    VertexAttributeDescriptor {
        format: VertexFormat::Float3,
        offset: POSITION_OFFSET,
        shader_location: POSITION_LOCATION,
    }
}

/// The normal attribute: three floats right after the position.
pub open spec fn normal_attribute() -> VertexAttributeDescriptor {
    VertexAttributeDescriptor {
        format: VertexFormat::Float3,
        offset: NORMAL_OFFSET,
        shader_location: NORMAL_LOCATION,
    }
}

impl VertexBufferDescriptor {
    /// Every attribute lies inside one stride, no two attributes share a
    /// byte, and no two share a shader location.
    pub open spec fn wf(&self) -> bool {
        &&& forall|i: int|
            0 <= i < self.attributes@.len() ==> (#[trigger] self.attributes@[i]).offset
                + self.attributes@[i].format.spec_size() <= self.stride
        &&& forall|i: int, j: int|
            0 <= i < j < self.attributes@.len() ==> {
                let a = #[trigger] self.attributes@[i];
                let b = #[trigger] self.attributes@[j];
                &&& a.shader_location != b.shader_location
                &&& (a.offset + a.format.spec_size() <= b.offset || b.offset
                    + b.format.spec_size() <= a.offset)
            }
    }

    /// Whether this is the layout of the crate's vertex: stride 24, stepped
    /// per vertex, position at offset 0 and normal at offset 12.
    pub open spec fn is_vertex_layout(&self) -> bool {
        &&& self.stride == VERTEX_STRIDE
        &&& self.step_mode == InputStepMode::Vertex
        &&& self.attributes@ == seq![position_attribute(), normal_attribute()]
    }
}

/// The layout of the vertex buffers that the uploader produces.
pub fn vertex_buffer_layout() -> (layout: VertexBufferDescriptor)
    ensures
        layout.is_vertex_layout(),
        layout.wf(),
{
    let mut attributes: Vec<VertexAttributeDescriptor> = Vec::new();
    attributes.push(
        VertexAttributeDescriptor {
            format: VertexFormat::Float3,
            offset: POSITION_OFFSET,
            shader_location: POSITION_LOCATION,
        },
    );
    attributes.push(
        VertexAttributeDescriptor {
            format: VertexFormat::Float3,
            offset: NORMAL_OFFSET,
            shader_location: NORMAL_LOCATION,
        },
    );
    assert(attributes@ =~= seq![position_attribute(), normal_attribute()]);
    VertexBufferDescriptor { stride: VERTEX_STRIDE, step_mode: InputStepMode::Vertex, attributes }
}

/// The vertex layout fills its stride exactly: the position takes the first
/// half, the normal the second, and both halves together are the six words of
/// a vertex.
pub proof fn lemma_vertex_layout_is_tight(layout: VertexBufferDescriptor)
    requires
        layout.is_vertex_layout(),
    ensures
        layout.wf(),
        layout.stride == WORD_SIZE * WORDS_PER_VERTEX,
        layout.attributes@[0].offset == 0,
        layout.attributes@[0].offset + layout.attributes@[0].format.spec_size()
            == layout.attributes@[1].offset,
        layout.attributes@[1].offset + layout.attributes@[1].format.spec_size() == layout.stride,
        layout.attributes@[0].format.spec_size() == WORD_SIZE * WORDS_PER_VEC3,
        layout.attributes@[1].format.spec_size() == WORD_SIZE * WORDS_PER_VEC3,
{
}

} // verus!
