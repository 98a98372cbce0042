//! The one render pipeline of the viewer, described by value.
//!
//! The pipeline draws indexed triangle lists of position-and-normal vertices.
//! It reads two uniform blocks through one bind group: the camera matrices in
//! the vertex stage and the object colour in the fragment stage. Both are
//! bound with a dynamic offset, so that one buffer can hold several slots.

use vstd::prelude::*;
use crate::gpu::{
    blend_replace, BlendDescriptor, BlendFactor, BlendOperation, CullMode, FrontFace, IndexFormat,
    PrimitiveTopology, ShaderStage, TextureFormat, COLOR_WRITE_ALL, STAGE_FRAGMENT, STAGE_VERTEX,
};
use crate::layout::{
    vertex_buffer_layout, VertexBufferDescriptor, CAMERA_UNIFORM_SIZE, COLOR_UNIFORM_SIZE,
};
use crate::shader::{compiler_from_binary, ShaderCompileError, ShaderKind, ShaderModule};

verus! {

/// Binding number of the camera uniform block.
pub const CAMERA_BINDING: u32 = 0;

/// Binding number of the object colour uniform block.
pub const COLOR_BINDING: u32 = 1;

/// What kind of resource a binding holds.
#[derive(Clone, Copy, Debug, PartialEq, Eq, Structural)]
pub enum BindingType {
    /// A uniform buffer. With `dynamic` set, an offset given at bind time
    /// selects the slot; `min_binding_size` is the least number of bytes
    /// that a bound slot must hold.
    UniformBuffer { dynamic: bool, min_binding_size: u64 },
}

/// One binding of a bind group layout.
#[derive(Clone, Copy, Debug, PartialEq, Eq, Structural)]
pub struct BindGroupLayoutEntry {
    pub binding: u32,
    pub visibility: ShaderStage,
    pub ty: BindingType,
}

/// The bindings of one bind group, in declaration order.
#[derive(Debug, PartialEq, Eq)]
pub struct BindGroupLayout {
    pub entries: Vec<BindGroupLayoutEntry>,
}

/// The bind groups and push constant ranges that a pipeline expects.
#[derive(Clone, Copy, Debug, PartialEq, Eq, Structural)]
pub struct PipelineLayout {
    /// Number of bind group layouts; group `i` uses layout `i`.
    pub bind_group_layouts: u32,
    /// Number of push constant ranges.
    pub push_constant_ranges: u32,
}

/// One programmable stage: its module and the name of its entry point.
#[derive(Debug, PartialEq, Eq)]
pub struct ProgrammableStage {
    pub module: ShaderModule,
    pub entry_point: String,
}

/// The state of one colour target.
#[derive(Clone, Copy, Debug, PartialEq, Eq, Structural)]
pub struct ColorStateDescriptor {
    pub format: TextureFormat,
    pub color_blend: BlendDescriptor,
    pub alpha_blend: BlendDescriptor,
    pub write_mask: u32,
}

/// Everything that fixes a render pipeline.
#[derive(Debug, PartialEq, Eq)]
pub struct RenderPipeline {
    pub index_format: IndexFormat,
    pub vertex_buffers: Vec<VertexBufferDescriptor>,
    pub vertex_stage: ProgrammableStage,
    pub fragment_stage: Option<ProgrammableStage>,
    pub front_face: FrontFace,
    pub cull_mode: CullMode,
    pub primitive_topology: PrimitiveTopology,
    pub sample_count: u32,
    pub sample_mask: u32,
    pub color_states: Vec<ColorStateDescriptor>,
    pub depth_stencil: bool,
    pub alpha_to_coverage_enabled: bool,
}

/// A built pipeline with the layouts it was built from.
#[derive(Debug, PartialEq, Eq)]
pub struct PipelineResource {
    pub bind_group_layout: BindGroupLayout,
    pub pipeline_layout: PipelineLayout,
    pub pipeline: RenderPipeline,
}

/// The camera binding: binding 0, vertex stage, dynamic offset, at least two
/// 4x4 matrices.
pub open spec fn camera_entry() -> BindGroupLayoutEntry {
    BindGroupLayoutEntry {
        binding: CAMERA_BINDING,
        visibility: ShaderStage { bits: STAGE_VERTEX },
        ty: BindingType::UniformBuffer { dynamic: true, min_binding_size: CAMERA_UNIFORM_SIZE },
    }
}

/// The colour binding: binding 1, fragment stage, dynamic offset, at least
/// one four-component vector.
pub open spec fn color_entry() -> BindGroupLayoutEntry {
    BindGroupLayoutEntry {
        binding: COLOR_BINDING,
        visibility: ShaderStage { bits: STAGE_FRAGMENT },
        ty: BindingType::UniformBuffer { dynamic: true, min_binding_size: COLOR_UNIFORM_SIZE },
    }
}

/// The colour target of the pipeline: the given format, both blend equations
/// replacing the destination, all channels written.
pub open spec fn color_state(format: TextureFormat) -> ColorStateDescriptor {
    ColorStateDescriptor {
        format,
        color_blend: blend_replace(),
        alpha_blend: blend_replace(),
        write_mask: COLOR_WRITE_ALL,
    }
}

impl ProgrammableStage {
    /// Whether this stage runs the words `code` as a shader of kind `kind`,
    /// entered at `main`.
    pub open spec fn runs(&self, kind: ShaderKind, code: Seq<u32>) -> bool {
        &&& self.module.kind == kind
        &&& self.module.code@ == code
        &&& self.entry_point@ == "main"@
    }
}

impl RenderPipeline {
    /// The sample mask that takes effect: with more than one sample per
    /// pixel it is `sample_mask`; with one sample the mask is not applied and
    /// every bit counts as set.
    pub open spec fn spec_applied_sample_mask(&self) -> u64 {
        if self.sample_count > 1 {
            self.sample_mask as u64
        } else {
            u64::MAX
        }
    }

    /// The sample mask that takes effect.
    pub fn applied_sample_mask(&self) -> (mask: u64)
        ensures
            mask == self.spec_applied_sample_mask(),
    {
        if self.sample_count > 1 {
            self.sample_mask as u64
        } else {
            u64::MAX
        }
    }
}

impl PipelineResource {
    /// Whether this is the viewer's pipeline for the two given shader
    /// binaries and the given colour format.
    pub open spec fn is_select_pipeline(
        &self,
        vertex: Seq<u32>,
        fragment: Seq<u32>,
        format: TextureFormat,
    ) -> bool {
        &&& self.bind_group_layout.entries@ == seq![camera_entry(), color_entry()]
        &&& self.pipeline_layout == PipelineLayout { bind_group_layouts: 1, push_constant_ranges: 0 }
        &&& self.pipeline.index_format == IndexFormat::Uint32
        &&& self.pipeline.vertex_buffers@.len() == 1
        &&& self.pipeline.vertex_buffers@[0].is_vertex_layout()
        &&& self.pipeline.vertex_stage.runs(ShaderKind::Vertex, vertex)
        &&& self.pipeline.fragment_stage is Some
        &&& self.pipeline.fragment_stage->0.runs(ShaderKind::Fragment, fragment)
        &&& self.pipeline.front_face == FrontFace::Ccw
        &&& self.pipeline.cull_mode == CullMode::Back
        &&& self.pipeline.primitive_topology == PrimitiveTopology::TriangleList
        &&& self.pipeline.sample_count == 1
        &&& self.pipeline.sample_mask == 0
        &&& self.pipeline.color_states@ == seq![color_state(format)]
        &&& !self.pipeline.depth_stencil
        &&& !self.pipeline.alpha_to_coverage_enabled
    }
}

/// The bind group layout of the viewer's pipeline.
pub fn select_bind_group_layout() -> (layout: BindGroupLayout)
    ensures
        layout.entries@ == seq![camera_entry(), color_entry()],
{
    let mut entries: Vec<BindGroupLayoutEntry> = Vec::new();
    entries.push(
        BindGroupLayoutEntry {
            binding: CAMERA_BINDING,
            visibility: ShaderStage::vertex(),
            ty: BindingType::UniformBuffer { dynamic: true, min_binding_size: CAMERA_UNIFORM_SIZE },
        },
    );
    entries.push(
        BindGroupLayoutEntry {
            binding: COLOR_BINDING,
            visibility: ShaderStage::fragment(),
            ty: BindingType::UniformBuffer { dynamic: true, min_binding_size: COLOR_UNIFORM_SIZE },
        },
    );
    assert(entries@ =~= seq![camera_entry(), color_entry()]);
    BindGroupLayout { entries }
}

/// Builds the viewer's pipeline from what the compiler answered for the
/// vertex and the fragment shader, and the colour format of the target.
///
/// The build succeeds exactly when both shaders compiled. A rejected vertex
/// shader is reported before a rejected fragment shader, each with the
/// compiler's message. Calling it again with the same arguments describes the
/// same pipeline.
pub fn create_select_pipeline(
    vertex: Result<Vec<u32>, String>,
    fragment: Result<Vec<u32>, String>,
    color_format: TextureFormat,
) -> (result: Result<PipelineResource, ShaderCompileError>)
    ensures
        result is Ok <==> vertex is Ok && fragment is Ok,
        result matches Ok(resource) ==> resource.is_select_pipeline(
            vertex->Ok_0@,
            fragment->Ok_0@,
            color_format,
        ),
        vertex matches Err(message) ==> {
            &&& result->Err_0.kind == ShaderKind::Vertex
            &&& result->Err_0.message@ == message@
        },
        vertex is Ok ==> (fragment matches Err(message) ==> {
            &&& result->Err_0.kind == ShaderKind::Fragment
            &&& result->Err_0.message@ == message@
        }),
{
    let vs_module = match compiler_from_binary(ShaderStage::vertex(), vertex) {
        Ok(module) => module,
        Err(error) => {
            return Err(error);
        },
    };
    let fs_module = match compiler_from_binary(ShaderStage::fragment(), fragment) {
        Ok(module) => module,
        Err(error) => {
            return Err(error);
        },
    };

    let bind_group_layout = select_bind_group_layout();
    let pipeline_layout = PipelineLayout { bind_group_layouts: 1, push_constant_ranges: 0 };

    let mut vertex_buffers: Vec<VertexBufferDescriptor> = Vec::new();
    vertex_buffers.push(vertex_buffer_layout());

    let replace = BlendDescriptor {
        src_factor: BlendFactor::One,
        dst_factor: BlendFactor::Zero,
        operation: BlendOperation::Add,
    };
    let mut color_states: Vec<ColorStateDescriptor> = Vec::new();
    color_states.push(
        ColorStateDescriptor {
            format: color_format,
            color_blend: replace,
            alpha_blend: replace,
            write_mask: COLOR_WRITE_ALL,
        },
    );
    assert(color_states@ =~= seq![color_state(color_format)]);

    let pipeline = RenderPipeline {
        index_format: IndexFormat::Uint32,
        vertex_buffers,
        vertex_stage: ProgrammableStage { module: vs_module, entry_point: "main".to_owned() },
        fragment_stage: Some(
            ProgrammableStage { module: fs_module, entry_point: "main".to_owned() },
        ),
        front_face: FrontFace::Ccw,
        cull_mode: CullMode::Back,
        primitive_topology: PrimitiveTopology::TriangleList,
        sample_count: 1,
        sample_mask: 0,
        color_states,
        depth_stencil: false,
        alpha_to_coverage_enabled: false,
    };

    Ok(PipelineResource { bind_group_layout, pipeline_layout, pipeline })
}

} // verus!
