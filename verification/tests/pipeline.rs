use scene_viewer::gpu::{
    BlendDescriptor, BlendFactor, BlendOperation, CullMode, FrontFace, IndexFormat,
    PrimitiveTopology, ShaderStage, TextureFormat,
};
use scene_viewer::layout::{
    vertex_buffer_layout, InputStepMode, VertexAttributeDescriptor, VertexFormat,
    CAMERA_UNIFORM_SIZE, COLOR_UNIFORM_SIZE, NORMAL_OFFSET, POSITION_OFFSET, VERTEX_STRIDE,
    WORDS_PER_VERTEX,
};
use scene_viewer::pipeline::{
    create_select_pipeline, select_bind_group_layout, BindGroupLayoutEntry, BindingType,
    PipelineLayout,
};
use scene_viewer::shader::{
    compile_request, compiler_from_binary, shader_kind, stage_of_kind, ShaderKind,
};

#[test]
fn vertex_is_24_bytes_of_position_and_normal() {
    assert_eq!(VERTEX_STRIDE, 24);
    assert_eq!(POSITION_OFFSET, 0);
    assert_eq!(NORMAL_OFFSET, 12);
    assert_eq!(WORDS_PER_VERTEX, 6);
    assert_eq!(VertexFormat::Float3.size(), 12);
}

#[test]
fn vertex_layout_has_two_float3_attributes() {
    let layout = vertex_buffer_layout();
    assert_eq!(layout.stride, 24);
    assert_eq!(layout.step_mode, InputStepMode::Vertex);
    assert_eq!(
        layout.attributes,
        vec![
            VertexAttributeDescriptor {
                format: VertexFormat::Float3,
                offset: 0,
                shader_location: 0
            },
            VertexAttributeDescriptor {
                format: VertexFormat::Float3,
                offset: 12,
                shader_location: 1
            },
        ]
    );
}

#[test]
fn bind_group_has_camera_and_colour() {
    let layout = select_bind_group_layout();
    assert_eq!(
        layout.entries,
        vec![
            BindGroupLayoutEntry {
                binding: 0,
                visibility: ShaderStage { bits: 1 },
                ty: BindingType::UniformBuffer { dynamic: true, min_binding_size: 128 },
            },
            BindGroupLayoutEntry {
                binding: 1,
                visibility: ShaderStage { bits: 2 },
                ty: BindingType::UniformBuffer { dynamic: true, min_binding_size: 16 },
            },
        ]
    );
    assert_eq!(CAMERA_UNIFORM_SIZE, 128);
    assert_eq!(COLOR_UNIFORM_SIZE, 16);
}

#[test]
fn pipeline_is_built_from_two_binaries() {
    let resource = create_select_pipeline(
        Ok(vec![0x0723_0203, 1, 2]),
        Ok(vec![0x0723_0203, 3]),
        TextureFormat::Bgra8UnormSrgb,
    )
    .unwrap();

    assert_eq!(resource.bind_group_layout, select_bind_group_layout());
    assert_eq!(
        resource.pipeline_layout,
        PipelineLayout { bind_group_layouts: 1, push_constant_ranges: 0 }
    );

    let pipeline = resource.pipeline;
    assert_eq!(pipeline.index_format, IndexFormat::Uint32);
    assert_eq!(pipeline.vertex_buffers, vec![vertex_buffer_layout()]);
    assert_eq!(pipeline.vertex_stage.module.kind, ShaderKind::Vertex);
    assert_eq!(pipeline.vertex_stage.module.code, vec![0x0723_0203, 1, 2]);
    assert_eq!(pipeline.vertex_stage.entry_point, "main");
    let fragment = pipeline.fragment_stage.as_ref().unwrap();
    assert_eq!(fragment.module.kind, ShaderKind::Fragment);
    assert_eq!(fragment.module.code, vec![0x0723_0203, 3]);
    assert_eq!(fragment.entry_point, "main");
    assert_eq!(pipeline.front_face, FrontFace::Ccw);
    assert_eq!(pipeline.cull_mode, CullMode::Back);
    assert_eq!(pipeline.primitive_topology, PrimitiveTopology::TriangleList);
    assert_eq!(pipeline.sample_count, 1);
    assert_eq!(pipeline.sample_mask, 0);
    assert_eq!(pipeline.applied_sample_mask(), u64::MAX);
    assert!(!pipeline.depth_stencil);
    assert!(!pipeline.alpha_to_coverage_enabled);

    let replace = BlendDescriptor {
        src_factor: BlendFactor::One,
        dst_factor: BlendFactor::Zero,
        operation: BlendOperation::Add,
    };
    assert_eq!(pipeline.color_states.len(), 1);
    assert_eq!(pipeline.color_states[0].format, TextureFormat::Bgra8UnormSrgb);
    assert_eq!(pipeline.color_states[0].color_blend, replace);
    assert_eq!(pipeline.color_states[0].alpha_blend, replace);
    assert_eq!(pipeline.color_states[0].write_mask, 15);
}

#[test]
fn sample_mask_applies_only_to_multisampled_pipelines() {
    let mut pipeline =
        create_select_pipeline(Ok(vec![1]), Ok(vec![2]), TextureFormat::Bgra8Unorm).unwrap().pipeline;
    pipeline.sample_mask = 5;
    assert_eq!(pipeline.applied_sample_mask(), u64::MAX);
    pipeline.sample_count = 4;
    assert_eq!(pipeline.applied_sample_mask(), 5);
}

#[test]
fn pipeline_follows_the_colour_format() {
    let resource =
        create_select_pipeline(Ok(vec![1]), Ok(vec![2]), TextureFormat::Rgba8Unorm).unwrap();
    assert_eq!(resource.pipeline.color_states[0].format, TextureFormat::Rgba8Unorm);
}

#[test]
fn pipeline_build_is_repeatable() {
    let first = create_select_pipeline(Ok(vec![1, 2]), Ok(vec![3]), TextureFormat::Bgra8Unorm);
    let second = create_select_pipeline(Ok(vec![1, 2]), Ok(vec![3]), TextureFormat::Bgra8Unorm);
    assert_eq!(first, second);
}

#[test]
fn rejected_vertex_shader_fails_the_build() {
    let error = create_select_pipeline(
        Err("vertex: syntax error".to_string()),
        Ok(vec![2]),
        TextureFormat::Bgra8UnormSrgb,
    )
    .unwrap_err();
    assert_eq!(error.kind, ShaderKind::Vertex);
    assert_eq!(error.message, "vertex: syntax error");
}

#[test]
fn rejected_fragment_shader_fails_the_build() {
    let error = create_select_pipeline(
        Ok(vec![1]),
        Err("fragment: syntax error".to_string()),
        TextureFormat::Bgra8UnormSrgb,
    )
    .unwrap_err();
    assert_eq!(error.kind, ShaderKind::Fragment);
    assert_eq!(error.message, "fragment: syntax error");
}

#[test]
fn rejected_vertex_shader_is_reported_first() {
    let error = create_select_pipeline(
        Err("vertex".to_string()),
        Err("fragment".to_string()),
        TextureFormat::Bgra8UnormSrgb,
    )
    .unwrap_err();
    assert_eq!(error.kind, ShaderKind::Vertex);
    assert_eq!(error.message, "vertex");
}

#[test]
fn single_stages_name_their_kind() {
    assert_eq!(shader_kind(ShaderStage::vertex()), Some(ShaderKind::Vertex));
    assert_eq!(shader_kind(ShaderStage::fragment()), Some(ShaderKind::Fragment));
    assert_eq!(shader_kind(ShaderStage::compute()), Some(ShaderKind::Compute));
    assert_eq!(shader_kind(ShaderStage { bits: 0 }), None);
    assert_eq!(shader_kind(ShaderStage { bits: 3 }), None);
    assert_eq!(shader_kind(ShaderStage { bits: 8 }), None);
    assert_eq!(stage_of_kind(ShaderKind::Vertex), ShaderStage { bits: 1 });
    assert_eq!(stage_of_kind(ShaderKind::Fragment), ShaderStage { bits: 2 });
    assert_eq!(stage_of_kind(ShaderKind::Compute), ShaderStage { bits: 4 });
}

#[test]
fn compile_request_names_file_and_entry_point() {
    let request = compile_request("void main() {}", ShaderStage::fragment());
    assert_eq!(request.source, "void main() {}");
    assert_eq!(request.kind, ShaderKind::Fragment);
    assert_eq!(request.file_name, "shader.glsl");
    assert_eq!(request.entry_point, "main");
}

#[test]
fn compiled_binary_becomes_a_module() {
    let module = compiler_from_binary(ShaderStage::compute(), Ok(vec![7, 8, 9])).unwrap();
    assert_eq!(module.kind, ShaderKind::Compute);
    assert_eq!(module.code, vec![7, 8, 9]);
}

#[test]
fn compiler_message_becomes_the_error() {
    let error =
        compiler_from_binary(ShaderStage::vertex(), Err("line 3: oops".to_string())).unwrap_err();
    assert_eq!(error.kind, ShaderKind::Vertex);
    assert_eq!(error.message, "line 3: oops");
}
