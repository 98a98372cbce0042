use scene_viewer::app::{redraw_due, REDRAW_INTERVAL_NANOS, WAKE_INTERVAL_MILLIS};
use scene_viewer::assets::{ImportError, MeshData, Mode, PrimitiveData};
use scene_viewer::camera::Camera;
use scene_viewer::gpu::{BufferUsage, Color, PresentMode, TextureFormat};
use scene_viewer::renderer::{
    clamp, AcquireFailed, AcquireStep, ScreenRenderer, SurfaceStatus, SwapChainDescriptor,
};
use scene_viewer::viewer::{
    camera_buffer, color_buffer, object_color, Command, FrameStep, Viewer,
};

fn ready_renderer(width: u32, height: u32) -> ScreenRenderer {
    let mut renderer =
        ScreenRenderer::new((width, height), TextureFormat::Bgra8UnormSrgb, PresentMode::Mailbox);
    renderer.swap_chain_created();
    renderer
}

fn camera() -> Camera {
    let mut projection = [0u32; 16];
    let mut transform = [0u32; 16];
    for i in 0..16 {
        projection[i] = (i as f32).to_bits();
        transform[i] = (100.0 + i as f32).to_bits();
    }
    Camera::new(projection, transform)
}

fn primitive(index_count: u32) -> PrimitiveData {
    PrimitiveData {
        positions: Some(vec![[0, 0, 0], [1, 1, 1], [2, 2, 2]]),
        normals: None,
        indices: Some((0..index_count).map(|i| i % 3).collect()),
        mode: Mode::Triangles,
    }
}

fn draw(count: u32) -> Command {
    Command::DrawIndexed {
        first_index: 0,
        end_index: count,
        base_vertex: 0,
        first_instance: 0,
        end_instance: 1,
    }
}

fn black() -> Color {
    Color { r: 0, g: 0, b: 0, a: 1.0f64.to_bits() }
}

#[test]
fn resize_to_zero_gives_one_by_one() {
    let mut renderer = ready_renderer(640, 480);
    let desc = renderer.resize((0, 0));
    assert_eq!((desc.width, desc.height), (1, 1));
    assert_eq!(renderer.swap_chain_desc(), desc);
}

#[test]
fn resize_keeps_sizes_that_are_not_zero() {
    let mut renderer = ready_renderer(640, 480);
    let desc = renderer.resize((800, 600));
    assert_eq!(
        desc,
        SwapChainDescriptor {
            width: 800,
            height: 600,
            format: TextureFormat::Bgra8UnormSrgb,
            present_mode: PresentMode::Mailbox,
        }
    );
    assert_eq!(renderer.swap_chain_desc(), desc);
}

#[test]
fn resize_clamps_each_dimension_alone() {
    let mut renderer = ready_renderer(640, 480);
    let desc = renderer.resize((0, 7));
    assert_eq!((desc.width, desc.height), (1, 7));
    let desc = renderer.resize((9, 0));
    assert_eq!((desc.width, desc.height), (9, 1));
    let desc = renderer.resize((u32::MAX, 1));
    assert_eq!((desc.width, desc.height), (u32::MAX, 1));
    assert_eq!(clamp(0), 1);
    assert_eq!(clamp(1), 1);
    assert_eq!(clamp(2), 2);
}

#[test]
fn new_surface_is_uninitialized_and_clamped() {
    let renderer = ScreenRenderer::new((0, 0), TextureFormat::Rgba8Unorm, PresentMode::Fifo);
    assert_eq!(renderer.status(), SurfaceStatus::Uninitialized);
    assert!(!renderer.is_ready());
    assert_eq!(
        renderer.swap_chain_desc(),
        SwapChainDescriptor {
            width: 1,
            height: 1,
            format: TextureFormat::Rgba8Unorm,
            present_mode: PresentMode::Fifo,
        }
    );
    assert_eq!(renderer.color_format(), TextureFormat::Rgba8Unorm);
}

#[test]
fn surface_goes_through_resizing_back_to_ready() {
    let mut renderer =
        ScreenRenderer::new((640, 480), TextureFormat::Bgra8UnormSrgb, PresentMode::Mailbox);
    renderer.swap_chain_created();
    assert_eq!(renderer.status(), SurfaceStatus::Ready);
    assert!(renderer.is_ready());
    renderer.resize((320, 200));
    assert_eq!(renderer.status(), SurfaceStatus::Resizing);
    assert!(!renderer.is_ready());
    renderer.swap_chain_created();
    assert_eq!(renderer.status(), SurfaceStatus::Ready);
    assert_eq!(renderer.swap_chain_desc().width, 320);
    assert_eq!(renderer.swap_chain_desc().height, 200);
}

#[test]
fn acquired_image_is_rendered() {
    let mut renderer = ready_renderer(640, 480);
    assert_eq!(renderer.on_acquire(true), AcquireStep::Render);
    assert_eq!(renderer.status(), SurfaceStatus::Ready);
}

#[test]
fn two_failures_in_a_row_are_fatal_after_one_retry() {
    let mut renderer = ready_renderer(640, 480);
    let desc = renderer.swap_chain_desc();
    assert_eq!(renderer.on_acquire(false), AcquireStep::RecreateAndRetry(desc));
    assert_eq!(renderer.status(), SurfaceStatus::Recovering);
    assert!(renderer.is_ready());
    assert_eq!(renderer.on_acquire(false), AcquireStep::Fatal(AcquireFailed));
    assert_eq!(renderer.swap_chain_desc(), desc);
}

#[test]
fn retry_that_succeeds_makes_the_surface_ready_again() {
    let mut renderer = ready_renderer(640, 480);
    let desc = renderer.swap_chain_desc();
    assert_eq!(renderer.on_acquire(false), AcquireStep::RecreateAndRetry(desc));
    assert_eq!(renderer.on_acquire(true), AcquireStep::Render);
    assert_eq!(renderer.status(), SurfaceStatus::Ready);
    assert_eq!(renderer.on_acquire(false), AcquireStep::RecreateAndRetry(desc));
}

#[test]
fn recovering_surface_stays_recovering_when_the_chain_is_rebuilt() {
    let mut renderer = ready_renderer(640, 480);
    renderer.on_acquire(false);
    renderer.swap_chain_created();
    assert_eq!(renderer.status(), SurfaceStatus::Recovering);
}

#[test]
fn frame_without_scene_clears_and_presents() {
    let (viewer, error) = Viewer::init(None, camera());
    assert_eq!(error, None);
    assert!(viewer.scene().is_none());
    assert_eq!(viewer.begin_frame(), Command::WriteCamera { offset: 0 });
    assert_eq!(
        viewer.render(),
        vec![
            Command::BeginRenderPass { clear: black() },
            Command::EndRenderPass,
            Command::Submit,
            Command::Present,
        ]
    );
}

#[test]
fn draws_are_recorded_in_declaration_order() {
    let meshes = vec![
        MeshData { name: "m0".to_string(), primitives: vec![primitive(3), primitive(6)] },
        MeshData { name: "m1".to_string(), primitives: Vec::new() },
        MeshData { name: "m2".to_string(), primitives: vec![primitive(9)] },
    ];
    let (viewer, error) = Viewer::init(Some(&meshes), camera());
    assert_eq!(error, None);
    assert_eq!(
        viewer.render(),
        vec![
            Command::BeginRenderPass { clear: black() },
            Command::SetPipeline,
            Command::SetBindGroup { index: 0, camera_offset: 0, color_offset: 0 },
            Command::SetIndexBuffer { mesh: 0, sub: 0 },
            Command::SetVertexBuffer { slot: 0, mesh: 0, sub: 0 },
            draw(3),
            Command::SetIndexBuffer { mesh: 0, sub: 1 },
            Command::SetVertexBuffer { slot: 0, mesh: 0, sub: 1 },
            draw(6),
            Command::SetIndexBuffer { mesh: 2, sub: 0 },
            Command::SetVertexBuffer { slot: 0, mesh: 2, sub: 0 },
            draw(9),
            Command::EndRenderPass,
            Command::Submit,
            Command::Present,
        ]
    );
}

#[test]
fn scene_without_meshes_still_binds_the_pipeline() {
    let meshes = Vec::new();
    let (viewer, _) = Viewer::init(Some(&meshes), camera());
    assert!(viewer.scene().is_some());
    assert_eq!(
        viewer.render(),
        vec![
            Command::BeginRenderPass { clear: black() },
            Command::SetPipeline,
            Command::SetBindGroup { index: 0, camera_offset: 0, color_offset: 0 },
            Command::EndRenderPass,
            Command::Submit,
            Command::Present,
        ]
    );
}

#[test]
fn failed_import_leaves_the_viewer_without_scene() {
    let mut broken = primitive(3);
    broken.indices = None;
    let meshes = vec![MeshData { name: "m".to_string(), primitives: vec![broken] }];
    let (viewer, error) = Viewer::init(Some(&meshes), camera());
    assert_eq!(error, Some(ImportError::MissingIndices));
    assert!(viewer.scene().is_none());
    assert_eq!(viewer.render().len(), 4);
}

#[test]
fn frame_is_recorded_once_an_image_is_acquired() {
    let (viewer, _) = Viewer::init(None, camera());
    let mut renderer = ready_renderer(640, 480);
    let desc = renderer.swap_chain_desc();
    assert_eq!(viewer.on_acquire(&mut renderer, false), FrameStep::RecreateAndRetry(desc));
    assert_eq!(viewer.on_acquire(&mut renderer, true), FrameStep::Record(viewer.render()));
    assert_eq!(renderer.status(), SurfaceStatus::Ready);
}

#[test]
fn frame_is_given_up_after_the_second_failure() {
    let (viewer, _) = Viewer::init(None, camera());
    let mut renderer = ready_renderer(640, 480);
    let desc = renderer.swap_chain_desc();
    assert_eq!(viewer.on_acquire(&mut renderer, false), FrameStep::RecreateAndRetry(desc));
    assert_eq!(viewer.on_acquire(&mut renderer, false), FrameStep::Abort(AcquireFailed));
}

#[test]
fn camera_uniform_is_projection_then_transform() {
    let camera = camera();
    let words = camera.words();
    assert_eq!(words.len(), 32);
    assert_eq!(&words[..16], &camera.projection);
    assert_eq!(&words[16..], &camera.transform);

    let bytes = camera.uniform_bytes();
    assert_eq!(bytes.len(), 128);
    assert_eq!(&bytes[4..8], &1.0f32.to_ne_bytes());
    assert_eq!(&bytes[64..68], &100.0f32.to_ne_bytes());
    assert_eq!(&bytes[124..128], &115.0f32.to_ne_bytes());

    let (viewer, _) = Viewer::init(None, camera);
    assert_eq!(viewer.camera_bytes(), bytes);
}

#[test]
fn camera_can_be_replaced_between_frames() {
    let (mut viewer, _) = Viewer::init(None, camera());
    assert_eq!(viewer.camera(), camera());
    let moved = Camera::new([7; 16], [9; 16]);
    viewer.set_camera(moved);
    assert_eq!(viewer.camera(), moved);
    assert_eq!(viewer.camera_bytes(), moved.uniform_bytes());
    assert!(viewer.scene().is_none());
}

#[test]
fn uniform_buffers_match_their_bindings() {
    let usage = BufferUsage { vertex: false, index: false, uniform: true, copy_dst: true };
    let camera = camera_buffer();
    assert_eq!(camera.size, 128);
    assert_eq!(camera.usage, usage);
    assert!(!camera.mapped_at_creation);
    let color = color_buffer();
    assert_eq!(color.size, 16);
    assert_eq!(color.usage, usage);
    assert!(!color.mapped_at_creation);
}

#[test]
fn submesh_buffers_hold_vertices_or_indices() {
    assert_eq!(
        BufferUsage::vertex(),
        BufferUsage { vertex: true, index: false, uniform: false, copy_dst: false }
    );
    assert_eq!(
        BufferUsage::index(),
        BufferUsage { vertex: false, index: true, uniform: false, copy_dst: false }
    );
}

#[test]
fn object_colour_is_half_half_zero_one() {
    let mut expected = Vec::new();
    for channel in [0.5f32, 0.5, 0.0, 1.0] {
        expected.extend_from_slice(&channel.to_ne_bytes());
    }
    assert_eq!(object_color(), expected);
}

#[test]
fn redraw_is_due_after_more_than_twenty_milliseconds() {
    assert_eq!(REDRAW_INTERVAL_NANOS, 20_000_000);
    assert_eq!(WAKE_INTERVAL_MILLIS, 10);
    assert!(!redraw_due(0));
    assert!(!redraw_due(20_000_000));
    assert!(redraw_due(20_000_001));
    assert!(redraw_due(u128::MAX));
}
