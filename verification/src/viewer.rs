//! The per-frame driver: what is written, bound and drawn for one frame.
//!
//! A frame is described as a list of commands that are carried out on the
//! device in the order of the list. The camera is written first, then an
//! image is acquired from the surface, then one render pass clears the image
//! and draws every submesh of the loaded scene, and at last the commands are
//! submitted and the image is presented.

use vstd::prelude::*;
use crate::assets::{
    from_gltf, lemma_vertex_fields, normal_bytes, normal_of, position_bytes, scene_error,
    scene_indices_fit, ImportError, Mesh, MeshData, PrimitiveView, Scene, SubMesh,
};
use crate::bytes::{memory_image, words_to_bytes};
use crate::camera::Camera;
use crate::gpu::{
    color_black, uniform_buffer, BufferDescriptor, BufferUsage, Color, IndexFormat, TextureFormat,
};
use crate::layout::{
    normal_attribute, position_attribute, CAMERA_UNIFORM_SIZE, COLOR_UNIFORM_SIZE, NORMAL_LOCATION,
    POSITION_LOCATION,
};
use crate::pipeline::{camera_entry, color_entry, BindingType, PipelineResource};
use crate::renderer::{
    acquire_step, can_acquire, status_after_acquire, AcquireFailed, AcquireStep, ScreenRenderer,
    SwapChainDescriptor,
};

verus! {

/// Bit pattern of the 32-bit float 0.5.
pub const F32_HALF_BITS: u32 = 0x3F00_0000;

/// Bit pattern of the 32-bit float 1.0.
pub const F32_ONE_BITS: u32 = 0x3F80_0000;

/// One step of a frame, carried out on the device.
#[derive(Clone, Copy, Debug, PartialEq, Eq, Structural)]
pub enum Command {
    /// Write the camera uniform block into the camera buffer at `offset`.
    WriteCamera { offset: u64 },
    /// Begin a render pass on the acquired image: clear it to `clear` and
    /// keep what is drawn.
    BeginRenderPass { clear: Color },
    /// Bind the render pipeline.
    SetPipeline,
    /// Bind the uniform bind group at `index`, selecting the slot of the
    /// camera and of the colour by their dynamic offsets.
    SetBindGroup { index: u32, camera_offset: u32, color_offset: u32 },
    /// Bind the whole index buffer of submesh `sub` of mesh `mesh`.
    SetIndexBuffer { mesh: usize, sub: usize },
    /// Bind the whole vertex buffer of submesh `sub` of mesh `mesh` to `slot`.
    SetVertexBuffer { slot: u32, mesh: usize, sub: usize },
    /// Draw the indices `first_index..end_index` with `base_vertex` added to
    /// each, for the instances `first_instance..end_instance`.
    DrawIndexed {
        first_index: u32,
        end_index: u32,
        base_vertex: i32,
        first_instance: u32,
        end_instance: u32,
    },
    /// End the render pass.
    EndRenderPass,
    /// Submit the recorded commands to the queue.
    Submit,
    /// Present the acquired image.
    Present,
}

/// What the caller does next in a frame after an attempt to acquire an image.
#[derive(Debug, PartialEq, Eq)]
pub enum FrameStep {
    /// Carry out these commands on the acquired image.
    Record(Vec<Command>),
    /// Rebuild the presentation chain from the descriptor and try to acquire
    /// once more.
    RecreateAndRetry(SwapChainDescriptor),
    /// Nothing is rendered in this frame.
    Abort(AcquireFailed),
}

/// The words of the object colour: red 0.5, green 0.5, blue 0, alpha 1.
pub open spec fn object_color_words() -> Seq<u32> {
    seq![F32_HALF_BITS, F32_HALF_BITS, 0u32, F32_ONE_BITS]
}

/// The buffer that holds the camera uniform block.
pub fn camera_buffer() -> (desc: BufferDescriptor)
    ensures
        desc == uniform_buffer(CAMERA_UNIFORM_SIZE),
{
    BufferDescriptor {
        size: CAMERA_UNIFORM_SIZE,
        usage: BufferUsage { vertex: false, index: false, uniform: true, copy_dst: true },
        mapped_at_creation: false,
    }
}

/// The buffer that holds the object colour.
pub fn color_buffer() -> (desc: BufferDescriptor)
    ensures
        desc == uniform_buffer(COLOR_UNIFORM_SIZE),
{
    BufferDescriptor {
        size: COLOR_UNIFORM_SIZE,
        usage: BufferUsage { vertex: false, index: false, uniform: true, copy_dst: true },
        mapped_at_creation: false,
    }
}

/// The bytes of the object colour as they are written to the colour buffer.
pub fn object_color() -> (bytes: Vec<u8>)
    ensures
        bytes@ == memory_image(object_color_words()),
        bytes@.len() == COLOR_UNIFORM_SIZE,
{
    let mut words: Vec<u32> = Vec::new();
    words.push(F32_HALF_BITS);
    words.push(F32_HALF_BITS);
    words.push(0);
    words.push(F32_ONE_BITS);
    assert(words@ =~= object_color_words());
    words_to_bytes(&words)
}

/// The commands that draw one submesh: bind its index buffer, bind its
/// vertex buffer to slot 0, draw all of its indices once.
pub open spec fn submesh_commands(mesh: int, sub: int, count: int) -> Seq<Command> {
    seq![
        Command::SetIndexBuffer { mesh: mesh as usize, sub: sub as usize },
        Command::SetVertexBuffer { slot: 0, mesh: mesh as usize, sub: sub as usize },
        Command::DrawIndexed {
            first_index: 0,
            end_index: count as u32,
            base_vertex: 0,
            first_instance: 0,
            end_instance: 1,
        },
    ]
}

/// The commands that draw the first `n` submeshes of mesh number `mesh`, in
/// declaration order.
pub open spec fn mesh_commands(subs: Seq<SubMesh>, mesh: int, n: int) -> Seq<Command>
    decreases n,
{
    if n <= 0 {
        Seq::empty()
    } else {
        mesh_commands(subs, mesh, n - 1) + submesh_commands(
            mesh,
            n - 1,
            subs[n - 1].count as int,
        )
    }
}

/// The commands that draw the first `n` meshes, in declaration order.
pub open spec fn scene_commands(meshes: Seq<Mesh>, n: int) -> Seq<Command>
    decreases n,
{
    if n <= 0 {
        Seq::empty()
    } else {
        scene_commands(meshes, n - 1) + mesh_commands(
            meshes[n - 1].subs@,
            n - 1,
            meshes[n - 1].subs@.len() as int,
        )
    }
}

/// The commands that open the pass: clear the image to opaque black.
pub open spec fn pass_begin() -> Seq<Command> {
    seq![Command::BeginRenderPass { clear: color_black() }]
}

/// The commands that bind what every draw shares: the pipeline and the
/// uniform bind group with both dynamic offsets at zero.
pub open spec fn pass_bindings() -> Seq<Command> {
    seq![
        Command::SetPipeline,
        Command::SetBindGroup { index: 0, camera_offset: 0, color_offset: 0 },
    ]
}

/// The commands that close the frame: end the pass, submit, present.
pub open spec fn pass_end() -> Seq<Command> {
    seq![Command::EndRenderPass, Command::Submit, Command::Present]
}

/// The commands of one frame after the image was acquired. Without a scene
/// the pass only clears; with one it binds the pipeline and draws every
/// submesh of every mesh in declaration order.
pub open spec fn pass_commands(scene: Option<Scene>) -> Seq<Command> {
    match scene {
        Some(scene) => pass_begin() + pass_bindings() + scene_commands(
            scene.meshes@,
            scene.meshes@.len() as int,
        ) + pass_end(),
        None => pass_begin() + pass_end(),
    }
}

/// The state that a frame is rendered from: the loaded scene, if there is
/// one, and the camera.
///
/// Every submesh of the loaded scene is well formed: its buffers fit the
/// vertex layout and its index count.
#[derive(Debug, PartialEq, Eq)]
pub struct Viewer {
    scene: Option<Scene>,
    camera: Camera,
}

impl Viewer {
    #[verifier::type_invariant]
    spec fn wf(&self) -> bool {
        self.scene matches Some(scene) ==> scene.wf()
    }

    /// The loaded scene, if there is one.
    pub closed spec fn loaded(&self) -> Option<Scene> {
        self.scene
    }

    /// The camera that the next frame is rendered with.
    pub closed spec fn current_camera(&self) -> Camera {
        self.camera
    }

    /// Sets the viewer up from the decoded scene file, if one was given, and
    /// the camera.
    ///
    /// The scene is loaded exactly when a file was given and it imports
    /// without error. A file that does not import leaves the viewer without
    /// a scene; the error is returned beside the viewer.
    pub fn init(source: Option<&Vec<MeshData>>, camera: Camera) -> (result: (
        Viewer,
        Option<ImportError>,
    ))
        requires
            source matches Some(meshes) ==> scene_indices_fit(meshes@),
        ensures
            result.0.current_camera() == camera,
            result.0.loaded() is Some <==> source is Some && scene_error(source->0@) is None,
            result.0.loaded() matches Some(scene) ==> scene.is_upload_of(source->0@)
                && scene.wf(),
            result.1 == match source {
                Some(meshes) => scene_error(meshes@),
                None => None,
            },
    {
        match source {
            Some(meshes) => match from_gltf(meshes) {
                Ok(scene) => (Viewer { scene: Some(scene), camera }, None),
                Err(error) => (Viewer { scene: None, camera }, Some(error)),
            },
            None => (Viewer { scene: None, camera }, None),
        }
    }

    /// The loaded scene, if there is one. Every submesh of it is well formed.
    pub fn scene(&self) -> (scene: &Option<Scene>)
        ensures
            *scene == self.loaded(),
            *scene matches Some(loaded) ==> loaded.wf(),
    {
        proof {
            use_type_invariant(self);
        }
        &self.scene
    }

    /// The camera that the next frame is rendered with.
    pub fn camera(&self) -> (camera: Camera)
        ensures
            camera == self.current_camera(),
    {
        self.camera
    }

    /// Replaces the camera. The scene stays as it is.
    pub fn set_camera(&mut self, camera: Camera)
        ensures
            final(self).current_camera() == camera,
            final(self).loaded() == old(self).loaded(),
    {
        proof {
            use_type_invariant(&*self);
        }
        self.camera = camera;
    }

    /// The first command of every frame: write the camera to the start of
    /// its buffer. The bytes to write are those of `camera_bytes`.
    pub fn begin_frame(&self) -> (command: Command)
        ensures
            command == (Command::WriteCamera { offset: 0 }),
    {
        Command::WriteCamera { offset: 0 }
    }

    /// The bytes of the camera as they are written at the start of a frame.
    pub fn camera_bytes(&self) -> (bytes: Vec<u8>)
        ensures
            bytes@ == memory_image(self.current_camera().uniform_words()),
            bytes@.len() == CAMERA_UNIFORM_SIZE,
    {
        self.camera.uniform_bytes()
    }

    /// Records the commands of one frame for an acquired image.
    pub fn render(&self) -> (commands: Vec<Command>)
        ensures
            commands@ == pass_commands(self.loaded()),
    {
        proof {
            use_type_invariant(self);
        }
        let mut commands: Vec<Command> = Vec::new();
        commands.push(Command::BeginRenderPass { clear: Color::black() });
        assert(commands@ =~= pass_begin());
        match &self.scene {
            Some(scene) => {
                commands.push(Command::SetPipeline);
                commands.push(
                    Command::SetBindGroup { index: 0, camera_offset: 0, color_offset: 0 },
                );
                let ghost head = pass_begin() + pass_bindings();
                assert(commands@ =~= head);
                let mut m: usize = 0;
                while m < scene.meshes.len()
                    invariant
                        m <= scene.meshes.len(),
                        scene.wf(),
                        head == pass_begin() + pass_bindings(),
                        commands@ == head + scene_commands(scene.meshes@, m as int),
                    decreases scene.meshes.len() - m,
                {
                    let mesh = &scene.meshes[m];
                    let ghost before = commands@;
                    let mut s: usize = 0;
                    while s < mesh.subs.len()
                        invariant
                            s <= mesh.subs.len(),
                            mesh.wf(),
                            commands@ == before + mesh_commands(mesh.subs@, m as int, s as int),
                        decreases mesh.subs.len() - s,
                    {
                        let sub = &mesh.subs[s];
                        assert(sub.wf());
                        commands.push(Command::SetIndexBuffer { mesh: m, sub: s });
                        commands.push(Command::SetVertexBuffer { slot: 0, mesh: m, sub: s });
                        commands.push(
                            Command::DrawIndexed {
                                first_index: 0,
                                end_index: sub.count as u32,
                                base_vertex: 0,
                                first_instance: 0,
                                end_instance: 1,
                            },
                        );
                        assert(commands@ =~= before + mesh_commands(
                            mesh.subs@,
                            m as int,
                            s as int,
                        ) + submesh_commands(m as int, s as int, sub.count as int));
                        assert(commands@ =~= before + mesh_commands(mesh.subs@, m as int, s + 1));
                        s += 1;
                    }
                    assert(commands@ =~= head + scene_commands(scene.meshes@, m + 1));
                    m += 1;
                }
            },
            None => {},
        }
        let ghost body = commands@;
        commands.push(Command::EndRenderPass);
        commands.push(Command::Submit);
        commands.push(Command::Present);
        assert(commands@ =~= body + pass_end());
        commands
    }

    /// Takes the outcome of an attempt to acquire the image of this frame.
    ///
    /// With an image the frame is recorded. After a first failure the chain
    /// is to be rebuilt and the acquisition retried once. After a failure of
    /// the retry the frame is given up and nothing is recorded.
    pub fn on_acquire(&self, renderer: &mut ScreenRenderer, acquired: bool) -> (step: FrameStep)
        requires
            can_acquire(old(renderer).surface_status()),
        ensures
            final(renderer).descriptor() == old(renderer).descriptor(),
            final(renderer).surface_status() == status_after_acquire(
                old(renderer).surface_status(),
                acquired,
            ),
            match acquire_step(old(renderer).surface_status(), old(renderer).descriptor(), acquired) {
                AcquireStep::Render => step matches FrameStep::Record(commands) && commands@
                    == pass_commands(self.loaded()),
                AcquireStep::RecreateAndRetry(desc) => step == FrameStep::RecreateAndRetry(desc),
                AcquireStep::Fatal(error) => step == FrameStep::Abort(error),
            },
    {
        match renderer.on_acquire(acquired) {
            AcquireStep::Render => FrameStep::Record(self.render()),
            AcquireStep::RecreateAndRetry(desc) => FrameStep::RecreateAndRetry(desc),
            AcquireStep::Fatal(error) => FrameStep::Abort(error),
        }
    }
}

/// Number of submeshes in the first `m` meshes.
pub open spec fn subs_before(meshes: Seq<Mesh>, m: int) -> int
    decreases m,
{
    if m <= 0 {
        0
    } else {
        subs_before(meshes, m - 1) + meshes[m - 1].subs@.len()
    }
}

/// Where the commands of submesh `s` of mesh `m` start among the commands of
/// a frame with a scene: after the three commands that open the pass and
/// bind what is shared, three commands for each submesh before it.
pub open spec fn draw_position(meshes: Seq<Mesh>, m: int, s: int) -> int {
    3 + 3 * (subs_before(meshes, m) + s)
}

/// The first `n` submeshes of a mesh take three commands each, and the
/// commands of submesh `s` are the three that start at `3 * s`.
pub proof fn lemma_mesh_commands(subs: Seq<SubMesh>, mesh: int, n: int, s: int)
    requires
        0 <= s < n <= subs.len(),
    ensures
        mesh_commands(subs, mesh, n).len() == 3 * n,
        mesh_commands(subs, mesh, n).subrange(3 * s, 3 * s + 3) == submesh_commands(
            mesh,
            s,
            subs[s].count as int,
        ),
    decreases n,
{
    lemma_mesh_commands_len(subs, mesh, n - 1);
    let head = mesh_commands(subs, mesh, n - 1);
    let last = submesh_commands(mesh, n - 1, subs[n - 1].count as int);
    if s == n - 1 {
        assert((head + last).subrange(3 * s, 3 * s + 3) =~= last);
    } else {
        lemma_mesh_commands(subs, mesh, n - 1, s);
        assert((head + last).subrange(3 * s, 3 * s + 3) =~= head.subrange(3 * s, 3 * s + 3));
    }
}

/// The first `n` submeshes of a mesh take three commands each.
pub proof fn lemma_mesh_commands_len(subs: Seq<SubMesh>, mesh: int, n: int)
    requires
        0 <= n <= subs.len(),
    ensures
        mesh_commands(subs, mesh, n).len() == 3 * n,
    decreases n,
{
    if n > 0 {
        lemma_mesh_commands_len(subs, mesh, n - 1);
    }
}

/// The number of submeshes before a mesh grows with the number of the mesh.
pub proof fn lemma_subs_before_grows(meshes: Seq<Mesh>, m: int, n: int)
    requires
        0 <= m <= n <= meshes.len(),
    ensures
        0 <= subs_before(meshes, m) <= subs_before(meshes, n),
    decreases n,
{
    if m < n {
        lemma_subs_before_grows(meshes, m, n - 1);
    } else if n > 0 {
        lemma_subs_before_grows(meshes, m - 1, n - 1);
    }
}

/// The first `n` meshes take three commands for each of their submeshes.
pub proof fn lemma_scene_commands_len(meshes: Seq<Mesh>, n: int)
    requires
        0 <= n <= meshes.len(),
    ensures
        scene_commands(meshes, n).len() == 3 * subs_before(meshes, n),
    decreases n,
{
    if n > 0 {
        lemma_scene_commands_len(meshes, n - 1);
        lemma_mesh_commands_len(meshes[n - 1].subs@, n - 1, meshes[n - 1].subs@.len() as int);
    }
}

/// Among the commands of the first `n` meshes, those of submesh `s` of mesh
/// `m` are the three that start three commands after each submesh before it.
pub proof fn lemma_scene_commands(meshes: Seq<Mesh>, n: int, m: int, s: int)
    requires
        0 <= m < n <= meshes.len(),
        0 <= s < meshes[m].subs@.len(),
    ensures
        3 * (subs_before(meshes, m) + s) + 3 <= scene_commands(meshes, n).len(),
        scene_commands(meshes, n).subrange(
            3 * (subs_before(meshes, m) + s),
            3 * (subs_before(meshes, m) + s) + 3,
        ) == submesh_commands(m, s, meshes[m].subs@[s].count as int),
    decreases n,
{
    let head = scene_commands(meshes, n - 1);
    let subs = meshes[n - 1].subs@;
    let last = mesh_commands(subs, n - 1, subs.len() as int);
    let at = 3 * (subs_before(meshes, m) + s);
    lemma_scene_commands_len(meshes, n - 1);
    lemma_scene_commands_len(meshes, n);
    lemma_subs_before_grows(meshes, m, n - 1);
    if m == n - 1 {
        lemma_mesh_commands(subs, m, subs.len() as int, s);
        assert((head + last).subrange(at, at + 3) =~= last.subrange(3 * s, 3 * s + 3));
    } else {
        lemma_scene_commands(meshes, n - 1, m, s);
        assert((head + last).subrange(at, at + 3) =~= head.subrange(at, at + 3));
    }
}

/// A frame with no loaded scene still clears and presents: its pass opens
/// with the clear to opaque black, draws nothing, and ends with submit and
/// present.
pub proof fn lemma_empty_frame_clears_and_presents()
    ensures
        pass_commands(None) == seq![
            Command::BeginRenderPass { clear: color_black() },
            Command::EndRenderPass,
            Command::Submit,
            Command::Present,
        ],
{
    assert(pass_commands(None) =~= seq![
        Command::BeginRenderPass { clear: color_black() },
        Command::EndRenderPass,
        Command::Submit,
        Command::Present,
    ]);
}

/// Every frame, with or without a scene, begins with the clear and ends with
/// end of pass, submit and present, in this order.
pub proof fn lemma_frame_shape(scene: Option<Scene>)
    ensures
        pass_commands(scene).len() >= 4,
        pass_commands(scene).first() == (Command::BeginRenderPass { clear: color_black() }),
        pass_commands(scene).subrange(
            pass_commands(scene).len() - 3,
            pass_commands(scene).len() as int,
        ) == pass_end(),
        scene matches Some(loaded) ==> pass_commands(scene).len() == 6 + 3 * subs_before(
            loaded.meshes@,
            loaded.meshes@.len() as int,
        ),
{
    let commands = pass_commands(scene);
    match scene {
        Some(loaded) => {
            lemma_scene_commands_len(loaded.meshes@, loaded.meshes@.len() as int);
            lemma_subs_before_grows(loaded.meshes@, 0, loaded.meshes@.len() as int);
        },
        None => {},
    }
    assert(commands.subrange(commands.len() - 3, commands.len() as int) =~= pass_end());
}

/// Draws are recorded in declaration order. In a frame with a scene, the
/// three commands of each submesh stand together at its draw position, and
/// of two submeshes the one that is declared first, in an earlier mesh or
/// earlier in the same mesh, has all of its commands before those of the
/// other.
pub proof fn lemma_draws_follow_declaration_order(
    scene: Scene,
    m1: int,
    s1: int,
    m2: int,
    s2: int,
)
    requires
        0 <= m1 < scene.meshes@.len(),
        0 <= s1 < scene.meshes@[m1].subs@.len(),
        0 <= m2 < scene.meshes@.len(),
        0 <= s2 < scene.meshes@[m2].subs@.len(),
        m1 < m2 || (m1 == m2 && s1 < s2),
    ensures
        pass_commands(Some(scene)).subrange(
            draw_position(scene.meshes@, m1, s1),
            draw_position(scene.meshes@, m1, s1) + 3,
        ) == submesh_commands(m1, s1, scene.meshes@[m1].subs@[s1].count as int),
        pass_commands(Some(scene)).subrange(
            draw_position(scene.meshes@, m2, s2),
            draw_position(scene.meshes@, m2, s2) + 3,
        ) == submesh_commands(m2, s2, scene.meshes@[m2].subs@[s2].count as int),
        draw_position(scene.meshes@, m1, s1) + 3 <= draw_position(scene.meshes@, m2, s2),
        draw_position(scene.meshes@, m2, s2) + 3 <= pass_commands(Some(scene)).len() - 3,
{
    let meshes = scene.meshes@;
    lemma_draw_position(scene, m1, s1);
    lemma_draw_position(scene, m2, s2);
    if m1 < m2 {
        lemma_subs_before_grows(meshes, m1 + 1, m2);
        assert(subs_before(meshes, m1 + 1) == subs_before(meshes, m1) + meshes[m1].subs@.len());
    }
}

/// In a frame with a scene, the commands of submesh `s` of mesh `m` are the
/// three that start at its draw position, inside the render pass.
pub proof fn lemma_draw_position(scene: Scene, m: int, s: int)
    requires
        0 <= m < scene.meshes@.len(),
        0 <= s < scene.meshes@[m].subs@.len(),
    ensures
        3 <= draw_position(scene.meshes@, m, s),
        draw_position(scene.meshes@, m, s) + 3 <= pass_commands(Some(scene)).len() - 3,
        pass_commands(Some(scene)).subrange(
            draw_position(scene.meshes@, m, s),
            draw_position(scene.meshes@, m, s) + 3,
        ) == submesh_commands(m, s, scene.meshes@[m].subs@[s].count as int),
{
    let meshes = scene.meshes@;
    let n = meshes.len() as int;
    let draws = scene_commands(meshes, n);
    let at = 3 * (subs_before(meshes, m) + s);
    lemma_scene_commands(meshes, n, m, s);
    lemma_subs_before_grows(meshes, 0, m);
    let head = pass_begin() + pass_bindings();
    assert(head.len() == 3);
    let all = pass_commands(Some(scene));
    assert(all =~= head + draws + pass_end());
    assert(all.subrange(3 + at, 3 + at + 3) =~= draws.subrange(at, at + 3));
}

/// The pipeline reads the buffers of a submesh as the uploader wrote them.
/// With the stride and the attributes of the pipeline's one vertex buffer
/// layout, attribute 0 of vertex `v` is position `v` of the primitive and
/// attribute 1 is its normal, the vertex buffer holds one stride for each
/// position, and the index buffer holds `count` indices of the pipeline's
/// index format.
pub proof fn lemma_pipeline_reads_what_was_uploaded(
    resource: PipelineResource,
    vertex: Seq<u32>,
    fragment: Seq<u32>,
    format: TextureFormat,
    sub: SubMesh,
    primitive: PrimitiveView,
    v: int,
)
    requires
        resource.is_select_pipeline(vertex, fragment, format),
        sub.is_upload_of(primitive),
        0 <= v < primitive.positions->0.len(),
    ensures
        ({
            let layout = resource.pipeline.vertex_buffers@[0];
            let position = layout.attributes@[0];
            let normal = layout.attributes@[1];
            &&& layout.attributes@.len() == 2
            &&& position.shader_location == POSITION_LOCATION
            &&& normal.shader_location == NORMAL_LOCATION
            &&& sub.vertex_buffer@.len() == layout.stride * primitive.positions->0.len()
            &&& sub.vertex_buffer@.subrange(
                layout.stride * v + position.offset,
                layout.stride * v + position.offset + position.format.spec_size(),
            ) == memory_image(primitive.positions->0[v]@)
            &&& sub.vertex_buffer@.subrange(
                layout.stride * v + normal.offset,
                layout.stride * v + normal.offset + normal.format.spec_size(),
            ) == memory_image(normal_of(primitive.normals, v))
            &&& resource.pipeline.index_format == IndexFormat::Uint32
            &&& sub.index_buffer@.len() == 4 * sub.count
        }),
{
    lemma_vertex_fields(sub, primitive, v);
    let layout = resource.pipeline.vertex_buffers@[0];
    assert(layout.attributes@[0] == position_attribute());
    assert(layout.attributes@[1] == normal_attribute());
    assert(sub.vertex_buffer@.subrange(24 * v + 0, 24 * v + 0 + 12) == position_bytes(
        sub.vertex_buffer@,
        v,
    ));
    assert(sub.vertex_buffer@.subrange(24 * v + 12, 24 * v + 12 + 12) == normal_bytes(
        sub.vertex_buffer@,
        v,
    ));
}

/// The uniform buffers fit the bindings of the pipeline: the camera buffer
/// holds exactly the 128 bytes that binding 0 asks for and that a camera
/// writes, the colour buffer exactly the 16 bytes that binding 1 asks for and
/// that the object colour writes.
pub proof fn lemma_uniforms_fit_bindings(camera: Camera)
    ensures
        camera_entry().ty == (BindingType::UniformBuffer {
            dynamic: true,
            min_binding_size: uniform_buffer(CAMERA_UNIFORM_SIZE).size,
        }),
        color_entry().ty == (BindingType::UniformBuffer {
            dynamic: true,
            min_binding_size: uniform_buffer(COLOR_UNIFORM_SIZE).size,
        }),
        memory_image(camera.uniform_words()).len() == uniform_buffer(CAMERA_UNIFORM_SIZE).size,
        memory_image(object_color_words()).len() == uniform_buffer(COLOR_UNIFORM_SIZE).size,
{
}

} // verus!
