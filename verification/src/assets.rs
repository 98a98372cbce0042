//! Turning decoded mesh data into the bytes of vertex and index buffers.
//!
//! A scene file is decoded outside this crate into attribute arrays: for each
//! primitive its positions, optionally its normals, its indices and its
//! drawing mode. Every component of a position or normal is a 32-bit float
//! held as its bit pattern. From these arrays this module builds, for each
//! primitive, the content of one vertex buffer and one index buffer.

use vstd::prelude::*;
use crate::bytes::{
    lemma_image_injective, lemma_image_of_zeros, lemma_image_subrange, memory_image, words_to_bytes,
};
use vstd::endian::endianness;
use crate::gpu::PrimitiveTopology;
use crate::layout::{NORMAL_OFFSET, POSITION_OFFSET, VERTEX_STRIDE, WORDS_PER_VERTEX};

verus! {

/// How the indices of a primitive are to be read, as the scene file says it.
#[derive(Clone, Copy, Debug, PartialEq, Eq, Structural)]
pub enum Mode {
    Points,
    Lines,
    LineLoop,
    LineStrip,
    Triangles,
    TriangleStrip,
    TriangleFan,
}

/// Why a scene could not be imported.
#[derive(Clone, Copy, Debug, PartialEq, Eq, Structural)]
pub enum ImportError {
    /// A primitive has no positions.
    MissingAttribute,
    /// A primitive has no indices.
    MissingIndices,
    /// A primitive is drawn in a mode that the device does not offer.
    UnsupportedTopology,
}

/// The decoded attribute arrays of one primitive.
#[derive(Debug, PartialEq, Eq)]
pub struct PrimitiveData {
    pub positions: Option<Vec<[u32; 3]>>,
    pub normals: Option<Vec<[u32; 3]>>,
    pub indices: Option<Vec<u32>>,
    pub mode: Mode,
}

/// One decoded mesh: its name and its primitives in declaration order.
#[derive(Debug, PartialEq, Eq)]
pub struct MeshData {
    pub name: String,
    pub primitives: Vec<PrimitiveData>,
}

/// One drawable unit: the bytes of its vertex and index buffer, the number
/// of its indices and its topology. Indices are 32 bits wide.
#[derive(Debug, PartialEq, Eq)]
pub struct SubMesh {
    pub count: usize,
    pub vertex_buffer: Vec<u8>,
    pub index_buffer: Vec<u8>,
    pub mode: PrimitiveTopology,
}

/// A named sequence of submeshes.
#[derive(Debug, PartialEq, Eq)]
pub struct Mesh {
    pub name: String,
    pub subs: Vec<SubMesh>,
}

/// Everything that was imported from one scene file.
#[derive(Debug, PartialEq, Eq)]
pub struct Scene {
    pub meshes: Vec<Mesh>,
}

/// The attribute arrays of one primitive as sequences.
pub struct PrimitiveView {
    pub positions: Option<Seq<[u32; 3]>>,
    pub normals: Option<Seq<[u32; 3]>>,
    pub indices: Option<Seq<u32>>,
    pub mode: Mode,
}

/// An optional array of vectors as an optional sequence.
pub open spec fn vectors_view(vectors: Option<Vec<[u32; 3]>>) -> Option<Seq<[u32; 3]>> {
    match vectors {
        Some(v) => Some(v@),
        None => None,
    }
}

/// An optional array of words as an optional sequence.
pub open spec fn words_view(words: Option<Vec<u32>>) -> Option<Seq<u32>> {
    match words {
        Some(w) => Some(w@),
        None => None,
    }
}

impl View for PrimitiveData {
    type V = PrimitiveView;

    open spec fn view(&self) -> PrimitiveView {
        PrimitiveView {
            positions: vectors_view(self.positions),
            normals: vectors_view(self.normals),
            indices: words_view(self.indices),
            mode: self.mode,
        }
    }
}

/// The topology that a mode is drawn with; `None` for line loops and
/// triangle fans, which have none.
pub open spec fn topology_of(mode: Mode) -> Option<PrimitiveTopology> {
    match mode {
        Mode::Points => Some(PrimitiveTopology::PointList),
        Mode::Lines => Some(PrimitiveTopology::LineList),
        Mode::LineStrip => Some(PrimitiveTopology::LineStrip),
        Mode::Triangles => Some(PrimitiveTopology::TriangleList),
        Mode::TriangleStrip => Some(PrimitiveTopology::TriangleStrip),
        Mode::LineLoop => None,
        Mode::TriangleFan => None,
    }
}

/// Why a primitive cannot be uploaded, if it cannot. Positions are looked
/// for first, then indices, then the mode.
pub open spec fn primitive_error(primitive: PrimitiveView) -> Option<ImportError> {
    if primitive.positions is None {
        Some(ImportError::MissingAttribute)
    } else if primitive.indices is None {
        Some(ImportError::MissingIndices)
    } else if topology_of(primitive.mode) is None {
        Some(ImportError::UnsupportedTopology)
    } else {
        None
    }
}

/// The normal of vertex `v`: the normal with the same number where there is
/// one, the zero vector otherwise.
pub open spec fn normal_of(normals: Option<Seq<[u32; 3]>>, v: int) -> Seq<u32> {
    if normals is Some && 0 <= v < normals->0.len() {
        normals->0[v]@
    } else {
        seq![0u32, 0u32, 0u32]
    }
}

/// The words of vertex `v`: its position, then its normal.
pub open spec fn vertex_of(
    positions: Seq<[u32; 3]>,
    normals: Option<Seq<[u32; 3]>>,
    v: int,
) -> Seq<u32> {
    positions[v]@ + normal_of(normals, v)
}

/// The words of a vertex buffer: one vertex after the other, in the order of
/// the positions.
pub open spec fn vertex_words(positions: Seq<[u32; 3]>, normals: Option<Seq<[u32; 3]>>) -> Seq<
    u32,
> {
    Seq::new(
        WORDS_PER_VERTEX as nat * positions.len(),
        |k: int| vertex_of(positions, normals, k / WORDS_PER_VERTEX as int)[k % WORDS_PER_VERTEX as int],
    )
}

impl SubMesh {
    /// Whether the buffers fit the vertex layout and the index count: the
    /// vertex buffer holds whole vertices, the index buffer holds `count`
    /// 32-bit indices, and `count` fits the range of a draw call.
    pub open spec fn wf(&self) -> bool {
        &&& self.vertex_buffer@.len() % VERTEX_STRIDE as nat == 0
        &&& self.index_buffer@.len() == 4 * self.count
        &&& self.count <= u32::MAX
    }

    /// Number of vertices in the vertex buffer.
    pub open spec fn vertex_count(&self) -> nat {
        self.vertex_buffer@.len() / VERTEX_STRIDE as nat
    }

    /// Whether this submesh is what the primitive uploads to: the vertex
    /// buffer is the memory image of the interleaved vertices, the index
    /// buffer that of the indices, `count` is the number of indices and the
    /// topology is that of the primitive's mode.
    pub open spec fn is_upload_of(&self, primitive: PrimitiveView) -> bool {
        &&& primitive.positions is Some
        &&& primitive.indices is Some
        &&& self.vertex_buffer@ == memory_image(
            vertex_words(primitive.positions->0, primitive.normals),
        )
        &&& self.index_buffer@ == memory_image(primitive.indices->0)
        &&& self.count == primitive.indices->0.len()
        &&& Some(self.mode) == topology_of(primitive.mode)
    }
}

/// Maps the mode of a primitive to the topology it is drawn with. Line loops
/// and triangle fans are refused.
pub fn get_primitive_mode(mode: Mode) -> (result: Result<PrimitiveTopology, ImportError>)
    ensures
        match topology_of(mode) {
            Some(topology) => result == Ok::<PrimitiveTopology, ImportError>(topology),
            None => result == Err::<PrimitiveTopology, ImportError>(
                ImportError::UnsupportedTopology,
            ),
        },
{
    match mode {
        Mode::Points => Ok(PrimitiveTopology::PointList),
        Mode::Lines => Ok(PrimitiveTopology::LineList),
        Mode::LineStrip => Ok(PrimitiveTopology::LineStrip),
        Mode::Triangles => Ok(PrimitiveTopology::TriangleList),
        Mode::TriangleStrip => Ok(PrimitiveTopology::TriangleStrip),
        _ => Err(ImportError::UnsupportedTopology),
    }
}

/// Interleaves positions and normals into the words of a vertex buffer.
/// Vertex `i` takes normal `i` where there is one and the zero vector
/// otherwise; normals beyond the last position are not used.
pub fn interleave(positions: &Vec<[u32; 3]>, normals: &Option<Vec<[u32; 3]>>) -> (words: Vec<u32>)
    ensures
        words@ == vertex_words(positions@, vectors_view(*normals)),
        words@.len() == WORDS_PER_VERTEX * positions@.len(),
{
    let ghost nv = vectors_view(*normals);
    let mut words: Vec<u32> = Vec::new();
    let mut i: usize = 0;
    while i < positions.len()
        invariant
            i <= positions.len(),
            nv == vectors_view(*normals),
            words@.len() == 6 * i,
            forall|k: int|
                0 <= k < 6 * i ==> words@[k] == #[trigger] vertex_of(positions@, nv, k / 6)[k % 6],
        decreases positions.len() - i,
    {
        let position = positions[i];
        let normal: [u32; 3] = match normals {
            Some(ns) => if i < ns.len() {
                ns[i]
            } else {
                [0, 0, 0]
            },
            None => [0, 0, 0],
        };
        let ghost before = words@;
        words.push(position[0]);
        words.push(position[1]);
        words.push(position[2]);
        words.push(normal[0]);
        words.push(normal[1]);
        words.push(normal[2]);
        proof {
            let vertex = vertex_of(positions@, nv, i as int);
            assert(normal@ =~= normal_of(nv, i as int));
            assert(vertex =~= seq![
                position[0],
                position[1],
                position[2],
                normal[0],
                normal[1],
                normal[2],
            ]);
            assert forall|k: int| 0 <= k < 6 * (i + 1) implies words@[k] == #[trigger] vertex_of(
                positions@,
                nv,
                k / 6,
            )[k % 6] by {
                if k < 6 * i {
                    assert(words@[k] == before[k]);
                } else {
                    assert(k / 6 == i as int);
                    assert(words@[k] == vertex[k - 6 * i]);
                }
            }
        }
        i += 1;
    }
    assert(words@ =~= vertex_words(positions@, nv));
    words
}

/// Builds the submesh of one primitive.
///
/// A primitive without positions is refused as `MissingAttribute`, one with
/// positions but without indices as `MissingIndices`, one whose mode has no
/// topology as `UnsupportedTopology`. Any other primitive is uploaded: its
/// vertex buffer has 24 bytes per position.
pub fn upload_primitive(primitive: &PrimitiveData) -> (result: Result<SubMesh, ImportError>)
    requires
        primitive@.indices matches Some(indices) ==> indices.len() <= u32::MAX,
    ensures
        match primitive_error(primitive@) {
            Some(error) => result == Err::<SubMesh, ImportError>(error),
            None => {
                &&& result is Ok
                &&& result->Ok_0.is_upload_of(primitive@)
                &&& result->Ok_0.wf()
                &&& result->Ok_0.vertex_buffer@.len() == VERTEX_STRIDE
                    * primitive@.positions->0.len()
            },
        },
{
    let positions = match &primitive.positions {
        Some(positions) => positions,
        None => {
            return Err(ImportError::MissingAttribute);
        },
    };
    let vertices = interleave(positions, &primitive.normals);
    let vertex_buffer = words_to_bytes(&vertices);

    let indices = match &primitive.indices {
        Some(indices) => indices,
        None => {
            return Err(ImportError::MissingIndices);
        },
    };
    let index_buffer = words_to_bytes(indices);

    let mode = match get_primitive_mode(primitive.mode) {
        Ok(mode) => mode,
        Err(error) => {
            return Err(error);
        },
    };

    Ok(SubMesh { count: indices.len(), vertex_buffer, index_buffer, mode })
}

/// The first error among the first `n` primitives, in declaration order.
pub open spec fn first_error(primitives: Seq<PrimitiveData>, n: int) -> Option<ImportError>
    decreases n,
{
    if n <= 0 {
        None
    } else {
        match first_error(primitives, n - 1) {
            Some(error) => Some(error),
            None => primitive_error(primitives[n - 1]@),
        }
    }
}

/// The first error among the primitives of a mesh.
pub open spec fn mesh_error(mesh: MeshData) -> Option<ImportError> {
    first_error(mesh.primitives@, mesh.primitives@.len() as int)
}

/// The first error among the first `n` meshes, in declaration order.
pub open spec fn first_mesh_error(meshes: Seq<MeshData>, n: int) -> Option<ImportError>
    decreases n,
{
    if n <= 0 {
        None
    } else {
        match first_mesh_error(meshes, n - 1) {
            Some(error) => Some(error),
            None => mesh_error(meshes[n - 1]),
        }
    }
}

/// Why a scene cannot be imported, if it cannot: the error of the first
/// primitive that has one, going through the meshes in order and through the
/// primitives of each mesh in order.
pub open spec fn scene_error(meshes: Seq<MeshData>) -> Option<ImportError> {
    first_mesh_error(meshes, meshes.len() as int)
}

/// Whether the index count of every primitive fits the range of a draw call.
pub open spec fn indices_fit(mesh: MeshData) -> bool {
    forall|p: int|
        0 <= p < mesh.primitives@.len() ==> (
        (#[trigger] mesh.primitives@[p])@.indices matches Some(indices) ==> indices.len()
            <= u32::MAX)
}

/// Whether the index count of every primitive of every mesh fits the range
/// of a draw call.
pub open spec fn scene_indices_fit(meshes: Seq<MeshData>) -> bool {
    forall|m: int| 0 <= m < meshes.len() ==> indices_fit(#[trigger] meshes[m])
}

impl Mesh {
    /// Whether every submesh is well formed.
    pub open spec fn wf(&self) -> bool {
        forall|p: int| 0 <= p < self.subs@.len() ==> (#[trigger] self.subs@[p]).wf()
    }

    /// Whether this mesh is what `data` uploads to: the same name, and one
    /// submesh for each primitive, in the same order.
    pub open spec fn is_upload_of(&self, data: MeshData) -> bool {
        &&& self.name@ == data.name@
        &&& self.subs@.len() == data.primitives@.len()
        &&& forall|p: int|
            0 <= p < self.subs@.len() ==> (#[trigger] self.subs@[p]).is_upload_of(
                data.primitives@[p]@,
            )
    }
}

impl Scene {
    /// Whether every submesh of every mesh is well formed.
    pub open spec fn wf(&self) -> bool {
        forall|m: int| 0 <= m < self.meshes@.len() ==> (#[trigger] self.meshes@[m]).wf()
    }

    /// Whether this scene is what `meshes` uploads to: one mesh for each
    /// decoded mesh, in the same order.
    pub open spec fn is_upload_of(&self, meshes: Seq<MeshData>) -> bool {
        &&& self.meshes@.len() == meshes.len()
        &&& forall|m: int|
            0 <= m < self.meshes@.len() ==> (#[trigger] self.meshes@[m]).is_upload_of(meshes[m])
    }
}

/// Tells whether the index count of every primitive of a mesh fits the
/// range of a draw call.
pub fn mesh_fits_draw_range(mesh: &MeshData) -> (fits: bool)
    ensures
        fits == indices_fit(*mesh),
{
    let mut p: usize = 0;
    while p < mesh.primitives.len()
        invariant
            p <= mesh.primitives.len(),
            forall|q: int|
                0 <= q < p ==> ((#[trigger] mesh.primitives@[q])@.indices matches Some(indices)
                    ==> indices.len() <= u32::MAX),
        decreases mesh.primitives.len() - p,
    {
        match &mesh.primitives[p].indices {
            Some(indices) => {
                if indices.len() > u32::MAX as usize {
                    assert(mesh.primitives@[p as int]@.indices is Some);
                    return false;
                }
            },
            None => {},
        }
        p += 1;
    }
    true
}

/// Tells whether the index count of every primitive of every mesh fits the
/// range of a draw call. Only such scenes can be imported.
pub fn fits_draw_range(meshes: &Vec<MeshData>) -> (fits: bool)
    ensures
        fits == scene_indices_fit(meshes@),
{
    let mut m: usize = 0;
    while m < meshes.len()
        invariant
            m <= meshes.len(),
            forall|n: int| 0 <= n < m ==> indices_fit(#[trigger] meshes@[n]),
        decreases meshes.len() - m,
    {
        if !mesh_fits_draw_range(&meshes[m]) {
            return false;
        }
        m += 1;
    }
    true
}

/// Builds one mesh from its decoded data: one submesh for each primitive, in
/// declaration order, under the name of the mesh. The first primitive that
/// cannot be uploaded decides the error.
pub fn upload_mesh(data: &MeshData) -> (result: Result<Mesh, ImportError>)
    requires
        indices_fit(*data),
    ensures
        match mesh_error(*data) {
            Some(error) => result == Err::<Mesh, ImportError>(error),
            None => {
                &&& result is Ok
                &&& result->Ok_0.is_upload_of(*data)
                &&& result->Ok_0.wf()
            },
        },
{
    let mut subs: Vec<SubMesh> = Vec::new();
    let mut p: usize = 0;
    while p < data.primitives.len()
        invariant
            p <= data.primitives.len(),
            indices_fit(*data),
            first_error(data.primitives@, p as int) is None,
            subs@.len() == p,
            forall|q: int|
                0 <= q < p ==> (#[trigger] subs@[q]).is_upload_of(data.primitives@[q]@)
                    && subs@[q].wf(),
        decreases data.primitives.len() - p,
    {
        assert(first_error(data.primitives@, p + 1) == primitive_error(data.primitives@[p as int]@));
        match upload_primitive(&data.primitives[p]) {
            Ok(sub) => {
                subs.push(sub);
            },
            Err(error) => {
                proof {
                    lemma_first_error_stays(data.primitives@, p + 1, data.primitives@.len() as int);
                }
                return Err(error);
            },
        }
        p += 1;
    }
    Ok(Mesh { name: data.name.clone(), subs })
}

/// Imports a decoded scene: one mesh for each decoded mesh, in declaration
/// order. The import fails as a whole with the error of the first primitive
/// that cannot be uploaded, and then nothing is built.
pub fn from_gltf(meshes: &Vec<MeshData>) -> (result: Result<Scene, ImportError>)
    requires
        scene_indices_fit(meshes@),
    ensures
        match scene_error(meshes@) {
            Some(error) => result == Err::<Scene, ImportError>(error),
            None => {
                &&& result is Ok
                &&& result->Ok_0.is_upload_of(meshes@)
                &&& result->Ok_0.wf()
            },
        },
{
    let mut built: Vec<Mesh> = Vec::new();
    let mut m: usize = 0;
    while m < meshes.len()
        invariant
            m <= meshes.len(),
            scene_indices_fit(meshes@),
            first_mesh_error(meshes@, m as int) is None,
            built@.len() == m,
            forall|n: int|
                0 <= n < m ==> (#[trigger] built@[n]).is_upload_of(meshes@[n]) && built@[n].wf(),
        decreases meshes.len() - m,
    {
        assert(first_mesh_error(meshes@, m + 1) == mesh_error(meshes@[m as int]));
        match upload_mesh(&meshes[m]) {
            Ok(mesh) => {
                built.push(mesh);
            },
            Err(error) => {
                proof {
                    lemma_first_mesh_error_stays(meshes@, m + 1, meshes@.len() as int);
                }
                return Err(error);
            },
        }
        m += 1;
    }
    Ok(Scene { meshes: built })
}

/// Once an error was found among the first `n` primitives, looking at more
/// of them finds the same error.
pub proof fn lemma_first_error_stays(primitives: Seq<PrimitiveData>, n: int, more: int)
    requires
        n <= more,
        first_error(primitives, n) is Some,
    ensures
        first_error(primitives, more) == first_error(primitives, n),
    decreases more - n,
{
    if n < more {
        lemma_first_error_stays(primitives, n, more - 1);
    }
}

/// Once an error was found among the first `n` meshes, looking at more of
/// them finds the same error.
pub proof fn lemma_first_mesh_error_stays(meshes: Seq<MeshData>, n: int, more: int)
    requires
        n <= more,
        first_mesh_error(meshes, n) is Some,
    ensures
        first_mesh_error(meshes, more) == first_mesh_error(meshes, n),
    decreases more - n,
{
    if n < more {
        lemma_first_mesh_error_stays(meshes, n, more - 1);
    }
}

/// The bytes of the position of vertex `v` in a vertex buffer.
pub open spec fn position_bytes(buffer: Seq<u8>, v: int) -> Seq<u8> {
    buffer.subrange(VERTEX_STRIDE * v + POSITION_OFFSET, VERTEX_STRIDE * v + NORMAL_OFFSET)
}

/// The bytes of the normal of vertex `v` in a vertex buffer.
pub open spec fn normal_bytes(buffer: Seq<u8>, v: int) -> Seq<u8> {
    buffer.subrange(VERTEX_STRIDE * v + NORMAL_OFFSET, VERTEX_STRIDE * v + VERTEX_STRIDE)
}

/// The vertex buffer of any uploaded primitive has 24 bytes for each
/// position, and vertex `v` holds position `v` in its first twelve bytes and
/// its normal in the twelve bytes after them.
pub proof fn lemma_vertex_fields(sub: SubMesh, primitive: PrimitiveView, v: int)
    requires
        sub.is_upload_of(primitive),
        0 <= v < primitive.positions->0.len(),
    ensures
        sub.vertex_buffer@.len() == 24 * primitive.positions->0.len(),
        position_bytes(sub.vertex_buffer@, v) == memory_image(primitive.positions->0[v]@),
        normal_bytes(sub.vertex_buffer@, v) == memory_image(normal_of(primitive.normals, v)),
{
    let positions = primitive.positions->0;
    let words = vertex_words(positions, primitive.normals);
    let vertex = vertex_of(positions, primitive.normals, v);
    assert forall|c: int| 0 <= c < 6 implies #[trigger] words[6 * v + c] == vertex[c] by {
        assert((6 * v + c) / 6 == v);
        assert((6 * v + c) % 6 == c);
    }
    assert(words.subrange(6 * v, 6 * v + 3) =~= positions[v]@) by {
        assert(words[6 * v + 0] == vertex[0]);
        assert(words[6 * v + 1] == vertex[1]);
        assert(words[6 * v + 2] == vertex[2]);
    }
    assert(words.subrange(6 * v + 3, 6 * v + 6) =~= normal_of(primitive.normals, v)) by {
        assert(words[6 * v + 3] == vertex[3]);
        assert(words[6 * v + 4] == vertex[4]);
        assert(words[6 * v + 5] == vertex[5]);
    }
    lemma_image_subrange(words, endianness(), 6 * v, 6 * v + 3);
    lemma_image_subrange(words, endianness(), 6 * v + 3, 6 * v + 6);
}

/// A primitive with N positions and no normals uploads to a vertex buffer of
/// N x 24 bytes in which every byte of every normal is zero.
pub proof fn lemma_missing_normals_are_zero(sub: SubMesh, primitive: PrimitiveView)
    requires
        sub.is_upload_of(primitive),
        primitive.normals is None,
    ensures
        sub.vertex_buffer@.len() == 24 * primitive.positions->0.len(),
        forall|v: int|
            0 <= v < primitive.positions->0.len() ==> #[trigger] normal_bytes(
                sub.vertex_buffer@,
                v,
            ) == Seq::new(12, |i: int| 0u8),
{
    assert forall|v: int| 0 <= v < primitive.positions->0.len() implies #[trigger] normal_bytes(
        sub.vertex_buffer@,
        v,
    ) == Seq::new(12, |i: int| 0u8) by {
        lemma_vertex_fields(sub, primitive, v);
        lemma_image_of_zeros(normal_of(primitive.normals, v), endianness());
        assert(normal_bytes(sub.vertex_buffer@, v) =~= Seq::new(12, |i: int| 0u8));
    }
}

/// A primitive with N positions and N normals uploads to a vertex buffer in
/// which the normal of vertex `i` is input normal `i` and its position is
/// input position `i`, each as it lies in memory.
pub proof fn lemma_normals_are_kept(sub: SubMesh, primitive: PrimitiveView)
    requires
        sub.is_upload_of(primitive),
        primitive.normals is Some,
        primitive.normals->0.len() == primitive.positions->0.len(),
    ensures
        sub.vertex_buffer@.len() == 24 * primitive.positions->0.len(),
        forall|v: int|
            0 <= v < primitive.positions->0.len() ==> #[trigger] normal_bytes(
                sub.vertex_buffer@,
                v,
            ) == memory_image(primitive.normals->0[v]@),
        forall|v: int|
            0 <= v < primitive.positions->0.len() ==> #[trigger] position_bytes(
                sub.vertex_buffer@,
                v,
            ) == memory_image(primitive.positions->0[v]@),
{
    assert forall|v: int| 0 <= v < primitive.positions->0.len() implies #[trigger] normal_bytes(
        sub.vertex_buffer@,
        v,
    ) == memory_image(primitive.normals->0[v]@) by {
        lemma_vertex_fields(sub, primitive, v);
    }
    assert forall|v: int| 0 <= v < primitive.positions->0.len() implies #[trigger] position_bytes(
        sub.vertex_buffer@,
        v,
    ) == memory_image(primitive.positions->0[v]@) by {
        lemma_vertex_fields(sub, primitive, v);
    }
}

/// The vertex buffer determines what was uploaded: words whose memory image
/// is the normal field of vertex `v` are the normal of that vertex, and words
/// whose memory image is its position field are its position.
pub proof fn lemma_fields_determine_input(
    sub: SubMesh,
    primitive: PrimitiveView,
    v: int,
    words: Seq<u32>,
)
    requires
        sub.is_upload_of(primitive),
        0 <= v < primitive.positions->0.len(),
    ensures
        normal_bytes(sub.vertex_buffer@, v) == memory_image(words) ==> words == normal_of(
            primitive.normals,
            v,
        ),
        position_bytes(sub.vertex_buffer@, v) == memory_image(words) ==> words
            == primitive.positions->0[v]@,
{
    lemma_vertex_fields(sub, primitive, v);
    if normal_bytes(sub.vertex_buffer@, v) == memory_image(words) {
        lemma_image_injective(words, normal_of(primitive.normals, v), endianness());
    }
    if position_bytes(sub.vertex_buffer@, v) == memory_image(words) {
        lemma_image_injective(words, primitive.positions->0[v]@, endianness());
    }
}

/// A scene imports exactly when none of its primitives has an error.
pub proof fn lemma_scene_error_none(meshes: Seq<MeshData>)
    ensures
        scene_error(meshes) is None <==> forall|m: int, p: int|
            0 <= m < meshes.len() && 0 <= p < meshes[m].primitives@.len() ==> primitive_error(
                #[trigger] meshes[m].primitives@[p]@,
            ) is None,
{
    lemma_first_mesh_error_none(meshes, meshes.len() as int);
}

/// No error among the first `n` primitives means that none of them has one.
pub proof fn lemma_first_error_none(primitives: Seq<PrimitiveData>, n: int)
    requires
        0 <= n <= primitives.len(),
    ensures
        first_error(primitives, n) is None <==> forall|p: int|
            0 <= p < n ==> primitive_error(#[trigger] primitives[p]@) is None,
    decreases n,
{
    if n > 0 {
        lemma_first_error_none(primitives, n - 1);
        if first_error(primitives, n) is None {
            assert forall|p: int| 0 <= p < n implies primitive_error(
                #[trigger] primitives[p]@,
            ) is None by {
                if p == n - 1 {
                } else {
                }
            }
        }
    }
}

/// No error among the first `n` meshes means that no primitive of any of
/// them has one.
pub proof fn lemma_first_mesh_error_none(meshes: Seq<MeshData>, n: int)
    requires
        0 <= n <= meshes.len(),
    ensures
        first_mesh_error(meshes, n) is None <==> forall|m: int, p: int|
            0 <= m < n && 0 <= p < meshes[m].primitives@.len() ==> primitive_error(
                #[trigger] meshes[m].primitives@[p]@,
            ) is None,
    decreases n,
{
    if n > 0 {
        lemma_first_mesh_error_none(meshes, n - 1);
        let last = meshes[n - 1];
        lemma_first_error_none(last.primitives@, last.primitives@.len() as int);
        if first_mesh_error(meshes, n) is None {
            assert forall|m: int, p: int|
                0 <= m < n && 0 <= p < meshes[m].primitives@.len() implies primitive_error(
                #[trigger] meshes[m].primitives@[p]@,
            ) is None by {
                if m == n - 1 {
                    assert(primitive_error(last.primitives@[p]@) is None);
                } else {
                }
            }
        } else {
            if first_mesh_error(meshes, n - 1) is None {
                assert(mesh_error(last) is Some);
                let p = choose|p: int|
                    0 <= p < last.primitives@.len() && !(primitive_error(
                        #[trigger] last.primitives@[p]@,
                    ) is None);
                assert(!(primitive_error(meshes[n - 1].primitives@[p]@) is None));
            }
        }
    }
}

/// A primitive without positions is refused as `MissingAttribute`, whatever
/// else it holds, and a scene that holds such a primitive is not imported.
pub proof fn lemma_missing_positions_fail(meshes: Seq<MeshData>, m: int, p: int)
    requires
        0 <= m < meshes.len(),
        0 <= p < meshes[m].primitives@.len(),
        meshes[m].primitives@[p]@.positions is None,
    ensures
        primitive_error(meshes[m].primitives@[p]@) == Some(ImportError::MissingAttribute),
        scene_error(meshes) is Some,
{
    lemma_scene_error_none(meshes);
}

/// A primitive with positions but without indices is refused as
/// `MissingIndices`, and a scene that holds such a primitive is not imported.
pub proof fn lemma_missing_indices_fail(meshes: Seq<MeshData>, m: int, p: int)
    requires
        0 <= m < meshes.len(),
        0 <= p < meshes[m].primitives@.len(),
        meshes[m].primitives@[p]@.positions is Some,
        meshes[m].primitives@[p]@.indices is None,
    ensures
        primitive_error(meshes[m].primitives@[p]@) == Some(ImportError::MissingIndices),
        scene_error(meshes) is Some,
{
    lemma_scene_error_none(meshes);
}

/// The error of a scene is the error of one of its primitives, and every
/// primitive before that one, in any earlier mesh or earlier in the same
/// mesh, has none.
pub proof fn lemma_scene_error_is_first(meshes: Seq<MeshData>) -> (at: (int, int))
    requires
        scene_error(meshes) is Some,
    ensures
        0 <= at.0 < meshes.len(),
        0 <= at.1 < meshes[at.0].primitives@.len(),
        primitive_error(meshes[at.0].primitives@[at.1]@) == scene_error(meshes),
        forall|m: int, p: int|
            0 <= m < at.0 && 0 <= p < meshes[m].primitives@.len() ==> primitive_error(
                #[trigger] meshes[m].primitives@[p]@,
            ) is None,
        forall|p: int|
            0 <= p < at.1 ==> primitive_error(#[trigger] meshes[at.0].primitives@[p]@) is None,
{
    let m = first_failing_mesh(meshes, meshes.len() as int);
    let p = first_failing_primitive(meshes[m].primitives@, meshes[m].primitives@.len() as int);
    lemma_first_mesh_error_none(meshes, m);
    (m, p)
}

/// Finds the mesh that decides the error among the first `n` meshes.
proof fn first_failing_mesh(meshes: Seq<MeshData>, n: int) -> (m: int)
    requires
        0 <= n <= meshes.len(),
        first_mesh_error(meshes, n) is Some,
    ensures
        0 <= m < n,
        first_mesh_error(meshes, m) is None,
        mesh_error(meshes[m]) == first_mesh_error(meshes, n),
    decreases n,
{
    if first_mesh_error(meshes, n - 1) is Some {
        first_failing_mesh(meshes, n - 1)
    } else {
        n - 1
    }
}

/// Finds the primitive that decides the error among the first `n`
/// primitives.
proof fn first_failing_primitive(primitives: Seq<PrimitiveData>, n: int) -> (p: int)
    requires
        0 <= n <= primitives.len(),
        first_error(primitives, n) is Some,
    ensures
        0 <= p < n,
        primitive_error(primitives[p]@) == first_error(primitives, n),
        forall|q: int| 0 <= q < p ==> primitive_error(#[trigger] primitives[q]@) is None,
    decreases n,
{
    if first_error(primitives, n - 1) is Some {
        first_failing_primitive(primitives, n - 1)
    } else {
        lemma_first_error_none(primitives, n - 1);
        n - 1
    }
}

} // verus!
