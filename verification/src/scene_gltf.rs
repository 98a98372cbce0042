//! A second way to take a scene in: each attribute of a primitive goes to a
//! buffer of its own, cut out of the binary data of the scene file as its
//! accessor says.
//!
//! The scene file is decoded outside this crate. What arrives here are the
//! accessors of each primitive, as plain numbers, and the binary buffers
//! that they point into.

use vstd::prelude::*;
use vstd::slice::{slice_subrange, slice_to_vec};

verus! {

/// A window into one of the binary buffers.
#[derive(Clone, Copy, Debug, PartialEq, Eq, Structural)]
pub struct BufferView {
    /// Number of the buffer.
    pub buffer: usize,
    /// Byte offset of the window inside the buffer.
    pub offset: usize,
}

/// How one attribute is read from the binary data.
#[derive(Clone, Copy, Debug, PartialEq, Eq, Structural)]
pub struct Accessor {
    /// The window that the attribute lies in, if it has data at all.
    pub view: Option<BufferView>,
    /// Byte offset of the attribute inside its window.
    pub offset: usize,
    /// The size that the accessor states. The data of the attribute is
    /// taken to end at this byte of its buffer.
    pub size: usize,
    /// Number of elements of the attribute.
    pub count: usize,
}

/// The accessors of one primitive.
#[derive(Clone, Copy, Debug, PartialEq, Eq, Structural)]
pub struct PrimitiveAccessors {
    pub positions: Option<Accessor>,
    pub normals: Option<Accessor>,
    pub texcoords: Option<Accessor>,
    pub indices: Option<Accessor>,
}

/// One attribute of a primitive: the bytes of its buffer and the number of
/// its elements.
#[derive(Debug, PartialEq, Eq)]
pub enum PrimitiveType {
    Position(Vec<u8>, usize),
    Normal(Vec<u8>, usize),
    Texcoord(Vec<u8>, usize),
    Indices(Vec<u8>, usize),
}

/// The attributes of one primitive, in the order position, normal, texture
/// coordinate, indices; an attribute without data is left out.
#[derive(Debug, PartialEq, Eq)]
pub struct Primitive(pub Vec<PrimitiveType>);

/// The primitives of one mesh, in declaration order.
#[derive(Debug, PartialEq, Eq)]
pub struct Mesh(pub Vec<Primitive>);

/// Which attribute a buffer holds.
#[derive(Clone, Copy, Debug, PartialEq, Eq, Structural)]
pub enum Semantic {
    Positions,
    Normals,
    TexCoords,
    Indices,
}

/// What a buffer holds, by value: its attribute, its bytes and its element
/// count.
pub struct AttributeView {
    pub semantic: Semantic,
    pub bytes: Seq<u8>,
    pub count: usize,
}

impl View for PrimitiveType {
    type V = AttributeView;

    open spec fn view(&self) -> AttributeView {
        match *self {
            PrimitiveType::Position(bytes, count) => AttributeView {
                semantic: Semantic::Positions,
                bytes: bytes@,
                count,
            },
            PrimitiveType::Normal(bytes, count) => AttributeView {
                semantic: Semantic::Normals,
                bytes: bytes@,
                count,
            },
            PrimitiveType::Texcoord(bytes, count) => AttributeView {
                semantic: Semantic::TexCoords,
                bytes: bytes@,
                count,
            },
            PrimitiveType::Indices(bytes, count) => AttributeView {
                semantic: Semantic::Indices,
                bytes: bytes@,
                count,
            },
        }
    }
}

impl View for Primitive {
    type V = Seq<AttributeView>;

    open spec fn view(&self) -> Seq<AttributeView> {
        Seq::new(self.0@.len(), |i: int| self.0@[i]@)
    }
}

impl View for Mesh {
    type V = Seq<Seq<AttributeView>>;

    open spec fn view(&self) -> Seq<Seq<AttributeView>> {
        Seq::new(self.0@.len(), |i: int| self.0@[i]@)
    }
}

/// Whether the data of an accessor lies inside its buffer: the buffer
/// exists, and the data starts no later than it ends and ends inside the
/// buffer. An accessor without a window has no data to lie anywhere.
pub open spec fn accessor_in_bounds(accessor: Accessor, buffers: Seq<Vec<u8>>) -> bool {
    accessor.view matches Some(view) ==> {
        &&& view.buffer < buffers.len()
        &&& accessor.offset + view.offset <= accessor.size
        &&& accessor.size <= buffers[view.buffer as int]@.len()
    }
}

/// Whether the data of an accessor that may be absent lies inside its
/// buffer.
pub open spec fn attribute_in_bounds(accessor: Option<Accessor>, buffers: Seq<Vec<u8>>) -> bool {
    accessor matches Some(accessor) ==> accessor_in_bounds(accessor, buffers)
}

/// Whether the data of every accessor of a primitive lies inside its buffer.
pub open spec fn primitive_in_bounds(primitive: PrimitiveAccessors, buffers: Seq<Vec<u8>>) -> bool {
    &&& attribute_in_bounds(primitive.positions, buffers)
    &&& attribute_in_bounds(primitive.normals, buffers)
    &&& attribute_in_bounds(primitive.texcoords, buffers)
    &&& attribute_in_bounds(primitive.indices, buffers)
}

/// The bytes that an accessor with a window selects: those of its buffer
/// from the two offsets added up to the end of its data.
pub open spec fn accessor_bytes(accessor: Accessor, buffers: Seq<Vec<u8>>) -> Seq<u8> {
    buffers[accessor.view->0.buffer as int]@.subrange(
        accessor.offset + accessor.view->0.offset,
        accessor.size as int,
    )
}

/// What an attribute contributes to its primitive: one buffer if it is there
/// and has a window, nothing otherwise.
pub open spec fn attribute_views(
    semantic: Semantic,
    accessor: Option<Accessor>,
    buffers: Seq<Vec<u8>>,
) -> Seq<AttributeView> {
    if accessor is Some && accessor->0.view is Some {
        seq![
            AttributeView {
                semantic,
                bytes: accessor_bytes(accessor->0, buffers),
                count: accessor->0.count,
            },
        ]
    } else {
        Seq::empty()
    }
}

/// The buffers of a primitive: positions, normals, texture coordinates,
/// indices, in this order, each only if it has data.
pub open spec fn primitive_views(primitive: PrimitiveAccessors, buffers: Seq<Vec<u8>>) -> Seq<
    AttributeView,
> {
    attribute_views(Semantic::Positions, primitive.positions, buffers) + attribute_views(
        Semantic::Normals,
        primitive.normals,
        buffers,
    ) + attribute_views(Semantic::TexCoords, primitive.texcoords, buffers) + attribute_views(
        Semantic::Indices,
        primitive.indices,
        buffers,
    )
}

/// Tells whether the data of an accessor lies inside its buffer.
pub fn check_accessor(accessor: &Accessor, buffers: &Vec<Vec<u8>>) -> (ok: bool)
    ensures
        ok == accessor_in_bounds(*accessor, buffers@),
{
    match accessor.view {
        Some(view) => {
            if view.buffer >= buffers.len() {
                return false;
            }
            match accessor.offset.checked_add(view.offset) {
                Some(start) => start <= accessor.size && accessor.size
                    <= buffers[view.buffer].len(),
                None => false,
            }
        },
        None => true,
    }
}

/// Cuts the data of an accessor out of its buffer. An accessor without a
/// window gives nothing.
pub fn create_buffer(accessor: &Accessor, buffers: &Vec<Vec<u8>>) -> (result: Option<
    (Vec<u8>, usize),
>)
    requires
        accessor_in_bounds(*accessor, buffers@),
    ensures
        result is Some <==> accessor.view is Some,
        result matches Some(data) ==> data.0@ == accessor_bytes(*accessor, buffers@) && data.1
            == accessor.count,
{
    match accessor.view {
        Some(view) => {
            let buffer = &buffers[view.buffer];
            let start = accessor.offset + view.offset;
            let end = accessor.size;
            let contents = slice_to_vec(slice_subrange(buffer.as_slice(), start, end));
            Some((contents, accessor.count))
        },
        None => None,
    }
}

/// Whether the data of every accessor of every primitive lies inside its
/// buffer.
pub open spec fn mesh_in_bounds(primitives: Seq<PrimitiveAccessors>, buffers: Seq<Vec<u8>>) -> bool {
    forall|p: int|
        0 <= p < primitives.len() ==> primitive_in_bounds(#[trigger] primitives[p], buffers)
}

/// Whether the data of every accessor of every mesh lies inside its buffer.
pub open spec fn scene_in_bounds(
    meshes: Seq<Vec<PrimitiveAccessors>>,
    buffers: Seq<Vec<u8>>,
) -> bool {
    forall|m: int| 0 <= m < meshes.len() ==> mesh_in_bounds((#[trigger] meshes[m])@, buffers)
}

/// The buffers of the primitives of one mesh, in declaration order.
pub open spec fn mesh_views(primitives: Seq<PrimitiveAccessors>, buffers: Seq<Vec<u8>>) -> Seq<
    Seq<AttributeView>,
> {
    Seq::new(primitives.len(), |p: int| primitive_views(primitives[p], buffers))
}

/// Tells whether the data of every accessor of a primitive lies inside its
/// buffer.
pub fn check_primitive(primitive: &PrimitiveAccessors, buffers: &Vec<Vec<u8>>) -> (ok: bool)
    ensures
        ok == primitive_in_bounds(*primitive, buffers@),
{
    check_attribute(&primitive.positions, buffers) && check_attribute(&primitive.normals, buffers)
        && check_attribute(&primitive.texcoords, buffers) && check_attribute(
        &primitive.indices,
        buffers,
    )
}

/// Tells whether the data of an accessor that may be absent lies inside its
/// buffer.
pub fn check_attribute(accessor: &Option<Accessor>, buffers: &Vec<Vec<u8>>) -> (ok: bool)
    ensures
        ok == attribute_in_bounds(*accessor, buffers@),
{
    match accessor {
        Some(accessor) => check_accessor(accessor, buffers),
        None => true,
    }
}

/// Tells whether the data of every accessor of every primitive of a mesh
/// lies inside its buffer.
pub fn check_mesh(primitives: &Vec<PrimitiveAccessors>, buffers: &Vec<Vec<u8>>) -> (ok: bool)
    ensures
        ok == mesh_in_bounds(primitives@, buffers@),
{
    let mut p: usize = 0;
    while p < primitives.len()
        invariant
            p <= primitives.len(),
            forall|q: int| 0 <= q < p ==> primitive_in_bounds(#[trigger] primitives@[q], buffers@),
        decreases primitives.len() - p,
    {
        if !check_primitive(&primitives[p], buffers) {
            return false;
        }
        p += 1;
    }
    true
}

/// Tells whether the data of every accessor of every mesh lies inside its
/// buffer. Only such scenes can be built.
pub fn check_scene(meshes: &Vec<Vec<PrimitiveAccessors>>, buffers: &Vec<Vec<u8>>) -> (ok: bool)
    ensures
        ok == scene_in_bounds(meshes@, buffers@),
{
    let mut m: usize = 0;
    while m < meshes.len()
        invariant
            m <= meshes.len(),
            forall|n: int| 0 <= n < m ==> mesh_in_bounds((#[trigger] meshes@[n])@, buffers@),
        decreases meshes.len() - m,
    {
        if !check_mesh(&meshes[m], buffers) {
            return false;
        }
        m += 1;
    }
    true
}

impl PrimitiveType {
    /// The buffer of an attribute under the variant that its semantic names.
    pub fn new(semantic: Semantic, bytes: Vec<u8>, count: usize) -> (attribute: PrimitiveType)
        ensures
            attribute@ == (AttributeView { semantic, bytes: bytes@, count }),
    {
        match semantic {
            Semantic::Positions => PrimitiveType::Position(bytes, count),
            Semantic::Normals => PrimitiveType::Normal(bytes, count),
            Semantic::TexCoords => PrimitiveType::Texcoord(bytes, count),
            Semantic::Indices => PrimitiveType::Indices(bytes, count),
        }
    }
}

/// Adds the buffer of one attribute to the buffers of its primitive, if the
/// attribute is there and has data.
fn push_attribute(
    datas: &mut Vec<PrimitiveType>,
    semantic: Semantic,
    accessor: &Option<Accessor>,
    buffers: &Vec<Vec<u8>>,
)
    requires
        attribute_in_bounds(*accessor, buffers@),
    ensures
        final(datas)@.len() == old(datas)@.len() + attribute_views(
            semantic,
            *accessor,
            buffers@,
        ).len(),
        forall|i: int| 0 <= i < old(datas)@.len() ==> final(datas)@[i] == old(datas)@[i],
        forall|i: int|
            old(datas)@.len() <= i < final(datas)@.len() ==> (#[trigger] final(datas)@[i])@
                == attribute_views(semantic, *accessor, buffers@)[i - old(datas)@.len()],
{
    match accessor {
        Some(accessor) => match create_buffer(accessor, buffers) {
            Some((bytes, count)) => {
                datas.push(PrimitiveType::new(semantic, bytes, count));
            },
            None => {},
        },
        None => {},
    }
}

impl Primitive {
    /// Builds the buffers of one primitive from its accessors: positions,
    /// normals, texture coordinates and indices, in this order, leaving out
    /// what has no data.
    pub fn from_accessors(primitive: &PrimitiveAccessors, buffers: &Vec<Vec<u8>>) -> (result:
        Primitive)
        requires
            primitive_in_bounds(*primitive, buffers@),
        ensures
            result@ == primitive_views(*primitive, buffers@),
    {
        let mut datas: Vec<PrimitiveType> = Vec::new();
        push_attribute(&mut datas, Semantic::Positions, &primitive.positions, buffers);
        push_attribute(&mut datas, Semantic::Normals, &primitive.normals, buffers);
        push_attribute(&mut datas, Semantic::TexCoords, &primitive.texcoords, buffers);
        push_attribute(&mut datas, Semantic::Indices, &primitive.indices, buffers);
        let result = Primitive(datas);
        assert(result@ =~= primitive_views(*primitive, buffers@));
        result
    }
}

impl Mesh {
    /// Builds one mesh: one primitive for each set of accessors, in
    /// declaration order.
    pub fn from_accessors(primitives: &Vec<PrimitiveAccessors>, buffers: &Vec<Vec<u8>>) -> (result:
        Mesh)
        requires
            mesh_in_bounds(primitives@, buffers@),
        ensures
            result@ == mesh_views(primitives@, buffers@),
    {
        let mut built: Vec<Primitive> = Vec::new();
        let mut p: usize = 0;
        while p < primitives.len()
            invariant
                p <= primitives.len(),
                mesh_in_bounds(primitives@, buffers@),
                built@.len() == p,
                forall|q: int|
                    0 <= q < p ==> (#[trigger] built@[q])@ == primitive_views(
                        primitives@[q],
                        buffers@,
                    ),
            decreases primitives.len() - p,
        {
            built.push(Primitive::from_accessors(&primitives[p], buffers));
            p += 1;
        }
        let result = Mesh(built);
        assert(result@ =~= mesh_views(primitives@, buffers@));
        result
    }
}

/// Meshes by name. A name is held at most once; inserting under a name that
/// is already there replaces the mesh of that name.
#[derive(Debug)]
pub struct MeshMap {
    entries: Vec<(String, Mesh)>,
}

impl View for MeshMap {
    type V = Map<Seq<char>, Mesh>;

    closed spec fn view(&self) -> Map<Seq<char>, Mesh> {
        Map::new(
            |name: Seq<char>| exists|i: int| self.holds(name, i),
            |name: Seq<char>| self.entries@[choose|i: int| self.holds(name, i)].1,
        )
    }
}

impl MeshMap {
    /// Whether entry `i` is the one of `name`.
    spec fn holds(&self, name: Seq<char>, i: int) -> bool {
        0 <= i < self.entries@.len() && self.entries@[i].0@ == name
    }

    /// The names of the first `n` entries.
    spec fn names(&self, n: int) -> Set<Seq<char>>
        decreases n,
    {
        if n <= 0 {
            Set::empty()
        } else {
            self.names(n - 1).insert(self.entries@[n - 1].0@)
        }
    }

    /// No name is held twice.
    #[verifier::type_invariant]
    spec fn wf(&self) -> bool {
        forall|i: int, j: int|
            0 <= i < j < self.entries@.len() ==> (#[trigger] self.entries@[i]).0@
                != (#[trigger] self.entries@[j]).0@
    }

    /// The entry of a name is the only one of that name, so the map holds
    /// its mesh under the name.
    proof fn lemma_lookup(&self, name: Seq<char>, i: int)
        requires
            self.wf(),
            self.holds(name, i),
        ensures
            self@.contains_key(name),
            self@[name] == self.entries@[i].1,
    {
        let j = choose|j: int| self.holds(name, j);
        if j < i {
            assert(self.entries@[j].0@ != self.entries@[i].0@);
        } else if i < j {
            assert(self.entries@[i].0@ != self.entries@[j].0@);
        }
    }

    /// The names of the first `n` entries are `n` different names, and they
    /// are the names of exactly those entries.
    proof fn lemma_names(&self, n: int)
        requires
            self.wf(),
            0 <= n <= self.entries@.len(),
        ensures
            self.names(n).finite(),
            self.names(n).len() == n,
            forall|name: Seq<char>|
                self.names(n).contains(name) <==> exists|i: int| i < n && self.holds(name, i),
        decreases n,
    {
        if n > 0 {
            self.lemma_names(n - 1);
            let last = self.entries@[n - 1].0@;
            if self.names(n - 1).contains(last) {
                let i = choose|i: int| i < n - 1 && self.holds(last, i);
                assert(self.entries@[i].0@ != self.entries@[n - 1].0@);
            }
            assert forall|name: Seq<char>| self.names(n).contains(name) implies exists|i: int|
                i < n && self.holds(name, i) by {
                if name == last {
                    assert(self.holds(name, n - 1));
                } else {
                    let i = choose|i: int| i < n - 1 && self.holds(name, i);
                    assert(i < n && self.holds(name, i));
                }
            }
            assert forall|name: Seq<char>| (exists|i: int|
                i < n && self.holds(name, i)) implies self.names(n).contains(name) by {
                let i = choose|i: int| i < n && self.holds(name, i);
                if i < n - 1 {
                    assert(i < n - 1 && self.holds(name, i));
                }
            }
        }
    }

    /// A map without meshes.
    pub fn new() -> (map: MeshMap)
        ensures
            map@ == Map::<Seq<char>, Mesh>::empty(),
    {
        let map = MeshMap { entries: Vec::new() };
        assert(map@ =~= Map::<Seq<char>, Mesh>::empty());
        map
    }

    /// Number of meshes.
    pub fn len(&self) -> (len: usize)
        ensures
            self@.dom().finite(),
            len == self@.dom().len(),
    {
        proof {
            use_type_invariant(self);
            self.lemma_names(self.entries@.len() as int);
            assert(self@.dom() =~= self.names(self.entries@.len() as int));
        }
        self.entries.len()
    }

    /// Hands out the meshes with their names: each name of the map once,
    /// with the mesh that the map holds under it.
    pub fn into_entries(self) -> (entries: Vec<(String, Mesh)>)
        ensures
            self@.dom().finite(),
            entries@.len() == self@.dom().len(),
            forall|i: int|
                0 <= i < entries@.len() ==> self@.contains_key((#[trigger] entries@[i]).0@)
                    && self@[entries@[i].0@] == entries@[i].1,
            forall|i: int, j: int|
                0 <= i < j < entries@.len() ==> (#[trigger] entries@[i]).0@ != (
                #[trigger] entries@[j]).0@,
    {
        proof {
            use_type_invariant(&self);
            self.lemma_names(self.entries@.len() as int);
            assert(self@.dom() =~= self.names(self.entries@.len() as int));
            assert forall|i: int| 0 <= i < self.entries@.len() implies self@.contains_key(
                (#[trigger] self.entries@[i]).0@,
            ) && self@[self.entries@[i].0@] == self.entries@[i].1 by {
                self.lemma_lookup(self.entries@[i].0@, i);
            }
        }
        self.entries
    }

    /// Where the entry of `name` is, if there is one.
    fn find(&self, name: &String) -> (at: Option<usize>)
        ensures
            match at {
                Some(i) => self.holds(name@, i as int),
                None => forall|i: int| !self.holds(name@, i),
            },
    {
        let mut i: usize = 0;
        while i < self.entries.len()
            invariant
                i <= self.entries.len(),
                forall|j: int| 0 <= j < i ==> !self.holds(name@, j),
            decreases self.entries.len() - i,
        {
            if self.entries[i].0 == *name {
                return Some(i);
            }
            i += 1;
        }
        None
    }

    /// The mesh of `name`, if there is one.
    pub fn get(&self, name: &String) -> (mesh: Option<&Mesh>)
        ensures
            mesh is Some <==> self@.contains_key(name@),
            mesh matches Some(found) ==> *found == self@[name@],
    {
        match self.find(name) {
            Some(i) => {
                proof {
                    use_type_invariant(self);
                    self.lemma_lookup(name@, i as int);
                }
                Some(&self.entries[i].1)
            },
            None => None,
        }
    }

    /// Puts `mesh` under `name`. A mesh that was there under the same name is
    /// dropped; every other mesh stays.
    pub fn insert(&mut self, name: String, mesh: Mesh)
        ensures
            final(self)@ == old(self)@.insert(name@, mesh),
    {
        proof {
            use_type_invariant(&*self);
        }
        let ghost before = *self;
        let ghost key = name@;
        let at = self.find(&name);
        let mut taken = MeshMap { entries: Vec::new() };
        core::mem::swap(self, &mut taken);
        let mut entries = taken.entries;
        let ghost last = entries@.len() as int;
        match at {
            Some(i) => {
                entries.set(i, (name, mesh));
            },
            None => {
                entries.push((name, mesh));
            },
        }
        let ghost place = match at {
            Some(i) => i as int,
            None => last,
        };
        assert forall|a: int, b: int| 0 <= a < b < entries@.len() implies (#[trigger] entries@[a]).0@
            != (#[trigger] entries@[b]).0@ by {
            if b < last {
                assert(before.entries@[a].0@ != before.entries@[b].0@);
            } else {
                assert(!before.holds(key, a));
            }
        }
        *self = MeshMap { entries };
        proof {
            let after = *self;
            assert(after.holds(key, place));
            assert forall|k: Seq<char>| after@.contains_key(k) <==> before@.insert(
                key,
                mesh,
            ).contains_key(k) by {
                if k != key {
                    if before@.contains_key(k) {
                        let j = choose|j: int| before.holds(k, j);
                        assert(after.holds(k, j));
                    }
                    if after@.contains_key(k) {
                        let j = choose|j: int| after.holds(k, j);
                        assert(before.holds(k, j));
                    }
                }
            }
            assert forall|k: Seq<char>| after@.contains_key(k) implies after@[k] == before@.insert(
                key,
                mesh,
            )[k] by {
                let j = choose|j: int| after.holds(k, j);
                after.lemma_lookup(k, j);
                if k != key {
                    assert(before.holds(k, j));
                    before.lemma_lookup(k, j);
                } else {
                    after.lemma_lookup(k, place);
                }
            }
            assert(after@ =~= before@.insert(key, mesh));
        }
    }
}

/// The meshes of a scene, by name.
#[derive(Debug)]
pub struct Scene {
    pub meshes: MeshMap,
}

impl Scene {
    /// Whether this scene is what the decoded meshes build: every mesh is
    /// put under the empty name, one after the other, so a scene without
    /// meshes is empty and any other holds its last mesh and nothing else.
    pub open spec fn is_built_from(
        &self,
        meshes: Seq<Vec<PrimitiveAccessors>>,
        buffers: Seq<Vec<u8>>,
    ) -> bool {
        if meshes.len() == 0 {
            self.meshes@ == Map::<Seq<char>, Mesh>::empty()
        } else {
            &&& self.meshes@.dom() == set![""@]
            &&& self.meshes@[""@]@ == mesh_views(meshes.last()@, buffers)
        }
    }

    /// Builds a scene from the accessors of its meshes and the binary
    /// buffers they point into.
    pub fn from_file(meshes: &Vec<Vec<PrimitiveAccessors>>, buffers: &Vec<Vec<u8>>) -> (scene:
        Scene)
        requires
            scene_in_bounds(meshes@, buffers@),
        ensures
            scene.is_built_from(meshes@, buffers@),
    {
        let mut table = MeshMap::new();
        let mut m: usize = 0;
        while m < meshes.len()
            invariant
                m <= meshes.len(),
                scene_in_bounds(meshes@, buffers@),
                m == 0 ==> table@ == Map::<Seq<char>, Mesh>::empty(),
                m > 0 ==> table@.dom() == set![""@] && table@[""@]@ == mesh_views(
                    meshes@[m - 1]@,
                    buffers@,
                ),
            decreases meshes.len() - m,
        {
            let mesh = Mesh::from_accessors(&meshes[m], buffers);
            table.insert("".to_owned(), mesh);
            assert(table@.dom() =~= set![""@]);
            m += 1;
        }
        Scene { meshes: table }
    }
}

} // verus!
