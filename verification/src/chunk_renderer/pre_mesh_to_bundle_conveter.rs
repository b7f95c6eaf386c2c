//! Quad emission: each face that is left after culling and merging becomes
//! four vertices and two triangles, collected into one mesh per colour.
//!
//! Positions, normals and texture coordinates are whole numbers of blocks,
//! relative to the chunk's origin.

use vstd::prelude::*;
use std::collections::HashMap;
use crate::chunk::NB_BLOCKS_PER_CHUNK;
use crate::chunk_renderer::blocks_resources::{is_known_block, spec_block_color};
use crate::chunk_renderer::pre_mesh_creator::{
    BlockPreMesh,
    ChunkPreMesh,
    ChunkPreMeshOneDirection,
    Stretch,
};
use crate::chunk_renderer::renderer::Face;
use crate::chunk_renderer::resource_extractor;
use crate::coordinates::block_coords_in_chunk::{index_x, index_y, index_z, BlockCoordsInChunk};

verus! {

broadcast use vstd::std_specs::hash::group_hash_axioms;

/// The colour of faces whose block has none: fuchsia.
pub const DEFAULT_COLOR: u32 = 0xFFFF_00FF;

/// Vertices with their normals and texture coordinates, and the triangles
/// over them, three indices each.
pub struct FacesMesh {
    pub vertices: Vec<[i32; 3]>,
    pub vertices_normals: Vec<[i32; 3]>,
    pub vertices_uv: Vec<[i32; 2]>,
    pub indices: Vec<u32>,
}

/// What a `FacesMesh` holds.
pub struct FacesMeshView {
    pub vertices: Seq<[i32; 3]>,
    pub vertices_normals: Seq<[i32; 3]>,
    pub vertices_uv: Seq<[i32; 2]>,
    pub indices: Seq<u32>,
}

impl FacesMeshView {
    /// The mesh without vertices.
    pub open spec fn empty() -> FacesMeshView {
        FacesMeshView {
            vertices: Seq::empty(),
            vertices_normals: Seq::empty(),
            vertices_uv: Seq::empty(),
            indices: Seq::empty(),
        }
    }

    /// This mesh followed by `other`: the indices of `other` are moved up by
    /// the number of vertices of this mesh, so that they point at the same
    /// vertices as before.
    pub open spec fn joined(self, other: FacesMeshView) -> FacesMeshView {
        FacesMeshView {
            vertices: self.vertices + other.vertices,
            vertices_normals: self.vertices_normals + other.vertices_normals,
            vertices_uv: self.vertices_uv + other.vertices_uv,
            indices: self.indices + Seq::new(
                other.indices.len(),
                |i: int| (other.indices[i] + self.vertices.len()) as u32,
            ),
        }
    }

    /// Whether every index of `other`, moved up by the number of vertices of
    /// this mesh, still fits 32 bits.
    pub open spec fn can_join(self, other: FacesMeshView) -> bool {
        forall|i: int|
            0 <= i < other.indices.len() ==> #[trigger] other.indices[i] + self.vertices.len()
                <= u32::MAX
    }
}

impl View for FacesMesh {
    type V = FacesMeshView;

    open spec fn view(&self) -> FacesMeshView {
        FacesMeshView {
            vertices: self.vertices@,
            vertices_normals: self.vertices_normals@,
            vertices_uv: self.vertices_uv@,
            indices: self.indices@,
        }
    }
}

impl FacesMesh {
    pub fn new() -> (mesh: FacesMesh)
        ensures
            mesh@ == FacesMeshView::empty(),
    {
        Self {
            vertices: Vec::new(),
            vertices_normals: Vec::new(),
            vertices_uv: Vec::new(),
            indices: Vec::new(),
        }
    }

    /// Moves what `faces_mesh` holds to the end of this mesh and leaves
    /// `faces_mesh` empty.
    pub fn add(&mut self, faces_mesh: &mut Self)
        requires
            old(self)@.can_join(old(faces_mesh)@),
        ensures
            final(self)@ == old(self)@.joined(old(faces_mesh)@),
            final(faces_mesh)@ == FacesMeshView::empty(),
    {
        let first_vertex = self.vertices.len();
        self.vertices.append(&mut faces_mesh.vertices);
        self.vertices_normals.append(&mut faces_mesh.vertices_normals);
        self.vertices_uv.append(&mut faces_mesh.vertices_uv);
        self.add_indices(&mut faces_mesh.indices, first_vertex);
        assert(self@.indices =~= old(self)@.joined(old(faces_mesh)@).indices);
    }

    /// Moves `indices` to the end of the indices of this mesh, each moved up
    /// by `first_vertex`.
    fn add_indices(&mut self, indices: &mut Vec<u32>, first_vertex: usize)
        requires
            forall|i: int|
                0 <= i < old(indices)@.len() ==> #[trigger] old(indices)@[i] + first_vertex
                    <= u32::MAX,
        ensures
            final(self).vertices == old(self).vertices,
            final(self).vertices_normals == old(self).vertices_normals,
            final(self).vertices_uv == old(self).vertices_uv,
            final(self).indices@ == old(self).indices@ + Seq::new(
                old(indices)@.len(),
                |i: int| (old(indices)@[i] + first_vertex) as u32,
            ),
            final(indices)@ == Seq::<u32>::empty(),
    {
        let old_indices_len = self.indices.len();
        self.indices.append(indices);
        let new_indices_len = self.indices.len();
        let ghost appended = self.indices@;
        for i in old_indices_len..new_indices_len
            invariant
                old_indices_len == old(self).indices@.len(),
                new_indices_len == appended.len(),
                appended == old(self).indices@ + old(indices)@,
                self.vertices == old(self).vertices,
                self.vertices_normals == old(self).vertices_normals,
                self.vertices_uv == old(self).vertices_uv,
                self.indices@.len() == appended.len(),
                forall|j: int|
                    0 <= j < old(indices)@.len() ==> #[trigger] old(indices)@[j] + first_vertex
                        <= u32::MAX,
                forall|j: int| 0 <= j < old_indices_len ==> self.indices@[j] == appended[j],
                forall|j: int|
                    old_indices_len <= j < i ==> self.indices@[j] == (appended[j]
                        + first_vertex) as u32,
                forall|j: int| i <= j < new_indices_len ==> self.indices@[j] == appended[j],
        {
            assert(appended[i as int] == old(indices)@[i - old_indices_len]);
            let index = self.indices[i];
            self.indices[i] = index + first_vertex as u32;
        }
        let ghost moved = Seq::new(
            old(indices)@.len(),
            |i: int| (old(indices)@[i] + first_vertex) as u32,
        );
        assert forall|j: int| 0 <= j < self.indices@.len() implies self.indices@[j] == (old(
            self,
        ).indices@ + moved)[j] by {
            if j >= old_indices_len {
                assert(appended[j] == old(indices)@[j - old_indices_len]);
                assert(self.indices@[j] == (appended[j] + first_vertex) as u32);
            } else {
                assert(self.indices@[j] == appended[j]);
            }
        }
        assert(self.indices@ =~= old(self).indices@ + moved);
    }
}

/// A mesh and the colour it is drawn with.
pub struct FacesMeshWithColor {
    pub faces_mesh: FacesMesh,
    pub color: u32,
}

/// What a `FacesMeshWithColor` holds.
pub struct FacesMeshWithColorView {
    pub faces_mesh: FacesMeshView,
    pub color: u32,
}

impl View for FacesMeshWithColor {
    type V = FacesMeshWithColorView;

    open spec fn view(&self) -> FacesMeshWithColorView {
        FacesMeshWithColorView { faces_mesh: self.faces_mesh@, color: self.color }
    }
}

impl FacesMeshWithColor {
    /// An empty mesh in the default colour.
    pub fn new() -> (mesh: FacesMeshWithColor)
        ensures
            mesh@.faces_mesh == FacesMeshView::empty(),
            mesh@.color == DEFAULT_COLOR,
    {
        Self { faces_mesh: FacesMesh::new(), color: DEFAULT_COLOR }
    }
}

/// The corner of the block at linear index `index` that the quad of a face
/// looking in `direction` starts at: the far corner of the block, moved back
/// onto the face where the face looks in a negative direction.
pub open spec fn quad_corner(direction: Face, index: int) -> (int, int, int) {
    (
        if direction == Face::NegativeX {
            index_x(index)
        } else {
            index_x(index) + 1
        },
        if direction == Face::NegativeY {
            index_y(index)
        } else {
            index_y(index) + 1
        },
        if direction == Face::NegativeZ {
            index_z(index)
        } else {
            index_z(index) + 1
        },
    )
}

/// The four corners of the quad of a face: from its starting corner back
/// along the two axes of its plane, by the extent of the face along each.
pub open spec fn quad_vertices(direction: Face, stretch: Stretch, index: int) -> Seq<[i32; 3]> {
    let (px, py, pz) = quad_corner(direction, index);
    let (sx, sy, sz) = (stretch.final_x(), stretch.final_y(), stretch.final_z());
    match direction {
        Face::PositiveX | Face::NegativeX => seq![
            [px as i32, py as i32, pz as i32],
            [px as i32, (py - sy) as i32, pz as i32],
            [px as i32, (py - sy) as i32, (pz - sz) as i32],
            [px as i32, py as i32, (pz - sz) as i32],
        ],
        Face::PositiveY | Face::NegativeY => seq![
            [px as i32, py as i32, pz as i32],
            [(px - sx) as i32, py as i32, pz as i32],
            [(px - sx) as i32, py as i32, (pz - sz) as i32],
            [px as i32, py as i32, (pz - sz) as i32],
        ],
        Face::PositiveZ | Face::NegativeZ => seq![
            [px as i32, py as i32, pz as i32],
            [px as i32, (py - sy) as i32, pz as i32],
            [(px - sx) as i32, (py - sy) as i32, pz as i32],
            [(px - sx) as i32, py as i32, pz as i32],
        ],
    }
}

/// The unit vector that faces looking in `direction` look along.
pub open spec fn quad_normal(direction: Face) -> [i32; 3] {
    match direction {
        Face::PositiveX => [1i32, 0i32, 0i32],
        Face::NegativeX => [-1i32, 0i32, 0i32],
        Face::PositiveY => [0i32, 1i32, 0i32],
        Face::NegativeY => [0i32, -1i32, 0i32],
        Face::PositiveZ => [0i32, 0i32, 1i32],
        Face::NegativeZ => [0i32, 0i32, -1i32],
    }
}

/// The two triangles of a quad, wound so that they are seen from the side
/// the face looks towards.
pub open spec fn quad_indices(direction: Face) -> Seq<u32> {
    match direction {
        Face::PositiveX | Face::NegativeY | Face::NegativeZ => seq![
            0u32,
            1u32,
            2u32,
            0u32,
            2u32,
            3u32,
        ],
        Face::NegativeX | Face::PositiveY | Face::PositiveZ => seq![
            0u32,
            2u32,
            1u32,
            0u32,
            3u32,
            2u32,
        ],
    }
}

/// The quad of a face that looks in `direction`, with `stretch`, of the block
/// at linear index `index`.
pub open spec fn quad(direction: Face, stretch: Stretch, index: int) -> FacesMeshView {
    FacesMeshView {
        vertices: quad_vertices(direction, stretch, index),
        vertices_normals: Seq::new(4, |i: int| quad_normal(direction)),
        vertices_uv: Seq::new(4, |i: int| [1i32, 1i32]),
        indices: quad_indices(direction),
    }
}

/// The colour that the faces of a block of kind `block_id` are drawn with,
/// which is also the key of the mesh they are collected in.
pub open spec fn color_key(block_id: u16) -> u32 {
    match spec_block_color(block_id) {
        Some(color) => color,
        None => DEFAULT_COLOR,
    }
}

/// What a collection of meshes by colour holds.
pub open spec fn batches_view(batches: Map<u32, FacesMeshWithColor>) -> Map<
    u32,
    FacesMeshWithColorView,
> {
    Map::new(|key: u32| batches.contains_key(key), |key: u32| batches[key]@)
}

/// The meshes after the face of cell `index` of the array of `direction` was
/// emitted: unchanged where the face is hidden; else its quad is a new mesh
/// under its colour or is joined to the mesh that was there.
pub open spec fn emitted_cell(
    batches: Map<u32, FacesMeshWithColorView>,
    direction: Face,
    cell: BlockPreMesh,
    index: int,
) -> Map<u32, FacesMeshWithColorView> {
    if !cell.spec_will_be_rendered() {
        batches
    } else {
        let key = color_key(cell.spec_get_block().spec_get_id());
        let face = quad(direction, cell.spec_get_stretch(), index);
        if batches.contains_key(key) {
            batches.insert(
                key,
                FacesMeshWithColorView {
                    faces_mesh: batches[key].faces_mesh.joined(face),
                    color: batches[key].color,
                },
            )
        } else {
            batches.insert(key, FacesMeshWithColorView { faces_mesh: face, color: key })
        }
    }
}

/// The meshes after the faces of the first `count` cells of the array of
/// `direction` were emitted, in the order of the cells.
pub open spec fn emitted(
    batches: Map<u32, FacesMeshWithColorView>,
    direction: Face,
    cells: Seq<BlockPreMesh>,
    count: int,
) -> Map<u32, FacesMeshWithColorView>
    decreases count,
{
    if count <= 0 {
        batches
    } else {
        emitted_cell(
            emitted(batches, direction, cells, count - 1),
            direction,
            cells[count - 1],
            count - 1,
        )
    }
}

/// The meshes of the faces of six arrays, emitted in the order `+x`, `-x`,
/// `+y`, `-y`, `+z`, `-z`.
pub open spec fn emitted_faces(
    positive_x: Seq<BlockPreMesh>,
    negative_x: Seq<BlockPreMesh>,
    positive_y: Seq<BlockPreMesh>,
    negative_y: Seq<BlockPreMesh>,
    positive_z: Seq<BlockPreMesh>,
    negative_z: Seq<BlockPreMesh>,
) -> Map<u32, FacesMeshWithColorView> {
    let n = NB_BLOCKS_PER_CHUNK as int;
    let after_positive_x = emitted(Map::empty(), Face::PositiveX, positive_x, n);
    let after_negative_x = emitted(after_positive_x, Face::NegativeX, negative_x, n);
    let after_positive_y = emitted(after_negative_x, Face::PositiveY, positive_y, n);
    let after_negative_y = emitted(after_positive_y, Face::NegativeY, negative_y, n);
    let after_positive_z = emitted(after_negative_y, Face::PositiveZ, positive_z, n);
    emitted(after_positive_z, Face::NegativeZ, negative_z, n)
}

/// The meshes of a chunk: the faces of its six arrays.
pub open spec fn emitted_chunk(chunk_pre_mesh: ChunkPreMesh) -> Map<u32, FacesMeshWithColorView> {
    emitted_faces(
        chunk_pre_mesh.positive_x@,
        chunk_pre_mesh.negative_x@,
        chunk_pre_mesh.positive_y@,
        chunk_pre_mesh.negative_y@,
        chunk_pre_mesh.positive_z@,
        chunk_pre_mesh.negative_z@,
    )
}

/// Whether the catalogue knows the block of every face of `cells` that is
/// drawn.
pub open spec fn drawn_blocks_are_known(cells: Seq<BlockPreMesh>) -> bool {
    forall|i: int|
        0 <= i < cells.len() && (#[trigger] cells[i]).spec_will_be_rendered() ==> is_known_block(
            cells[i].spec_get_block().spec_get_id(),
        )
}

/// Whether no mesh of `batches` has more than `limit` vertices.
pub open spec fn vertices_within(batches: Map<u32, FacesMeshWithColorView>, limit: int) -> bool {
    forall|key: u32| #[trigger]
        batches.contains_key(key) ==> batches[key].faces_mesh.vertices.len() <= limit
}

/// The area of a quad in faces of one block: the product of the extents of
/// the face along the two axes of its plane.
pub open spec fn quad_area(direction: Face, stretch: Stretch) -> int {
    match direction {
        Face::PositiveX | Face::NegativeX => stretch.final_y() * stretch.final_z(),
        Face::PositiveY | Face::NegativeY => stretch.final_x() * stretch.final_z(),
        Face::PositiveZ | Face::NegativeZ => stretch.final_x() * stretch.final_y(),
    }
}

/// The cross product of the two edges of a triangle that leave its first
/// corner: a vector that stands on the triangle, on the side from which
/// its corners are seen to turn against the clock.
pub open spec fn triangle_normal(first: [i32; 3], second: [i32; 3], third: [i32; 3]) -> (
    int,
    int,
    int,
) {
    let (ax, ay, az) = (second[0] - first[0], second[1] - first[1], second[2] - first[2]);
    let (bx, by, bz) = (third[0] - first[0], third[1] - first[1], third[2] - first[2]);
    (ay * bz - az * by, az * bx - ax * bz, ax * by - ay * bx)
}

/// The normal of triangle `triangle` of a mesh, by the order of its corners.
pub open spec fn normal_of_triangle(mesh: FacesMeshView, triangle: int) -> (int, int, int) {
    triangle_normal(
        mesh.vertices[mesh.indices[3 * triangle] as int],
        mesh.vertices[mesh.indices[3 * triangle + 1] as int],
        mesh.vertices[mesh.indices[3 * triangle + 2] as int],
    )
}

/// Both triangles of a quad look the way the face looks: by the order of
/// its corners, each triangle has a normal along the normal of the face,
/// as long as the area of the quad.
pub proof fn lemma_quad_looks_outward(direction: Face, stretch: Stretch, index: int, triangle: int)
    requires
        0 <= index < NB_BLOCKS_PER_CHUNK,
        0 <= triangle < 2,
    ensures
        quad_area(direction, stretch) > 0,
        normal_of_triangle(quad(direction, stretch, index), triangle) == (
            quad_normal(direction)[0] * quad_area(direction, stretch),
            quad_normal(direction)[1] * quad_area(direction, stretch),
            quad_normal(direction)[2] * quad_area(direction, stretch),
        ),
{
    let (sx, sy, sz) = (stretch.final_x(), stretch.final_y(), stretch.final_z());
    let mesh = quad(direction, stretch, index);
    let first = mesh.vertices[mesh.indices[3 * triangle] as int];
    let second = mesh.vertices[mesh.indices[3 * triangle + 1] as int];
    let third = mesh.vertices[mesh.indices[3 * triangle + 2] as int];
    let (ax, ay, az) = (second[0] - first[0], second[1] - first[1], second[2] - first[2]);
    let (bx, by, bz) = (third[0] - first[0], third[1] - first[1], third[2] - first[2]);
    let area = quad_area(direction, stretch);
    assert(1 <= sx <= 16 && 1 <= sy <= 256 && 1 <= sz <= 16);
    assert(sy * sz > 0 && sx * sz > 0 && sx * sy > 0) by (nonlinear_arith)
        requires
            1 <= sx,
            1 <= sy,
            1 <= sz,
    ;
    assert(ay * bz - az * by == if direction == Face::PositiveX {
        sy * sz
    } else if direction == Face::NegativeX {
        -(sy * sz)
    } else {
        0
    }) by (nonlinear_arith)
        requires
            direction == Face::PositiveX ==> (triangle == 0 ==> ay == -sy && az == 0 && by == -sy
                && bz == -sz) && (triangle == 1 ==> ay == -sy && az == -sz && by == 0 && bz
                == -sz),
            direction == Face::NegativeX ==> (triangle == 0 ==> ay == -sy && az == -sz && by
                == -sy && bz == 0) && (triangle == 1 ==> ay == 0 && az == -sz && by == -sy
                && bz == -sz),
            direction == Face::PositiveY || direction == Face::NegativeY ==> ay == 0 && by == 0,
            direction == Face::PositiveZ || direction == Face::NegativeZ ==> az == 0 && bz == 0,
            0 <= triangle < 2,
    ;
    assert(az * bx - ax * bz == if direction == Face::PositiveY {
        sx * sz
    } else if direction == Face::NegativeY {
        -(sx * sz)
    } else {
        0
    }) by (nonlinear_arith)
        requires
            direction == Face::PositiveY ==> (triangle == 0 ==> ax == -sx && az == -sz && bx
                == -sx && bz == 0) && (triangle == 1 ==> ax == 0 && az == -sz && bx == -sx
                && bz == -sz),
            direction == Face::NegativeY ==> (triangle == 0 ==> ax == -sx && az == 0 && bx == -sx
                && bz == -sz) && (triangle == 1 ==> ax == -sx && az == -sz && bx == 0 && bz
                == -sz),
            direction == Face::PositiveX || direction == Face::NegativeX ==> ax == 0 && bx == 0,
            direction == Face::PositiveZ || direction == Face::NegativeZ ==> az == 0 && bz == 0,
            0 <= triangle < 2,
    ;
    assert(ax * by - ay * bx == if direction == Face::PositiveZ {
        sx * sy
    } else if direction == Face::NegativeZ {
        -(sx * sy)
    } else {
        0
    }) by (nonlinear_arith)
        requires
            direction == Face::PositiveZ ==> (triangle == 0 ==> ax == -sx && ay == -sy && bx == 0
                && by == -sy) && (triangle == 1 ==> ax == -sx && ay == 0 && bx == -sx && by
                == -sy),
            direction == Face::NegativeZ ==> (triangle == 0 ==> ax == 0 && ay == -sy && bx == -sx
                && by == -sy) && (triangle == 1 ==> ax == -sx && ay == -sy && bx == -sx && by
                == 0),
            direction == Face::PositiveX || direction == Face::NegativeX ==> ax == 0 && bx == 0,
            direction == Face::PositiveY || direction == Face::NegativeY ==> ay == 0 && by == 0,
            0 <= triangle < 2,
    ;
    assert(1 * area == area && -1 * area == -area && 0 * area == 0) by (nonlinear_arith);
}

/// An array without a face that is drawn adds nothing to the meshes.
pub proof fn lemma_hidden_faces_emit_nothing(
    batches: Map<u32, FacesMeshWithColorView>,
    direction: Face,
    cells: Seq<BlockPreMesh>,
    count: int,
)
    requires
        count <= cells.len(),
        forall|i: int| 0 <= i < count ==> !(#[trigger] cells[i]).spec_will_be_rendered(),
    ensures
        emitted(batches, direction, cells, count) == batches,
    decreases count,
{
    if count > 0 {
        lemma_hidden_faces_emit_nothing(batches, direction, cells, count - 1);
        assert(!cells[count - 1].spec_will_be_rendered());
    }
}

/// The extent of a face along each axis, as signed numbers.
fn signed_extent(stretch: Stretch) -> (extent: (i32, i32, i32))
    ensures
        extent.0 == stretch.final_x(),
        extent.1 == stretch.final_y(),
        extent.2 == stretch.final_z(),
{
    let (x, y, z) = stretch.get_final_stretch();
    (x as i32, y as i32, z as i32)
}

/// The local position of the block at a linear index, as signed numbers.
fn signed_position(block_index: usize) -> (position: (i32, i32, i32))
    requires
        block_index < NB_BLOCKS_PER_CHUNK,
    ensures
        position.0 == index_x(block_index as int),
        position.1 == index_y(block_index as int),
        position.2 == index_z(block_index as int),
{
    let (x, y, z) = BlockCoordsInChunk::from_block_index(block_index).pos_tuple();
    (x as i32, y as i32, z as i32)
}

/// The quad of a face that looks towards `+x`.
fn convert_block_pre_mesh_to_faces_mesh_on_positive_x(
    block_pre_mesh: BlockPreMesh,
    block_index: usize,
) -> (face: FacesMesh)
    requires
        block_index < NB_BLOCKS_PER_CHUNK,
    ensures
        face@ == quad(Face::PositiveX, block_pre_mesh.spec_get_stretch(), block_index as int),
{
    let (_, stretch_y, stretch_z) = signed_extent(block_pre_mesh.get_stretch());
    let (block_x, block_y, block_z) = signed_position(block_index);
    let px = block_x + 1;
    let py = block_y + 1;
    let pz = block_z + 1;
    let qy = py - stretch_y;
    let qz = pz - stretch_z;

    let mut face = FacesMesh::new();
    face.vertices = vec![
        [px, py, pz],
        [px, qy, pz],
        [px, qy, qz],
        [px, py, qz],
    ];
    face.vertices_normals = vec![[1, 0, 0], [1, 0, 0], [1, 0, 0], [1, 0, 0]];
    face.vertices_uv = vec![[1, 1], [1, 1], [1, 1], [1, 1]];
    face.indices = vec![0, 1, 2, 0, 2, 3];
    proof {
        let expected = quad(Face::PositiveX, block_pre_mesh.spec_get_stretch(), block_index as int);
        assert(face.vertices@ =~= expected.vertices);
        assert(face.vertices_normals@ =~= expected.vertices_normals);
        assert(face.vertices_uv@ =~= expected.vertices_uv);
        assert(face.indices@ =~= expected.indices);
    }
    face
}

/// The quad of a face that looks towards `-x`.
fn convert_block_pre_mesh_to_faces_mesh_on_negative_x(
    block_pre_mesh: BlockPreMesh,
    block_index: usize,
) -> (face: FacesMesh)
    requires
        block_index < NB_BLOCKS_PER_CHUNK,
    ensures
        face@ == quad(Face::NegativeX, block_pre_mesh.spec_get_stretch(), block_index as int),
{
    let (_, stretch_y, stretch_z) = signed_extent(block_pre_mesh.get_stretch());
    let (block_x, block_y, block_z) = signed_position(block_index);
    let px = block_x;
    let py = block_y + 1;
    let pz = block_z + 1;
    let qy = py - stretch_y;
    let qz = pz - stretch_z;

    let mut face = FacesMesh::new();
    face.vertices = vec![
        [px, py, pz],
        [px, qy, pz],
        [px, qy, qz],
        [px, py, qz],
    ];
    face.vertices_normals = vec![[-1, 0, 0], [-1, 0, 0], [-1, 0, 0], [-1, 0, 0]];
    face.vertices_uv = vec![[1, 1], [1, 1], [1, 1], [1, 1]];
    face.indices = vec![0, 2, 1, 0, 3, 2];
    proof {
        let expected = quad(Face::NegativeX, block_pre_mesh.spec_get_stretch(), block_index as int);
        assert(face.vertices@ =~= expected.vertices);
        assert(face.vertices_normals@ =~= expected.vertices_normals);
        assert(face.vertices_uv@ =~= expected.vertices_uv);
        assert(face.indices@ =~= expected.indices);
    }
    face
}

/// The quad of a face that looks upwards.
fn convert_block_pre_mesh_to_faces_mesh_on_positive_y(
    block_pre_mesh: BlockPreMesh,
    block_index: usize,
) -> (face: FacesMesh)
    requires
        block_index < NB_BLOCKS_PER_CHUNK,
    ensures
        face@ == quad(Face::PositiveY, block_pre_mesh.spec_get_stretch(), block_index as int),
{
    let (stretch_x, _, stretch_z) = signed_extent(block_pre_mesh.get_stretch());
    let (block_x, block_y, block_z) = signed_position(block_index);
    let px = block_x + 1;
    let py = block_y + 1;
    let pz = block_z + 1;
    let qx = px - stretch_x;
    let qz = pz - stretch_z;

    let mut face = FacesMesh::new();
    face.vertices = vec![
        [px, py, pz],
        [qx, py, pz],
        [qx, py, qz],
        [px, py, qz],
    ];
    face.vertices_normals = vec![[0, 1, 0], [0, 1, 0], [0, 1, 0], [0, 1, 0]];
    face.vertices_uv = vec![[1, 1], [1, 1], [1, 1], [1, 1]];
    face.indices = vec![0, 2, 1, 0, 3, 2];
    proof {
        let expected = quad(Face::PositiveY, block_pre_mesh.spec_get_stretch(), block_index as int);
        assert(face.vertices@ =~= expected.vertices);
        assert(face.vertices_normals@ =~= expected.vertices_normals);
        assert(face.vertices_uv@ =~= expected.vertices_uv);
        assert(face.indices@ =~= expected.indices);
    }
    face
}

/// The quad of a face that looks downwards.
fn convert_block_pre_mesh_to_faces_mesh_on_negative_y(
    block_pre_mesh: BlockPreMesh,
    block_index: usize,
) -> (face: FacesMesh)
    requires
        block_index < NB_BLOCKS_PER_CHUNK,
    ensures
        face@ == quad(Face::NegativeY, block_pre_mesh.spec_get_stretch(), block_index as int),
{
    let (stretch_x, _, stretch_z) = signed_extent(block_pre_mesh.get_stretch());
    let (block_x, block_y, block_z) = signed_position(block_index);
    let px = block_x + 1;
    let py = block_y;
    let pz = block_z + 1;
    let qx = px - stretch_x;
    let qz = pz - stretch_z;

    let mut face = FacesMesh::new();
    face.vertices = vec![
        [px, py, pz],
        [qx, py, pz],
        [qx, py, qz],
        [px, py, qz],
    ];
    face.vertices_normals = vec![[0, -1, 0], [0, -1, 0], [0, -1, 0], [0, -1, 0]];
    face.vertices_uv = vec![[1, 1], [1, 1], [1, 1], [1, 1]];
    face.indices = vec![0, 1, 2, 0, 2, 3];
    proof {
        let expected = quad(Face::NegativeY, block_pre_mesh.spec_get_stretch(), block_index as int);
        assert(face.vertices@ =~= expected.vertices);
        assert(face.vertices_normals@ =~= expected.vertices_normals);
        assert(face.vertices_uv@ =~= expected.vertices_uv);
        assert(face.indices@ =~= expected.indices);
    }
    face
}

/// The quad of a face that looks towards `+z`.
fn convert_block_pre_mesh_to_faces_mesh_on_positive_z(
    block_pre_mesh: BlockPreMesh,
    block_index: usize,
) -> (face: FacesMesh)
    requires
        block_index < NB_BLOCKS_PER_CHUNK,
    ensures
        face@ == quad(Face::PositiveZ, block_pre_mesh.spec_get_stretch(), block_index as int),
{
    let (stretch_x, stretch_y, _) = signed_extent(block_pre_mesh.get_stretch());
    let (block_x, block_y, block_z) = signed_position(block_index);
    let px = block_x + 1;
    let py = block_y + 1;
    let pz = block_z + 1;
    let qx = px - stretch_x;
    let qy = py - stretch_y;

    let mut face = FacesMesh::new();
    face.vertices = vec![
        [px, py, pz],
        [px, qy, pz],
        [qx, qy, pz],
        [qx, py, pz],
    ];
    face.vertices_normals = vec![[0, 0, 1], [0, 0, 1], [0, 0, 1], [0, 0, 1]];
    face.vertices_uv = vec![[1, 1], [1, 1], [1, 1], [1, 1]];
    face.indices = vec![0, 2, 1, 0, 3, 2];
    proof {
        let expected = quad(Face::PositiveZ, block_pre_mesh.spec_get_stretch(), block_index as int);
        assert(face.vertices@ =~= expected.vertices);
        assert(face.vertices_normals@ =~= expected.vertices_normals);
        assert(face.vertices_uv@ =~= expected.vertices_uv);
        assert(face.indices@ =~= expected.indices);
    }
    face
}

/// The quad of a face that looks towards `-z`.
fn convert_block_pre_mesh_to_faces_mesh_on_negative_z(
    block_pre_mesh: BlockPreMesh,
    block_index: usize,
) -> (face: FacesMesh)
    requires
        block_index < NB_BLOCKS_PER_CHUNK,
    ensures
        face@ == quad(Face::NegativeZ, block_pre_mesh.spec_get_stretch(), block_index as int),
{
    let (stretch_x, stretch_y, _) = signed_extent(block_pre_mesh.get_stretch());
    let (block_x, block_y, block_z) = signed_position(block_index);
    let px = block_x + 1;
    let py = block_y + 1;
    let pz = block_z;
    let qx = px - stretch_x;
    let qy = py - stretch_y;

    let mut face = FacesMesh::new();
    face.vertices = vec![
        [px, py, pz],
        [px, qy, pz],
        [qx, qy, pz],
        [qx, py, pz],
    ];
    face.vertices_normals = vec![[0, 0, -1], [0, 0, -1], [0, 0, -1], [0, 0, -1]];
    face.vertices_uv = vec![[1, 1], [1, 1], [1, 1], [1, 1]];
    face.indices = vec![0, 1, 2, 0, 2, 3];
    proof {
        let expected = quad(Face::NegativeZ, block_pre_mesh.spec_get_stretch(), block_index as int);
        assert(face.vertices@ =~= expected.vertices);
        assert(face.vertices_normals@ =~= expected.vertices_normals);
        assert(face.vertices_uv@ =~= expected.vertices_uv);
        assert(face.indices@ =~= expected.indices);
    }
    face
}

/// Emits the faces of one array into `faces`, in the order of its cells.
fn convert_chunk_pre_mesh_data_into_faces_mesh(
    faces: &mut HashMap<u32, FacesMeshWithColor>,
    chunk_pre_mesh_in_a_direction: &ChunkPreMeshOneDirection,
    direction: Face,
    Ghost(limit): Ghost<int>,
)
    requires
        chunk_pre_mesh_in_a_direction.is_full(),
        drawn_blocks_are_known(chunk_pre_mesh_in_a_direction@),
        vertices_within(batches_view(old(faces)@), limit),
        0 <= limit,
        limit + 4 * NB_BLOCKS_PER_CHUNK + 3 <= u32::MAX,
    ensures
        batches_view(final(faces)@) == emitted(
            batches_view(old(faces)@),
            direction,
            chunk_pre_mesh_in_a_direction@,
            NB_BLOCKS_PER_CHUNK as int,
        ),
        vertices_within(batches_view(final(faces)@), limit + 4 * NB_BLOCKS_PER_CHUNK),
{
    let ghost start = batches_view(faces@);
    for pre_mesh_inedex in 0..NB_BLOCKS_PER_CHUNK
        invariant
            chunk_pre_mesh_in_a_direction.is_full(),
            drawn_blocks_are_known(chunk_pre_mesh_in_a_direction@),
            0 <= limit,
            limit + 4 * NB_BLOCKS_PER_CHUNK + 3 <= u32::MAX,
            batches_view(faces@) == emitted(
                start,
                direction,
                chunk_pre_mesh_in_a_direction@,
                pre_mesh_inedex as int,
            ),
            vertices_within(batches_view(faces@), limit + 4 * pre_mesh_inedex),
    {
        let pre_mesh = chunk_pre_mesh_in_a_direction.get_pre_mesh(pre_mesh_inedex);
        let ghost before = batches_view(faces@);

        if pre_mesh.get_stretch().get_as_u16() != 0 {
            let mut mesh = match direction {
                Face::PositiveX => {
                    convert_block_pre_mesh_to_faces_mesh_on_positive_x(pre_mesh, pre_mesh_inedex)
                },
                Face::NegativeX => {
                    convert_block_pre_mesh_to_faces_mesh_on_negative_x(pre_mesh, pre_mesh_inedex)
                },
                Face::PositiveY => {
                    convert_block_pre_mesh_to_faces_mesh_on_positive_y(pre_mesh, pre_mesh_inedex)
                },
                Face::NegativeY => {
                    convert_block_pre_mesh_to_faces_mesh_on_negative_y(pre_mesh, pre_mesh_inedex)
                },
                Face::PositiveZ => {
                    convert_block_pre_mesh_to_faces_mesh_on_positive_z(pre_mesh, pre_mesh_inedex)
                },
                Face::NegativeZ => {
                    convert_block_pre_mesh_to_faces_mesh_on_negative_z(pre_mesh, pre_mesh_inedex)
                },
            };
            let ghost face = mesh@;
            assert(face == quad(direction, pre_mesh.spec_get_stretch(), pre_mesh_inedex as int));
            assert(face.vertices.len() == 4);

            let extracted_color = resource_extractor::block_color(pre_mesh.get_block().get_id());
            let color = extracted_color.unwrap_or(DEFAULT_COLOR);
            let key = color;

            if !faces.contains_key(&key) {
                let mut faces_mesh_with_texture = FacesMeshWithColor::new();
                faces_mesh_with_texture.color = color;
                faces_mesh_with_texture.faces_mesh = mesh;
                let ghost added = faces_mesh_with_texture@;
                faces.insert(key, faces_mesh_with_texture);
                assert(batches_view(faces@) =~= before.insert(key, added));
            } else {
                let removed = faces.remove(&key);
                let mut batch = removed.unwrap();
                assert(before.contains_key(key) && batch@ == before[key]);
                assert forall|i: int| 0 <= i < face.indices.len() implies #[trigger] face.indices[i]
                    + batch@.faces_mesh.vertices.len() <= u32::MAX by {
                    assert(face.indices[i] <= 3);
                }
                batch.faces_mesh.add(&mut mesh);
                let ghost added = batch@;
                faces.insert(key, batch);
                assert(batches_view(faces@) =~= before.insert(key, added));
            }
        }
    }
}

/// The meshes of a chunk, by colour: the faces that are drawn, of all six
/// directions.
pub fn get_faces_mesh(chunk_pre_mesh: &ChunkPreMesh) -> (faces: HashMap<u32, FacesMeshWithColor>)
    requires
        chunk_pre_mesh.is_full(),
        drawn_blocks_are_known(chunk_pre_mesh.positive_x@),
        drawn_blocks_are_known(chunk_pre_mesh.negative_x@),
        drawn_blocks_are_known(chunk_pre_mesh.positive_y@),
        drawn_blocks_are_known(chunk_pre_mesh.negative_y@),
        drawn_blocks_are_known(chunk_pre_mesh.positive_z@),
        drawn_blocks_are_known(chunk_pre_mesh.negative_z@),
    ensures
        batches_view(faces@) == emitted_chunk(*chunk_pre_mesh),
{
    let mut faces = HashMap::new();
    assert(batches_view(faces@) =~= Map::empty());

    convert_chunk_pre_mesh_data_into_faces_mesh(
        &mut faces,
        &chunk_pre_mesh.positive_x,
        Face::PositiveX,
        Ghost(0int),
    );
    convert_chunk_pre_mesh_data_into_faces_mesh(
        &mut faces,
        &chunk_pre_mesh.negative_x,
        Face::NegativeX,
        Ghost(4 * 65536int),
    );
    convert_chunk_pre_mesh_data_into_faces_mesh(
        &mut faces,
        &chunk_pre_mesh.positive_y,
        Face::PositiveY,
        Ghost(8 * 65536int),
    );
    convert_chunk_pre_mesh_data_into_faces_mesh(
        &mut faces,
        &chunk_pre_mesh.negative_y,
        Face::NegativeY,
        Ghost(12 * 65536int),
    );
    convert_chunk_pre_mesh_data_into_faces_mesh(
        &mut faces,
        &chunk_pre_mesh.positive_z,
        Face::PositiveZ,
        Ghost(16 * 65536int),
    );
    convert_chunk_pre_mesh_data_into_faces_mesh(
        &mut faces,
        &chunk_pre_mesh.negative_z,
        Face::NegativeZ,
        Ghost(20 * 65536int),
    );

    faces
}

} // verus!
