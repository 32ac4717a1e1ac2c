//! Procedural geometry: squares, floors, cubes, and UV spheres.
//!
//! Vertices are described exactly. Planar shapes keep their coordinates in
//! half-units (twice the real coordinate), so that a quad of width `w` has
//! corners at `x = w/2` without any rounding; sphere vertices keep the two
//! grid angles from which their position `r * (sin θ cos φ, cos θ,
//! -sin θ sin φ)` is evaluated at the GPU edge.
use vstd::arithmetic::div_mod::lemma_fundamental_div_mod_converse;
use vstd::prelude::*;

use crate::{DrawCall, PassKind, PipelineKind, Span};

verus! {

/// Texture tiling multiplier of the floor quad, so that the floor texture
/// repeats instead of being stretched once across the whole plane.
pub const FLOOR_TEX_TILING: u32 = 100;

/// An exactly-described vertex.
///
/// Every flat vertex carries the shared `+Z` normal: the cube generator
/// deliberately reuses one normal for all faces — a documented
/// simplification, not per-face-accurate lighting data.
#[derive(Clone, Copy, PartialEq, Eq, Structural, Debug)]
pub enum Vertex {
    /// Planar vertex: position in half-units (twice the real coordinate),
    /// texture coordinates in whole tiling steps.
    Flat { x2: i64, y2: i64, z2: i64, tex_u: u32, tex_v: u32 },
    /// Sphere-surface vertex at polar step `polar` and azimuth step `azim`
    /// of the grid recorded in the owning object's [`Surface`].
    Sphere { azim: usize, polar: usize },
}

/// What surface an object's vertices live on: a plane, or a sphere whose
/// grid divides the azimuth range `0..2π` into `azim_div` steps and the
/// polar range `0..π` into `polar_div` steps.
#[derive(Clone, Copy, PartialEq, Eq, Structural, Debug)]
pub enum Surface {
    Flat,
    Sphere { radius: u32, azim_div: usize, polar_div: usize },
}

/// A vertex fits a surface if it is of the surface's kind and, on a sphere,
/// its grid steps lie within the grid (the wrap column `azim == azim_div`
/// is a distinct slot: seam vertices are stored separately, not welded).
pub open spec fn vertex_on_surface(v: Vertex, s: Surface) -> bool {
    match s {
        Surface::Flat => v is Flat,
        Surface::Sphere { radius, azim_div, polar_div } => match v {
            Vertex::Sphere { azim, polar } => azim <= azim_div && polar <= polar_div,
            Vertex::Flat { .. } => false,
        },
    }
}

/// Every index refers to one of the `n_verts` vertices.
pub open spec fn indices_in_bounds(indices: Seq<u16>, n_verts: nat) -> bool {
    forall|k: int| 0 <= k < indices.len() ==> (indices[k] as nat) < n_verts
}

/// A triangle mesh: vertices plus a 16-bit triangle index list.
pub struct GeoObj {
    pub vertex_data: Vec<Vertex>,
    pub index_data: Vec<u16>,
    pub surface: Surface,
}

impl GeoObj {
    /// Invariant: indices stay within the vertex list, vertices fit the
    /// surface, and the index count fits the `u32` range of a draw call.
    pub open spec fn wf(self) -> bool {
        &&& self.index_data@.len() <= u32::MAX
        &&& indices_in_bounds(self.index_data@, self.vertex_data@.len())
        &&& forall|k: int|
            0 <= k < self.vertex_data@.len() ==> vertex_on_surface(
                #[trigger] self.vertex_data@[k],
                self.surface,
            )
    }

    pub fn new(vertex_data: Vec<Vertex>, index_data: Vec<u16>, surface: Surface) -> (r: GeoObj)
        requires
            index_data@.len() <= u32::MAX,
            indices_in_bounds(index_data@, vertex_data@.len()),
            forall|k: int|
                0 <= k < vertex_data@.len() ==> vertex_on_surface(
                    #[trigger] vertex_data@[k],
                    surface,
                ),
        ensures
            r == (GeoObj { vertex_data, index_data, surface }),
            r.wf(),
    {
        GeoObj { vertex_data, index_data, surface }
    }

    /// The index range of the one draw call that renders this object whole.
    pub fn get_index_range(&self) -> (r: Span)
        requires
            self.wf(),
        ensures
            r == (Span { start: 0, end: self.index_data@.len() as u32 }),
    {
        Span::full(self.index_data.len() as u32)
    }
}

/// The four corners of an axis-aligned quad of the given width and height
/// (in half-units), wound counter-clockwise starting at the top-right, with
/// texture coordinates tiled `tiling` times across the quad.
pub open spec fn quad_verts(width: u32, height: u32, tiling: u32) -> Seq<Vertex> {
    let w = width as i64;
    let h = height as i64;
    let nw = (-(width as int)) as i64;
    let nh = (-(height as int)) as i64;
    seq![
        Vertex::Flat { x2: w, y2: h, z2: 0, tex_u: tiling, tex_v: tiling },
        Vertex::Flat { x2: nw, y2: h, z2: 0, tex_u: 0, tex_v: tiling },
        Vertex::Flat { x2: nw, y2: nh, z2: 0, tex_u: 0, tex_v: 0 },
        Vertex::Flat { x2: w, y2: nh, z2: 0, tex_u: tiling, tex_v: 0 },
    ]
}

/// The two counter-clockwise triangles of a quad.
pub open spec fn quad_indices() -> Seq<u16> {
    seq![0u16, 1u16, 2u16, 2u16, 3u16, 0u16]
}

fn build_quad(width: u32, height: u32, tiling: u32) -> (r: GeoObj)
    ensures
        r.vertex_data@ == quad_verts(width, height, tiling),
        r.index_data@ == quad_indices(),
        r.surface == Surface::Flat,
        r.wf(),
{
    let w = width as i64;
    let h = height as i64;
    let mut vertex_data: Vec<Vertex> = Vec::new();
    vertex_data.push(Vertex::Flat { x2: w, y2: h, z2: 0, tex_u: tiling, tex_v: tiling });
    vertex_data.push(Vertex::Flat { x2: -w, y2: h, z2: 0, tex_u: 0, tex_v: tiling });
    vertex_data.push(Vertex::Flat { x2: -w, y2: -h, z2: 0, tex_u: 0, tex_v: 0 });
    vertex_data.push(Vertex::Flat { x2: w, y2: -h, z2: 0, tex_u: tiling, tex_v: 0 });
    let mut index_data: Vec<u16> = Vec::new();
    index_data.push(0);
    index_data.push(1);
    index_data.push(2);
    index_data.push(2);
    index_data.push(3);
    index_data.push(0);
    proof {
        assert(vertex_data@ =~= quad_verts(width, height, tiling));
        assert(index_data@ =~= quad_indices());
    }
    GeoObj::new(vertex_data, index_data, Surface::Flat)
}

/// A vertical square of the given height and width, centered on the origin
/// of its own plane, textured once across.
pub fn create_square(height: u32, width: u32) -> (r: GeoObj)
    ensures
        r.vertex_data@ == quad_verts(width, height, 1),
        r.index_data@ == quad_indices(),
        r.surface == Surface::Flat,
        r.wf(),
{
    build_quad(width, height, 1)
}

/// A floor quad: the same four corners as [`create_square`], with the
/// texture tiled [`FLOOR_TEX_TILING`] times so it repeats.
pub fn create_floor(height: u32, width: u32) -> (r: GeoObj)
    ensures
        r.vertex_data@ == quad_verts(width, height, FLOOR_TEX_TILING),
        r.index_data@ == quad_indices(),
        r.surface == Surface::Flat,
        r.wf(),
{
    build_quad(width, height, FLOOR_TEX_TILING)
}

/// True if the vertex is a corner of the axis-aligned quad: it lies in the
/// `z = 0` plane with `x = ±width/2` and `y = ±height/2` (in half-units:
/// `x2 = ±width`, `y2 = ±height`).
pub open spec fn quad_corner(v: Vertex, width: u32, height: u32) -> bool {
    match v {
        Vertex::Flat { x2, y2, z2, .. } => {
            &&& z2 == 0
            &&& (x2 == width || x2 == -(width as int))
            &&& (y2 == height || y2 == -(height as int))
        },
        Vertex::Sphere { .. } => false,
    }
}

/// Law: the four vertices of a quad of width `w` and height `h` are
/// axis-aligned and symmetric about the origin. Every vertex is a corner
/// with `x = ±w/2` and `y = ±h/2`, and each of the four extremes (maximum
/// and minimum on both axes) is attained.
pub proof fn lemma_quad_symmetric(width: u32, height: u32, tiling: u32)
    ensures
        quad_verts(width, height, tiling).len() == 4,
        forall|k: int|
            0 <= k < 4 ==> quad_corner(#[trigger] quad_verts(width, height, tiling)[k], width, height),
        quad_verts(width, height, tiling)[0]->x2 == width as int,
        quad_verts(width, height, tiling)[1]->x2 == -(width as int),
        quad_verts(width, height, tiling)[0]->y2 == height as int,
        quad_verts(width, height, tiling)[2]->y2 == -(height as int),
{
}

/// The eight corners of a cube of the given edge length, in half-units:
/// every coordinate is `±size/2`. The first four corners form the front
/// (`+Z`) face, the last four the back face.
pub open spec fn cube_verts(size: u32) -> Seq<Vertex> {
    let h = size as i64;
    let nh = (-(size as int)) as i64;
    seq![
        Vertex::Flat { x2: nh, y2: nh, z2: h, tex_u: 0, tex_v: 0 },
        Vertex::Flat { x2: h, y2: nh, z2: h, tex_u: 0, tex_v: 0 },
        Vertex::Flat { x2: h, y2: h, z2: h, tex_u: 0, tex_v: 0 },
        Vertex::Flat { x2: nh, y2: h, z2: h, tex_u: 0, tex_v: 0 },
        Vertex::Flat { x2: nh, y2: nh, z2: nh, tex_u: 0, tex_v: 0 },
        Vertex::Flat { x2: h, y2: nh, z2: nh, tex_u: 0, tex_v: 0 },
        Vertex::Flat { x2: h, y2: h, z2: nh, tex_u: 0, tex_v: 0 },
        Vertex::Flat { x2: nh, y2: h, z2: nh, tex_u: 0, tex_v: 0 },
    ]
}

/// The 12 triangles (36 indices) of the cube: two per face, in the order
/// front, back, top, bottom, left, right.
pub open spec fn cube_indices() -> Seq<u16> {
    seq![
        0u16, 1u16, 2u16, 2u16, 3u16, 0u16,
        4u16, 7u16, 6u16, 6u16, 5u16, 4u16,
        3u16, 2u16, 6u16, 6u16, 7u16, 3u16,
        0u16, 4u16, 5u16, 5u16, 1u16, 0u16,
        0u16, 3u16, 7u16, 7u16, 4u16, 0u16,
        1u16, 5u16, 6u16, 6u16, 2u16, 1u16,
    ]
}

/// Appends the two triangles of the face whose corners are `a, b, c, d` in
/// winding order: `a-b-c` and `c-d-a`.
fn push_face(index_data: &mut Vec<u16>, a: u16, b: u16, c: u16, d: u16)
    ensures
        final(index_data)@ == old(index_data)@ + seq![a, b, c, c, d, a],
{
    index_data.push(a);
    index_data.push(b);
    index_data.push(c);
    index_data.push(c);
    index_data.push(d);
    index_data.push(a);
    proof {
        assert(index_data@ =~= old(index_data)@ + seq![a, b, c, c, d, a]);
    }
}

/// A cube of the given edge length centered on the origin: 8 unique
/// vertices and 12 triangles, each face's triangles drawing only from that
/// face's four corners ([`lemma_cube_faces`]).
pub fn create_cube(size: u32) -> (r: GeoObj)
    ensures
        r.vertex_data@ == cube_verts(size),
        r.index_data@ == cube_indices(),
        r.surface == Surface::Flat,
        r.wf(),
{
    let h = size as i64;
    let mut vertex_data: Vec<Vertex> = Vec::new();
    vertex_data.push(Vertex::Flat { x2: -h, y2: -h, z2: h, tex_u: 0, tex_v: 0 });
    vertex_data.push(Vertex::Flat { x2: h, y2: -h, z2: h, tex_u: 0, tex_v: 0 });
    vertex_data.push(Vertex::Flat { x2: h, y2: h, z2: h, tex_u: 0, tex_v: 0 });
    vertex_data.push(Vertex::Flat { x2: -h, y2: h, z2: h, tex_u: 0, tex_v: 0 });
    vertex_data.push(Vertex::Flat { x2: -h, y2: -h, z2: -h, tex_u: 0, tex_v: 0 });
    vertex_data.push(Vertex::Flat { x2: h, y2: -h, z2: -h, tex_u: 0, tex_v: 0 });
    vertex_data.push(Vertex::Flat { x2: h, y2: h, z2: -h, tex_u: 0, tex_v: 0 });
    vertex_data.push(Vertex::Flat { x2: -h, y2: h, z2: -h, tex_u: 0, tex_v: 0 });
    let mut index_data: Vec<u16> = Vec::new();
    push_face(&mut index_data, 0, 1, 2, 3);
    push_face(&mut index_data, 4, 7, 6, 5);
    push_face(&mut index_data, 3, 2, 6, 7);
    push_face(&mut index_data, 0, 4, 5, 1);
    push_face(&mut index_data, 0, 3, 7, 4);
    push_face(&mut index_data, 1, 5, 6, 2);
    proof {
        assert(vertex_data@ =~= cube_verts(size));
        assert(index_data@ =~= cube_indices());
    }
    GeoObj::new(vertex_data, index_data, Surface::Flat)
}

/// The four vertex indices of cube face `f`, in the face order of
/// [`cube_indices`]: front, back, top, bottom, left, right.
pub open spec fn cube_face_quad(f: int) -> Set<u16> {
    if f == 0 {
        set![0u16, 1u16, 2u16, 3u16]
    } else if f == 1 {
        set![4u16, 5u16, 6u16, 7u16]
    } else if f == 2 {
        set![3u16, 2u16, 6u16, 7u16]
    } else if f == 3 {
        set![0u16, 4u16, 5u16, 1u16]
    } else if f == 4 {
        set![0u16, 3u16, 7u16, 4u16]
    } else {
        set![1u16, 5u16, 6u16, 2u16]
    }
}

/// Law: the cube has exactly 8 vertices and 36 indices (12 triangles), and
/// every triangle of a face references only vertices of that face's quad
/// (face `k / 6` for index position `k`).
pub proof fn lemma_cube_faces(size: u32)
    ensures
        cube_verts(size).len() == 8,
        cube_indices().len() == 36,
        forall|k: int| 0 <= k < 36 ==> cube_face_quad(k / 6).contains(#[trigger] cube_indices()[k]),
{
    assert forall|k: int| 0 <= k < 36 implies cube_face_quad(k / 6).contains(
        #[trigger] cube_indices()[k],
    ) by {
        let f = k / 6;
        assert(0 <= f < 6);
    }
}

/// The sphere-grid vertex at azimuth step `azim` and polar step `polar`.
pub open spec fn sphere_vertex(azim: int, polar: int) -> Vertex {
    Vertex::Sphere { azim: azim as usize, polar: polar as usize }
}

/// No two vertices of the mesh describe the same point: shared corners were
/// deduplicated by the builder's lookup grid.
pub open spec fn distinct_verts(verts: Seq<Vertex>) -> bool {
    forall|k1: int, k2: int| 0 <= k1 < k2 < verts.len() ==> verts[k1] != verts[k2]
}

/// The two triangles emitted for sphere cell `(i, j)` (polar row `i`,
/// azimuth column `j`) stand at positions `6*(i*u + j)..` of the index list
/// and reference the cell's four grid corners in the fixed winding
/// `p0, p1, p3, p3, p1, p2`, where `p0 = (j, i)`, `p1 = (j, i+1)`,
/// `p2 = (j+1, i+1)`, `p3 = (j+1, i)`.
pub open spec fn sphere_cell_ok(
    verts: Seq<Vertex>,
    indices: Seq<u16>,
    u: int,
    i: int,
    j: int,
) -> bool {
    let b = 6 * (i * u + j);
    &&& 0 <= b
    &&& b + 6 <= indices.len()
    &&& (indices[b] as int) < verts.len()
    &&& (indices[b + 1] as int) < verts.len()
    &&& (indices[b + 2] as int) < verts.len()
    &&& (indices[b + 5] as int) < verts.len()
    &&& verts[indices[b] as int] == sphere_vertex(j, i)
    &&& verts[indices[b + 1] as int] == sphere_vertex(j, i + 1)
    &&& verts[indices[b + 2] as int] == sphere_vertex(j + 1, i)
    &&& indices[b + 3] == indices[b + 2]
    &&& indices[b + 4] == indices[b + 1]
    &&& verts[indices[b + 5] as int] == sphere_vertex(j + 1, i + 1)
}

/// Which grid slots the sphere builder has allocated a vertex for once it
/// has completed `i` full rows of cells and `j` further cells of row `i`,
/// walking rows in polar order and cells in azimuth order.
#[verifier::opaque]
pub open spec fn sphere_allocated(u: int, i: int, j: int, a: int, p: int) -> bool {
    if i == 0 {
        j >= 1 && a <= j && p <= 1
    } else {
        (p <= i && a <= u) || (j >= 1 && p == i + 1 && a <= j)
    }
}

/// How many vertices the builder has allocated at that point.
pub open spec fn sphere_vert_count(u: int, i: int, j: int) -> int {
    if i == 0 {
        if j == 0 {
            0
        } else {
            2 * (j + 1)
        }
    } else {
        (i + 1) * (u + 1) + (if j == 0 {
            0int
        } else {
            j + 1
        })
    }
}

/// Appends the two triangles of sphere cell corners `p0, p1, p2, p3` in the
/// fixed winding `p0, p1, p3, p3, p1, p2`.
fn push_cell(index_data: &mut Vec<u16>, p0: u16, p1: u16, p2: u16, p3: u16)
    ensures
        final(index_data)@ == old(index_data)@ + seq![p0, p1, p3, p3, p1, p2],
{
    index_data.push(p0);
    index_data.push(p1);
    index_data.push(p3);
    index_data.push(p3);
    index_data.push(p1);
    index_data.push(p2);
    proof {
        assert(index_data@ =~= old(index_data)@ + seq![p0, p1, p3, p3, p1, p2]);
    }
}

/// A prefix agrees with the longer sequence at every index it covers.
proof fn lemma_prefix_index<T>(s1: Seq<T>, s2: Seq<T>, k: int)
    requires
        s1.is_prefix_of(s2),
        0 <= k < s1.len(),
    ensures
        s2[k] == s1[k],
{
    assert(s1 =~= s2.subrange(0, s1.len() as int));
    assert(s2.subrange(0, s1.len() as int)[k] == s2[k]);
}

/// The counting facts of one sphere cell: how many corners are fresh, that
/// the fresh corners still fit the grid's capacity, and how the vertex
/// count advances.
proof fn lemma_sphere_cell_counts(u: int, v: int, i: int, j: int)
    requires
        u >= 1,
        v >= 1,
        0 <= i < v,
        0 <= j < u,
    ensures
        sphere_vert_count(u, i, j) >= 0,
        sphere_vert_count(u, i, j + 1) == sphere_vert_count(u, i, j) + sphere_cell_fresh(i, j),
        sphere_vert_count(u, i, j) + sphere_cell_fresh(i, j) <= (u + 1) * (v + 1),
{
    if i == 0 {
        assert(2 * (j + 2) <= (u + 1) * (v + 1)) by (nonlinear_arith)
            requires
                u >= 1,
                v >= 1,
                0 <= j < u,
        ;
    } else {
        assert((i + 1) * (u + 1) + j + 2 <= (u + 1) * (v + 1)) by (nonlinear_arith)
            requires
                u >= 1,
                v >= 1,
                1 <= i < v,
                0 <= j < u,
        ;
    }
}

/// How many of the four corners of cell `(i, j)` are fresh (not yet in the
/// lookup grid) when the builder reaches the cell.
pub open spec fn sphere_cell_fresh(i: int, j: int) -> int {
    if i == 0 {
        if j == 0 {
            4
        } else {
            2
        }
    } else {
        if j == 0 {
            2
        } else {
            1
        }
    }
}

/// Finishing a row of cells is the same state as standing at the start of
/// the next row: the allocated slots, the vertex count, and the index count
/// all carry over.
proof fn lemma_sphere_row_roll(u: int, i: int)
    requires
        u >= 1,
        i >= 0,
    ensures
        forall|a: int, p: int|
            sphere_allocated(u, i, u, a, p) == sphere_allocated(u, i + 1, 0, a, p),
        sphere_vert_count(u, i, u) == sphere_vert_count(u, i + 1, 0),
        6 * (i * u + u) == 6 * ((i + 1) * u),
{
    reveal(sphere_allocated);
    assert(sphere_vert_count(u, i, u) == sphere_vert_count(u, i + 1, 0)) by (nonlinear_arith)
        requires
            u >= 1,
            i >= 0,
    ;
    assert(6 * (i * u + u) == 6 * ((i + 1) * u)) by (nonlinear_arith);
}

/// A cell's triangles stay in place when the mesh grows: the index list is
/// only appended to and the vertex list only pushed to.
proof fn lemma_sphere_cell_grow(
    verts0: Seq<Vertex>,
    idx0: Seq<u16>,
    verts1: Seq<Vertex>,
    idx1: Seq<u16>,
    u: int,
    i: int,
    j: int,
)
    requires
        sphere_cell_ok(verts0, idx0, u, i, j),
        verts0.is_prefix_of(verts1),
        idx0.is_prefix_of(idx1),
    ensures
        sphere_cell_ok(verts1, idx1, u, i, j),
{
    let b = 6 * (i * u + j);
    lemma_prefix_index(idx0, idx1, b);
    lemma_prefix_index(idx0, idx1, b + 1);
    lemma_prefix_index(idx0, idx1, b + 2);
    lemma_prefix_index(idx0, idx1, b + 3);
    lemma_prefix_index(idx0, idx1, b + 4);
    lemma_prefix_index(idx0, idx1, b + 5);
    lemma_prefix_index(verts0, verts1, idx0[b] as int);
    lemma_prefix_index(verts0, verts1, idx0[b + 1] as int);
    lemma_prefix_index(verts0, verts1, idx0[b + 2] as int);
    lemma_prefix_index(verts0, verts1, idx0[b + 5] as int);
}

/// The fresh corner vertices cell `(i, j)` appends, in the order its four
/// corners are looked up (`p0, p1, p2, p3`): the first cell of the first
/// row appends all four corners, later cells of the first row their two
/// far-azimuth corners, the first cell of a later row its two far-polar
/// corners, and any other cell only its far corner.
pub open spec fn sphere_cell_new_verts(i: int, j: int) -> Seq<Vertex> {
    if i == 0 {
        if j == 0 {
            seq![
                sphere_vertex(0, 0),
                sphere_vertex(0, 1),
                sphere_vertex(1, 1),
                sphere_vertex(1, 0),
            ]
        } else {
            seq![sphere_vertex(j + 1, 1), sphere_vertex(j + 1, 0)]
        }
    } else {
        if j == 0 {
            seq![sphere_vertex(0, i + 1), sphere_vertex(1, i + 1)]
        } else {
            seq![sphere_vertex(j + 1, i + 1)]
        }
    }
}

/// The exact vertex list after the first `c` cells of a sphere with `u`
/// azimuth steps, cells taken in row-major order: each cell appends its
/// fresh corners ([`sphere_cell_new_verts`]) and reuses the rest.
pub open spec fn sphere_verts_through(u: int, c: int) -> Seq<Vertex>
    decreases c,
{
    if c <= 0 {
        Seq::empty()
    } else {
        sphere_verts_through(u, c - 1) + sphere_cell_new_verts((c - 1) / u, (c - 1) % u)
    }
}

/// At the start nothing is allocated.
proof fn lemma_alloc_empty(u: int)
    ensures
        forall|a: int, p: int| !sphere_allocated(u, 0, 0, a, p),
{
    reveal(sphere_allocated);
}

/// Which of the four corners of cell `(i, j)` the earlier cells have
/// already allocated: everything but the far corner on the first cell of
/// the first row, the two near corners mid-row, and so on.
proof fn lemma_cell_slot_states(u: int, v: int, i: int, j: int)
    requires
        u >= 1,
        v >= 1,
        0 <= i < v,
        0 <= j < u,
    ensures
        sphere_allocated(u, i, j, j, i) == (i >= 1 || j >= 1),
        sphere_allocated(u, i, j, j, i + 1) == (j >= 1),
        sphere_allocated(u, i, j, j + 1, i + 1) == false,
        sphere_allocated(u, i, j, j + 1, i) == (i >= 1),
{
    reveal(sphere_allocated);
}

/// Incremental builder of a UV-sphere mesh.
///
/// The grid divides the azimuth range into `u` steps and the polar range
/// into `v` steps. `enqueued[azim][polar]` memoizes the index given to each
/// grid point, so that the four cells sharing a corner reuse one vertex;
/// the wrap column `azim == u` has its own slots, so seam vertices are
/// duplicated, not shared across the `0/2π` boundary. The floating-point
/// position of a grid point is a function of its two steps and the radius
/// alone, evaluated at the GPU edge.
pub struct SphereGenerator {
    pub u: usize,
    pub v: usize,
    pub radius: u32,
    pub vertex_data: Vec<Vertex>,
    pub index_data: Vec<u16>,
    pub enqueued: Vec<Vec<Option<u16>>>,
    pub index: u16,
}

impl SphereGenerator {
    /// The lookup grid has one slot per grid point, and the whole grid fits
    /// the 16-bit index type.
    pub open spec fn grid_wf(self) -> bool {
        &&& (self.u + 1) * (self.v + 1) <= 0xFFFF
        &&& self.enqueued@.len() == self.u + 1
        &&& forall|a: int| 0 <= a <= self.u ==> (#[trigger] self.enqueued@[a])@.len() == self.v + 1
    }

    /// The memo grid and the vertex list name each other exactly: a filled
    /// slot holds the index of a vertex carrying that slot's grid steps, and
    /// every vertex is registered at its own slot.
    #[verifier::opaque]
    pub open spec fn memo_wf(self) -> bool {
        &&& self.index as int == self.vertex_data@.len()
        &&& forall|a: int, p: int|
            0 <= a <= self.u && 0 <= p <= self.v && (#[trigger] self.enqueued@[a]@[p]) is Some
                ==> {
                &&& (self.enqueued@[a]@[p]->0 as int) < self.vertex_data@.len()
                &&& self.vertex_data@[self.enqueued@[a]@[p]->0 as int] == sphere_vertex(a, p)
            }
        &&& forall|k: int|
            0 <= k < self.vertex_data@.len() ==> {
                let vx = #[trigger] self.vertex_data@[k];
                &&& vx matches Vertex::Sphere { azim, polar }
                &&& azim <= self.u
                &&& polar <= self.v
                &&& self.enqueued@[azim as int]@[polar as int] == Some(k as u16)
            }
    }

    pub open spec fn wf(self) -> bool {
        &&& self.grid_wf()
        &&& self.memo_wf()
        &&& indices_in_bounds(self.index_data@, self.vertex_data@.len())
        &&& self.index_data@.len() <= u32::MAX
    }

    /// A fresh builder with an empty mesh and an all-empty lookup grid.
    pub fn new(radius: u32, u: usize, v: usize) -> (r: Self)
        requires
            (u + 1) * (v + 1) <= 0xFFFF,
        ensures
            r.wf(),
            r.u == u,
            r.v == v,
            r.radius == radius,
            r.vertex_data@.len() == 0,
            r.index_data@.len() == 0,
            forall|a: int, p: int|
                0 <= a <= u && 0 <= p <= v ==> (#[trigger] r.enqueued@[a]@[p]) is None,
    {
        proof {
            assert(u + 1 <= 0xFFFF && v + 1 <= 0xFFFF) by (nonlinear_arith)
                requires
                    (u + 1) * (v + 1) <= 0xFFFF,
            ;
        }
        let mut enqueued: Vec<Vec<Option<u16>>> = Vec::new();
        let mut a: usize = 0;
        while a < u + 1
            invariant
                a <= u + 1,
                u + 1 <= 0xFFFF,
                v + 1 <= 0xFFFF,
                enqueued@.len() == a,
                forall|x: int| 0 <= x < a ==> (#[trigger] enqueued@[x])@.len() == v + 1,
                forall|x: int, p: int|
                    0 <= x < a && 0 <= p <= v ==> (#[trigger] enqueued@[x]@[p]) is None,
            decreases u + 1 - a,
        {
            let mut row: Vec<Option<u16>> = Vec::new();
            let mut p: usize = 0;
            while p < v + 1
                invariant
                    p <= v + 1,
                    v + 1 <= 0xFFFF,
                    row@.len() == p,
                    forall|q: int| 0 <= q < p ==> (#[trigger] row@[q]) is None,
                decreases v + 1 - p,
            {
                row.push(None);
                p += 1;
            }
            enqueued.push(row);
            a += 1;
        }
        proof {
            reveal(SphereGenerator::memo_wf);
        }
        SphereGenerator {
            u,
            v,
            radius,
            vertex_data: Vec::new(),
            index_data: Vec::new(),
            enqueued,
            index: 0,
        }
    }

    /// The exact description of the sphere vertex at the given grid steps;
    /// its position `r * (sin θ cos φ, cos θ, -sin θ sin φ)` with
    /// `θ = polar/v * π` and `φ = azim/u * 2π` is evaluated at the GPU edge.
    fn create_sphere_vertex(&self, polar: usize, azim: usize) -> (r: Vertex)
        ensures
            r == sphere_vertex(azim as int, polar as int),
    {
        Vertex::Sphere { azim, polar }
    }

    /// The index of the grid point `(azim, polar)`: the memoized one if the
    /// point was already allocated, else the index of a newly pushed vertex.
    fn get_index(&mut self, polar: usize, azim: usize) -> (r: u16)
        requires
            old(self).wf(),
            polar <= old(self).v,
            azim <= old(self).u,
            old(self).enqueued@[azim as int]@[polar as int] is None ==> old(
                self,
            ).vertex_data@.len() < (old(self).u + 1) * (old(self).v + 1),
        ensures
            final(self).wf(),
            final(self).u == old(self).u,
            final(self).v == old(self).v,
            final(self).radius == old(self).radius,
            final(self).index_data == old(self).index_data,
            (r as int) < final(self).vertex_data@.len(),
            final(self).vertex_data@[r as int] == sphere_vertex(azim as int, polar as int),
            final(self).enqueued@[azim as int]@[polar as int] == Some(r),
            old(self).vertex_data@.is_prefix_of(final(self).vertex_data@),
            forall|a: int, p: int|
                0 <= a <= old(self).u && 0 <= p <= old(self).v && !(a == azim && p == polar)
                    ==> #[trigger] final(self).enqueued@[a]@[p] == old(self).enqueued@[a]@[p],
            old(self).enqueued@[azim as int]@[polar as int] matches Some(i0) ==> r == i0
                && final(self).vertex_data@ == old(self).vertex_data@,
            old(self).enqueued@[azim as int]@[polar as int] is None ==> r as int == old(
                self,
            ).vertex_data@.len() && final(self).vertex_data@ == old(self).vertex_data@.push(
                sphere_vertex(azim as int, polar as int),
            ),
    {
        proof {
            reveal(SphereGenerator::memo_wf);
        }
        let cur = self.enqueued[azim][polar];
        if let Some(ind) = cur {
            ind
        } else {
            let vx = self.create_sphere_vertex(polar, azim);
            self.vertex_data.push(vx);
            let old_idx = self.index;
            self.enqueued[azim][polar] = Some(old_idx);
            self.index = self.index + 1;
            old_idx
        }
    }

    /// Emits the two triangles of cell `(i, j)`: polar row `i`, azimuth
    /// column `j`. The four corner indices are taken from the lookup grid,
    /// allocating the corners that no earlier cell has touched.
    #[verifier::rlimit(100)]
    fn emit_cell(&mut self, i: usize, j: usize)
        requires
            old(self).wf(),
            old(self).u >= 1,
            old(self).v >= 1,
            i < old(self).v,
            j < old(self).u,
            old(self).vertex_data@.len() == sphere_vert_count(
                old(self).u as int,
                i as int,
                j as int,
            ),
            old(self).index_data@.len() == 6 * (i * old(self).u + j),
            forall|a: int, p: int|
                0 <= a <= old(self).u && 0 <= p <= old(self).v ==> ((
                #[trigger] old(self).enqueued@[a]@[p]) is Some <==> sphere_allocated(
                    old(self).u as int,
                    i as int,
                    j as int,
                    a,
                    p,
                )),
        ensures
            final(self).wf(),
            final(self).u == old(self).u,
            final(self).v == old(self).v,
            final(self).radius == old(self).radius,
            final(self).vertex_data@.len() == sphere_vert_count(
                old(self).u as int,
                i as int,
                j as int + 1,
            ),
            final(self).index_data@.len() == 6 * (i * old(self).u + j) + 6,
            forall|a: int, p: int|
                0 <= a <= old(self).u && 0 <= p <= old(self).v ==> ((
                #[trigger] final(self).enqueued@[a]@[p]) is Some <==> sphere_allocated(
                    old(self).u as int,
                    i as int,
                    j as int + 1,
                    a,
                    p,
                )),
            old(self).vertex_data@.is_prefix_of(final(self).vertex_data@),
            final(self).vertex_data@ == old(self).vertex_data@ + sphere_cell_new_verts(
                i as int,
                j as int,
            ),
            old(self).index_data@.is_prefix_of(final(self).index_data@),
            sphere_cell_ok(
                final(self).vertex_data@,
                final(self).index_data@,
                old(self).u as int,
                i as int,
                j as int,
            ),
    {
        let ghost ui = self.u as int;
        let ghost vi = self.v as int;
        let ghost ii = i as int;
        let ghost ji = j as int;
        proof {
            lemma_sphere_cell_counts(ui, vi, ii, ji);
            lemma_cell_slot_states(ui, vi, ii, ji);
            assert(ui + 1 <= 0xFFFF && vi + 1 <= 0xFFFF) by (nonlinear_arith)
                requires
                    (ui + 1) * (vi + 1) <= 0xFFFF,
                    ui >= 1,
                    vi >= 1,
            ;
        }
        let ghost c0 = *self;
        let p0 = self.get_index(i, j);
        let ghost c1 = *self;
        let p1 = self.get_index(i + 1, j);
        let ghost c2 = *self;
        let p2 = self.get_index(i + 1, j + 1);
        let ghost c3 = *self;
        let p3 = self.get_index(i, j + 1);
        let ghost c4 = *self;
        proof {
            // the four slots now all name their grid points
            assert(self.enqueued@[ji]@[ii] == Some(p0));
            assert(self.enqueued@[ji]@[ii + 1] == Some(p1));
            assert(self.enqueued@[ji + 1]@[ii + 1] == Some(p2));
            assert(self.enqueued@[ji + 1]@[ii] == Some(p3));
            // vertex count advanced by the number of fresh corners
            assert(self.vertex_data@.len() == sphere_vert_count(ui, ii, ji + 1));
            // and exactly the fresh corners were appended, in lookup order
            assert(self.vertex_data@ =~= c0.vertex_data@ + sphere_cell_new_verts(ii, ji));
            // the memo grid matches the allocation predicate again
            assert forall|a: int, p: int| 0 <= a <= ui && 0 <= p <= vi implies ((
            #[trigger] self.enqueued@[a]@[p]) is Some <==> sphere_allocated(
                ui,
                ii,
                ji + 1,
                a,
                p,
            )) by {
                reveal(sphere_allocated);
                if !((a == ji && p == ii) || (a == ji && p == ii + 1) || (a == ji + 1 && p == ii
                    + 1) || (a == ji + 1 && p == ii)) {
                    assert(c4.enqueued@[a]@[p] == c3.enqueued@[a]@[p]);
                    assert(c3.enqueued@[a]@[p] == c2.enqueued@[a]@[p]);
                    assert(c2.enqueued@[a]@[p] == c1.enqueued@[a]@[p]);
                    assert(c1.enqueued@[a]@[p] == c0.enqueued@[a]@[p]);
                }
            }
        }
        push_cell(&mut self.index_data, p0, p1, p2, p3);
        proof {
            // the corner vertices kept their grid points as the list grew
            assert(c1.vertex_data@[p0 as int] == sphere_vertex(ji, ii));
            assert(c2.vertex_data@[p1 as int] == sphere_vertex(ji, ii + 1));
            assert(c3.vertex_data@[p2 as int] == sphere_vertex(ji + 1, ii + 1));
            assert(c4.vertex_data@[p3 as int] == sphere_vertex(ji + 1, ii));
            lemma_prefix_index(c1.vertex_data@, c2.vertex_data@, p0 as int);
            lemma_prefix_index(c2.vertex_data@, c3.vertex_data@, p0 as int);
            lemma_prefix_index(c3.vertex_data@, c4.vertex_data@, p0 as int);
            lemma_prefix_index(c2.vertex_data@, c3.vertex_data@, p1 as int);
            lemma_prefix_index(c3.vertex_data@, c4.vertex_data@, p1 as int);
            lemma_prefix_index(c3.vertex_data@, c4.vertex_data@, p2 as int);
            assert(self.vertex_data@[p0 as int] == sphere_vertex(ji, ii));
            assert(self.vertex_data@[p1 as int] == sphere_vertex(ji, ii + 1));
            assert(self.vertex_data@[p2 as int] == sphere_vertex(ji + 1, ii + 1));
            assert(self.vertex_data@[p3 as int] == sphere_vertex(ji + 1, ii));
            assert(sphere_cell_ok(self.vertex_data@, self.index_data@, ui, ii, ji));
            // the longer index list still stays within the vertex list
            assert forall|k: int| 0 <= k < self.index_data@.len() implies (
            #[trigger] self.index_data@[k] as int) < self.vertex_data@.len() by {
                if k < c0.index_data@.len() {
                    lemma_prefix_index(c0.index_data@, self.index_data@, k);
                }
            }
            // and its length keeps to the 32-bit draw-call range
            assert(ii * ui + ji + 1 <= (ui + 1) * (vi + 1)) by (nonlinear_arith)
                requires
                    0 <= ii < vi,
                    0 <= ji < ui,
            ;
            // appending indices leaves the vertex/slot bookkeeping alone
            assert(self.memo_wf()) by {
                reveal(SphereGenerator::memo_wf);
            }
        }
    }

    /// Walks the grid cell by cell (rows in polar order, cells in azimuth
    /// order) and emits the two triangles of each cell, allocating shared
    /// corner vertices once through [`Self::get_index`].
    #[verifier::loop_isolation(false)]
    pub fn build_sphere(self) -> (r: Self)
        requires
            self.wf(),
            self.vertex_data@.len() == 0,
            self.index_data@.len() == 0,
            forall|a: int, p: int|
                0 <= a <= self.u && 0 <= p <= self.v ==> (#[trigger] self.enqueued@[a]@[p])
                    is None,
        ensures
            r.wf(),
            r.u == self.u,
            r.v == self.v,
            r.radius == self.radius,
            r.index_data@.len() == 6 * self.u * self.v,
            r.vertex_data@.len() == (if self.u == 0 || self.v == 0 {
                0int
            } else {
                (self.u + 1) * (self.v + 1)
            }),
            self.u >= 1 && self.v >= 1 ==> r.vertex_data@ == sphere_verts_through(
                self.u as int,
                self.u as int * self.v as int,
            ),
            forall|i: int, j: int|
                0 <= i < self.v && 0 <= j < self.u ==> sphere_cell_ok(
                    r.vertex_data@,
                    r.index_data@,
                    self.u as int,
                    i,
                    j,
                ),
    {
        let u = self.u;
        let v = self.v;
        if u == 0 || v == 0 {
            return self;
        }
        proof {
            assert(u + 1 <= 0xFFFF && v + 1 <= 0xFFFF) by (nonlinear_arith)
                requires
                    (u + 1) * (v + 1) <= 0xFFFF,
            ;
            lemma_alloc_empty(u as int);
        }
        let mut g = self;
        let mut i: usize = 0;
        while i < v
            invariant
                i <= v,
                g.wf(),
                g.u == u,
                g.v == v,
                g.radius == self.radius,
                g.vertex_data@.len() == sphere_vert_count(u as int, i as int, 0),
                g.vertex_data@ == sphere_verts_through(u as int, i as int * u as int),
                g.index_data@.len() == 6 * (i * u),
                forall|a: int, p: int|
                    0 <= a <= u && 0 <= p <= v ==> ((#[trigger] g.enqueued@[a]@[p]) is Some
                        <==> sphere_allocated(u as int, i as int, 0, a, p)),
                forall|ci: int, cj: int|
                    0 <= ci < i && 0 <= cj < u ==> sphere_cell_ok(
                        g.vertex_data@,
                        g.index_data@,
                        u as int,
                        ci,
                        cj,
                    ),
            decreases v - i,
        {
            let mut j: usize = 0;
            while j < u
                invariant
                    i < v,
                    j <= u,
                    g.wf(),
                    g.u == u,
                    g.v == v,
                    g.radius == self.radius,
                    g.vertex_data@.len() == sphere_vert_count(u as int, i as int, j as int),
                    g.vertex_data@ == sphere_verts_through(
                        u as int,
                        i as int * u as int + j as int,
                    ),
                    g.index_data@.len() == 6 * (i * u + j),
                    forall|a: int, p: int|
                        0 <= a <= u && 0 <= p <= v ==> ((#[trigger] g.enqueued@[a]@[p]) is Some
                            <==> sphere_allocated(u as int, i as int, j as int, a, p)),
                    forall|ci: int, cj: int|
                        (0 <= ci < i && 0 <= cj < u) || (ci == i && 0 <= cj < j)
                            ==> sphere_cell_ok(g.vertex_data@, g.index_data@, u as int, ci, cj),
                decreases u - j,
            {
                let ghost gpre = g;
                g.emit_cell(i, j);
                proof {
                    lemma_fundamental_div_mod_converse(
                        i as int * u as int + j as int,
                        u as int,
                        i as int,
                        j as int,
                    );
                    assert forall|ci: int, cj: int|
                        (0 <= ci < i && 0 <= cj < u) || (ci == i && 0 <= cj < j + 1) implies
                        sphere_cell_ok(g.vertex_data@, g.index_data@, u as int, ci, cj) by {
                        if !(ci == i && cj == j) {
                            lemma_sphere_cell_grow(
                                gpre.vertex_data@,
                                gpre.index_data@,
                                g.vertex_data@,
                                g.index_data@,
                                u as int,
                                ci,
                                cj,
                            );
                        }
                    }
                }
                j += 1;
            }
            proof {
                lemma_sphere_row_roll(u as int, i as int);
                assert forall|a: int, p: int| 0 <= a <= u && 0 <= p <= v implies ((
                #[trigger] g.enqueued@[a]@[p]) is Some <==> sphere_allocated(
                    u as int,
                    i as int + 1,
                    0,
                    a,
                    p,
                )) by {
                    assert((g.enqueued@[a]@[p] is Some) == sphere_allocated(
                        u as int,
                        i as int,
                        u as int,
                        a,
                        p,
                    ));
                }
            }
            i += 1;
        }
        proof {
            assert(6 * (v * u) == 6 * u * v) by (nonlinear_arith);
            assert(sphere_vert_count(u as int, v as int, 0) == (u + 1) * (v + 1))
                by (nonlinear_arith)
                requires
                    u >= 1,
                    v >= 1,
            ;
        }
              g
    }

    /// Packs the finished mesh into a [`GeoObj`] tagged with its sphere
    /// surface.
    pub fn create_obj(self) -> (r: GeoObj)
        requires
            self.wf(),
        ensures
            r.vertex_data == self.vertex_data,
            r.index_data == self.index_data,
            r.surface == (Surface::Sphere {
                radius: self.radius,
                azim_div: self.u,
                polar_div: self.v,
            }),
            r.wf(),
    {
        let ghost s = self;
        let SphereGenerator { vertex_data, index_data, radius, u, v, .. } = self;
        proof {
            assert forall|k: int| 0 <= k < vertex_data@.len() implies vertex_on_surface(
                #[trigger] vertex_data@[k],
                Surface::Sphere { radius, azim_div: u, polar_div: v },
            ) by {
                reveal(SphereGenerator::memo_wf);
                assert(s.vertex_data@[k] == vertex_data@[k]);
            }
        }
        GeoObj::new(
            vertex_data,
            index_data,
            Surface::Sphere { radius, azim_div: u, polar_div: v },
        )
    }
}

/// A UV sphere of the given radius: `u` azimuth steps by `v` polar steps,
/// `6*u*v` indices in all, two triangles per grid cell, with corner
/// vertices shared between adjacent cells through the builder's lookup
/// grid ([`distinct_verts`] says no grid point is stored twice; the seam
/// column is its own grid column, so seam vertices are duplicated rather
/// than welded across the `0/2π` boundary). Every vertex is a grid point
/// of the sphere's surface, so its evaluated position — a unit direction
/// scaled by the radius — lies at distance exactly `radius` from the
/// origin.
pub fn create_sphere(radius: u32, u: usize, v: usize) -> (r: GeoObj)
    requires
        (u + 1) * (v + 1) <= 0xFFFF,
    ensures
        r.wf(),
        r.surface == (Surface::Sphere { radius, azim_div: u, polar_div: v }),
        r.index_data@.len() == 6 * u * v,
        r.vertex_data@.len() == (if u == 0 || v == 0 {
            0int
        } else {
            (u + 1) * (v + 1)
        }),
        u >= 1 && v >= 1 ==> r.vertex_data@ == sphere_verts_through(u as int, u as int * v as int),
        distinct_verts(r.vertex_data@),
        forall|i: int, j: int|
            0 <= i < v && 0 <= j < u ==> sphere_cell_ok(
                r.vertex_data@,
                r.index_data@,
                u as int,
                i,
                j,
            ),
{
    let g = SphereGenerator::new(radius, u, v).build_sphere();
    proof {
        assert forall|k1: int, k2: int| 0 <= k1 < k2 < g.vertex_data@.len() implies g
            .vertex_data@[k1] != g.vertex_data@[k2] by {
            reveal(SphereGenerator::memo_wf);
            if g.vertex_data@[k1] == g.vertex_data@[k2] {
                assert(g.enqueued@[g.vertex_data@[k1]->azim as int]@[g.vertex_data@[k1]->polar as int]
                    == Some(k1 as u16));
                assert(g.enqueued@[g.vertex_data@[k2]->azim as int]@[g.vertex_data@[k2]->polar as int]
                    == Some(k2 as u16));
                assert(k1 as u16 == k2 as u16);
                assert(g.vertex_data@.len() <= 0xFFFF);
                assert(false);
            }
        }
    }
    g.create_obj()
}


/// An entity couples one mesh with one texture binding; render groups
/// borrow it per frame. The texture itself lives at the GPU edge; the
/// library keeps the slot it is bound under.
pub struct Entity {
    pub obj: GeoObj,
    pub texture_id: u32,
}

impl Entity {
    pub open spec fn wf(self) -> bool {
        self.obj.wf()
    }

    pub fn new(obj: GeoObj, texture_id: u32) -> (r: Self)
        requires
            obj.wf(),
        ensures
            r.obj == obj,
            r.texture_id == texture_id,
            r.wf(),
    {
        Entity { obj, texture_id }
    }
}

/// The one draw call a geometry render group records in a pass: the whole
/// index range, the whole instance range, on the geometry pipeline in the
/// color pass and the depth-only pipeline in the shadow pass.
pub open spec fn geo_draws(g: GeoRenderGroup, pass: PassKind) -> Seq<DrawCall> {
    seq![
        DrawCall {
            pipeline: if pass is Shadow {
                PipelineKind::Shadow
            } else {
                PipelineKind::Geo
            },
            elements: Span { start: 0, end: g.entity.obj.index_data@.len() as u32 },
            instances: Span {
                start: 0,
                end: g.instances.instance_transforms@.len() as u32,
            },
            material: None,
        },
    ]
}

/// A renderable unit: an entity, its instance set, and the configured
/// geometry pipeline they are drawn with.
pub struct GeoRenderGroup {
    pub entity: Entity,
    pub instances: crate::world_space::Instances,
}

impl GeoRenderGroup {
    pub open spec fn wf(self) -> bool {
        &&& self.entity.wf()
        &&& self.instances.wf()
    }

    pub fn new(entity: Entity, instances: crate::world_space::Instances) -> (r: Self)
        requires
            entity.wf(),
            instances.wf(),
        ensures
            r.entity == entity,
            r.instances == instances,
            r.wf(),
    {
        GeoRenderGroup { entity, instances }
    }

    /// Records this group's draw calls for one pass: exactly one indexed,
    /// instanced call covering the full index range and the full instance
    /// range — no partial draws, no culling, in either pass.
    pub fn render(&self, pass: PassKind) -> (r: Vec<DrawCall>)
        requires
            self.wf(),
        ensures
            r@ == geo_draws(*self, pass),
    {
        let pipeline = match pass {
            PassKind::Color => PipelineKind::Geo,
            PassKind::Shadow => PipelineKind::Shadow,
        };
        let call = DrawCall {
            pipeline,
            elements: self.entity.obj.get_index_range(),
            instances: self.instances.get_instance_range(),
            material: None,
        };
        let mut calls: Vec<DrawCall> = Vec::new();
        calls.push(call);
        proof {
            assert(calls@ =~= geo_draws(*self, pass));
        }
        calls
    }
}

} // verus!
