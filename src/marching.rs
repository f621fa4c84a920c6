//! Marching cubes over a density field: sample each cell's corners, classify
//! them against the isolevel, look the configuration up in the triangulation
//! table, place a vertex on each listed edge, and assemble the triangles into
//! a flat mesh buffer.
//!
//! Cells are visited in the order of their linear index, decoded as for
//! lattice points but with side `n`; each cell's triangles follow the order of
//! its table row. Vertices are never shared between triangles.
use vstd::prelude::*;
use vstd::arithmetic::div_mod::lemma_fundamental_div_mod_converse;
use crate::chunk::{Chunk, ChunkView};
use crate::geometry::{edge_point, face_normal, face_normal_of, interpolate, LatticePoint, Normal, Triangle, Vertex};
use crate::lattice::{cube, decode_index, index_x, index_y, index_z, lemma_index_round_trip};
use crate::tables::{
    config_has_corner, edge_corners, lemma_table_sound, row_sound, table_row, triangle_count,
    triangulation_row, CORNER_INDEX,
};

verus! {

/// Offset of corner `k` of a cell from the cell's own lattice point.
pub open spec fn corner_offset(k: int) -> (int, int, int) {
    if k == 0 {
        (0, 0, 0)
    } else if k == 1 {
        (1, 0, 0)
    } else if k == 2 {
        (1, 1, 0)
    } else if k == 3 {
        (0, 1, 0)
    } else if k == 4 {
        (0, 0, 1)
    } else if k == 5 {
        (1, 0, 1)
    } else if k == 6 {
        (1, 1, 1)
    } else {
        (0, 1, 1)
    }
}

/// Corner `k` of the cell at `(x, y, z)`.
pub open spec fn corner_point(x: int, y: int, z: int, k: int) -> LatticePoint {
    LatticePoint {
        x: (x + corner_offset(k).0) as u32,
        y: (y + corner_offset(k).1) as u32,
        z: (z + corner_offset(k).2) as u32,
    }
}

/// The eight corners of the cell at `(x, y, z)`.
pub open spec fn cell_corners(x: int, y: int, z: int) -> Seq<LatticePoint> {
    Seq::new(8, |k: int| corner_point(x, y, z, k))
}

/// The densities at the eight corners of the cell at `(x, y, z)`.
pub open spec fn cell_densities(field: ChunkView, x: int, y: int, z: int) -> Seq<u8> {
    Seq::new(
        8,
        |k: int| field.sample(x + corner_offset(k).0, y + corner_offset(k).1, z + corner_offset(k).2),
    )
}

/// 1 when density `d` is inside the surface at `isolevel`, else 0.
pub open spec fn inside_bit(d: u8, isolevel: u8) -> int {
    if d > isolevel {
        1
    } else {
        0
    }
}

/// The configuration of eight corner densities: bit `k` set when corner `k`
/// is above the isolevel.
pub open spec fn cube_index(d: Seq<u8>, isolevel: u8) -> int {
    inside_bit(d[0], isolevel) + 2 * inside_bit(d[1], isolevel) + 4 * inside_bit(d[2], isolevel)
        + 8 * inside_bit(d[3], isolevel) + 16 * inside_bit(d[4], isolevel) + 32 * inside_bit(
        d[5],
        isolevel,
    ) + 64 * inside_bit(d[6], isolevel) + 128 * inside_bit(d[7], isolevel)
}

/// The vertex placed on edge `e` of a cell with corner densities `d` and
/// corner points `p`.
pub open spec fn edge_vertex(d: Seq<u8>, p: Seq<LatticePoint>, isolevel: u8, e: int) -> Vertex {
    let a = CORNER_INDEX[e][0] as int;
    let b = CORNER_INDEX[e][1] as int;
    edge_point(p[a], p[b], d[a], d[b], isolevel)
}

/// The triangles of one cell, in the order of its table row.
pub open spec fn cell_triangles_of(d: Seq<u8>, p: Seq<LatticePoint>, isolevel: u8) -> Seq<Triangle> {
    let row = table_row(cube_index(d, isolevel));
    Seq::new(
        triangle_count(row) as nat,
        |g: int|
            Triangle {
                a: edge_vertex(d, p, isolevel, row[3 * g] as int),
                b: edge_vertex(d, p, isolevel, row[3 * g + 1] as int),
                c: edge_vertex(d, p, isolevel, row[3 * g + 2] as int),
            },
    )
}

/// The triangles of cell number `c` of `field`.
pub open spec fn cell_triangles(field: ChunkView, c: int) -> Seq<Triangle> {
    let n = field.resolution as int;
    let x = index_x(n, c);
    let y = index_y(n, c);
    let z = index_z(n, c);
    cell_triangles_of(cell_densities(field, x, y, z), cell_corners(x, y, z), field.isolevel)
}

/// The triangles of the first `c` cells of `field`, in cell order.
pub open spec fn triangles_before(field: ChunkView, c: nat) -> Seq<Triangle>
    decreases c,
{
    if c == 0 {
        Seq::empty()
    } else {
        triangles_before(field, (c - 1) as nat) + cell_triangles(field, c - 1)
    }
}

/// Every triangle of the surface of `field`, in cell order.
pub open spec fn mesh_triangles(field: ChunkView) -> Seq<Triangle> {
    triangles_before(field, cube(field.resolution as int) as nat)
}

/// Vertex `j` (0, 1 or 2) of triangle `t`.
pub open spec fn triangle_vertex(t: Triangle, j: int) -> Vertex {
    if j == 0 {
        t.a
    } else if j == 1 {
        t.b
    } else {
        t.c
    }
}

/// The vertices of `triangles`, three per triangle, in order.
pub open spec fn flat_positions(triangles: Seq<Triangle>) -> Seq<Vertex> {
    Seq::new(3 * triangles.len(), |i: int| triangle_vertex(triangles[i / 3], i % 3))
}

/// The face normal of each triangle, repeated for its three vertices.
pub open spec fn flat_normals(triangles: Seq<Triangle>) -> Seq<Normal> {
    Seq::new(3 * triangles.len(), |i: int| face_normal_of(triangles[i / 3]))
}

/// A renderable triangle list: parallel arrays of positions, normals and
/// texture coordinates, and an index buffer.
pub struct MeshBuffer {
    pub positions: Vec<Vertex>,
    pub indices: Vec<usize>,
    pub normals: Vec<Normal>,
    pub uvs: Vec<(u32, u32)>,
}

impl MeshBuffer {
    /// The buffer lists `triangles` without sharing vertices: positions three
    /// per triangle, indices `0..len`, each face normal three times, and
    /// texture coordinates all `(0, 0)`.
    pub open spec fn lists(&self, triangles: Seq<Triangle>) -> bool {
        &&& self.positions@ == flat_positions(triangles)
        &&& self.normals@ == flat_normals(triangles)
        &&& self.indices@.len() == 3 * triangles.len()
        &&& forall|i: int| 0 <= i < self.indices@.len() ==> #[trigger] self.indices@[i] == i
        &&& self.uvs@.len() == 3 * triangles.len()
        &&& forall|i: int| 0 <= i < self.uvs@.len() ==> #[trigger] self.uvs@[i] == (0u32, 0u32)
    }
}

/// The corner densities and corner points of the cell `cell`.
pub fn sample_cell(field: &Chunk, cell: (u32, u32, u32)) -> (sampled: ([u8; 8], [LatticePoint; 8]))
    requires
        field@.wf(),
        cell.0 < field@.resolution,
        cell.1 < field@.resolution,
        cell.2 < field@.resolution,
    ensures
        sampled.0@ == cell_densities(field@, cell.0 as int, cell.1 as int, cell.2 as int),
        sampled.1@ == cell_corners(cell.0 as int, cell.1 as int, cell.2 as int),
{
    let (x, y, z) = cell;
    let c0 = field.get_point(LatticePoint { x, y, z });
    let c1 = field.get_point(LatticePoint { x: x + 1, y, z });
    let c2 = field.get_point(LatticePoint { x: x + 1, y: y + 1, z });
    let c3 = field.get_point(LatticePoint { x, y: y + 1, z });
    let c4 = field.get_point(LatticePoint { x, y, z: z + 1 });
    let c5 = field.get_point(LatticePoint { x: x + 1, y, z: z + 1 });
    let c6 = field.get_point(LatticePoint { x: x + 1, y: y + 1, z: z + 1 });
    let c7 = field.get_point(LatticePoint { x, y: y + 1, z: z + 1 });
    let densities = [c0.level, c1.level, c2.level, c3.level, c4.level, c5.level, c6.level, c7.level];
    let corners = [c0.pos, c1.pos, c2.pos, c3.pos, c4.pos, c5.pos, c6.pos, c7.pos];
    assert(densities@ =~= cell_densities(field@, x as int, y as int, z as int));
    assert(corners@ =~= cell_corners(x as int, y as int, z as int));
    (densities, corners)
}

proof fn lemma_bit_of_sum(config: int, w: int, low: int, b: int, high: int)
    requires
        w > 0,
        0 <= low < w,
        b == 0 || b == 1,
        config == low + w * b + 2 * w * high,
    ensures
        (config / w) % 2 == b,
{
    assert(config == (b + 2 * high) * w + low) by (nonlinear_arith)
        requires
            config == low + w * b + 2 * w * high,
    ;
    lemma_fundamental_div_mod_converse(config, w, b + 2 * high, low);
    lemma_fundamental_div_mod_converse(b + 2 * high, 2, high, b);
}

/// Bit `k` of the configuration is set exactly when corner `k` is above the
/// isolevel.
pub proof fn lemma_cube_index_corners(d: Seq<u8>, isolevel: u8)
    ensures
        0 <= cube_index(d, isolevel) < 256,
        forall|k: int|
            0 <= k < 8 ==> #[trigger] config_has_corner(cube_index(d, isolevel), k) == (d[k]
                > isolevel),
{
    let b0 = inside_bit(d[0], isolevel);
    let b1 = inside_bit(d[1], isolevel);
    let b2 = inside_bit(d[2], isolevel);
    let b3 = inside_bit(d[3], isolevel);
    let b4 = inside_bit(d[4], isolevel);
    let b5 = inside_bit(d[5], isolevel);
    let b6 = inside_bit(d[6], isolevel);
    let b7 = inside_bit(d[7], isolevel);
    let ci = cube_index(d, isolevel);
    lemma_bit_of_sum(ci, 1, 0, b0, b1 + 2 * b2 + 4 * b3 + 8 * b4 + 16 * b5 + 32 * b6 + 64 * b7);
    lemma_bit_of_sum(ci, 2, b0, b1, b2 + 2 * b3 + 4 * b4 + 8 * b5 + 16 * b6 + 32 * b7);
    lemma_bit_of_sum(ci, 4, b0 + 2 * b1, b2, b3 + 2 * b4 + 4 * b5 + 8 * b6 + 16 * b7);
    lemma_bit_of_sum(ci, 8, b0 + 2 * b1 + 4 * b2, b3, b4 + 2 * b5 + 4 * b6 + 8 * b7);
    lemma_bit_of_sum(ci, 16, b0 + 2 * b1 + 4 * b2 + 8 * b3, b4, b5 + 2 * b6 + 4 * b7);
    lemma_bit_of_sum(ci, 32, b0 + 2 * b1 + 4 * b2 + 8 * b3 + 16 * b4, b5, b6 + 2 * b7);
    lemma_bit_of_sum(ci, 64, b0 + 2 * b1 + 4 * b2 + 8 * b3 + 16 * b4 + 32 * b5, b6, b7);
    lemma_bit_of_sum(ci, 128, b0 + 2 * b1 + 4 * b2 + 8 * b3 + 16 * b4 + 32 * b5 + 64 * b6, b7, 0);
}

/// The configuration of eight corner densities: bit `k` is set when
/// `densities[k] > isolevel`.
pub fn classify(densities: [u8; 8], isolevel: u8) -> (config: u8)
    ensures
        config == cube_index(densities@, isolevel),
        forall|k: int|
            0 <= k < 8 ==> #[trigger] config_has_corner(config as int, k) == (densities@[k]
                > isolevel),
{
    let mut config: u8 = 0;
    if densities[0] > isolevel {
        config = config + 1;
    }
    if densities[1] > isolevel {
        config = config + 2;
    }
    if densities[2] > isolevel {
        config = config + 4;
    }
    if densities[3] > isolevel {
        config = config + 8;
    }
    if densities[4] > isolevel {
        config = config + 16;
    }
    if densities[5] > isolevel {
        config = config + 32;
    }
    if densities[6] > isolevel {
        config = config + 64;
    }
    if densities[7] > isolevel {
        config = config + 128;
    }
    proof {
        lemma_cube_index_corners(densities@, isolevel);
    }
    config
}

/// The vertex on edge `edge` of a cell with corner densities `densities`
/// and corner points `corners`.
fn vertex_on_edge(densities: &[u8; 8], corners: &[LatticePoint; 8], isolevel: u8, edge: usize) -> (v: Vertex)
    requires
        edge < 12,
    ensures
        v == edge_vertex(densities@, corners@, isolevel, edge as int),
        v.bounded(),
{
    let (a, b) = edge_corners(edge);
    interpolate(corners[a], corners[b], densities[a], densities[b], isolevel)
}

/// Appends the triangles of one cell, with corner densities `densities` and
/// corner points `corners`, in the order of its table row.
pub fn polygonise_cell(
    densities: &[u8; 8],
    corners: &[LatticePoint; 8],
    isolevel: u8,
    triangles: &mut Vec<Triangle>,
)
    ensures
        final(triangles)@ == old(triangles)@ + cell_triangles_of(densities@, corners@, isolevel),
        forall|i: int|
            old(triangles)@.len() <= i < final(triangles)@.len() ==> #[trigger] final(triangles)@[i].bounded(),
{
    let config = classify(*densities, isolevel);
    let row = triangulation_row(config);
    let ghost start = triangles@;
    let ghost cell = cell_triangles_of(densities@, corners@, isolevel);
    let ghost count = triangle_count(row);
    proof {
        lemma_table_sound();
        assert(row_sound(config as int, row));
    }
    let mut g: usize = 0;
    while g < 5 && row[3 * g] != -1
        invariant
            row == table_row(config as int),
            config == cube_index(densities@, isolevel),
            cell == cell_triangles_of(densities@, corners@, isolevel),
            count == triangle_count(row),
            row_sound(config as int, row),
            g <= count,
            triangles@ == start + cell.take(g as int),
            forall|i: int| start.len() <= i < triangles@.len() ==> #[trigger] triangles@[i].bounded(),
        decreases 5 - g,
    {
        let a = vertex_on_edge(densities, corners, isolevel, row[3 * g] as usize);
        let b = vertex_on_edge(densities, corners, isolevel, row[3 * g + 1] as usize);
        let c = vertex_on_edge(densities, corners, isolevel, row[3 * g + 2] as usize);
        triangles.push(Triangle { a, b, c });
        proof {
            assert(cell.take(g + 1) =~= cell.take(g as int).push(cell[g as int]));
        }
        g = g + 1;
    }
    assert(cell.take(g as int) =~= cell);
}

/// The buffer that lists `triangles`: their vertices in order, indices
/// `0..len`, each face normal repeated three times, texture coordinates
/// `(0, 0)`.
pub fn assemble_mesh(triangles: &Vec<Triangle>) -> (mesh: MeshBuffer)
    requires
        forall|i: int| 0 <= i < triangles@.len() ==> #[trigger] triangles@[i].bounded(),
    ensures
        mesh.lists(triangles@),
{
    let mut positions: Vec<Vertex> = Vec::new();
    let mut indices: Vec<usize> = Vec::new();
    let mut normals: Vec<Normal> = Vec::new();
    let mut uvs: Vec<(u32, u32)> = Vec::new();
    let mut k: usize = 0;
    while k < triangles.len()
        invariant
            k <= triangles@.len(),
            forall|i: int| 0 <= i < triangles@.len() ==> #[trigger] triangles@[i].bounded(),
            positions@ == flat_positions(triangles@.take(k as int)),
            normals@ == flat_normals(triangles@.take(k as int)),
            indices@.len() == 3 * k,
            forall|i: int| 0 <= i < indices@.len() ==> #[trigger] indices@[i] == i,
            uvs@.len() == 3 * k,
            forall|i: int| 0 <= i < uvs@.len() ==> #[trigger] uvs@[i] == (0u32, 0u32),
        decreases triangles@.len() - k,
    {
        let t = triangles[k];
        let normal = face_normal(&t);
        let ghost done = triangles@.take(k as int);
        let ghost next = triangles@.take(k + 1);
        indices.push(positions.len());
        positions.push(t.a);
        indices.push(positions.len());
        positions.push(t.b);
        indices.push(positions.len());
        positions.push(t.c);
        normals.push(normal);
        normals.push(normal);
        normals.push(normal);
        uvs.push((0, 0));
        uvs.push((0, 0));
        uvs.push((0, 0));
        proof {
            assert(next =~= done.push(t));
            assert(positions@ =~= flat_positions(next));
            assert(normals@ =~= flat_normals(next));
        }
        k = k + 1;
    }
    assert(triangles@.take(k as int) =~= triangles@);
    MeshBuffer { positions, indices, normals, uvs }
}

/// Extracts the surface of `field` at its isolevel as a triangle list.
pub fn build_mesh(field: &Chunk) -> (mesh: MeshBuffer)
    requires
        field@.wf(),
    ensures
        mesh.lists(mesh_triangles(field@)),
        mesh.positions@.len() == mesh.normals@.len(),
        mesh.positions@.len() == mesh.indices@.len(),
        mesh.positions@.len() == mesh.uvs@.len(),
        mesh.positions@.len() % 3 == 0,
{
    let n = field.resolution() as usize;
    let ghost side = n as int;
    proof {
        let s = side + 1;
        assert(0 <= cube(side) <= cube(s)) by (nonlinear_arith)
            requires
                side >= 0,
                s == side + 1,
        ;
        assert(side * side <= cube(side) || side == 0) by (nonlinear_arith)
            requires
                side >= 0,
        ;
    }
    let cells = n * n * n;
    let isolevel = field.isolevel();
    let mut triangles: Vec<Triangle> = Vec::new();
    let mut c: usize = 0;
    while c < cells
        invariant
            field@.wf(),
            n == field@.resolution,
            side == n,
            cells == cube(side),
            isolevel == field@.isolevel,
            c <= cells,
            triangles@ == triangles_before(field@, c as nat),
            forall|i: int| 0 <= i < triangles@.len() ==> #[trigger] triangles@[i].bounded(),
        decreases cells - c,
    {
        proof {
            lemma_index_round_trip(side, c as int);
        }
        let (x, y, z) = decode_index(n, c);
        let (densities, corners) = sample_cell(field, (x as u32, y as u32, z as u32));
        polygonise_cell(&densities, &corners, isolevel, &mut triangles);
        c = c + 1;
    }
    let mesh = assemble_mesh(&triangles);
    mesh
}

} // verus!
