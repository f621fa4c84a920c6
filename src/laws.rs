//! Properties of the surface extraction as a whole.
use vstd::prelude::*;
use crate::chunk::{sphere_level, ChunkView};
use crate::geometry::{edge_point, LatticePoint, Triangle, Vertex};
use crate::lattice::{cube, index_x, index_y, index_z, lemma_coords_round_trip, linear_index};
use crate::marching::{
    cell_corners, cell_densities, cell_triangles, cell_triangles_of, corner_offset, cube_index,
    edge_vertex, lemma_cube_index_corners, mesh_triangles, triangles_before,
};
use crate::tables::{
    config_has_corner, edge_crosses, lemma_corner_index_bounds, lemma_single_corner_row,
    lemma_table_sound, row_sound, slot_sound, table_row, triangle_count, CORNER_INDEX,
};

verus! {

/// A cell whose corners are all at or below the isolevel, or all above it,
/// emits no triangle.
pub proof fn lemma_uniform_cell_emits_nothing(d: Seq<u8>, p: Seq<LatticePoint>, isolevel: u8)
    requires
        d.len() == 8,
        (forall|k: int| 0 <= k < 8 ==> #[trigger] d[k] <= isolevel) || (forall|k: int|
            0 <= k < 8 ==> #[trigger] d[k] > isolevel),
    ensures
        cell_triangles_of(d, p, isolevel).len() == 0,
{
    lemma_table_sound();
    let ci = cube_index(d, isolevel);
    assert(d[0] == d[0] && d[1] == d[1] && d[2] == d[2] && d[3] == d[3]);
    assert(d[4] == d[4] && d[5] == d[5] && d[6] == d[6] && d[7] == d[7]);
    assert(ci == 0 || ci == 255);
    assert(row_sound(ci, table_row(ci)));
}

/// A cell with only corner 0 above the isolevel has configuration 1 and
/// emits exactly one triangle, whose three edges (0, 8 and 3) all end at
/// corner 0.
pub proof fn lemma_single_corner_cell(d: Seq<u8>, p: Seq<LatticePoint>, isolevel: u8)
    requires
        d.len() == 8,
        d[0] > isolevel,
        forall|k: int| 1 <= k < 8 ==> #[trigger] d[k] <= isolevel,
    ensures
        cube_index(d, isolevel) == 1,
        cell_triangles_of(d, p, isolevel).len() == 1,
        cell_triangles_of(d, p, isolevel)[0] == (Triangle {
            a: edge_vertex(d, p, isolevel, 0),
            b: edge_vertex(d, p, isolevel, 8),
            c: edge_vertex(d, p, isolevel, 3),
        }),
        CORNER_INDEX[0][0] == 0 || CORNER_INDEX[0][1] == 0,
        CORNER_INDEX[8][0] == 0 || CORNER_INDEX[8][1] == 0,
        CORNER_INDEX[3][0] == 0 || CORNER_INDEX[3][1] == 0,
{
    assert(d[1] == d[1] && d[2] == d[2] && d[3] == d[3]);
    assert(d[4] == d[4] && d[5] == d[5] && d[6] == d[6] && d[7] == d[7]);
    assert(cube_index(d, isolevel) == 1);
    lemma_single_corner_row();
}

/// The rational point `v` lies in the lattice box `[0, n]³`.
pub open spec fn within_lattice(v: Vertex, n: int) -> bool {
    &&& v.den > 0
    &&& 0 <= v.x <= n * v.den
    &&& 0 <= v.y <= n * v.den
    &&& 0 <= v.z <= n * v.den
}

/// All three vertices of `t` lie in the lattice box `[0, n]³`.
pub open spec fn triangle_within_lattice(t: Triangle, n: int) -> bool {
    within_lattice(t.a, n) && within_lattice(t.b, n) && within_lattice(t.c, n)
}

proof fn lemma_lerp_axis_within(a: int, b: int, den: int, step: int, n: int)
    requires
        0 <= a <= n,
        0 <= b <= n,
        0 <= step <= den,
    ensures
        0 <= a * den + step * (b - a) <= n * den,
{
    assert(0 <= a * den + step * (b - a) <= n * den) by (nonlinear_arith)
        requires
            0 <= a <= n,
            0 <= b <= n,
            0 <= step <= den,
    ;
}

/// Where one end of an edge is inside and the other is not, the point placed
/// on it lies between its ends.
proof fn lemma_edge_point_within(a: LatticePoint, b: LatticePoint, val_a: u8, val_b: u8, isolevel: u8, n: int)
    requires
        n <= u32::MAX,
        a.x <= n && a.y <= n && a.z <= n,
        b.x <= n && b.y <= n && b.z <= n,
        (val_a > isolevel) != (val_b > isolevel),
    ensures
        within_lattice(edge_point(a, b, val_a, val_b, isolevel), n),
{
    if val_a != isolevel && val_b != isolevel && val_a != val_b {
        let span = val_b - val_a;
        let den = if span > 0 { span } else { -span };
        let step = if span > 0 { isolevel - val_a } else { val_a - isolevel };
        lemma_lerp_axis_within(a.x as int, b.x as int, den, step, n);
        lemma_lerp_axis_within(a.y as int, b.y as int, den, step, n);
        lemma_lerp_axis_within(a.z as int, b.z as int, den, step, n);
        assert(n * den <= 0xffff_ffff * 255) by (nonlinear_arith)
            requires
                0 <= n <= 0xffff_ffff,
                0 < den <= 255,
        ;
        let v = edge_point(a, b, val_a, val_b, isolevel);
        assert(v.den == den);
        assert(v.x == a.x * den + step * (b.x - a.x));
        assert(v.y == a.y * den + step * (b.y - a.y));
        assert(v.z == a.z * den + step * (b.z - a.z));
    }
}

/// A listed slot of a cell's row names an edge from a corner above the
/// isolevel to one that is not.
#[verifier::rlimit(40)]
proof fn lemma_slot_crosses(d: Seq<u8>, isolevel: u8, j: int)
    requires
        0 <= j < 3 * triangle_count(table_row(cube_index(d, isolevel))),
    ensures
        ({
            let e = table_row(cube_index(d, isolevel))[j] as int;
            &&& 0 <= e < 12
            &&& 0 <= CORNER_INDEX[e][0] < 8
            &&& 0 <= CORNER_INDEX[e][1] < 8
            &&& (d[CORNER_INDEX[e][0] as int] > isolevel) != (d[CORNER_INDEX[e][1] as int] > isolevel)
        }),
{
    let config = cube_index(d, isolevel);
    let row = table_row(config);
    let count = triangle_count(row);
    lemma_table_sound();
    lemma_cube_index_corners(d, isolevel);
    lemma_corner_index_bounds();
    assert(row_sound(config, row));
    if j == 0 {} else if j == 1 {} else if j == 2 {} else if j == 3 {} else if j == 4 {}
    else if j == 5 {} else if j == 6 {} else if j == 7 {} else if j == 8 {} else if j == 9 {}
    else if j == 10 {} else if j == 11 {} else if j == 12 {} else if j == 13 {} else {}
    assert(slot_sound(config, row, count, j));
    let e = row[j] as int;
    let ka = CORNER_INDEX[e][0] as int;
    let kb = CORNER_INDEX[e][1] as int;
    assert(edge_crosses(config, e));
    assert(config_has_corner(config, ka) == (d[ka] > isolevel));
    assert(config_has_corner(config, kb) == (d[kb] > isolevel));
}

/// The vertex on a listed slot of a cell's row lies in the lattice box.
proof fn lemma_slot_within(d: Seq<u8>, p: Seq<LatticePoint>, isolevel: u8, j: int, n: int)
    requires
        d.len() == 8,
        p.len() == 8,
        0 <= n <= u32::MAX,
        forall|k: int| 0 <= k < 8 ==> #[trigger] p[k].x <= n && p[k].y <= n && p[k].z <= n,
        0 <= j < 3 * triangle_count(table_row(cube_index(d, isolevel))),
    ensures
        within_lattice(edge_vertex(d, p, isolevel, table_row(cube_index(d, isolevel))[j] as int), n),
{
    lemma_slot_crosses(d, isolevel, j);
    let e = table_row(cube_index(d, isolevel))[j] as int;
    let ka = CORNER_INDEX[e][0] as int;
    let kb = CORNER_INDEX[e][1] as int;
    let pa = p[ka];
    let pb = p[kb];
    assert(pa.x <= n && pa.y <= n && pa.z <= n);
    assert(pb.x <= n && pb.y <= n && pb.z <= n);
    lemma_edge_point_within(pa, pb, d[ka], d[kb], isolevel, n);
}

/// Every vertex emitted for a cell whose corners lie in the lattice box lies
/// in the box too.
proof fn lemma_cell_triangles_within(d: Seq<u8>, p: Seq<LatticePoint>, isolevel: u8, n: int)
    requires
        d.len() == 8,
        p.len() == 8,
        0 <= n <= u32::MAX,
        forall|k: int| 0 <= k < 8 ==> #[trigger] p[k].x <= n && p[k].y <= n && p[k].z <= n,
    ensures
        forall|i: int|
            0 <= i < cell_triangles_of(d, p, isolevel).len() ==> triangle_within_lattice(
                #[trigger] cell_triangles_of(d, p, isolevel)[i],
                n,
            ),
{
    assert forall|i: int| 0 <= i < cell_triangles_of(d, p, isolevel).len() implies triangle_within_lattice(
        #[trigger] cell_triangles_of(d, p, isolevel)[i],
        n,
    ) by {
        lemma_slot_within(d, p, isolevel, 3 * i, n);
        lemma_slot_within(d, p, isolevel, 3 * i + 1, n);
        lemma_slot_within(d, p, isolevel, 3 * i + 2, n);
    }
}

/// Every vertex emitted for cell `c` of a well-formed field lies in the
/// field's lattice box.
proof fn lemma_cell_within(field: ChunkView, c: int)
    requires
        field.wf(),
        0 <= c < cube(field.resolution as int),
    ensures
        forall|i: int|
            0 <= i < cell_triangles(field, c).len() ==> triangle_within_lattice(
                #[trigger] cell_triangles(field, c)[i],
                field.resolution as int,
            ),
{
    let n = field.resolution as int;
    crate::lattice::lemma_index_round_trip(n, c);
    let x = index_x(n, c);
    let y = index_y(n, c);
    let z = index_z(n, c);
    let p = cell_corners(x, y, z);
    assert forall|k: int| 0 <= k < 8 implies #[trigger] p[k].x <= n && p[k].y <= n && p[k].z <= n by {
        assert(0 <= corner_offset(k).0 <= 1 && 0 <= corner_offset(k).1 <= 1 && 0 <= corner_offset(k).2 <= 1);
    }
    lemma_cell_triangles_within(cell_densities(field, x, y, z), p, field.isolevel, n);
}

proof fn lemma_triangles_before_within(field: ChunkView, c: nat)
    requires
        field.wf(),
        c <= cube(field.resolution as int),
    ensures
        forall|i: int|
            0 <= i < triangles_before(field, c).len() ==> triangle_within_lattice(
                #[trigger] triangles_before(field, c)[i],
                field.resolution as int,
            ),
    decreases c,
{
    if c > 0 {
        lemma_triangles_before_within(field, (c - 1) as nat);
        lemma_cell_within(field, c - 1);
        let before = triangles_before(field, (c - 1) as nat);
        let cell = cell_triangles(field, c - 1);
        assert forall|i: int| 0 <= i < triangles_before(field, c).len() implies triangle_within_lattice(
            #[trigger] triangles_before(field, c)[i],
            field.resolution as int,
        ) by {
            if i < before.len() {
                assert(triangles_before(field, c)[i] == before[i]);
            } else {
                assert(triangles_before(field, c)[i] == cell[i - before.len()]);
            }
        }
    }
}

/// Every vertex of the surface of a well-formed field lies in the field's
/// lattice box `[0, resolution]³`.
pub proof fn lemma_mesh_within_lattice(field: ChunkView)
    requires
        field.wf(),
    ensures
        forall|i: int|
            0 <= i < mesh_triangles(field).len() ==> triangle_within_lattice(
                #[trigger] mesh_triangles(field)[i],
                field.resolution as int,
            ),
{
    lemma_triangles_before_within(field, cube(field.resolution as int) as nat);
}

proof fn lemma_triangles_before_grows(field: ChunkView, c1: nat, c2: nat)
    requires
        c1 <= c2,
    ensures
        triangles_before(field, c1).len() <= triangles_before(field, c2).len(),
    decreases c2,
{
    if c1 < c2 {
        lemma_triangles_before_grows(field, c1, (c2 - 1) as nat);
    }
}

/// A field filled with the reference sphere, of resolution at least 8 and
/// isolevel below 255, has a non-empty surface, and every vertex of it lies
/// in the field's lattice box.
pub proof fn lemma_sphere_surface(field: ChunkView)
    requires
        field.wf(),
        field.resolution >= 8,
        field.isolevel < 255,
        forall|i: int|
            0 <= i < field.samples.len() ==> #[trigger] field.samples[i] == sphere_level(
                field.resolution,
                index_x(field.side(), i),
                index_y(field.side(), i),
                index_z(field.side(), i),
            ),
    ensures
        mesh_triangles(field).len() > 0,
        forall|i: int|
            0 <= i < mesh_triangles(field).len() ==> triangle_within_lattice(
                #[trigger] mesh_triangles(field)[i],
                field.resolution as int,
            ),
{
    lemma_mesh_within_lattice(field);
    let n = field.resolution as int;
    let r = n / 4;
    let s = n + 1;
    // The cell whose corner 0 is (2r, r, r): inside the sphere, on its surface;
    // its corner 1, (2r + 1, r, r), is outside.
    let c = linear_index(n, 2 * r, r, r);
    lemma_coords_round_trip(n, 2 * r, r, r);
    lemma_coords_round_trip(s, 2 * r, r, r);
    lemma_coords_round_trip(s, 2 * r + 1, r, r);
    let i0 = linear_index(s, 2 * r, r, r);
    let i1 = linear_index(s, 2 * r + 1, r, r);
    assert(field.samples[i0] == 255);
    assert(((2 * r + 1) - r) * ((2 * r + 1) - r) > r * r) by (nonlinear_arith)
        requires
            r >= 0,
    ;
    assert(field.samples[i1] == 0);
    let d = cell_densities(field, 2 * r, r, r);
    let p = cell_corners(2 * r, r, r);
    assert(d[0] == 255);
    assert(d[1] == 0);
    let config = cube_index(d, field.isolevel);
    assert(config != 0 && config != 255);
    lemma_table_sound();
    assert(row_sound(config, table_row(config)));
    assert(cell_triangles(field, c) == cell_triangles_of(d, p, field.isolevel));
    assert(cell_triangles(field, c).len() > 0);
    assert(triangles_before(field, (c + 1) as nat).len() > 0);
    lemma_triangles_before_grows(field, (c + 1) as nat, cube(n) as nat);
}

proof fn lemma_lerp_axis_symmetric(a: int, b: int, va: int, vb: int, isolevel: int)
    requires
        va != vb,
    ensures
        ({
            let den = if vb - va > 0 { vb - va } else { va - vb };
            let step = if vb - va > 0 { isolevel - va } else { va - isolevel };
            let step_back = if va - vb > 0 { isolevel - vb } else { vb - isolevel };
            a * den + step * (b - a) == b * den + step_back * (a - b)
        }),
{
    let den = if vb - va > 0 { vb - va } else { va - vb };
    let step = if vb - va > 0 { isolevel - va } else { va - isolevel };
    let step_back = if va - vb > 0 { isolevel - vb } else { vb - isolevel };
    assert(step + step_back == den);
    assert(a * den + step * (b - a) == b * den + step_back * (a - b)) by (nonlinear_arith)
        requires
            step + step_back == den,
    ;
}

/// An edge whose ends have different densities gives the same vertex, in the
/// same representation, whichever end it is walked from; so cells that share
/// an edge place their vertices at the same point.
pub proof fn lemma_edge_point_symmetric(a: LatticePoint, b: LatticePoint, val_a: u8, val_b: u8, isolevel: u8)
    requires
        val_a != val_b,
    ensures
        edge_point(a, b, val_a, val_b, isolevel) == edge_point(b, a, val_b, val_a, isolevel),
{
    if val_a != isolevel && val_b != isolevel {
        lemma_lerp_axis_symmetric(a.x as int, b.x as int, val_a as int, val_b as int, isolevel as int);
        lemma_lerp_axis_symmetric(a.y as int, b.y as int, val_a as int, val_b as int, isolevel as int);
        lemma_lerp_axis_symmetric(a.z as int, b.z as int, val_a as int, val_b as int, isolevel as int);
    }
}

} // verus!
