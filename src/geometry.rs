//! Exact geometry of the extracted surface.
//!
//! Corners of a cell are lattice points with integer coordinates, and every
//! vertex that marching cubes places lies on a cell edge at a rational
//! fraction of it, so vertices are kept exactly as rational points with a
//! common positive denominator. Face normals are integer vectors with the
//! direction of the true cross product; scaling them to unit length is left to
//! the renderer.
use vstd::prelude::*;

verus! {

/// A lattice point in field-local coordinates.
#[derive(Clone, Copy, Debug, PartialEq, Eq, Structural)]
pub struct LatticePoint {
    pub x: u32,
    pub y: u32,
    pub z: u32,
}

/// The rational point `(x / den, y / den, z / den)`.
#[derive(Clone, Copy, Debug, PartialEq, Eq, Structural)]
pub struct Vertex {
    pub x: i64,
    pub y: i64,
    pub z: i64,
    pub den: i64,
}

/// Three vertices of one triangle, in the winding order of the table.
#[derive(Clone, Copy, Debug, PartialEq, Eq, Structural)]
pub struct Triangle {
    pub a: Vertex,
    pub b: Vertex,
    pub c: Vertex,
}

/// An integer vector perpendicular to a triangle.
#[derive(Clone, Copy, Debug, PartialEq, Eq, Structural)]
pub struct Normal {
    pub x: i128,
    pub y: i128,
    pub z: i128,
}

/// Largest absolute coordinate numerator of a vertex placed on a cell edge.
pub const MAX_NUMERATOR: i64 = 0x200_0000_0000;

impl Vertex {
    /// The vertex standing exactly on lattice point `p`.
    pub open spec fn at(p: LatticePoint) -> Vertex {
        Vertex { x: p.x as i64, y: p.y as i64, z: p.z as i64, den: 1 }
    }

    /// Denominator in `1..=255` and numerators within `MAX_NUMERATOR`: what
    /// every vertex on a cell edge satisfies.
    pub open spec fn bounded(self) -> bool {
        &&& 0 < self.den <= 255
        &&& -MAX_NUMERATOR <= self.x <= MAX_NUMERATOR
        &&& -MAX_NUMERATOR <= self.y <= MAX_NUMERATOR
        &&& -MAX_NUMERATOR <= self.z <= MAX_NUMERATOR
    }

    /// The vertex standing exactly on lattice point `p`.
    pub fn from_lattice(p: LatticePoint) -> (v: Vertex)
        ensures
            v == Vertex::at(p),
    {
        Vertex { x: p.x as i64, y: p.y as i64, z: p.z as i64, den: 1 }
    }

    /// The origin, `(0, 0, 0)`.
    pub fn default() -> (v: Vertex)
        ensures
            v == (Vertex { x: 0, y: 0, z: 0, den: 1 }),
    {
        Vertex { x: 0, y: 0, z: 0, den: 1 }
    }
}

impl Triangle {
    /// The triangle with all three vertices at the origin.
    pub fn default() -> (t: Triangle)
        ensures
            t.a == (Vertex { x: 0, y: 0, z: 0, den: 1 }),
            t.b == t.a,
            t.c == t.a,
    {
        Triangle { a: Vertex::default(), b: Vertex::default(), c: Vertex::default() }
    }

    /// All three vertices are bounded.
    pub open spec fn bounded(self) -> bool {
        self.a.bounded() && self.b.bounded() && self.c.bounded()
    }
}

/// The point `a + t * (b - a)` with `t = (isolevel - val_a) / (val_b - val_a)`,
/// written over the denominator `|val_b - val_a|`; `val_a != val_b`.
pub open spec fn lerp_vertex(a: LatticePoint, b: LatticePoint, val_a: u8, val_b: u8, isolevel: u8) -> Vertex {
    let span = val_b - val_a;
    let den = if span > 0 { span } else { -span };
    let step = if span > 0 { isolevel - val_a } else { val_a - isolevel };
    Vertex {
        x: (a.x * den + step * (b.x - a.x)) as i64,
        y: (a.y * den + step * (b.y - a.y)) as i64,
        z: (a.z * den + step * (b.z - a.z)) as i64,
        den: den as i64,
    }
}

/// Where the surface at `isolevel` crosses the edge from `a` (density
/// `val_a`) to `b` (density `val_b`): `a` when `val_a` is on the level, else
/// `b` when `val_b` is, else `a` when the edge is flat, else the linear
/// interpolation between them.
pub open spec fn edge_point(a: LatticePoint, b: LatticePoint, val_a: u8, val_b: u8, isolevel: u8) -> Vertex {
    if val_a == isolevel {
        Vertex::at(a)
    } else if val_b == isolevel {
        Vertex::at(b)
    } else if val_a == val_b {
        Vertex::at(a)
    } else {
        lerp_vertex(a, b, val_a, val_b, isolevel)
    }
}

/// `v` lies on the line through `a` and `b` at parameter
/// `t = (isolevel - val_a) / (val_b - val_a)`, stated without division.
pub open spec fn at_parameter(v: Vertex, a: LatticePoint, b: LatticePoint, val_a: u8, val_b: u8, isolevel: u8) -> bool {
    let span = val_b - val_a;
    &&& v.x * span == v.den * (a.x * span + (isolevel - val_a) * (b.x - a.x))
    &&& v.y * span == v.den * (a.y * span + (isolevel - val_a) * (b.y - a.y))
    &&& v.z * span == v.den * (a.z * span + (isolevel - val_a) * (b.z - a.z))
}

proof fn lemma_lerp_axis(a: int, b: int, val_a: int, val_b: int, isolevel: int, den: int, step: int, v: int)
    requires
        den == (if val_b - val_a > 0 { val_b - val_a } else { val_a - val_b }),
        step == (if val_b - val_a > 0 { isolevel - val_a } else { val_a - isolevel }),
        v == a * den + step * (b - a),
    ensures
        v * (val_b - val_a) == den * (a * (val_b - val_a) + (isolevel - val_a) * (b - a)),
{
    assert(step * (val_b - val_a) == den * (isolevel - val_a)) by (nonlinear_arith)
        requires
            den == (if val_b - val_a > 0 { val_b - val_a } else { val_a - val_b }),
            step == (if val_b - val_a > 0 { isolevel - val_a } else { val_a - isolevel }),
    ;
    assert(v * (val_b - val_a) == den * (a * (val_b - val_a) + (isolevel - val_a) * (b - a)))
        by (nonlinear_arith)
        requires
            step * (val_b - val_a) == den * (isolevel - val_a),
            v == a * den + step * (b - a),
    ;
}

/// One coordinate numerator of a point on an edge: `a * den + step * (b - a)`.
fn lerp_axis(a: u32, b: u32, den: i64, step: i64) -> (v: i64)
    requires
        0 < den <= 255,
        -255 <= step <= 255,
    ensures
        v == a * den + step * (b - a),
        -MAX_NUMERATOR <= v <= MAX_NUMERATOR,
{
    let base = a as i64;
    let delta = b as i64 - a as i64;
    proof {
        assert(0 <= base * den <= 0xffff_ffff * 255) by (nonlinear_arith)
            requires
                0 <= base <= 0xffff_ffff,
                0 < den <= 255,
        ;
        assert(-0xffff_ffff * 255 <= step * delta <= 0xffff_ffff * 255) by (nonlinear_arith)
            requires
                -0xffff_ffff <= delta <= 0xffff_ffff,
                -255 <= step <= 255,
        ;
    }
    base * den + step * delta
}

/// The point where the surface at `isolevel` crosses the edge from `pos_a`
/// (density `val_a`) to `pos_b` (density `val_b`).
pub fn interpolate(pos_a: LatticePoint, pos_b: LatticePoint, val_a: u8, val_b: u8, isolevel: u8) -> (v: Vertex)
    ensures
        v == edge_point(pos_a, pos_b, val_a, val_b, isolevel),
        v.bounded(),
        val_a == isolevel ==> v == Vertex::at(pos_a),
        val_a != isolevel && val_b == isolevel ==> v == Vertex::at(pos_b),
        val_a != isolevel && val_b != isolevel && val_a == val_b ==> v == Vertex::at(pos_a),
        val_a != isolevel && val_b != isolevel && val_a != val_b ==> at_parameter(
            v,
            pos_a,
            pos_b,
            val_a,
            val_b,
            isolevel,
        ),
{
    if val_a == isolevel {
        return Vertex::from_lattice(pos_a);
    }
    if val_b == isolevel {
        return Vertex::from_lattice(pos_b);
    }
    if val_a == val_b {
        return Vertex::from_lattice(pos_a);
    }
    let span = val_b as i64 - val_a as i64;
    let den: i64 = if span > 0 { span } else { -span };
    let step: i64 = if span > 0 { isolevel as i64 - val_a as i64 } else { val_a as i64 - isolevel as i64 };
    let v = Vertex {
        x: lerp_axis(pos_a.x, pos_b.x, den, step),
        y: lerp_axis(pos_a.y, pos_b.y, den, step),
        z: lerp_axis(pos_a.z, pos_b.z, den, step),
        den,
    };
    proof {
        lemma_lerp_axis(pos_a.x as int, pos_b.x as int, val_a as int, val_b as int, isolevel as int, den as int, step as int, v.x as int);
        lemma_lerp_axis(pos_a.y as int, pos_b.y as int, val_a as int, val_b as int, isolevel as int, den as int, step as int, v.y as int);
        lemma_lerp_axis(pos_a.z as int, pos_b.z as int, val_a as int, val_b as int, isolevel as int, den as int, step as int, v.z as int);
    }
    v
}

/// The edge from `p` to `q` scaled by `p.den * q.den`, which makes it an
/// integer vector with the same direction.
pub open spec fn scaled_edge(p: Vertex, q: Vertex) -> (int, int, int) {
    (q.x * p.den - p.x * q.den, q.y * p.den - p.y * q.den, q.z * p.den - p.z * q.den)
}

/// The cross product `u × v`.
pub open spec fn cross(u: (int, int, int), v: (int, int, int)) -> (int, int, int) {
    (u.1 * v.2 - u.2 * v.1, u.2 * v.0 - u.0 * v.2, u.0 * v.1 - u.1 * v.0)
}

/// The flat normal of triangle `t`: `cross(b - a, c - a)` scaled by the
/// positive factor `a.den² * b.den * c.den`. It is zero for a triangle of no
/// area, whose unit normal is undefined.
pub open spec fn face_normal_of(t: Triangle) -> Normal {
    let n = cross(scaled_edge(t.a, t.b), scaled_edge(t.a, t.c));
    Normal { x: n.0 as i128, y: n.1 as i128, z: n.2 as i128 }
}

/// Largest absolute component of a scaled edge between bounded vertices.
const MAX_EDGE: i128 = 0x4_0000_0000_0000;

proof fn lemma_scaled_component(px: int, pd: int, qx: int, qd: int)
    requires
        0 < pd <= 255,
        0 < qd <= 255,
        -MAX_NUMERATOR <= px <= MAX_NUMERATOR,
        -MAX_NUMERATOR <= qx <= MAX_NUMERATOR,
    ensures
        -MAX_NUMERATOR * 255 <= qx * pd <= MAX_NUMERATOR * 255,
        -MAX_NUMERATOR * 255 <= px * qd <= MAX_NUMERATOR * 255,
        -MAX_EDGE <= qx * pd - px * qd <= MAX_EDGE,
{
    assert(-MAX_NUMERATOR * 255 <= qx * pd <= MAX_NUMERATOR * 255) by (nonlinear_arith)
        requires
            0 < pd <= 255,
            -MAX_NUMERATOR <= qx <= MAX_NUMERATOR,
    ;
    assert(-MAX_NUMERATOR * 255 <= px * qd <= MAX_NUMERATOR * 255) by (nonlinear_arith)
        requires
            0 < qd <= 255,
            -MAX_NUMERATOR <= px <= MAX_NUMERATOR,
    ;
}

proof fn lemma_product_bound(u: int, v: int)
    requires
        -MAX_EDGE <= u <= MAX_EDGE,
        -MAX_EDGE <= v <= MAX_EDGE,
    ensures
        -MAX_EDGE * MAX_EDGE <= u * v <= MAX_EDGE * MAX_EDGE,
{
    assert(-MAX_EDGE * MAX_EDGE <= u * v <= MAX_EDGE * MAX_EDGE) by (nonlinear_arith)
        requires
            -MAX_EDGE <= u <= MAX_EDGE,
            -MAX_EDGE <= v <= MAX_EDGE,
    ;
}

/// The scaled edge from `p` to `q`, as computed.
fn scaled_edge_exec(p: Vertex, q: Vertex) -> (e: (i128, i128, i128))
    requires
        p.bounded(),
        q.bounded(),
    ensures
        e.0 == scaled_edge(p, q).0,
        e.1 == scaled_edge(p, q).1,
        e.2 == scaled_edge(p, q).2,
        -MAX_EDGE <= e.0 <= MAX_EDGE,
        -MAX_EDGE <= e.1 <= MAX_EDGE,
        -MAX_EDGE <= e.2 <= MAX_EDGE,
{
    proof {
        lemma_scaled_component(p.x as int, p.den as int, q.x as int, q.den as int);
        lemma_scaled_component(p.y as int, p.den as int, q.y as int, q.den as int);
        lemma_scaled_component(p.z as int, p.den as int, q.z as int, q.den as int);
    }
    let pd = p.den as i128;
    let qd = q.den as i128;
    (
        q.x as i128 * pd - p.x as i128 * qd,
        q.y as i128 * pd - p.y as i128 * qd,
        q.z as i128 * pd - p.z as i128 * qd,
    )
}

/// The flat normal of `t`, `face_normal_of(t)`.
pub fn face_normal(t: &Triangle) -> (n: Normal)
    requires
        t.bounded(),
    ensures
        n == face_normal_of(*t),
{
    let u = scaled_edge_exec(t.a, t.b);
    let v = scaled_edge_exec(t.a, t.c);
    proof {
        lemma_product_bound(u.1 as int, v.2 as int);
        lemma_product_bound(u.2 as int, v.1 as int);
        lemma_product_bound(u.2 as int, v.0 as int);
        lemma_product_bound(u.0 as int, v.2 as int);
        lemma_product_bound(u.0 as int, v.1 as int);
        lemma_product_bound(u.1 as int, v.0 as int);
    }
    Normal { x: u.1 * v.2 - u.2 * v.1, y: u.2 * v.0 - u.0 * v.2, z: u.0 * v.1 - u.1 * v.0 }
}

} // verus!
