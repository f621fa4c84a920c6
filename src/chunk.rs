//! The density field of one chunk: a dense cube of `(n + 1)³` samples for a
//! grid of `n³` cells, read by direct indexing, and the generators that fill
//! it.
use vstd::prelude::*;
use crate::geometry::LatticePoint;
use crate::lattice::{
    cube, decode_index, encode_index, index_x, index_y, index_z, lemma_coords_round_trip,
    lemma_index_round_trip, linear_index,
};

verus! {

/// World position of a chunk's lattice point `(0, 0, 0)`.
#[derive(Clone, Copy, Debug, PartialEq, Eq, Structural)]
pub struct Origin {
    pub x: i64,
    pub y: i64,
    pub z: i64,
}

/// One lattice point of a field with its density.
#[derive(Clone, Copy, Debug, PartialEq, Eq, Structural)]
pub struct Point {
    pub level: u8,
    pub pos: LatticePoint,
}

impl Point {
    /// Density 0 at lattice point `(0, 0, 0)`.
    pub fn default() -> (p: Point)
        ensures
            p == (Point { level: 0, pos: LatticePoint { x: 0, y: 0, z: 0 } }),
    {
        Point { level: 0, pos: LatticePoint { x: 0, y: 0, z: 0 } }
    }
}

/// The density field of one chunk. Sample `(x, y, z)`, for coordinates in
/// `0..=resolution`, sits at `x + y * (n + 1) + z * (n + 1)²` with
/// `n = resolution`.
pub struct Chunk {
    origin: Origin,
    resolution: u32,
    isolevel: u8,
    samples: Vec<u8>,
}

/// What a `Chunk` holds.
pub struct ChunkView {
    pub origin: Origin,
    pub resolution: nat,
    pub isolevel: u8,
    pub samples: Seq<u8>,
}

impl View for Chunk {
    type V = ChunkView;

    closed spec fn view(&self) -> ChunkView {
        ChunkView {
            origin: self.origin,
            resolution: self.resolution as nat,
            isolevel: self.isolevel,
            samples: self.samples@,
        }
    }
}

impl ChunkView {
    /// Lattice points per axis.
    pub open spec fn side(self) -> int {
        self.resolution as int + 1
    }

    /// One sample per lattice point, and a lattice small enough to index.
    pub open spec fn wf(self) -> bool {
        &&& self.resolution <= u32::MAX
        &&& self.samples.len() == cube(self.side())
        &&& cube(self.side()) <= usize::MAX
    }

    /// Density at lattice point `(x, y, z)`.
    pub open spec fn sample(self, x: int, y: int, z: int) -> u8 {
        self.samples[linear_index(self.side(), x, y, z)]
    }
}

/// `(x, y, z)` is a lattice point of a field of resolution `resolution`.
pub open spec fn in_lattice(resolution: nat, x: int, y: int, z: int) -> bool {
    0 <= x <= resolution && 0 <= y <= resolution && 0 <= z <= resolution
}

/// Number of samples of a field of resolution `resolution`, as computed.
fn sample_count(resolution: u32) -> (count: usize)
    requires
        cube(resolution + 1) <= usize::MAX,
    ensures
        count == cube(resolution + 1),
        resolution + 1 <= usize::MAX,
{
    proof {
        let s = resolution + 1;
        assert(s <= s * s <= cube(s)) by (nonlinear_arith)
            requires
                s >= 1,
        ;
    }
    let side = resolution as usize + 1;
    side * side * side
}

/// Fills a field of resolution `resolution` by asking `source` for the
/// density of every lattice point, in the order of their linear index.
pub fn generate_density_field<F: Fn(u32, u32, u32) -> u8>(resolution: u32, isolevel: u8, source: F) -> (field: Chunk)
    requires
        cube(resolution + 1) <= usize::MAX,
        forall|x: u32, y: u32, z: u32|
            in_lattice(resolution as nat, x as int, y as int, z as int) ==> #[trigger] source.requires(
                (x, y, z),
            ),
    ensures
        field@.wf(),
        field@.resolution == resolution,
        field@.isolevel == isolevel,
        field@.origin == (Origin { x: 0, y: 0, z: 0 }),
        forall|i: int|
            0 <= i < field@.samples.len() ==> source.ensures(
                (
                    index_x(resolution + 1, i) as u32,
                    index_y(resolution + 1, i) as u32,
                    index_z(resolution + 1, i) as u32,
                ),
                #[trigger] field@.samples[i],
            ),
{
    let count = sample_count(resolution);
    let side = resolution as usize + 1;
    let ghost s = side as int;
    let mut samples: Vec<u8> = Vec::new();
    let mut i: usize = 0;
    while i < count
        invariant
            count == cube(s),
            s == resolution + 1,
            side == s,
            i <= count,
            samples@.len() == i,
            forall|x: u32, y: u32, z: u32|
                in_lattice(resolution as nat, x as int, y as int, z as int) ==> #[trigger] source.requires(
                    (x, y, z),
                ),
            forall|j: int|
                0 <= j < i ==> source.ensures(
                    (index_x(s, j) as u32, index_y(s, j) as u32, index_z(s, j) as u32),
                    #[trigger] samples@[j],
                ),
        decreases count - i,
    {
        proof {
            lemma_index_round_trip(s, i as int);
        }
        let (x, y, z) = decode_index(side, i);
        let level = source(x as u32, y as u32, z as u32);
        samples.push(level);
        i = i + 1;
    }
    Chunk { origin: Origin { x: 0, y: 0, z: 0 }, resolution, isolevel, samples }
}

/// The lattice point `(x, y, z)` lies in the reference sphere of a field of
/// resolution `resolution`: centre `(c, c, c)` and radius `c`, with
/// `c = resolution / 4`.
pub open spec fn sphere_contains(resolution: nat, x: int, y: int, z: int) -> bool {
    let c = (resolution / 4) as int;
    (x - c) * (x - c) + (y - c) * (y - c) + (z - c) * (z - c) <= c * c
}

/// Density of the reference sphere: 255 inside or on it, 0 outside.
pub open spec fn sphere_level(resolution: nat, x: int, y: int, z: int) -> u8 {
    if sphere_contains(resolution, x, y, z) {
        255
    } else {
        0
    }
}

/// `sphere_level` on machine integers.
pub open spec fn sphere_level_at(resolution: u32, x: u32, y: u32, z: u32) -> u8 {
    sphere_level(resolution as nat, x as int, y as int, z as int)
}

/// Density of the reference sphere at lattice point `(x, y, z)`.
pub fn sphere_density(resolution: u32, x: u32, y: u32, z: u32) -> (level: u8)
    ensures
        level == sphere_level(resolution as nat, x as int, y as int, z as int),
{
    let c = (resolution / 4) as i128;
    let dx = x as i128 - c;
    let dy = y as i128 - c;
    let dz = z as i128 - c;
    proof {
        assert(0 <= dx * dx <= 0xffff_ffff * 0xffff_ffff) by (nonlinear_arith)
            requires
                -0xffff_ffff <= dx <= 0xffff_ffff,
        ;
        assert(0 <= dy * dy <= 0xffff_ffff * 0xffff_ffff) by (nonlinear_arith)
            requires
                -0xffff_ffff <= dy <= 0xffff_ffff,
        ;
        assert(0 <= dz * dz <= 0xffff_ffff * 0xffff_ffff) by (nonlinear_arith)
            requires
                -0xffff_ffff <= dz <= 0xffff_ffff,
        ;
        assert(0 <= c * c <= 0xffff_ffff * 0xffff_ffff) by (nonlinear_arith)
            requires
                0 <= c <= 0xffff_ffff,
        ;
    }
    if dx * dx + dy * dy + dz * dz <= c * c {
        255
    } else {
        0
    }
}

/// A field of resolution `resolution` filled with the reference sphere.
pub fn generate_sphere_field(resolution: u32, isolevel: u8) -> (field: Chunk)
    requires
        cube(resolution + 1) <= usize::MAX,
    ensures
        field@.wf(),
        field@.resolution == resolution,
        field@.isolevel == isolevel,
        field@.origin == (Origin { x: 0, y: 0, z: 0 }),
        forall|i: int|
            0 <= i < field@.samples.len() ==> #[trigger] field@.samples[i] == sphere_level(
                resolution as nat,
                index_x(resolution + 1, i),
                index_y(resolution + 1, i),
                index_z(resolution + 1, i),
            ),
{
    let field = generate_density_field(
        resolution,
        isolevel,
        |x: u32, y: u32, z: u32| -> (level: u8)
            ensures
                level == sphere_level_at(resolution, x, y, z),
            { sphere_density(resolution, x, y, z) }
    );
    proof {
        assert forall|i: int| 0 <= i < field@.samples.len() implies #[trigger] field@.samples[i]
            == sphere_level(
            resolution as nat,
            index_x(resolution + 1, i),
            index_y(resolution + 1, i),
            index_z(resolution + 1, i),
        ) by {
            lemma_index_round_trip(resolution + 1, i);
        }
    }
    field
}

impl Chunk {
    /// The field is well formed.
    pub open spec fn wf(&self) -> bool {
        self@.wf()
    }

    /// A field of resolution 8 at the origin, isolevel 64, every sample 0.
    pub fn default() -> (field: Chunk)
        ensures
            field@.wf(),
            field@.resolution == 8,
            field@.isolevel == 64,
            field@.origin == (Origin { x: 0, y: 0, z: 0 }),
            forall|i: int| 0 <= i < field@.samples.len() ==> #[trigger] field@.samples[i] == 0,
    {
        assert(cube(9) == 729);
        generate_density_field(8, 64, |x: u32, y: u32, z: u32| -> (level: u8)
            ensures
                level == 0,
            { 0 })
    }

    /// Cells per axis.
    pub fn resolution(&self) -> (r: u32)
        ensures
            r == self@.resolution,
    {
        self.resolution
    }

    /// The level that separates inside (above it) from outside.
    pub fn isolevel(&self) -> (level: u8)
        ensures
            level == self@.isolevel,
    {
        self.isolevel
    }

    /// World position of lattice point `(0, 0, 0)`.
    pub fn origin(&self) -> (o: Origin)
        ensures
            o == self@.origin,
    {
        self.origin
    }

    /// The samples in order of their linear index.
    pub fn samples(&self) -> (s: &Vec<u8>)
        ensures
            s@ == self@.samples,
    {
        &self.samples
    }

    /// The same field placed at `origin`.
    pub fn with_origin(self, origin: Origin) -> (field: Chunk)
        ensures
            field@ == (ChunkView { origin, ..self@ }),
    {
        Chunk { origin, ..self }
    }

    /// The lattice point `pos` with its density, read by direct indexing.
    pub fn get_point(&self, pos: LatticePoint) -> (point: Point)
        requires
            self@.wf(),
            in_lattice(self@.resolution, pos.x as int, pos.y as int, pos.z as int),
        ensures
            point.pos == pos,
            point.level == self@.sample(pos.x as int, pos.y as int, pos.z as int),
    {
        let ghost s = self@.side();
        proof {
            assert(s <= s * s <= cube(s)) by (nonlinear_arith)
                requires
                    s >= 1,
            ;
            lemma_coords_round_trip(s, pos.x as int, pos.y as int, pos.z as int);
        }
        let side = self.resolution as usize + 1;
        let index = encode_index(side, pos.x as usize, pos.y as usize, pos.z as usize);
        Point { level: self.samples[index], pos }
    }
}

} // verus!
