//! Voxel terrain: marching-cubes extraction of a triangle mesh from the
//! density field of one chunk, with exact rational vertices.
use vstd::prelude::*;

pub mod camera;
pub mod chunk;
pub mod geometry;
pub mod lattice;
pub mod laws;
pub mod marching;
pub mod tables;

use chunk::{generate_sphere_field, sphere_level, Chunk, Origin};
use lattice::{cube, index_x, index_y, index_z};
use marching::{build_mesh, mesh_triangles, MeshBuffer};

verus! {

/// The terrain engine: builds the startup chunk, a sphere of resolution 8
/// at isolevel 64, and its surface.
pub struct VoxelEnginePlugin;

impl VoxelEnginePlugin {
    /// Resolution of the startup chunk.
    pub const CHUNK_RESOLUTION: u32 = 8;

    /// Isolevel of the startup chunk.
    pub const CHUNK_ISOLEVEL: u8 = 64;

    /// The startup chunk, filled with the reference sphere, and its surface.
    pub fn build_chunk(&self) -> (built: (Chunk, MeshBuffer))
        ensures
            built.0@.wf(),
            built.0@.resolution == Self::CHUNK_RESOLUTION,
            built.0@.isolevel == Self::CHUNK_ISOLEVEL,
            built.0@.origin == (Origin { x: 0, y: 0, z: 0 }),
            forall|i: int|
                0 <= i < built.0@.samples.len() ==> #[trigger] built.0@.samples[i] == sphere_level(
                    8,
                    index_x(9, i),
                    index_y(9, i),
                    index_z(9, i),
                ),
            built.1.lists(mesh_triangles(built.0@)),
    {
        assert(cube(9) == 729);
        let field = generate_sphere_field(Self::CHUNK_RESOLUTION, Self::CHUNK_ISOLEVEL);
        let mesh = build_mesh(&field);
        (field, mesh)
    }
}

} // verus!
