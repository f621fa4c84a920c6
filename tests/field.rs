use voxel_terrain::camera::{zoom_distance, zoom_step, CameraMode};
use voxel_terrain::chunk::{generate_density_field, generate_sphere_field, sphere_density, Chunk, Origin, Point};
use voxel_terrain::geometry::{LatticePoint, Triangle, Vertex};
use voxel_terrain::lattice::{decode_index, encode_index};

#[test]
fn index_round_trip_covers_the_lattice() {
    for side in [1usize, 2, 3, 9] {
        for index in 0..side * side * side {
            let (x, y, z) = decode_index(side, index);
            assert!(x < side && y < side && z < side);
            assert_eq!(encode_index(side, x, y, z), index);
        }
    }
}

#[test]
fn decode_walks_x_fastest() {
    assert_eq!(decode_index(3, 0), (0, 0, 0));
    assert_eq!(decode_index(3, 1), (1, 0, 0));
    assert_eq!(decode_index(3, 3), (0, 1, 0));
    assert_eq!(decode_index(3, 9), (0, 0, 1));
    assert_eq!(decode_index(3, 26), (2, 2, 2));
    assert_eq!(encode_index(4, 1, 2, 3), 1 + 2 * 4 + 3 * 16);
}

#[test]
fn generated_samples_follow_the_linear_index() {
    let field = generate_density_field(2, 9, |x, y, z| (x + 3 * y + 9 * z) as u8);
    assert_eq!(field.resolution(), 2);
    assert_eq!(field.isolevel(), 9);
    assert_eq!(field.samples().len(), 27);
    for (i, level) in field.samples().iter().enumerate() {
        assert_eq!(*level as usize, i);
    }
}

#[test]
fn get_point_reads_the_sample_directly() {
    let field = generate_density_field(4, 0, |x, y, z| (x + 5 * y + 25 * z) as u8);
    for (x, y, z) in [(0u32, 0u32, 0u32), (4, 0, 0), (0, 4, 0), (0, 0, 4), (3, 1, 2), (4, 4, 4)] {
        let pos = LatticePoint { x, y, z };
        let point = field.get_point(pos);
        assert_eq!(point.pos, pos);
        assert_eq!(point.level as u32, x + 5 * y + 25 * z);
    }
}

#[test]
fn default_chunk_is_empty_resolution_eight() {
    let field = Chunk::default();
    assert_eq!(field.resolution(), 8);
    assert_eq!(field.isolevel(), 64);
    assert_eq!(field.origin(), Origin { x: 0, y: 0, z: 0 });
    assert_eq!(field.samples().len(), 729);
    assert!(field.samples().iter().all(|level| *level == 0));
}

#[test]
fn with_origin_moves_only_the_origin() {
    let field = generate_density_field(1, 3, |x, _, _| x as u8).with_origin(Origin { x: -8, y: 0, z: 16 });
    assert_eq!(field.origin(), Origin { x: -8, y: 0, z: 16 });
    assert_eq!(field.resolution(), 1);
    assert_eq!(field.samples(), &vec![0, 1, 0, 1, 0, 1, 0, 1]);
}

#[test]
fn sphere_density_marks_the_ball() {
    assert_eq!(sphere_density(8, 2, 2, 2), 255);
    assert_eq!(sphere_density(8, 4, 2, 2), 255);
    assert_eq!(sphere_density(8, 5, 2, 2), 0);
    assert_eq!(sphere_density(8, 0, 0, 0), 0);
    assert_eq!(sphere_density(8, 1, 1, 1), 255);
    assert_eq!(sphere_density(3, 0, 0, 0), 255);
    assert_eq!(sphere_density(3, 1, 0, 0), 0);
}

#[test]
fn sphere_field_holds_the_sphere() {
    let field = generate_sphere_field(8, 127);
    let inside = field.samples().iter().filter(|level| **level == 255).count();
    // Lattice points within distance 2 of (2, 2, 2).
    assert_eq!(inside, 33);
    assert_eq!(field.get_point(LatticePoint { x: 2, y: 2, z: 2 }).level, 255);
}

#[test]
fn defaults_sit_at_the_origin() {
    assert_eq!(Point::default(), Point { level: 0, pos: LatticePoint { x: 0, y: 0, z: 0 } });
    let origin = Vertex { x: 0, y: 0, z: 0, den: 1 };
    assert_eq!(Vertex::default(), origin);
    assert_eq!(Triangle::default(), Triangle { a: origin, b: origin, c: origin });
}

#[test]
fn zoom_out_steps_away_and_orbits() {
    assert_eq!(zoom_step(3, 5, CameraMode::FirstPerson, true, false), (4, CameraMode::Orbit));
    assert_eq!(zoom_step(5, 5, CameraMode::Orbit, true, false), (5, CameraMode::Orbit));
}

#[test]
fn zoom_in_steps_closer_then_first_person() {
    assert_eq!(zoom_step(3, 5, CameraMode::Orbit, false, true), (2, CameraMode::Orbit));
    assert_eq!(zoom_step(0, 5, CameraMode::Orbit, false, true), (0, CameraMode::FirstPerson));
    assert_eq!(zoom_step(0, 5, CameraMode::Orbit, true, true), (0, CameraMode::Orbit));
    assert_eq!(zoom_step(2, 5, CameraMode::Orbit, false, false), (2, CameraMode::Orbit));
    assert_eq!(CameraMode::default(), CameraMode::Orbit);
}

#[test]
fn zoom_distance_is_step_times_distance() {
    assert_eq!(zoom_distance(3, 5), 15);
    assert_eq!(zoom_distance(u32::MAX, u32::MAX), u32::MAX as u64 * u32::MAX as u64);
}
