use voxel_terrain::chunk::{generate_density_field, generate_sphere_field, Chunk};
use voxel_terrain::geometry::{face_normal, interpolate, LatticePoint, Normal, Triangle, Vertex};
use voxel_terrain::marching::{build_mesh, classify, polygonise_cell, sample_cell, MeshBuffer};
use voxel_terrain::tables::{edge_corners, triangulation_row, CORNER_INDEX};
use voxel_terrain::VoxelEnginePlugin;

fn lp(x: u32, y: u32, z: u32) -> LatticePoint {
    LatticePoint { x, y, z }
}

fn v(x: i64, y: i64, z: i64, den: i64) -> Vertex {
    Vertex { x, y, z, den }
}

fn single_corner_field() -> Chunk {
    generate_density_field(1, 127, |x, y, z| if x == 0 && y == 0 && z == 0 { 255 } else { 0 })
}

fn check_buffer_shape(mesh: &MeshBuffer) {
    let n = mesh.positions.len();
    assert_eq!(mesh.normals.len(), n);
    assert_eq!(mesh.indices.len(), n);
    assert_eq!(mesh.uvs.len(), n);
    assert_eq!(n % 3, 0);
    for (i, index) in mesh.indices.iter().enumerate() {
        assert_eq!(*index, i);
    }
    for uv in &mesh.uvs {
        assert_eq!(*uv, (0, 0));
    }
    for k in 0..n / 3 {
        assert_eq!(mesh.normals[3 * k], mesh.normals[3 * k + 1]);
        assert_eq!(mesh.normals[3 * k], mesh.normals[3 * k + 2]);
    }
}

#[test]
fn all_outside_field_emits_no_triangle() {
    let field = generate_density_field(3, 127, |_, _, _| 0);
    let mesh = build_mesh(&field);
    assert!(mesh.positions.is_empty());
    assert!(mesh.normals.is_empty());
    assert!(mesh.indices.is_empty());
}

#[test]
fn all_inside_field_emits_no_triangle() {
    let field = generate_density_field(3, 127, |_, _, _| 255);
    let mesh = build_mesh(&field);
    assert!(mesh.positions.is_empty());
}

#[test]
fn samples_on_the_isolevel_are_outside() {
    let field = generate_density_field(2, 127, |_, _, _| 127);
    assert!(build_mesh(&field).positions.is_empty());
    assert_eq!(classify([127; 8], 127), 0);
}

#[test]
fn uniform_configurations_list_no_triangle() {
    assert_eq!(triangulation_row(0), [-1; 16]);
    assert_eq!(triangulation_row(255), [-1; 16]);
}

#[test]
fn configuration_one_uses_edges_of_corner_zero() {
    let row = triangulation_row(1);
    assert_eq!(row, [0, 8, 3, -1, -1, -1, -1, -1, -1, -1, -1, -1, -1, -1, -1, -1]);
    for slot in 0..3 {
        let (a, b) = edge_corners(row[slot] as usize);
        assert!(a == 0 || b == 0);
    }
    assert_eq!(row[3], -1);
}

#[test]
fn table_rows_cross_only_sign_changing_edges() {
    for config in 0..=255u8 {
        let row = triangulation_row(config);
        let mut g = 0;
        while g < 5 && row[3 * g] != -1 {
            for j in 0..3 {
                let e = row[3 * g + j];
                assert!((0..12).contains(&e));
                let [a, b] = CORNER_INDEX[e as usize];
                assert_ne!((config >> a) & 1, (config >> b) & 1);
            }
            g += 1;
        }
        assert_eq!(g == 0, config == 0 || config == 255);
    }
}

#[test]
fn known_rows_match_the_standard_table() {
    let pad = |edges: &[i8]| {
        let mut row = [-1i8; 16];
        row[..edges.len()].copy_from_slice(edges);
        row
    };
    assert_eq!(triangulation_row(3), pad(&[1, 8, 3, 9, 8, 1]));
    assert_eq!(triangulation_row(7), pad(&[2, 8, 3, 2, 10, 8, 10, 9, 8]));
    assert_eq!(triangulation_row(15), pad(&[9, 8, 10, 10, 8, 11]));
    assert_eq!(triangulation_row(128), pad(&[7, 6, 11]));
    assert_eq!(triangulation_row(254), pad(&[0, 3, 8]));
    assert_eq!(
        triangulation_row(61),
        pad(&[5, 7, 0, 5, 0, 9, 7, 11, 0, 1, 0, 10, 11, 10, 0])
    );
}

#[test]
fn classify_sets_one_bit_per_inside_corner() {
    assert_eq!(classify([255, 0, 0, 0, 0, 0, 0, 0], 127), 1);
    assert_eq!(classify([0, 255, 0, 0, 0, 0, 0, 0], 127), 2);
    assert_eq!(classify([0, 0, 0, 0, 0, 0, 0, 200], 127), 128);
    assert_eq!(classify([128, 0, 128, 0, 0, 0, 0, 128], 127), 0b1000_0101);
    assert_eq!(classify([255; 8], 127), 255);
    assert_eq!(classify([0; 8], 0), 0);
}

#[test]
fn interpolate_returns_a_when_a_is_on_the_level() {
    let a = lp(3, 4, 5);
    let b = lp(4, 4, 5);
    assert_eq!(interpolate(a, b, 100, 101, 100), Vertex::from_lattice(a));
    assert_eq!(interpolate(a, b, 100, 101, 100), v(3, 4, 5, 1));
    assert_eq!(interpolate(a, b, 254, 255, 254), v(3, 4, 5, 1));
}

#[test]
fn interpolate_returns_b_when_only_b_is_on_the_level() {
    let a = lp(3, 4, 5);
    let b = lp(3, 5, 5);
    assert_eq!(interpolate(a, b, 10, 100, 100), v(3, 5, 5, 1));
}

#[test]
fn interpolate_flat_edge_returns_a() {
    let a = lp(0, 0, 0);
    let b = lp(0, 0, 1);
    for value in [0u8, 5, 126, 128, 255] {
        assert_eq!(interpolate(a, b, value, value, 127), v(0, 0, 0, 1));
    }
}

#[test]
fn interpolate_places_the_exact_crossing() {
    let a = lp(0, 0, 0);
    let b = lp(1, 0, 0);
    assert_eq!(interpolate(a, b, 0, 255, 127), v(127, 0, 0, 255));
    assert_eq!(interpolate(a, b, 255, 0, 127), v(128, 0, 0, 255));
    assert_eq!(interpolate(lp(2, 7, 1), lp(2, 6, 1), 10, 30, 25), v(40, 125, 20, 20));
}

#[test]
fn interpolate_handles_the_largest_coordinates() {
    let far = lp(u32::MAX, u32::MAX, 0);
    let near = lp(0, u32::MAX, 0);
    let m = u32::MAX as i64;
    assert_eq!(interpolate(far, near, 0, 255, 127), v(m * 128, m * 255, 0, 255));
    assert_eq!(interpolate(near, far, 255, 0, 127), v(m * 128, m * 255, 0, 255));
}

#[test]
fn single_corner_field_yields_one_triangle() {
    let field = single_corner_field();
    let mesh = build_mesh(&field);
    assert_eq!(mesh.positions.len(), 3);
    assert_eq!(mesh.normals.len(), 3);
    assert_eq!(mesh.indices, vec![0, 1, 2]);
    assert_eq!(mesh.positions[0], v(128, 0, 0, 255));
    assert_eq!(mesh.positions[1], v(0, 0, 128, 255));
    assert_eq!(mesh.positions[2], v(0, 128, 0, 255));
    let n = -(32640i128 * 32640);
    assert_eq!(mesh.normals[0], Normal { x: n, y: n, z: n });
    check_buffer_shape(&mesh);
}

#[test]
fn face_normal_is_the_scaled_cross_product() {
    let t = Triangle { a: v(0, 0, 0, 1), b: v(1, 0, 0, 1), c: v(0, 1, 0, 1) };
    assert_eq!(face_normal(&t), Normal { x: 0, y: 0, z: 1 });
    let t = Triangle { a: v(0, 0, 0, 2), b: v(1, 0, 0, 2), c: v(0, 0, 1, 1) };
    assert_eq!(face_normal(&t), Normal { x: 0, y: -4, z: 0 });
    let flat = Triangle { a: v(1, 1, 1, 1), b: v(1, 1, 1, 1), c: v(2, 2, 2, 1) };
    assert_eq!(face_normal(&flat), Normal { x: 0, y: 0, z: 0 });
}

#[test]
fn sample_cell_follows_the_corner_order() {
    let field = generate_density_field(2, 0, |x, y, z| (x + 10 * y + 100 * z) as u8);
    let (densities, corners) = sample_cell(&field, (1, 0, 1));
    assert_eq!(densities, [101, 102, 112, 111, 201, 202, 212, 211]);
    assert_eq!(corners[0], lp(1, 0, 1));
    assert_eq!(corners[2], lp(2, 1, 1));
    assert_eq!(corners[7], lp(1, 1, 2));
}

#[test]
fn polygonise_cell_appends_after_existing_triangles() {
    let field = single_corner_field();
    let (densities, corners) = sample_cell(&field, (0, 0, 0));
    let mut triangles = vec![Triangle::default()];
    polygonise_cell(&densities, &corners, 127, &mut triangles);
    assert_eq!(triangles.len(), 2);
    assert_eq!(triangles[0], Triangle::default());
    assert_eq!(triangles[1].a, v(128, 0, 0, 255));
}

#[test]
fn buffer_lengths_agree_for_any_field() {
    for resolution in [1u32, 2, 5, 9] {
        for isolevel in [0u8, 64, 127, 254] {
            let field = generate_density_field(resolution, isolevel, |x, y, z| {
                ((x * 37 + y * 91 + z * 53) % 256) as u8
            });
            let mesh = build_mesh(&field);
            check_buffer_shape(&mesh);
        }
    }
}

#[test]
fn sphere_surface_is_non_empty_and_inside_the_lattice() {
    for resolution in [8u32, 9, 12, 16] {
        let field = generate_sphere_field(resolution, 127);
        let mesh = build_mesh(&field);
        assert!(!mesh.positions.is_empty());
        check_buffer_shape(&mesh);
        let bound = resolution as i64;
        for p in &mesh.positions {
            assert!(p.den > 0);
            for c in [p.x, p.y, p.z] {
                assert!(c >= 0 && c <= bound * p.den);
            }
        }
    }
}

#[test]
fn ball_surface_has_no_open_edge() {
    // A ball clear of the lattice border: every side of every triangle is
    // shared with another triangle.
    let field = generate_density_field(12, 127, |x, y, z| {
        let d = |c: u32| (c as i64 - 6) * (c as i64 - 6);
        if d(x) + d(y) + d(z) <= 16 { 255 } else { 0 }
    });
    let mesh = build_mesh(&field);
    assert!(!mesh.positions.is_empty());
    let key = |p: &Vertex| (p.x, p.y, p.z, p.den);
    let mut sides = std::collections::HashMap::new();
    for k in 0..mesh.positions.len() / 3 {
        for j in 0..3 {
            let a = key(&mesh.positions[3 * k + j]);
            let b = key(&mesh.positions[3 * k + (j + 1) % 3]);
            let side = if a < b { (a, b) } else { (b, a) };
            *sides.entry(side).or_insert(0u32) += 1;
        }
    }
    assert!(sides.values().all(|count| count % 2 == 0));
}

#[test]
fn engine_builds_a_sphere_chunk() {
    let (field, mesh) = VoxelEnginePlugin.build_chunk();
    assert_eq!(field.resolution(), VoxelEnginePlugin::CHUNK_RESOLUTION);
    assert_eq!(field.isolevel(), VoxelEnginePlugin::CHUNK_ISOLEVEL);
    assert_eq!(field.samples().len(), 729);
    assert!(!mesh.positions.is_empty());
    check_buffer_shape(&mesh);
}
