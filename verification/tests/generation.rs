use noise::NoiseFn;
use noise::Perlin;

use terrain_mesh::grid::GridError;
use terrain_mesh::grid::GridSpec;
use terrain_mesh::grid::lattice_to_index;
use terrain_mesh::heights::HeightField;
use terrain_mesh::mesh::Frac;
use terrain_mesh::mesh::MeshData;
use terrain_mesh::mesh::MeshParams;
use terrain_mesh::mesh::generate_from_samples;
use terrain_mesh::mesh::generate_mesh;

fn frac_f64(f: Frac) -> f64 {
    f.num as f64 / f.den as f64
}

fn varied_samples(width: u32, depth: u32) -> Vec<i64> {
    let n = ((width + 1) * (depth + 1)) as usize;
    let mut samples: Vec<i64> = Vec::with_capacity(n);
    for k in 0..n {
        samples.push(((k * 37) % 101) as i64 - 50);
    }
    samples
}

fn build(width: u32, depth: u32, params: MeshParams, samples: Vec<i64>) -> MeshData {
    let spec = GridSpec::new(width, depth).expect("valid grid");
    generate_from_samples(&spec, &params, samples).expect("valid samples")
}

#[test]
fn counts_for_valid_grid() {
    let spec = GridSpec::new(4, 3).expect("valid grid");
    assert_eq!(spec.vertex_count(), 20);
    assert_eq!(spec.triangle_index_count(), 72);
}

#[test]
fn buffer_lengths_match_counts() {
    let params = MeshParams::default();
    let mesh = build(4, 3, params, varied_samples(4, 3));
    assert_eq!(mesh.positions.len(), 20);
    assert_eq!(mesh.normals.len(), 20);
    assert_eq!(mesh.uvs.len(), 20);
    assert_eq!(mesh.indices.len(), 72);
}

#[test]
fn indices_all_in_range() {
    let params = MeshParams::default();
    let mesh = build(3, 2, params, varied_samples(3, 2));
    let vertex_count = 4 * 3;
    for &i in &mesh.indices {
        assert!((i as usize) < vertex_count);
    }
}

#[test]
fn generation_deterministic() {
    let params = MeshParams { physical_scale: 7, height_num: 3, height_den: 2 };
    let first = build(5, 4, params, varied_samples(5, 4));
    let second = build(5, 4, params, varied_samples(5, 4));
    assert_eq!(first, second);
}

#[test]
fn normals_unit_length_after_normalization() {
    let params = MeshParams::default();
    let mesh = build(6, 5, params, varied_samples(6, 5));
    for n in &mesh.normals {
        assert!(n.y > 0);
        let (x, y, z) = (n.x as f64, n.y as f64, n.z as f64);
        let len = (x * x + y * y + z * z).sqrt();
        let unit_len = ((x / len).powi(2) + (y / len).powi(2) + (z / len).powi(2)).sqrt();
        assert!((unit_len - 1.0).abs() < 1e-5);
    }
}

#[test]
fn flat_field_normals_exactly_up() {
    let spec = GridSpec::new(3, 3).expect("valid grid");
    let params = MeshParams { physical_scale: 10, height_num: 1, height_den: 1 };
    let field = HeightField::constant(&spec, 7).expect("level in range");
    let mesh = generate_mesh(&field, &params);
    for n in &mesh.normals {
        assert_eq!(n.x, 0);
        assert_eq!(n.y, 2 * 1 * 10);
        assert_eq!(n.z, 0);
        let len = ((n.x * n.x + n.y * n.y + n.z * n.z) as f64).sqrt();
        assert_eq!(n.x as f64 / len, 0.0);
        assert_eq!(n.y as f64 / len, 1.0);
        assert_eq!(n.z as f64 / len, 0.0);
    }
}

#[test]
fn corner_uvs_exact() {
    let width = 4;
    let depth = 3;
    let params = MeshParams::default();
    let mesh = build(width, depth, params, varied_samples(width, depth));
    let at = |col: u32, row: u32| mesh.uvs[lattice_to_index(col, row, width) as usize];
    let c00 = at(0, 0);
    assert_eq!(frac_f64(c00.u), 0.0);
    assert_eq!(frac_f64(c00.v), 0.0);
    let c10 = at(width, 0);
    assert_eq!(c10.u.num, c10.u.den);
    assert_eq!(frac_f64(c10.u), 1.0);
    assert_eq!(frac_f64(c10.v), 0.0);
    let c01 = at(0, depth);
    assert_eq!(frac_f64(c01.u), 0.0);
    assert_eq!(frac_f64(c01.v), 1.0);
    let c11 = at(width, depth);
    assert_eq!(frac_f64(c11.u), 1.0);
    assert_eq!(frac_f64(c11.v), 1.0);
}

#[test]
fn flat_two_by_two_scenario() {
    let spec = GridSpec::new(2, 2).expect("valid grid");
    let params = MeshParams { physical_scale: 10, height_num: 1, height_den: 1 };
    let field = HeightField::constant(&spec, 0).expect("level in range");
    let mesh = generate_mesh(&field, &params);
    assert_eq!(mesh.positions.len(), 9);
    assert_eq!(mesh.indices.len(), 24);
    let expected = [-5.0, 0.0, 5.0];
    for row in 0..3u32 {
        for col in 0..3u32 {
            let p = mesh.positions[lattice_to_index(col, row, 2) as usize];
            assert_eq!(frac_f64(p.x), expected[col as usize]);
            assert_eq!(frac_f64(p.y), 0.0);
            assert_eq!(frac_f64(p.z), expected[row as usize]);
        }
    }
}

#[test]
fn zero_width_rejected() {
    assert_eq!(GridSpec::new(0, 5), Err(GridError::InvalidGridSpec));
    assert_eq!(GridSpec::new(5, 0), Err(GridError::InvalidGridSpec));
    let spec = GridSpec { width: 0, depth: 5 };
    let params = MeshParams::default();
    assert_eq!(
        generate_from_samples(&spec, &params, Vec::new()),
        Err(GridError::InvalidGridSpec)
    );
}

#[test]
fn bad_sampling_rejected() {
    let spec = GridSpec::new(2, 2).expect("valid grid");
    let params = MeshParams::default();
    let short = vec![0i64; 8];
    assert_eq!(
        generate_from_samples(&spec, &params, short),
        Err(GridError::NoiseSamplingFailure)
    );
    let mut out_of_range = vec![0i64; 9];
    out_of_range[4] = 0x10_0001;
    assert_eq!(
        generate_from_samples(&spec, &params, out_of_range),
        Err(GridError::NoiseSamplingFailure)
    );
}

#[test]
fn winding_ccw_from_above() {
    let params = MeshParams::default();
    let mesh = build(4, 4, params, varied_samples(4, 4));
    for tri in mesh.indices.chunks(3) {
        let a = mesh.positions[tri[0] as usize];
        let b = mesh.positions[tri[1] as usize];
        let c = mesh.positions[tri[2] as usize];
        let (ax, az) = (frac_f64(a.x), frac_f64(a.z));
        let (bx, bz) = (frac_f64(b.x), frac_f64(b.z));
        let (cx, cz) = (frac_f64(c.x), frac_f64(c.z));
        let cross_y = (bz - az) * (cx - ax) - (bx - ax) * (cz - az);
        assert!(cross_y > 0.0);
    }
}

#[test]
fn lattice_to_index_formula() {
    assert_eq!(lattice_to_index(3, 2, 4), 2 * 5 + 3);
    assert_eq!(lattice_to_index(0, 0, 7), 0);
    assert_eq!(lattice_to_index(7, 0, 7), 7);
    assert_eq!(lattice_to_index(0, 1, 7), 8);
}

#[test]
fn sample_accessor_row_major() {
    let spec = GridSpec::new(2, 1).expect("valid grid");
    let samples = vec![10i64, 11, 12, 20, 21, 22];
    let field = HeightField::from_samples(&spec, samples).expect("well-formed delivery");
    assert_eq!(field.sample(0, 0), 10);
    assert_eq!(field.sample(2, 0), 12);
    assert_eq!(field.sample(0, 1), 20);
    assert_eq!(field.sample(2, 1), 22);
}

#[test]
fn height_scale_applied_uniformly() {
    let spec = GridSpec::new(2, 1).expect("valid grid");
    let params = MeshParams { physical_scale: 10, height_num: 3, height_den: 2 };
    let samples = vec![4i64, -6, 8, 0, 2, -4];
    let field = HeightField::from_samples(&spec, samples).expect("well-formed delivery");
    let mesh = generate_mesh(&field, &params);
    let y = |col: u32, row: u32| frac_f64(mesh.positions[lattice_to_index(col, row, 2) as usize].y);
    assert_eq!(y(0, 0), 6.0);
    assert_eq!(y(1, 0), -9.0);
    assert_eq!(y(2, 0), 12.0);
    assert_eq!(y(1, 1), 3.0);
}

#[test]
fn default_params_values() {
    let params = MeshParams::default();
    assert_eq!(params.physical_scale, 10);
    assert_eq!(params.height_num, 1);
    assert_eq!(params.height_den, 1);
}

fn perlin_samples(width: u32, depth: u32, sample_extent: f64, seed: u32) -> Vec<i64> {
    let perlin = Perlin::new(seed);
    let mut samples: Vec<i64> = Vec::new();
    for row in 0..=depth {
        for col in 0..=width {
            let x = -sample_extent + 2.0 * sample_extent * col as f64 / width as f64;
            let z = -sample_extent + 2.0 * sample_extent * row as f64 / depth as f64;
            samples.push((perlin.get([x, z]) * 1_000_000.0).round() as i64);
        }
    }
    samples
}

#[test]
fn full_pipeline_deterministic() {
    let params = MeshParams { physical_scale: 10, height_num: 1, height_den: 1_000_000 };
    let first = build(8, 8, params, perlin_samples(8, 8, 5.0, 2137));
    let second = build(8, 8, params, perlin_samples(8, 8, 5.0, 2137));
    assert_eq!(first, second);
    let other_seed = build(8, 8, params, perlin_samples(8, 8, 5.0, 2138));
    assert_ne!(first.positions, other_seed.positions);
}

#[test]
fn normals_follow_slope_direction() {
    let spec = GridSpec::new(2, 2).expect("valid grid");
    let params = MeshParams { physical_scale: 10, height_num: 1, height_den: 1 };
    let mut samples = vec![0i64; 9];
    for row in 0..3u32 {
        for col in 0..3u32 {
            samples[lattice_to_index(col, row, 2) as usize] = 5 * col as i64;
        }
    }
    let field = HeightField::from_samples(&spec, samples).expect("well-formed delivery");
    let mesh = generate_mesh(&field, &params);
    for n in &mesh.normals {
        assert!(n.x < 0);
        assert!(n.y > 0);
        assert_eq!(n.z, 0);
    }
}
