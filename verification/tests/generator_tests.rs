use opensimplex_noise_rs::OpenSimplexNoise;
use voxel_terrain::chunk::{Chunk, DENSITY_ONE};
use voxel_terrain::generator::{
    calc_iso, compute_chunk, fill_chunk, octave_sample_point, NOISE_SEED, OCTAVES,
};
use voxel_terrain::indexing::{from_index, Vec3i, BUFFER_SIZE};
use voxel_terrain::triangulate::triangulate;

/// The per-voxel octave samples of one chunk, evaluated with the real
/// coherent-noise primitive at the sample points the library fixes.
fn chunk_noise(anchor: Vec3i, seed: i64) -> Vec<[i64; 9]> {
    let noise = OpenSimplexNoise::new(Some(seed));
    let mut out: Vec<[i64; 9]> = Vec::with_capacity(BUFFER_SIZE);
    for i in 0..BUFFER_SIZE {
        let local = from_index(i);
        let ws = Vec3i { x: anchor.x + local.x, y: anchor.y + local.y, z: anchor.z + local.z };
        let mut octaves = [0i64; 9];
        for k in 0..OCTAVES {
            let p = octave_sample_point(ws, k);
            let v = noise.eval_3d(
                p[0] as f64 / 1000.0,
                p[1] as f64 / 1000.0,
                p[2] as f64 / 1000.0,
            );
            octaves[k] = (v * 1000.0) as i64;
        }
        out.push(octaves);
    }
    out
}

fn densities(chunk: &Chunk) -> Vec<i64> {
    (0..BUFFER_SIZE).map(|i| chunk.get_point(from_index(i))).collect()
}

/// With all noise samples at zero, the density is the height fade plus
/// the up-shift of every octave: `-y + sum of amplitudes`, exactly.
#[test]
fn calc_iso_formula_is_exact_on_zero_noise() {
    let zeros = [0i64; 9];
    // amplitudes 15/2^k in 1/256000 units sum to 7665 thousandths
    assert_eq!(calc_iso(Vec3i { x: 0, y: 0, z: 0 }, &zeros), 7_665_000);
    assert_eq!(
        calc_iso(Vec3i { x: 5, y: 2, z: -9 }, &zeros),
        -2 * DENSITY_ONE + 7_665_000
    );
}

/// Noise samples outside the primitive's contractual range are clamped
/// before they are scaled.
#[test]
fn calc_iso_clamps_out_of_range_noise() {
    let wild = [9_999i64; 9];
    let capped = [1_000i64; 9];
    let at = Vec3i { x: 1, y: 1, z: 1 };
    assert_eq!(calc_iso(at, &wild), calc_iso(at, &capped));
}

/// Octave sample points follow the doubling frequency ladder, scaled
/// to thousandths: `0.005 * 2^k` per world unit.
#[test]
fn octave_sample_points_follow_the_frequency_ladder() {
    let ws = Vec3i { x: 100, y: -40, z: 7 };
    assert_eq!(octave_sample_point(ws, 0), [500, -200, 35]);
    assert_eq!(octave_sample_point(ws, 1), [1000, -400, 70]);
    assert_eq!(octave_sample_point(ws, 8), [128_000, -51_200, 8_960]);
}

/// Same seed and same anchor give a bit-identical density field on
/// repeated runs.
#[test]
fn fill_chunk_is_deterministic() {
    let anchor = Vec3i { x: 31, y: 0, z: -31 };
    let noise_a = chunk_noise(anchor, NOISE_SEED);
    let noise_b = chunk_noise(anchor, NOISE_SEED);
    let mut chunk_a = Chunk::new_empty();
    let mut chunk_b = Chunk::new_empty();
    fill_chunk(&mut chunk_a, anchor, &noise_a);
    fill_chunk(&mut chunk_b, anchor, &noise_b);
    assert!(chunk_a.is_dirty_flag());
    assert_eq!(densities(&chunk_a), densities(&chunk_b));
}

/// The noise actually varies: a filled chunk is not the constant field
/// that ignoring the noise samples would give.
#[test]
fn filled_chunk_depends_on_the_noise() {
    let anchor = Vec3i { x: 0, y: 0, z: 0 };
    let field = compute_chunk(anchor, &chunk_noise(anchor, NOISE_SEED));
    let mut varied = false;
    for x in 1..32i32 {
        let a = field[voxel_terrain::indexing::to_index(Vec3i { x, y: 5, z: 5 })];
        let b = field[voxel_terrain::indexing::to_index(Vec3i { x: 0, y: 5, z: 5 })];
        if a != b {
            varied = true;
        }
    }
    assert!(varied, "noise contributed nothing to the field");
}

/// Different seeds give different terrain.
#[test]
fn fill_chunk_depends_on_the_seed() {
    let anchor = Vec3i { x: 0, y: 0, z: 0 };
    let field_a = compute_chunk(anchor, &chunk_noise(anchor, NOISE_SEED));
    let field_b = compute_chunk(anchor, &chunk_noise(anchor, 7));
    assert_ne!(field_a, field_b);
}

/// End to end on real noise: generation marks the chunk dirty, and a
/// column of chunks tall enough to span every possible terrain height
/// holds an actual surface to mesh.
#[test]
fn generated_terrain_has_a_surface() {
    let mut total = 0usize;
    for level in 0..3i32 {
        let anchor = Vec3i { x: 0, y: 31 * level, z: 0 };
        let mut chunk = Chunk::new_empty();
        fill_chunk(&mut chunk, anchor, &chunk_noise(anchor, NOISE_SEED));
        assert!(chunk.is_dirty_flag());
        total += triangulate(&chunk).len();
    }
    assert!(total > 0, "reference terrain should cross the iso level somewhere");
}
