//! Noise-driven density field generation.
//!
//! Density at a world point is a height fade (minus the world `y`)
//! plus nine octaves of coherent noise, frequency doubling and
//! amplitude halving each octave. The noise primitive is a replaceable
//! black box — deterministic for a fixed seed, with values in
//! `(-1, 1)` — that works in floating point and therefore lives with
//! the caller; this module fixes which points it is sampled at and
//! turns its per-octave samples into densities by exact fixed-point
//! arithmetic.
//!
//! Scales: world coordinates are whole voxels; noise sample points are
//! in thousandths of a world unit; noise values are in thousandths,
//! clamped to `[-1000, 1000]`; one density unit is `1/DENSITY_ONE`, so
//! that every octave amplitude `15 / 2^k` is exact.
use vstd::prelude::*;

use crate::chunk::{field_bounded, Chunk, DENSITY_LIMIT, DENSITY_ONE};
use crate::indexing::{coord_of, from_index, Vec3i, AXIS_SIZE, BUFFER_SIZE};

verus! {

/// The seed of the reference terrain.
pub const NOISE_SEED: i64 = 69420;

/// Largest world-coordinate magnitude the generator accepts; keeps
/// every fixed-point product inside `i64` and every density inside
/// `DENSITY_LIMIT`.
pub const WORLD_LIMIT: i64 = 1_000_000;

/// How many noise octaves are accumulated.
pub const OCTAVES: usize = 9;

/// The noise frequency of octave `k`, in thousandths: `0.005` doubled
/// `k` times.
pub open spec fn freq_factor(k: int) -> int {
    if k == 0 {
        5
    } else if k == 1 {
        10
    } else if k == 2 {
        20
    } else if k == 3 {
        40
    } else if k == 4 {
        80
    } else if k == 5 {
        160
    } else if k == 6 {
        320
    } else if k == 7 {
        640
    } else {
        1280
    }
}

/// The amplitude of octave `k` in density units: `15` halved `k`
/// times, exact because one density unit is `1/256000`.
pub open spec fn amp_factor(k: int) -> int {
    if k == 0 {
        3840
    } else if k == 1 {
        1920
    } else if k == 2 {
        960
    } else if k == 3 {
        480
    } else if k == 4 {
        240
    } else if k == 5 {
        120
    } else if k == 6 {
        60
    } else if k == 7 {
        30
    } else {
        15
    }
}

/// A noise value forced into the primitive's contractual range of one
/// thousand thousandths either way.
pub open spec fn clamp_milli(n: int) -> int {
    if n < -1000 {
        -1000
    } else if n > 1000 {
        1000
    } else {
        n
    }
}

/// Octave `k`'s contribution given its noise sample: the clamped value
/// shifted up by one and scaled by the octave amplitude.
pub open spec fn octave_term(noise: Seq<i64>, k: int) -> int {
    (clamp_milli(noise[k] as int) + 1000) * amp_factor(k)
}

/// The sum of the first `k` octave contributions.
pub open spec fn octave_sum(noise: Seq<i64>, k: int) -> int
    decreases k,
{
    if k <= 0 {
        0
    } else {
        octave_sum(noise, k - 1) + octave_term(noise, k - 1)
    }
}

/// The density at a world point from its per-octave noise samples: a
/// height fade plus all octaves.
pub open spec fn spec_calc_iso(ws: Vec3i, noise: Seq<i64>) -> int {
    -ws.y * DENSITY_ONE + octave_sum(noise, OCTAVES as int)
}

fn freq_of(k: usize) -> (r: i64)
    requires
        k < OCTAVES,
    ensures
        r == freq_factor(k as int),
        0 < r <= 1280,
{
    if k == 0 {
        5
    } else if k == 1 {
        10
    } else if k == 2 {
        20
    } else if k == 3 {
        40
    } else if k == 4 {
        80
    } else if k == 5 {
        160
    } else if k == 6 {
        320
    } else if k == 7 {
        640
    } else {
        1280
    }
}

fn amp_of(k: usize) -> (r: i64)
    requires
        k < OCTAVES,
    ensures
        r == amp_factor(k as int),
        0 < r <= 3840,
{
    if k == 0 {
        3840
    } else if k == 1 {
        1920
    } else if k == 2 {
        960
    } else if k == 3 {
        480
    } else if k == 4 {
        240
    } else if k == 5 {
        120
    } else if k == 6 {
        60
    } else if k == 7 {
        30
    } else {
        15
    }
}

/// The point at which octave `k` samples the noise field for world
/// point `ws`, in thousandths of a world unit: the world point scaled
/// by the octave frequency.
pub fn octave_sample_point(ws: Vec3i, k: usize) -> (p: [i64; 3])
    requires
        -WORLD_LIMIT <= ws.x <= WORLD_LIMIT,
        -WORLD_LIMIT <= ws.y <= WORLD_LIMIT,
        -WORLD_LIMIT <= ws.z <= WORLD_LIMIT,
        k < OCTAVES,
    ensures
        p@[0] == ws.x * freq_factor(k as int),
        p@[1] == ws.y * freq_factor(k as int),
        p@[2] == ws.z * freq_factor(k as int),
{
    let f = freq_of(k);
    let x = ws.x as i64;
    let y = ws.y as i64;
    let z = ws.z as i64;
    proof {
        assert(-1_280_000_000 <= x * f <= 1_280_000_000 && -1_280_000_000 <= y * f
            <= 1_280_000_000 && -1_280_000_000 <= z * f <= 1_280_000_000) by (nonlinear_arith)
            requires
                -1_000_000 <= x <= 1_000_000,
                -1_000_000 <= y <= 1_000_000,
                -1_000_000 <= z <= 1_000_000,
                0 < f <= 1280,
        ;
    }
    [x * f, y * f, z * f]
}

/// Computes the terrain density at one world point from that point's
/// nine octave noise samples: the height fade plus every octave's
/// clamped, amplitude-scaled value.
pub fn calc_iso(ws: Vec3i, noise: &[i64; 9]) -> (d: i64)
    requires
        -WORLD_LIMIT <= ws.x <= WORLD_LIMIT,
        -WORLD_LIMIT <= ws.y <= WORLD_LIMIT,
        -WORLD_LIMIT <= ws.z <= WORLD_LIMIT,
    ensures
        d == spec_calc_iso(ws, noise@),
        -DENSITY_LIMIT <= d <= DENSITY_LIMIT,
{
    let y = ws.y as i64;
    let mut acc: i64 = 0;
    let mut k: usize = 0;
    while k < OCTAVES
        invariant
            k <= OCTAVES,
            acc == octave_sum(noise@, k as int),
            0 <= acc <= 7_680_000 * k,
        decreases OCTAVES - k,
    {
        let raw = noise[k];
        let n: i64 = if raw < -1000 {
            -1000
        } else if raw > 1000 {
            1000
        } else {
            raw
        };
        let a = amp_of(k);
        proof {
            assert(0 <= (n + 1000) * a <= 7_680_000) by (nonlinear_arith)
                requires
                    -1000 <= n <= 1000,
                    0 < a <= 3840,
            ;
        }
        acc = acc + (n + 1000) * a;
        k += 1;
    }
    -y * DENSITY_ONE + acc
}

/// The density that a filled chunk anchored at `anchor` holds at flat
/// offset `i`, given that voxel's octave noise samples.
pub open spec fn spec_density_at(anchor: Vec3i, noise: Seq<i64>, i: int) -> int {
    spec_calc_iso(
        Vec3i {
            x: (anchor.x + coord_of(i).x) as i32,
            y: (anchor.y + coord_of(i).y) as i32,
            z: (anchor.z + coord_of(i).z) as i32,
        },
        noise,
    )
}

/// The world anchor is far enough from the world edge for every voxel
/// of its chunk.
pub open spec fn anchor_in_world(anchor: Vec3i) -> bool {
    -WORLD_LIMIT + AXIS_SIZE <= anchor.x <= WORLD_LIMIT - AXIS_SIZE && -WORLD_LIMIT + AXIS_SIZE
        <= anchor.y <= WORLD_LIMIT - AXIS_SIZE && -WORLD_LIMIT + AXIS_SIZE <= anchor.z
        <= WORLD_LIMIT - AXIS_SIZE
}

/// The world point of the voxel at flat offset `i` of the chunk
/// anchored at `anchor`.
pub fn voxel_world_point(anchor: Vec3i, i: usize) -> (ws: Vec3i)
    requires
        anchor_in_world(anchor),
        i < BUFFER_SIZE,
    ensures
        ws.x == anchor.x + coord_of(i as int).x,
        ws.y == anchor.y + coord_of(i as int).y,
        ws.z == anchor.z + coord_of(i as int).z,
        -WORLD_LIMIT <= ws.x <= WORLD_LIMIT,
        -WORLD_LIMIT <= ws.y <= WORLD_LIMIT,
        -WORLD_LIMIT <= ws.z <= WORLD_LIMIT,
{
    let local = from_index(i);
    Vec3i { x: anchor.x + local.x, y: anchor.y + local.y, z: anchor.z + local.z }
}

/// Computes one chunk's full density field from per-voxel noise
/// samples, in flat index order: voxel `i` of the chunk anchored at
/// `anchor` gets the density of its world point under `noise[i]`.
pub fn compute_chunk(anchor: Vec3i, noise: &Vec<[i64; 9]>) -> (field: Vec<i64>)
    requires
        anchor_in_world(anchor),
        noise@.len() == BUFFER_SIZE,
    ensures
        field@.len() == BUFFER_SIZE,
        field_bounded(field@),
        forall|i: int| 0 <= i < BUFFER_SIZE ==> field@[i] == spec_density_at(
            anchor,
            noise@[i]@,
            i,
        ),
{
    let mut field: Vec<i64> = Vec::new();
    let mut i: usize = 0;
    while i < BUFFER_SIZE
        invariant
            anchor_in_world(anchor),
            noise@.len() == BUFFER_SIZE,
            i <= BUFFER_SIZE,
            field@.len() == i,
            forall|n: int| 0 <= n < i ==> -DENSITY_LIMIT <= #[trigger] field@[n] <= DENSITY_LIMIT,
            forall|n: int| 0 <= n < i ==> field@[n] == spec_density_at(anchor, noise@[n]@, n),
        decreases BUFFER_SIZE - i,
    {
        let ws = voxel_world_point(anchor, i);
        let d = calc_iso(ws, &noise[i]);
        field.push(d);
        i += 1;
    }
    field
}

/// Fills a chunk in place from per-voxel noise samples and marks it
/// dirty: the adoption step of completed background generation.
pub fn fill_chunk(chunk: &mut Chunk, anchor: Vec3i, noise: &Vec<[i64; 9]>)
    requires
        anchor_in_world(anchor),
        noise@.len() == BUFFER_SIZE,
    ensures
        final(chunk).wf(),
        final(chunk).is_dirty(),
        forall|i: int| 0 <= i < BUFFER_SIZE ==> final(chunk).densities()[i] == spec_density_at(
            anchor,
            noise@[i]@,
            i,
        ),
{
    let field = compute_chunk(anchor, noise);
    chunk.adopt_field(field);
}

/// Field generation is deterministic: two fields computed from the
/// same anchor and the same noise samples — and the noise primitive is
/// itself a pure function of its sample point and seed — are
/// identical, sample for sample.
pub proof fn lemma_fill_deterministic(f1: Seq<i64>, f2: Seq<i64>, anchor: Vec3i, noise: Seq<Seq<i64>>)
    requires
        f1.len() == BUFFER_SIZE,
        f2.len() == BUFFER_SIZE,
        forall|i: int| 0 <= i < BUFFER_SIZE ==> f1[i] == spec_density_at(anchor, noise[i], i),
        forall|i: int| 0 <= i < BUFFER_SIZE ==> f2[i] == spec_density_at(anchor, noise[i], i),
    ensures
        f1 == f2,
{
    assert(f1 =~= f2);
}

} // verus!
