use voxel_terrain::chunk::{CornerSample, Vec3m};
use voxel_terrain::indexing::Vec3i;
use voxel_terrain::interp::interpolate_verts;

fn sample(x: i32, y: i32, z: i32, density: i64) -> CornerSample {
    CornerSample { pos: Vec3i { x, y, z }, density }
}

/// The interpolation formula at an exact quarter crossing:
/// `t = (iso - d1) / (d2 - d1) = 1000 / 4000`.
#[test]
fn interpolation_quarter_crossing_is_exact() {
    let v1 = sample(0, 0, 0, 1000);
    let v2 = sample(1, 0, 0, -3000);
    assert_eq!(interpolate_verts(v1, v2), Vec3m { x: 250, y: 0, z: 0 });
}

/// An endpoint already on the iso level is itself the crossing point.
#[test]
fn interpolation_is_exact_at_the_first_endpoint() {
    let v1 = sample(3, 7, 11, 0);
    let v2 = sample(3, 8, 11, -4000);
    assert_eq!(interpolate_verts(v1, v2), Vec3m { x: 3000, y: 7000, z: 11000 });
}

/// Symmetrically for the second endpoint.
#[test]
fn interpolation_is_exact_at_the_second_endpoint() {
    let v1 = sample(3, 7, 11, -4000);
    let v2 = sample(3, 8, 11, 0);
    assert_eq!(interpolate_verts(v1, v2), Vec3m { x: 3000, y: 8000, z: 11000 });
}

/// A zero density delta cannot divide: the crossing is pinned to the
/// first endpoint instead of producing an undefined vertex.
#[test]
fn degenerate_zero_delta_returns_first_endpoint() {
    let v1 = sample(2, 2, 2, 500);
    let v2 = sample(3, 2, 2, 500);
    assert_eq!(interpolate_verts(v1, v2), Vec3m { x: 2000, y: 2000, z: 2000 });
}
