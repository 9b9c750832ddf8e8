//! Surface-crossing interpolation along a cell edge.
//!
//! The crossing parameter `t` is held in thousandths: `t == 0` is the
//! first endpoint, `t == MILLI` the second. A zero density delta would
//! leave `t` undefined, so that case is pinned to the first endpoint
//! rather than letting a division by zero poison the vertex.
use vstd::math::abs;
use vstd::prelude::*;

use crate::chunk::{CornerSample, Vec3m, DENSITY_LIMIT, ISO_LEVEL, MILLI};
use crate::indexing::{in_cube, Vec3i};

verus! {

/// Crossing parameter of the iso surface between densities `d1` and
/// `d2`, in thousandths, clamped into `[0, MILLI]`; `0` when the delta
/// is zero or the surface does not lie between the endpoints.
pub open spec fn spec_t_milli(d1: int, d2: int) -> int {
    if d1 == d2 {
        0
    } else {
        let num = ISO_LEVEL - d1;
        let den = d2 - d1;
        if num == 0 {
            0
        } else if (num > 0) != (den > 0) {
            0
        } else {
            let q = (abs(num) as int * MILLI) / (abs(den) as int);
            if q > MILLI {
                MILLI as int
            } else {
                q
            }
        }
    }
}

/// One coordinate of the crossing point, in mesh space: the first
/// endpoint moved `t` thousandths of the way to the second.
pub open spec fn spec_interp_coord(p1: int, p2: int, t: int) -> int {
    MILLI * p1 + t * (p2 - p1)
}

/// The mesh-space point where the iso surface crosses the edge from
/// `v1` to `v2`.
pub open spec fn spec_interpolate(v1: CornerSample, v2: CornerSample) -> Vec3m {
    let t = spec_t_milli(v1.density as int, v2.density as int);
    Vec3m {
        x: spec_interp_coord(v1.pos.x as int, v2.pos.x as int, t) as i64,
        y: spec_interp_coord(v1.pos.y as int, v2.pos.y as int, t) as i64,
        z: spec_interp_coord(v1.pos.z as int, v2.pos.z as int, t) as i64,
    }
}

/// A voxel position lifted to mesh space.
pub open spec fn milli_pos(p: Vec3i) -> Vec3m {
    Vec3m { x: (MILLI * p.x) as i64, y: (MILLI * p.y) as i64, z: (MILLI * p.z) as i64 }
}

/// Computes the crossing parameter between two densities.
pub fn t_milli(d1: i64, d2: i64) -> (t: i64)
    requires
        -DENSITY_LIMIT <= d1 <= DENSITY_LIMIT,
        -DENSITY_LIMIT <= d2 <= DENSITY_LIMIT,
    ensures
        t == spec_t_milli(d1 as int, d2 as int),
        0 <= t <= MILLI,
{
    if d1 == d2 {
        return 0;
    }
    let num: i64 = ISO_LEVEL - d1;
    let den: i64 = d2 - d1;
    if num == 0 {
        return 0;
    }
    if (num > 0) != (den > 0) {
        return 0;
    }
    let na: u64 = if num > 0 {
        num as u64
    } else {
        (-num) as u64
    };
    let da: u64 = if den > 0 {
        den as u64
    } else {
        (-den) as u64
    };
    let q: u64 = (na * 1000) / da;
    if q > 1000 {
        1000
    } else {
        q as i64
    }
}

/// One coordinate of the crossing point.
fn interp_coord(p1: i32, p2: i32, t: i64) -> (r: i64)
    requires
        -64 <= p1 <= 64,
        -64 <= p2 <= 64,
        0 <= t <= MILLI,
    ensures
        r == spec_interp_coord(p1 as int, p2 as int, t as int),
{
    let d: i64 = (p2 as i64) - (p1 as i64);
    proof {
        assert(-128000 <= t * d <= 128000) by (nonlinear_arith)
            requires
                0 <= t <= 1000,
                -128 <= d <= 128,
        ;
    }
    (p1 as i64) * 1000 + t * d
}

/// The point where the iso surface crosses the edge between two corner
/// samples, by linear interpolation of their densities.
pub fn interpolate_verts(v1: CornerSample, v2: CornerSample) -> (r: Vec3m)
    requires
        in_cube(v1.pos),
        in_cube(v2.pos),
        -DENSITY_LIMIT <= v1.density <= DENSITY_LIMIT,
        -DENSITY_LIMIT <= v2.density <= DENSITY_LIMIT,
    ensures
        r == spec_interpolate(v1, v2),
{
    let t = t_milli(v1.density, v2.density);
    Vec3m {
        x: interp_coord(v1.pos.x, v2.pos.x, t),
        y: interp_coord(v1.pos.y, v2.pos.y, t),
        z: interp_coord(v1.pos.z, v2.pos.z, t),
    }
}

/// Interpolation is exact at the extremes: an endpoint whose density
/// already sits on the iso level is itself the crossing point.
pub proof fn lemma_interpolation_exact(v1: CornerSample, v2: CornerSample)
    ensures
        v1.density == ISO_LEVEL ==> spec_interpolate(v1, v2) == milli_pos(v1.pos),
        v1.density != ISO_LEVEL && v2.density == ISO_LEVEL ==> spec_interpolate(v1, v2)
            == milli_pos(v2.pos),
{
    if v1.density == ISO_LEVEL {
        assert(spec_t_milli(v1.density as int, v2.density as int) == 0);
    } else if v2.density == ISO_LEVEL {
        let d1 = v1.density as int;
        let num = ISO_LEVEL - d1;
        let den = 0 - d1;
        assert(abs(num) == abs(den) && abs(den) > 0);
        assert((abs(num) as int * MILLI) / (abs(den) as int) == MILLI) by (nonlinear_arith)
            requires
                abs(num) == abs(den),
                abs(den) > 0,
        ;
        assert(spec_t_milli(v1.density as int, v2.density as int) == MILLI);
        assert(spec_interp_coord(v1.pos.x as int, v2.pos.x as int, MILLI as int) == MILLI * (
        v2.pos.x as int));
        assert(spec_interp_coord(v1.pos.y as int, v2.pos.y as int, MILLI as int) == MILLI * (
        v2.pos.y as int));
        assert(spec_interp_coord(v1.pos.z as int, v2.pos.z as int, MILLI as int) == MILLI * (
        v2.pos.z as int));
    }
}


/// The crossing parameter always lies between the endpoints.
pub proof fn lemma_t_milli_range(d1: int, d2: int)
    ensures
        0 <= spec_t_milli(d1, d2) <= MILLI,
{
    if d1 != d2 {
        let num = ISO_LEVEL - d1;
        let den = d2 - d1;
        if num != 0 && ((num > 0) == (den > 0)) {
            assert((abs(num) as int * MILLI) / (abs(den) as int) >= 0) by (nonlinear_arith)
                requires
                    abs(num) as int >= 0,
                    abs(den) as int > 0,
            ;
        }
    }
}

/// A crossing point of an edge whose endpoints lie inside the voxel
/// cube stays within one chunk's mesh-space extent.
pub proof fn lemma_interpolate_bounded(v1: CornerSample, v2: CornerSample)
    requires
        in_cube(v1.pos),
        in_cube(v2.pos),
    ensures
        -64_000 <= spec_interpolate(v1, v2).x <= 64_000,
        -64_000 <= spec_interpolate(v1, v2).y <= 64_000,
        -64_000 <= spec_interpolate(v1, v2).z <= 64_000,
{
    let t = spec_t_milli(v1.density as int, v2.density as int);
    lemma_t_milli_range(v1.density as int, v2.density as int);
    assert forall|p1: int, p2: int|
        0 <= p1 < 32 && 0 <= p2 < 32 implies -64_000 <= #[trigger] spec_interp_coord(p1, p2, t)
        <= 64_000 by {
        assert(-32_000 <= t * (p2 - p1) <= 32_000) by (nonlinear_arith)
            requires
                0 <= t <= 1000,
                -32 <= p2 - p1 <= 32,
        ;
    }
}

} // verus!
