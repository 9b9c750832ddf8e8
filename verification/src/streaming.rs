//! Camera-relative chunk streaming.
//!
//! On every streaming pass, each viewer's world position names a
//! chunk-grid cell, a fixed window of cells around it is enumerated,
//! and every cell of a window that no live chunk occupies is planned
//! for spawning. The plan never names a cell twice and never names an
//! occupied cell, and it covers every missing cell of every window.
use vstd::arithmetic::div_mod::{
    lemma_fundamental_div_mod, lemma_fundamental_div_mod_converse, lemma_mod_bound,
};
use vstd::prelude::*;

use crate::chunk::Vec3m;
use crate::indexing::Vec3i;

verus! {

/// World-units between neighbouring chunk anchors: one voxel less than
/// the axis resolution, so that chunk faces share samples.
pub const CHUNK_STRIDE: i64 = 31;

/// `CHUNK_STRIDE` in mesh-space thousandths.
pub const CHUNK_STRIDE_MILLI: i64 = 31_000;

/// How far the spawn window reaches sideways from a viewer's cell.
pub const WINDOW_RADIUS_XZ: i32 = 5;

/// How far the spawn window reaches below a viewer's cell.
pub const WINDOW_DOWN_Y: i32 = 1;

/// How far the spawn window reaches above a viewer's cell.
pub const WINDOW_UP_Y: i32 = 2;

/// Largest viewer-coordinate magnitude the streaming pass accepts, in
/// mesh-space thousandths.
pub const VIEWER_LIMIT: i64 = 1_000_000_000;

/// The chunk-grid cell that contains a mesh-space point: its
/// coordinates divided by the chunk stride, rounded toward minus
/// infinity.
pub open spec fn grid_cell_of(p: Vec3m) -> Vec3i {
    Vec3i {
        x: (p.x as int / (CHUNK_STRIDE_MILLI as int)) as i32,
        y: (p.y as int / (CHUNK_STRIDE_MILLI as int)) as i32,
        z: (p.z as int / (CHUNK_STRIDE_MILLI as int)) as i32,
    }
}

/// Whether grid cell `c` lies in the spawn window around a viewer's
/// grid cell `g`.
pub open spec fn in_window(c: Vec3i, g: Vec3i) -> bool {
    g.x - WINDOW_RADIUS_XZ <= c.x <= g.x + WINDOW_RADIUS_XZ && g.y - WINDOW_DOWN_Y <= c.y <= g.y
        + WINDOW_UP_Y && g.z - WINDOW_RADIUS_XZ <= c.z <= g.z + WINDOW_RADIUS_XZ
}

/// Some viewer's spawn window reaches grid cell `c`.
pub open spec fn in_some_window(c: Vec3i, viewers: Seq<Vec3m>) -> bool {
    exists|k: int| 0 <= k < viewers.len() && in_window(c, grid_cell_of(viewers[k]))
}

/// A viewer position the streaming pass accepts.
pub open spec fn viewer_in_range(p: Vec3m) -> bool {
    -VIEWER_LIMIT <= p.x <= VIEWER_LIMIT && -VIEWER_LIMIT <= p.y <= VIEWER_LIMIT && -VIEWER_LIMIT
        <= p.z <= VIEWER_LIMIT
}

/// Divides a mesh-space coordinate by the chunk stride, rounding
/// toward minus infinity.
fn floor_div_stride(a: i64) -> (q: i64)
    requires
        -VIEWER_LIMIT <= a <= VIEWER_LIMIT,
    ensures
        q == a as int / (CHUNK_STRIDE_MILLI as int),
        -32_259 <= q <= 32_258,
{
    let shifted: u64 = (a + 31_000_000_000) as u64;
    let qs: u64 = shifted / 31_000;
    let q = (qs as i64) - 1_000_000;
    proof {
        let d = CHUNK_STRIDE_MILLI as int;
        lemma_fundamental_div_mod(a as int, d);
        lemma_mod_bound(a as int, d);
        lemma_fundamental_div_mod_converse(
            a as int + 31_000_000_000,
            d,
            a as int / d + 1_000_000,
            a as int % d,
        );
    }
    q
}

/// The chunk-grid cell containing a viewer's position.
pub fn viewer_grid_cell(p: Vec3m) -> (g: Vec3i)
    requires
        viewer_in_range(p),
    ensures
        g == grid_cell_of(p),
        -32_259 <= g.x <= 32_258,
        -32_259 <= g.y <= 32_258,
        -32_259 <= g.z <= 32_258,
{
    Vec3i {
        x: floor_div_stride(p.x) as i32,
        y: floor_div_stride(p.y) as i32,
        z: floor_div_stride(p.z) as i32,
    }
}

/// The world anchor of the chunk at a grid cell: the cell scaled by
/// the chunk stride.
pub fn anchor_of_cell(c: Vec3i) -> (a: Vec3i)
    requires
        -40_000 <= c.x <= 40_000,
        -40_000 <= c.y <= 40_000,
        -40_000 <= c.z <= 40_000,
    ensures
        a.x == CHUNK_STRIDE * c.x,
        a.y == CHUNK_STRIDE * c.y,
        a.z == CHUNK_STRIDE * c.z,
{
    Vec3i { x: 31 * c.x, y: 31 * c.y, z: 31 * c.z }
}

/// Whether a grid cell occurs in a list of cells.
fn contains_cell(cells: &Vec<Vec3i>, c: Vec3i) -> (r: bool)
    ensures
        r == cells@.contains(c),
{
    let mut i: usize = 0;
    while i < cells.len()
        invariant
            i <= cells@.len(),
            forall|k: int| 0 <= k < i ==> cells@[k] != c,
        decreases cells@.len() - i,
    {
        if cells[i] == c {
            return true;
        }
        i += 1;
    }
    false
}

/// Plans one streaming pass: for every viewer, every cell of the spawn
/// window around the viewer's grid cell that is not already occupied
/// is named exactly once, and nothing else is named.
pub fn plan_spawns(viewers: &Vec<Vec3m>, existing: &Vec<Vec3i>) -> (plan: Vec<Vec3i>)
    requires
        forall|k: int| 0 <= k < viewers@.len() ==> viewer_in_range(#[trigger] viewers@[k]),
    ensures
        forall|i: int, j: int| 0 <= i < j < plan@.len() ==> plan@[i] != plan@[j],
        forall|i: int| 0 <= i < plan@.len() ==> !existing@.contains(#[trigger] plan@[i]),
        forall|i: int| 0 <= i < plan@.len() ==> in_some_window(#[trigger] plan@[i], viewers@),
        forall|c: Vec3i| in_some_window(c, viewers@) && !existing@.contains(c) ==> plan@.contains(
            c,
        ),
{
    let mut plan: Vec<Vec3i> = Vec::new();
    let mut v: usize = 0;
    while v < viewers.len()
        invariant
            forall|k: int| 0 <= k < viewers@.len() ==> viewer_in_range(#[trigger] viewers@[k]),
            v <= viewers@.len(),
            forall|i: int, j: int| 0 <= i < j < plan@.len() ==> plan@[i] != plan@[j],
            forall|i: int| 0 <= i < plan@.len() ==> !existing@.contains(#[trigger] plan@[i]),
            forall|i: int| 0 <= i < plan@.len() ==> in_some_window(#[trigger] plan@[i], viewers@),
            forall|c: Vec3i| (exists|k: int| 0 <= k < v && in_window(
                c,
                grid_cell_of(#[trigger] viewers@[k]),
            )) && !existing@.contains(c) ==> plan@.contains(c),
        decreases viewers@.len() - v,
    {
        let g = viewer_grid_cell(viewers[v]);
        let mut dx: i32 = -WINDOW_RADIUS_XZ;
        while dx <= WINDOW_RADIUS_XZ
            invariant
                forall|k: int| 0 <= k < viewers@.len() ==> viewer_in_range(
                    #[trigger] viewers@[k],
                ),
                v < viewers@.len(),
                g == grid_cell_of(viewers@[v as int]),
                -32_259 <= g.x <= 32_258,
                -32_259 <= g.y <= 32_258,
                -32_259 <= g.z <= 32_258,
                -WINDOW_RADIUS_XZ <= dx <= WINDOW_RADIUS_XZ + 1,
                forall|i: int, j: int| 0 <= i < j < plan@.len() ==> plan@[i] != plan@[j],
                forall|i: int| 0 <= i < plan@.len() ==> !existing@.contains(#[trigger] plan@[i]),
                forall|i: int| 0 <= i < plan@.len() ==> in_some_window(
                    #[trigger] plan@[i],
                    viewers@,
                ),
                forall|c: Vec3i| (exists|k: int| 0 <= k < v && in_window(
                    c,
                    grid_cell_of(#[trigger] viewers@[k]),
                )) && !existing@.contains(c) ==> plan@.contains(c),
                forall|c: Vec3i| in_window(c, g) && c.x - g.x < dx && !existing@.contains(c)
                    ==> plan@.contains(c),
            decreases WINDOW_RADIUS_XZ + 1 - dx,
        {
            let mut dy: i32 = -WINDOW_DOWN_Y;
            while dy <= WINDOW_UP_Y
                invariant
                    forall|k: int| 0 <= k < viewers@.len() ==> viewer_in_range(
                        #[trigger] viewers@[k],
                    ),
                    v < viewers@.len(),
                    g == grid_cell_of(viewers@[v as int]),
                    -32_259 <= g.x <= 32_258,
                    -32_259 <= g.y <= 32_258,
                    -32_259 <= g.z <= 32_258,
                    -WINDOW_RADIUS_XZ <= dx <= WINDOW_RADIUS_XZ,
                    -WINDOW_DOWN_Y <= dy <= WINDOW_UP_Y + 1,
                    forall|i: int, j: int| 0 <= i < j < plan@.len() ==> plan@[i] != plan@[j],
                    forall|i: int| 0 <= i < plan@.len() ==> !existing@.contains(
                        #[trigger] plan@[i],
                    ),
                    forall|i: int| 0 <= i < plan@.len() ==> in_some_window(
                        #[trigger] plan@[i],
                        viewers@,
                    ),
                    forall|c: Vec3i| (exists|k: int| 0 <= k < v && in_window(
                        c,
                        grid_cell_of(#[trigger] viewers@[k]),
                    )) && !existing@.contains(c) ==> plan@.contains(c),
                    forall|c: Vec3i| in_window(c, g) && c.x - g.x < dx && !existing@.contains(c)
                        ==> plan@.contains(c),
                    forall|c: Vec3i| in_window(c, g) && c.x - g.x == dx && c.y - g.y < dy
                        && !existing@.contains(c) ==> plan@.contains(c),
                decreases WINDOW_UP_Y + 1 - dy,
            {
                let mut dz: i32 = -WINDOW_RADIUS_XZ;
                while dz <= WINDOW_RADIUS_XZ
                    invariant
                        forall|k: int| 0 <= k < viewers@.len() ==> viewer_in_range(
                            #[trigger] viewers@[k],
                        ),
                        v < viewers@.len(),
                        g == grid_cell_of(viewers@[v as int]),
                        -32_259 <= g.x <= 32_258,
                        -32_259 <= g.y <= 32_258,
                        -32_259 <= g.z <= 32_258,
                        -WINDOW_RADIUS_XZ <= dx <= WINDOW_RADIUS_XZ,
                        -WINDOW_DOWN_Y <= dy <= WINDOW_UP_Y,
                        -WINDOW_RADIUS_XZ <= dz <= WINDOW_RADIUS_XZ + 1,
                        forall|i: int, j: int| 0 <= i < j < plan@.len() ==> plan@[i] != plan@[j],
                        forall|i: int| 0 <= i < plan@.len() ==> !existing@.contains(
                            #[trigger] plan@[i],
                        ),
                        forall|i: int| 0 <= i < plan@.len() ==> in_some_window(
                            #[trigger] plan@[i],
                            viewers@,
                        ),
                        forall|c: Vec3i| (exists|k: int| 0 <= k < v && in_window(
                            c,
                            grid_cell_of(#[trigger] viewers@[k]),
                        )) && !existing@.contains(c) ==> plan@.contains(c),
                        forall|c: Vec3i| in_window(c, g) && c.x - g.x < dx && !existing@.contains(
                            c,
                        ) ==> plan@.contains(c),
                        forall|c: Vec3i| in_window(c, g) && c.x - g.x == dx && c.y - g.y < dy
                            && !existing@.contains(c) ==> plan@.contains(c),
                        forall|c: Vec3i| in_window(c, g) && c.x - g.x == dx && c.y - g.y == dy
                            && c.z - g.z < dz && !existing@.contains(c) ==> plan@.contains(c),
                    decreases WINDOW_RADIUS_XZ + 1 - dz,
                {
                    let cell = Vec3i { x: g.x + dx, y: g.y + dy, z: g.z + dz };
                    if !contains_cell(existing, cell) && !contains_cell(&plan, cell) {
                        let ghost old_plan = plan@;
                        plan.push(cell);
                        proof {
                            assert(plan@ == old_plan.push(cell));
                            assert(in_window(cell, grid_cell_of(viewers@[v as int])));
                            assert(in_some_window(cell, viewers@));
                            assert forall|c: Vec3i|
                                old_plan.contains(c) implies plan@.contains(c) by {
                                let i = choose|i: int| 0 <= i < old_plan.len() && old_plan[i]
                                    == c;
                                assert(plan@[i] == c);
                            }
                            assert(plan@[plan@.len() - 1] == cell);
                        }
                    }
                    dz += 1;
                }
                dy += 1;
            }
            dx += 1;
        }
        v += 1;
    }
    plan
}

/// How far a chunk may sit outside every spawn window before it is
/// retired: a margin in grid cells beyond the spawn reach.
pub const RETENTION_MARGIN: i32 = 2;

/// Whether grid cell `c` lies in the retention region around a
/// viewer's grid cell `g`: the spawn window grown by the retention
/// margin on every side.
pub open spec fn in_retention(c: Vec3i, g: Vec3i) -> bool {
    g.x - WINDOW_RADIUS_XZ - RETENTION_MARGIN <= c.x <= g.x + WINDOW_RADIUS_XZ + RETENTION_MARGIN
        && g.y - WINDOW_DOWN_Y - RETENTION_MARGIN <= c.y <= g.y + WINDOW_UP_Y + RETENTION_MARGIN
        && g.z - WINDOW_RADIUS_XZ - RETENTION_MARGIN <= c.z <= g.z + WINDOW_RADIUS_XZ
        + RETENTION_MARGIN
}

/// Some viewer's retention region still covers grid cell `c`.
pub open spec fn in_some_retention(c: Vec3i, viewers: Seq<Vec3m>) -> bool {
    exists|k: int| 0 <= k < viewers.len() && in_retention(c, grid_cell_of(viewers[k]))
}

/// Decides whether one live chunk has left every viewer's retention
/// region and should be retired to bound memory.
fn cell_retired(cell: Vec3i, viewers: &Vec<Vec3m>) -> (retired: bool)
    requires
        forall|k: int| 0 <= k < viewers@.len() ==> viewer_in_range(#[trigger] viewers@[k]),
    ensures
        retired == !in_some_retention(cell, viewers@),
{
    let mut k: usize = 0;
    while k < viewers.len()
        invariant
            forall|k2: int| 0 <= k2 < viewers@.len() ==> viewer_in_range(#[trigger] viewers@[k2]),
            k <= viewers@.len(),
            forall|k2: int| 0 <= k2 < k ==> !in_retention(cell, grid_cell_of(#[trigger] viewers@[k2])),
        decreases viewers@.len() - k,
    {
        let g = viewer_grid_cell(viewers[k]);
        let near_x = g.x - WINDOW_RADIUS_XZ - RETENTION_MARGIN <= cell.x && cell.x <= g.x
            + WINDOW_RADIUS_XZ + RETENTION_MARGIN;
        let near_y = g.y - WINDOW_DOWN_Y - RETENTION_MARGIN <= cell.y && cell.y <= g.y
            + WINDOW_UP_Y + RETENTION_MARGIN;
        let near_z = g.z - WINDOW_RADIUS_XZ - RETENTION_MARGIN <= cell.z && cell.z <= g.z
            + WINDOW_RADIUS_XZ + RETENTION_MARGIN;
        if near_x && near_y && near_z {
            proof {
                assert(in_retention(cell, grid_cell_of(viewers@[k as int])));
            }
            return false;
        }
        k += 1;
    }
    true
}

/// Plans the eviction pass that bounds memory: exactly the live cells
/// that no viewer's retention region covers any more are named for
/// retirement, each once.
pub fn plan_evictions(viewers: &Vec<Vec3m>, existing: &Vec<Vec3i>) -> (plan: Vec<Vec3i>)
    requires
        forall|k: int| 0 <= k < viewers@.len() ==> viewer_in_range(#[trigger] viewers@[k]),
        forall|i: int, j: int| 0 <= i < j < existing@.len() ==> existing@[i] != existing@[j],
    ensures
        forall|i: int, j: int| 0 <= i < j < plan@.len() ==> plan@[i] != plan@[j],
        forall|i: int| 0 <= i < plan@.len() ==> existing@.contains(#[trigger] plan@[i])
            && !in_some_retention(plan@[i], viewers@),
        forall|c: Vec3i| existing@.contains(c) && !in_some_retention(c, viewers@)
            ==> plan@.contains(c),
{
    let mut plan: Vec<Vec3i> = Vec::new();
    let mut i: usize = 0;
    while i < existing.len()
        invariant
            forall|k: int| 0 <= k < viewers@.len() ==> viewer_in_range(#[trigger] viewers@[k]),
            forall|i2: int, j2: int| 0 <= i2 < j2 < existing@.len() ==> existing@[i2]
                != existing@[j2],
            i <= existing@.len(),
            forall|i2: int, j2: int| 0 <= i2 < j2 < plan@.len() ==> plan@[i2] != plan@[j2],
            forall|i2: int| 0 <= i2 < plan@.len() ==> (exists|k: int| 0 <= k < i && existing@[k]
                == #[trigger] plan@[i2]) && !in_some_retention(plan@[i2], viewers@),
            forall|k: int| 0 <= k < i && !in_some_retention(#[trigger] existing@[k], viewers@)
                ==> plan@.contains(existing@[k]),
        decreases existing@.len() - i,
    {
        let cell = existing[i];
        proof {
            assert(existing@[i as int] == cell);
            assert(existing@.contains(cell));
        }
        if cell_retired(cell, viewers) {
            let ghost old_plan = plan@;
            proof {
                assert forall|j: int| 0 <= j < old_plan.len() implies old_plan[j] != cell by {
                    let k1 = choose|k1: int| 0 <= k1 < i && existing@[k1] == old_plan[j];
                }
            }
            plan.push(cell);
            proof {
                assert(plan@[plan@.len() - 1] == cell);
                assert forall|i2: int| 0 <= i2 < plan@.len() implies (exists|k: int|
                    0 <= k < i + 1 && existing@[k] == #[trigger] plan@[i2]) && !in_some_retention(
                    plan@[i2],
                    viewers@,
                ) by {
                    if i2 < old_plan.len() {
                        let k1 = choose|k1: int| 0 <= k1 < i && existing@[k1] == old_plan[i2];
                        assert(0 <= k1 < i + 1 && existing@[k1] == plan@[i2]);
                    } else {
                        assert(plan@[i2] == cell && existing@[i as int] == cell);
                    }
                }
                assert forall|k: int|
                    0 <= k < i + 1 && !in_some_retention(
                        #[trigger] existing@[k],
                        viewers@,
                    ) implies plan@.contains(existing@[k]) by {
                    if k < i {
                        let j = choose|j: int|
                            0 <= j < old_plan.len() && old_plan[j] == existing@[k];
                        assert(plan@[j] == existing@[k]);
                    }
                }
            }
        }
        i += 1;
    }
    proof {
        assert forall|i2: int| 0 <= i2 < plan@.len() implies existing@.contains(
            #[trigger] plan@[i2],
        ) by {
            let k1 = choose|k1: int| 0 <= k1 < i && existing@[k1] == plan@[i2];
        }
    }
    plan
}

} // verus!
