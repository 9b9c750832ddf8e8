//! Mesh building and publishing.
//!
//! Once per tick, every chunk whose field changed since its last mesh
//! is re-triangulated and its displayed geometry replaced; clean
//! chunks are skipped, the system's only throttle against redundant
//! re-meshing. The mesh is a plain triangle list: three vertices per
//! triangle, an identity index buffer, one flat normal per vertex and
//! placeholder texture coordinates.
use vstd::prelude::*;

use crate::bridge::{ComputeBridge, MeshError};
use crate::chunk::{Chunk, Triangle, Vec3m};
use crate::triangulate::{
    lemma_triangulate_bounded, lemma_triangulate_len_bound, spec_triangulate, tri_bounded,
    triangulate, tris_bounded,
};

verus! {

/// Largest vertex-coordinate magnitude that mesh building accepts;
/// keeps every cross product inside `i64`.
pub const MESH_COORD_LIMIT: i64 = 1_000_000_000;

/// The flat normal of a triangle: the cross product of two of its
/// edges, unnormalised.
pub open spec fn spec_flat_normal(t: Triangle) -> (int, int, int) {
    let ux = t.b.x - t.a.x;
    let uy = t.b.y - t.a.y;
    let uz = t.b.z - t.a.z;
    let vx = t.c.x - t.a.x;
    let vy = t.c.y - t.a.y;
    let vz = t.c.z - t.a.z;
    (uy * vz - uz * vy, uz * vx - ux * vz, ux * vy - uy * vx)
}

/// Computes a triangle's flat normal: the cross product of its edge
/// from `a` to `b` with its edge from `a` to `c`.
pub fn flat_normal(t: &Triangle) -> (n: (i64, i64, i64))
    requires
        tri_bounded(*t, MESH_COORD_LIMIT as int),
    ensures
        (n.0 as int, n.1 as int, n.2 as int) == spec_flat_normal(*t),
{
    let ux = t.b.x - t.a.x;
    let uy = t.b.y - t.a.y;
    let uz = t.b.z - t.a.z;
    let vx = t.c.x - t.a.x;
    let vy = t.c.y - t.a.y;
    let vz = t.c.z - t.a.z;
    proof {
        assert forall|p: i64, q: i64|
            -2_000_000_000 <= p <= 2_000_000_000 && -2_000_000_000 <= q
                <= 2_000_000_000 implies -4_000_000_000_000_000_000 <= #[trigger] (p as int
            * q as int) <= 4_000_000_000_000_000_000 by {
            assert(-4_000_000_000_000_000_000 <= p as int * q as int <= 4_000_000_000_000_000_000)
                by (nonlinear_arith)
                requires
                    -2_000_000_000 <= p <= 2_000_000_000,
                    -2_000_000_000 <= q <= 2_000_000_000,
            ;
        }
    }
    (uy * vz - uz * vy, uz * vx - ux * vz, ux * vy - uy * vx)
}

/// A triangle list laid out for display: per-vertex positions, flat
/// normals and placeholder texture coordinates, with an identity index
/// buffer.
#[derive(Debug)]
pub struct MeshData {
    pub positions: Vec<Vec3m>,
    pub normals: Vec<(i64, i64, i64)>,
    pub uvs: Vec<(i64, i64)>,
    pub indices: Vec<u32>,
}

/// The mesh is exactly the triangle list, vertex for vertex: three
/// positions per triangle in order, the triangle's flat normal at each
/// of its vertices, zero texture coordinates, and indices that count
/// the vertices through.
pub open spec fn mesh_matches(m: MeshData, tris: Seq<Triangle>) -> bool {
    &&& m.positions@.len() == 3 * tris.len()
    &&& m.normals@.len() == 3 * tris.len()
    &&& m.uvs@.len() == 3 * tris.len()
    &&& m.indices@.len() == 3 * tris.len()
    &&& forall|i: int| 0 <= i < tris.len() ==> m.positions@[3 * i] == (#[trigger] tris[i]).a
        && m.positions@[3 * i + 1] == tris[i].b && m.positions@[3 * i + 2] == tris[i].c
    &&& forall|i: int| 0 <= i < tris.len() ==> {
        let n = spec_flat_normal(#[trigger] tris[i]);
        &&& (m.normals@[3 * i].0 as int, m.normals@[3 * i].1 as int, m.normals@[3 * i].2 as int)
            == n
        &&& (
        m.normals@[3 * i + 1].0 as int,
        m.normals@[3 * i + 1].1 as int,
        m.normals@[3 * i + 1].2 as int,
        ) == n
        &&& (
        m.normals@[3 * i + 2].0 as int,
        m.normals@[3 * i + 2].1 as int,
        m.normals@[3 * i + 2].2 as int,
        ) == n
    }
    &&& forall|k: int| 0 <= k < m.uvs@.len() ==> #[trigger] m.uvs@[k] == (0i64, 0i64)
    &&& forall|k: int| 0 <= k < m.indices@.len() ==> #[trigger] m.indices@[k] == k as u32
}

/// Lays a triangle list out for display.
pub fn build_mesh(tris: &Vec<Triangle>) -> (m: MeshData)
    requires
        tris_bounded(tris@, MESH_COORD_LIMIT as int),
        3 * tris@.len() < 0x1_0000_0000,
    ensures
        mesh_matches(m, tris@),
{
    let mut positions: Vec<Vec3m> = Vec::new();
    let mut normals: Vec<(i64, i64, i64)> = Vec::new();
    let mut uvs: Vec<(i64, i64)> = Vec::new();
    let mut indices: Vec<u32> = Vec::new();
    let mut i: usize = 0;
    while i < tris.len()
        invariant
            i <= tris@.len(),
            tris_bounded(tris@, MESH_COORD_LIMIT as int),
            3 * tris@.len() < 0x1_0000_0000,
            positions@.len() == 3 * i,
            normals@.len() == 3 * i,
            uvs@.len() == 3 * i,
            indices@.len() == 3 * i,
            forall|k: int| 0 <= k < i ==> positions@[3 * k] == (#[trigger] tris@[k]).a
                && positions@[3 * k + 1] == tris@[k].b && positions@[3 * k + 2] == tris@[k].c,
            forall|k: int| 0 <= k < i ==> {
                let n = spec_flat_normal(#[trigger] tris@[k]);
                &&& (
                normals@[3 * k].0 as int,
                normals@[3 * k].1 as int,
                normals@[3 * k].2 as int,
                ) == n
                &&& (
                normals@[3 * k + 1].0 as int,
                normals@[3 * k + 1].1 as int,
                normals@[3 * k + 1].2 as int,
                ) == n
                &&& (
                normals@[3 * k + 2].0 as int,
                normals@[3 * k + 2].1 as int,
                normals@[3 * k + 2].2 as int,
                ) == n
            },
            forall|k: int| 0 <= k < uvs@.len() ==> #[trigger] uvs@[k] == (0i64, 0i64),
            forall|k: int| 0 <= k < indices@.len() ==> #[trigger] indices@[k] == k as u32,
        decreases tris@.len() - i,
    {
        let t = tris[i];
        let n = flat_normal(&t);
        positions.push(t.a);
        positions.push(t.b);
        positions.push(t.c);
        normals.push(n);
        normals.push(n);
        normals.push(n);
        uvs.push((0, 0));
        uvs.push((0, 0));
        uvs.push((0, 0));
        indices.push((3 * i) as u32);
        indices.push((3 * i + 1) as u32);
        indices.push((3 * i + 2) as u32);
        i += 1;
    }
    MeshData { positions, normals, uvs, indices }
}

/// Re-meshes one chunk if its field changed: a dirty chunk is
/// triangulated by the CPU strategy, its flag cleared, and the new
/// geometry returned to replace the displayed mesh; a clean chunk is
/// skipped.
pub fn publish_mesh(chunk: &mut Chunk) -> (r: Option<MeshData>)
    requires
        old(chunk).wf(),
    ensures
        final(chunk).wf(),
        final(chunk).densities() == old(chunk).densities(),
        !final(chunk).is_dirty(),
        old(chunk).is_dirty() ==> r is Some && mesh_matches(
            r->Some_0,
            spec_triangulate(old(chunk).densities()),
        ),
        !old(chunk).is_dirty() ==> r is None,
{
    if !chunk.is_dirty_flag() {
        return None;
    }
    let tris = triangulate(chunk);
    proof {
        lemma_triangulate_bounded(chunk.densities());
        lemma_triangulate_len_bound(chunk.densities());
    }
    let m = build_mesh(&tris);
    chunk.mark_clean();
    Some(m)
}

/// Re-meshes one chunk through the compute-offload bridge. A capacity
/// failure leaves the chunk dirty and its field untouched, so the
/// chunk is skipped this tick and retried later; it never publishes a
/// truncated mesh.
pub fn publish_mesh_offload(chunk: &mut Chunk, bridge: &ComputeBridge) -> (r: Result<
    Option<MeshData>,
    MeshError,
>)
    requires
        old(chunk).wf(),
    ensures
        final(chunk).wf(),
        final(chunk).densities() == old(chunk).densities(),
        match r {
            Ok(m) => !final(chunk).is_dirty() && (old(chunk).is_dirty() ==> m is Some
                && mesh_matches(m->Some_0, spec_triangulate(old(chunk).densities()))) && (!old(
                chunk,
            ).is_dirty() ==> m is None),
            Err(e) => e == MeshError::CapacityExceeded && final(chunk).is_dirty()
                && spec_triangulate(old(chunk).densities()).len() > bridge.capacity(),
        },
{
    if !chunk.is_dirty_flag() {
        return Ok(None);
    }
    match bridge.dispatch(chunk) {
        Ok(tris) => {
            proof {
                lemma_triangulate_bounded(chunk.densities());
                lemma_triangulate_len_bound(chunk.densities());
            }
            let m = build_mesh(&tris);
            chunk.mark_clean();
            Ok(Some(m))
        },
        Err(e) => Err(e),
    }
}

} // verus!
