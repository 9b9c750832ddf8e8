//! The compute-offload strategy: per-cell dispatch into a bounded
//! result buffer.
//!
//! The bridge owns a result buffer of fixed triangle capacity and a
//! running counter of triangles written. Every cell of the dispatch
//! grid is planned independently; a plan that would overrun the buffer
//! fails with a capacity error rather than truncating, and a caller
//! reads back only the counted prefix. The dispatch is proved to
//! return exactly the CPU strategy's triangle list whenever it fits.
use vstd::prelude::*;
use vstd::seq_lib::*;

use crate::chunk::{Chunk, Triangle};
use crate::indexing::{from_index, Vec3i, AXIS_SIZE, BUFFER_SIZE};
use crate::triangulate::{
    cell_contrib, march_cell, lemma_tris_upto_monotone, spec_offload_triangles, spec_triangulate,
    tris_upto,
};

verus! {

/// Meshing failures that a caller must handle.
#[derive(Clone, Copy, Debug, PartialEq, Eq, Structural)]
pub enum MeshError {
    /// The triangle output would overrun the bridge's result buffer.
    CapacityExceeded,
}

/// Runs the triangulation of one chunk's field on a parallel dispatch
/// grid, behind a synchronous-looking call.
pub struct ComputeBridge {
    capacity: usize,
}

impl ComputeBridge {
    /// How many triangles the result buffer can hold.
    pub closed spec fn capacity(&self) -> int {
        self.capacity as int
    }

    /// A bridge whose result buffer holds `capacity` triangles.
    pub fn new(capacity: usize) -> (b: ComputeBridge)
        ensures
            b.capacity() == capacity,
    {
        ComputeBridge { capacity }
    }

    /// A bridge sized with four triangles of room per voxel of the
    /// grid.
    pub fn with_default_capacity() -> (b: ComputeBridge)
        ensures
            b.capacity() == 4 * BUFFER_SIZE,
    {
        ComputeBridge { capacity: 4 * BUFFER_SIZE }
    }

    /// Triangulates a chunk's field cell by dispatch cell. Returns the
    /// full triangle list when it fits the result buffer, and the
    /// capacity error — never a truncated list — when it does not.
    pub fn dispatch(&self, chunk: &Chunk) -> (r: Result<Vec<Triangle>, MeshError>)
        requires
            chunk.wf(),
        ensures
            match r {
                Ok(tris) => tris@ == spec_triangulate(chunk.densities()) && tris@.len()
                    <= self.capacity(),
                Err(e) => e == MeshError::CapacityExceeded && spec_triangulate(
                    chunk.densities(),
                ).len() > self.capacity(),
            },
    {
        let ghost points = chunk.densities();
        let mut out: Vec<Triangle> = Vec::new();
        let mut i: usize = 0;
        while i < BUFFER_SIZE
            invariant
                chunk.wf(),
                points == chunk.densities(),
                i <= BUFFER_SIZE,
                out@ == tris_upto(points, i as int),
                out@.len() <= self.capacity,
            decreases BUFFER_SIZE - i,
        {
            let pos = from_index(i);
            let bound = (AXIS_SIZE as i32) - 1;
            if pos.x < bound && pos.y < bound && pos.z < bound {
                let mut tris = march_cell(chunk, pos);
                if tris.len() > self.capacity - out.len() {
                    proof {
                        assert(tris_upto(points, i as int + 1).len() > self.capacity());
                        lemma_tris_upto_monotone(points, i as int + 1, BUFFER_SIZE as int);
                    }
                    return Err(MeshError::CapacityExceeded);
                }
                out.append(&mut tris);
                proof {
                    assert(out@ =~= tris_upto(points, i as int + 1));
                }
            } else {
                proof {
                    assert(cell_contrib(points, i as int) == Seq::<Triangle>::empty());
                    assert(out@ =~= tris_upto(points, i as int + 1));
                }
            }
            i += 1;
        }
        Ok(out)
    }
}

/// The two execution strategies agree: the per-cell plans of the
/// offload dispatch, flattened in grid order, are exactly the CPU
/// strategy's sequential triangle list.
pub proof fn lemma_offload_matches_cpu(points: Seq<i64>)
    ensures
        spec_offload_triangles(points) == spec_triangulate(points),
{
    lemma_offload_prefix(points, BUFFER_SIZE as int);
}

proof fn lemma_offload_prefix(points: Seq<i64>, n: int)
    requires
        0 <= n <= BUFFER_SIZE,
    ensures
        Seq::new(n as nat, |i: int| cell_contrib(points, i)).flatten() == tris_upto(points, n),
    decreases n,
{
    let f = |i: int| cell_contrib(points, i);
    if n == 0 {
        assert(Seq::new(0, f).flatten() =~= tris_upto(points, 0));
    } else {
        lemma_offload_prefix(points, n - 1);
        let prev = Seq::new((n - 1) as nat, f);
        assert(Seq::new(n as nat, f) =~= prev.push(f(n - 1)));
        prev.lemma_flatten_push(f(n - 1));
        assert(Seq::new(n as nat, f).flatten() =~= tris_upto(points, n));
    }
}

} // verus!
