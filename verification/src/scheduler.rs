//! Background generation bookkeeping.
//!
//! Field generation runs off the main loop: a task is begun for a
//! chunk's grid cell at most once at a time, and a completed field is
//! adopted into the live chunk during a later non-blocking poll. This
//! module is the decision half of that protocol — which cells have an
//! outstanding task, whether one may be begun, and the adoption step —
//! while the caller runs the actual workers.
use vstd::prelude::*;

use crate::chunk::{field_bounded, Chunk};
use crate::indexing::{Vec3i, BUFFER_SIZE};

verus! {

/// Tracks which chunk-grid cells have an outstanding generation task.
pub struct GenerationScheduler {
    pending: Vec<Vec3i>,
}

impl GenerationScheduler {
    /// The cells with an outstanding generation task.
    pub closed spec fn pending(&self) -> Seq<Vec3i> {
        self.pending@
    }

    /// Well-formed: no cell has two outstanding tasks.
    pub open spec fn wf(&self) -> bool {
        forall|i: int, j: int| 0 <= i < j < self.pending().len() ==> self.pending()[i]
            != self.pending()[j]
    }

    /// A scheduler with no outstanding tasks.
    pub fn new() -> (s: GenerationScheduler)
        ensures
            s.wf(),
            s.pending().len() == 0,
    {
        GenerationScheduler { pending: Vec::new() }
    }

    /// Whether the cell has an outstanding generation task.
    pub fn is_pending(&self, cell: Vec3i) -> (r: bool)
        ensures
            r == self.pending().contains(cell),
    {
        let mut i: usize = 0;
        while i < self.pending.len()
            invariant
                i <= self.pending().len(),
                forall|k: int| 0 <= k < i ==> self.pending()[k] != cell,
            decreases self.pending().len() - i,
        {
            if self.pending[i] == cell {
                return true;
            }
            i += 1;
        }
        false
    }

    /// Registers a generation task for a cell, unless one is already
    /// outstanding: a cell never has two tasks at a time.
    pub fn begin_generation(&mut self, cell: Vec3i) -> (started: bool)
        requires
            old(self).wf(),
        ensures
            final(self).wf(),
            started == !old(self).pending().contains(cell),
            started ==> final(self).pending() == old(self).pending().push(cell),
            !started ==> final(self).pending() == old(self).pending(),
            final(self).pending().contains(cell),
    {
        if self.is_pending(cell) {
            proof {
                assert(self.pending().contains(cell));
            }
            false
        } else {
            let ghost old_pending = self.pending();
            self.pending.push(cell);
            proof {
                assert(self.pending()[self.pending().len() - 1] == cell);
                assert(self.pending().contains(cell));
            }
            true
        }
    }

    /// Adopts a completed field into its chunk — the chunk takes the
    /// samples and turns dirty — and discards the task.
    pub fn adopt(&mut self, cell: Vec3i, chunk: &mut Chunk, field: Vec<i64>) -> (adopted: bool)
        requires
            old(self).wf(),
            field@.len() == BUFFER_SIZE,
            field_bounded(field@),
        ensures
            final(self).wf(),
            adopted == old(self).pending().contains(cell),
            !final(self).pending().contains(cell),
            forall|c: Vec3i| c != cell ==> final(self).pending().contains(c) == old(
                self,
            ).pending().contains(c),
            adopted ==> final(chunk).wf() && final(chunk).is_dirty() && final(chunk).densities()
                == field@,
            !adopted ==> *final(chunk) == *old(chunk),
    {
        let was_pending = self.is_pending(cell);
        if !was_pending {
            return false;
        }
        let ghost old_pending = self.pending();
        let mut kept: Vec<Vec3i> = Vec::new();
        let mut i: usize = 0;
        while i < self.pending.len()
            invariant
                i <= old_pending.len(),
                self.pending() == old_pending,
                forall|k: int| 0 <= k < kept@.len() ==> #[trigger] kept@[k] != cell
                    && old_pending.contains(kept@[k]),
                forall|k: int| 0 <= k < i && old_pending[k] != cell ==> kept@.contains(
                    #[trigger] old_pending[k],
                ),
                forall|i2: int, j2: int| 0 <= i2 < j2 < kept@.len() ==> kept@[i2] != kept@[j2],
            decreases old_pending.len() - i,
        {
            let c = self.pending[i];
            if !(c == cell) {
                proof {
                    assert(old_pending[i as int] == c);
                    assert(old_pending.contains(c));
                }
                if !contains_in(&kept, c) {
                    let ghost old_kept = kept@;
                    kept.push(c);
                    proof {
                        assert(kept@[kept@.len() - 1] == c);
                        assert forall|k: int|
                            0 <= k < i + 1 && old_pending[k] != cell implies kept@.contains(
                            #[trigger] old_pending[k],
                        ) by {
                            if k < i {
                                let k1 = choose|k1: int|
                                    0 <= k1 < old_kept.len() && old_kept[k1] == old_pending[k];
                                assert(kept@[k1] == old_pending[k]);
                            }
                        }
                    }
                }
            }
            i += 1;
        }
        proof {
            assert(!kept@.contains(cell)) by {
                if kept@.contains(cell) {
                    let k = choose|k: int| 0 <= k < kept@.len() && kept@[k] == cell;
                }
            }
            assert forall|c: Vec3i| c != cell implies kept@.contains(c) == old_pending.contains(
                c,
            ) by {
                if kept@.contains(c) {
                    let k = choose|k: int| 0 <= k < kept@.len() && kept@[k] == c;
                    assert(old_pending.contains(kept@[k]));
                }
                if old_pending.contains(c) {
                    let k = choose|k: int| 0 <= k < old_pending.len() && old_pending[k] == c;
                    assert(kept@.contains(old_pending[k]));
                }
            }
        }
        self.pending = kept;
        chunk.adopt_field(field);
        true
    }
}

/// Whether a cell occurs in a list.
fn contains_in(cells: &Vec<Vec3i>, c: Vec3i) -> (r: bool)
    ensures
        r == cells@.contains(c),
{
    let mut i: usize = 0;
    while i < cells.len()
        invariant
            i <= cells@.len(),
            forall|k: int| 0 <= k < i ==> cells@[k] != c,
        decreases cells@.len() - i,
    {
        if cells[i] == c {
            return true;
        }
        i += 1;
    }
    false
}

} // verus!
