//! The chunk: one dense cube of density samples plus a dirty flag.
//!
//! Densities are fixed-point integers: `DENSITY_ONE` units stand for a
//! density of one. A sample on or above `ISO_LEVEL` counts as solid,
//! below it as air. Vertex positions produced by meshing are in
//! thousandths of a voxel (`MILLI` units per voxel edge).
use vstd::prelude::*;

use crate::indexing::{in_cube, index_of, to_index, Vec3i, AXIS_SIZE, BUFFER_SIZE};

verus! {

/// The density threshold that defines the surface.
pub const ISO_LEVEL: i64 = 0;

/// Fixed-point scale of density samples: this many units are a density
/// of one.
pub const DENSITY_ONE: i64 = 256000;

/// The sentinel that a freshly created chunk is filled with: a density
/// of minus one, entirely air.
pub const EMPTY_DENSITY: i64 = -256000;

/// Largest magnitude a density sample may have; keeps every
/// interpolation and signature computation inside `i64`.
pub const DENSITY_LIMIT: i64 = 1_000_000_000_000;

/// Fixed-point scale of mesh positions: this many units are one voxel
/// edge.
pub const MILLI: i64 = 1000;

/// A mesh-space position, in `MILLI` units per voxel edge.
#[derive(Clone, Copy, Debug, PartialEq, Eq, Structural)]
pub struct Vec3m {
    pub x: i64,
    pub y: i64,
    pub z: i64,
}

/// One corner of a cell: its voxel position and the density sampled
/// there.
#[derive(Clone, Copy, Debug, PartialEq, Eq, Structural)]
pub struct CornerSample {
    pub pos: Vec3i,
    pub density: i64,
}

/// One surface triangle in mesh space.
#[derive(Clone, Copy, Debug, PartialEq, Eq, Structural)]
pub struct Triangle {
    pub a: Vec3m,
    pub b: Vec3m,
    pub c: Vec3m,
}

/// Marks a chunk whose field changed since its mesh was last built.
#[derive(Clone, Copy, Debug, PartialEq, Eq, Structural)]
pub struct DirtyChunk;

/// The offset of cell corner `j` from the cell's anchor voxel, for the
/// fixed corner numbering of the triangulation tables.
pub open spec fn corner_offset(j: int) -> Vec3i {
    if j == 0 {
        Vec3i { x: 0, y: 0, z: 0 }
    } else if j == 1 {
        Vec3i { x: 1, y: 0, z: 0 }
    } else if j == 2 {
        Vec3i { x: 1, y: 0, z: 1 }
    } else if j == 3 {
        Vec3i { x: 0, y: 0, z: 1 }
    } else if j == 4 {
        Vec3i { x: 0, y: 1, z: 0 }
    } else if j == 5 {
        Vec3i { x: 1, y: 1, z: 0 }
    } else if j == 6 {
        Vec3i { x: 1, y: 1, z: 1 }
    } else {
        Vec3i { x: 0, y: 1, z: 1 }
    }
}

/// The voxel position of cell corner `j` of the cell anchored at
/// `start`.
pub open spec fn corner_pos(start: Vec3i, j: int) -> Vec3i {
    Vec3i {
        x: (start.x + corner_offset(j).x) as i32,
        y: (start.y + corner_offset(j).y) as i32,
        z: (start.z + corner_offset(j).z) as i32,
    }
}

/// The cell anchored at this voxel has all eight corners inside the
/// chunk: the anchor stays one voxel short of each upper face.
pub open spec fn cell_in_cube(v: Vec3i) -> bool {
    0 <= v.x < AXIS_SIZE - 1 && 0 <= v.y < AXIS_SIZE - 1 && 0 <= v.z < AXIS_SIZE - 1
}

/// The eight corner positions of the unit cell anchored at `start`, in
/// table corner order.
pub fn gen_cube(start: Vec3i) -> (r: [Vec3i; 8])
    requires
        cell_in_cube(start),
    ensures
        forall|j: int| 0 <= j < 8 ==> r@[j] == corner_pos(start, j),
{
    [
        Vec3i { x: start.x, y: start.y, z: start.z },
        Vec3i { x: start.x + 1, y: start.y, z: start.z },
        Vec3i { x: start.x + 1, y: start.y, z: start.z + 1 },
        Vec3i { x: start.x, y: start.y, z: start.z + 1 },
        Vec3i { x: start.x, y: start.y + 1, z: start.z },
        Vec3i { x: start.x + 1, y: start.y + 1, z: start.z },
        Vec3i { x: start.x + 1, y: start.y + 1, z: start.z + 1 },
        Vec3i { x: start.x, y: start.y + 1, z: start.z + 1 },
    ]
}

/// Every sample of the field is within the magnitude limit.
pub open spec fn field_bounded(points: Seq<i64>) -> bool {
    forall|i: int| 0 <= i < points.len() ==> -DENSITY_LIMIT <= #[trigger] points[i]
        <= DENSITY_LIMIT
}

/// One dense cube of density samples and a dirty flag; the unit of
/// generation, meshing and streaming.
#[derive(Clone, Debug)]
pub struct Chunk {
    points: Vec<i64>,
    dirty: bool,
}

/// The density of the corner `j` of the cell anchored at `cell`, read
/// from a field in flat index order.
pub open spec fn corner_density(points: Seq<i64>, cell: Vec3i, j: int) -> i64 {
    points[index_of(corner_pos(cell, j))]
}

/// The full sample of corner `j` of the cell anchored at `cell`.
pub open spec fn cell_corner_sample(points: Seq<i64>, cell: Vec3i, j: int) -> CornerSample {
    CornerSample { pos: corner_pos(cell, j), density: corner_density(points, cell, j) }
}

impl Chunk {
    /// The density samples, in flat index order.
    pub closed spec fn densities(&self) -> Seq<i64> {
        self.points@
    }

    /// Whether the field changed since the mesh was last rebuilt.
    pub closed spec fn is_dirty(&self) -> bool {
        self.dirty
    }

    /// Well-formed: one sample per voxel, all within the density limit.
    pub open spec fn wf(&self) -> bool {
        self.densities().len() == BUFFER_SIZE && field_bounded(self.densities())
    }

    /// Reads the dirty flag.
    pub fn is_dirty_flag(&self) -> (r: bool)
        ensures
            r == self.is_dirty(),
    {
        self.dirty
    }

    /// A chunk with every sample at the air sentinel and a clean flag.
    pub fn new_empty() -> (c: Chunk)
        ensures
            c.wf(),
            !c.is_dirty(),
            c.densities() =~= Seq::new(BUFFER_SIZE as nat, |i: int| EMPTY_DENSITY),
    {
        let mut points: Vec<i64> = Vec::new();
        let mut i: usize = 0;
        while i < BUFFER_SIZE
            invariant
                i <= BUFFER_SIZE,
                points@.len() == i,
                forall|k: int| 0 <= k < i ==> points@[k] == EMPTY_DENSITY,
            decreases BUFFER_SIZE - i,
        {
            points.push(EMPTY_DENSITY);
            i += 1;
        }
        Chunk { points, dirty: false }
    }

    /// Reads the sample at one local voxel coordinate.
    pub fn get_point(&self, pos: Vec3i) -> (d: i64)
        requires
            self.wf(),
            in_cube(pos),
        ensures
            d == self.densities()[index_of(pos)],
    {
        let i = to_index(pos);
        self.points[i]
    }

    /// The eight corner samples of the cell anchored at `pos`.
    pub fn get_cube(&self, pos: Vec3i) -> (r: [CornerSample; 8])
        requires
            self.wf(),
            cell_in_cube(pos),
        ensures
            forall|j: int| 0 <= j < 8 ==> r@[j] == cell_corner_sample(self.densities(), pos, j),
    {
        let cube = gen_cube(pos);
        let mut r = [CornerSample { pos, density: 0i64 }; 8];
        let mut j: usize = 0;
        while j < 8
            invariant
                j <= 8,
                self.wf(),
                cell_in_cube(pos),
                forall|k: int| 0 <= k < 8 ==> cube@[k] == corner_pos(pos, k),
                forall|k: int| 0 <= k < j ==> r@[k] == cell_corner_sample(
                    self.densities(),
                    pos,
                    k,
                ),
            decreases 8 - j,
        {
            let cp = cube[j];
            proof {
                assert(0 <= corner_offset(j as int).x <= 1 && 0 <= corner_offset(j as int).y <= 1
                    && 0 <= corner_offset(j as int).z <= 1);
                assert(cp == corner_pos(pos, j as int));
                assert(in_cube(cp));
            }
            let d = self.get_point(cp);
            r[j] = CornerSample { pos: cp, density: d };
            j += 1;
        }
        r
    }

    /// Overwrites one sample and marks the chunk dirty.
    pub fn set_point(&mut self, pos: Vec3i, value: i64)
        requires
            old(self).wf(),
            in_cube(pos),
            -DENSITY_LIMIT <= value <= DENSITY_LIMIT,
        ensures
            final(self).wf(),
            final(self).densities() =~= old(self).densities().update(index_of(pos), value),
            final(self).is_dirty(),
    {
        let i = to_index(pos);
        self.points[i] = value;
        self.dirty = true;
    }

    /// Adopts a completed density field, marking the chunk dirty; the
    /// hand-over step of background generation.
    pub fn adopt_field(&mut self, field: Vec<i64>)
        requires
            field@.len() == BUFFER_SIZE,
            field_bounded(field@),
        ensures
            final(self).wf(),
            final(self).densities() == field@,
            final(self).is_dirty(),
    {
        self.points = field;
        self.dirty = true;
    }

    /// Clears the dirty flag once a fresh mesh has been published.
    pub fn mark_clean(&mut self)
        ensures
            final(self).densities() == old(self).densities(),
            !final(self).is_dirty(),
    {
        self.dirty = false;
    }
}

} // verus!
