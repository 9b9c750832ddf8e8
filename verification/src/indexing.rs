//! Bit-packed addressing of voxels inside a chunk.
//!
//! A chunk is a cube of `AXIS_SIZE` voxels per axis, with `AXIS_SIZE` a
//! power of two so that the three coordinates pack into disjoint bit
//! fields of one flat index: `index = x | y << Y_SHIFT | z << Z_SHIFT`.
use vstd::prelude::*;

verus! {

/// Voxels per axis of a chunk; a power of two so the mask/shift
/// decomposition of the flat index is exact.
pub const AXIS_SIZE: usize = 32;

/// Number of voxels in a chunk: `AXIS_SIZE` cubed.
pub const BUFFER_SIZE: usize = AXIS_SIZE * AXIS_SIZE * AXIS_SIZE;

/// Bit positions and masks of the three packed coordinate fields.
pub const X_SHIFT: usize = 0;
pub const Z_SHIFT: usize = 5;
pub const Y_SHIFT: usize = 10;

pub const X_MASK: usize = 0x001F;
pub const Z_MASK: usize = 0x03E0;
pub const Y_MASK: usize = 0x7C00;

/// An integer voxel coordinate, local to a chunk or in chunk-grid units.
#[derive(Clone, Copy, Debug, PartialEq, Eq, Structural)]
pub struct Vec3i {
    pub x: i32,
    pub y: i32,
    pub z: i32,
}

/// The coordinate lies inside the chunk's voxel cube.
pub open spec fn in_cube(v: Vec3i) -> bool {
    0 <= v.x < AXIS_SIZE && 0 <= v.y < AXIS_SIZE && 0 <= v.z < AXIS_SIZE
}

/// Mathematical form of the packed index: the bit fields are disjoint,
/// so the pack is plain place-value arithmetic.
pub open spec fn index_of(v: Vec3i) -> int {
    v.x + (AXIS_SIZE * AXIS_SIZE) * v.y + AXIS_SIZE * v.z
}

/// Packs a local voxel coordinate into its flat storage offset.
pub fn to_index(local: Vec3i) -> (r: usize)
    requires
        in_cube(local),
    ensures
        r == index_of(local),
        r < BUFFER_SIZE,
{
    let x = local.x as usize;
    let y = local.y as usize;
    let z = local.z as usize;
    let r = x << X_SHIFT | y << Y_SHIFT | z << Z_SHIFT;
    proof {
        assert(x < 32 && y < 32 && z < 32 ==> (x << 0 | y << 10 | z << 5) == x + 1024 * y + 32 * z
            < 32768) by (bit_vector);
    }
    r
}

/// Unpacks a flat storage offset back into the voxel coordinate.
pub fn from_index(index: usize) -> (r: Vec3i)
    requires
        index < BUFFER_SIZE,
    ensures
        in_cube(r),
        index_of(r) == index,
        r == coord_of(index as int),
{
    let r = Vec3i {
        x: ((index & X_MASK) >> X_SHIFT) as i32,
        y: ((index & Y_MASK) >> Y_SHIFT) as i32,
        z: ((index & Z_MASK) >> Z_SHIFT) as i32,
    };
    proof {
        let i = index;
        assert(i < 32768 ==> ((i & 0x001F) >> 0) < 32 && ((i & 0x7C00) >> 10) < 32 && ((i & 0x03E0)
            >> 5) < 32 && ((i & 0x001F) >> 0) + 1024 * ((i & 0x7C00) >> 10) + 32 * ((i & 0x03E0)
            >> 5) == i) by (bit_vector);
        lemma_encode_decode(index as int);
        lemma_encode_injective(r, coord_of(index as int));
    }
    r
}

/// The coordinate that a flat storage offset decodes to.
pub open spec fn coord_of(index: int) -> Vec3i {
    Vec3i {
        x: (index % (AXIS_SIZE as int)) as i32,
        y: (index / ((AXIS_SIZE * AXIS_SIZE) as int)) as i32,
        z: ((index / (AXIS_SIZE as int)) % (AXIS_SIZE as int)) as i32,
    }
}

/// Decoding is a total inverse of encoding over the voxel cube.
pub proof fn lemma_decode_encode(a: Vec3i)
    requires
        in_cube(a),
    ensures
        coord_of(index_of(a)) == a,
{
    let i = index_of(a);
    assert(i % 32 == a.x && i / 1024 == a.y && (i / 32) % 32 == a.z) by (nonlinear_arith)
        requires
            i == a.x + 1024 * a.y + 32 * a.z,
            0 <= a.x < 32,
            0 <= a.y < 32,
            0 <= a.z < 32,
    ;
}

/// Every valid flat offset decodes to a coordinate of the voxel cube
/// that encodes back to it.
pub proof fn lemma_encode_decode(index: int)
    requires
        0 <= index < BUFFER_SIZE,
    ensures
        in_cube(coord_of(index)),
        index_of(coord_of(index)) == index,
{
    assert(0 <= index % 32 < 32 && 0 <= index / 1024 < 32 && 0 <= (index / 32) % 32 < 32 && index
        % 32 + 1024 * (index / 1024) + 32 * ((index / 32) % 32) == index) by (nonlinear_arith)
        requires
            0 <= index < 32768,
    ;
}

/// No two distinct coordinates of the voxel cube pack to the same index.
pub proof fn lemma_encode_injective(a: Vec3i, b: Vec3i)
    requires
        in_cube(a),
        in_cube(b),
        index_of(a) == index_of(b),
    ensures
        a == b,
{
    assert(a.x == b.x && a.y == b.y && a.z == b.z) by (nonlinear_arith)
        requires
            a.x + 1024 * a.y + 32 * a.z == b.x + 1024 * b.y + 32 * b.z,
            0 <= a.x < 32,
            0 <= a.y < 32,
            0 <= a.z < 32,
            0 <= b.x < 32,
            0 <= b.y < 32,
            0 <= b.z < 32,
    ;
}

} // verus!
