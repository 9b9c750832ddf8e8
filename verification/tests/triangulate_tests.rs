use voxel_terrain::bridge::{ComputeBridge, MeshError};
use voxel_terrain::chunk::{Chunk, Triangle, Vec3m};
use voxel_terrain::indexing::{to_index, Vec3i, BUFFER_SIZE};
use voxel_terrain::triangulate::{march_cell, triangulate};

fn uniform_chunk(density: i64) -> Chunk {
    let mut chunk = Chunk::new_empty();
    chunk.adopt_field(vec![density; BUFFER_SIZE]);
    chunk
}

/// A field uniformly below the iso level has no surface.
#[test]
fn uniform_outside_field_triangulates_to_nothing() {
    let chunk = uniform_chunk(-2000);
    assert_eq!(triangulate(&chunk).len(), 0);
    let bridge = ComputeBridge::with_default_capacity();
    assert_eq!(bridge.dispatch(&chunk).unwrap().len(), 0);
}

/// A field uniformly on or above the iso level has no surface either.
#[test]
fn uniform_inside_field_triangulates_to_nothing() {
    let chunk = uniform_chunk(2000);
    assert_eq!(triangulate(&chunk).len(), 0);
    let bridge = ComputeBridge::with_default_capacity();
    assert_eq!(bridge.dispatch(&chunk).unwrap().len(), 0);
}

/// An empty chunk's sentinel field is uniformly air.
#[test]
fn new_empty_chunk_has_no_surface() {
    let chunk = Chunk::new_empty();
    assert!(!chunk.is_dirty_flag());
    assert_eq!(triangulate(&chunk).len(), 0);
}

fn single_corner_chunk() -> Chunk {
    let mut chunk = uniform_chunk(-1000);
    chunk.set_point(Vec3i { x: 0, y: 0, z: 0 }, 1000);
    chunk
}

fn vertices_of(t: &Triangle) -> [Vec3m; 3] {
    [t.a, t.b, t.c]
}

/// One solid corner against seven air corners: one triangle, with a
/// vertex on each of the three edges meeting at that corner, each
/// crossing at the halfway point.
#[test]
fn single_solid_corner_gives_one_triangle_on_its_edges() {
    let chunk = single_corner_chunk();
    let tris = triangulate(&chunk);
    assert_eq!(tris.len(), 1);
    let verts = vertices_of(&tris[0]);
    let expected = [
        Vec3m { x: 500, y: 0, z: 0 },
        Vec3m { x: 0, y: 500, z: 0 },
        Vec3m { x: 0, y: 0, z: 500 },
    ];
    for e in expected.iter() {
        assert!(verts.contains(e), "missing crossing point {:?}", e);
    }
    for v in verts.iter() {
        assert!(expected.contains(v), "unexpected vertex {:?}", v);
    }
}

/// The mirrored case: one air corner against seven solid corners.
#[test]
fn single_air_corner_gives_one_triangle_on_its_edges() {
    let mut chunk = uniform_chunk(1000);
    chunk.set_point(Vec3i { x: 0, y: 0, z: 0 }, -1000);
    let tris = triangulate(&chunk);
    assert_eq!(tris.len(), 1);
    let verts = vertices_of(&tris[0]);
    let expected = [
        Vec3m { x: 500, y: 0, z: 0 },
        Vec3m { x: 0, y: 500, z: 0 },
        Vec3m { x: 0, y: 0, z: 500 },
    ];
    for e in expected.iter() {
        assert!(verts.contains(e), "missing crossing point {:?}", e);
    }
}

/// A lone corner deep inside the chunk touches eight cells but only
/// the one-corner case rows of each fire.
#[test]
fn march_cell_reads_only_its_own_cell() {
    let mut chunk = uniform_chunk(-1000);
    chunk.set_point(Vec3i { x: 10, y: 10, z: 10 }, 1000);
    let far = march_cell(&chunk, Vec3i { x: 0, y: 0, z: 0 });
    assert_eq!(far.len(), 0);
    let near = march_cell(&chunk, Vec3i { x: 10, y: 10, z: 10 });
    assert_eq!(near.len(), 1);
}

/// Both execution strategies return the same triangle list, here on an
/// irregular checkered field.
#[test]
fn cpu_and_offload_paths_agree() {
    let mut chunk = Chunk::new_empty();
    let mut field = vec![0i64; BUFFER_SIZE];
    for x in 0..32i32 {
        for y in 0..32i32 {
            for z in 0..32i32 {
                let i = to_index(Vec3i { x, y, z });
                let wave = (x * 37 + y * 53 + z * 71) % 13 - 6;
                field[i] = (wave as i64) * 500 - (y as i64 - 16) * 700;
            }
        }
    }
    chunk.adopt_field(field);
    let cpu = triangulate(&chunk);
    let bridge = ComputeBridge::with_default_capacity();
    let offload = bridge.dispatch(&chunk).unwrap();
    assert!(cpu.len() > 0);
    assert_eq!(cpu.len(), offload.len());
    for (a, b) in cpu.iter().zip(offload.iter()) {
        assert_eq!(a, b);
    }
}

/// The offload bridge refuses to truncate: a result buffer too small
/// for the surface fails with the capacity error and nothing else.
#[test]
fn offload_capacity_overflow_is_an_error() {
    let chunk = single_corner_chunk();
    let tight = ComputeBridge::new(1);
    assert_eq!(tight.dispatch(&chunk).unwrap().len(), 1);
    let too_small = ComputeBridge::new(0);
    assert_eq!(too_small.dispatch(&chunk).unwrap_err(), MeshError::CapacityExceeded);
}

/// A flat field solid below `y = 8` and air from there up meshes into
/// one horizontal slab of triangles, all in the crossing plane halfway
/// between the last solid and the first air sample, identically on
/// both strategies.
#[test]
fn flat_field_meshes_to_a_single_horizontal_slab() {
    let mut chunk = Chunk::new_empty();
    let mut field = vec![0i64; BUFFER_SIZE];
    for x in 0..32i32 {
        for y in 0..32i32 {
            for z in 0..32i32 {
                let i = to_index(Vec3i { x, y, z });
                field[i] = if y < 8 { 1000 } else { -1000 };
            }
        }
    }
    chunk.adopt_field(field);
    let cpu = triangulate(&chunk);
    // two triangles per cell of the 31 x 31 crossing layer
    assert_eq!(cpu.len(), 2 * 31 * 31);
    for t in cpu.iter() {
        for v in vertices_of(t).iter() {
            assert_eq!(v.y, 7500, "vertex off the slab plane: {:?}", v);
        }
    }
    let bridge = ComputeBridge::with_default_capacity();
    let offload = bridge.dispatch(&chunk).unwrap();
    assert_eq!(cpu.len(), offload.len());
    for (a, b) in cpu.iter().zip(offload.iter()) {
        assert_eq!(a, b);
    }
}
