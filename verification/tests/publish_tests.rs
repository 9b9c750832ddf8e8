use voxel_terrain::bridge::{ComputeBridge, MeshError};
use voxel_terrain::chunk::{Chunk, Triangle, Vec3m};
use voxel_terrain::indexing::{Vec3i, BUFFER_SIZE};
use voxel_terrain::publish::{build_mesh, flat_normal, publish_mesh, publish_mesh_offload};
use voxel_terrain::scheduler::GenerationScheduler;

fn single_corner_chunk() -> Chunk {
    let mut chunk = Chunk::new_empty();
    chunk.adopt_field(vec![-1000i64; BUFFER_SIZE]);
    chunk.set_point(Vec3i { x: 0, y: 0, z: 0 }, 1000);
    chunk
}

/// The flat normal is the exact cross product of two triangle edges.
#[test]
fn flat_normal_is_the_exact_cross_product() {
    let t = Triangle {
        a: Vec3m { x: 0, y: 0, z: 0 },
        b: Vec3m { x: 1000, y: 0, z: 0 },
        c: Vec3m { x: 0, y: 1000, z: 0 },
    };
    assert_eq!(flat_normal(&t), (0, 0, 1_000_000));
    let skew = Triangle {
        a: Vec3m { x: 100, y: 200, z: 300 },
        b: Vec3m { x: 400, y: 600, z: 800 },
        c: Vec3m { x: -100, y: 50, z: 250 },
    };
    // edges u = (300, 400, 500), v = (-200, -150, -50)
    assert_eq!(flat_normal(&skew), (55_000, -85_000, 35_000));
}

/// The mesh lays the triangle list out vertex for vertex with an
/// identity index buffer, placeholder texture coordinates and one
/// flat normal per vertex.
#[test]
fn mesh_layout_matches_the_triangle_list() {
    let chunk = single_corner_chunk();
    let tris = voxel_terrain::triangulate::triangulate(&chunk);
    let mesh = build_mesh(&tris);
    assert_eq!(mesh.positions.len(), 3 * tris.len());
    assert_eq!(mesh.normals.len(), 3 * tris.len());
    assert_eq!(mesh.uvs.len(), 3 * tris.len());
    assert_eq!(mesh.indices.len(), 3 * tris.len());
    for (i, t) in tris.iter().enumerate() {
        assert_eq!(mesh.positions[3 * i], t.a);
        assert_eq!(mesh.positions[3 * i + 1], t.b);
        assert_eq!(mesh.positions[3 * i + 2], t.c);
        let n = flat_normal(t);
        assert_eq!(mesh.normals[3 * i], n);
        assert_eq!(mesh.normals[3 * i + 1], n);
        assert_eq!(mesh.normals[3 * i + 2], n);
    }
    for (k, ix) in mesh.indices.iter().enumerate() {
        assert_eq!(*ix as usize, k);
    }
    for uv in mesh.uvs.iter() {
        assert_eq!(*uv, (0, 0));
    }
}

/// A dirty chunk is meshed and comes back clean; a clean chunk is
/// skipped.
#[test]
fn publish_meshes_dirty_chunks_and_skips_clean_ones() {
    let mut chunk = single_corner_chunk();
    assert!(chunk.is_dirty_flag());
    let first = publish_mesh(&mut chunk);
    assert!(first.is_some());
    assert_eq!(first.unwrap().positions.len(), 3);
    assert!(!chunk.is_dirty_flag());
    let second = publish_mesh(&mut chunk);
    assert!(second.is_none());
}

/// The offload publisher leaves a chunk dirty when the result buffer
/// cannot hold its surface, so the chunk is retried rather than
/// published truncated.
#[test]
fn offload_publish_keeps_chunk_dirty_on_capacity_error() {
    let mut chunk = single_corner_chunk();
    let too_small = ComputeBridge::new(0);
    let r = publish_mesh_offload(&mut chunk, &too_small);
    assert_eq!(r.unwrap_err(), MeshError::CapacityExceeded);
    assert!(chunk.is_dirty_flag());
    let roomy = ComputeBridge::new(8);
    let ok = publish_mesh_offload(&mut chunk, &roomy);
    assert!(ok.unwrap().is_some());
    assert!(!chunk.is_dirty_flag());
}

/// A cell never carries two generation tasks at once, and adoption
/// hands the field to the chunk and retires the task.
#[test]
fn scheduler_runs_one_task_per_cell_and_adopts_once() {
    let mut sched = GenerationScheduler::new();
    let cell = Vec3i { x: 1, y: 0, z: -2 };
    assert!(sched.begin_generation(cell));
    assert!(!sched.begin_generation(cell), "second task for a busy cell");
    assert!(sched.begin_generation(Vec3i { x: 0, y: 0, z: 0 }));

    let mut chunk = Chunk::new_empty();
    let field = vec![42i64; BUFFER_SIZE];
    assert!(sched.adopt(cell, &mut chunk, field));
    assert!(chunk.is_dirty_flag());
    assert_eq!(chunk.get_point(Vec3i { x: 3, y: 3, z: 3 }), 42);
    // the task is gone: the cell can generate again, but not twice
    assert!(sched.begin_generation(cell));
    assert!(!sched.begin_generation(cell));
}

/// Adoption without an outstanding task is refused and changes
/// nothing.
#[test]
fn adopt_without_task_changes_nothing() {
    let mut sched = GenerationScheduler::new();
    let mut chunk = Chunk::new_empty();
    let field = vec![7i64; BUFFER_SIZE];
    assert!(!sched.adopt(Vec3i { x: 9, y: 9, z: 9 }, &mut chunk, field));
    assert!(!chunk.is_dirty_flag());
    assert_eq!(chunk.get_point(Vec3i { x: 0, y: 0, z: 0 }), -256_000);
}
