use voxel_terrain::indexing::{from_index, to_index, Vec3i, AXIS_SIZE, BUFFER_SIZE};

#[test]
fn encode_matches_bit_layout() {
    assert_eq!(to_index(Vec3i { x: 0, y: 0, z: 0 }), 0);
    assert_eq!(to_index(Vec3i { x: 1, y: 0, z: 0 }), 1);
    assert_eq!(to_index(Vec3i { x: 0, y: 0, z: 1 }), 32);
    assert_eq!(to_index(Vec3i { x: 0, y: 1, z: 0 }), 1024);
    assert_eq!(to_index(Vec3i { x: 5, y: 3, z: 7 }), 5 + 3 * 1024 + 7 * 32);
    assert_eq!(to_index(Vec3i { x: 31, y: 31, z: 31 }), BUFFER_SIZE - 1);
}

#[test]
fn decode_inverts_encode_over_the_cube() {
    for x in 0..AXIS_SIZE as i32 {
        for y in 0..AXIS_SIZE as i32 {
            for z in 0..AXIS_SIZE as i32 {
                let v = Vec3i { x, y, z };
                let i = to_index(v);
                assert!(i < BUFFER_SIZE);
                assert_eq!(from_index(i), v);
            }
        }
    }
}

#[test]
fn encode_is_injective_over_the_cube() {
    let mut seen = vec![false; BUFFER_SIZE];
    for x in 0..AXIS_SIZE as i32 {
        for y in 0..AXIS_SIZE as i32 {
            for z in 0..AXIS_SIZE as i32 {
                let i = to_index(Vec3i { x, y, z });
                assert!(!seen[i], "two coordinates packed to offset {}", i);
                seen[i] = true;
            }
        }
    }
}
