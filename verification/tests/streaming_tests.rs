use voxel_terrain::chunk::Vec3m;
use voxel_terrain::indexing::Vec3i;
use voxel_terrain::streaming::{anchor_of_cell, plan_evictions, plan_spawns, viewer_grid_cell};

/// Grid cells round toward minus infinity, one cell per 31 world
/// units.
#[test]
fn viewer_grid_cell_floors_by_the_stride() {
    assert_eq!(viewer_grid_cell(Vec3m { x: 0, y: 0, z: 0 }), Vec3i { x: 0, y: 0, z: 0 });
    assert_eq!(
        viewer_grid_cell(Vec3m { x: 30_999, y: 31_000, z: 61_999 }),
        Vec3i { x: 0, y: 1, z: 1 }
    );
    assert_eq!(
        viewer_grid_cell(Vec3m { x: -1, y: -31_000, z: -31_001 }),
        Vec3i { x: -1, y: -1, z: -2 }
    );
}

#[test]
fn anchor_is_the_cell_scaled_by_the_stride() {
    assert_eq!(
        anchor_of_cell(Vec3i { x: 2, y: -1, z: 0 }),
        Vec3i { x: 62, y: -31, z: 0 }
    );
}

/// One viewer with nothing occupied: the full window of
/// `11 * 4 * 11` cells is planned, each exactly once.
#[test]
fn plan_covers_the_whole_window_once() {
    let viewers = vec![Vec3m { x: 0, y: 0, z: 0 }];
    let existing: Vec<Vec3i> = Vec::new();
    let plan = plan_spawns(&viewers, &existing);
    assert_eq!(plan.len(), 11 * 4 * 11);
    for (i, a) in plan.iter().enumerate() {
        assert!(a.x.abs() <= 5 && a.z.abs() <= 5 && -1 <= a.y && a.y <= 2);
        for b in plan[..i].iter() {
            assert_ne!(a, b, "cell planned twice");
        }
    }
}

/// Occupied cells are never planned again; every other window cell
/// still is.
#[test]
fn plan_skips_occupied_cells() {
    let viewers = vec![Vec3m { x: 0, y: 0, z: 0 }];
    let existing = vec![
        Vec3i { x: 0, y: 0, z: 0 },
        Vec3i { x: 5, y: 2, z: -5 },
        Vec3i { x: 40, y: 0, z: 0 },
    ];
    let plan = plan_spawns(&viewers, &existing);
    assert_eq!(plan.len(), 11 * 4 * 11 - 2);
    for c in plan.iter() {
        assert!(!existing.contains(c), "occupied cell planned: {:?}", c);
    }
}

/// Two viewers with overlapping windows still produce no duplicate:
/// a cell is spawned at most once per pass.
#[test]
fn overlapping_viewers_spawn_each_cell_once() {
    let viewers = vec![
        Vec3m { x: 0, y: 0, z: 0 },
        Vec3m { x: 31_000, y: 0, z: 0 },
    ];
    let existing: Vec<Vec3i> = Vec::new();
    let plan = plan_spawns(&viewers, &existing);
    // windows [-5, 5] and [-4, 6] in x overlap in [-4, 5]: 12 columns
    assert_eq!(plan.len(), 12 * 4 * 11);
    for (i, a) in plan.iter().enumerate() {
        for b in plan[..i].iter() {
            assert_ne!(a, b, "cell planned twice");
        }
    }
}

/// Cells beyond every viewer's retention region — the spawn window
/// grown by the margin — are retired, and only those.
#[test]
fn eviction_retires_only_cells_outside_retention() {
    let viewers = vec![Vec3m { x: 0, y: 0, z: 0 }];
    let existing = vec![
        Vec3i { x: 0, y: 0, z: 0 },    // in the spawn window
        Vec3i { x: 7, y: 0, z: 0 },    // outside the window, inside retention
        Vec3i { x: 8, y: 0, z: 0 },    // just past retention
        Vec3i { x: 0, y: 5, z: 0 },    // above the retention ceiling of y = 4
        Vec3i { x: -7, y: -3, z: 7 },  // at the retention corner
    ];
    let plan = plan_evictions(&viewers, &existing);
    assert_eq!(plan, vec![Vec3i { x: 8, y: 0, z: 0 }, Vec3i { x: 0, y: 5, z: 0 }]);
}

/// A second viewer keeps alive what the first one left behind.
#[test]
fn eviction_respects_every_viewer() {
    let viewers = vec![
        Vec3m { x: 0, y: 0, z: 0 },
        Vec3m { x: 20 * 31_000, y: 0, z: 0 },
    ];
    let existing = vec![
        Vec3i { x: 13, y: 0, z: 0 },  // near the second viewer only
        Vec3i { x: 10, y: 0, z: 0 },  // near neither
    ];
    let plan = plan_evictions(&viewers, &existing);
    assert_eq!(plan, vec![Vec3i { x: 10, y: 0, z: 0 }]);
}
