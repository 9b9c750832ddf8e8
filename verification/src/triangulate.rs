//! Table-driven marching-cubes surface extraction.
//!
//! Cell by cell, for every voxel whose cell fits inside the chunk, the
//! eight corner densities are classified against `ISO_LEVEL` into an
//! 8-bit signature; the triangulation table row for that signature
//! lists the cell edges crossed by the surface, three per triangle, and
//! each crossing point is found by linear interpolation. Two execution
//! strategies exist: a sequential CPU scan, and a capacity-bounded
//! offload dispatch that plans every cell independently; both are
//! proved to emit the same triangle list.
use vstd::prelude::*;
use vstd::seq_lib::*;

use crate::chunk::{
    cell_corner_sample, cell_in_cube, corner_density, corner_offset, corner_pos, field_bounded,
    Chunk, CornerSample, Triangle, Vec3m, ISO_LEVEL,
};
use crate::indexing::{coord_of, from_index, index_of, Vec3i, AXIS_SIZE, BUFFER_SIZE};
use crate::interp::{interpolate_verts, lemma_interpolate_bounded, spec_interpolate};
use crate::tables::{
    lemma_corner_tables_in_range, lemma_lone_corner_rows, spec_tri_row, tri_row,
    CORNER_INDEX_AFROM_EDGE, CORNER_INDEX_BFROM_EDGE,
};

verus! {

/// The 8-bit corner signature of a cell: bit `b` set when corner `b`'s
/// density is on or above the iso level.
pub open spec fn signature(points: Seq<i64>, cell: Vec3i) -> int {
    (if corner_density(points, cell, 0) >= ISO_LEVEL {
        1int
    } else {
        0int
    }) + (if corner_density(points, cell, 1) >= ISO_LEVEL {
        2int
    } else {
        0int
    }) + (if corner_density(points, cell, 2) >= ISO_LEVEL {
        4int
    } else {
        0int
    }) + (if corner_density(points, cell, 3) >= ISO_LEVEL {
        8int
    } else {
        0int
    }) + (if corner_density(points, cell, 4) >= ISO_LEVEL {
        16int
    } else {
        0int
    }) + (if corner_density(points, cell, 5) >= ISO_LEVEL {
        32int
    } else {
        0int
    }) + (if corner_density(points, cell, 6) >= ISO_LEVEL {
        64int
    } else {
        0int
    }) + (if corner_density(points, cell, 7) >= ISO_LEVEL {
        128int
    } else {
        0int
    })
}

/// The point where the surface crosses cell edge `e`: the interpolation
/// of the edge's two endpoint corner samples. Opaque: proofs that need
/// the interpolation itself reveal it.
#[verifier::opaque]
pub open spec fn edge_vertex(points: Seq<i64>, cell: Vec3i, e: int) -> Vec3m {
    spec_interpolate(
        cell_corner_sample(points, cell, CORNER_INDEX_AFROM_EDGE@[e] as int),
        cell_corner_sample(points, cell, CORNER_INDEX_BFROM_EDGE@[e] as int),
    )
}

/// The triangles of one table row from entry `j` on: triples of edge
/// crossings until the `-1` terminator (or any entry outside the edge
/// range) is met.
pub open spec fn row_tris(points: Seq<i64>, cell: Vec3i, row: [i8; 16], j: int) -> Seq<Triangle>
    decreases 16 - j,
{
    if !(0 <= j && j + 2 < 16) {
        Seq::empty()
    } else {
        let e0 = row[j] as int;
        let e1 = row[j + 1] as int;
        let e2 = row[j + 2] as int;
        if !(0 <= e0 < 12 && 0 <= e1 < 12 && 0 <= e2 < 12) {
            Seq::empty()
        } else {
            seq![
                Triangle {
                    a: edge_vertex(points, cell, e0),
                    b: edge_vertex(points, cell, e1),
                    c: edge_vertex(points, cell, e2),
                },
            ] + row_tris(points, cell, row, j + 3)
        }
    }
}

/// The triangles of one cell: nothing when every corner is below the
/// iso level, otherwise the table row of its signature walked from the
/// start.
pub open spec fn cell_tris(points: Seq<i64>, cell: Vec3i) -> Seq<Triangle> {
    let sig = signature(points, cell);
    if sig == 0 {
        Seq::empty()
    } else {
        row_tris(points, cell, spec_tri_row(sig), 0)
    }
}

/// What the cell at flat offset `i` contributes: its triangles when the
/// whole cell fits inside the chunk, nothing on the upper boundary
/// faces.
pub open spec fn cell_contrib(points: Seq<i64>, i: int) -> Seq<Triangle> {
    if cell_in_cube(coord_of(i)) {
        cell_tris(points, coord_of(i))
    } else {
        Seq::empty()
    }
}

/// The triangles of the first `n` cells, in flat index order.
pub open spec fn tris_upto(points: Seq<i64>, n: int) -> Seq<Triangle>
    decreases n,
{
    if n <= 0 {
        Seq::empty()
    } else {
        tris_upto(points, n - 1) + cell_contrib(points, n - 1)
    }
}

/// The full triangle list of a chunk's field: every interior cell's
/// triangles, in flat index order.
pub open spec fn spec_triangulate(points: Seq<i64>) -> Seq<Triangle> {
    tris_upto(points, BUFFER_SIZE as int)
}

/// The offload strategy's result: one independent triangle plan per
/// cell of the dispatch grid, flattened in grid order.
pub open spec fn spec_offload_triangles(points: Seq<i64>) -> Seq<Triangle> {
    Seq::new(BUFFER_SIZE as nat, |i: int| cell_contrib(points, i)).flatten()
}


/// Builds the crossing vertex of one cell edge from the gathered
/// corner samples.
fn emit_edge_vertex(
    corners: &[CornerSample; 8],
    e: i8,
    Ghost(points): Ghost<Seq<i64>>,
    Ghost(pos): Ghost<Vec3i>,
) -> (v: Vec3m)
    requires
        0 <= e < 12,
        points.len() == BUFFER_SIZE,
        field_bounded(points),
        cell_in_cube(pos),
        forall|k: int| 0 <= k < 8 ==> corners@[k] == cell_corner_sample(points, pos, k),
    ensures
        v == edge_vertex(points, pos, e as int),
{
    proof {
        reveal(edge_vertex);
        lemma_corner_tables_in_range();
    }
    let a = CORNER_INDEX_AFROM_EDGE[e as usize] as usize;
    let b = CORNER_INDEX_BFROM_EDGE[e as usize] as usize;
    proof {
        assert(0 <= corner_offset(a as int).x <= 1 && 0 <= corner_offset(a as int).y <= 1 && 0
            <= corner_offset(a as int).z <= 1);
        assert(0 <= corner_offset(b as int).x <= 1 && 0 <= corner_offset(b as int).y <= 1 && 0
            <= corner_offset(b as int).z <= 1);
        assert(0 <= index_of(corner_pos(pos, a as int)) < points.len());
        assert(0 <= index_of(corner_pos(pos, b as int)) < points.len());
    }
    interpolate_verts(corners[a], corners[b])
}

/// Runs marching cubes on a single cell.
pub fn march_cell(chunk: &Chunk, pos: Vec3i) -> (r: Vec<Triangle>)
    requires
        chunk.wf(),
        cell_in_cube(pos),
    ensures
        r@ == cell_tris(chunk.densities(), pos),
{
    let corners = chunk.get_cube(pos);
    let s0: usize = if corners[0].density >= ISO_LEVEL {
        1
    } else {
        0
    };
    let s1: usize = if corners[1].density >= ISO_LEVEL {
        2
    } else {
        0
    };
    let s2: usize = if corners[2].density >= ISO_LEVEL {
        4
    } else {
        0
    };
    let s3: usize = if corners[3].density >= ISO_LEVEL {
        8
    } else {
        0
    };
    let s4: usize = if corners[4].density >= ISO_LEVEL {
        16
    } else {
        0
    };
    let s5: usize = if corners[5].density >= ISO_LEVEL {
        32
    } else {
        0
    };
    let s6: usize = if corners[6].density >= ISO_LEVEL {
        64
    } else {
        0
    };
    let s7: usize = if corners[7].density >= ISO_LEVEL {
        128
    } else {
        0
    };
    let sig: usize = s0 + s1 + s2 + s3 + s4 + s5 + s6 + s7;
    proof {
        assert(sig == signature(chunk.densities(), pos));
    }
    let mut out: Vec<Triangle> = Vec::new();
    if sig == 0 {
        return out;
    }
    let row = tri_row(sig);
    let ghost points = chunk.densities();
    let mut j: usize = 0;
    let mut stop: bool = false;
    while !stop && j + 2 < 16
        invariant
            chunk.wf(),
            cell_in_cube(pos),
            points == chunk.densities(),
            row == spec_tri_row(sig as int),
            0 < sig < 256,
            j <= 15,
            j % 3 == 0,
            forall|k: int| 0 <= k < 8 ==> corners@[k] == cell_corner_sample(points, pos, k),
            out@ + row_tris(points, pos, row, j as int) == row_tris(points, pos, row, 0),
            stop ==> row_tris(points, pos, row, j as int) == Seq::<Triangle>::empty(),
        decreases 16 - j, (if stop { 0int } else { 1int }),
    {
        let e0 = row[j];
        let e1 = row[j + 1];
        let e2 = row[j + 2];
        if e0 < 0 || e0 >= 12 || e1 < 0 || e1 >= 12 || e2 < 0 || e2 >= 12 {
            proof {
                assert(row_tris(points, pos, row, j as int) == Seq::<Triangle>::empty());
            }
            stop = true;
        } else {
            let tri = Triangle {
                a: emit_edge_vertex(&corners, e0, Ghost(points), Ghost(pos)),
                b: emit_edge_vertex(&corners, e1, Ghost(points), Ghost(pos)),
                c: emit_edge_vertex(&corners, e2, Ghost(points), Ghost(pos)),
            };
            proof {
                assert(row_tris(points, pos, row, j as int) == seq![tri] + row_tris(
                    points,
                    pos,
                    row,
                    j as int + 3,
                ));
            }
            let ghost old_out = out@;
            out.push(tri);
            proof {
                assert(out@ + row_tris(points, pos, row, j as int + 3) =~= old_out + (seq![tri]
                    + row_tris(points, pos, row, j as int + 3)));
            }
            j += 3;
        }
    }
    proof {
        if !stop {
            assert(j == 15);
            assert(row_tris(points, pos, row, 15) == Seq::<Triangle>::empty());
        }
        assert(out@ =~= out@ + row_tris(points, pos, row, j as int));
    }
    out
}

/// Extracts the surface of a chunk's field by a sequential scan of
/// every cell: the CPU strategy.
pub fn triangulate(chunk: &Chunk) -> (r: Vec<Triangle>)
    requires
        chunk.wf(),
    ensures
        r@ == spec_triangulate(chunk.densities()),
{
    let ghost points = chunk.densities();
    let mut out: Vec<Triangle> = Vec::new();
    let mut i: usize = 0;
    while i < BUFFER_SIZE
        invariant
            chunk.wf(),
            points == chunk.densities(),
            i <= BUFFER_SIZE,
            out@ == tris_upto(points, i as int),
        decreases BUFFER_SIZE - i,
    {
        let pos = from_index(i);
        let bound = (AXIS_SIZE as i32) - 1;
        if pos.x < bound && pos.y < bound && pos.z < bound {
            let mut tris = march_cell(chunk, pos);
            let ghost old_out = out@;
            out.append(&mut tris);
            proof {
                assert(out@ =~= tris_upto(points, i as int + 1));
            }
        } else {
            proof {
                assert(cell_contrib(points, i as int) == Seq::<Triangle>::empty());
                assert(out@ =~= tris_upto(points, i as int + 1));
            }
        }
        i += 1;
    }
    out
}

/// A longer scan never loses triangles: the list of the first `n` cells
/// is a prefix of the list of the first `m`.
pub proof fn lemma_tris_upto_monotone(points: Seq<i64>, n: int, m: int)
    requires
        0 <= n <= m,
    ensures
        tris_upto(points, n).len() <= tris_upto(points, m).len(),
    decreases m - n,
{
    if n < m {
        lemma_tris_upto_monotone(points, n, m - 1);
    }
}



/// A mesh-space point within `lim` units of the origin on every axis.
pub open spec fn vec3m_bounded(p: Vec3m, lim: int) -> bool {
    -lim <= p.x <= lim && -lim <= p.y <= lim && -lim <= p.z <= lim
}

/// A triangle whose three vertices are within `lim` of the origin.
pub open spec fn tri_bounded(t: Triangle, lim: int) -> bool {
    vec3m_bounded(t.a, lim) && vec3m_bounded(t.b, lim) && vec3m_bounded(t.c, lim)
}

/// Every triangle of the list is within `lim` of the origin.
pub open spec fn tris_bounded(ts: Seq<Triangle>, lim: int) -> bool {
    forall|i: int| 0 <= i < ts.len() ==> tri_bounded(#[trigger] ts[i], lim)
}

proof fn lemma_row_tris_len(points: Seq<i64>, cell: Vec3i, row: [i8; 16], j: int)
    requires
        0 <= j,
    ensures
        3 * row_tris(points, cell, row, j).len() <= 16 - j || row_tris(
            points,
            cell,
            row,
            j,
        ).len() == 0,
    decreases 16 - j,
{
    if 0 <= j && j + 2 < 16 {
        lemma_row_tris_len(points, cell, row, j + 3);
    }
}

proof fn lemma_cell_tris_len(points: Seq<i64>, cell: Vec3i)
    ensures
        cell_tris(points, cell).len() <= 5,
{
    let sig = signature(points, cell);
    if sig != 0 {
        lemma_row_tris_len(points, cell, spec_tri_row(sig), 0);
    }
}

proof fn lemma_tris_upto_len(points: Seq<i64>, n: int)
    requires
        0 <= n,
    ensures
        tris_upto(points, n).len() <= 5 * n,
    decreases n,
{
    if n > 0 {
        lemma_tris_upto_len(points, n - 1);
        if cell_in_cube(coord_of(n - 1)) {
            lemma_cell_tris_len(points, coord_of(n - 1));
        }
    }
}

/// The surface of one chunk holds at most five triangles per cell.
pub proof fn lemma_triangulate_len_bound(points: Seq<i64>)
    ensures
        spec_triangulate(points).len() <= 5 * BUFFER_SIZE,
{
    lemma_tris_upto_len(points, BUFFER_SIZE as int);
}

proof fn lemma_edge_vertex_bounded(points: Seq<i64>, cell: Vec3i, e: int)
    requires
        cell_in_cube(cell),
        0 <= e < 12,
    ensures
        vec3m_bounded(edge_vertex(points, cell, e), 64_000),
{
    reveal(edge_vertex);
    lemma_corner_tables_in_range();
    let a = CORNER_INDEX_AFROM_EDGE@[e] as int;
    let b = CORNER_INDEX_BFROM_EDGE@[e] as int;
    assert(0 <= corner_offset(a).x <= 1 && 0 <= corner_offset(a).y <= 1 && 0 <= corner_offset(
        a,
    ).z <= 1);
    assert(0 <= corner_offset(b).x <= 1 && 0 <= corner_offset(b).y <= 1 && 0 <= corner_offset(
        b,
    ).z <= 1);
    lemma_interpolate_bounded(
        cell_corner_sample(points, cell, a),
        cell_corner_sample(points, cell, b),
    );
}

proof fn lemma_row_tris_bounded(points: Seq<i64>, cell: Vec3i, row: [i8; 16], j: int)
    requires
        cell_in_cube(cell),
        0 <= j,
    ensures
        tris_bounded(row_tris(points, cell, row, j), 64_000),
    decreases 16 - j,
{
    if 0 <= j && j + 2 < 16 {
        let e0 = row[j] as int;
        let e1 = row[j + 1] as int;
        let e2 = row[j + 2] as int;
        if 0 <= e0 < 12 && 0 <= e1 < 12 && 0 <= e2 < 12 {
            lemma_edge_vertex_bounded(points, cell, e0);
            lemma_edge_vertex_bounded(points, cell, e1);
            lemma_edge_vertex_bounded(points, cell, e2);
            lemma_row_tris_bounded(points, cell, row, j + 3);
            let rest = row_tris(points, cell, row, j + 3);
            let whole = row_tris(points, cell, row, j);
            assert forall|i: int| 0 <= i < whole.len() implies tri_bounded(
                #[trigger] whole[i],
                64_000,
            ) by {
                if i > 0 {
                    assert(whole[i] == rest[i - 1]);
                }
            }
        }
    }
}

proof fn lemma_upto_bounded(points: Seq<i64>, n: int)
    requires
        0 <= n,
    ensures
        tris_bounded(tris_upto(points, n), 64_000),
    decreases n,
{
    if n > 0 {
        lemma_upto_bounded(points, n - 1);
        let prev = tris_upto(points, n - 1);
        let added = cell_contrib(points, n - 1);
        if cell_in_cube(coord_of(n - 1)) {
            let sig = signature(points, coord_of(n - 1));
            if sig != 0 {
                lemma_row_tris_bounded(points, coord_of(n - 1), spec_tri_row(sig), 0);
            }
        }
        let whole = tris_upto(points, n);
        assert forall|i: int| 0 <= i < whole.len() implies tri_bounded(
            #[trigger] whole[i],
            64_000,
        ) by {
            if i < prev.len() {
                assert(whole[i] == prev[i]);
            } else {
                assert(whole[i] == added[i - prev.len()]);
            }
        }
    }
}

/// Every vertex a chunk's surface can produce stays within one chunk's
/// mesh-space extent.
pub proof fn lemma_triangulate_bounded(points: Seq<i64>)
    ensures
        tris_bounded(spec_triangulate(points), 64_000),
{
    lemma_upto_bounded(points, BUFFER_SIZE as int);
}


/// The power of two that corner `b` contributes to a signature.
pub open spec fn corner_bit(b: int) -> int {
    if b == 0 {
        1
    } else if b == 1 {
        2
    } else if b == 2 {
        4
    } else if b == 3 {
        8
    } else if b == 4 {
        16
    } else if b == 5 {
        32
    } else if b == 6 {
        64
    } else {
        128
    }
}

/// Edge `e` of a cell has corner `b` as one of its two endpoints.
pub open spec fn edge_touches(e: int, b: int) -> bool {
    CORNER_INDEX_AFROM_EDGE@[e] == b || CORNER_INDEX_BFROM_EDGE@[e] == b
}

/// One of the triangle's vertices is the crossing point of edge `e`.
pub open spec fn tri_has_vertex_on(t: Triangle, points: Seq<i64>, cell: Vec3i, e: int) -> bool {
    t.a == edge_vertex(points, cell, e) || t.b == edge_vertex(points, cell, e) || t.c
        == edge_vertex(points, cell, e)
}

/// Every vertex of the triangle is the crossing point of some edge
/// meeting corner `b`.
pub open spec fn tri_vertices_at_corner(t: Triangle, points: Seq<i64>, cell: Vec3i, b: int) -> bool {
    (exists|e: int| 0 <= e < 12 && edge_touches(e, b) && t.a == edge_vertex(points, cell, e))
        && (exists|e: int| 0 <= e < 12 && edge_touches(e, b) && t.b == edge_vertex(
        points,
        cell,
        e,
    )) && (exists|e: int| 0 <= e < 12 && edge_touches(e, b) && t.c == edge_vertex(points, cell, e))
}

proof fn lemma_row_single_triangle(
    points: Seq<i64>,
    cell: Vec3i,
    row: [i8; 16],
    b: int,
    ea: int,
    eb: int,
    ec: int,
)
    requires
        0 <= ea < 12,
        0 <= eb < 12,
        0 <= ec < 12,
        row[0int] == ea as i8,
        row[1int] == eb as i8,
        row[2int] == ec as i8,
        row[3int] == -1i8,
        edge_touches(ea, b),
        edge_touches(eb, b),
        edge_touches(ec, b),
        forall|e: int| 0 <= e < 12 && edge_touches(e, b) ==> e == ea || e == eb || e == ec,
    ensures
        row_tris(points, cell, row, 0).len() == 1,
        forall|e: int| 0 <= e < 12 && edge_touches(e, b) ==> tri_has_vertex_on(
            row_tris(points, cell, row, 0)[0],
            points,
            cell,
            e,
        ),
        tri_vertices_at_corner(row_tris(points, cell, row, 0)[0], points, cell, b),
{
    assert(row_tris(points, cell, row, 3) =~= Seq::<Triangle>::empty());
    let t = row_tris(points, cell, row, 0)[0];
    assert(t.a == edge_vertex(points, cell, ea) && t.b == edge_vertex(points, cell, eb) && t.c
        == edge_vertex(points, cell, ec));
    assert(tri_vertices_at_corner(t, points, cell, b)) by {
        assert(0 <= ea < 12 && edge_touches(ea, b) && t.a == edge_vertex(points, cell, ea));
        assert(0 <= eb < 12 && edge_touches(eb, b) && t.b == edge_vertex(points, cell, eb));
        assert(0 <= ec < 12 && edge_touches(ec, b) && t.c == edge_vertex(points, cell, ec));
    }
}

/// A cell with exactly one corner on one side of the iso level and
/// the other seven on the other side triangulates to exactly one
/// triangle, and that triangle's three vertices lie on the three
/// edges that meet at the lone corner — every such edge carries one
/// of them.
pub proof fn lemma_single_corner_cell(points: Seq<i64>, cell: Vec3i, b: int)
    requires
        0 <= b < 8,
        (corner_density(points, cell, b) >= ISO_LEVEL && forall|j: int| 0 <= j < 8 && j != b
            ==> #[trigger] corner_density(points, cell, j) < ISO_LEVEL) || (corner_density(
            points,
            cell,
            b,
        ) < ISO_LEVEL && forall|j: int| 0 <= j < 8 && j != b ==> #[trigger] corner_density(
            points,
            cell,
            j,
        ) >= ISO_LEVEL),
    ensures
        cell_tris(points, cell).len() == 1,
        forall|e: int| 0 <= e < 12 && edge_touches(e, b) ==> tri_has_vertex_on(
            cell_tris(points, cell)[0],
            points,
            cell,
            e,
        ),
        tri_vertices_at_corner(cell_tris(points, cell)[0], points, cell, b),
{
    lemma_lone_corner_rows();
    let sig = signature(points, cell);
    let lone_solid = corner_density(points, cell, b) >= ISO_LEVEL;
    if lone_solid {
        assert(sig == corner_bit(b));
    } else {
        assert(sig == 255 - corner_bit(b));
    }
    if b == 0 {
        assert(forall|e: int| 0 <= e < 12 ==> (edge_touches(e, 0) <==> (e == 0 || e == 3 || e == 8)));
        if lone_solid {
            lemma_row_single_triangle(points, cell, spec_tri_row(sig), 0, 0, 8, 3);
        } else {
            lemma_row_single_triangle(points, cell, spec_tri_row(sig), 0, 0, 3, 8);
        }
    } else if b == 1 {
        assert(forall|e: int| 0 <= e < 12 ==> (edge_touches(e, 1) <==> (e == 0 || e == 1 || e == 9)));
        if lone_solid {
            lemma_row_single_triangle(points, cell, spec_tri_row(sig), 1, 0, 1, 9);
        } else {
            lemma_row_single_triangle(points, cell, spec_tri_row(sig), 1, 0, 9, 1);
        }
    } else if b == 2 {
        assert(forall|e: int| 0 <= e < 12 ==> (edge_touches(e, 2) <==> (e == 1 || e == 2 || e == 10)));
        if lone_solid {
            lemma_row_single_triangle(points, cell, spec_tri_row(sig), 2, 1, 2, 10);
        } else {
            lemma_row_single_triangle(points, cell, spec_tri_row(sig), 2, 1, 10, 2);
        }
    } else if b == 3 {
        assert(forall|e: int| 0 <= e < 12 ==> (edge_touches(e, 3) <==> (e == 2 || e == 3 || e == 11)));
        if lone_solid {
            lemma_row_single_triangle(points, cell, spec_tri_row(sig), 3, 3, 11, 2);
        } else {
            lemma_row_single_triangle(points, cell, spec_tri_row(sig), 3, 3, 2, 11);
        }
    } else if b == 4 {
        assert(forall|e: int| 0 <= e < 12 ==> (edge_touches(e, 4) <==> (e == 4 || e == 7 || e == 8)));
        if lone_solid {
            lemma_row_single_triangle(points, cell, spec_tri_row(sig), 4, 4, 7, 8);
        } else {
            lemma_row_single_triangle(points, cell, spec_tri_row(sig), 4, 4, 8, 7);
        }
    } else if b == 5 {
        assert(forall|e: int| 0 <= e < 12 ==> (edge_touches(e, 5) <==> (e == 4 || e == 5 || e == 9)));
        if lone_solid {
            lemma_row_single_triangle(points, cell, spec_tri_row(sig), 5, 9, 5, 4);
        } else {
            lemma_row_single_triangle(points, cell, spec_tri_row(sig), 5, 9, 4, 5);
        }
    } else if b == 6 {
        assert(forall|e: int| 0 <= e < 12 ==> (edge_touches(e, 6) <==> (e == 5 || e == 6 || e == 10)));
        if lone_solid {
            lemma_row_single_triangle(points, cell, spec_tri_row(sig), 6, 10, 6, 5);
        } else {
            lemma_row_single_triangle(points, cell, spec_tri_row(sig), 6, 10, 5, 6);
        }
    } else {
        assert(forall|e: int| 0 <= e < 12 ==> (edge_touches(e, 7) <==> (e == 6 || e == 7 || e == 11)));
        if lone_solid {
            lemma_row_single_triangle(points, cell, spec_tri_row(sig), 7, 7, 6, 11);
        } else {
            lemma_row_single_triangle(points, cell, spec_tri_row(sig), 7, 7, 11, 6);
        }
    }
    assert(cell_tris(points, cell) == row_tris(points, cell, spec_tri_row(sig), 0));
}

proof fn lemma_uniform_cell_empty(points: Seq<i64>, cell: Vec3i)
    requires
        points.len() == BUFFER_SIZE,
        cell_in_cube(cell),
        (forall|i: int| 0 <= i < points.len() ==> #[trigger] points[i] >= ISO_LEVEL) || (forall|
            i: int,
        |
            0 <= i < points.len() ==> #[trigger] points[i] < ISO_LEVEL),
    ensures
        cell_tris(points, cell).len() == 0,
{
    assert forall|j: int| 0 <= j < 8 implies 0 <= index_of(#[trigger] corner_pos(cell, j))
        < points.len() by {
        assert(0 <= corner_offset(j).x <= 1 && 0 <= corner_offset(j).y <= 1 && 0 <= corner_offset(
            j,
        ).z <= 1);
    }
    if forall|i: int| 0 <= i < points.len() ==> #[trigger] points[i] < ISO_LEVEL {
        assert(signature(points, cell) == 0);
    } else {
        assert(signature(points, cell) == 255);
        lemma_lone_corner_rows();
        assert(row_tris(points, cell, spec_tri_row(255), 0) =~= Seq::<Triangle>::empty());
    }
}

proof fn lemma_uniform_upto_empty(points: Seq<i64>, n: int)
    requires
        points.len() == BUFFER_SIZE,
        0 <= n <= BUFFER_SIZE,
        (forall|i: int| 0 <= i < points.len() ==> #[trigger] points[i] >= ISO_LEVEL) || (forall|
            i: int,
        |
            0 <= i < points.len() ==> #[trigger] points[i] < ISO_LEVEL),
    ensures
        tris_upto(points, n).len() == 0,
    decreases n,
{
    if n > 0 {
        lemma_uniform_upto_empty(points, n - 1);
        if cell_in_cube(coord_of(n - 1)) {
            lemma_uniform_cell_empty(points, coord_of(n - 1));
        }
    }
}

/// A field that is uniformly solid or uniformly air has no surface:
/// the triangulation is empty.
pub proof fn lemma_uniform_field_empty(points: Seq<i64>)
    requires
        points.len() == BUFFER_SIZE,
        (forall|i: int| 0 <= i < points.len() ==> #[trigger] points[i] >= ISO_LEVEL) || (forall|
            i: int,
        |
            0 <= i < points.len() ==> #[trigger] points[i] < ISO_LEVEL),
    ensures
        spec_triangulate(points).len() == 0,
{
    lemma_uniform_upto_empty(points, BUFFER_SIZE as int);
}

} // verus!
