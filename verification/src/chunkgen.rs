//! The grid mesh rasterizer's integer skeleton: geometry size queries with
//! a 32-bit byte-size guard, quad index buffers, and the vertex lattice of
//! a square terrain chunk.

use vstd::prelude::*;
use vstd::arithmetic::div_mod::lemma_div_nonincreasing;
use vstd::arithmetic::div_mod::lemma_div_pos_is_pos;
use vstd::arithmetic::div_mod::lemma_fundamental_div_mod;
use vstd::arithmetic::div_mod::lemma_mod_bound;

use crate::MeshError;
use crate::unity::Quad;

verus! {

/// Bytes one mesh vertex occupies: position, normal, tangent and UV, all
/// with 32-bit fields.
pub const VERTEX_BYTES: u64 = 48;

/// Bytes of one 32-bit vertex index.
pub const INDEX_BYTES: u64 = 4;

/// Bytes of one triangle of three 32-bit indices.
pub const TRIANGLE_BYTES: u64 = 12;

/// Largest value a 32-bit signed buffer length can hold; no geometry
/// buffer may reach this many bytes.
pub const BYTE_LIMIT: u64 = 0x7fff_ffff;

/// Vertices of a square chunk of `s` quads per side: `(s+1)²`.
pub open spec fn vertex_count(s: int) -> int {
    (s + 1) * (s + 1)
}

/// Edges of the triangulated chunk: `2s + 3s²`.
pub open spec fn edge_count(s: int) -> int {
    2 * s + 3 * (s * s)
}

/// Triangles of the chunk: `2s²`.
pub open spec fn face_count(s: int) -> int {
    2 * (s * s)
}

/// Grid cells of the chunk: `s²`.
pub open spec fn quad_count(s: int) -> int {
    s * s
}

/// Bytes of the vertex buffer for side length `s`.
pub open spec fn vertex_buf_bytes(s: int) -> int {
    vertex_count(s) * VERTEX_BYTES
}

/// Bytes of the edge index buffer for side length `s`.
pub open spec fn edge_buf_bytes(s: int) -> int {
    edge_count(s) * INDEX_BYTES
}

/// Bytes of the triangle buffer for side length `s`.
pub open spec fn face_buf_bytes(s: int) -> int {
    face_count(s) * TRIANGLE_BYTES
}

/// Whether every geometry buffer for side length `s` stays strictly under
/// the 32-bit signed byte limit.
pub open spec fn dims_ok(s: int) -> bool {
    &&& edge_buf_bytes(s) < BYTE_LIMIT
    &&& vertex_buf_bytes(s) < BYTE_LIMIT
    &&& face_buf_bytes(s) < BYTE_LIMIT
}

/// The vertex, edge and face counts a caller must allocate for, each known
/// to fit a 32-bit signed length, and the byte size of each buffer.
#[derive(Clone, Copy, Debug, PartialEq, Eq, Structural)]
pub struct GeometryDesc {
    pub vertex_count: i32,
    pub edge_count: i32,
    pub face_count: i32,
    pub vertex_bytes: u64,
    pub edge_bytes: u64,
    pub face_bytes: u64,
}

/// Index of the base vertex (lowest row and column) of quad `i`, in a
/// lattice whose rows are `s + 1` vertices wide.
pub open spec fn quad_base(s: int, i: int) -> int {
    (i % s) * (s + 1) + i / s
}

/// The six vertex indices of quad `i`: two counter-clockwise triangles
/// sharing the diagonal from `base + 1` to `base + s + 1`.
pub open spec fn quad_spec(s: int, i: int) -> Quad {
    Quad {
        v1: (quad_base(s, i) + s + 1) as i32,
        v2: (quad_base(s, i) + 1) as i32,
        v3: quad_base(s, i) as i32,
        v4: (quad_base(s, i) + 1) as i32,
        v5: (quad_base(s, i) + s + 1) as i32,
        v6: (quad_base(s, i) + s + 2) as i32,
    }
}

/// One vertex of the chunk lattice: its column and row, and its local x/z
/// coordinates doubled, so that the half-unit centering of odd side
/// lengths stays exact in integers.
#[derive(Clone, Copy, Debug, PartialEq, Eq, Structural)]
pub struct VertexSite {
    pub col: usize,
    pub row: usize,
    pub x_doubled: i64,
    pub z_doubled: i64,
}

/// The lattice site of vertex `i` in a chunk of side length `s`: row-major
/// over rows of `s + 1` vertices, centered so both local coordinates run
/// from `-s/2` to `s/2`.
pub open spec fn site_spec(s: int, i: int) -> VertexSite {
    VertexSite {
        col: (i % (s + 1)) as usize,
        row: (i / (s + 1)) as usize,
        x_doubled: (2 * (i % (s + 1)) - s) as i64,
        z_doubled: (2 * (i / (s + 1)) - s) as i64,
    }
}

/// Side lengths within the byte limit are small: the vertex buffer guard
/// alone caps them.
proof fn lemma_side_bound(s: int)
    requires
        0 <= s,
        dims_ok(s),
    ensures
        s <= 6687,
        vertex_count(s) <= 44739242,
{
    if s >= 6688 {
        assert((s + 1) * (s + 1) >= 6689 * 6689) by (nonlinear_arith)
            requires
                s + 1 >= 6689,
        ;
    }
    assert(vertex_count(s) * VERTEX_BYTES < BYTE_LIMIT);
}

/// The base vertex of every quad, and its whole upper row, lies inside the
/// vertex lattice.
proof fn lemma_quad_base_range(s: int, i: int)
    requires
        1 <= s,
        0 <= i < s * s,
    ensures
        0 <= quad_base(s, i),
        quad_base(s, i) + s + 2 < vertex_count(s),
        0 <= i % s < s,
        0 <= i / s < s,
{
    lemma_fundamental_div_mod(i, s);
    lemma_mod_bound(i, s);
    lemma_div_pos_is_pos(i, s);
    let q = i / s;
    let r = i % s;
    assert(q < s) by (nonlinear_arith)
        requires
            s * q + r < s * s,
            0 <= r < s,
            0 <= q,
            0 < s,
    ;
    assert(r * (s + 1) + q + s + 2 < (s + 1) * (s + 1)) by (nonlinear_arith)
        requires
            0 <= r <= s - 1,
            0 <= q <= s - 1,
            1 <= s,
    ;
    assert(0 <= r * (s + 1)) by (nonlinear_arith)
        requires
            0 <= r,
            0 <= s + 1,
    ;
}

/// Every index of every quad names a vertex of the chunk: the quad buffer
/// never refers outside a vertex buffer allocated from the size query.
pub proof fn lemma_quad_indices_in_range(s: int, i: int)
    requires
        1 <= s,
        0 <= i < quad_count(s),
        dims_ok(s),
    ensures
        0 <= quad_spec(s, i).v1 < vertex_count(s),
        0 <= quad_spec(s, i).v2 < vertex_count(s),
        0 <= quad_spec(s, i).v3 < vertex_count(s),
        0 <= quad_spec(s, i).v4 < vertex_count(s),
        0 <= quad_spec(s, i).v5 < vertex_count(s),
        0 <= quad_spec(s, i).v6 < vertex_count(s),
{
    lemma_side_bound(s);
    lemma_quad_base_range(s, i);
}

/// A size query that succeeds leaves every count itself within the 32-bit
/// signed range, so later index arithmetic cannot overflow it; and the
/// face count is exactly two triangles per quad.
pub proof fn lemma_counts_fit_index_width(s: int)
    requires
        0 <= s,
        dims_ok(s),
    ensures
        0 <= vertex_count(s) < BYTE_LIMIT,
        0 <= edge_count(s) < BYTE_LIMIT,
        0 <= face_count(s) < BYTE_LIMIT,
        face_count(s) == 2 * quad_count(s),
{
    assert(0 <= s * s) by (nonlinear_arith)
        requires
            0 <= s,
    ;
    assert(0 <= (s + 1) * (s + 1)) by (nonlinear_arith)
        requires
            0 <= s + 1,
    ;
}

/// A side length whose index data alone would pass the 32-bit signed limit
/// is always rejected by the size query guard.
pub proof fn lemma_oversize_rejected(s: int)
    requires
        0 <= s,
        3 * (s * s) > BYTE_LIMIT,
    ensures
        !dims_ok(s),
{
    assert(0 <= s * s) by (nonlinear_arith)
        requires
            0 <= s,
    ;
}

/// Computes the geometry counts for a chunk of `side_len` quads per side,
/// refusing any side length whose vertex, edge-index or triangle buffer
/// would reach the 32-bit signed byte limit.
pub fn geometry_desc(side_len: usize) -> (r: Result<GeometryDesc, MeshError>)
    ensures
        dims_ok(side_len as int) ==> (r matches Ok(d) && d.vertex_count == vertex_count(
            side_len as int,
        ) && d.edge_count == edge_count(side_len as int) && d.face_count == face_count(
            side_len as int,
        ) && d.vertex_bytes == vertex_buf_bytes(side_len as int) && d.edge_bytes
            == edge_buf_bytes(side_len as int) && d.face_bytes == face_buf_bytes(
            side_len as int,
        )),
        !dims_ok(side_len as int) ==> (r matches Err(e) && e == MeshError::SizeOverflow),
{
    let s: u64 = side_len as u64;
    if s >= 100_000 {
        proof {
            assert((s as int) * (s as int) >= 100000 * 100000) by (nonlinear_arith)
                requires
                    s as int >= 100000,
            ;
        }
        return Err(MeshError::SizeOverflow);
    }
    proof {
        assert((s as int) * (s as int) <= 99999 * 99999) by (nonlinear_arith)
            requires
                0 <= s as int <= 99999,
        ;
        assert((s as int + 1) * (s as int + 1) <= 100000 * 100000) by (nonlinear_arith)
            requires
                0 <= s as int <= 99999,
        ;
        assert(0 <= (s as int) * (s as int)) by (nonlinear_arith)
            requires
                0 <= s as int,
        ;
        assert(0 <= (s as int + 1) * (s as int + 1)) by (nonlinear_arith)
            requires
                0 <= s as int + 1,
        ;
    }
    let vc: u64 = (s + 1) * (s + 1);
    let ec: u64 = 2 * s + 3 * (s * s);
    let fc: u64 = 2 * (s * s);
    let vb: u64 = vc * VERTEX_BYTES;
    let eb: u64 = ec * INDEX_BYTES;
    let fb: u64 = fc * TRIANGLE_BYTES;
    if eb >= BYTE_LIMIT {
        Err(MeshError::SizeOverflow)
    } else if vb >= BYTE_LIMIT {
        Err(MeshError::SizeOverflow)
    } else if fb >= BYTE_LIMIT {
        Err(MeshError::SizeOverflow)
    } else {
        Ok(
            GeometryDesc {
                vertex_count: vc as i32,
                edge_count: ec as i32,
                face_count: fc as i32,
                vertex_bytes: vb,
                edge_bytes: eb,
                face_bytes: fb,
            },
        )
    }
}

/// Produces the vertex lattice of a chunk: one site per vertex in index
/// order, or a size refusal exactly when the size query gives one.
pub fn vertex_sites(side_len: usize) -> (r: Result<Vec<VertexSite>, MeshError>)
    ensures
        dims_ok(side_len as int) ==> (r matches Ok(v) && v@.len() == vertex_count(side_len as int)
            && (forall|i: int| 0 <= i < v@.len() ==> v@[i] == site_spec(side_len as int, i))),
        !dims_ok(side_len as int) ==> (r matches Err(e) && e == MeshError::SizeOverflow),
{
    match geometry_desc(side_len) {
        Err(e) => Err(e),
        Ok(_) => {
            proof {
                lemma_side_bound(side_len as int);
                assert((side_len as int + 1) * (side_len as int + 1) <= 6688 * 6688)
                    by (nonlinear_arith)
                    requires
                        0 <= side_len as int + 1 <= 6688,
                ;
                assert(0 <= (side_len as int + 1) * (side_len as int + 1)) by (nonlinear_arith)
                    requires
                        0 <= side_len as int + 1,
                ;
            }
            let vert_side: usize = side_len + 1;
            let total: usize = vert_side * vert_side;
            let mut v: Vec<VertexSite> = Vec::new();
            let mut i: usize = 0;
            while i < total
                invariant
                    total == vertex_count(side_len as int),
                    total <= 44739242,
                    side_len <= 6687,
                    vert_side == side_len + 1,
                    v@.len() == i,
                    0 <= i <= total,
                    forall|j: int| 0 <= j < i ==> v@[j] == site_spec(side_len as int, j),
                decreases total - i,
            {
                let col: usize = i % vert_side;
                let row: usize = i / vert_side;
                proof {
                    lemma_mod_bound(i as int, vert_side as int);
                    lemma_div_pos_is_pos(i as int, vert_side as int);
                    lemma_div_nonincreasing(i as int, vert_side as int);
                }
                let site = VertexSite {
                    col,
                    row,
                    x_doubled: 2 * (col as i64) - side_len as i64,
                    z_doubled: 2 * (row as i64) - side_len as i64,
                };
                v.push(site);
                i = i + 1;
            }
            Ok(v)
        },
    }
}

/// Overwrites every slot of a caller-allocated quad index buffer with the
/// indices of the corresponding grid cell. The buffer must hold exactly
/// one `Quad` per cell; on any refusal the buffer is left untouched.
pub fn fill_chunk_quads(side_len: usize, quads: &mut Vec<Quad>) -> (r: Result<(), MeshError>)
    ensures
        r matches Ok(_) <==> (dims_ok(side_len as int) && old(quads)@.len() == quad_count(
            side_len as int,
        )),
        r matches Ok(_) ==> final(quads)@.len() == old(quads)@.len() && (forall|j: int|
            0 <= j < final(quads)@.len() ==> final(quads)@[j] == quad_spec(side_len as int, j)),
        !dims_ok(side_len as int) ==> (r matches Err(e) && e == MeshError::SizeOverflow
            && final(quads)@ == old(quads)@),
        dims_ok(side_len as int) && old(quads)@.len() != quad_count(side_len as int) ==> (r
            matches Err(e) && e == MeshError::InvalidArgument && final(quads)@ == old(quads)@),
{
    match geometry_desc(side_len) {
        Err(e) => Err(e),
        Ok(_) => {
            proof {
                lemma_side_bound(side_len as int);
                assert((side_len as int) * (side_len as int) <= 6687 * 6687) by (nonlinear_arith)
                    requires
                        0 <= side_len as int <= 6687,
                ;
                assert(0 <= (side_len as int) * (side_len as int)) by (nonlinear_arith)
                    requires
                        0 <= side_len as int,
                ;
            }
            let cells: usize = side_len * side_len;
            if quads.len() != cells {
                return Err(MeshError::InvalidArgument);
            }
            let vert_side: usize = side_len + 1;
            let mut i: usize = 0;
            while i < cells
                invariant
                    quads@.len() == cells == quad_count(side_len as int),
                    0 <= i <= cells,
                    side_len <= 6687,
                    vert_side == side_len + 1,
                    dims_ok(side_len as int),
                    forall|j: int| 0 <= j < i ==> quads@[j] == quad_spec(side_len as int, j),
                decreases cells - i,
            {
                proof {
                    if side_len == 0 {
                        assert(quad_count(0) == 0);
                    }
                    lemma_side_bound(side_len as int);
                    lemma_quad_base_range(side_len as int, i as int);
                }
                let x: usize = i % side_len;
                let z: usize = i / side_len;
                let base: usize = x * vert_side + z;
                let q = Quad {
                    v1: (base + vert_side) as i32,
                    v2: (base + 1) as i32,
                    v3: base as i32,
                    v4: (base + 1) as i32,
                    v5: (base + vert_side) as i32,
                    v6: (base + vert_side + 1) as i32,
                };
                quads.set(i, q);
                i = i + 1;
            }
            Ok(())
        },
    }
}

} // verus!
