//! The grid rasterizer skeleton: geometry size query, quad index buffers,
//! the vertex lattice, and the 32-bit overflow guard.

use meshgen::MeshError;
use meshgen::chunkgen::{GeometryDesc, VertexSite, fill_chunk_quads, geometry_desc, vertex_sites};
use meshgen::unity::Quad;

fn quad(v: [i32; 6]) -> Quad {
    Quad { v1: v[0], v2: v[1], v3: v[2], v4: v[3], v5: v[4], v6: v[5] }
}

#[test]
fn size_query_for_side_two() {
    let desc = geometry_desc(2).unwrap();
    assert_eq!(
        desc,
        GeometryDesc {
            vertex_count: 9,
            edge_count: 16,
            face_count: 8,
            vertex_bytes: 9 * 48,
            edge_bytes: 16 * 4,
            face_bytes: 8 * 12,
        }
    );
}

#[test]
fn size_query_for_empty_chunk() {
    let desc = geometry_desc(0).unwrap();
    assert_eq!(
        desc,
        GeometryDesc {
            vertex_count: 1,
            edge_count: 0,
            face_count: 0,
            vertex_bytes: 48,
            edge_bytes: 0,
            face_bytes: 0,
        }
    );
}

#[test]
fn quads_for_side_two() {
    let mut quads: Vec<Quad> = vec![Quad::default(); 4];
    assert_eq!(fill_chunk_quads(2, &mut quads), Ok(()));
    assert_eq!(quads[0], quad([3, 1, 0, 1, 3, 4]));
    assert_eq!(quads[1], quad([6, 4, 3, 4, 6, 7]));
    assert_eq!(quads[2], quad([4, 2, 1, 2, 4, 5]));
    assert_eq!(quads[3], quad([7, 5, 4, 5, 7, 8]));
    // Every index refers to one of the nine vertices.
    for q in &quads {
        for v in [q.v1, q.v2, q.v3, q.v4, q.v5, q.v6] {
            assert!((0..9).contains(&v));
        }
    }
    // The center vertex (index 4) sits on all four cells and on the shared
    // diagonal of two of them: six occurrences in all.
    let center_uses: usize = quads
        .iter()
        .flat_map(|q| [q.v1, q.v2, q.v3, q.v4, q.v5, q.v6])
        .filter(|&v| v == 4)
        .count();
    assert_eq!(center_uses, 6);
}

#[test]
fn vertex_lattice_for_side_two() {
    let sites = vertex_sites(2).unwrap();
    assert_eq!(sites.len(), 9);
    assert_eq!(
        sites[0],
        VertexSite { col: 0, row: 0, x_doubled: -2, z_doubled: -2 }
    );
    assert_eq!(
        sites[4],
        VertexSite { col: 1, row: 1, x_doubled: 0, z_doubled: 0 }
    );
    assert_eq!(
        sites[8],
        VertexSite { col: 2, row: 2, x_doubled: 2, z_doubled: 2 }
    );
}

#[test]
fn vertex_lattice_centers_odd_side_lengths_on_half_units() {
    let sites = vertex_sites(3).unwrap();
    assert_eq!(sites.len(), 16);
    assert_eq!(sites[0].x_doubled, -3);
    assert_eq!(sites[5].x_doubled, -1);
    assert_eq!(sites[5].z_doubled, -1);
    assert_eq!(sites[15].x_doubled, 3);
}

#[test]
fn size_query_counts_match_the_rasterizer() {
    let desc = geometry_desc(5).unwrap();
    let mut quads: Vec<Quad> = vec![Quad::default(); (desc.face_count / 2) as usize];
    assert_eq!(fill_chunk_quads(5, &mut quads), Ok(()));
    let sites = vertex_sites(5).unwrap();
    assert_eq!(sites.len(), desc.vertex_count as usize);
    // Every quad slot was overwritten: no two cells share a base corner.
    for (i, q) in quads.iter().enumerate() {
        assert_eq!(q.v3, ((i % 5) * 6 + i / 5) as i32);
    }
}

#[test]
fn oversized_side_lengths_are_rejected_by_the_size_query() {
    // 3 * 26755^2 passes the 32-bit signed limit.
    assert_eq!(geometry_desc(26_755), Err(MeshError::SizeOverflow));
    // The vertex buffer guard trips first: 6688 is the smallest refusal.
    assert_eq!(geometry_desc(6_688), Err(MeshError::SizeOverflow));
    assert!(geometry_desc(6_687).is_ok());
}

#[test]
fn oversized_fill_is_refused_before_writing() {
    let mut quads: Vec<Quad> = Vec::new();
    assert_eq!(fill_chunk_quads(100_000, &mut quads), Err(MeshError::SizeOverflow));
    assert_eq!(vertex_sites(6_688), Err(MeshError::SizeOverflow));
}

#[test]
fn wrongly_sized_quad_buffer_is_left_untouched() {
    let mut quads: Vec<Quad> = vec![quad([9, 9, 9, 9, 9, 9]); 3];
    assert_eq!(fill_chunk_quads(2, &mut quads), Err(MeshError::InvalidArgument));
    assert_eq!(quads, vec![quad([9, 9, 9, 9, 9, 9]); 3]);
}
