use vstd::prelude::*;
use crate::mesh::{VertexKey, IndexedMesh, corners, distinct_in_order, index_vertices};

verus! {

/// Length of the free-form header that opens a binary STL file.
pub const HEADER_LEN: usize = 80;

/// Bytes taken by one triangle record: a normal and three corners, each three
/// 4-byte coordinates, then a 2-byte attribute count.
pub const TRIANGLE_RECORD_LEN: usize = 50;

#[verifier::external_type_specification]
#[verifier::external_body]
pub struct ExIoError(std::io::Error);

/// The little-endian 32-bit number stored in the four bytes from `at`.
pub open spec fn le_u32_at(bytes: Seq<u8>, at: int) -> int {
    bytes[at] + 0x100 * bytes[at + 1] + 0x1_0000 * bytes[at + 2] + 0x100_0000 * bytes[at + 3]
}

/// The triangle count that a binary STL file declares after its header.
pub open spec fn declared_triangle_count(bytes: Seq<u8>) -> int {
    le_u32_at(bytes, HEADER_LEN as int)
}

/// Where the first triangle record starts: after the header and the 4-byte
/// triangle count.
pub open spec fn records_start() -> int {
    HEADER_LEN + 4
}

/// The file holds its header, its triangle count and every triangle record that
/// the count announces (bytes after the last record are ignored).
pub open spec fn stl_complete(bytes: Seq<u8>) -> bool {
    &&& bytes.len() >= records_start()
    &&& bytes.len() >= records_start() + TRIANGLE_RECORD_LEN * declared_triangle_count(bytes)
}

/// Corner `c` (0, 1 or 2) of triangle record `t`, as the bit patterns of its
/// three coordinates. Each record starts with its 12-byte normal.
pub open spec fn stl_corner(bytes: Seq<u8>, t: int, c: int) -> VertexKey {
    let at = records_start() + TRIANGLE_RECORD_LEN * t + 12 + 12 * c;
    VertexKey {
        x: le_u32_at(bytes, at) as u32,
        y: le_u32_at(bytes, at + 4) as u32,
        z: le_u32_at(bytes, at + 8) as u32,
    }
}

/// All triangle corners of a binary STL file, record after record, each
/// record's corners in stored order.
pub open spec fn stl_corners(bytes: Seq<u8>) -> Seq<VertexKey> {
    Seq::new((3 * declared_triangle_count(bytes)) as nat, |k: int| stl_corner(bytes, k / 3, k % 3))
}

/// Decodes a binary STL file held in memory with `stl::read_stl`, reading from
/// a `std::io::Cursor` over `bytes`, and keeps of each triangle its three
/// corners, each coordinate as its bit pattern (`f32::to_bits`).
///
/// Trusted claim, from the source of `stl` 0.2.1 and `byteorder` 0.4.2: the
/// call fails exactly when the bytes end before the header, the count or one
/// of the announced records is complete; otherwise it yields one triangle per
/// record, whose corners are the little-endian words after the record's
/// normal. The error value is not described.
#[verifier::external_body]
fn read_binary_stl(bytes: &[u8]) -> (r: Result<Vec<[VertexKey; 3]>, std::io::Error>)
    ensures
        r is Ok <==> stl_complete(bytes@),
        r matches Ok(triangles) ==> {
            &&& triangles@.len() == declared_triangle_count(bytes@)
            &&& forall|t: int, c: int|
                0 <= t < triangles@.len() && 0 <= c < 3 ==> #[trigger] triangles@[t]@[c]
                    == stl_corner(bytes@, t, c)
        },
{
    let file = stl::read_stl(&mut std::io::Cursor::new(bytes))?;
    let mut triangles = Vec::new();
    for t in file.triangles.iter() {
        let bits = [t.v1, t.v2, t.v3].map(|p| p.map(|c| c.to_bits()));
        triangles.push(bits.map(|p| VertexKey { x: p[0], y: p[1], z: p[2] }));
    }
    Ok(triangles)
}

/// Why a binary STL file could not be turned into an indexed mesh.
#[derive(Clone, Copy, Debug, PartialEq, Eq, Structural)]
pub enum MeshError {
    /// The bytes end before the header, the triangle count or one of the
    /// announced triangle records is complete.
    Truncated,
    /// The file announces more triangle corners than a 32-bit index count can
    /// address.
    TooManyCorners,
}

/// Decodes a binary STL file and merges its triangle corners into an indexed
/// mesh: the vertices are the distinct corners in order of first occurrence,
/// and the `k`-th index selects the vertex equal to the `k`-th corner.
pub fn load_mesh(bytes: &[u8]) -> (r: Result<IndexedMesh, MeshError>)
    ensures
        r matches Err(MeshError::Truncated) <==> !stl_complete(bytes@),
        r matches Err(MeshError::TooManyCorners) <==> stl_complete(bytes@) && 3
            * declared_triangle_count(bytes@) > u32::MAX,
        r matches Ok(mesh) ==> {
            let all = stl_corners(bytes@);
            &&& mesh@.vertices == distinct_in_order(all)
            &&& mesh@.indices.len() == all.len()
            &&& forall|k: int|
                0 <= k < all.len() ==> #[trigger] mesh@.indices[k] < mesh@.vertices.len()
                    && mesh@.vertices[mesh@.indices[k] as int] == all[k]
        },
{
    match read_binary_stl(bytes) {
        Err(_) => Err(MeshError::Truncated),
        Ok(triangles) => {
            if triangles.len() > (u32::MAX / 3) as usize {
                Err(MeshError::TooManyCorners)
            } else {
                assert(corners(triangles@) =~= stl_corners(bytes@));
                Ok(index_vertices(&triangles))
            }
        },
    }
}

} // verus!
