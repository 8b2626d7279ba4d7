use vstd::prelude::*;
use std::collections::HashMap;

verus! {

/// A mesh vertex, identified by the exact bit patterns of its three
/// single-precision coordinates (x, y, z).
///
/// Two corners denote the same vertex exactly when all three bit patterns
/// agree; this makes vertex identity an equivalence even for NaN coordinates.
#[derive(Clone, Copy, Debug, PartialEq, Eq, Structural)]
pub struct VertexKey {
    pub x: u32,
    pub y: u32,
    pub z: u32,
}

/// The hash key under which a vertex is looked up while merging corners.
pub open spec fn packed_key(v: VertexKey) -> u128 {
    (v.x * 0x1_0000_0000_0000_0000int + v.y * 0x1_0000_0000int + v.z) as u128
}

/// Packing a vertex into its hash key loses nothing: distinct vertices get
/// distinct keys.
pub proof fn lemma_packed_key_injective(a: VertexKey, b: VertexKey)
    ensures
        packed_key(a) == packed_key(b) ==> a == b,
{
    lemma_packed_key_fits(a);
    lemma_packed_key_fits(b);
    if packed_key(a) == packed_key(b) {
        let (ax, ay, az) = (a.x as int, a.y as int, a.z as int);
        let (bx, by, bz) = (b.x as int, b.y as int, b.z as int);
        assert(ax == bx && ay == by && az == bz) by (nonlinear_arith)
            requires
                0 <= ax < 0x1_0000_0000, 0 <= ay < 0x1_0000_0000, 0 <= az < 0x1_0000_0000,
                0 <= bx < 0x1_0000_0000, 0 <= by < 0x1_0000_0000, 0 <= bz < 0x1_0000_0000,
                ax * 0x1_0000_0000_0000_0000 + ay * 0x1_0000_0000 + az
                    == bx * 0x1_0000_0000_0000_0000 + by * 0x1_0000_0000 + bz,
        ;
    }
}

proof fn lemma_packed_key_fits(v: VertexKey)
    ensures
        0 <= v.x * 0x1_0000_0000_0000_0000int + v.y * 0x1_0000_0000int + v.z <= u128::MAX,
        packed_key(v) as int == v.x * 0x1_0000_0000_0000_0000int + v.y * 0x1_0000_0000int + v.z,
{
    let (x, y, z) = (v.x as int, v.y as int, v.z as int);
    assert(0 <= x * 0x1_0000_0000_0000_0000int + y * 0x1_0000_0000int + z <= u128::MAX) by (nonlinear_arith)
        requires 0 <= x < 0x1_0000_0000, 0 <= y < 0x1_0000_0000, 0 <= z < 0x1_0000_0000;
}

fn pack_key(v: VertexKey) -> (k: u128)
    ensures
        k == packed_key(v),
{
    proof { lemma_packed_key_fits(v); }
    (v.x as u128) * 0x1_0000_0000_0000_0000u128 + (v.y as u128) * 0x1_0000_0000u128 + (v.z as u128)
}


/// The corners of a triangle list, triangle after triangle, each triangle's
/// corners in their stored order.
pub open spec fn corners(triangles: Seq<[VertexKey; 3]>) -> Seq<VertexKey> {
    Seq::new(3 * triangles.len(), |k: int| triangles[k / 3]@[k % 3])
}

/// The distinct elements of `s`, each kept at the place of its first
/// occurrence.
pub open spec fn distinct_in_order<A>(s: Seq<A>) -> Seq<A>
    decreases s.len(),
{
    if s.len() == 0 {
        Seq::empty()
    } else {
        let prev = distinct_in_order(s.drop_last());
        if prev.contains(s.last()) {
            prev
        } else {
            prev.push(s.last())
        }
    }
}

/// What an indexed mesh denotes: its vertex list and its index list.
pub struct MeshView {
    pub vertices: Seq<VertexKey>,
    pub indices: Seq<u32>,
}

/// The corners that an index list selects from a vertex list.
pub open spec fn expand(mesh: MeshView) -> Seq<VertexKey> {
    Seq::new(mesh.indices.len(), |k: int| mesh.vertices[mesh.indices[k] as int])
}

/// A triangle mesh in indexed form: every distinct vertex is stored once and
/// every triangle corner is an index into the vertex list.
pub struct IndexedMesh {
    vertices: Vec<VertexKey>,
    indices: Vec<u32>,
}

impl View for IndexedMesh {
    type V = MeshView;

    closed spec fn view(&self) -> MeshView {
        MeshView { vertices: self.vertices@, indices: self.indices@ }
    }
}

impl IndexedMesh {
    /// No vertex is stored twice, every index selects a stored vertex, and the
    /// number of indices fits the 32-bit count of an indexed draw call.
    #[verifier::type_invariant]
    spec fn well_formed(self) -> bool {
        &&& self.vertices@.no_duplicates()
        &&& self.indices@.len() <= u32::MAX
        &&& forall|k: int| 0 <= k < self.indices@.len() ==> #[trigger] self.indices@[k] < self.vertices@.len()
    }

    /// The distinct vertices, in order of first use.
    pub fn vertices(&self) -> (r: &Vec<VertexKey>)
        ensures
            r@ == self@.vertices,
    {
        &self.vertices
    }

    /// The index list: three consecutive entries per triangle.
    pub fn indices(&self) -> (r: &Vec<u32>)
        ensures
            r@ == self@.indices,
    {
        &self.indices
    }

    /// The number of indices, as the draw call takes it.
    pub fn index_count(&self) -> (n: u32)
        ensures
            n == self@.indices.len(),
    {
        proof {
            use_type_invariant(self);
        }
        self.indices.len() as u32
    }
}

proof fn lemma_corner_at(triangles: Seq<[VertexKey; 3]>, i: int, j: int)
    requires
        0 <= i < triangles.len(),
        0 <= j < 3,
    ensures
        0 <= 3 * i + j < corners(triangles).len(),
        corners(triangles)[3 * i + j] == triangles[i]@[j],
{
    assert((3 * i + j) / 3 == i && (3 * i + j) % 3 == j) by (nonlinear_arith)
        requires 0 <= j < 3;
}

/// Every element of `distinct_in_order(s)` occurs in `s`, and every element of
/// `s` occurs in it.
pub proof fn lemma_distinct_same_elements<A>(s: Seq<A>, x: A)
    ensures
        distinct_in_order(s).contains(x) <==> s.contains(x),
    decreases s.len(),
{
    if s.len() > 0 {
        lemma_distinct_same_elements(s.drop_last(), x);
        let prev = distinct_in_order(s.drop_last());
        if s.contains(x) && x != s.last() {
            let k = choose|k: int| 0 <= k < s.len() && s[k] == x;
            assert(s.drop_last()[k] == x);
        }
        if prev.contains(x) {
            let k = choose|k: int| 0 <= k < prev.len() && prev[k] == x;
            assert(s.drop_last().contains(x));
            let m = choose|m: int| 0 <= m < s.drop_last().len() && s.drop_last()[m] == x;
            assert(s[m] == x);
            if !prev.contains(s.last()) {
                assert(prev.push(s.last())[k] == x);
            }
        }
        if !prev.contains(s.last()) {
            assert(prev.push(s.last())[prev.len() as int] == s.last());
        }
        assert(s[s.len() - 1] == s.last());
    }
}

/// `distinct_in_order(s)` holds no element twice and is no longer than `s`.
pub proof fn lemma_distinct_no_duplicates<A>(s: Seq<A>)
    ensures
        distinct_in_order(s).no_duplicates(),
        distinct_in_order(s).len() <= s.len(),
    decreases s.len(),
{
    if s.len() > 0 {
        lemma_distinct_no_duplicates(s.drop_last());
    }
}

/// Merging a list that holds no element twice keeps it as it is; in
/// particular, merging an already merged vertex list changes nothing.
pub proof fn lemma_distinct_of_distinct_list<A>(s: Seq<A>)
    requires
        s.no_duplicates(),
    ensures
        distinct_in_order(s) == s,
    decreases s.len(),
{
    if s.len() > 0 {
        let init = s.drop_last();
        assert(init.no_duplicates());
        lemma_distinct_of_distinct_list(init);
        if init.contains(s.last()) {
            let k = choose|k: int| 0 <= k < init.len() && init[k] == s.last();
            assert(s[k] == s[s.len() - 1]);
        }
        assert(init.push(s.last()) =~= s);
    }
}

/// Merging is idempotent.
pub proof fn lemma_distinct_idempotent<A>(s: Seq<A>)
    ensures
        distinct_in_order(distinct_in_order(s)) == distinct_in_order(s),
{
    lemma_distinct_no_duplicates(s);
    lemma_distinct_of_distinct_list(distinct_in_order(s));
}

/// Reading the corners back through the index list gives exactly the corners
/// that were merged: an indexed mesh draws the same triangles as the list it
/// was built from.
pub proof fn lemma_expand_restores_corners(mesh: MeshView, all: Seq<VertexKey>)
    requires
        mesh.indices.len() == all.len(),
        forall|k: int|
            0 <= k < all.len() ==> #[trigger] mesh.indices[k] < mesh.vertices.len()
                && mesh.vertices[mesh.indices[k] as int] == all[k],
    ensures
        expand(mesh) == all,
{
    assert(expand(mesh) =~= all);
}

/// Merges the corners of `triangles` into an indexed mesh: the vertices are the
/// distinct corners in order of first occurrence, and the `k`-th index selects
/// the vertex equal to the `k`-th corner.
pub fn index_vertices(triangles: &Vec<[VertexKey; 3]>) -> (mesh: IndexedMesh)
    requires
        3 * triangles@.len() <= u32::MAX,
    ensures
        mesh@.vertices == distinct_in_order(corners(triangles@)),
        mesh@.indices.len() == corners(triangles@).len(),
        forall|k: int|
            0 <= k < mesh@.indices.len() ==> #[trigger] mesh@.indices[k] < mesh@.vertices.len()
                && mesh@.vertices[mesh@.indices[k] as int] == corners(triangles@)[k],
{
    broadcast use vstd::std_specs::hash::group_hash_axioms;

    let ghost all = corners(triangles@);
    let mut vertices: Vec<VertexKey> = Vec::new();
    let mut indices: Vec<u32> = Vec::new();
    let mut vertex_to_index: HashMap<u128, u32> = HashMap::new();
    let n = triangles.len();
    assert(all.take(0) =~= Seq::<VertexKey>::empty());

    for i in 0..n
        invariant
            n == triangles@.len(),
            3 * n <= u32::MAX,
            all == corners(triangles@),
            vertices@ == distinct_in_order(all.take(3 * i)),
            indices@.len() == 3 * i,
            forall|k: int|
                0 <= k < 3 * i ==> #[trigger] indices@[k] < vertices@.len()
                    && vertices@[indices@[k] as int] == all[k],
            forall|m: int|
                0 <= m < vertices@.len() ==> #[trigger] vertex_to_index@.contains_key(
                    packed_key(vertices@[m]),
                ) && vertex_to_index@[packed_key(vertices@[m])] == m,
            forall|key: u128|
                #[trigger] vertex_to_index@.contains_key(key) ==> exists|m: int|
                    0 <= m < vertices@.len() && packed_key(vertices@[m]) == key,
    {
        let triangle = triangles[i];
        for j in 0..3
            invariant
                n == triangles@.len(),
                3 * n <= u32::MAX,
                0 <= i < n,
                triangle == triangles@[i as int],
                all == corners(triangles@),
                vertices@ == distinct_in_order(all.take(3 * i + j)),
                indices@.len() == 3 * i + j,
                forall|k: int|
                    0 <= k < 3 * i + j ==> #[trigger] indices@[k] < vertices@.len()
                        && vertices@[indices@[k] as int] == all[k],
                forall|m: int|
                    0 <= m < vertices@.len() ==> #[trigger] vertex_to_index@.contains_key(
                        packed_key(vertices@[m]),
                    ) && vertex_to_index@[packed_key(vertices@[m])] == m,
                forall|key: u128|
                    #[trigger] vertex_to_index@.contains_key(key) ==> exists|m: int|
                        0 <= m < vertices@.len() && packed_key(vertices@[m]) == key,
        {
            let corner = triangle[j];
            let ghost p = 3 * i + j;
            proof {
                lemma_corner_at(triangles@, i as int, j as int);
                assert(all.take(p + 1).drop_last() =~= all.take(p));
                assert(all.take(p + 1).last() == corner);
                lemma_distinct_no_duplicates(all.take(p));
                lemma_distinct_no_duplicates(all.take(p + 1));
            }
            let key = pack_key(corner);
            match vertex_to_index.get(&key) {
                Some(index) => {
                    let index = *index;
                    proof {
                        let m = choose|m: int| 0 <= m < vertices@.len() && packed_key(vertices@[m]) == key;
                        lemma_packed_key_injective(vertices@[m], corner);
                        assert(vertices@.contains(corner));
                    }
                    indices.push(index);
                },
                None => {
                    proof {
                        if vertices@.contains(corner) {
                            let m = choose|m: int| 0 <= m < vertices@.len() && vertices@[m] == corner;
                            assert(vertex_to_index@.contains_key(packed_key(vertices@[m])));
                        }
                    }
                    let ghost old_vertices = vertices@;
                    let ghost old_map = vertex_to_index@;
                    let index = vertices.len() as u32;
                    vertices.push(corner);
                    vertex_to_index.insert(key, index);
                    indices.push(index);
                    proof {
                        assert(vertex_to_index@ == old_map.insert(key, index));
                        assert forall|m: int| 0 <= m < vertices@.len() implies #[trigger] vertex_to_index@.contains_key(
                            packed_key(vertices@[m]),
                        ) && vertex_to_index@[packed_key(vertices@[m])] == m by {
                            if m < old_vertices.len() {
                                assert(vertices@[m] == old_vertices[m]);
                                assert(old_map.contains_key(packed_key(old_vertices[m])));
                                lemma_packed_key_injective(vertices@[m], corner);
                                assert(old_vertices.contains(old_vertices[m]));
                            }
                        }
                        assert forall|k2: u128| #[trigger] vertex_to_index@.contains_key(k2) implies exists|m: int|
                            0 <= m < vertices@.len() && packed_key(vertices@[m]) == k2 by {
                            if k2 != key {
                                assert(old_map.contains_key(k2));
                                let m = choose|m: int| 0 <= m < old_vertices.len() && packed_key(old_vertices[m]) == k2;
                                assert(vertices@[m] == old_vertices[m]);
                            } else {
                                assert(vertices@[old_vertices.len() as int] == corner);
                            }
                        }
                    }
                },
            }
        }
    }
    assert(all.take(3 * n) =~= all);
    proof {
        lemma_distinct_no_duplicates(all);
    }
    IndexedMesh { vertices, indices }
}

} // verus!
