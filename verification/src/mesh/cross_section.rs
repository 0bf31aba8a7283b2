//! The hyperplane cross-section of a tetrahedral mesh: the central
//! algorithm. Each tetrahedron is classified by the signs of its vertex
//! depths; a fixed, exhaustively enumerated table decides which triangles to
//! emit so that the winding (handedness) of each output triangle equals that
//! of the source tetrahedron; and edge intersections are memoized on the
//! unordered vertex pair, so adjacent tetrahedra sharing an edge share one
//! output vertex and the output is watertight.

use vstd::prelude::*;

use crate::linear_algebra::scalar::Scalar;
use crate::mesh::extrude::{spec_is_extrusion, spec_prism_tet0, spec_prism_tet1, spec_prism_tet2};
use crate::mesh::project::{LiftOrthographic, ProjectOrthographic};
use crate::mesh::{TetrahedronMesh, TriangleMesh};
use crate::transform::traits::InterpolateWith;

verus! {

/// Which side of the cross-section hyperplane a vertex lies on: true for
/// strictly positive depth, false for zero or negative.
pub open spec fn spec_side<S: Scalar, V: ProjectOrthographic<S>>(v: V) -> bool {
    S::spec_zero().spec_lt(v.spec_orthographic_depth())
}

/// The intersection point of the edge between two vertices with the
/// hyperplane, projected down: the interpolation of the two projections at
/// fraction `depth1 / (depth1 - depth2)`. Meaningful when the two depths
/// differ in sign; a degenerate edge with equal depths gives an undefined
/// fraction, which is the documented precondition violation.
pub open spec fn spec_project_edge<S: Scalar, V: ProjectOrthographic<S>>(
    vertex1: V,
    vertex2: V,
) -> V::Projected where V::Projected: InterpolateWith<S> {
    let depth1 = vertex1.spec_orthographic_depth();
    let depth2 = vertex2.spec_orthographic_depth();
    vertex1.spec_project_orthographic().spec_interpolate_with(
        vertex2.spec_project_orthographic(),
        depth1.spec_div(depth1.spec_sub(depth2)),
    )
}

/// Projects the intersection of the edge between the given vertices with the
/// cross-section hyperplane.
pub fn project_edge<S: Scalar, V: ProjectOrthographic<S>>(vertex1: V, vertex2: V) -> (r:
    V::Projected) where V::Projected: InterpolateWith<S>
    ensures
        r == spec_project_edge::<S, V>(vertex1, vertex2),
{
    let depth1 = vertex1.orthographic_depth();
    let depth2 = vertex2.orthographic_depth();
    let intersection = depth1.div(depth1.sub(depth2));
    let vertex1 = vertex1.project_orthographic();
    let vertex2 = vertex2.project_orthographic();
    vertex1.interpolate_with(vertex2, intersection)
}

/// For a tetrahedron with vertices `(0, 1, 2, 3)`, the clockwise winding
/// order of each face, assuming `(0, 1, 2)` is clockwise facing out from
/// vertex 3; entry `i` gives the face without vertex `i`.
pub open spec fn spec_face_winding(i: usize) -> Seq<usize> {
    if i == 0 {
        seq![1usize, 3usize, 2usize]
    } else if i == 1 {
        seq![0usize, 2usize, 3usize]
    } else if i == 2 {
        seq![0usize, 3usize, 1usize]
    } else {
        seq![0usize, 1usize, 2usize]
    }
}

/// One vertex on the negative side: one triangle, in face winding order.
/// Each pair names the two tetrahedron-local vertices whose edge the
/// triangle corner interpolates.
pub open spec fn spec_one_negative(i: usize) -> Seq<Seq<(usize, usize)>> {
    let w = spec_face_winding(i);
    seq![seq![(i, w[0]), (i, w[1]), (i, w[2])]]
}

/// One vertex on the positive side: one triangle, in the reverse of the face
/// winding order.
pub open spec fn spec_three_negative(i: usize) -> Seq<Seq<(usize, usize)>> {
    let w = spec_face_winding(i);
    seq![seq![(i, w[2]), (i, w[1]), (i, w[0])]]
}

/// Two vertices on each side: the intersection is a quadrilateral, split
/// into two triangles by a fixed pattern. The `(neg1, neg2, pos1, pos2)`
/// ordering per sign pattern is chosen so winding is preserved.
pub open spec fn spec_two_negative(n1: usize, n2: usize, p1: usize, p2: usize) -> Seq<
    Seq<(usize, usize)>,
> {
    seq![seq![(n1, p2), (n1, p1), (n2, p2)], seq![(n1, p1), (n2, p1), (n2, p2)]]
}

/// The emission table of the cross-section: given the four vertex sides of a
/// tetrahedron, the list of triangles to emit, each triangle corner naming
/// the local edge it interpolates. All-same-sign patterns contribute
/// nothing; the remaining fourteen patterns emit one or two triangles.
pub open spec fn spec_face_edges(s0: bool, s1: bool, s2: bool, s3: bool) -> Seq<
    Seq<(usize, usize)>,
> {
    if !s0 && !s1 && !s2 && !s3 {
        Seq::empty()
    } else if s0 && s1 && s2 && s3 {
        Seq::empty()
    } else if !s0 && s1 && s2 && s3 {
        spec_one_negative(0)
    } else if s0 && !s1 && s2 && s3 {
        spec_one_negative(1)
    } else if s0 && s1 && !s2 && s3 {
        spec_one_negative(2)
    } else if s0 && s1 && s2 && !s3 {
        spec_one_negative(3)
    } else if s0 && !s1 && !s2 && !s3 {
        spec_three_negative(0)
    } else if !s0 && s1 && !s2 && !s3 {
        spec_three_negative(1)
    } else if !s0 && !s1 && s2 && !s3 {
        spec_three_negative(2)
    } else if !s0 && !s1 && !s2 && s3 {
        spec_three_negative(3)
    } else if !s0 && !s1 && s2 && s3 {
        spec_two_negative(0, 1, 2, 3)
    } else if s0 && s1 && !s2 && !s3 {
        spec_two_negative(3, 2, 1, 0)
    } else if s0 && !s1 && s2 && !s3 {
        spec_two_negative(3, 1, 0, 2)
    } else if !s0 && s1 && !s2 && s3 {
        spec_two_negative(0, 2, 3, 1)
    } else if s0 && !s1 && !s2 && s3 {
        spec_two_negative(2, 1, 3, 0)
    } else {
        spec_two_negative(0, 3, 1, 2)
    }
}

/// Every face of the emission table is a triangle of local edges whose
/// endpoints are in range and lie on opposite sides.
pub open spec fn spec_face_edges_ok(s0: bool, s1: bool, s2: bool, s3: bool) -> bool {
    let sides = seq![s0, s1, s2, s3];
    let faces = spec_face_edges(s0, s1, s2, s3);
    forall|f: int, c: int|
        0 <= f < faces.len() && 0 <= c < 3 ==> {
            let p = #[trigger] faces[f][c];
            &&& faces[f].len() == 3
            &&& p.0 < 4
            &&& p.1 < 4
            &&& sides[p.0 as int] != sides[p.1 as int]
        }
}

/// The emission table is sound for every sign pattern.
pub proof fn lemma_face_edges_ok(s0: bool, s1: bool, s2: bool, s3: bool)
    ensures
        spec_face_edges_ok(s0, s1, s2, s3),
{
    let sides = seq![s0, s1, s2, s3];
    let faces = spec_face_edges(s0, s1, s2, s3);
    assert forall|f: int, c: int| 0 <= f < faces.len() && 0 <= c < 3 implies {
        let p = #[trigger] faces[f][c];
        &&& faces[f].len() == 3
        &&& p.0 < 4
        &&& p.1 < 4
        &&& sides[p.0 as int] != sides[p.1 as int]
    } by {
        assert(f == 0 || f == 1);
        assert(c == 0 || c == 1 || c == 2);
    }
}

/// The sides of the four corners of simplex `t` of the mesh.
pub open spec fn spec_simplex_sides<S: Scalar, V: ProjectOrthographic<S>>(
    m: TetrahedronMesh<V>,
    t: int,
) -> (bool, bool, bool, bool) {
    let st = m.simplexes@[t];
    (
        spec_side::<S, V>(m.vertices@[st@[0] as int]),
        spec_side::<S, V>(m.vertices@[st@[1] as int]),
        spec_side::<S, V>(m.vertices@[st@[2] as int]),
        spec_side::<S, V>(m.vertices@[st@[3] as int]),
    )
}

/// The triangles the table emits for simplex `t` of the mesh.
pub open spec fn spec_faces_of<S: Scalar, V: ProjectOrthographic<S>>(
    m: TetrahedronMesh<V>,
    t: int,
) -> Seq<Seq<(usize, usize)>> {
    let sides = spec_simplex_sides::<S, V>(m, t);
    spec_face_edges(sides.0, sides.1, sides.2, sides.3)
}

/// How many triangles the cross-section emits for the first `t` simplexes.
pub open spec fn spec_face_count<S: Scalar, V: ProjectOrthographic<S>>(
    m: TetrahedronMesh<V>,
    t: int,
) -> int
    decreases t,
{
    if t <= 0 {
        0
    } else {
        spec_face_count::<S, V>(m, t - 1) + spec_faces_of::<S, V>(m, t - 1).len()
    }
}

/// The face count is nondecreasing in the prefix length.
pub proof fn lemma_face_count_le<S: Scalar, V: ProjectOrthographic<S>>(
    m: TetrahedronMesh<V>,
    t1: int,
    t2: int,
)
    requires
        0 <= t1 <= t2,
    ensures
        spec_face_count::<S, V>(m, t1) <= spec_face_count::<S, V>(m, t2),
    decreases t2 - t1,
{
    if t1 < t2 {
        lemma_face_count_le::<S, V>(m, t1, t2 - 1);
    }
}

/// Within a prefix of the simplexes, a face index stays below the total
/// face count.
pub proof fn lemma_face_count_bound<S: Scalar, V: ProjectOrthographic<S>>(
    m: TetrahedronMesh<V>,
    tt: int,
    ff: int,
    t: int,
)
    requires
        0 <= tt < t <= m.simplexes@.len(),
        0 <= ff < spec_faces_of::<S, V>(m, tt).len(),
    ensures
        0 <= spec_face_count::<S, V>(m, tt),
        spec_face_count::<S, V>(m, tt) + ff < spec_face_count::<S, V>(m, t),
{
    lemma_face_count_le::<S, V>(m, 0, tt);
    assert(spec_face_count::<S, V>(m, tt + 1) == spec_face_count::<S, V>(m, tt)
        + spec_faces_of::<S, V>(m, tt).len());
    lemma_face_count_le::<S, V>(m, tt + 1, t);
}

/// An edge key: the unordered pair of vertex indices, lower index first.
pub open spec fn spec_edge_key(i: usize, j: usize) -> (usize, usize) {
    if i <= j {
        (i, j)
    } else {
        (j, i)
    }
}

/// What one entry of the edge memo means: the key is an in-range, normalized
/// pair of vertices on opposite sides of the hyperplane, and the output
/// vertex stored for it is the projected intersection of that edge, computed
/// in one of the two traversal orders.
pub open spec fn spec_ek_entry_ok<S: Scalar, V: ProjectOrthographic<S>>(
    pv: Seq<<V as ProjectOrthographic<S>>::Projected>,
    m: TetrahedronMesh<V>,
    ek: Seq<(usize, usize)>,
    k: int,
) -> bool where V::Projected: InterpolateWith<S> {
    let a = ek[k].0;
    let b = ek[k].1;
    &&& a < m.vertices@.len()
    &&& b < m.vertices@.len()
    &&& a <= b
    &&& spec_side::<S, V>(m.vertices@[a as int]) != spec_side::<S, V>(m.vertices@[b as int])
    &&& (pv[k] == spec_project_edge::<S, V>(m.vertices@[a as int], m.vertices@[b as int]) || pv[k]
        == spec_project_edge::<S, V>(m.vertices@[b as int], m.vertices@[a as int]))
}

/// No edge is recorded twice: adjacent tetrahedra sharing an edge share the
/// single output vertex made for it.
pub open spec fn spec_keys_distinct(ek: Seq<(usize, usize)>) -> bool {
    forall|k1: int, k2: int| 0 <= k1 < k2 < ek.len() ==> ek[k1] != ek[k2]
}

/// Some emitted triangle has vertex `k` as a corner: the output holds no
/// vertex that no triangle uses.
pub open spec fn spec_vertex_used(tris: Seq<[usize; 3]>, k: int) -> bool {
    exists|i: int, c: int| 0 <= i < tris.len() && 0 <= c < 3 && (#[trigger] tris[i]@[c]) as int == k
}

/// What one output triangle means: its three corners are the memoized
/// intersection vertices of exactly the three local edges that the emission
/// table names for face `f` of simplex `t`, in the table's winding order.
pub open spec fn spec_tri_ok<S: Scalar, V: ProjectOrthographic<S>>(
    m: TetrahedronMesh<V>,
    ek: Seq<(usize, usize)>,
    tri: Seq<usize>,
    t: int,
    f: int,
) -> bool {
    let face = spec_faces_of::<S, V>(m, t)[f];
    let st = m.simplexes@[t];
    &&& tri.len() == 3
    &&& forall|c: int|
        0 <= c < 3 ==> (#[trigger] tri[c]) < ek.len() && ek[tri[c] as int] == spec_edge_key(
            st@[face[c].0 as int],
            st@[face[c].1 as int],
        )
}

/// A memo entry keeps its meaning when another edge is discovered and
/// appended.
pub proof fn lemma_ek_entry_push<S: Scalar, V: ProjectOrthographic<S>>(
    pv: Seq<<V as ProjectOrthographic<S>>::Projected>,
    m: TetrahedronMesh<V>,
    ek: Seq<(usize, usize)>,
    v: <V as ProjectOrthographic<S>>::Projected,
    key: (usize, usize),
    k: int,
) where V::Projected: InterpolateWith<S>
    requires
        spec_ek_entry_ok::<S, V>(pv, m, ek, k),
        0 <= k < ek.len(),
        pv.len() == ek.len(),
    ensures
        spec_ek_entry_ok::<S, V>(pv.push(v), m, ek.push(key), k),
{
    assert(ek.push(key)[k] == ek[k]);
    assert(pv.push(v)[k] == pv[k]);
}

/// An emitted triangle keeps its meaning when another edge is discovered and
/// appended.
pub proof fn lemma_tri_ok_push<S: Scalar, V: ProjectOrthographic<S>>(
    m: TetrahedronMesh<V>,
    ek: Seq<(usize, usize)>,
    key: (usize, usize),
    tri: Seq<usize>,
    t: int,
    f: int,
)
    requires
        spec_tri_ok::<S, V>(m, ek, tri, t, f),
    ensures
        spec_tri_ok::<S, V>(m, ek.push(key), tri, t, f),
{
    let face = spec_faces_of::<S, V>(m, t)[f];
    let st = m.simplexes@[t];
    assert forall|c: int| 0 <= c < 3 implies (#[trigger] tri[c]) < ek.push(key).len() && ek.push(
        key,
    )[tri[c] as int] == spec_edge_key(st@[face[c].0 as int], st@[face[c].1 as int]) by {
        assert(tri[c] < ek.len() && ek[tri[c] as int] == spec_edge_key(
            st@[face[c].0 as int],
            st@[face[c].1 as int],
        ));
        assert(ek.push(key)[tri[c] as int] == ek[tri[c] as int]);
    }
}

/// The full meaning of the cross-section, relative to the sequence `ek` of
/// crossing edges in order of discovery: the output vertices are exactly the
/// memoized intersections of the distinct crossing edges, and the output
/// triangles are exactly, in order, the table's faces for each source
/// simplex, their corners pointing at the shared intersection vertices.
pub open spec fn spec_is_cross_section<S: Scalar, V: ProjectOrthographic<S>>(
    r: TriangleMesh<<V as ProjectOrthographic<S>>::Projected>,
    m: TetrahedronMesh<V>,
    ek: Seq<(usize, usize)>,
) -> bool where V::Projected: InterpolateWith<S> {
    &&& r.vertices@.len() == ek.len()
    &&& forall|k: int|
        0 <= k < ek.len() ==> #[trigger] spec_ek_entry_ok::<S, V>(r.vertices@, m, ek, k)
    &&& spec_keys_distinct(ek)
    &&& forall|k: int| 0 <= k < ek.len() ==> spec_vertex_used(r.simplexes@, k)
    &&& r.simplexes@.len() == spec_face_count::<S, V>(m, m.simplexes@.len() as int)
    &&& forall|t: int, f: int|
        0 <= t < m.simplexes@.len() && 0 <= f < spec_faces_of::<S, V>(m, t).len()
            ==> #[trigger] spec_tri_ok::<S, V>(
            m,
            ek,
            r.simplexes@[spec_face_count::<S, V>(m, t) + f]@,
            t,
            f,
        )
}

/// The cross-section of a mesh: the portion that intersects the hyperplane
/// one dimension lower than the mesh, where the highest coordinate is zero.
pub trait CrossSection<S: Scalar> {
    type CrossSectioned;

    /// Whether this mesh is fit to be sliced: its indices must be in range.
    spec fn cross_section_ok(&self) -> bool;

    /// Returns the cross section of this mesh. Preserves the handedness
    /// (winding order) of the source mesh in the resulting mesh, so that
    /// e.g. a clockwise tetrahedron gives clockwise triangles.
    fn cross_section(&self) -> Self::CrossSectioned
        requires
            self.cross_section_ok(),
    ;
}

/// The sequence view of an emitted face list.
pub open spec fn spec_faces_view(v: Seq<[(usize, usize); 3]>) -> Seq<Seq<(usize, usize)>> {
    v.map_values(|a: [(usize, usize); 3]| a@)
}

/// The face opposite vertex `i` of a tetrahedron, in clockwise winding
/// order as seen from vertex `i`.
fn face_winding(i: usize) -> (r: [usize; 3])
    requires
        i < 4,
    ensures
        r@ == spec_face_winding(i),
{
    let r: [usize; 3] = if i == 0 {
        [1, 3, 2]
    } else if i == 1 {
        [0, 2, 3]
    } else if i == 2 {
        [0, 3, 1]
    } else {
        [0, 1, 2]
    };
    proof {
        assert(r@ =~= spec_face_winding(i));
    }
    r
}

/// One vertex on the negative side: emit the face winding order. Takes the
/// index of the one negative-depth vertex.
fn one_negative_case(i: usize) -> (r: Vec<[(usize, usize); 3]>)
    requires
        i < 4,
    ensures
        spec_faces_view(r@) == spec_one_negative(i),
{
    let w = face_winding(i);
    let mut r: Vec<[(usize, usize); 3]> = Vec::new();
    r.push([(i, w[0]), (i, w[1]), (i, w[2])]);
    proof {
        assert(r@[0]@ =~= spec_one_negative(i)[0]);
        assert(spec_faces_view(r@) =~~= spec_one_negative(i));
    }
    r
}

/// One vertex on the positive side: emit the opposite of the face winding
/// order. Takes the index of the one positive-depth vertex.
fn three_negative_case(i: usize) -> (r: Vec<[(usize, usize); 3]>)
    requires
        i < 4,
    ensures
        spec_faces_view(r@) == spec_three_negative(i),
{
    let w = face_winding(i);
    let mut r: Vec<[(usize, usize); 3]> = Vec::new();
    r.push([(i, w[2]), (i, w[1]), (i, w[0])]);
    proof {
        assert(r@[0]@ =~= spec_three_negative(i)[0]);
        assert(spec_faces_view(r@) =~~= spec_three_negative(i));
    }
    r
}

/// Two vertices on the negative side: a quadrilateral intersection, mapped
/// to two triangles. The pattern comes from drawing things out, enumerating
/// the cases, and reducing.
fn two_negative_case(n1: usize, n2: usize, p1: usize, p2: usize) -> (r: Vec<
    [(usize, usize); 3],
>)
    ensures
        spec_faces_view(r@) == spec_two_negative(n1, n2, p1, p2),
{
    let mut r: Vec<[(usize, usize); 3]> = Vec::new();
    r.push([(n1, p2), (n1, p1), (n2, p2)]);
    r.push([(n1, p1), (n2, p1), (n2, p2)]);
    proof {
        assert(r@[0]@ =~= spec_two_negative(n1, n2, p1, p2)[0]);
        assert(r@[1]@ =~= spec_two_negative(n1, n2, p1, p2)[1]);
        assert(spec_faces_view(r@) =~~= spec_two_negative(n1, n2, p1, p2));
    }
    r
}

impl<S: Scalar, V: ProjectOrthographic<S> + Copy> CrossSection<S> for TetrahedronMesh<
    V,
> where V::Projected: InterpolateWith<S> {
    type CrossSectioned = TriangleMesh<V::Projected>;

    /// The mesh's indices must refer to vertices.
    open spec fn cross_section_ok(&self) -> bool {
        self.wf()
    }

    /// The contract is [`spec_is_cross_section`], witnessed by the sequence
    /// of crossing edges in order of discovery: one output vertex per
    /// distinct crossing edge, holding that edge's interpolated
    /// intersection, and per source tetrahedron exactly the emission table's
    /// triangles, their corners pointing at the shared vertices.
    fn cross_section(&self) -> (r: TriangleMesh<V::Projected>)
        ensures
            r.wf(),
            exists|ek: Seq<(usize, usize)>| spec_is_cross_section::<S, V>(r, *self, ek),
    {
        let mut edge_keys: Vec<(usize, usize)> = Vec::new();
        let mut projected_vertices: Vec<V::Projected> = Vec::new();
        let mut projected_simplexes: Vec<[usize; 3]> = Vec::new();
        let mut t: usize = 0;
        while t < self.simplexes.len()
            invariant
                self.wf(),
                t <= self.simplexes@.len(),
                projected_vertices@.len() == edge_keys@.len(),
                forall|k: int|
                    0 <= k < edge_keys@.len() ==> #[trigger] spec_ek_entry_ok::<S, V>(
                        projected_vertices@,
                        *self,
                        edge_keys@,
                        k,
                    ),
                spec_keys_distinct(edge_keys@),
                forall|k: int|
                    0 <= k < edge_keys@.len() ==> spec_vertex_used(projected_simplexes@, k),
                projected_simplexes@.len() == spec_face_count::<S, V>(*self, t as int),
                forall|i: int, j: int|
                    0 <= i < projected_simplexes@.len() && 0 <= j < 3
                        ==> #[trigger] projected_simplexes@[i]@[j] < edge_keys@.len(),
                forall|tt: int, ff: int|
                    0 <= tt < t && 0 <= ff < spec_faces_of::<S, V>(*self, tt).len()
                        ==> #[trigger] spec_tri_ok::<S, V>(
                        *self,
                        edge_keys@,
                        projected_simplexes@[spec_face_count::<S, V>(*self, tt) + ff]@,
                        tt,
                        ff,
                    ),
            decreases self.simplexes@.len() - t,
        {
            let st = self.simplexes[t];
            assert(st@[0] < self.vertices@.len() && st@[1] < self.vertices@.len() && st@[2]
                < self.vertices@.len() && st@[3] < self.vertices@.len());
            let s0 = S::zero().lt(self.vertices[st[0]].orthographic_depth());
            let s1 = S::zero().lt(self.vertices[st[1]].orthographic_depth());
            let s2 = S::zero().lt(self.vertices[st[2]].orthographic_depth());
            let s3 = S::zero().lt(self.vertices[st[3]].orthographic_depth());
            proof {
                assert(s0 == spec_side::<S, V>(self.vertices@[st@[0] as int]));
                assert(s1 == spec_side::<S, V>(self.vertices@[st@[1] as int]));
                assert(s2 == spec_side::<S, V>(self.vertices@[st@[2] as int]));
                assert(s3 == spec_side::<S, V>(self.vertices@[st@[3] as int]));
                lemma_face_edges_ok(s0, s1, s2, s3);
            }
            let faces: Vec<[(usize, usize); 3]> = match (s0, s1, s2, s3) {
                (false, false, false, false) => Vec::new(),
                (true, true, true, true) => Vec::new(),
                (false, true, true, true) => one_negative_case(0),
                (true, false, true, true) => one_negative_case(1),
                (true, true, false, true) => one_negative_case(2),
                (true, true, true, false) => one_negative_case(3),
                (true, false, false, false) => three_negative_case(0),
                (false, true, false, false) => three_negative_case(1),
                (false, false, true, false) => three_negative_case(2),
                (false, false, false, true) => three_negative_case(3),
                (false, false, true, true) => two_negative_case(0, 1, 2, 3),
                (true, true, false, false) => two_negative_case(3, 2, 1, 0),
                (true, false, true, false) => two_negative_case(3, 1, 0, 2),
                (false, true, false, true) => two_negative_case(0, 2, 3, 1),
                (true, false, false, true) => two_negative_case(2, 1, 3, 0),
                (false, true, true, false) => two_negative_case(0, 3, 1, 2),
            };
            proof {
                assert(spec_faces_view(faces@) =~~= spec_faces_of::<S, V>(*self, t as int));
            }
            let ghost pre_count = projected_simplexes@.len();
            let mut f: usize = 0;
            while f < faces.len()
                invariant
                    self.wf(),
                    t < self.simplexes@.len(),
                    st == self.simplexes@[t as int],
                    s0 == spec_side::<S, V>(self.vertices@[st@[0] as int]),
                    s1 == spec_side::<S, V>(self.vertices@[st@[1] as int]),
                    s2 == spec_side::<S, V>(self.vertices@[st@[2] as int]),
                    s3 == spec_side::<S, V>(self.vertices@[st@[3] as int]),
                    spec_face_edges_ok(s0, s1, s2, s3),
                    spec_faces_view(faces@) == spec_faces_of::<S, V>(*self, t as int),
                    f <= faces@.len(),
                    projected_vertices@.len() == edge_keys@.len(),
                    forall|k: int|
                        0 <= k < edge_keys@.len() ==> #[trigger] spec_ek_entry_ok::<S, V>(
                            projected_vertices@,
                            *self,
                            edge_keys@,
                            k,
                        ),
                    spec_keys_distinct(edge_keys@),
                    forall|k: int|
                        0 <= k < edge_keys@.len() ==> spec_vertex_used(projected_simplexes@, k),
                    pre_count == spec_face_count::<S, V>(*self, t as int),
                    projected_simplexes@.len() == pre_count + f,
                    forall|i: int, j: int|
                        0 <= i < projected_simplexes@.len() && 0 <= j < 3
                            ==> #[trigger] projected_simplexes@[i]@[j] < edge_keys@.len(),
                    forall|tt: int, ff: int|
                        0 <= tt < t && 0 <= ff < spec_faces_of::<S, V>(*self, tt).len()
                            ==> #[trigger] spec_tri_ok::<S, V>(
                            *self,
                            edge_keys@,
                            projected_simplexes@[spec_face_count::<S, V>(*self, tt) + ff]@,
                            tt,
                            ff,
                        ),
                    forall|ff: int|
                        0 <= ff < f ==> #[trigger] spec_tri_ok::<S, V>(
                            *self,
                            edge_keys@,
                            projected_simplexes@[pre_count + ff]@,
                            t as int,
                            ff,
                        ),
                decreases faces@.len() - f,
            {
                let face = faces[f];
                proof {
                    assert(face@ == spec_faces_of::<S, V>(*self, t as int)[f as int]);
                }
                let mut tri: [usize; 3] = [0, 0, 0];
                let mut c: usize = 0;
                while c < 3
                    invariant
                        self.wf(),
                        t < self.simplexes@.len(),
                        f < faces@.len(),
                        st == self.simplexes@[t as int],
                        s0 == spec_side::<S, V>(self.vertices@[st@[0] as int]),
                        s1 == spec_side::<S, V>(self.vertices@[st@[1] as int]),
                        s2 == spec_side::<S, V>(self.vertices@[st@[2] as int]),
                        s3 == spec_side::<S, V>(self.vertices@[st@[3] as int]),
                        spec_face_edges_ok(s0, s1, s2, s3),
                        spec_faces_view(faces@) == spec_faces_of::<S, V>(*self, t as int),
                        face@ == spec_faces_of::<S, V>(*self, t as int)[f as int],
                        c <= 3,
                        tri@.len() == 3,
                        projected_vertices@.len() == edge_keys@.len(),
                        forall|k: int|
                            0 <= k < edge_keys@.len() ==> #[trigger] spec_ek_entry_ok::<S, V>(
                                projected_vertices@,
                                *self,
                                edge_keys@,
                                k,
                            ),
                        spec_keys_distinct(edge_keys@),
                        forall|k: int|
                            0 <= k < edge_keys@.len() ==> spec_vertex_used(
                                projected_simplexes@,
                                k,
                            ) || (exists|cc: int|
                                0 <= cc < c && (#[trigger] tri@[cc]) as int == k),
                        pre_count == spec_face_count::<S, V>(*self, t as int),
                        projected_simplexes@.len() == pre_count + f,
                        forall|i: int, j: int|
                            0 <= i < projected_simplexes@.len() && 0 <= j < 3
                                ==> #[trigger] projected_simplexes@[i]@[j] < edge_keys@.len(),
                        forall|tt: int, ff: int|
                            0 <= tt < t && 0 <= ff < spec_faces_of::<S, V>(*self, tt).len()
                                ==> #[trigger] spec_tri_ok::<S, V>(
                                *self,
                                edge_keys@,
                                projected_simplexes@[spec_face_count::<S, V>(*self, tt) + ff]@,
                                tt,
                                ff,
                            ),
                        forall|ff: int|
                            0 <= ff < f ==> #[trigger] spec_tri_ok::<S, V>(
                                *self,
                                edge_keys@,
                                projected_simplexes@[pre_count + ff]@,
                                t as int,
                                ff,
                            ),
                        forall|cc: int|
                            0 <= cc < c ==> (#[trigger] tri@[cc]) < edge_keys@.len()
                                && edge_keys@[tri@[cc] as int] == spec_edge_key(
                                st@[face@[cc].0 as int],
                                st@[face@[cc].1 as int],
                            ),
                    decreases 3 - c,
                {
                    let pair = face[c];
                    let il = pair.0;
                    let jl = pair.1;
                    proof {
                        assert(face@[c as int] == spec_faces_of::<S, V>(*self, t as int)[f as int][
                            c as int
                        ]);
                        assert(il < 4 && jl < 4 && seq![s0, s1, s2, s3][il as int] != seq![
                            s0,
                            s1,
                            s2,
                            s3,
                        ][jl as int]);
                    }
                    let gi = st[il];
                    let gj = st[jl];
                    proof {
                        assert(il == 0 || il == 1 || il == 2 || il == 3);
                        assert(jl == 0 || jl == 1 || jl == 2 || jl == 3);
                        assert(spec_side::<S, V>(self.vertices@[gi as int]) == seq![s0, s1, s2, s3][
                            il as int
                        ]);
                        assert(spec_side::<S, V>(self.vertices@[gj as int]) == seq![s0, s1, s2, s3][
                            jl as int
                        ]);
                        assert(gi < self.vertices@.len() && gj < self.vertices@.len());
                    }
                    let key: (usize, usize) = if gi <= gj {
                        (gi, gj)
                    } else {
                        (gj, gi)
                    };
                    let mut idx: usize = 0;
                    let mut found = false;
                    let mut k: usize = 0;
                    while k < edge_keys.len()
                        invariant
                            k <= edge_keys@.len(),
                            !found ==> forall|kk: int|
                                0 <= kk < k ==> #[trigger] edge_keys@[kk] != key,
                            found ==> idx < edge_keys@.len() && edge_keys@[idx as int] == key,
                        decreases edge_keys@.len() - k,
                    {
                        if !found {
                            let e = edge_keys[k];
                            if e.0 == key.0 && e.1 == key.1 {
                                found = true;
                                idx = k;
                            }
                        }
                        k += 1;
                    }
                    let vi: usize;
                    if found {
                        vi = idx;
                    } else {
                        let ghost old_ek = edge_keys@;
                        let ghost old_pv = projected_vertices@;
                        let projected = project_edge(self.vertices[gi], self.vertices[gj]);
                        projected_vertices.push(projected);
                        edge_keys.push(key);
                        vi = edge_keys.len() - 1;
                        proof {
                            let ek = edge_keys@;
                            let pv = projected_vertices@;
                            assert(ek == old_ek.push(key));
                            assert(pv == old_pv.push(projected));
                            assert(key == spec_edge_key(gi, gj));
                            assert(spec_side::<S, V>(self.vertices@[key.0 as int]) != spec_side::<
                                S,
                                V,
                            >(self.vertices@[key.1 as int]));
                            assert(spec_ek_entry_ok::<S, V>(pv, *self, ek, ek.len() - 1));
                            assert forall|kk: int|
                                0 <= kk < ek.len() implies #[trigger] spec_ek_entry_ok::<S, V>(
                                pv,
                                *self,
                                ek,
                                kk,
                            ) by {
                                if kk < ek.len() - 1 {
                                    assert(spec_ek_entry_ok::<S, V>(old_pv, *self, old_ek, kk));
                                    lemma_ek_entry_push::<S, V>(
                                        old_pv,
                                        *self,
                                        old_ek,
                                        projected,
                                        key,
                                        kk,
                                    );
                                }
                            }
                            assert forall|k1: int, k2: int|
                                0 <= k1 < k2 < ek.len() implies ek[k1] != ek[k2] by {
                                if k2 < ek.len() - 1 {
                                    assert(old_ek[k1] != old_ek[k2]);
                                } else {
                                    assert(ek[k1] == old_ek[k1]);
                                    assert(old_ek[k1] != key);
                                }
                            }
                            assert forall|tt: int, ff: int|
                                0 <= tt < t && 0 <= ff < spec_faces_of::<S, V>(
                                    *self,
                                    tt,
                                ).len() implies #[trigger] spec_tri_ok::<S, V>(
                                *self,
                                ek,
                                projected_simplexes@[spec_face_count::<S, V>(*self, tt) + ff]@,
                                tt,
                                ff,
                            ) by {
                                lemma_tri_ok_push::<S, V>(
                                    *self,
                                    old_ek,
                                    key,
                                    projected_simplexes@[spec_face_count::<S, V>(*self, tt) + ff]@,
                                    tt,
                                    ff,
                                );
                            }
                            assert forall|ff: int| 0 <= ff < f implies #[trigger] spec_tri_ok::<
                                S,
                                V,
                            >(
                                *self,
                                ek,
                                projected_simplexes@[pre_count + ff]@,
                                t as int,
                                ff,
                            ) by {
                                lemma_tri_ok_push::<S, V>(
                                    *self,
                                    old_ek,
                                    key,
                                    projected_simplexes@[pre_count + ff]@,
                                    t as int,
                                    ff,
                                );
                            }
                            assert forall|cc: int|
                                0 <= cc < c implies (#[trigger] tri@[cc]) < ek.len()
                                && ek[tri@[cc] as int] == spec_edge_key(
                                st@[face@[cc].0 as int],
                                st@[face@[cc].1 as int],
                            ) by {
                                assert(tri@[cc] < old_ek.len());
                                assert(ek[tri@[cc] as int] == old_ek[tri@[cc] as int]);
                            }
                        }
                    }
                    proof {
                        assert(edge_keys@[vi as int] == spec_edge_key(
                            st@[face@[c as int].0 as int],
                            st@[face@[c as int].1 as int],
                        ));
                    }
                    let ghost tri_before = tri@;
                    tri[c] = vi;
                    proof {
                        assert(tri@ == tri_before.update(c as int, vi));
                        assert forall|k: int| 0 <= k < edge_keys@.len() implies spec_vertex_used(
                            projected_simplexes@,
                            k,
                        ) || (exists|cc: int|
                            0 <= cc < c + 1 && (#[trigger] tri@[cc]) as int == k) by {
                            if vi as int == k {
                                assert(tri@[c as int] as int == k);
                            } else if !spec_vertex_used(projected_simplexes@, k) {
                                let cc = choose|cc: int|
                                    0 <= cc < c && (#[trigger] tri_before[cc]) as int == k;
                                assert(tri@[cc] == tri_before[cc]);
                            }
                        }
                    }
                    c += 1;
                }
                let ghost old_tris = projected_simplexes@;
                projected_simplexes.push(tri);
                proof {
                    let tris = projected_simplexes@;
                    assert(tris == old_tris.push(tri));
                    assert(tris[pre_count + f]@ == tri@);
                    assert(spec_tri_ok::<S, V>(*self, edge_keys@, tri@, t as int, f as int));
                    assert forall|k: int| 0 <= k < edge_keys@.len() implies spec_vertex_used(
                        tris,
                        k,
                    ) by {
                        if spec_vertex_used(old_tris, k) {
                            let (i, c) = choose|i: int, c: int|
                                0 <= i < old_tris.len() && 0 <= c < 3 && (#[trigger] old_tris[
                                    i
                                ]@[c]) as int == k;
                            assert(tris[i]@[c] as int == k);
                        } else {
                            let cc = choose|cc: int|
                                0 <= cc < 3 && (#[trigger] tri@[cc]) as int == k;
                            assert(tris[old_tris.len() as int]@[cc] as int == k);
                        }
                    }
                    assert forall|tt: int, ff: int|
                        0 <= tt < t && 0 <= ff < spec_faces_of::<S, V>(
                            *self,
                            tt,
                        ).len() implies #[trigger] spec_tri_ok::<S, V>(
                        *self,
                        edge_keys@,
                        tris[spec_face_count::<S, V>(*self, tt) + ff]@,
                        tt,
                        ff,
                    ) by {
                        lemma_face_count_bound::<S, V>(*self, tt, ff, t as int);
                        assert(tris[spec_face_count::<S, V>(*self, tt) + ff] == old_tris[
                            spec_face_count::<S, V>(*self, tt) + ff
                        ]);
                    }
                    assert forall|ff: int| 0 <= ff < f + 1 implies #[trigger] spec_tri_ok::<S, V>(
                        *self,
                        edge_keys@,
                        tris[pre_count + ff]@,
                        t as int,
                        ff,
                    ) by {
                        if ff < f {
                            assert(tris[pre_count + ff] == old_tris[pre_count + ff]);
                        }
                    }
                }
                f += 1;
            }
            proof {
                assert(spec_face_count::<S, V>(*self, t + 1) == spec_face_count::<S, V>(
                    *self,
                    t as int,
                ) + spec_faces_of::<S, V>(*self, t as int).len());
            }
            t += 1;
        }
        let r = TriangleMesh { vertices: projected_vertices, simplexes: projected_simplexes };
        proof {
            let ek = edge_keys@;
            assert(spec_is_cross_section::<S, V>(r, *self, ek));
        }
        r
    }
}

/// How many of a tetrahedron's four vertices lie on the positive side.
pub open spec fn spec_positive_count(s0: bool, s1: bool, s2: bool, s3: bool) -> int {
    (if s0 {
        1int
    } else {
        0int
    }) + (if s1 {
        1int
    } else {
        0int
    }) + (if s2 {
        1int
    } else {
        0int
    }) + (if s3 {
        1int
    } else {
        0int
    })
}

/// How many triangles the emission table yields for each sign pattern: none
/// when all four vertices lie on one side, one for a one-three split, two
/// for a two-two split.
pub proof fn lemma_face_edges_count(s0: bool, s1: bool, s2: bool, s3: bool)
    ensures
        spec_face_edges(s0, s1, s2, s3).len() == (if spec_positive_count(s0, s1, s2, s3) == 0
            || spec_positive_count(s0, s1, s2, s3) == 4 {
            0int
        } else if spec_positive_count(s0, s1, s2, s3) == 2 {
            2int
        } else {
            1int
        }),
{
}

/// Orientation preservation, the combinatorial half: a tetrahedron with one
/// vertex strictly above the hyperplane and three on or below it — or the
/// mirror split — is sliced into exactly one triangle, whichever of its four
/// vertices carries the lone sign. The winding (handedness) half of the
/// guarantee is a numeric property of the caller's arithmetic and is
/// exercised by tests.
pub proof fn lemma_one_three_split_single_triangle<S: Scalar, V: ProjectOrthographic<S>>(
    r: TriangleMesh<<V as ProjectOrthographic<S>>::Projected>,
    m: TetrahedronMesh<V>,
    ek: Seq<(usize, usize)>,
) where V::Projected: InterpolateWith<S>
    requires
        spec_is_cross_section::<S, V>(r, m, ek),
        m.simplexes@.len() == 1,
        ({
            // The tetrahedron is non-degenerate: its corners are four
            // different vertices.
            let st = m.simplexes@[0];
            &&& st@[0] != st@[1]
            &&& st@[0] != st@[2]
            &&& st@[0] != st@[3]
            &&& st@[1] != st@[2]
            &&& st@[1] != st@[3]
            &&& st@[2] != st@[3]
        }),
        ({
            let s = spec_simplex_sides::<S, V>(m, 0);
            spec_positive_count(s.0, s.1, s.2, s.3) == 1 || spec_positive_count(
                s.0,
                s.1,
                s.2,
                s.3,
            ) == 3
        }),
    ensures
        r.simplexes@.len() == 1,
        r.vertices@.len() == 3,
{
    let s = spec_simplex_sides::<S, V>(m, 0);
    lemma_face_edges_count(s.0, s.1, s.2, s.3);
    assert(spec_face_count::<S, V>(m, 1) == spec_face_count::<S, V>(m, 0) + spec_faces_of::<S, V>(
        m,
        0,
    ).len());
    assert(r.simplexes@.len() == 1);
    let st = m.simplexes@[0];
    let face = spec_faces_of::<S, V>(m, 0)[0];
    assert(spec_face_count::<S, V>(m, 0) == 0);
    assert(spec_tri_ok::<S, V>(m, ek, r.simplexes@[spec_face_count::<S, V>(m, 0) + 0]@, 0, 0));
    assert(spec_tri_ok::<S, V>(m, ek, r.simplexes@[0]@, 0, 0));
    let tri = r.simplexes@[0]@;
    assert(tri[0] < ek.len() && tri[1] < ek.len() && tri[2] < ek.len());
    // The three corner keys are pairwise different edges of the tetrahedron.
    let k0 = ek[tri[0] as int];
    let k1 = ek[tri[1] as int];
    let k2 = ek[tri[2] as int];
    assert(k0 != k1 && k0 != k2 && k1 != k2) by {
        lemma_face_edges_ok(s.0, s.1, s.2, s.3);
        assert(k0 == spec_edge_key(st@[face[0].0 as int], st@[face[0].1 as int]));
        assert(k1 == spec_edge_key(st@[face[1].0 as int], st@[face[1].1 as int]));
        assert(k2 == spec_edge_key(st@[face[2].0 as int], st@[face[2].1 as int]));
    }
    // Different keys stand at different memo positions, so there are at
    // least three vertices.
    assert(tri[0] != tri[1] && tri[0] != tri[2] && tri[1] != tri[2]);
    assert(ek.len() >= 3);
    // Every vertex is used by the single triangle, so there are at most
    // three: four distinct vertex indices cannot each be one of its three
    // corners.
    assert(ek.len() <= 3) by {
        if ek.len() > 3 {
            assert(spec_vertex_used(r.simplexes@, 0));
            assert(spec_vertex_used(r.simplexes@, 1));
            assert(spec_vertex_used(r.simplexes@, 2));
            assert(spec_vertex_used(r.simplexes@, 3));
            let (i0, c0) = choose|i: int, c: int|
                0 <= i < r.simplexes@.len() && 0 <= c < 3 && (#[trigger] r.simplexes@[i]@[c]) as int
                    == 0;
            let (i1, c1) = choose|i: int, c: int|
                0 <= i < r.simplexes@.len() && 0 <= c < 3 && (#[trigger] r.simplexes@[i]@[c]) as int
                    == 1;
            let (i2, c2) = choose|i: int, c: int|
                0 <= i < r.simplexes@.len() && 0 <= c < 3 && (#[trigger] r.simplexes@[i]@[c]) as int
                    == 2;
            let (i3, c3) = choose|i: int, c: int|
                0 <= i < r.simplexes@.len() && 0 <= c < 3 && (#[trigger] r.simplexes@[i]@[c]) as int
                    == 3;
            assert(i0 == 0 && i1 == 0 && i2 == 0 && i3 == 0);
            assert(false);
        }
    }
}

/// The face count over a prefix of an extruded mesh: every source triangle's
/// three prism tetrahedra are split one-negative, two-negative,
/// three-negative by the midplane, contributing one, two and one triangles.
proof fn lemma_extrusion_face_count<S: Scalar, V: LiftOrthographic<S>>(
    m2: TetrahedronMesh<<V as LiftOrthographic<S>>::Lifted>,
    m: TriangleMesh<V>,
    height: S,
    j: int,
) where
    <V as LiftOrthographic<S>>::Lifted: ProjectOrthographic<S>,

    requires
        m.wf(),
        m.vertices@.len() * 2 <= usize::MAX,
        spec_is_extrusion::<S, V>(m2, m, height),
        forall|i: int|
            0 <= i < m.vertices@.len() ==> spec_side::<S, <V as LiftOrthographic<S>>::Lifted>(
                #[trigger] m2.vertices@[i],
            ),
        forall|i: int|
            m.vertices@.len() <= i < m2.vertices@.len() ==> !spec_side::<
                S,
                <V as LiftOrthographic<S>>::Lifted,
            >(#[trigger] m2.vertices@[i]),
        0 <= j <= m.simplexes@.len(),
    ensures
        spec_face_count::<S, <V as LiftOrthographic<S>>::Lifted>(m2, 3 * j) == 4 * j,
    decreases j,
{
    if j > 0 {
        lemma_extrusion_face_count::<S, V>(m2, m, height, j - 1);
        let k = j - 1;
        let f = m.simplexes@[k]@;
        let n = m.vertices@.len() as usize;
        assert(m.simplexes@[k]@[0] < m.vertices@.len());
        assert(m.simplexes@[k]@[1] < m.vertices@.len());
        assert(m.simplexes@[k]@[2] < m.vertices@.len());
        assert(f[0] < n && f[1] < n && f[2] < n);
        assert(m2.simplexes@[3 * k]@ == spec_prism_tet0(f, n));
        assert(m2.simplexes@[3 * k + 1]@ == spec_prism_tet1(f, n));
        assert(m2.simplexes@[3 * k + 2]@ == spec_prism_tet2(f, n));
        assert(spec_simplex_sides::<S, <V as LiftOrthographic<S>>::Lifted>(m2, 3 * k) == (
            true,
            true,
            true,
            false,
        ));
        assert(spec_simplex_sides::<S, <V as LiftOrthographic<S>>::Lifted>(m2, 3 * k + 1) == (
            true,
            true,
            false,
            false,
        ));
        assert(spec_simplex_sides::<S, <V as LiftOrthographic<S>>::Lifted>(m2, 3 * k + 2) == (
            false,
            false,
            false,
            true,
        ));
        assert(spec_faces_of::<S, <V as LiftOrthographic<S>>::Lifted>(m2, 3 * k).len() == 1);
        assert(spec_faces_of::<S, <V as LiftOrthographic<S>>::Lifted>(m2, 3 * k + 1).len() == 2);
        assert(spec_faces_of::<S, <V as LiftOrthographic<S>>::Lifted>(m2, 3 * k + 2).len() == 1);
        assert(spec_face_count::<S, <V as LiftOrthographic<S>>::Lifted>(m2, 3 * k + 1)
            == spec_face_count::<S, <V as LiftOrthographic<S>>::Lifted>(m2, 3 * k) + 1);
        assert(spec_face_count::<S, <V as LiftOrthographic<S>>::Lifted>(m2, 3 * k + 2)
            == spec_face_count::<S, <V as LiftOrthographic<S>>::Lifted>(m2, 3 * k + 1) + 2);
        assert(spec_face_count::<S, <V as LiftOrthographic<S>>::Lifted>(m2, 3 * k + 3)
            == spec_face_count::<S, <V as LiftOrthographic<S>>::Lifted>(m2, 3 * k + 2) + 1);
    }
}

/// The extrude-then-cross-section round trip, the combinatorial half: when
/// the extruded mesh is sliced with every lower copy strictly above the
/// hyperplane and every upper copy on or below it — the midplane of a
/// positive height — no source triangle is lost or added: each one yields
/// exactly four slice triangles, one from each outer prism tetrahedron and
/// two from the middle one. Congruence of the slice geometry is a numeric
/// property of the caller's arithmetic and is exercised by tests.
pub proof fn lemma_extrude_cross_section_count<S: Scalar, V: LiftOrthographic<S>>(
    r: TriangleMesh<
        <<V as LiftOrthographic<S>>::Lifted as ProjectOrthographic<S>>::Projected,
    >,
    m2: TetrahedronMesh<<V as LiftOrthographic<S>>::Lifted>,
    m: TriangleMesh<V>,
    height: S,
    ek: Seq<(usize, usize)>,
) where
    <V as LiftOrthographic<S>>::Lifted: ProjectOrthographic<S>,
    <<V as LiftOrthographic<S>>::Lifted as ProjectOrthographic<S>>::Projected: InterpolateWith<S>,

    requires
        m.wf(),
        m.vertices@.len() * 2 <= usize::MAX,
        spec_is_extrusion::<S, V>(m2, m, height),
        spec_is_cross_section::<S, <V as LiftOrthographic<S>>::Lifted>(r, m2, ek),
        forall|i: int|
            0 <= i < m.vertices@.len() ==> spec_side::<S, <V as LiftOrthographic<S>>::Lifted>(
                #[trigger] m2.vertices@[i],
            ),
        forall|i: int|
            m.vertices@.len() <= i < m2.vertices@.len() ==> !spec_side::<
                S,
                <V as LiftOrthographic<S>>::Lifted,
            >(#[trigger] m2.vertices@[i]),
    ensures
        r.simplexes@.len() == 4 * m.simplexes@.len(),
{
    lemma_extrusion_face_count::<S, V>(m2, m, height, m.simplexes@.len() as int);
}

} // verus!
