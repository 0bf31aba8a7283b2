//! Extrusion: raising a triangle mesh to a tetrahedron mesh one dimension
//! higher.

use vstd::prelude::*;

use crate::linear_algebra::scalar::Scalar;
use crate::mesh::project::LiftOrthographic;
use crate::mesh::{TetrahedronMesh, TriangleMesh};

verus! {

/// The first tetrahedron of the prism decomposition of an extruded triangle:
/// three lower corners and one upper, `(a, c, b, a')`.
pub open spec fn spec_prism_tet0(f: Seq<usize>, n: usize) -> Seq<usize> {
    seq![f[0], f[2], f[1], (f[0] + n) as usize]
}

/// The second tetrahedron of the prism decomposition, `(c, b, a', c')`.
pub open spec fn spec_prism_tet1(f: Seq<usize>, n: usize) -> Seq<usize> {
    seq![f[2], f[1], (f[0] + n) as usize, (f[2] + n) as usize]
}

/// The third tetrahedron of the prism decomposition, `(a', b', c', b)`.
pub open spec fn spec_prism_tet2(f: Seq<usize>, n: usize) -> Seq<usize> {
    seq![(f[0] + n) as usize, (f[1] + n) as usize, (f[2] + n) as usize, f[1]]
}

/// The relation between a triangle mesh and its extrusion: the vertex list
/// is the lower copies (lifted to plus half the height, keeping their
/// indices) followed by the upper copies (lifted to minus half the height),
/// and each source triangle contributes, in order, the three prism
/// tetrahedra.
pub open spec fn spec_is_extrusion<S: Scalar, V: LiftOrthographic<S>>(
    r: TetrahedronMesh<<V as LiftOrthographic<S>>::Lifted>,
    m: TriangleMesh<V>,
    height: S,
) -> bool {
    let n = m.vertices@.len() as usize;
    &&& r.vertices@.len() == m.vertices@.len() * 2
    &&& forall|i: int|
        0 <= i < m.vertices@.len() ==> #[trigger] r.vertices@[i] == m.vertices@[
            i
        ].spec_lift_orthographic(height.spec_div(S::spec_two()))
    &&& forall|i: int|
        0 <= i < m.vertices@.len() ==> #[trigger] r.vertices@[m.vertices@.len() + i]
            == m.vertices@[i].spec_lift_orthographic(height.spec_div(S::spec_two()).spec_neg())
    &&& r.simplexes@.len() == m.simplexes@.len() * 3
    &&& forall|k: int|
        0 <= k < m.simplexes@.len() ==> #[trigger] r.simplexes@[3 * k]@ == spec_prism_tet0(
            m.simplexes@[k]@,
            n,
        )
    &&& forall|k: int|
        0 <= k < m.simplexes@.len() ==> #[trigger] r.simplexes@[3 * k + 1]@ == spec_prism_tet1(
            m.simplexes@[k]@,
            n,
        )
    &&& forall|k: int|
        0 <= k < m.simplexes@.len() ==> #[trigger] r.simplexes@[3 * k + 2]@ == spec_prism_tet2(
            m.simplexes@[k]@,
            n,
        )
}

/// Extruding a mesh into a mesh one dimension higher and one rank higher: a
/// 2D triangle mesh becomes a 3D tetrahedral mesh, and a 3D one becomes 4D.
pub trait Extrude<S: Scalar>: Sized {
    type Extruded;

    /// Whether the mesh is fit to extrude: its indices must be in range and
    /// the doubled vertex list must still be addressable.
    spec fn extrude_ok(self) -> bool;

    /// Extrudes a mesh into a mesh one dimension higher and one rank
    /// higher. `height` specifies the side length in the new dimension; the
    /// new mesh is centered on zero in the new dimension.
    fn extrude(self, height: S) -> Self::Extruded
        requires
            self.extrude_ok(),
    ;
}

impl<S: Scalar, V: LiftOrthographic<S> + Copy> Extrude<S> for TriangleMesh<V> {
    type Extruded = TetrahedronMesh<V::Lifted>;

    open spec fn extrude_ok(self) -> bool {
        self.wf() && self.vertices@.len() * 2 <= usize::MAX
    }

    /// Every vertex is duplicated at plus and minus half the height along
    /// the new axis (lower copies first, keeping their original indices);
    /// each triangle `(a, b, c)` becomes the three tetrahedra
    /// `(a, c, b, a')`, `(c, b, a', c')`, `(a', b', c', b)` — primes being
    /// the upper copies — a fixed decomposition that tiles each triangular
    /// prism without gaps, watertight and orientation-consistent.
    fn extrude(self, height: S) -> (r: TetrahedronMesh<V::Lifted>)
        ensures
            spec_is_extrusion(r, self, height),
            r.vertices@.len() == self.vertices@.len() * 2,
            forall|i: int|
                0 <= i < self.vertices@.len() ==> #[trigger] r.vertices@[i] == self.vertices@[
                    i
                ].spec_lift_orthographic(height.spec_div(S::spec_two())),
            forall|i: int|
                0 <= i < self.vertices@.len() ==> #[trigger] r.vertices@[self.vertices@.len() + i]
                    == self.vertices@[i].spec_lift_orthographic(
                    height.spec_div(S::spec_two()).spec_neg(),
                ),
            r.simplexes@.len() == self.simplexes@.len() * 3,
            forall|k: int|
                0 <= k < self.simplexes@.len() ==> #[trigger] r.simplexes@[3 * k]@
                    == spec_prism_tet0(self.simplexes@[k]@, self.vertices@.len() as usize),
            forall|k: int|
                0 <= k < self.simplexes@.len() ==> #[trigger] r.simplexes@[3 * k + 1]@
                    == spec_prism_tet1(self.simplexes@[k]@, self.vertices@.len() as usize),
            forall|k: int|
                0 <= k < self.simplexes@.len() ==> #[trigger] r.simplexes@[3 * k + 2]@
                    == spec_prism_tet2(self.simplexes@[k]@, self.vertices@.len() as usize),
            r.wf(),
    {
        let new_dimension = height.div(S::two());
        let num_verts = self.vertices.len();
        let mut vertices: Vec<V::Lifted> = Vec::new();
        let mut i: usize = 0;
        while i < num_verts
            invariant
                new_dimension == height.spec_div(S::spec_two()),
                num_verts == self.vertices@.len(),
                i <= num_verts,
                vertices@.len() == i,
                forall|k: int|
                    0 <= k < i ==> #[trigger] vertices@[k] == self.vertices@[
                        k
                    ].spec_lift_orthographic(height.spec_div(S::spec_two())),
            decreases num_verts - i,
        {
            vertices.push(self.vertices[i].lift_orthographic(new_dimension));
            i += 1;
        }
        let mut i: usize = 0;
        while i < num_verts
            invariant
                new_dimension == height.spec_div(S::spec_two()),
                num_verts == self.vertices@.len(),
                i <= num_verts,
                vertices@.len() == num_verts + i,
                forall|k: int|
                    0 <= k < num_verts ==> #[trigger] vertices@[k] == self.vertices@[
                        k
                    ].spec_lift_orthographic(height.spec_div(S::spec_two())),
                forall|k: int|
                    0 <= k < i ==> #[trigger] vertices@[num_verts + k] == self.vertices@[
                        k
                    ].spec_lift_orthographic(height.spec_div(S::spec_two()).spec_neg()),
            decreases num_verts - i,
        {
            vertices.push(self.vertices[i].lift_orthographic(new_dimension.neg()));
            i += 1;
        }
        let mut simplexes: Vec<[usize; 4]> = Vec::new();
        let mut k: usize = 0;
        while k < self.simplexes.len()
            invariant
                self.extrude_ok(),
                num_verts == self.vertices@.len(),
                k <= self.simplexes@.len(),
                simplexes@.len() == 3 * k,
                forall|m: int|
                    0 <= m < k ==> #[trigger] simplexes@[3 * m]@ == spec_prism_tet0(
                        self.simplexes@[m]@,
                        num_verts,
                    ),
                forall|m: int|
                    0 <= m < k ==> #[trigger] simplexes@[3 * m + 1]@ == spec_prism_tet1(
                        self.simplexes@[m]@,
                        num_verts,
                    ),
                forall|m: int|
                    0 <= m < k ==> #[trigger] simplexes@[3 * m + 2]@ == spec_prism_tet2(
                        self.simplexes@[m]@,
                        num_verts,
                    ),
            decreases self.simplexes@.len() - k,
        {
            let face = self.simplexes[k];
            assert(face@[0] < num_verts && face@[1] < num_verts && face@[2] < num_verts);
            simplexes.push([face[0], face[2], face[1], face[0] + num_verts]);
            simplexes.push([face[2], face[1], face[0] + num_verts, face[2] + num_verts]);
            simplexes.push(
                [face[0] + num_verts, face[1] + num_verts, face[2] + num_verts, face[1]],
            );
            assert(simplexes@[3 * k as int]@ == spec_prism_tet0(self.simplexes@[k as int]@, num_verts));
            assert(simplexes@[3 * k as int + 1]@ == spec_prism_tet1(
                self.simplexes@[k as int]@,
                num_verts,
            ));
            assert(simplexes@[3 * k as int + 2]@ == spec_prism_tet2(
                self.simplexes@[k as int]@,
                num_verts,
            ));
            k += 1;
        }
        let r = TetrahedronMesh { vertices, simplexes };
        proof {
            assert forall|i: int, j: int|
                0 <= i < r.simplexes@.len() && 0 <= j < 4 implies #[trigger] r.simplexes@[i]@[j]
                < r.vertices@.len() by {
                let m = i / 3;
                assert(i == 3 * m || i == 3 * m + 1 || i == 3 * m + 2);
                assert(self.simplexes@[m]@[0] < num_verts);
                assert(self.simplexes@[m]@[1] < num_verts);
                assert(self.simplexes@[m]@[2] < num_verts);
            }
        }
        r
    }
}

} // verus!
