//! Projecting and "lifting" vertices between dimensions, used to implement
//! the other operations while staying generic across the number of
//! dimensions in the mesh.

use vstd::prelude::*;

use crate::linear_algebra::scalar::Scalar;
use crate::linear_algebra::traits::{Vector2, Vector2Lift, Vector3, Vector3Lift, Vector4};
use crate::mesh::{SimplexMesh, Vertex2, Vertex3, Vertex4};

verus! {

/// Projects a vertex to a lower dimension with an orthographic projection.
/// Inverse of [`LiftOrthographic`].
pub trait ProjectOrthographic<S: Scalar>: Sized {
    type Projected;

    /// The vertex's image under the orthographic projection.
    spec fn spec_project_orthographic(&self) -> Self::Projected;

    /// The vertex's distance from the plane of projection.
    spec fn spec_orthographic_depth(&self) -> S;

    /// Projects this vertex to a lower dimension using an orthographic
    /// projection.
    fn project_orthographic(&self) -> (r: Self::Projected)
        ensures
            r == self.spec_project_orthographic(),
    ;

    /// How far the vertex is from the plane of projection.
    fn orthographic_depth(&self) -> (r: S)
        ensures
            r == self.spec_orthographic_depth(),
    ;
}

impl<S: Scalar, V: Vector3<S>> ProjectOrthographic<S> for Vertex3<V> {
    type Projected = Vertex2<V::Vector2>;

    /// The projection onto the 2D plane where `z` is zero.
    open spec fn spec_project_orthographic(&self) -> Vertex2<V::Vector2> {
        Vertex2 {
            position: <V::Vector2 as Vector2<S>>::spec_new(
                self.position.spec_x(),
                self.position.spec_y(),
            ),
        }
    }

    /// The depth of the orthographic projection onto `z = 0`: the `z`
    /// component of the position.
    open spec fn spec_orthographic_depth(&self) -> S {
        self.position.spec_z()
    }

    fn project_orthographic(&self) -> (r: Vertex2<V::Vector2>) {
        Vertex2 { position: <V::Vector2 as Vector2<S>>::new(self.position.x(), self.position.y()) }
    }

    fn orthographic_depth(&self) -> (r: S) {
        self.position.z()
    }
}

impl<S: Scalar, V: Vector4<S>> ProjectOrthographic<S> for Vertex4<V> {
    type Projected = Vertex3<V::Vector3>;

    /// The projection onto the 3D hyperplane where `w` is zero.
    open spec fn spec_project_orthographic(&self) -> Vertex3<V::Vector3> {
        Vertex3 {
            position: <V::Vector3 as Vector3<S>>::spec_new(
                self.position.spec_x(),
                self.position.spec_y(),
                self.position.spec_z(),
            ),
        }
    }

    /// The depth of the orthographic projection onto `w = 0`: the `w`
    /// component of the position.
    open spec fn spec_orthographic_depth(&self) -> S {
        self.position.spec_w()
    }

    fn project_orthographic(&self) -> (r: Vertex3<V::Vector3>) {
        Vertex3 {
            position: <V::Vector3 as Vector3<S>>::new(
                self.position.x(),
                self.position.y(),
                self.position.z(),
            ),
        }
    }

    fn orthographic_depth(&self) -> (r: S) {
        self.position.w()
    }
}

/// Lifts a vertex up to a higher dimension, undoing an orthographic
/// projection. Inverse of [`ProjectOrthographic`].
pub trait LiftOrthographic<S: Scalar>: Sized {
    type Lifted;

    /// The vertex placed in the higher dimension at the given depth.
    spec fn spec_lift_orthographic(&self, depth: S) -> Self::Lifted;

    /// Lifts this vertex into a higher dimension by adding the given
    /// `depth` as the new dimension.
    fn lift_orthographic(&self, depth: S) -> (r: Self::Lifted)
        ensures
            r == self.spec_lift_orthographic(depth),
    ;
}

impl<S: Scalar, V: Vector2Lift<S>> LiftOrthographic<S> for Vertex2<V> {
    type Lifted = Vertex3<V::Vector3>;

    /// The 2D vertex placed at height `depth` on the new `z` axis.
    open spec fn spec_lift_orthographic(&self, depth: S) -> Vertex3<V::Vector3> {
        Vertex3 {
            position: <V::Vector3 as Vector3<S>>::spec_new(
                self.position.spec_x(),
                self.position.spec_y(),
                depth,
            ),
        }
    }

    fn lift_orthographic(&self, depth: S) -> (r: Vertex3<V::Vector3>) {
        Vertex3 {
            position: <V::Vector3 as Vector3<S>>::new(self.position.x(), self.position.y(), depth),
        }
    }
}

impl<S: Scalar, V: Vector3Lift<S>> LiftOrthographic<S> for Vertex3<V> {
    type Lifted = Vertex4<V::Vector4>;

    /// The 3D vertex placed at height `depth` on the new `w` axis.
    open spec fn spec_lift_orthographic(&self, depth: S) -> Vertex4<V::Vector4> {
        Vertex4 {
            position: <V::Vector4 as Vector4<S>>::spec_new(
                self.position.spec_x(),
                self.position.spec_y(),
                self.position.spec_z(),
                depth,
            ),
        }
    }

    fn lift_orthographic(&self, depth: S) -> (r: Vertex4<V::Vector4>) {
        Vertex4 {
            position: <V::Vector4 as Vector4<S>>::new(
                self.position.x(),
                self.position.y(),
                self.position.z(),
                depth,
            ),
        }
    }
}

impl<V, const N: usize> SimplexMesh<V, N> {
    /// Lifts a whole mesh into a higher dimension: every vertex is lifted to
    /// the given depth, and the simplexes are unchanged.
    pub fn lift_orthographic<S: Scalar>(&self, depth: S) -> (r: SimplexMesh<
        <V as LiftOrthographic<S>>::Lifted,
        N,
    >) where V: LiftOrthographic<S> + Copy
        ensures
            r.simplexes@ == self.simplexes@,
            r.vertices@.len() == self.vertices@.len(),
            forall|i: int|
                0 <= i < self.vertices@.len() ==> #[trigger] r.vertices@[i] == self.vertices@[
                    i
                ].spec_lift_orthographic(depth),
            self.wf() ==> r.wf(),
    {
        let mut vertices: Vec<V::Lifted> = Vec::new();
        let mut i: usize = 0;
        while i < self.vertices.len()
            invariant
                i <= self.vertices@.len(),
                vertices@.len() == i,
                forall|k: int|
                    0 <= k < i ==> #[trigger] vertices@[k] == self.vertices@[
                        k
                    ].spec_lift_orthographic(depth),
            decreases self.vertices@.len() - i,
        {
            vertices.push(self.vertices[i].lift_orthographic(depth));
            i += 1;
        }
        let mut simplexes: Vec<[usize; N]> = Vec::new();
        let mut i: usize = 0;
        while i < self.simplexes.len()
            invariant
                i <= self.simplexes@.len(),
                simplexes@ == self.simplexes@.subrange(0, i as int),
            decreases self.simplexes@.len() - i,
        {
            simplexes.push(self.simplexes[i]);
            proof {
                assert(self.simplexes@.subrange(0, i + 1) == self.simplexes@.subrange(0, i as int)
                    + seq![self.simplexes@[i as int]]);
            }
            i += 1;
        }
        proof {
            assert(self.simplexes@.subrange(0, self.simplexes@.len() as int) == self.simplexes@);
        }
        SimplexMesh { vertices, simplexes }
    }
}

} // verus!
