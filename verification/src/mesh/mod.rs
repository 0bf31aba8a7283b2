//! A generic mesh of N-simplexes (a 3-simplex is a triangle, a 4-simplex is
//! a tetrahedron) together with the operations on it: transform application,
//! inversion, joining, extrusion, orthographic lift/projection, and the
//! hyperplane cross-section.

pub mod cross_section;
pub mod extrude;
pub mod project;

use vstd::prelude::*;

use crate::linear_algebra::scalar::Scalar;
use crate::linear_algebra::traits::{
    Vector, Vector2, Vector2Lift, Vector3, Vector3Lift, Vector4,
};
use crate::mesh::extrude::{spec_prism_tet0, spec_prism_tet1, spec_prism_tet2, Extrude};
use crate::transform::rotate_scale_translate4::RotateScaleTranslate4;
use crate::transform::traits::{InterpolateWith, Transform};
use crate::util::{lerp, spec_lerp};

verus! {

/// A position-only vertex in two dimensions.
#[derive(Debug, Clone, Copy)]
pub struct Vertex2<V> {
    pub position: V,
}

/// A position-only vertex in three dimensions.
#[derive(Debug, Clone, Copy)]
pub struct Vertex3<V> {
    pub position: V,
}

/// A position-only vertex in four dimensions.
#[derive(Debug, Clone, Copy)]
pub struct Vertex4<V> {
    pub position: V,
}

impl<S: Scalar, V: Vector2<S>> InterpolateWith<S> for Vertex2<V> {
    /// Vertices interpolate by linear interpolation of their positions.
    open spec fn spec_interpolate_with(&self, other: Vertex2<V>, fraction: S) -> Vertex2<V> {
        Vertex2 { position: spec_lerp(self.position, other.position, fraction) }
    }

    fn interpolate_with(&self, other: Vertex2<V>, fraction: S) -> (r: Vertex2<V>) {
        Vertex2 { position: lerp(self.position, other.position, fraction) }
    }
}

impl<S: Scalar, V: Vector3<S>> InterpolateWith<S> for Vertex3<V> {
    /// Vertices interpolate by linear interpolation of their positions.
    open spec fn spec_interpolate_with(&self, other: Vertex3<V>, fraction: S) -> Vertex3<V> {
        Vertex3 { position: spec_lerp(self.position, other.position, fraction) }
    }

    fn interpolate_with(&self, other: Vertex3<V>, fraction: S) -> (r: Vertex3<V>) {
        Vertex3 { position: lerp(self.position, other.position, fraction) }
    }
}

impl<S: Scalar, V: Vector4<S>> InterpolateWith<S> for Vertex4<V> {
    /// Vertices interpolate by linear interpolation of their positions.
    open spec fn spec_interpolate_with(&self, other: Vertex4<V>, fraction: S) -> Vertex4<V> {
        Vertex4 { position: spec_lerp(self.position, other.position, fraction) }
    }

    fn interpolate_with(&self, other: Vertex4<V>, fraction: S) -> (r: Vertex4<V>) {
        Vertex4 { position: lerp(self.position, other.position, fraction) }
    }
}

impl<S: Scalar, V: Vector4<S>> Transform<Vertex4<V>> for RotateScaleTranslate4<S, V> {
    /// A vertex transforms by transforming its position.
    open spec fn spec_transform(&self, operand: Vertex4<V>) -> Vertex4<V> {
        Vertex4 { position: self.spec_transform(operand.position) }
    }

    fn transform(&self, operand: Vertex4<V>) -> (r: Vertex4<V>) {
        Vertex4 { position: self.transform(operand.position) }
    }
}

/// A generic mesh made of N-simplexes: shared vertices plus index tuples
/// defining the simplexes. The orientation (handedness) of a simplex is
/// encoded purely by the order of its vertex indices.
///
/// The invariant [`SimplexMesh::wf`] — every index in every simplex is in
/// range for the vertex list — is what every operation here preserves.
#[derive(Clone, Debug)]
pub struct SimplexMesh<V, const N: usize> {
    /// The vertices of the mesh. Uniqueness is not required, but it is more
    /// efficient.
    pub vertices: Vec<V>,
    /// Indices into `vertices` giving the corners of each N-simplex in the
    /// mesh.
    pub simplexes: Vec<[usize; N]>,
}

/// A mesh of triangles.
pub type TriangleMesh<V> = SimplexMesh<V, 3>;

/// A mesh of tetrahedra.
pub type TetrahedronMesh<V> = SimplexMesh<V, 4>;

/// A short alias for a mesh of triangles.
pub type Trimesh<V> = TriangleMesh<V>;

/// A short alias for a mesh of tetrahedra.
pub type Tetmesh<V> = TetrahedronMesh<V>;

/// A triangle mesh with two-dimensional vertices.
pub type TriangleMesh2D<V> = TriangleMesh<Vertex2<V>>;

/// A triangle mesh with three-dimensional vertices.
pub type TriangleMesh3D<V> = TriangleMesh<Vertex3<V>>;

/// A triangle mesh with four-dimensional vertices.
pub type TriangleMesh4D<V> = TriangleMesh<Vertex4<V>>;

/// A tetrahedron mesh with three-dimensional vertices.
pub type TetrahedronMesh3D<V> = TetrahedronMesh<Vertex3<V>>;

/// A tetrahedron mesh with four-dimensional vertices.
pub type TetrahedronMesh4D<V> = TetrahedronMesh<Vertex4<V>>;

impl<V, const N: usize> SimplexMesh<V, N> {
    /// The mesh invariant: every index in every simplex refers to a vertex.
    pub open spec fn wf(self) -> bool {
        forall|i: int, j: int|
            0 <= i < self.simplexes@.len() && 0 <= j < N ==> #[trigger] self.simplexes@[i]@[j]
                < self.vertices@.len()
    }
}

impl<V: Copy, const N: usize> SimplexMesh<V, N> {
    /// Applies a transform to all vertices in the mesh: the simplexes are
    /// unchanged, and every vertex is mapped through the transform.
    pub fn apply_transform<T: Transform<V>>(self, transform: &T) -> (r: Self)
        ensures
            r.simplexes == self.simplexes,
            r.vertices@.len() == self.vertices@.len(),
            forall|i: int|
                0 <= i < self.vertices@.len() ==> #[trigger] r.vertices@[i]
                    == transform.spec_transform(self.vertices@[i]),
            self.wf() ==> r.wf(),
    {
        let mut vertices: Vec<V> = Vec::new();
        let mut i: usize = 0;
        while i < self.vertices.len()
            invariant
                i <= self.vertices@.len(),
                vertices@.len() == i,
                forall|k: int|
                    0 <= k < i ==> #[trigger] vertices@[k] == transform.spec_transform(
                        self.vertices@[k],
                    ),
            decreases self.vertices@.len() - i,
        {
            vertices.push(transform.transform(self.vertices[i]));
            i += 1;
        }
        SimplexMesh { vertices, simplexes: self.simplexes }
    }

    /// Inverts all of the simplexes in the mesh by swapping the first two
    /// indices of every simplex, flipping orientation: triangles are flipped
    /// front to back, tetrahedra are turned inside-out. Meshes of rank below
    /// two are returned unchanged.
    pub fn invert(self) -> (r: Self)
        ensures
            r.vertices == self.vertices,
            r.simplexes@.len() == self.simplexes@.len(),
            N < 2 ==> r.simplexes == self.simplexes,
            N >= 2 ==> forall|i: int|
                0 <= i < self.simplexes@.len() ==> #[trigger] r.simplexes@[i]@
                    == self.simplexes@[i]@.update(0, self.simplexes@[i]@[1]).update(
                    1,
                    self.simplexes@[i]@[0],
                ),
            self.wf() ==> r.wf(),
    {
        if N < 2 {
            return self;
        }
        let mut simplexes: Vec<[usize; N]> = Vec::new();
        let mut i: usize = 0;
        while i < self.simplexes.len()
            invariant
                N >= 2,
                i <= self.simplexes@.len(),
                simplexes@.len() == i,
                forall|k: int|
                    0 <= k < i ==> #[trigger] simplexes@[k]@ == self.simplexes@[k]@.update(
                        0,
                        self.simplexes@[k]@[1],
                    ).update(1, self.simplexes@[k]@[0]),
            decreases self.simplexes@.len() - i,
        {
            let mut simplex = self.simplexes[i];
            let first = simplex[0];
            simplex[0] = simplex[1];
            simplex[1] = first;
            simplexes.push(simplex);
            i += 1;
        }
        let r = SimplexMesh { vertices: self.vertices, simplexes };
        proof {
            if self.wf() {
                assert forall|i: int, j: int|
                    0 <= i < r.simplexes@.len() && 0 <= j < N implies #[trigger] r.simplexes@[i]@[j]
                    < r.vertices@.len() by {
                    assert(self.simplexes@[i]@[j] < self.vertices@.len());
                    assert(self.simplexes@[i]@[0] < self.vertices@.len());
                    assert(self.simplexes@[i]@[1] < self.vertices@.len());
                }
            }
        }
        r
    }

    /// Joins this mesh with another mesh, merging their geometry: the vertex
    /// lists concatenate, the other mesh's simplexes are carried over with
    /// their indices offset by this mesh's vertex count. This is a simple
    /// operation: it does nothing to avoid duplicate vertices, internal
    /// geometry, or other potential issues.
    pub fn join(self, other: Self) -> (r: Self)
        requires
            other.wf(),
            self.vertices@.len() + other.vertices@.len() <= usize::MAX,
        ensures
            r.vertices@ == self.vertices@ + other.vertices@,
            r.simplexes@.len() == self.simplexes@.len() + other.simplexes@.len(),
            forall|i: int|
                0 <= i < self.simplexes@.len() ==> #[trigger] r.simplexes@[i]
                    == self.simplexes@[i],
            forall|i: int, j: int|
                0 <= i < other.simplexes@.len() && 0 <= j < N ==> #[trigger] r.simplexes@[
                    self.simplexes@.len() + i
                ]@[j] == other.simplexes@[i]@[j] + self.vertices@.len(),
            self.wf() ==> r.wf(),
    {
        let self_num_verts = self.vertices.len();
        let mut vertices = self.vertices;
        let mut i: usize = 0;
        while i < other.vertices.len()
            invariant
                i <= other.vertices@.len(),
                vertices@ == self.vertices@ + other.vertices@.subrange(0, i as int),
            decreases other.vertices@.len() - i,
        {
            vertices.push(other.vertices[i]);
            proof {
                assert(other.vertices@.subrange(0, i + 1) == other.vertices@.subrange(0, i as int)
                    + seq![other.vertices@[i as int]]);
            }
            i += 1;
        }
        proof {
            assert(other.vertices@.subrange(0, other.vertices@.len() as int) == other.vertices@);
        }
        let mut simplexes = self.simplexes;
        let ghost self_simplexes = simplexes@;
        let mut i: usize = 0;
        while i < other.simplexes.len()
            invariant
                other.wf(),
                self_num_verts + other.vertices@.len() <= usize::MAX,
                self_num_verts == self.vertices@.len(),
                i <= other.simplexes@.len(),
                simplexes@.len() == self_simplexes.len() + i,
                simplexes@.subrange(0, self_simplexes.len() as int) == self_simplexes,
                forall|k: int, j: int|
                    0 <= k < i && 0 <= j < N ==> #[trigger] simplexes@[self_simplexes.len() + k]@[j]
                        == other.simplexes@[k]@[j] + self_num_verts,
            decreases other.simplexes@.len() - i,
        {
            let mut simplex = other.simplexes[i];
            let mut j: usize = 0;
            while j < N
                invariant
                    other.wf(),
                    self_num_verts + other.vertices@.len() <= usize::MAX,
                    i < other.simplexes@.len(),
                    j <= N,
                    simplex@.len() == N,
                    forall|l: int| 0 <= l < j ==> #[trigger] simplex@[l] == other.simplexes@[
                        i as int
                    ]@[l] + self_num_verts,
                    forall|l: int| j <= l < N ==> #[trigger] simplex@[l] == other.simplexes@[
                        i as int
                    ]@[l],
                decreases N - j,
            {
                assert(other.simplexes@[i as int]@[j as int] < other.vertices@.len());
                simplex[j] = simplex[j] + self_num_verts;
                j += 1;
            }
            simplexes.push(simplex);
            proof {
                assert(simplexes@.subrange(0, self_simplexes.len() as int) == self_simplexes);
            }
            i += 1;
        }
        let r = SimplexMesh { vertices, simplexes };
        proof {
            assert forall|i: int|
                0 <= i < self.simplexes@.len() implies #[trigger] r.simplexes@[i]
                == self.simplexes@[i] by {
                assert(r.simplexes@.subrange(0, self.simplexes@.len() as int)[i]
                    == self.simplexes@[i]);
            }
            if self.wf() {
                assert forall|i: int, j: int|
                    0 <= i < r.simplexes@.len() && 0 <= j < N implies #[trigger] r.simplexes@[i]@[j]
                    < r.vertices@.len() by {
                    if i < self.simplexes@.len() {
                        assert(r.simplexes@[i] == self.simplexes@[i]);
                        assert(self.simplexes@[i]@[j] < self.vertices@.len());
                    } else {
                        let k = i - self.simplexes@.len();
                        assert(r.simplexes@[self.simplexes@.len() + k]@[j] == other.simplexes@[k]@[j]
                            + self.vertices@.len());
                        assert(other.simplexes@[k]@[j] < other.vertices@.len());
                    }
                }
            }
        }
        r
    }
}

/// The angle of the `i`-th corner of a regular polygon with the given number
/// of sides: the matching fraction of a full turn.
pub open spec fn spec_circle_angle<S: Scalar>(i: usize, sides: usize) -> S {
    S::spec_tau().spec_mul(S::spec_of_usize(i).spec_div(S::spec_of_usize(sides)))
}

impl<V> TriangleMesh2D<V> {
    /// Makes a rectangle with the side lengths from `size`, centered at the
    /// origin: four corners in clockwise order starting from the positive
    /// quadrant, split into two triangles.
    pub fn rectangle<S: Scalar>(size: V) -> (r: Self) where V: Vector2<S>
        ensures
            r.vertices@.len() == 4,
            r.vertices@[0].position == V::spec_new(
                size.spec_scale(S::spec_half()).spec_x(),
                size.spec_scale(S::spec_half()).spec_y(),
            ),
            r.vertices@[1].position == V::spec_new(
                size.spec_scale(S::spec_half()).spec_x(),
                size.spec_scale(S::spec_half()).spec_y().spec_neg(),
            ),
            r.vertices@[2].position == V::spec_new(
                size.spec_scale(S::spec_half()).spec_x().spec_neg(),
                size.spec_scale(S::spec_half()).spec_y().spec_neg(),
            ),
            r.vertices@[3].position == V::spec_new(
                size.spec_scale(S::spec_half()).spec_x().spec_neg(),
                size.spec_scale(S::spec_half()).spec_y(),
            ),
            r.simplexes@.len() == 2,
            r.simplexes@[0]@ == seq![0usize, 1usize, 2usize],
            r.simplexes@[1]@ == seq![2usize, 3usize, 0usize],
            r.wf(),
    {
        let size = size.scale(S::half());
        let x = size.x();
        let y = size.y();
        let mut vertices: Vec<Vertex2<V>> = Vec::new();
        vertices.push(Vertex2 { position: V::new(x, y) });
        vertices.push(Vertex2 { position: V::new(x, y.neg()) });
        vertices.push(Vertex2 { position: V::new(x.neg(), y.neg()) });
        vertices.push(Vertex2 { position: V::new(x.neg(), y) });
        let mut simplexes: Vec<[usize; 3]> = Vec::new();
        simplexes.push([0, 1, 2]);
        simplexes.push([2, 3, 0]);
        let r = TriangleMesh2D { vertices, simplexes };
        proof {
            assert(r.simplexes@[0]@ =~= seq![0usize, 1usize, 2usize]);
            assert(r.simplexes@[1]@ =~= seq![2usize, 3usize, 0usize]);
        }
        r
    }

    /// Makes a square with side lengths of `size` centered at the origin.
    pub fn square<S: Scalar>(size: S) -> (r: Self) where V: Vector2<S>
        ensures
            r.vertices@.len() == 4,
            r.simplexes@.len() == 2,
            r.simplexes@[0]@ == seq![0usize, 1usize, 2usize],
            r.simplexes@[1]@ == seq![2usize, 3usize, 0usize],
            r.wf(),
    {
        Self::rectangle(V::new(size, size))
    }

    /// Makes a circle — a regular polygon — with the given `radius`,
    /// centered at the origin, with the number of corners given in `sides`:
    /// a fan of triangles around corner zero.
    pub fn circle<S: Scalar>(radius: S, sides: usize) -> (r: Self) where V: Vector2<S>
        requires
            1 <= sides <= usize::MAX - 2,
        ensures
            r.vertices@.len() == sides,
            forall|i: int|
                0 <= i < sides ==> (#[trigger] r.vertices@[i]).position == V::spec_new(
                    radius.spec_mul(spec_circle_angle::<S>(i as usize, sides).spec_cos()),
                    radius.spec_mul(spec_circle_angle::<S>(i as usize, sides).spec_sin()),
                ),
            r.simplexes@.len() == sides,
            forall|i: int|
                0 <= i < sides ==> {
                    &&& (#[trigger] r.simplexes@[i])@[0] == 0
                    &&& r.simplexes@[i]@[1] as int == (i + 2) % (sides as int)
                    &&& r.simplexes@[i]@[2] as int == (i + 1) % (sides as int)
                },
            r.wf(),
    {
        let mut vertices: Vec<Vertex2<V>> = Vec::new();
        let mut i: usize = 0;
        while i < sides
            invariant
                i <= sides,
                vertices@.len() == i,
                forall|k: int|
                    0 <= k < i ==> (#[trigger] vertices@[k]).position == V::spec_new(
                        radius.spec_mul(spec_circle_angle::<S>(k as usize, sides).spec_cos()),
                        radius.spec_mul(spec_circle_angle::<S>(k as usize, sides).spec_sin()),
                    ),
            decreases sides - i,
        {
            let angle = S::tau().mul(S::of_usize(i).div(S::of_usize(sides)));
            vertices.push(
                Vertex2 { position: V::new(radius.mul(angle.cos()), radius.mul(angle.sin())) },
            );
            i += 1;
        }
        let mut simplexes: Vec<[usize; 3]> = Vec::new();
        let mut i: usize = 0;
        while i < sides
            invariant
                1 <= sides <= usize::MAX - 2,
                i <= sides,
                simplexes@.len() == i,
                forall|k: int|
                    0 <= k < i ==> {
                        &&& (#[trigger] simplexes@[k])@[0] == 0
                        &&& simplexes@[k]@[1] as int == (k + 2) % (sides as int)
                        &&& simplexes@[k]@[2] as int == (k + 1) % (sides as int)
                    },
            decreases sides - i,
        {
            simplexes.push([0, (i + 2) % sides, (i + 1) % sides]);
            i += 1;
        }
        TriangleMesh2D { vertices, simplexes }
    }
}

impl<V> TriangleMesh3D<V> {
    /// Makes the shell of a rectangular prism with side lengths from `size`,
    /// centered at the origin: eight corners, two triangles per face.
    pub fn rectangular_prism<S: Scalar>(size: V) -> (r: Self) where V: Vector3<S>
        ensures
            r.vertices@.len() == 8,
            forall|i: int|
                0 <= i < 8 ==> (#[trigger] r.vertices@[i]).position == spec_prism_corner(
                    size.spec_scale(S::spec_half()),
                    i,
                ),
            r.simplexes@.len() == 12,
            forall|i: int|
                0 <= i < 12 ==> (#[trigger] r.simplexes@[i])@ == spec_prism_face(i),
            r.wf(),
    {
        let coord = size.scale(S::half());
        let x = coord.x();
        let y = coord.y();
        let z = coord.z();
        let mut vertices: Vec<Vertex3<V>> = Vec::new();
        vertices.push(Vertex3 { position: V::new(x, y, z) });
        vertices.push(Vertex3 { position: V::new(x.neg(), y, z) });
        vertices.push(Vertex3 { position: V::new(x, y.neg(), z) });
        vertices.push(Vertex3 { position: V::new(x.neg(), y.neg(), z) });
        vertices.push(Vertex3 { position: V::new(x, y, z.neg()) });
        vertices.push(Vertex3 { position: V::new(x.neg(), y, z.neg()) });
        vertices.push(Vertex3 { position: V::new(x, y.neg(), z.neg()) });
        vertices.push(Vertex3 { position: V::new(x.neg(), y.neg(), z.neg()) });
        let mut simplexes: Vec<[usize; 3]> = Vec::new();
        // Top.
        simplexes.push([0, 2, 3]);
        simplexes.push([3, 1, 0]);
        // Bottom.
        simplexes.push([4, 7, 6]);
        simplexes.push([4, 5, 7]);
        // Left.
        simplexes.push([0, 4, 2]);
        simplexes.push([4, 6, 2]);
        // Right.
        simplexes.push([1, 3, 5]);
        simplexes.push([7, 5, 3]);
        // Front.
        simplexes.push([3, 2, 6]);
        simplexes.push([3, 6, 7]);
        // Back.
        simplexes.push([0, 1, 4]);
        simplexes.push([4, 1, 5]);
        let r = TriangleMesh3D { vertices, simplexes };
        proof {
            assert forall|i: int| 0 <= i < 12 implies (#[trigger] r.simplexes@[i])@
                == spec_prism_face(i) by {
                assert(r.simplexes@[i]@ =~= spec_prism_face(i));
            }
        }
        r
    }

    /// Makes the shell of a cube centered at the origin, with side lengths
    /// of `size`.
    pub fn cube<S: Scalar>(size: S) -> (r: Self) where V: Vector3<S>
        ensures
            r.vertices@.len() == 8,
            forall|i: int|
                0 <= i < 8 ==> (#[trigger] r.vertices@[i]).position == spec_prism_corner(
                    V::spec_new(size, size, size).spec_scale(S::spec_half()),
                    i,
                ),
            r.simplexes@.len() == 12,
            forall|i: int|
                0 <= i < 12 ==> (#[trigger] r.simplexes@[i])@ == spec_prism_face(i),
            r.wf(),
    {
        Self::rectangular_prism(V::new(size, size, size))
    }
}

/// Corner `i` of a rectangular prism with half-extents `coord`: the three
/// sign choices in the binary order the prism builder lays them out.
pub open spec fn spec_prism_corner<S: Scalar, V: Vector3<S>>(coord: V, i: int) -> V {
    let x = if i % 2 == 0 {
        coord.spec_x()
    } else {
        coord.spec_x().spec_neg()
    };
    let y = if (i / 2) % 2 == 0 {
        coord.spec_y()
    } else {
        coord.spec_y().spec_neg()
    };
    let z = if i / 4 == 0 {
        coord.spec_z()
    } else {
        coord.spec_z().spec_neg()
    };
    V::spec_new(x, y, z)
}

/// Face `i` of the triangulated shell of a rectangular prism: two triangles
/// for each of the six sides, wound facing outward.
pub open spec fn spec_prism_face(i: int) -> Seq<usize> {
    if i == 0 {
        seq![0usize, 2usize, 3usize]
    } else if i == 1 {
        seq![3usize, 1usize, 0usize]
    } else if i == 2 {
        seq![4usize, 7usize, 6usize]
    } else if i == 3 {
        seq![4usize, 5usize, 7usize]
    } else if i == 4 {
        seq![0usize, 4usize, 2usize]
    } else if i == 5 {
        seq![4usize, 6usize, 2usize]
    } else if i == 6 {
        seq![1usize, 3usize, 5usize]
    } else if i == 7 {
        seq![7usize, 5usize, 3usize]
    } else if i == 8 {
        seq![3usize, 2usize, 6usize]
    } else if i == 9 {
        seq![3usize, 6usize, 7usize]
    } else if i == 10 {
        seq![0usize, 1usize, 4usize]
    } else {
        seq![4usize, 1usize, 5usize]
    }
}

impl<V> TetrahedronMesh3D<V> {
    /// Makes a solid rectangular prism with side lengths from `size`,
    /// centered at the origin: a rectangle extruded by the third side, so
    /// its two triangles each become the three prism tetrahedra.
    pub fn rectangular_prism<S: Scalar>(size: V) -> (r: Self) where
        V: Vector3<S>,
        V::Vector2: Vector2Lift<S, Vector3 = V>,

        ensures
            r.vertices@.len() == 8,
            r.simplexes@.len() == 6,
            r.simplexes@[0]@ == seq![0usize, 2usize, 1usize, 4usize],
            r.simplexes@[1]@ == seq![2usize, 1usize, 4usize, 6usize],
            r.simplexes@[2]@ == seq![4usize, 5usize, 6usize, 1usize],
            r.simplexes@[3]@ == seq![2usize, 0usize, 3usize, 6usize],
            r.simplexes@[4]@ == seq![0usize, 3usize, 6usize, 4usize],
            r.simplexes@[5]@ == seq![6usize, 7usize, 4usize, 3usize],
            r.wf(),
    {
        let rectangle = TriangleMesh2D::<V::Vector2>::rectangle(
            <V::Vector2 as Vector2<S>>::new(size.x(), size.y()),
        );
        let r = rectangle.extrude(size.z());
        proof {
            let n: usize = 4;
            assert(r.simplexes@[3 * 0int]@ == spec_prism_tet0(rectangle.simplexes@[0]@, n));
            assert(r.simplexes@[3 * 0int + 1]@ == spec_prism_tet1(rectangle.simplexes@[0]@, n));
            assert(r.simplexes@[3 * 0int + 2]@ == spec_prism_tet2(rectangle.simplexes@[0]@, n));
            assert(r.simplexes@[3 * 1int]@ == spec_prism_tet0(rectangle.simplexes@[1]@, n));
            assert(r.simplexes@[3 * 1int + 1]@ == spec_prism_tet1(rectangle.simplexes@[1]@, n));
            assert(r.simplexes@[3 * 1int + 2]@ == spec_prism_tet2(rectangle.simplexes@[1]@, n));
            assert(r.simplexes@[0]@ =~= seq![0usize, 2usize, 1usize, 4usize]);
            assert(r.simplexes@[1]@ =~= seq![2usize, 1usize, 4usize, 6usize]);
            assert(r.simplexes@[2]@ =~= seq![4usize, 5usize, 6usize, 1usize]);
            assert(r.simplexes@[3]@ =~= seq![2usize, 0usize, 3usize, 6usize]);
            assert(r.simplexes@[4]@ =~= seq![0usize, 3usize, 6usize, 4usize]);
            assert(r.simplexes@[5]@ =~= seq![6usize, 7usize, 4usize, 3usize]);
        }
        r
    }

    /// Makes a solid cube centered at the origin, with side lengths of
    /// `size`.
    pub fn cube<S: Scalar>(size: S) -> (r: Self) where
        V: Vector3<S>,
        V::Vector2: Vector2Lift<S, Vector3 = V>,

        ensures
            r.vertices@.len() == 8,
            r.simplexes@.len() == 6,
            r.wf(),
    {
        Self::rectangular_prism(V::new(size, size, size))
    }
}

impl<V> TetrahedronMesh4D<V> {
    /// Makes the shell of a rectangular tesseract, with side lengths from
    /// `size` and centered at the origin: the prism shell extruded along the
    /// fourth axis, closed off by two solid prism endcaps, the top one
    /// inverted so the whole shell faces outward.
    pub fn tesseract<S: Scalar>(size: V) -> (r: Self) where
        V: Vector4<S>,
        V::Vector3: Vector3Lift<S, Vector4 = V>,
        <V::Vector3 as Vector3<S>>::Vector2: Vector2Lift<S, Vector3 = V::Vector3>,

        ensures
            r.vertices@.len() == 32,
            r.simplexes@.len() == 48,
            r.wf(),
    {
        let v3_size = <V::Vector3 as Vector3<S>>::new(size.x(), size.y(), size.z());
        let tesseract = TriangleMesh3D::<V::Vector3>::rectangular_prism(v3_size).extrude(size.w());
        let endcap = TetrahedronMesh3D::<V::Vector3>::rectangular_prism(v3_size);
        let w_comp = size.w().div(S::two());
        let top_cap = endcap.lift_orthographic(w_comp).invert();
        let bottom_cap = endcap.lift_orthographic(w_comp.neg());
        tesseract.join(top_cap).join(bottom_cap)
    }

    /// Makes the shell of a tesseract with identical side lengths of `size`,
    /// centered at the origin.
    pub fn tesseract_cube<S: Scalar>(size: S) -> (r: Self) where
        V: Vector4<S>,
        V::Vector3: Vector3Lift<S, Vector4 = V>,
        <V::Vector3 as Vector3<S>>::Vector2: Vector2Lift<S, Vector3 = V::Vector3>,

        ensures
            r.vertices@.len() == 32,
            r.simplexes@.len() == 48,
            r.wf(),
    {
        Self::tesseract(V::new(size, size, size, size))
    }
}

} // verus!
