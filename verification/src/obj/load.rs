use crate::obj::mtl::lookup;
use crate::obj::mtl::lookup_spec;
use crate::obj::mtl::MtlParser;
use crate::obj::parse::face_entry_spec;
use crate::obj::parse::FaceEntryElement;
use crate::obj::parse::FaceError;
use crate::obj::write::unit_scale;
use crate::scalar::exact_scalar;
use crate::scalar::of_int;
use crate::scalar::root_accepts_all;
use crate::scalar::shrink_spec;
use crate::scalar::total_scalar;
use crate::scalar::Scalar;
use crate::scene::mesh::Material;
use crate::scene::mesh::Triangle;
use crate::scene::Scene;
use crate::vector::cross_spec;
use crate::vector::dot_spec;
use crate::vector::scale_spec;
use crate::vector::sub_spec;
use crate::vector::Vector3;
use std::ops::Neg;
use vstd::prelude::*;
use vstd::std_specs::convert::FromSpec;
use vstd::std_specs::ops::NegSpec;
use vstd::string::StringSliceAdditionalSpecFns;

verus! {

/// A scene in the making: what was read of a file so far, and the material
/// that the next face gets.
#[derive(Debug)]
pub struct ObjParser<T> {
    pub point_normals: Vec<Vector3<T>>,
    pub face_normals: Vec<Vector3<T>>,
    pub vertices: Vec<Vector3<T>>,
    pub materials: Vec<Material<T>>,
    pub triangles: Vec<Triangle>,
    pub meshes: Vec<usize>,
    pub material_names: Vec<String>,
    pub cur_material: usize,
}

/// Why a scene could not be read.
#[derive(Debug, Clone, Copy, PartialEq, Eq, Structural)]
pub enum LoadError {
    /// A face could not be read.
    Face(FaceError),
    /// No material has the name asked for.
    UnknownMaterial,
    /// A face has fewer or more than three corners.
    NotTriangle,
    /// A line is shorter than its keyword asks for.
    MissingWord,
}

/// `unit` is `v` divided by its length, the length being what `root` makes of
/// the sum of the squares of the components.
pub open spec fn unit_of<T: Scalar, R: Fn(T) -> T>(root: &R, v: Vector3<T>, unit: Vector3<T>) -> bool {
    exists|length: T|
        #[trigger] root.ensures((dot_spec(v, v),), length) && unit == shrink_spec(v, length)
}

/// The cross product of the edges from corner `v0` to `v1` and to `v2`: it
/// points to the side from which the corners are seen to turn against the
/// clock.
pub open spec fn winding_normal<T: Scalar>(
    v0: Vector3<T>,
    v1: Vector3<T>,
    v2: Vector3<T>,
) -> Vector3<T> {
    cross_spec(sub_spec(v1, v0), sub_spec(v2, v0))
}

/// `index` as it is counted from zero, where it was written counted from one.
pub open spec fn from_one(index: usize) -> usize {
    (index - 1) as usize
}

/// The triangle of three corners: indices counted from zero, with the given
/// face normal and material. Every corner must name a normal, and no index
/// may be zero.
pub open spec fn triangle_spec(
    a: FaceEntryElement,
    b: FaceEntryElement,
    c: FaceEntryElement,
    face_normal: usize,
    material: usize,
) -> Result<Triangle, FaceError> {
    if a.normal is None || b.normal is None || c.normal is None {
        Err(FaceError::MissingNormal)
    } else if a.vertex == 0 || b.vertex == 0 || c.vertex == 0 || a.normal.unwrap() == 0
        || b.normal.unwrap() == 0 || c.normal.unwrap() == 0 {
        Err(FaceError::OutOfRange)
    } else {
        Ok(
            Triangle {
                vertices: [from_one(a.vertex), from_one(b.vertex), from_one(c.vertex)],
                point_normals: [
                    from_one(a.normal.unwrap()),
                    from_one(b.normal.unwrap()),
                    from_one(c.normal.unwrap()),
                ],
                material,
                face_normal,
            },
        )
    }
}

/// The triangle of three corners.
pub fn triangle_of(
    a: &FaceEntryElement,
    b: &FaceEntryElement,
    c: &FaceEntryElement,
    face_normal: usize,
    material: usize,
) -> (r: Result<Triangle, FaceError>)
    ensures
        r == triangle_spec(*a, *b, *c, face_normal, material),
{
    let (na, nb, nc) = match (a.normal, b.normal, c.normal) {
        (Some(na), Some(nb), Some(nc)) => (na, nb, nc),
        _ => {
            return Err(FaceError::MissingNormal);
        },
    };
    if a.vertex == 0 || b.vertex == 0 || c.vertex == 0 || na == 0 || nb == 0 || nc == 0 {
        return Err(FaceError::OutOfRange);
    }
    let t = Triangle {
        vertices: [a.vertex - 1, b.vertex - 1, c.vertex - 1],
        point_normals: [na - 1, nb - 1, nc - 1],
        material,
        face_normal,
    };
    assert(t.vertices@ =~= [from_one(a.vertex), from_one(b.vertex), from_one(c.vertex)]@);
    assert(t.point_normals@ =~= [from_one(na), from_one(nb), from_one(nc)]@);
    Ok(t)
}

impl<T: Scalar> ObjParser<T> {
    /// `new` holds what this parser holds, the vertices apart.
    pub open spec fn same_but_vertices(&self, new: &ObjParser<T>) -> bool {
        &&& new.point_normals == self.point_normals
        &&& new.face_normals == self.face_normals
        &&& new.materials == self.materials
        &&& new.triangles == self.triangles
        &&& new.meshes == self.meshes
        &&& new.material_names == self.material_names
        &&& new.cur_material == self.cur_material
    }

    /// `new` is this parser after the vertex `v` of a file: one more vertex,
    /// `v` times the unit scale.
    pub open spec fn vertex_added(&self, v: Vector3<T>, new: &ObjParser<T>) -> bool {
        &&& self.same_but_vertices(new)
        &&& new.vertices@.len() == self.vertices@.len() + 1
        &&& new.vertices@.drop_last() == self.vertices@
        &&& exact_scalar::<T>() ==> new.vertices@.last() == scale_spec(v, unit_scale::<T>())
    }

    /// `new` is this parser after the vertex normal `n` of a file: one more
    /// normal, `n` times the unit scale divided by its length.
    pub open spec fn normal_added<R: Fn(T) -> T>(
        &self,
        n: Vector3<T>,
        root: &R,
        new: &ObjParser<T>,
    ) -> bool {
        &&& new.vertices == self.vertices
        &&& new.face_normals == self.face_normals
        &&& new.materials == self.materials
        &&& new.triangles == self.triangles
        &&& new.meshes == self.meshes
        &&& new.material_names == self.material_names
        &&& new.cur_material == self.cur_material
        &&& new.point_normals@.len() == self.point_normals@.len() + 1
        &&& new.point_normals@.drop_last() == self.point_normals@
        &&& exact_scalar::<T>() ==> unit_of(
            root,
            scale_spec(n, unit_scale::<T>()),
            new.point_normals@.last(),
        )
    }

    /// `new` is this parser after the start of an object: the object begins
    /// at the count of triangles read so far.
    pub open spec fn object_begun(&self, new: &ObjParser<T>) -> bool {
        &&& new.vertices == self.vertices
        &&& new.point_normals == self.point_normals
        &&& new.face_normals == self.face_normals
        &&& new.materials == self.materials
        &&& new.triangles == self.triangles
        &&& new.material_names == self.material_names
        &&& new.cur_material == self.cur_material
        &&& new.meshes@ == self.meshes@.push(self.triangles@.len() as usize)
    }

    /// `new` and `r` are this parser and the outcome after the material
    /// `name` was asked for: the material in use is the one declared last
    /// under that name; without one the request fails and nothing changes.
    pub open spec fn material_used(
        &self,
        name: Seq<char>,
        new: &ObjParser<T>,
        r: Result<(), LoadError>,
    ) -> bool {
        &&& new.vertices == self.vertices
        &&& new.point_normals == self.point_normals
        &&& new.face_normals == self.face_normals
        &&& new.materials == self.materials
        &&& new.triangles == self.triangles
        &&& new.meshes == self.meshes
        &&& new.material_names == self.material_names
        &&& match lookup_spec(
            self.material_names.deep_view(),
            self.material_names@.len() as int,
            name,
        ) {
            Some(k) => r == Ok::<(), LoadError>(()) && new.cur_material == k,
            None => r == Err::<(), LoadError>(LoadError::UnknownMaterial) && new.cur_material
                == self.cur_material,
        }
    }

    /// `new` and `r` are this parser and the outcome after a face of the
    /// corners `a`, `b`, `c`: its triangle and the unit normal of its winding
    /// are added; a face that is refused changes nothing.
    pub open spec fn face_added<R: Fn(T) -> T>(
        &self,
        a: Seq<u8>,
        b: Seq<u8>,
        c: Seq<u8>,
        root: &R,
        new: &ObjParser<T>,
        r: Result<(), LoadError>,
    ) -> bool {
        &&& new.vertices == self.vertices
        &&& new.point_normals == self.point_normals
        &&& new.materials == self.materials
        &&& new.meshes == self.meshes
        &&& new.material_names == self.material_names
        &&& new.cur_material == self.cur_material
        &&& match self.face_spec(a, b, c) {
            Ok(t) => {
                &&& r == Ok::<(), LoadError>(())
                &&& new.triangles@ == self.triangles@.push(t)
                &&& new.face_normals@.len() == self.face_normals@.len() + 1
                &&& new.face_normals@.drop_last() == self.face_normals@
                &&& exact_scalar::<T>() ==> unit_of(
                    root,
                    winding_normal(
                        self.vertices@[t.vertices[0] as int],
                        self.vertices@[t.vertices[1] as int],
                        self.vertices@[t.vertices[2] as int],
                    ),
                    new.face_normals@.last(),
                )
            },
            Err(e) => {
                &&& r == Err::<(), LoadError>(LoadError::Face(e))
                &&& new.triangles == self.triangles
                &&& new.face_normals == self.face_normals
            },
        }
    }

    /// A parser that has read nothing.
    pub fn new() -> (r: ObjParser<T>)
        ensures
            r.point_normals@.len() == 0,
            r.face_normals@.len() == 0,
            r.vertices@.len() == 0,
            r.materials@.len() == 0,
            r.triangles@.len() == 0,
            r.meshes@.len() == 0,
            r.material_names@.len() == 0,
            r.cur_material == 0,
    {
        ObjParser {
            point_normals: Vec::new(),
            face_normals: Vec::new(),
            vertices: Vec::new(),
            materials: Vec::new(),
            triangles: Vec::new(),
            meshes: Vec::new(),
            material_names: Vec::new(),
            cur_material: 0,
        }
    }

    /// Takes a vertex as it stands in the file: it is stored multiplied by
    /// the unit scale.
    pub fn add_vertex(&mut self, v: Vector3<T>)
        requires
            total_scalar::<T>(),
        ensures
            old(self).vertex_added(v, final(self)),
    {
        let scaled = v.scale(of_int(100i32));
        self.vertices.push(scaled);
        assert(self.vertices@.drop_last() =~= old(self).vertices@);
    }

    /// Takes a vertex normal as it stands in the file: it is stored
    /// multiplied by the unit scale and then divided by its length.
    pub fn add_normal<R: Fn(T) -> T>(&mut self, n: Vector3<T>, root: &R)
        requires
            total_scalar::<T>(),
            root_accepts_all(root),
        ensures
            old(self).normal_added(n, root, final(self)),
    {
        let mut normal = n.scale(of_int(100i32));
        normal.normalize(root);
        self.point_normals.push(normal);
        assert(self.point_normals@.drop_last() =~= old(self).point_normals@);
    }

    /// Starts an object: its triangles are those read from now on.
    pub fn begin_object(&mut self)
        ensures
            old(self).object_begun(final(self)),
    {
        self.meshes.push(self.triangles.len());
    }

    /// Takes the materials of a library in place of those held so far.
    pub fn use_library(&mut self, library: MtlParser<T>)
        ensures
            final(self).materials == library.materials,
            final(self).material_names == library.names,
            final(self).vertices == old(self).vertices,
            final(self).point_normals == old(self).point_normals,
            final(self).face_normals == old(self).face_normals,
            final(self).triangles == old(self).triangles,
            final(self).meshes == old(self).meshes,
            final(self).cur_material == old(self).cur_material,
    {
        self.materials = library.materials;
        self.material_names = library.names;
    }

    /// Makes the material called `name` the material of the faces read from
    /// now on.
    pub fn use_material(&mut self, name: &str) -> (r: Result<(), LoadError>)
        ensures
            old(self).material_used(name@, final(self), r),
    {
        match lookup(&self.material_names, name) {
            Some(k) => {
                self.cur_material = k;
                Ok(())
            },
            None => Err(LoadError::UnknownMaterial),
        }
    }

    /// The unit normal of a triangle by the winding of its corners. Seen
    /// from the side to which the normal points, the corners turn against the
    /// clock; with `clockwise` unset the normal is negated.
    pub fn calculate_face_normal<R: Fn(T) -> T>(
        &self,
        triangle: &Triangle,
        clockwise: bool,
        root: &R,
    ) -> (r: Vector3<T>)
        requires
            total_scalar::<T>(),
            root_accepts_all(root),
            forall|k: int| 0 <= k < 3 ==> #[trigger] triangle.vertices[k] < self.vertices@.len(),
        ensures
            exact_scalar::<T>() ==> exists|unit: Vector3<T>|
                {
                    &&& #[trigger] unit_of(
                        root,
                        winding_normal(
                            self.vertices@[triangle.vertices[0] as int],
                            self.vertices@[triangle.vertices[1] as int],
                            self.vertices@[triangle.vertices[2] as int],
                        ),
                        unit,
                    )
                    &&& r == if clockwise {
                        unit
                    } else {
                        scale_spec(unit, T::from_spec(1i32).neg_spec())
                    }
                },
    {
        assert(triangle.vertices[0] < self.vertices@.len());
        assert(triangle.vertices[1] < self.vertices@.len());
        assert(triangle.vertices[2] < self.vertices@.len());
        let v0 = self.vertices[triangle.vertices[0]];
        let v1 = self.vertices[triangle.vertices[1]];
        let v2 = self.vertices[triangle.vertices[2]];

        let e0 = v1 - v0;
        let e1 = v2 - v0;

        let mut normal = e0.cross(&e1);
        normal.normalize(root);
        let ghost unit = normal;
        if !clockwise {
            let one: T = of_int(1i32);
            normal = normal.scale(one.neg());
        }
        proof {
            if exact_scalar::<T>() {
                assert(unit_of(
                    root,
                    winding_normal(
                        self.vertices@[triangle.vertices[0] as int],
                        self.vertices@[triangle.vertices[1] as int],
                        self.vertices@[triangle.vertices[2] as int],
                    ),
                    unit,
                ));
            }
        }
        normal
    }

    /// Reads a face of three corners, each written `vertex//normal` or
    /// `vertex/texture/normal`, and stores its normal; the triangle gets the
    /// material in use. Nothing is stored where the face is refused.
    pub fn parse_face<R: Fn(T) -> T>(&mut self, a: &str, b: &str, c: &str, root: &R) -> (r: Result<
        Triangle,
        FaceError,
    >)
        requires
            total_scalar::<T>(),
            root_accepts_all(root),
        ensures
            r == old(self).face_spec(a.spec_bytes(), b.spec_bytes(), c.spec_bytes()),
            final(self).vertices == old(self).vertices,
            final(self).point_normals == old(self).point_normals,
            final(self).materials == old(self).materials,
            final(self).triangles == old(self).triangles,
            final(self).meshes == old(self).meshes,
            final(self).material_names == old(self).material_names,
            final(self).cur_material == old(self).cur_material,
            r is Err ==> final(self).face_normals == old(self).face_normals,
            r is Ok ==> final(self).face_normals@.len() == old(self).face_normals@.len() + 1
                && final(self).face_normals@.drop_last() == old(self).face_normals@,
            r is Ok && exact_scalar::<T>() ==> unit_of(
                root,
                winding_normal(
                    old(self).vertices@[r.unwrap().vertices[0] as int],
                    old(self).vertices@[r.unwrap().vertices[1] as int],
                    old(self).vertices@[r.unwrap().vertices[2] as int],
                ),
                final(self).face_normals@.last(),
            ),
    {
        let ea = match FaceEntryElement::new(a) {
            Ok(e) => e,
            Err(e) => {
                return Err(e);
            },
        };
        let eb = match FaceEntryElement::new(b) {
            Ok(e) => e,
            Err(e) => {
                return Err(e);
            },
        };
        let ec = match FaceEntryElement::new(c) {
            Ok(e) => e,
            Err(e) => {
                return Err(e);
            },
        };
        let triangle = match triangle_of(&ea, &eb, &ec, self.face_normals.len(), self.cur_material) {
            Ok(t) => t,
            Err(e) => {
                return Err(e);
            },
        };
        let n = self.vertices.len();
        if triangle.vertices[0] >= n || triangle.vertices[1] >= n || triangle.vertices[2] >= n {
            return Err(FaceError::OutOfRange);
        }
        assert forall|k: int| 0 <= k < 3 implies #[trigger] triangle.vertices[k]
            < self.vertices@.len() by {
            assert(k == 0 || k == 1 || k == 2);
        }
        let normal = self.calculate_face_normal(&triangle, true, root);
        self.face_normals.push(normal);
        assert(self.face_normals@.drop_last() =~= old(self).face_normals@);
        Ok(triangle)
    }

    /// What reading a face of the corners `a`, `b`, `c` gives: the first
    /// corner that cannot be read decides the error; then a missing normal,
    /// then an index that is zero or names no vertex read so far.
    pub open spec fn face_spec(&self, a: Seq<u8>, b: Seq<u8>, c: Seq<u8>) -> Result<
        Triangle,
        FaceError,
    > {
        match (face_entry_spec(a), face_entry_spec(b), face_entry_spec(c)) {
            (Err(e), _, _) => Err(e),
            (Ok(_), Err(e), _) => Err(e),
            (Ok(_), Ok(_), Err(e)) => Err(e),
            (Ok(ea), Ok(eb), Ok(ec)) => match triangle_spec(
                ea,
                eb,
                ec,
                self.face_normals@.len() as usize,
                self.cur_material,
            ) {
                Err(e) => Err(e),
                Ok(t) => if t.vertices[0] >= self.vertices@.len() || t.vertices[1]
                    >= self.vertices@.len() || t.vertices[2] >= self.vertices@.len() {
                    Err(FaceError::OutOfRange)
                } else {
                    Ok(t)
                },
            },
        }
    }

    /// Reads a face and adds its triangle to those read so far.
    pub fn add_face<R: Fn(T) -> T>(&mut self, a: &str, b: &str, c: &str, root: &R) -> (r: Result<
        (),
        LoadError,
    >)
        requires
            total_scalar::<T>(),
            root_accepts_all(root),
        ensures
            old(self).face_added(
                a.spec_bytes(),
                b.spec_bytes(),
                c.spec_bytes(),
                root,
                final(self),
                r,
            ),
    {
        match self.parse_face(a, b, c, root) {
            Ok(triangle) => {
                self.triangles.push(triangle);
                Ok(())
            },
            Err(e) => Err(LoadError::Face(e)),
        }
    }

    /// The scene read: the arrays as they stand.
    pub fn into_scene(self) -> (r: Scene<T>)
        ensures
            r.vertices == self.vertices,
            r.point_normals == self.point_normals,
            r.face_normals == self.face_normals,
            r.triangles == self.triangles,
            r.materials == self.materials,
            r.meshes == self.meshes,
    {
        Scene {
            vertices: self.vertices,
            point_normals: self.point_normals,
            face_normals: self.face_normals,
            triangles: self.triangles,
            materials: self.materials,
            meshes: self.meshes,
        }
    }
}

} // verus!
