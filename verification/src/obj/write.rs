use crate::obj::text::decimal;
use crate::obj::text::decimal_spec;
use crate::image::black;
use crate::mesh::Mesh;
use crate::ray::point_at_spec;
use crate::ray::Ray;
use crate::scalar::exact_scalar;
use crate::scalar::of_int;
use crate::scalar::shrink;
use crate::scalar::shrink_spec;
use crate::scalar::total_scalar;
use crate::scalar::Scalar;
use crate::scene::mesh::Triangle;
use crate::scene::Scene;
use crate::vector::add_spec;
use crate::vector::scale_spec;
use crate::vector::Vector3;
use vstd::prelude::*;
use vstd::std_specs::convert::FromSpec;
use vstd::std_specs::ops::DivSpec;
use vstd::string::StringExecFns;

verus! {

/// Gathers geometry as lines of text in the Wavefront OBJ format: vertices,
/// texture coordinates, normals, faces and line segments, each list in the
/// order of the additions.
#[derive(Debug)]
pub struct ObjWriter {
    pub vertices: Vec<String>,
    pub normals: Vec<String>,
    pub textures: Vec<String>,
    pub faces: Vec<String>,
    pub lines: Vec<String>,
}

/// By how much coordinates are divided when written.
pub open spec fn unit_scale<T: Scalar>() -> T {
    T::from_spec(100i32)
}

/// One corner of a face with a normal and no texture: both indices counted
/// from one, then a space.
pub open spec fn corner_text(vertex: usize, normal: usize) -> Seq<char> {
    decimal_spec((vertex + 1) as nat) + "//"@ + decimal_spec((normal + 1) as nat) + " "@
}

/// The three corners of `t`.
pub open spec fn triangle_text(t: Triangle) -> Seq<char> {
    corner_text(t.vertices[0], t.point_normals[0]) + corner_text(
        t.vertices[1],
        t.point_normals[1],
    ) + corner_text(t.vertices[2], t.point_normals[2])
}

/// `text` is `v` as `show` may write it: the three components, each divided
/// by the unit scale, with one space between them.
pub open spec fn vector_text<T: Scalar, S: Fn(T) -> String>(
    show: &S,
    v: Vector3<T>,
    text: Seq<char>,
) -> bool {
    exists|x: String, y: String, z: String|
        {
            &&& #[trigger] show.ensures((shrink_spec(v, unit_scale::<T>()).x,), x)
            &&& #[trigger] show.ensures((shrink_spec(v, unit_scale::<T>()).y,), y)
            &&& #[trigger] show.ensures((shrink_spec(v, unit_scale::<T>()).z,), z)
            &&& text == x@ + " "@ + y@ + " "@ + z@
        }
}

/// The two ends of a line segment by their numbers.
pub open spec fn segment_text(first: usize, second: usize) -> Seq<char> {
    decimal_spec(first as nat) + " "@ + decimal_spec(second as nat)
}

/// The entries `items`, each on a line of its own after `prefix`.
pub open spec fn block(prefix: Seq<char>, items: Seq<Seq<char>>) -> Seq<char>
    decreases items.len(),
{
    if items.len() == 0 {
        Seq::empty()
    } else {
        block(prefix, items.drop_last()) + prefix + items.last() + "\n"@
    }
}

/// `show` accepts every value.
pub open spec fn shows_all<T, S: Fn(T) -> String>(show: &S) -> bool {
    forall|x: T| #[trigger] show.requires((x,))
}

/// `after` is `before` followed by one text for each of `vs`, in order: the
/// text of that vector as `show` may write it.
pub open spec fn vectors_added<T: Scalar, S: Fn(T) -> String>(
    show: &S,
    vs: Seq<Vector3<T>>,
    before: Seq<Seq<char>>,
    after: Seq<Seq<char>>,
) -> bool {
    &&& after.len() == before.len() + vs.len()
    &&& after.subrange(0, before.len() as int) == before
    &&& exact_scalar::<T>() ==> forall|k: int|
        0 <= k < vs.len() ==> vector_text(show, vs[k], #[trigger] after[before.len() + k])
}

/// The point in the middle of triangle `triangle` of `scene`: the sum of its
/// corners, taken from black in their order, times a third.
pub open spec fn middle_spec<T: Scalar>(scene: &Scene<T>, triangle: int) -> Vector3<T> {
    scale_spec(
        add_spec(
            add_spec(add_spec(black::<T>(), scene.corner(triangle, 0)), scene.corner(triangle, 1)),
            scene.corner(triangle, 2),
        ),
        T::from_spec(1i32).div_spec(T::from_spec(3i32)),
    )
}

/// The ray that shows the face normal of a triangle: from the middle of the
/// triangle along its normal.
pub open spec fn normal_ray<T: Scalar>(scene: &Scene<T>, triangle: int) -> Ray<T> {
    Ray {
        orig: middle_spec(scene, triangle),
        dir: scene.face_normals@[scene.triangles@[triangle].face_normal as int],
    }
}

/// The ends of the normal rays of the first `n` triangles of `scene`: for
/// each triangle the middle, then the point a hundred units along the
/// normal.
pub open spec fn normal_ends<T: Scalar>(scene: &Scene<T>, n: int) -> Seq<Vector3<T>> {
    Seq::new(
        (2 * n) as nat,
        |k: int|
            if k % 2 == 0 {
                middle_spec(scene, k / 2)
            } else {
                point_at_spec(normal_ray(scene, k / 2), unit_scale::<T>())
            },
    )
}

/// The segments between the ends of `n` normal rays, the first of which
/// follows `base` vertices.
pub open spec fn normal_segments(base: int, n: int) -> Seq<Seq<char>> {
    Seq::new(
        n as nat,
        |k: int| segment_text((base + 2 * k + 3) as usize, (base + 2 * k + 4) as usize),
    )
}

/// The texts of the triangles `ts` of a mesh as faces.
pub open spec fn mesh_texts(ts: Seq<crate::mesh::Triangle>) -> Seq<Seq<char>> {
    Seq::new(
        ts.len(),
        |k: int|
            triangle_text(
                Triangle {
                    vertices: ts[k].vertices,
                    point_normals: ts[k].normals,
                    material: 0,
                    face_normal: 0,
                },
            ),
    )
}

/// The texts of the faces `ts`.
pub open spec fn triangle_texts(ts: Seq<Triangle>) -> Seq<Seq<char>> {
    Seq::new(ts.len(), |k: int| triangle_text(ts[k]))
}

/// Adding the texts of `first` and then those of `second` is adding the
/// texts of the two together.
pub proof fn lemma_vectors_added_twice<T: Scalar, S: Fn(T) -> String>(
    show: &S,
    first: Seq<Vector3<T>>,
    second: Seq<Vector3<T>>,
    before: Seq<Seq<char>>,
    between: Seq<Seq<char>>,
    after: Seq<Seq<char>>,
)
    requires
        vectors_added(show, first, before, between),
        vectors_added(show, second, between, after),
    ensures
        vectors_added(show, first + second, before, after),
{
    assert(after.subrange(0, before.len() as int) =~= before) by {
        assert forall|k: int| 0 <= k < before.len() implies after[k] == before[k] by {
            assert(after.subrange(0, between.len() as int)[k] == after[k]);
            assert(between.subrange(0, before.len() as int)[k] == between[k]);
        }
    }
    if exact_scalar::<T>() {
        assert forall|k: int| 0 <= k < (first + second).len() implies vector_text(
            show,
            (first + second)[k],
            #[trigger] after[before.len() + k],
        ) by {
            if k < first.len() {
                assert(after.subrange(0, between.len() as int)[before.len() + k] == after[before.len()
                    + k]);
                assert(vector_text(show, first[k], between[before.len() + k]));
            } else {
                assert(vector_text(show, second[k - first.len()], after[between.len() + (k
                    - first.len())]));
            }
        }
    }
}

/// Appends each of `items` to `text` on a line of its own after `prefix`.
pub fn append_block(text: &mut String, prefix: &str, items: &Vec<String>)
    ensures
        final(text)@ == old(text)@ + block(prefix@, items.deep_view()),
{
    let mut i: usize = 0;
    assert(items.deep_view().take(0) =~= Seq::<Seq<char>>::empty());
    assert(text@ =~= old(text)@ + block(prefix@, items.deep_view().take(0)));
    while i < items.len()
        invariant
            i <= items@.len(),
            text@ == old(text)@ + block(prefix@, items.deep_view().take(i as int)),
        decreases items@.len() - i,
    {
        let ghost before = text@;
        text.append(prefix);
        text.append(items[i].as_str());
        text.append("\n");
        proof {
            let head = items.deep_view().take(i as int);
            let more = items.deep_view().take(i + 1);
            assert(more.drop_last() =~= head);
            assert(more.last() == items@[i as int]@);
            assert(text@ =~= old(text)@ + block(prefix@, more));
        }
        i += 1;
    }
    assert(items.deep_view().take(items@.len() as int) =~= items.deep_view());
}

impl ObjWriter {
    /// The whole file: vertices, texture coordinates, normals, line segments
    /// and faces, in this order.
    pub open spec fn text_spec(&self) -> Seq<char> {
        block("v "@, self.vertices.deep_view()) + block("vt "@, self.textures.deep_view()) + block(
            "vn "@,
            self.normals.deep_view(),
        ) + block("l "@, self.lines.deep_view()) + block("f "@, self.faces.deep_view())
    }

    /// A writer that holds nothing.
    pub fn new() -> (r: ObjWriter)
        ensures
            r.vertices@.len() == 0,
            r.normals@.len() == 0,
            r.textures@.len() == 0,
            r.faces@.len() == 0,
            r.lines@.len() == 0,
    {
        ObjWriter {
            vertices: Vec::new(),
            normals: Vec::new(),
            textures: Vec::new(),
            faces: Vec::new(),
            lines: Vec::new(),
        }
    }

    /// The text of a triangle's three corners.
    pub fn write_triangle(&self, t: &Triangle) -> (r: String)
        requires
            forall|k: int| 0 <= k < 3 ==> #[trigger] t.vertices[k] < usize::MAX,
            forall|k: int| 0 <= k < 3 ==> #[trigger] t.point_normals[k] < usize::MAX,
        ensures
            r@ == triangle_text(*t),
    {
        let mut text = String::new();
        let mut i: usize = 0;
        while i < 3
            invariant
                i <= 3,
                forall|k: int| 0 <= k < 3 ==> #[trigger] t.vertices[k] < usize::MAX,
                forall|k: int| 0 <= k < 3 ==> #[trigger] t.point_normals[k] < usize::MAX,
                i == 0 ==> text@ == Seq::<char>::empty(),
                i == 1 ==> text@ == corner_text(t.vertices[0], t.point_normals[0]),
                i == 2 ==> text@ == corner_text(t.vertices[0], t.point_normals[0]) + corner_text(
                    t.vertices[1],
                    t.point_normals[1],
                ),
                i == 3 ==> text@ == triangle_text(*t),
            decreases 3 - i,
        {
            assert(t.vertices[i as int] < usize::MAX);
            assert(t.point_normals[i as int] < usize::MAX);
            let ghost before = text@;
            let vertex = decimal(t.vertices[i] + 1);
            let normal = decimal(t.point_normals[i] + 1);
            text.append(vertex.as_str());
            text.append("//");
            text.append(normal.as_str());
            text.append(" ");
            assert(text@ =~= before + corner_text(t.vertices[i as int], t.point_normals[i as int]));
            assert(Seq::<char>::empty() + corner_text(t.vertices[0], t.point_normals[0])
                =~= corner_text(t.vertices[0], t.point_normals[0]));
            i += 1;
        }
        text
    }

    /// Adds a face.
    pub fn add_triangle(&mut self, t: &Triangle)
        requires
            forall|k: int| 0 <= k < 3 ==> #[trigger] t.vertices[k] < usize::MAX,
            forall|k: int| 0 <= k < 3 ==> #[trigger] t.point_normals[k] < usize::MAX,
        ensures
            final(self).faces.deep_view() == old(self).faces.deep_view().push(triangle_text(*t)),
            final(self).vertices == old(self).vertices,
            final(self).normals == old(self).normals,
            final(self).textures == old(self).textures,
            final(self).lines == old(self).lines,
    {
        let text = self.write_triangle(t);
        self.faces.push(text);
        assert(self.faces.deep_view() =~= old(self).faces.deep_view().push(triangle_text(*t)));
    }

    /// The text of a vector: its components divided by the unit scale and
    /// written by `show`, with one space between them.
    pub fn write_vector<T: Scalar, S: Fn(T) -> String>(&self, v: &Vector3<T>, show: &S) -> (r:
        String)
        requires
            total_scalar::<T>(),
            shows_all(show),
        ensures
            exact_scalar::<T>() ==> vector_text(show, *v, r@),
    {
        let scaled = shrink(*v, of_int(100i32));
        let x = show(scaled.x);
        let y = show(scaled.y);
        let z = show(scaled.z);
        let mut text = String::new();
        text.append(x.as_str());
        text.append(" ");
        text.append(y.as_str());
        text.append(" ");
        text.append(z.as_str());
        proof {
            if exact_scalar::<T>() {
                assert(show.ensures((shrink_spec(*v, unit_scale::<T>()).x,), x));
                assert(show.ensures((shrink_spec(*v, unit_scale::<T>()).y,), y));
                assert(show.ensures((shrink_spec(*v, unit_scale::<T>()).z,), z));
                assert(text@ =~= x@ + " "@ + y@ + " "@ + z@);
            }
        }
        text
    }

    /// Adds a vertex.
    pub fn add_vertex<T: Scalar, S: Fn(T) -> String>(&mut self, v: &Vector3<T>, show: &S)
        requires
            total_scalar::<T>(),
            shows_all(show),
        ensures
            final(self).vertices@.len() == old(self).vertices@.len() + 1,
            final(self).vertices.deep_view().drop_last() == old(self).vertices.deep_view(),
            exact_scalar::<T>() ==> vector_text(show, *v, final(self).vertices.deep_view().last()),
            final(self).normals == old(self).normals,
            final(self).textures == old(self).textures,
            final(self).faces == old(self).faces,
            final(self).lines == old(self).lines,
    {
        let text = self.write_vector(v, show);
        self.vertices.push(text);
        assert(self.vertices.deep_view().drop_last() =~= old(self).vertices.deep_view());
    }

    /// Adds a texture coordinate.
    pub fn add_texture<T: Scalar, S: Fn(T) -> String>(&mut self, t: &Vector3<T>, show: &S)
        requires
            total_scalar::<T>(),
            shows_all(show),
        ensures
            final(self).textures@.len() == old(self).textures@.len() + 1,
            final(self).textures.deep_view().drop_last() == old(self).textures.deep_view(),
            exact_scalar::<T>() ==> vector_text(show, *t, final(self).textures.deep_view().last()),
            final(self).vertices == old(self).vertices,
            final(self).normals == old(self).normals,
            final(self).faces == old(self).faces,
            final(self).lines == old(self).lines,
    {
        let text = self.write_vector(t, show);
        self.textures.push(text);
        assert(self.textures.deep_view().drop_last() =~= old(self).textures.deep_view());
    }

    /// Adds a normal.
    pub fn add_normal<T: Scalar, S: Fn(T) -> String>(&mut self, n: &Vector3<T>, show: &S)
        requires
            total_scalar::<T>(),
            shows_all(show),
        ensures
            final(self).normals@.len() == old(self).normals@.len() + 1,
            final(self).normals.deep_view().drop_last() == old(self).normals.deep_view(),
            exact_scalar::<T>() ==> vector_text(show, *n, final(self).normals.deep_view().last()),
            final(self).vertices == old(self).vertices,
            final(self).textures == old(self).textures,
            final(self).faces == old(self).faces,
            final(self).lines == old(self).lines,
    {
        let text = self.write_vector(n, show);
        self.normals.push(text);
        assert(self.normals.deep_view().drop_last() =~= old(self).normals.deep_view());
    }

    /// Adds the segment of `r` from its origin to its point at parameter `t`:
    /// two vertices, and a line between the vertices numbered one and two
    /// above the count of vertices after the addition.
    pub fn add_ray<T: Scalar, S: Fn(T) -> String>(&mut self, r: &Ray<T>, t: T, show: &S)
        requires
            total_scalar::<T>(),
            shows_all(show),
            old(self).vertices@.len() + 4 <= usize::MAX,
        ensures
            final(self).vertices@.len() == old(self).vertices@.len() + 2,
            final(self).vertices.deep_view().subrange(0, old(self).vertices@.len() as int) == old(self).vertices.deep_view(),
            exact_scalar::<T>() ==> vector_text(
                show,
                r.orig,
                final(self).vertices.deep_view()[old(self).vertices@.len() as int],
            ),
            exact_scalar::<T>() ==> vector_text(
                show,
                point_at_spec(*r, t),
                final(self).vertices.deep_view()[(old(self).vertices@.len() + 1) as int],
            ),
            final(self).lines.deep_view() == old(self).lines.deep_view().push(
                segment_text(
                    (old(self).vertices@.len() + 3) as usize,
                    (old(self).vertices@.len() + 4) as usize,
                ),
            ),
            final(self).normals == old(self).normals,
            final(self).textures == old(self).textures,
            final(self).faces == old(self).faces,
    {
        self.add_vertex(&r.orig, show);
        let ghost middle = self.vertices.deep_view();
        let end = r.point_at(t);
        self.add_vertex(&end, show);
        let num_vertices = self.vertices.len();
        let mut text = decimal(num_vertices + 1);
        text.append(" ");
        text.append(decimal(num_vertices + 2).as_str());
        self.lines.push(text);
        proof {
            let n = old(self).vertices@.len() as int;
            let now = self.vertices.deep_view();
            assert(now.drop_last() == middle);
            assert(middle.drop_last() == old(self).vertices.deep_view());
            assert(now.subrange(0, n) =~= old(self).vertices.deep_view()) by {
                assert forall|k: int| 0 <= k < n implies now.subrange(0, n)[k] == old(self).vertices.deep_view()[k] by {
                    assert(now.drop_last()[k] == now[k]);
                    assert(middle.drop_last()[k] == middle[k]);
                }
            }
            assert(now[n] == middle.last()) by {
                assert(now.drop_last()[n] == now[n]);
            }
            assert(self.lines.deep_view() =~= old(self).lines.deep_view().push(
                segment_text((n + 3) as usize, (n + 4) as usize),
            ));
        }
    }

    /// Adds each of `vs` as a vertex.
    pub fn add_vertices<T: Scalar, S: Fn(T) -> String>(&mut self, vs: &Vec<Vector3<T>>, show: &S)
        requires
            total_scalar::<T>(),
            shows_all(show),
        ensures
            vectors_added(
                show,
                vs@,
                old(self).vertices.deep_view(),
                final(self).vertices.deep_view(),
            ),
            final(self).normals == old(self).normals,
            final(self).textures == old(self).textures,
            final(self).faces == old(self).faces,
            final(self).lines == old(self).lines,
    {
        let ghost before = self.vertices.deep_view();
        assert(before.subrange(0, before.len() as int) =~= before);
        let mut i: usize = 0;
        while i < vs.len()
            invariant
                total_scalar::<T>(),
                shows_all(show),
                i <= vs@.len(),
                before == old(self).vertices.deep_view(),
                vectors_added(show, vs@.take(i as int), before, self.vertices.deep_view()),
                self.normals == old(self).normals,
                self.textures == old(self).textures,
                self.faces == old(self).faces,
                self.lines == old(self).lines,
            decreases vs@.len() - i,
        {
            let ghost held = self.vertices.deep_view();
            self.add_vertex(&vs[i], show);
            proof {
                let now = self.vertices.deep_view();
                assert(now.drop_last() == held);
                assert(now.subrange(0, before.len() as int) =~= before) by {
                    assert forall|k: int| 0 <= k < before.len() implies now[k] == before[k] by {
                        assert(now.drop_last()[k] == now[k]);
                        assert(held.subrange(0, before.len() as int)[k] == held[k]);
                    }
                }
                if exact_scalar::<T>() {
                    assert forall|k: int| 0 <= k < vs@.take(i + 1).len() implies vector_text(
                        show,
                        vs@.take(i + 1)[k],
                        #[trigger] now[before.len() + k],
                    ) by {
                        if k < i {
                            assert(vs@.take(i as int)[k] == vs@.take(i + 1)[k]);
                            assert(now.drop_last()[before.len() + k] == now[before.len() + k]);
                            assert(vector_text(show, vs@.take(i as int)[k], held[before.len() + k]));
                        } else {
                            assert(now.last() == now[before.len() + k]);
                        }
                    }
                }
            }
            i += 1;
        }
        assert(vs@.take(vs@.len() as int) =~= vs@);
    }

    /// Adds each of `ns` as a normal.
    pub fn add_normals<T: Scalar, S: Fn(T) -> String>(&mut self, ns: &Vec<Vector3<T>>, show: &S)
        requires
            total_scalar::<T>(),
            shows_all(show),
        ensures
            vectors_added(show, ns@, old(self).normals.deep_view(), final(self).normals.deep_view()),
            final(self).vertices == old(self).vertices,
            final(self).textures == old(self).textures,
            final(self).faces == old(self).faces,
            final(self).lines == old(self).lines,
    {
        let ghost before = self.normals.deep_view();
        assert(before.subrange(0, before.len() as int) =~= before);
        let mut i: usize = 0;
        while i < ns.len()
            invariant
                total_scalar::<T>(),
                shows_all(show),
                i <= ns@.len(),
                before == old(self).normals.deep_view(),
                vectors_added(show, ns@.take(i as int), before, self.normals.deep_view()),
                self.vertices == old(self).vertices,
                self.textures == old(self).textures,
                self.faces == old(self).faces,
                self.lines == old(self).lines,
            decreases ns@.len() - i,
        {
            let ghost held = self.normals.deep_view();
            self.add_normal(&ns[i], show);
            proof {
                let now = self.normals.deep_view();
                assert(now.drop_last() == held);
                assert(now.subrange(0, before.len() as int) =~= before) by {
                    assert forall|k: int| 0 <= k < before.len() implies now[k] == before[k] by {
                        assert(now.drop_last()[k] == now[k]);
                        assert(held.subrange(0, before.len() as int)[k] == held[k]);
                    }
                }
                if exact_scalar::<T>() {
                    assert forall|k: int| 0 <= k < ns@.take(i + 1).len() implies vector_text(
                        show,
                        ns@.take(i + 1)[k],
                        #[trigger] now[before.len() + k],
                    ) by {
                        if k < i {
                            assert(ns@.take(i as int)[k] == ns@.take(i + 1)[k]);
                            assert(now.drop_last()[before.len() + k] == now[before.len() + k]);
                            assert(vector_text(show, ns@.take(i as int)[k], held[before.len() + k]));
                        } else {
                            assert(now.last() == now[before.len() + k]);
                        }
                    }
                }
            }
            i += 1;
        }
        assert(ns@.take(ns@.len() as int) =~= ns@);
    }

    /// Adds each triangle of `scene` as a face.
    pub fn add_triangles<T: Scalar>(&mut self, scene: &Scene<T>)
        requires
            scene.well_formed(),
        ensures
            final(self).faces.deep_view() == old(self).faces.deep_view() + triangle_texts(
                scene.triangles@,
            ),
            final(self).vertices == old(self).vertices,
            final(self).normals == old(self).normals,
            final(self).textures == old(self).textures,
            final(self).lines == old(self).lines,
    {
        let ghost before = self.faces.deep_view();
        let mut i: usize = 0;
        assert(self.faces.deep_view() =~= before + triangle_texts(scene.triangles@.take(0)));
        while i < scene.triangles.len()
            invariant
                scene.well_formed(),
                i <= scene.triangles@.len(),
                self.faces.deep_view() == before + triangle_texts(scene.triangles@.take(i as int)),
                self.vertices == old(self).vertices,
                self.normals == old(self).normals,
                self.textures == old(self).textures,
                self.lines == old(self).lines,
            decreases scene.triangles@.len() - i,
        {
            let t = &scene.triangles[i];
            proof {
                assert(scene.triangle_ok(scene.triangles@[i as int]));
                assert(scene.vertices@.len() == scene.vertices.len());
                assert(scene.point_normals@.len() == scene.point_normals.len());
            }
            self.add_triangle(t);
            assert(self.faces.deep_view() =~= before + triangle_texts(
                scene.triangles@.take(i + 1),
            )) by {
                let shorter = triangle_texts(scene.triangles@.take(i as int));
                let longer = triangle_texts(scene.triangles@.take(i + 1));
                assert(longer =~= shorter.push(triangle_text(*t)));
            }
            i += 1;
        }
        assert(scene.triangles@.take(scene.triangles@.len() as int) =~= scene.triangles@);
    }

    /// The point in the middle of a triangle of `scene`.
    pub fn middle<T: Scalar>(scene: &Scene<T>, triangle: usize) -> (r: Vector3<T>)
        requires
            scene.well_formed(),
            triangle < scene.triangles@.len(),
            total_scalar::<T>(),
        ensures
            exact_scalar::<T>() ==> r == middle_spec(scene, triangle as int),
    {
        let zero: T = of_int(0i32);
        let one: T = of_int(1i32);
        let three: T = of_int(3i32);
        let sum = Vector3::new(zero, zero, zero) + *scene.get_triangle_vertex(triangle, 0)
            + *scene.get_triangle_vertex(triangle, 1) + *scene.get_triangle_vertex(triangle, 2);
        sum.scale(one / three)
    }

    /// Adds the face normal of every triangle of `scene` as a segment.
    pub fn add_face_normals<T: Scalar, S: Fn(T) -> String>(&mut self, scene: &Scene<T>, show: &S)
        requires
            scene.well_formed(),
            total_scalar::<T>(),
            shows_all(show),
            old(self).vertices@.len() + 2 * scene.triangles@.len() + 4 <= usize::MAX,
        ensures
            vectors_added(
                show,
                normal_ends(scene, scene.triangles@.len() as int),
                old(self).vertices.deep_view(),
                final(self).vertices.deep_view(),
            ),
            final(self).lines.deep_view() == old(self).lines.deep_view() + normal_segments(
                old(self).vertices@.len() as int,
                scene.triangles@.len() as int,
            ),
            final(self).normals == old(self).normals,
            final(self).textures == old(self).textures,
            final(self).faces == old(self).faces,
    {
        let ghost before = self.vertices.deep_view();
        let ghost lines_before = self.lines.deep_view();
        let ghost base = self.vertices@.len() as int;
        let length: T = of_int(100i32);
        let mut i: usize = 0;
        assert(before.subrange(0, before.len() as int) =~= before);
        assert(self.lines.deep_view() =~= lines_before + normal_segments(base, 0));
        while i < scene.triangles.len()
            invariant
                scene.well_formed(),
                total_scalar::<T>(),
                shows_all(show),
                i <= scene.triangles@.len(),
                base + 2 * scene.triangles@.len() + 4 <= usize::MAX,
                before == old(self).vertices.deep_view(),
                before.len() == base,
                lines_before == old(self).lines.deep_view(),
                exact_scalar::<T>() ==> length == unit_scale::<T>(),
                self.vertices@.len() == base + 2 * i,
                vectors_added(show, normal_ends(scene, i as int), before, self.vertices.deep_view()),
                self.lines.deep_view() == lines_before + normal_segments(base, i as int),
                self.normals == old(self).normals,
                self.textures == old(self).textures,
                self.faces == old(self).faces,
            decreases scene.triangles@.len() - i,
        {
            let ghost held = self.vertices.deep_view();
            let ghost held_lines = self.lines.deep_view();
            let r = Ray::new(Self::middle(scene, i), *scene.get_face_normal(i));
            self.add_ray(&r, length, show);
            proof {
                let now = self.vertices.deep_view();
                let n = held.len() as int;
                assert(now.subrange(0, before.len() as int) =~= before) by {
                    assert forall|k: int| 0 <= k < before.len() implies now[k] == before[k] by {
                        assert(now.subrange(0, n)[k] == now[k]);
                        assert(held.subrange(0, before.len() as int)[k] == held[k]);
                    }
                }
                if exact_scalar::<T>() {
                    assert(r == normal_ray(scene, i as int));
                    assert forall|k: int| 0 <= k < normal_ends(scene, i + 1).len() implies vector_text(
                        show,
                        normal_ends(scene, i + 1)[k],
                        #[trigger] now[before.len() + k],
                    ) by {
                        if k < 2 * i {
                            assert(now.subrange(0, n)[before.len() + k] == now[before.len() + k]);
                            assert(normal_ends(scene, i as int)[k] == normal_ends(scene, i + 1)[k]);
                            assert(vector_text(
                                show,
                                normal_ends(scene, i as int)[k],
                                held[before.len() + k],
                            ));
                        } else if k == 2 * i {
                            assert(k / 2 == i && k % 2 == 0);
                        } else {
                            assert(k == 2 * i + 1);
                            assert(k / 2 == i && k % 2 == 1);
                        }
                    }
                }
                assert(self.lines.deep_view() =~= lines_before + normal_segments(base, i + 1)) by {
                    assert(normal_segments(base, i + 1) =~= normal_segments(base, i as int).push(
                        segment_text((base + 2 * i + 3) as usize, (base + 2 * i + 4) as usize),
                    ));
                }
            }
            i += 1;
        }
    }

    /// Adds a scene: its vertices, its vertex normals and its triangles as
    /// faces. With `face_normals` set, the face normal of every triangle is
    /// added too, as a segment of a hundred units from the middle of the
    /// triangle.
    pub fn add_scene<T: Scalar, S: Fn(T) -> String>(
        &mut self,
        scene: &Scene<T>,
        face_normals: bool,
        show: &S,
    )
        requires
            scene.well_formed(),
            total_scalar::<T>(),
            shows_all(show),
            old(self).vertices@.len() + scene.vertices@.len() + 2 * scene.triangles@.len() + 4
                <= usize::MAX,
        ensures
            final(self).textures == old(self).textures,
            vectors_added(
                show,
                scene.point_normals@,
                old(self).normals.deep_view(),
                final(self).normals.deep_view(),
            ),
            final(self).faces.deep_view() == old(self).faces.deep_view() + triangle_texts(
                scene.triangles@,
            ),
            !face_normals ==> final(self).lines == old(self).lines && vectors_added(
                show,
                scene.vertices@,
                old(self).vertices.deep_view(),
                final(self).vertices.deep_view(),
            ),
            face_normals ==> final(self).lines.deep_view() == old(self).lines.deep_view()
                + normal_segments(
                (old(self).vertices@.len() + scene.vertices@.len()) as int,
                scene.triangles@.len() as int,
            ) && vectors_added(
                show,
                scene.vertices@ + normal_ends(scene, scene.triangles@.len() as int),
                old(self).vertices.deep_view(),
                final(self).vertices.deep_view(),
            ),
    {
        self.add_vertices(&scene.vertices, show);
        let ghost between = self.vertices.deep_view();
        self.add_normals(&scene.point_normals, show);
        self.add_triangles(scene);
        if face_normals {
            self.add_face_normals(scene, show);
            proof {
                lemma_vectors_added_twice(
                    show,
                    scene.vertices@,
                    normal_ends(scene, scene.triangles@.len() as int),
                    old(self).vertices.deep_view(),
                    between,
                    self.vertices.deep_view(),
                );
            }
        }
    }

    /// Adds a mesh: its vertices, its normals and its triangles as faces.
    pub fn add_mesh<T: Scalar, S: Fn(T) -> String>(&mut self, m: &Mesh<T>, show: &S)
        requires
            m.well_formed(),
            total_scalar::<T>(),
            shows_all(show),
        ensures
            vectors_added(
                show,
                m.vertices@,
                old(self).vertices.deep_view(),
                final(self).vertices.deep_view(),
            ),
            vectors_added(show, m.normals@, old(self).normals.deep_view(), final(self).normals.deep_view()),
            final(self).faces.deep_view() == old(self).faces.deep_view() + mesh_texts(m.triangles@),
            final(self).textures == old(self).textures,
            final(self).lines == old(self).lines,
    {
        self.add_vertices(&m.vertices, show);
        self.add_normals(&m.normals, show);
        let ghost before = self.faces.deep_view();
        let mut i: usize = 0;
        assert(self.faces.deep_view() =~= before + mesh_texts(m.triangles@.take(0)));
        while i < m.triangles.len()
            invariant
                m.well_formed(),
                i <= m.triangles@.len(),
                before == old(self).faces.deep_view(),
                self.faces.deep_view() == before + mesh_texts(m.triangles@.take(i as int)),
                vectors_added(
                    show,
                    m.vertices@,
                    old(self).vertices.deep_view(),
                    self.vertices.deep_view(),
                ),
                vectors_added(show, m.normals@, old(self).normals.deep_view(), self.normals.deep_view()),
                self.textures == old(self).textures,
                self.lines == old(self).lines,
            decreases m.triangles@.len() - i,
        {
            let t = &m.triangles[i];
            proof {
                assert(m.triangle_ok(m.triangles@[i as int]));
                assert(m.vertices@.len() == m.vertices.len());
                assert(m.normals@.len() == m.normals.len());
            }
            let face = Triangle {
                vertices: t.vertices,
                point_normals: t.normals,
                material: 0,
                face_normal: 0,
            };
            self.add_triangle(&face);
            assert(self.faces.deep_view() =~= before + mesh_texts(m.triangles@.take(i + 1))) by {
                let shorter = mesh_texts(m.triangles@.take(i as int));
                let longer = mesh_texts(m.triangles@.take(i + 1));
                assert(longer =~= shorter.push(triangle_text(face)));
            }
            i += 1;
        }
        assert(m.triangles@.take(m.triangles@.len() as int) =~= m.triangles@);
    }

    /// The whole file as text.
    pub fn to_text(&self) -> (r: String)
        ensures
            r@ == self.text_spec(),
    {
        let mut text = String::new();
        append_block(&mut text, "v ", &self.vertices);
        append_block(&mut text, "vt ", &self.textures);
        append_block(&mut text, "vn ", &self.normals);
        append_block(&mut text, "l ", &self.lines);
        append_block(&mut text, "f ", &self.faces);
        assert(text@ =~= self.text_spec());
        text
    }

    pub fn num_vertices(&self) -> (r: usize)
        ensures
            r == self.vertices@.len(),
    {
        self.vertices.len()
    }

    pub fn num_normals(&self) -> (r: usize)
        ensures
            r == self.normals@.len(),
    {
        self.normals.len()
    }

    pub fn num_textures(&self) -> (r: usize)
        ensures
            r == self.textures@.len(),
    {
        self.textures.len()
    }
}

} // verus!
