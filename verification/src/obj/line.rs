use crate::obj::load::LoadError;
use crate::obj::load::ObjParser;
use crate::obj::mtl::same_text;
use crate::obj::mtl::MtlError;
use crate::obj::mtl::MtlParser;
use crate::scalar::root_accepts_all;
use crate::scalar::total_scalar;
use crate::scalar::Scalar;
use crate::vector::Vector3;
use vstd::prelude::*;
use vstd::string::StringExecFns;
use vstd::string::StringSliceAdditionalSpecFns;
use vstd::string::StrSliceExecFns;

verus! {

/// What is left to do after a line was read.
#[derive(Debug)]
pub enum LineEvent {
    /// Nothing.
    Done,
    /// The material library at this path is to be read and handed to the
    /// parser.
    Library(String),
}

/// `number` accepts every word.
pub open spec fn reads_all<T, N: Fn(&str) -> T>(number: &N) -> bool {
    forall|word: &str| #[trigger] number.requires((word,))
}

/// `v` is a vector that `number` may read from the three words of `line` that
/// follow its keyword.
pub open spec fn vector_read<T, N: Fn(&str) -> T>(
    number: &N,
    line: Seq<&str>,
    v: Vector3<T>,
) -> bool {
    &&& line.len() >= 4
    &&& number.ensures((line[1],), v.x)
    &&& number.ensures((line[2],), v.y)
    &&& number.ensures((line[3],), v.z)
}

/// Position of the last `/` among the first `n` characters of `path`, or zero
/// where there is none.
pub open spec fn last_slash(path: Seq<char>, n: int) -> int
    decreases n,
{
    if n <= 0 {
        0
    } else if path[n - 1] == '/' {
        n - 1
    } else {
        last_slash(path, n - 1)
    }
}

/// The file called `name` beside the file at `path`: the directory of `path`,
/// a `/` and `name`; `name` alone where `path` names no directory.
pub open spec fn library_path_spec(path: Seq<char>, name: Seq<char>) -> Seq<char> {
    let cut = last_slash(path, path.len() as int);
    if cut == 0 {
        name
    } else {
        path.subrange(0, cut) + "/"@ + name
    }
}

/// The first word of `line` is `keyword`.
pub open spec fn starts_with(line: Seq<&str>, keyword: Seq<char>) -> bool {
    line.len() > 0 && line[0]@ == keyword
}

/// The line is none that a scene file gives a meaning to.
pub open spec fn no_scene_keyword(line: Seq<&str>) -> bool {
    &&& !starts_with(line, "mtllib"@)
    &&& !starts_with(line, "o"@)
    &&& !starts_with(line, "f"@)
    &&& !starts_with(line, "vn"@)
    &&& !starts_with(line, "v"@)
    &&& !starts_with(line, "usemtl"@)
}

/// The three numbers after the keyword of `line`.
pub fn parse_vector<T: Scalar, N: Fn(&str) -> T>(line: &Vec<&str>, number: &N) -> (r: Option<
    Vector3<T>,
>)
    requires
        reads_all(number),
    ensures
        line@.len() < 4 ==> r is None,
        line@.len() >= 4 ==> r is Some && vector_read(number, line@, r.unwrap()),
{
    if line.len() < 4 {
        return None;
    }
    let x = number(line[1]);
    let y = number(line[2]);
    let z = number(line[3]);
    Some(Vector3::new(x, y, z))
}

/// The path of the file called `name` beside the file at `path`.
pub fn library_path(path: &str, name: &str) -> (r: String)
    ensures
        r@ == library_path_spec(path@, name@),
{
    let n = path.unicode_len();
    let mut cut: usize = n;
    while cut > 0 && path.get_char(cut - 1) != '/'
        invariant
            cut <= n,
            n == path@.len(),
            last_slash(path@, n as int) == last_slash(path@, cut as int),
        decreases cut,
    {
        cut -= 1;
    }
    if cut <= 1 {
        assert(last_slash(path@, cut as int) == 0);
        String::from_str(name)
    } else {
        let mut out = String::from_str(path.substring_char(0, cut - 1));
        out.append("/");
        out.append(name);
        out
    }
}

impl<T: Scalar> ObjParser<T> {
    /// `new` holds what this parser holds.
    pub open spec fn unchanged(&self, new: &ObjParser<T>) -> bool {
        self.same_but_vertices(new) && new.vertices == self.vertices
    }

    /// Reads one line of a scene file, given as its words; `path` is the path
    /// of the file. A line `v` or `vn` adds a vertex or a normal, `o` starts
    /// an object, `f` adds a face of three corners, `usemtl` sets the
    /// material in use, and `mtllib` names a material library, which is left
    /// to the caller to read. Any other line is passed over.
    pub fn parse_line<N: Fn(&str) -> T, R: Fn(T) -> T>(
        &mut self,
        line: &Vec<&str>,
        path: &str,
        number: &N,
        root: &R,
    ) -> (r: Result<LineEvent, LoadError>)
        requires
            total_scalar::<T>(),
            reads_all(number),
            root_accepts_all(root),
        ensures
            starts_with(line@, "mtllib"@) ==> old(self).unchanged(final(self)) && (if line@.len()
                < 2 {
                r matches Err(LoadError::MissingWord)
            } else {
                r matches Ok(LineEvent::Library(p)) && p@ == library_path_spec(path@, line@[1]@)
            }),
            starts_with(line@, "o"@) ==> old(self).object_begun(final(self))
                && r matches Ok(LineEvent::Done),
            starts_with(line@, "f"@) ==> (if line@.len() != 4 {
                old(self).unchanged(final(self)) && r matches Err(LoadError::NotTriangle)
            } else {
                old(self).face_added(
                    line@[1].spec_bytes(),
                    line@[2].spec_bytes(),
                    line@[3].spec_bytes(),
                    root,
                    final(self),
                    match r {
                        Ok(_) => Ok(()),
                        Err(e) => Err(e),
                    },
                ) && !(r matches Ok(LineEvent::Library(_)))
            }),
            starts_with(line@, "vn"@) ==> (if line@.len() < 4 {
                old(self).unchanged(final(self)) && r matches Err(LoadError::MissingWord)
            } else {
                r matches Ok(LineEvent::Done) && exists|n: Vector3<T>|
                    #[trigger] vector_read(number, line@, n) && old(self).normal_added(
                        n,
                        root,
                        final(self),
                    )
            }),
            starts_with(line@, "v"@) ==> (if line@.len() < 4 {
                old(self).unchanged(final(self)) && r matches Err(LoadError::MissingWord)
            } else {
                r matches Ok(LineEvent::Done) && exists|v: Vector3<T>|
                    #[trigger] vector_read(number, line@, v) && old(self).vertex_added(
                        v,
                        final(self),
                    )
            }),
            starts_with(line@, "usemtl"@) ==> (if line@.len() < 2 {
                old(self).unchanged(final(self)) && r matches Err(LoadError::MissingWord)
            } else {
                old(self).material_used(
                    line@[1]@,
                    final(self),
                    match r {
                        Ok(_) => Ok(()),
                        Err(e) => Err(e),
                    },
                ) && !(r matches Ok(LineEvent::Library(_)))
            }),
            no_scene_keyword(line@) ==> old(self).unchanged(final(self))
                && r matches Ok(LineEvent::Done),
    {
        proof {
            keywords_differ();
        }
        if line.len() == 0 {
            return Ok(LineEvent::Done);
        }
        let keyword = line[0];
        if same_text(keyword, "mtllib") {
            if line.len() < 2 {
                return Err(LoadError::MissingWord);
            }
            Ok(LineEvent::Library(library_path(path, line[1])))
        } else if same_text(keyword, "o") {
            self.begin_object();
            Ok(LineEvent::Done)
        } else if same_text(keyword, "f") {
            if line.len() != 4 {
                return Err(LoadError::NotTriangle);
            }
            match self.add_face(line[1], line[2], line[3], root) {
                Ok(()) => Ok(LineEvent::Done),
                Err(e) => Err(e),
            }
        } else if same_text(keyword, "vn") {
            match parse_vector(line, number) {
                Some(n) => {
                    self.add_normal(n, root);
                    Ok(LineEvent::Done)
                },
                None => Err(LoadError::MissingWord),
            }
        } else if same_text(keyword, "v") {
            match parse_vector(line, number) {
                Some(v) => {
                    self.add_vertex(v);
                    Ok(LineEvent::Done)
                },
                None => Err(LoadError::MissingWord),
            }
        } else if same_text(keyword, "usemtl") {
            if line.len() < 2 {
                return Err(LoadError::MissingWord);
            }
            match self.use_material(line[1]) {
                Ok(()) => Ok(LineEvent::Done),
                Err(e) => Err(e),
            }
        } else {
            Ok(LineEvent::Done)
        }
    }
}

/// The line is none that a material library gives a meaning to.
pub open spec fn no_material_keyword(line: Seq<&str>) -> bool {
    &&& !starts_with(line, "newmtl"@)
    &&& !starts_with(line, "Ke"@)
    &&& !starts_with(line, "Kd"@)
}

impl<T: Scalar> MtlParser<T> {
    /// Reads one line of a material library, given as its words: `newmtl`
    /// declares a material, `Ke` and `Kd` give the material declared last
    /// its emission and its reflectance. Any other line is passed over.
    pub fn parse_line<N: Fn(&str) -> T>(&mut self, line: &Vec<&str>, number: &N) -> (r: Result<
        (),
        MtlError,
    >)
        requires
            reads_all(number),
        ensures
            starts_with(line@, "newmtl"@) ==> (if line@.len() < 2 {
                r == Err::<(), MtlError>(MtlError::MissingWord) && final(self).names == old(self).names && final(self).materials == old(self).materials
            } else {
                r == Ok::<(), MtlError>(()) && old(self).material_declared(
                    line@[1]@,
                    final(self),
                )
            }),
            starts_with(line@, "Ke"@) ==> (if line@.len() < 4 {
                r == Err::<(), MtlError>(MtlError::MissingWord) && final(self).names == old(self).names && final(self).materials == old(self).materials
            } else {
                exists|e: Vector3<T>|
                    #[trigger] vector_read(number, line@, e) && old(self).colours_set(
                        if old(self).materials@.len() > 0 {
                            old(self).materials@.last().diffuse
                        } else {
                            e
                        },
                        e,
                        final(self),
                        r,
                    )
            }),
            starts_with(line@, "Kd"@) ==> (if line@.len() < 4 {
                r == Err::<(), MtlError>(MtlError::MissingWord) && final(self).names == old(self).names && final(self).materials == old(self).materials
            } else {
                exists|d: Vector3<T>|
                    #[trigger] vector_read(number, line@, d) && old(self).colours_set(
                        d,
                        if old(self).materials@.len() > 0 {
                            old(self).materials@.last().emission
                        } else {
                            d
                        },
                        final(self),
                        r,
                    )
            }),
            no_material_keyword(line@) ==> r == Ok::<(), MtlError>(()) && final(self).names == old(self).names && final(self).materials == old(self).materials,
            old(self).well_formed() ==> final(self).well_formed(),
    {
        proof {
            material_keywords_differ();
        }
        if line.len() == 0 {
            return Ok(());
        }
        let keyword = line[0];
        if same_text(keyword, "newmtl") {
            if line.len() < 2 {
                return Err(MtlError::MissingWord);
            }
            self.new_material(line[1]);
            Ok(())
        } else if same_text(keyword, "Ke") {
            match parse_vector(line, number) {
                Some(e) => self.set_emission(e),
                None => Err(MtlError::MissingWord),
            }
        } else if same_text(keyword, "Kd") {
            match parse_vector(line, number) {
                Some(d) => self.set_diffuse(d),
                None => Err(MtlError::MissingWord),
            }
        } else {
            Ok(())
        }
    }
}

/// The keywords of a material library are three different words.
pub proof fn material_keywords_differ()
    ensures
        "newmtl"@ != "Ke"@,
        "newmtl"@ != "Kd"@,
        "Ke"@ != "Kd"@,
{
    reveal_strlit("newmtl");
    reveal_strlit("Ke");
    reveal_strlit("Kd");
    assert("newmtl"@.len() == 6);
    assert("Ke"@.len() == 2);
    assert("Kd"@.len() == 2);
    assert("Ke"@[1] == 'e');
    assert("Kd"@[1] == 'd');
}

/// The keywords of a scene file are six different words.
pub proof fn keywords_differ()
    ensures
        "mtllib"@ != "o"@,
        "mtllib"@ != "f"@,
        "mtllib"@ != "vn"@,
        "mtllib"@ != "v"@,
        "mtllib"@ != "usemtl"@,
        "o"@ != "f"@,
        "o"@ != "vn"@,
        "o"@ != "v"@,
        "o"@ != "usemtl"@,
        "f"@ != "vn"@,
        "f"@ != "v"@,
        "f"@ != "usemtl"@,
        "vn"@ != "v"@,
        "vn"@ != "usemtl"@,
        "v"@ != "usemtl"@,
{
    reveal_strlit("mtllib");
    reveal_strlit("o");
    reveal_strlit("f");
    reveal_strlit("vn");
    reveal_strlit("v");
    reveal_strlit("usemtl");
    assert("mtllib"@.len() == 6);
    assert("mtllib"@[0] == 'm');
    assert("o"@.len() == 1);
    assert("o"@[0] == 'o');
    assert("f"@.len() == 1);
    assert("f"@[0] == 'f');
    assert("vn"@.len() == 2);
    assert("vn"@[0] == 'v');
    assert("v"@.len() == 1);
    assert("v"@[0] == 'v');
    assert("usemtl"@.len() == 6);
    assert("usemtl"@[0] == 'u');
}

} // verus!
