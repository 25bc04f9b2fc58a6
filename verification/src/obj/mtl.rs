use crate::image::black;
use crate::scalar::of_int;
use crate::scalar::Scalar;
use crate::scene::mesh::Material;
use crate::vector::Vector3;
use vstd::prelude::*;
use vstd::std_specs::convert::FromSpec;

verus! {

/// The materials of a material library in the order in which they were
/// declared, each with its name.
#[derive(Debug)]
pub struct MtlParser<T> {
    pub materials: Vec<Material<T>>,
    pub names: Vec<String>,
}

/// Why a material library could not be read.
#[derive(Debug, Clone, Copy, PartialEq, Eq, Structural)]
pub enum MtlError {
    /// A colour was given before any material was declared.
    NoMaterial,
    /// A line is shorter than its keyword asks for.
    MissingWord,
}

/// Position of the last of the first `n` names that is `name`, if there is
/// one: the material that a name stands for is the one declared last.
pub open spec fn lookup_spec(names: Seq<Seq<char>>, n: int, name: Seq<char>) -> Option<int>
    decreases n,
{
    if n <= 0 {
        None
    } else if names[n - 1] == name {
        Some(n - 1)
    } else {
        lookup_spec(names, n - 1, name)
    }
}

/// The position of the last of `names` that is `name`.
pub fn lookup(names: &Vec<String>, name: &str) -> (r: Option<usize>)
    ensures
        lookup_spec(names.deep_view(), names@.len() as int, name@) == match r {
            Some(k) => Some(k as int),
            None => None,
        },
        r is Some ==> r.unwrap() < names@.len(),
{
    let mut i: usize = names.len();
    while i > 0
        invariant
            i <= names@.len(),
            lookup_spec(names.deep_view(), names@.len() as int, name@) == lookup_spec(
                names.deep_view(),
                i as int,
                name@,
            ),
        decreases i,
    {
        assert(names.deep_view()[i - 1] == names@[i - 1]@);
        if same_text(names[i - 1].as_str(), name) {
            return Some(i - 1);
        }
        i -= 1;
    }
    None
}

/// Whether two texts are equal.
pub fn same_text(a: &str, b: &str) -> (r: bool)
    ensures
        r == (a@ == b@),
{
    let n = a.unicode_len();
    if n != b.unicode_len() {
        return false;
    }
    let mut i: usize = 0;
    while i < n
        invariant
            i <= n,
            n == a@.len(),
            n == b@.len(),
            forall|k: int| 0 <= k < i ==> a@[k] == b@[k],
        decreases n - i,
    {
        if a.get_char(i) != b.get_char(i) {
            return false;
        }
        i += 1;
    }
    assert(a@ =~= b@);
    true
}

impl<T: Scalar> MtlParser<T> {
    /// A library without materials.
    pub fn new() -> (r: MtlParser<T>)
        ensures
            r.materials@.len() == 0,
            r.names@.len() == 0,
    {
        MtlParser { materials: Vec::new(), names: Vec::new() }
    }

    /// Each material has its name.
    pub open spec fn well_formed(&self) -> bool {
        self.materials@.len() == self.names@.len()
    }

    /// `new` is this library after a material called `name` was declared:
    /// one more material, black and emitting nothing.
    pub open spec fn material_declared(&self, name: Seq<char>, new: &MtlParser<T>) -> bool {
        &&& new.names.deep_view() == self.names.deep_view().push(name)
        &&& new.materials@.len() == self.materials@.len() + 1
        &&& new.materials@.drop_last() == self.materials@
        &&& T::obeys_from_spec() ==> new.materials@.last() == (Material {
            diffuse: black::<T>(),
            emission: black::<T>(),
        })
    }

    /// `new` and `r` are this library and the outcome after the material
    /// declared last was given the colours `diffuse` and `emission`. Without
    /// a material the request fails and nothing changes.
    pub open spec fn colours_set(
        &self,
        diffuse: Vector3<T>,
        emission: Vector3<T>,
        new: &MtlParser<T>,
        r: Result<(), MtlError>,
    ) -> bool {
        &&& new.names == self.names
        &&& if self.materials@.len() == 0 {
            r == Err::<(), MtlError>(MtlError::NoMaterial) && new.materials == self.materials
        } else {
            r == Ok::<(), MtlError>(()) && new.materials@ == self.materials@.update(
                self.materials@.len() - 1,
                Material { diffuse, emission },
            )
        }
    }

    /// Declares a material called `name`: black, and emitting nothing.
    pub fn new_material(&mut self, name: &str)
        ensures
            old(self).material_declared(name@, final(self)),
            old(self).well_formed() ==> final(self).well_formed(),
    {
        let zero: T = of_int(0i32);
        let none = Vector3::new(zero, zero, zero);
        self.names.push(name.to_owned());
        self.materials.push(Material { diffuse: none, emission: none });
        assert(self.names.deep_view() =~= old(self).names.deep_view().push(name@));
        assert(self.materials@.drop_last() =~= old(self).materials@);
    }

    /// Sets the emission of the material declared last.
    pub fn set_emission(&mut self, emission: Vector3<T>) -> (r: Result<(), MtlError>)
        ensures
            old(self).colours_set(
                if old(self).materials@.len() > 0 {
                    old(self).materials@.last().diffuse
                } else {
                    emission
                },
                emission,
                final(self),
                r,
            ),
    {
        let n = self.materials.len();
        if n == 0 {
            return Err(MtlError::NoMaterial);
        }
        let diffuse = self.materials[n - 1].diffuse;
        self.materials.set(n - 1, Material { diffuse, emission });
        Ok(())
    }

    /// Sets the reflectance of the material declared last.
    pub fn set_diffuse(&mut self, diffuse: Vector3<T>) -> (r: Result<(), MtlError>)
        ensures
            old(self).colours_set(
                diffuse,
                if old(self).materials@.len() > 0 {
                    old(self).materials@.last().emission
                } else {
                    diffuse
                },
                final(self),
                r,
            ),
    {
        let n = self.materials.len();
        if n == 0 {
            return Err(MtlError::NoMaterial);
        }
        let emission = self.materials[n - 1].emission;
        self.materials.set(n - 1, Material { diffuse, emission });
        Ok(())
    }
}

} // verus!
