use vstd::prelude::*;
use vstd::string::StringExecFns;
use crate::class::Instance;
use crate::pack::Pack;
use crate::shape::bound::{Bound, BoundClass};
use crate::shape::{Shape, ShapeClass};
use crate::source::{Source, SourceCache};
use crate::type_hash::TypeHash;

verus! {

/// The stable identity of [`Sphere`] in the source dedup cache.
pub const SPHERE_TYPE_ID: u64 = 0x5348_4150_4530_0001;

/// A sphere: center and radius, each component carried as the 32-bit
/// device encoding of one real number.
///
/// The encodings are produced at the host boundary that narrows wide host
/// precision to the device's; from there on the value is purely positional
/// data.  The sphere is its own bounding shape.
#[derive(Clone, Copy, PartialEq, Eq, Structural, Debug)]
pub struct Sphere {
    /// Device encoding of the center's first coordinate.
    pub pos_x: u32,
    /// Device encoding of the center's second coordinate.
    pub pos_y: u32,
    /// Device encoding of the center's third coordinate.
    pub pos_z: u32,
    /// Device encoding of the radius.
    pub rad: u32,
}

impl TypeHash for Sphere {
    open spec fn spec_type_hash() -> u64 {
        SPHERE_TYPE_ID
    }

    fn type_hash() -> (h: u64)
        ensures
            h == Self::spec_type_hash(),
    {
        SPHERE_TYPE_ID
    }
}

impl Source for Sphere {
    open spec fn spec_source(cache: Set<u64>) -> Seq<char> {
        "#define SPHERE_SIZE_INT 0\n#define SPHERE_SIZE_FLOAT 4\n#insert <clay_core/shape/sphere.h>\n"@
    }

    fn source_nocheck(cache: &mut SourceCache) -> (r: String) {
        String::from_str(
            "#define SPHERE_SIZE_INT 0\n#define SPHERE_SIZE_FLOAT 4\n#insert <clay_core/shape/sphere.h>\n",
        )
    }
}

impl Pack for Sphere {
    open spec fn spec_size_int() -> usize {
        0
    }

    open spec fn spec_size_float() -> usize {
        4
    }

    open spec fn int_lanes(&self) -> Seq<i32> {
        Seq::empty()
    }

    open spec fn real_lanes(&self) -> Seq<u32> {
        seq![self.pos_x, self.pos_y, self.pos_z, self.rad]
    }

    proof fn lanes_wf(&self)
        ensures
            self.int_lanes().len() == Self::spec_size_int(),
            self.real_lanes().len() == Self::spec_size_float(),
    {
    }

    proof fn lanes_injective(a: Self, b: Self)
        ensures
            a == b,
    {
        assert(a.real_lanes()[0] == b.real_lanes()[0]);
        assert(a.real_lanes()[1] == b.real_lanes()[1]);
        assert(a.real_lanes()[2] == b.real_lanes()[2]);
        assert(a.real_lanes()[3] == b.real_lanes()[3]);
    }

    fn size_int() -> (n: usize)
        ensures
            n == Self::spec_size_int(),
    {
        0
    }

    fn size_float() -> (n: usize)
        ensures
            n == Self::spec_size_float(),
    {
        4
    }

    fn pack(&self, buffer_int: &mut Vec<i32>, buffer_float: &mut Vec<u32>)
        ensures
            final(buffer_int)@ == self.int_lanes() + old(buffer_int)@.skip(
                Self::spec_size_int() as int,
            ),
            final(buffer_float)@ == self.real_lanes() + old(buffer_float)@.skip(
                Self::spec_size_float() as int,
            ),
    {
        buffer_float.set(0, self.pos_x);
        buffer_float.set(1, self.pos_y);
        buffer_float.set(2, self.pos_z);
        buffer_float.set(3, self.rad);
        proof {
            assert(buffer_int@ =~= self.int_lanes() + old(buffer_int)@.skip(0));
            assert(buffer_float@ =~= self.real_lanes() + old(buffer_float)@.skip(4));
        }
    }

    fn unpack(buffer_int: &Vec<i32>, buffer_float: &Vec<u32>) -> (r: Self)
        ensures
            r.int_lanes() == buffer_int@.take(Self::spec_size_int() as int),
            r.real_lanes() == buffer_float@.take(Self::spec_size_float() as int),
    {
        let r = Sphere {
            pos_x: buffer_float[0],
            pos_y: buffer_float[1],
            pos_z: buffer_float[2],
            rad: buffer_float[3],
        };
        proof {
            assert(r.int_lanes() =~= buffer_int@.take(0));
            assert(r.real_lanes() =~= buffer_float@.take(4));
        }
        r
    }
}

impl Instance<ShapeClass> for Sphere {
    open spec fn spec_inst_name() -> Seq<char> {
        "sphere"@
    }

    fn inst_name() -> (n: String) {
        String::from_str("sphere")
    }
}

impl Shape for Sphere {

}

impl Instance<BoundClass> for Sphere {
    open spec fn spec_inst_name() -> Seq<char> {
        "sphere"@
    }

    fn inst_name() -> (n: String) {
        String::from_str("sphere")
    }
}

impl Bound for Sphere {

}

} // verus!
