use vstd::prelude::*;

verus! {

/// Fixed-layout host/device value serialization.
///
/// A device-visible value declares fixed, data-independent lane counts and
/// writes itself into caller-supplied integer-lane and real-lane buffers at
/// offset zero; reading the same positions back reproduces the value.  A
/// real lane carries the 32-bit device encoding of one real number as an
/// opaque bit pattern: the narrowing from wide host precision to the device
/// encoding happens at the host boundary that produces the lanes, and
/// nowhere else.  Every device-visible value type supplies its own layout;
/// there is no generic default.
pub trait Pack: Sized {
    /// Number of integer lanes, as contracts see it.
    spec fn spec_size_int() -> usize;

    /// Number of real lanes, as contracts see it.
    spec fn spec_size_float() -> usize;

    /// The integer lanes of this value, in layout order.
    spec fn int_lanes(&self) -> Seq<i32>;

    /// The real lanes of this value, in layout order.
    spec fn real_lanes(&self) -> Seq<u32>;

    /// The declared lane counts are the lengths of the lanes.
    proof fn lanes_wf(&self)
        ensures
            self.int_lanes().len() == Self::spec_size_int(),
            self.real_lanes().len() == Self::spec_size_float(),
    ;

    /// A value is determined by its lanes: packing is lossless.
    proof fn lanes_injective(a: Self, b: Self)
        requires
            a.int_lanes() == b.int_lanes(),
            a.real_lanes() == b.real_lanes(),
        ensures
            a == b,
    ;

    /// Size of the integer part of an object.
    fn size_int() -> (n: usize)
        ensures
            n == Self::spec_size_int(),
    ;

    /// Size of the real part of an object.
    fn size_float() -> (n: usize)
        ensures
            n == Self::spec_size_float(),
    ;

    /// Writes the value into the integer and real buffers, at offset zero.
    ///
    /// The buffers must be at least as long as the declared sizes; lanes
    /// beyond the declared sizes are left untouched.
    fn pack(&self, buffer_int: &mut Vec<i32>, buffer_float: &mut Vec<u32>)
        requires
            old(buffer_int)@.len() >= Self::spec_size_int(),
            old(buffer_float)@.len() >= Self::spec_size_float(),
        ensures
            final(buffer_int)@ == self.int_lanes() + old(buffer_int)@.skip(
                Self::spec_size_int() as int,
            ),
            final(buffer_float)@ == self.real_lanes() + old(buffer_float)@.skip(
                Self::spec_size_float() as int,
            ),
    ;

    /// Reads a value back from the same positions that `pack` writes.
    fn unpack(buffer_int: &Vec<i32>, buffer_float: &Vec<u32>) -> (r: Self)
        requires
            buffer_int@.len() >= Self::spec_size_int(),
            buffer_float@.len() >= Self::spec_size_float(),
        ensures
            r.int_lanes() == buffer_int@.take(Self::spec_size_int() as int),
            r.real_lanes() == buffer_float@.take(Self::spec_size_float() as int),
    ;
}

/// Pack round-trip law: packing a value and unpacking the same buffer
/// positions reproduces the value exactly.
///
/// `pack` leaves the buffer prefixes equal to the value's declared lanes and
/// `unpack` returns a value whose lanes are those prefixes, so a value `r`
/// read back from a buffer that `x` was written to has the lanes of `x`;
/// by lane-injectivity the two values are equal.  The narrowing from wide
/// host precision to the 32-bit device encoding happens before the lanes
/// exist, so it does not enter here.
pub proof fn lemma_pack_round_trip<T: Pack>(x: T, r: T)
    requires
        r.int_lanes() == x.int_lanes(),
        r.real_lanes() == x.real_lanes(),
    ensures
        r == x,
{
    T::lanes_injective(r, x);
}

} // verus!
