use vstd::prelude::*;
use crate::buffer::{all_zero_bytes, lane_count, pixel_count};
use crate::context::Context;
use crate::error::Error;

verus! {

/// The packed byte image of one frame: row-major, three bytes (RGB) per
/// pixel, owned by exactly one context.  File encoding is external; the
/// image only hands the bytes out.
pub struct Image {
    context: Context,
    bytes: Vec<u8>,
    dims: (usize, usize),
}

impl Image {
    /// The owning context, as contracts see it.
    pub closed spec fn spec_context(&self) -> Context {
        self.context
    }

    /// The packed bytes, as contracts see them.
    pub closed spec fn spec_bytes(&self) -> Seq<u8> {
        self.bytes@
    }

    /// The screen size, as contracts see it.
    pub closed spec fn spec_dims(&self) -> (usize, usize) {
        self.dims
    }

    /// Three bytes per pixel.
    pub open spec fn wf(&self) -> bool {
        self.spec_bytes().len() == lane_count(self.spec_dims())
    }

    /// Allocates the image on the given context, all bytes zero.
    /// Allocation in the host model always succeeds; backend failures
    /// arrive through the backend itself.
    pub fn new(context: &Context, dims: (usize, usize)) -> (r: Result<Image, Error>)
        requires
            dims.0 * dims.1 <= usize::MAX / 3,
        ensures
            r is Ok,
            r matches Ok(b) ==> b.wf() && b.spec_context() == *context && b.spec_dims() == dims
                && all_zero_bytes(b.spec_bytes()),
    {
        let len = dims.0 * dims.1;
        let len = 3 * len;
        let mut bytes: Vec<u8> = Vec::new();
        let mut i: usize = 0;
        while i < len
            invariant
                i <= len,
                bytes@.len() == i,
                forall|j: int| 0 <= j < i ==> bytes@[j] == 0,
            decreases len - i,
        {
            bytes.push(0);
            i += 1;
        }
        Ok(Image { context: *context, bytes, dims })
    }

    /// Reads the packed bytes back to the host.
    pub fn read(&self) -> (r: Result<Vec<u8>, Error>)
        ensures
            r is Ok,
            r matches Ok(v) ==> v@ == self.spec_bytes(),
    {
        let len = self.bytes.len();
        let mut v: Vec<u8> = Vec::new();
        let mut i: usize = 0;
        while i < len
            invariant
                len == self.bytes@.len(),
                i <= len,
                v@.len() == i,
                forall|j: int| 0 <= j < i ==> v@[j] == self.bytes@[j],
            decreases len - i,
        {
            v.push(self.bytes[i]);
            i += 1;
        }
        proof {
            assert(v@ =~= self.spec_bytes());
        }
        Ok(v)
    }

    /// Replaces the packed bytes wholesale; the pack stage writes through
    /// this.
    pub(crate) fn write_all(&mut self, data: Vec<u8>)
        requires
            data@.len() == old(self).spec_bytes().len(),
        ensures
            final(self).spec_bytes() == data@,
            final(self).spec_context() == old(self).spec_context(),
            final(self).spec_dims() == old(self).spec_dims(),
    {
        self.bytes = data;
    }

    /// The packed bytes.
    pub fn bytes(&self) -> (b: &Vec<u8>)
        ensures
            b@ == self.spec_bytes(),
    {
        &self.bytes
    }

    /// The owning context.
    pub fn context(&self) -> (c: &Context)
        ensures
            *c == self.spec_context(),
    {
        &self.context
    }

    /// The screen size.
    pub fn dims(&self) -> (d: (usize, usize))
        ensures
            d == self.spec_dims(),
    {
        self.dims
    }

    /// Number of pixels.
    pub fn len(&self) -> (n: usize)
        requires
            self.wf(),
        ensures
            n == pixel_count(self.spec_dims()),
    {
        let total = self.bytes.len();
        proof {
            assert(total == 3 * pixel_count(self.spec_dims()));
        }
        self.dims.0 * self.dims.1
    }
}

} // verus!
