use vstd::prelude::*;
use crate::buffer::{all_zero, lane_count, weighted_step, MAX_PASSES};
use crate::context::Context;
use crate::error::Error;

verus! {

/// Two equal-length device buffers playing source and destination roles in
/// turn.  `swap` exchanges the logical roles with no data copy, so a merge
/// can read its base from one buffer while writing the other, never
/// aliasing read and write.
///
/// The pair is owned by exactly one context, like every device buffer.
pub struct DoubleBuffer {
    context: Context,
    dims: (usize, usize),
    src: Vec<u64>,
    dst: Vec<u64>,
}

impl DoubleBuffer {
    /// The owning context, as contracts see it.
    pub closed spec fn spec_context(&self) -> Context {
        self.context
    }

    /// The screen size, as contracts see it.
    pub closed spec fn spec_dims(&self) -> (usize, usize) {
        self.dims
    }

    /// The lanes of the buffer currently in the source role.
    pub closed spec fn spec_src(&self) -> Seq<u64> {
        self.src@
    }

    /// The lanes of the buffer currently in the destination role.
    pub closed spec fn spec_dst(&self) -> Seq<u64> {
        self.dst@
    }

    /// Both buffers carry three lanes per pixel.
    pub open spec fn wf(&self) -> bool {
        &&& self.spec_src().len() == lane_count(self.spec_dims())
        &&& self.spec_dst().len() == lane_count(self.spec_dims())
    }

    /// Allocates the pair on the given context, all lanes zero.  Allocation
    /// in the host model always succeeds; backend failures arrive through
    /// the backend itself.
    pub fn new(context: &Context, dims: (usize, usize)) -> (r: Result<DoubleBuffer, Error>)
        requires
            dims.0 * dims.1 <= usize::MAX / 3,
        ensures
            r is Ok,
            r matches Ok(b) ==> b.wf() && b.spec_context() == *context && b.spec_dims() == dims
                && all_zero(b.spec_src()) && all_zero(b.spec_dst()),
    {
        let len = dims.0 * dims.1;
        let len = 3 * len;
        let mut src: Vec<u64> = Vec::new();
        let mut dst: Vec<u64> = Vec::new();
        let mut i: usize = 0;
        while i < len
            invariant
                i <= len,
                src@.len() == i,
                dst@.len() == i,
                forall|j: int| 0 <= j < i ==> src@[j] == 0 && dst@[j] == 0,
            decreases len - i,
        {
            src.push(0);
            dst.push(0);
            i += 1;
        }
        Ok(DoubleBuffer { context: *context, dims, src, dst })
    }

    /// Exchanges the two buffers' logical roles; no lane is copied.
    pub fn swap(&mut self)
        ensures
            final(self).spec_src() == old(self).spec_dst(),
            final(self).spec_dst() == old(self).spec_src(),
            final(self).spec_context() == old(self).spec_context(),
            final(self).spec_dims() == old(self).spec_dims(),
    {
        core::mem::swap(&mut self.src, &mut self.dst);
    }

    /// Writes into the destination role one step of the mean kernel: the
    /// source role holds the base, the running mean over `base_passes`
    /// passes, `incoming` carries a raw running sum over `src_passes`
    /// more, and every destination lane becomes the arithmetic mean over
    /// all `base_passes + src_passes` passes, weighted by pass counts.
    /// The source role is the merge's base and stays untouched.
    pub fn merge(&mut self, incoming: &Vec<u64>, base_passes: usize, src_passes: usize) -> (r:
        Result<(), Error>)
        requires
            old(self).wf(),
            base_passes + src_passes <= MAX_PASSES,
            forall|i: int|
                0 <= i < old(self).spec_src().len() ==> old(self).spec_src()[i] * base_passes
                    + incoming@[i] <= u64::MAX,
        ensures
            r is Ok <==> incoming@.len() == old(self).spec_src().len(),
            r is Ok ==> final(self).wf() && final(self).spec_src() == old(self).spec_src() && (
            forall|i: int|
                0 <= i < final(self).spec_dst().len() ==> final(self).spec_dst()[i]
                    == weighted_step(
                    old(self).spec_src()[i] as int,
                    base_passes as int,
                    incoming@[i] as int,
                    src_passes as int,
                )),
            r is Err ==> *final(self) == *old(self),
            r matches Err(e) ==> e matches Error::Dimensions(a, b) && a.0 == old(
                self,
            ).spec_src().len() && a.1 == 1usize && b.0 == incoming@.len() && b.1 == 1usize,
            final(self).spec_context() == old(self).spec_context(),
            final(self).spec_dims() == old(self).spec_dims(),
    {
        if incoming.len() != self.src.len() {
            return Err(Error::Dimensions((self.src.len(), 1), (incoming.len(), 1)));
        }
        let len = self.src.len();
        let total = base_passes + src_passes;
        let mut i: usize = 0;
        while i < len
            invariant
                len == self.src@.len(),
                self.dst@.len() == len,
                incoming@.len() == len,
                i <= len,
                total == base_passes + src_passes,
                self.src@ == old(self).spec_src(),
                self.context == old(self).spec_context(),
                self.dims == old(self).spec_dims(),
                forall|j: int|
                    0 <= j < len ==> old(self).spec_src()[j] * base_passes + incoming@[j]
                        <= u64::MAX,
                forall|j: int| 0 <= j < i ==> self.dst@[j] == weighted_step(
                    old(self).spec_src()[j] as int,
                    base_passes as int,
                    incoming@[j] as int,
                    src_passes as int,
                ),
            decreases len - i,
        {
            proof {
                assert(old(self).spec_src()[i as int] * base_passes + incoming@[i as int]
                    <= u64::MAX);
            }
            let v = if total == 0 {
                0
            } else {
                (self.src[i] * (base_passes as u64) + incoming[i]) / (total as u64)
            };
            self.dst.set(i, v);
            i += 1;
        }
        Ok(())
    }

    /// The buffer currently in the source role.
    pub fn src_buffer(&self) -> (b: &Vec<u64>)
        ensures
            b@ == self.spec_src(),
    {
        &self.src
    }

    /// The buffer currently in the destination role.
    pub fn dst_buffer(&self) -> (b: &Vec<u64>)
        ensures
            b@ == self.spec_dst(),
    {
        &self.dst
    }

    /// The owning context.
    pub fn context(&self) -> (c: &Context)
        ensures
            *c == self.spec_context(),
    {
        &self.context
    }

    /// The screen size.
    pub fn dims(&self) -> (d: (usize, usize))
        ensures
            d == self.spec_dims(),
    {
        self.dims
    }

    /// Number of lanes in each buffer: three per pixel.
    pub fn len(&self) -> (n: usize)
        requires
            self.wf(),
        ensures
            n == lane_count(self.spec_dims()),
    {
        self.src.len()
    }
}

} // verus!
