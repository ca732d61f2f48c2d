use vstd::prelude::*;
use vstd::arithmetic::mul::lemma_mul_inequality;
use crate::buffer::{all_zero, lane_count, lanes_bounded, pixel_count, MAX_PASSES, SAMPLE_MAX};
use crate::context::Context;
use crate::error::Error;

verus! {

/// Fills a fresh per-pixel seed buffer from the host's random generator.
///
/// Relies on `rand::RngExt::fill` over the thread-local generator
/// (`rand::rng`) to fill a slice of 32-bit seeds.  The drawn values depend
/// on the generator's state, so nothing is promised of them; one seed per
/// cell comes back.
#[verifier::external_body]
fn random_seeds(len: usize) -> (r: Vec<u32>)
    ensures
        r@.len() == len,
{
    let mut v = vec![0u32; len];
    rand::RngExt::fill(&mut rand::rng(), &mut v[..]);
    v
}

/// Per-context progressive accumulation state of one render target:
/// a per-pixel random seed, a per-pixel color accumulator holding the
/// running sum of all samples seen so far (three lanes per pixel, never an
/// average), and the host-side count of completed passes.
///
/// The buffer is owned by exactly one context; its lanes stay bounded by
/// the pass count, so every merge downstream is free of overflow.
pub struct RenderBuffer {
    context: Context,
    random: Vec<u32>,
    color: Vec<u64>,
    n_passes: usize,
    dims: (usize, usize),
}

impl RenderBuffer {
    /// The owning context, as contracts see it.
    pub closed spec fn spec_context(&self) -> Context {
        self.context
    }

    /// The seed lanes, as contracts see them.
    pub closed spec fn spec_seeds(&self) -> Seq<u32> {
        self.random@
    }

    /// The color-sum lanes, as contracts see them.
    pub closed spec fn spec_colors(&self) -> Seq<u64> {
        self.color@
    }

    /// The completed pass count, as contracts see it.
    pub closed spec fn spec_passes(&self) -> usize {
        self.n_passes
    }

    /// The screen size, as contracts see it.
    pub closed spec fn spec_dims(&self) -> (usize, usize) {
        self.dims
    }

    /// One seed per pixel, three color lanes per pixel, and every running
    /// sum bounded by the count of passes that produced it.
    pub open spec fn wf(&self) -> bool {
        &&& self.spec_seeds().len() == pixel_count(self.spec_dims())
        &&& self.spec_colors().len() == lane_count(self.spec_dims())
        &&& self.spec_passes() <= MAX_PASSES
        &&& lanes_bounded(self.spec_colors(), self.spec_passes() as int)
    }

    /// Allocates the buffer on the given context: seeds drawn fresh, color
    /// sums all zero, no pass completed yet.  Allocation in the host model
    /// always succeeds; backend failures arrive through the backend itself.
    pub fn new(context: &Context, dims: (usize, usize)) -> (r: Result<RenderBuffer, Error>)
        requires
            pixel_count(dims) <= usize::MAX / 3,
        ensures
            r is Ok,
            r matches Ok(b) ==> b.wf() && b.spec_context() == *context && b.spec_dims() == dims
                && b.spec_passes() == 0 && all_zero(b.spec_colors()),
    {
        let len = dims.0 * dims.1;
        let random = random_seeds(len);
        let clen = 3 * len;
        let mut color: Vec<u64> = Vec::new();
        let mut i: usize = 0;
        while i < clen
            invariant
                i <= clen,
                color@.len() == i,
                forall|j: int| 0 <= j < i ==> color@[j] == 0,
            decreases clen - i,
        {
            color.push(0);
            i += 1;
        }
        Ok(RenderBuffer { context: *context, random, color, n_passes: 0, dims })
    }

    /// Counts one completed pass.  Only the counter moves.
    pub fn pass(&mut self)
        requires
            old(self).wf(),
            old(self).spec_passes() < MAX_PASSES,
        ensures
            final(self).wf(),
            final(self).spec_passes() == old(self).spec_passes() + 1,
            final(self).spec_colors() == old(self).spec_colors(),
            final(self).spec_seeds() == old(self).spec_seeds(),
            final(self).spec_context() == old(self).spec_context(),
            final(self).spec_dims() == old(self).spec_dims(),
    {
        self.n_passes += 1;
        proof {
            assert forall|i: int|
                0 <= i < self.spec_colors().len() implies self.spec_colors()[i] <= (
            self.n_passes as int) * SAMPLE_MAX by {
                assert(self.spec_colors()[i] <= (self.n_passes - 1) * SAMPLE_MAX);
                lemma_mul_inequality(self.n_passes - 1, self.n_passes as int, SAMPLE_MAX as int);
            }
        }
    }

    /// Applies the device's output of one completed pass: one additional
    /// sample per pixel lane is added to the running sums, and the pass is
    /// counted strictly afterwards.
    pub fn record_pass(&mut self, sample: &Vec<u32>) -> (r: Result<(), Error>)
        requires
            old(self).wf(),
            old(self).spec_passes() < MAX_PASSES,
        ensures
            r is Ok <==> sample@.len() == old(self).spec_colors().len(),
            r is Ok ==> final(self).wf() && final(self).spec_passes() == old(self).spec_passes() + 1
                && final(self).spec_colors().len() == old(self).spec_colors().len(),
            r is Ok ==> forall|i: int|
                0 <= i < final(self).spec_colors().len() ==> final(self).spec_colors()[i] == old(
                    self,
                ).spec_colors()[i] + sample@[i],
            r is Err ==> *final(self) == *old(self),
            r matches Err(e) ==> e matches Error::Dimensions(a, b) && a.0 == old(
                self,
            ).spec_colors().len() && a.1 == 1usize && b.0 == sample@.len() && b.1 == 1usize,
            final(self).spec_seeds() == old(self).spec_seeds(),
            final(self).spec_context() == old(self).spec_context(),
            final(self).spec_dims() == old(self).spec_dims(),
    {
        if sample.len() != self.color.len() {
            return Err(Error::Dimensions((self.color.len(), 1), (sample.len(), 1)));
        }
        let len = self.color.len();
        proof {
            assert forall|j: int|
                0 <= j < len implies old(self).spec_colors()[j] + sample@[j] <= u64::MAX by {
                assert(old(self).spec_colors()[j] <= (old(self).spec_passes() as int)
                    * SAMPLE_MAX);
                lemma_mul_inequality(
                    old(self).spec_passes() as int,
                    (MAX_PASSES - 1) as int,
                    SAMPLE_MAX as int,
                );
            }
        }
        let mut i: usize = 0;
        while i < len
            invariant
                len == self.color@.len(),
                sample@.len() == len,
                i <= len,
                self.n_passes == old(self).spec_passes(),
                self.random@ == old(self).spec_seeds(),
                self.context == old(self).spec_context(),
                self.dims == old(self).spec_dims(),
                forall|j: int| 0 <= j < len ==> old(self).spec_colors()[j] + sample@[j]
                    <= u64::MAX,
                forall|j: int| 0 <= j < i ==> self.color@[j] == old(self).spec_colors()[j]
                    + sample@[j],
                forall|j: int| i <= j < len ==> self.color@[j] == old(self).spec_colors()[j],
            decreases len - i,
        {
            let v = self.color[i] + (sample[i] as u64);
            self.color.set(i, v);
            i += 1;
        }
        self.n_passes += 1;
        proof {
            assert forall|j: int|
                0 <= j < self.color@.len() implies self.color@[j] <= (self.n_passes as int)
                * SAMPLE_MAX by {
                assert(old(self).spec_colors()[j] <= (self.n_passes - 1) * SAMPLE_MAX);
                assert(sample@[j] <= SAMPLE_MAX);
            }
        }
        Ok(())
    }

    /// Resets the accumulation: the pass count to zero and every color sum
    /// to zero.  Seeds are kept; they parameterize the device's sampling,
    /// not the collected statistics.
    pub fn clear(&mut self) -> (r: Result<(), Error>)
        requires
            old(self).wf(),
        ensures
            r is Ok,
            final(self).wf(),
            final(self).spec_passes() == 0,
            all_zero(final(self).spec_colors()),
            final(self).spec_colors().len() == old(self).spec_colors().len(),
            final(self).spec_seeds() == old(self).spec_seeds(),
            final(self).spec_context() == old(self).spec_context(),
            final(self).spec_dims() == old(self).spec_dims(),
    {
        let len = self.color.len();
        let mut i: usize = 0;
        while i < len
            invariant
                len == self.color@.len(),
                i <= len,
                self.n_passes == old(self).spec_passes(),
                self.random@ == old(self).spec_seeds(),
                self.context == old(self).spec_context(),
                self.dims == old(self).spec_dims(),
                forall|j: int| 0 <= j < i ==> self.color@[j] == 0,
            decreases len - i,
        {
            self.color.set(i, 0);
            i += 1;
        }
        self.n_passes = 0;
        Ok(())
    }

    /// The owning context.
    pub fn context(&self) -> (c: &Context)
        ensures
            *c == self.spec_context(),
    {
        &self.context
    }

    /// The per-pixel random seeds.
    pub fn random(&self) -> (r: &Vec<u32>)
        ensures
            r@ == self.spec_seeds(),
    {
        &self.random
    }

    /// The per-pixel color running sums, three lanes per pixel.
    pub fn color(&self) -> (c: &Vec<u64>)
        ensures
            c@ == self.spec_colors(),
    {
        &self.color
    }

    /// Completed passes so far.
    pub fn n_passes(&self) -> (n: usize)
        ensures
            n == self.spec_passes(),
    {
        self.n_passes
    }

    /// The screen size.
    pub fn dims(&self) -> (d: (usize, usize))
        ensures
            d == self.spec_dims(),
    {
        self.dims
    }

    /// Number of pixels.
    pub fn len(&self) -> (n: usize)
        requires
            self.wf(),
        ensures
            n == pixel_count(self.spec_dims()),
    {
        self.random.len()
    }
}

} // verus!
