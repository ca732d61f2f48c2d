use vstd::prelude::*;
use crate::buffer::double_buffer::DoubleBuffer;
use crate::buffer::render_buffer::RenderBuffer;
use vstd::arithmetic::div_mod::{lemma_div_is_ordered, lemma_div_multiples_vanish,
    lemma_div_pos_is_pos};
use vstd::arithmetic::mul::lemma_mul_inequality;
use crate::buffer::{weighted_step, MAX_PASSES, SAMPLE_MAX};
use crate::context::Context;
use crate::error::Error;
use crate::process::kernel::Kernel;
use crate::program::{core_source, ListHook, Program};
use crate::push::{bound_range, kind_of, ArgKind, ArgValue, DeviceKernel, KernelBuilder, Push};

verus! {

/// Total pass count of the first `n` source buffers.
pub open spec fn total_passes(rbs: Seq<RenderBuffer>, n: int) -> int
    decreases n,
{
    if n <= 0 {
        0
    } else {
        total_passes(rbs, n - 1) + rbs[n - 1].spec_passes()
    }
}

/// The running pass-weighted mean after folding the first `n` sources,
/// one at a time: each merge weights the base by the passes it already
/// represents and takes in the next source's running sum, so earlier
/// sources are never reprocessed.  Nothing but color sums and pass
/// counts enters a merge; in particular the owning contexts do not.
pub open spec fn folded_mean(rbs: Seq<RenderBuffer>, n: int, i: int) -> int
    decreases n,
{
    if n <= 0 {
        0
    } else {
        weighted_step(
            folded_mean(rbs, n - 1, i),
            total_passes(rbs, n - 1),
            rbs[n - 1].spec_colors()[i] as int,
            rbs[n - 1].spec_passes() as int,
        )
    }
}

/// Pass totals are sums of counts, so never negative.
pub proof fn lemma_total_passes_nonneg(rbs: Seq<RenderBuffer>, n: int)
    ensures
        0 <= total_passes(rbs, n),
    decreases n,
{
    if n > 0 {
        lemma_total_passes_nonneg(rbs, n - 1);
    }
}

/// A folded mean never exceeds the largest possible sample: every merge
/// step averages lane values that its sources' pass counts bound.
pub proof fn lemma_folded_mean_bounded(rbs: Seq<RenderBuffer>, n: int, i: int)
    requires
        0 <= n <= rbs.len(),
        forall|j: int| 0 <= j < n ==> rbs[j].wf(),
        0 <= i,
        forall|j: int| 0 <= j < n ==> i < (#[trigger] rbs[j].spec_colors()).len(),
    ensures
        0 <= folded_mean(rbs, n, i) <= SAMPLE_MAX,
    decreases n,
{
    if n > 0 {
        lemma_folded_mean_bounded(rbs, n - 1, i);
        lemma_total_passes_nonneg(rbs, n - 1);
        let base = folded_mean(rbs, n - 1, i);
        let np = total_passes(rbs, n - 1);
        let sum = rbs[n - 1].spec_colors()[i] as int;
        let ns = rbs[n - 1].spec_passes() as int;
        assert(sum <= ns * SAMPLE_MAX);
        if np + ns > 0 {
            lemma_mul_inequality(base, SAMPLE_MAX as int, np);
            assert(ns * SAMPLE_MAX == SAMPLE_MAX * ns) by (nonlinear_arith);
            assert(SAMPLE_MAX * np + SAMPLE_MAX * ns == (np + ns) * SAMPLE_MAX) by (
            nonlinear_arith);
            lemma_div_is_ordered(base * np + sum, (np + ns) * SAMPLE_MAX, np + ns);
            lemma_div_multiples_vanish(SAMPLE_MAX as int, np + ns);
            assert(0 <= base * np) by (nonlinear_arith)
                requires
                    0 <= base,
                    0 <= np,
            ;
            lemma_div_pos_is_pos(base * np + sum, np + ns);
        }
    }
}

/// Cross-context merge parity law: two rows of source buffers that agree
/// in color sums and pass counts merge identically, whatever contexts own
/// them.  The host-staging round trip a foreign buffer takes is a copy,
/// so it cannot enter the arithmetic.
pub proof fn lemma_merge_context_parity(
    a: Seq<RenderBuffer>,
    b: Seq<RenderBuffer>,
    n: int,
    i: int,
)
    requires
        forall|j: int| 0 <= j < n ==> a[j].spec_colors() == b[j].spec_colors(),
        forall|j: int| 0 <= j < n ==> a[j].spec_passes() == b[j].spec_passes(),
    ensures
        folded_mean(a, n, i) == folded_mean(b, n, i),
        total_passes(a, n) == total_passes(b, n),
    decreases n,
{
    if n > 0 {
        lemma_merge_context_parity(a, b, n - 1, i);
    }
}

/// Incremental weighted-mean law: a base holding the mean `m_base` over
/// `np` passes, merged with a source of `ns` further passes whose
/// running sum is `ns·m_src`, yields `(np·m_base + ns·m_src)/(np + ns)`:
/// the arithmetic mean of all samples seen so far, weighted by pass
/// count, with no earlier source reprocessed.
pub proof fn lemma_incremental_mean(m_base: int, np: int, m_src: int, ns: int)
    requires
        0 <= np,
        0 <= ns,
        0 < np + ns,
    ensures
        weighted_step(m_base, np, ns * m_src, ns) == (np * m_base + ns * m_src) / (np + ns),
{
    assert(m_base * np == np * m_base) by (nonlinear_arith);
}

/// Accumulation arithmetic law: folding a source of `na` passes of
/// uniform per-pass lane value `va` (running sum `na·va`) and then one
/// of `nb` passes of uniform `vb` leaves every lane holding
/// `(na·va + nb·vb) / (na + nb)`: the pass-weighted arithmetic mean of
/// all merged samples.
pub proof fn lemma_accumulate_two_uniform(rbs: Seq<RenderBuffer>, i: int, va: int, vb: int)
    requires
        rbs.len() == 2,
        rbs[0].spec_colors()[i] == rbs[0].spec_passes() * va,
        rbs[1].spec_colors()[i] == rbs[1].spec_passes() * vb,
        rbs[0].spec_passes() + rbs[1].spec_passes() > 0,
    ensures
        total_passes(rbs, 2) == rbs[0].spec_passes() + rbs[1].spec_passes(),
        folded_mean(rbs, 2, i) == (rbs[0].spec_passes() * va + rbs[1].spec_passes() * vb) / (
        rbs[0].spec_passes() + rbs[1].spec_passes()),
{
    reveal_with_fuel(folded_mean, 3);
    reveal_with_fuel(total_passes, 3);
    let na = rbs[0].spec_passes() as int;
    let nb = rbs[1].spec_passes() as int;
    assert(total_passes(rbs, 0) == 0);
    assert(total_passes(rbs, 1) == na);
    assert(folded_mean(rbs, 0, i) == 0);
    if na > 0 {
        // the empty base enters the first merge with weight zero
        assert(folded_mean(rbs, 1, i) == (0 * 0 + na * va) / na);
        lemma_div_multiples_vanish(va, na);
        assert(folded_mean(rbs, 1, i) == va);
        assert(folded_mean(rbs, 2, i) == (va * na + nb * vb) / (na + nb));
        assert(va * na == na * va) by (nonlinear_arith);
    } else {
        assert(folded_mean(rbs, 1, i) == 0);
        assert(folded_mean(rbs, 2, i) == (0 * 0 + nb * vb) / nb);
        lemma_div_multiples_vanish(vb, nb);
        assert(folded_mean(rbs, 2, i) == vb);
        assert(na * va == 0) by (nonlinear_arith)
            requires
                na == 0,
        ;
        assert((na * va + nb * vb) / (na + nb) == (nb * vb) / nb);
    }
}

/// The fixed five-argument schema of the mean kernel: the screen size,
/// the pass counts already in the destination and arriving from the
/// source, then the destination and source buffers, in that order.
pub struct MeanArgs {
    /// Screen size, as the device sees it.
    pub dims: (i32, i32),
    /// Passes already represented in the destination.
    pub dst_passes: i32,
    /// Passes arriving from the source.
    pub src_passes: i32,
    /// Length of the destination buffer.
    pub dst_len: usize,
    /// Length of the source buffer.
    pub src_len: usize,
}

impl Push for MeanArgs {
    open spec fn spec_decls() -> Seq<ArgKind> {
        seq![
            ArgKind::Pair,
            ArgKind::Scalar,
            ArgKind::Scalar,
            ArgKind::RealBuffer,
            ArgKind::RealBuffer,
        ]
    }

    open spec fn spec_args(&self) -> Seq<ArgValue> {
        seq![
            ArgValue::Pair(self.dims.0, self.dims.1),
            ArgValue::Scalar(self.dst_passes),
            ArgValue::Scalar(self.src_passes),
            ArgValue::RealBuffer(self.dst_len),
            ArgValue::RealBuffer(self.src_len),
        ]
    }

    proof fn args_wf(&self) {
        assert forall|j: int|
            0 <= j < Self::spec_decls().len() implies kind_of(self.spec_args()[j])
            == Self::spec_decls()[j] by {
            if j == 0 {
                assert(self.spec_args()[0] == ArgValue::Pair(self.dims.0, self.dims.1));
            } else if j == 1 {
                assert(self.spec_args()[1] == ArgValue::Scalar(self.dst_passes));
            } else if j == 2 {
                assert(self.spec_args()[2] == ArgValue::Scalar(self.src_passes));
            } else if j == 3 {
                assert(self.spec_args()[3] == ArgValue::RealBuffer(self.dst_len));
            } else {
                assert(self.spec_args()[4] == ArgValue::RealBuffer(self.src_len));
            }
        }
    }

    fn args_count() -> (n: usize) {
        5
    }

    fn args_def(kb: &mut KernelBuilder) {
        kb.arg(ArgKind::Pair);
        kb.arg(ArgKind::Scalar);
        kb.arg(ArgKind::Scalar);
        kb.arg(ArgKind::RealBuffer);
        kb.arg(ArgKind::RealBuffer);
        proof {
            assert(kb@ =~= old(kb)@ + Self::spec_decls());
        }
    }

    fn args_set(&mut self, i: usize, k: &mut DeviceKernel) -> (r: Result<(), Error>) {
        let ghost d = old(k).spec_decls();
        let ghost a0 = old(k).spec_args();
        let vals = [
            ArgValue::Pair(self.dims.0, self.dims.1),
            ArgValue::Scalar(self.dst_passes),
            ArgValue::Scalar(self.src_passes),
            ArgValue::RealBuffer(self.dst_len),
            ArgValue::RealBuffer(self.src_len),
        ];
        let mut j: usize = 0;
        while j < 5
            invariant
                j <= 5,
                i + 5 <= usize::MAX,
                vals@ == old(self).spec_args(),
                *self == *old(self),
                k.wf(),
                k.spec_decls() == d,
                k.spec_entry() == old(k).spec_entry(),
                k.spec_context() == old(k).spec_context(),
                k.spec_args().len() == a0.len(),
                d == old(k).spec_decls(),
                a0 == old(k).spec_args(),
                forall|m: int| 0 <= m < j ==> i + m < d.len() && d[i + m]
                    == Self::spec_decls()[m],
                forall|m: int|
                    0 <= m < k.spec_args().len() && !(i <= m < i + j) ==> k.spec_args()[m]
                        == a0[m],
                forall|m: int| 0 <= m < j ==> k.spec_args()[i + m] == Some(
                    old(self).spec_args()[m],
                ),
            decreases 5 - j,
        {
            match k.set_arg(i + j, vals[j]) {
                Ok(()) => {},
                Err(e) => {
                    proof {
                        self.args_wf();
                        if i + 5 <= d.len() && d.subrange(i as int, i + 5) == Self::spec_decls() {
                            assert(d[i + j] == d.subrange(i as int, i + 5)[j as int]);
                            assert(kind_of(vals@[j as int]) == Self::spec_decls()[j as int]);
                        }
                    }
                    return Err(e);
                },
            }
            j += 1;
        }
        proof {
            assert(d.subrange(i as int, i + 5) =~= Self::spec_decls());
            assert(k.spec_args() =~= bound_range(a0, i as int, old(self).spec_args()));
        }
        Ok(())
    }
}

/// Folds a row of per-context render buffers into one target pair,
/// computing incrementally the arithmetic mean of all samples seen so
/// far, weighted by each source's pass count.
///
/// Sources owned by the target's own context merge with zero host
/// copies; a source owned by another context has its color data
/// round-tripped through a host-side staging buffer first, since device
/// memory is never shared across distinct contexts.  Each merge weights
/// the base mean held in the source-role buffer by the passes it already
/// represents, takes in the source's running sums, and writes the new
/// mean into the destination role; the roles then swap, so the newly
/// written buffer becomes the next merge's base and a read never aliases
/// a write.  Folding is incremental: sources merge one at a time,
/// earlier ones are never reprocessed.
pub struct Accumulator {
    kernel: Kernel<MeanArgs>,
    host_buffer: Vec<u64>,
}

impl Accumulator {
    /// The mean kernel, as contracts see it.
    pub closed spec fn spec_kernel(&self) -> Kernel<MeanArgs> {
        self.kernel
    }

    /// The kernel is well-formed and wraps the mean entry point.
    pub open spec fn wf(&self) -> bool {
        &&& self.spec_kernel().wf()
        &&& self.spec_kernel().spec_kernel().spec_entry() == "mean"@
    }

    /// The context the accumulator merges on.
    pub closed spec fn spec_context(&self) -> Context {
        self.kernel.spec_kernel().spec_context()
    }

    /// Compiles the mean kernel against the given context.
    pub fn new(context: &Context) -> (r: Result<Accumulator, Error>)
        ensures
            r is Ok,
            r matches Ok(a) ==> a.wf() && a.spec_context() == *context,
    {
        let mut hooks = ListHook::new();
        hooks.add_hook(core_source());
        let program = Program::new(hooks, "clay_core/mean.c")?;
        let (kernel, _log) = Kernel::<MeanArgs>::new(context, &program, "mean")?;
        Ok(Accumulator { kernel, host_buffer: Vec::new() })
    }

    /// The context the accumulator merges on.
    pub fn context(&self) -> (c: &Context)
        ensures
            *c == self.spec_context(),
    {
        self.kernel.context()
    }

    /// Folds the sources into the target, one at a time, each weighted by
    /// its pass count.  Succeeds exactly when every source's screen size
    /// is the target's; a mismatch is reported with both sizes before
    /// anything is merged.  After the fold the source-role buffer holds
    /// the old base plus every source's contribution.
    /// Folds the sources into the target, one at a time, each merge
    /// weighted by the passes already represented and the source's own
    /// pass count, exactly as the mean kernel computes.  Succeeds exactly
    /// when every source's screen size is the target's; a mismatch is
    /// reported with both sizes before anything is merged.  After the
    /// fold the source-role buffer holds the pass-weighted arithmetic
    /// mean of all merged samples, and the represented pass total comes
    /// back so a caller can weight further folds.
    pub fn accumulate(&mut self, db: &mut DoubleBuffer, rbs: &Vec<RenderBuffer>) -> (r: Result<
        usize,
        Error,
    >)
        requires
            old(self).wf(),
            old(db).wf(),
            old(db).spec_context().queue_id == old(self).spec_context().queue_id,
            old(db).spec_dims().0 <= i32::MAX,
            old(db).spec_dims().1 <= i32::MAX,
            forall|j: int| 0 <= j < rbs@.len() ==> rbs@[j].wf(),
            total_passes(rbs@, rbs@.len() as int) <= MAX_PASSES,
        ensures
            final(self).wf(),
            final(self).spec_context() == old(self).spec_context(),
            final(db).spec_context() == old(db).spec_context(),
            final(db).spec_dims() == old(db).spec_dims(),
            r is Ok <==> forall|j: int| 0 <= j < rbs@.len() ==> rbs@[j].spec_dims() == old(
                db,
            ).spec_dims(),
            r matches Ok(total) ==> total == total_passes(rbs@, rbs@.len() as int),
            r is Ok && rbs@.len() == 0 ==> *final(db) == *old(db),
            r is Ok && rbs@.len() > 0 ==> final(db).wf() && (forall|i: int|
                0 <= i < final(db).spec_src().len() ==> final(db).spec_src()[i] == folded_mean(
                    rbs@,
                    rbs@.len() as int,
                    i,
                )),
            r is Ok && rbs@.len() == 1 ==> final(db).spec_dst() == old(db).spec_src(),
            r is Ok && rbs@.len() > 1 ==> forall|i: int|
                0 <= i < final(db).spec_dst().len() ==> final(db).spec_dst()[i] == folded_mean(
                    rbs@,
                    rbs@.len() - 1,
                    i,
                ),
            r is Err ==> *final(db) == *old(db),
            r matches Err(e) ==> e matches Error::Dimensions(a, b) && a == old(db).spec_dims()
                && (exists|j: int|
                0 <= j < rbs@.len() && #[trigger] rbs@[j].spec_dims() == b && b != old(
                    db,
                ).spec_dims() && (forall|m: int| 0 <= m < j ==> rbs@[m].spec_dims() == old(
                    db,
                ).spec_dims())),
    {
        let dims = db.dims();
        let n = rbs.len();
        let mut j: usize = 0;
        while j < n
            invariant
                n == rbs@.len(),
                j <= n,
                dims == old(db).spec_dims(),
                *self == *old(self),
                *db == *old(db),
                old(self).wf(),
                forall|m: int| 0 <= m < j ==> rbs@[m].spec_dims() == dims,
            decreases n - j,
        {
            let d = rbs[j].dims();
            if d.0 != dims.0 || d.1 != dims.1 {
                proof {
                    assert(rbs@[j as int].spec_dims() == d);
                }
                return Err(Error::Dimensions(dims, d));
            }
            j += 1;
        }
        let mut n_passes: usize = 0;
        let mut j: usize = 0;
        while j < n
            invariant
                old(self).wf(),
                old(db).wf(),
                n == rbs@.len(),
                j <= n,
                dims == old(db).spec_dims(),
                forall|m: int| 0 <= m < n ==> rbs@[m].wf() && rbs@[m].spec_dims() == dims,
                total_passes(rbs@, n as int) <= MAX_PASSES,
                self.wf(),
                self.spec_context() == old(self).spec_context(),
                db.wf(),
                db.spec_context() == old(db).spec_context(),
                db.spec_dims() == old(db).spec_dims(),
                n_passes == total_passes(rbs@, j as int),
                0 <= n_passes <= MAX_PASSES,
                dims.0 <= i32::MAX,
                dims.1 <= i32::MAX,
                j == 0 ==> *db == *old(db),
                j > 0 ==> forall|i: int|
                    0 <= i < db.spec_src().len() ==> db.spec_src()[i] == folded_mean(
                        rbs@,
                        j as int,
                        i,
                    ),
                j == 1 ==> db.spec_dst() == old(db).spec_src(),
                j > 1 ==> forall|i: int|
                    0 <= i < db.spec_dst().len() ==> db.spec_dst()[i] == folded_mean(
                        rbs@,
                        j - 1,
                        i,
                    ),
            decreases n - j,
        {
            let rb = &rbs[j];
            let mut args = MeanArgs {
                dims: (#[verifier::truncate] (dims.0 as i32), #[verifier::truncate] (dims.1 as i32)),
                dst_passes: #[verifier::truncate] (n_passes as i32),
                src_passes: #[verifier::truncate] (rb.n_passes() as i32),
                dst_len: db.len(),
                src_len: rb.color().len(),
            };
            self.kernel.run(&mut args, dims)?;
            proof {
                assert(rbs@[j as int].spec_colors().len() == db.spec_src().len());
                total_passes_bounded(rbs@, j as int, n as int);
                assert forall|t: int|
                    0 <= t < db.spec_src().len() implies db.spec_src()[t] * n_passes + rbs@[
                    j as int].spec_colors()[t] <= u64::MAX by {
                    let c = rbs@[j as int].spec_colors()[t] as int;
                    let ns = rbs@[j as int].spec_passes() as int;
                    assert(c <= ns * SAMPLE_MAX);
                    if j == 0 {
                        assert(db.spec_src()[t] * n_passes == 0);
                        assert(ns * SAMPLE_MAX <= MAX_PASSES * SAMPLE_MAX) by (nonlinear_arith)
                            requires
                                0 <= ns <= MAX_PASSES,
                        ;
                    } else {
                        lemma_folded_mean_bounded(rbs@, j as int, t);
                        assert(db.spec_src()[t] <= SAMPLE_MAX);
                        lemma_mul_inequality(
                            db.spec_src()[t] as int,
                            SAMPLE_MAX as int,
                            n_passes as int,
                        );
                        assert(SAMPLE_MAX * (n_passes as int) + ns * SAMPLE_MAX <= MAX_PASSES
                            * SAMPLE_MAX) by (nonlinear_arith)
                            requires
                                0 <= n_passes as int,
                                0 <= ns,
                                n_passes as int + ns <= MAX_PASSES,
                        ;
                    }
                }
            }
            if rb.context().queue() != db.context().queue() {
                let src = rb.color();
                let len = src.len();
                let mut staged: Vec<u64> = Vec::new();
                let mut t: usize = 0;
                while t < len
                    invariant
                        len == src@.len(),
                        t <= len,
                        staged@.len() == t,
                        forall|m: int| 0 <= m < t ==> staged@[m] == src@[m],
                    decreases len - t,
                {
                    staged.push(src[t]);
                    t += 1;
                }
                proof {
                    assert(staged@ =~= rb.spec_colors());
                }
                self.host_buffer = staged;
                db.merge(&self.host_buffer, n_passes, rb.n_passes())?;
            } else {
                db.merge(rb.color(), n_passes, rb.n_passes())?;
            }
            db.swap();
            proof {
                assert forall|t: int|
                    0 <= t < db.spec_src().len() implies db.spec_src()[t] == folded_mean(
                    rbs@,
                    j as int + 1,
                    t,
                ) by {
                    assert(folded_mean(rbs@, j as int + 1, t) == weighted_step(
                        folded_mean(rbs@, j as int, t),
                        total_passes(rbs@, j as int),
                        rbs@[j as int].spec_colors()[t] as int,
                        rbs@[j as int].spec_passes() as int,
                    ));
                    if j == 0 {
                        // a zero-weight base cancels, whatever it held
                        assert(total_passes(rbs@, 0) == 0);
                        assert(old(db).spec_src()[t] as int * 0 == 0);
                        assert(folded_mean(rbs@, 0, t) * 0 == 0);
                    }
                }
            }
            n_passes = n_passes + rb.n_passes();
            j += 1;
        }
        Ok(n_passes)
    }
}

/// A prefix's pass total plus the next source's passes is the next
/// prefix's total, and no prefix exceeds the full total.
proof fn total_passes_bounded(rbs: Seq<RenderBuffer>, m: int, n: int)
    requires
        0 <= m < n,
        forall|j: int| 0 <= j < n ==> rbs[j].wf(),
    ensures
        total_passes(rbs, m) + rbs[m].spec_passes() == total_passes(rbs, m + 1),
        total_passes(rbs, m + 1) <= total_passes(rbs, n),
    decreases n,
{
    if m + 1 < n {
        total_passes_bounded(rbs, m, n - 1);
        assert(total_passes(rbs, n) == total_passes(rbs, n - 1) + rbs[n - 1].spec_passes());
    }
}

} // verus!
