use vstd::prelude::*;
use core::marker::PhantomData;
use vstd::string::StringExecFns;
use crate::buffer::image::Image;
use crate::buffer::render_buffer::RenderBuffer;
use crate::buffer::{lane_count, pixel_count, weighted_step, MAX_PASSES, SAMPLE_MAX};
use crate::context::Context;
use crate::error::Error;
use crate::filter::Filter;
use crate::process::accumulator::{
    folded_mean, lemma_folded_mean_bounded, lemma_total_passes_nonneg, total_passes, MeanArgs,
};
use crate::process::kernel::Kernel;
use crate::program::{
    chain_lookup, core_source, lemma_chain_lookup_push, lemma_mem_lookup_push, ListHook, MemHook,
    Program,
};
use crate::push::{kind_of, ArgKind, ArgValue, DeviceKernel, KernelBuilder, Push, PushDyn};
use crate::source::SourceCache;

verus! {

/// The upper-case twin of one character, for the ASCII letters; anything
/// else is kept.
pub open spec fn upper_char(c: char) -> char {
    if 'a' <= c <= 'z' {
        ((c as u8) - 32) as char
    } else {
        c
    }
}

/// Relies on `str::to_uppercase`: for ASCII text each lower-case letter
/// is replaced by its upper-case twin and every other character is kept,
/// as the documentation states for the ASCII range.
#[verifier::external_body]
fn to_upper(s: &str) -> (r: String)
    ensures
        vstd::string::is_ascii(s) ==> r@ == s@.map_values(|c: char| upper_char(c)),
{
    s.to_uppercase()
}

/// The generated fragment placed ahead of a filter's own source: an
/// args-definition macro and an args macro namespaced by the upper-cased
/// instance name, an apply-function macro namespaced by the lower-case
/// name, then the filter's source itself.
pub open spec fn filter_gen_source(name: Seq<char>, body: Seq<char>) -> Seq<char> {
    "#define __FILTER_ARGS_DEF "@ + name.map_values(|c: char| upper_char(c)) + "_ARGS_DEF\n"@
        + "#define __FILTER_ARGS "@ + name.map_values(|c: char| upper_char(c)) + "_ARGS\n"@
        + "#define __filter_apply "@ + name + "_apply\n"@ + body
}

/// Renders [`filter_gen_source`] for one filter name and source body.
fn gen_filter_header(name: &String, body: &String) -> (r: String)
    ensures
        vstd::string::string_is_ascii(name) ==> r@ == filter_gen_source(name@, body@),
{
    let upper = to_upper(name.as_str());
    let r = String::from_str("#define __FILTER_ARGS_DEF ").concat(upper.as_str()).concat(
        "_ARGS_DEF\n",
    ).concat("#define __FILTER_ARGS ").concat(upper.as_str()).concat("_ARGS\n").concat(
        "#define __filter_apply ",
    ).concat(name.as_str()).concat("_apply\n").concat(body.as_str());
    r
}

/// The fixed three-argument schema of the pack kernel: the screen size,
/// the byte image it writes, and the color buffer it quantizes.
pub struct PackArgs {
    /// Screen size, as the device sees it.
    pub dims: (i32, i32),
    /// Length of the byte image.
    pub image_len: usize,
    /// Length of the color buffer.
    pub color_len: usize,
}

impl Push for PackArgs {
    open spec fn spec_decls() -> Seq<ArgKind> {
        seq![ArgKind::Pair, ArgKind::ByteBuffer, ArgKind::RealBuffer]
    }

    open spec fn spec_args(&self) -> Seq<ArgValue> {
        seq![
            ArgValue::Pair(self.dims.0, self.dims.1),
            ArgValue::ByteBuffer(self.image_len),
            ArgValue::RealBuffer(self.color_len),
        ]
    }

    proof fn args_wf(&self) {
        assert forall|j: int|
            0 <= j < Self::spec_decls().len() implies kind_of(self.spec_args()[j])
            == Self::spec_decls()[j] by {
            if j == 0 {
                assert(self.spec_args()[0] == ArgValue::Pair(self.dims.0, self.dims.1));
            } else if j == 1 {
                assert(self.spec_args()[1] == ArgValue::ByteBuffer(self.image_len));
            } else {
                assert(self.spec_args()[2] == ArgValue::RealBuffer(self.color_len));
            }
        }
    }

    fn args_count() -> (n: usize) {
        3
    }

    fn args_def(kb: &mut KernelBuilder) {
        kb.arg(ArgKind::Pair);
        kb.arg(ArgKind::ByteBuffer);
        kb.arg(ArgKind::RealBuffer);
        proof {
            assert(kb@ =~= old(kb)@ + Self::spec_decls());
        }
    }

    fn args_set(&mut self, i: usize, k: &mut DeviceKernel) -> (r: Result<(), Error>) {
        let ghost d = old(k).spec_decls();
        let ghost a0 = old(k).spec_args();
        let vals = [
            ArgValue::Pair(self.dims.0, self.dims.1),
            ArgValue::ByteBuffer(self.image_len),
            ArgValue::RealBuffer(self.color_len),
        ];
        let mut j: usize = 0;
        while j < 3
            invariant
                j <= 3,
                i + 3 <= usize::MAX,
                vals@ == old(self).spec_args(),
                *self == *old(self),
                k.wf(),
                k.spec_decls() == d,
                k.spec_entry() == old(k).spec_entry(),
                k.spec_context() == old(k).spec_context(),
                k.spec_args().len() == a0.len(),
                d == old(k).spec_decls(),
                a0 == old(k).spec_args(),
                forall|m: int| 0 <= m < j ==> i + m < d.len() && d[i + m]
                    == Self::spec_decls()[m],
                forall|m: int|
                    0 <= m < k.spec_args().len() && !(i <= m < i + j) ==> k.spec_args()[m]
                        == a0[m],
                forall|m: int| 0 <= m < j ==> k.spec_args()[i + m] == Some(
                    old(self).spec_args()[m],
                ),
            decreases 3 - j,
        {
            match k.set_arg(i + j, vals[j]) {
                Ok(()) => {},
                Err(e) => {
                    proof {
                        self.args_wf();
                        if i + 3 <= d.len() && d.subrange(i as int, i + 3) == Self::spec_decls() {
                            assert(d[i + j] == d.subrange(i as int, i + 3)[j as int]);
                            assert(kind_of(vals@[j as int]) == Self::spec_decls()[j as int]);
                        }
                    }
                    return Err(e);
                },
            }
            j += 1;
        }
        proof {
            assert(d.subrange(i as int, i + 3) =~= Self::spec_decls());
            assert(k.spec_args() =~= crate::push::bound_range(
                a0,
                i as int,
                old(self).spec_args(),
            ));
        }
        Ok(())
    }
}

/// The per-pass mean one lane represents: its running sum divided by the
/// pass total.  With no pass represented the lane reads as black.
pub open spec fn sample_mean(sum: int, n: int) -> int {
    if n <= 0 {
        0
    } else {
        sum / n
    }
}

/// The byte written for one color lane: the lane's value saturated at
/// full intensity.  The division into the per-pass mean has already
/// happened at the mean step.
pub open spec fn quantize(v: u64) -> u8 {
    if v > 255 {
        255
    } else {
        v as u8
    }
}

/// What the mean stage leaves in the working buffer before the filter
/// runs: the pass-weighted running mean folded over the screens, or the
/// previous content where there is nothing to merge.
pub open spec fn collected_mean(screens: Seq<RenderBuffer>, prev: Seq<u64>, i: int) -> int {
    if screens.len() == 0 {
        prev[i] as int
    } else {
        folded_mean(screens, screens.len() as int, i)
    }
}

/// Gathers the hooks that resolve a postprocessing program's source: the
/// built-in tree first, then whatever the caller adds, then the fragment
/// generated for the filter.
pub struct PostprocCollector<F: Filter> {
    list_hook: ListHook,
    filter_kind: PhantomData<F>,
}

/// A postprocessing program resolved and ready to build against contexts.
pub struct PostprocBuilder<F: Filter> {
    program: Program,
    filter_kind: PhantomData<F>,
}

/// The postprocessing pipeline over one context: a mean step that
/// combines raw running sums the same way the accumulator does, folding
/// them into the represented per-pass mean, one pluggable filter step
/// over that mean, and a pack step that saturates the filtered lanes
/// into the byte image.  Two full-precision scratch buffers ping-pong
/// between the stages so no stage reads what it is writing.
pub struct Postproc<F: Filter> {
    context: Context,
    k_mean: Kernel<MeanArgs>,
    k_filt: DeviceKernel,
    k_pack: Kernel<PackArgs>,
    host_buffer: Vec<u64>,
    buffers: (Vec<u64>, Vec<u64>),
    image: Image,
    dims: (usize, usize),
    passes: usize,
    /// The filter applied between the mean and the pack step.
    pub filter: F,
}

impl<F: Filter> PostprocCollector<F> {
    /// The hook chain collected so far, as contracts see it.
    pub closed spec fn spec_chain(&self) -> Seq<Seq<(Seq<char>, Seq<char>)>> {
        self.list_hook@
    }

    /// The chain always serves the filter pipeline's entry fragment.
    pub open spec fn wf(&self) -> bool {
        chain_lookup(self.spec_chain(), "clay_core/filter.c"@) is Some
    }

    /// Adds one caller hook; the built-in tree keeps priority.
    pub fn add_hook(&mut self, hook: MemHook)
        requires
            old(self).wf(),
        ensures
            final(self).wf(),
            final(self).spec_chain() == old(self).spec_chain().push(hook@),
    {
        proof {
            lemma_chain_lookup_push(self.spec_chain(), hook@, "clay_core/filter.c"@);
        }
        self.list_hook.add_hook(hook);
    }

    /// Seals the chain: generates the filter's macro fragment under
    /// `__gen/filter.h`, resolves the pipeline's entry fragment, and
    /// hands back the builder.  The built-in tree serves the entry
    /// fragment, so collection succeeds.
    pub fn collect(self) -> (r: Result<PostprocBuilder<F>, Error>)
        requires
            self.wf(),
        ensures
            r is Ok,
            r matches Ok(b) ==> b.spec_program().spec_root() == "clay_core/filter.c"@
                && chain_lookup(b.spec_program().spec_chain(), "__gen/filter.h"@) is Some,
            r matches Ok(b) ==> b.spec_program().spec_chain().len() == self.spec_chain().len() + 1
                && b.spec_program().spec_chain().subrange(0, self.spec_chain().len() as int)
                == self.spec_chain() && b.spec_program().spec_chain().last().len() == 1
                && b.spec_program().spec_chain().last()[0].0 == "__gen/filter.h"@,
            r matches Ok(b) ==> (vstd::utf8::is_ascii_chars(F::spec_name()) ==> b.spec_program(
            ).spec_chain().last()[0].1 == filter_gen_source(
                F::spec_name(),
                F::spec_source(Set::empty()),
            )),
    {
        let name = F::name();
        let mut cache = SourceCache::new();
        let body = F::source(&mut cache);
        let header = gen_filter_header(&name, &body);
        let mut gen = MemHook::new();
        let ghost g0 = gen@;
        let _add = gen.add_file("__gen/filter.h", header.as_str());
        let PostprocCollector { list_hook: mut hooks, filter_kind: _ } = self;
        let ghost chain0 = hooks@;
        let ghost gv = gen@;
        proof {
            lemma_mem_lookup_push(g0, "__gen/filter.h"@, header@, "__gen/filter.h"@);
            lemma_chain_lookup_push(chain0, gen@, "clay_core/filter.c"@);
            lemma_chain_lookup_push(chain0, gen@, "__gen/filter.h"@);
        }
        hooks.add_hook(gen);
        proof {
            assert(hooks@.len() == chain0.len() + 1);
            assert(hooks@.subrange(0, chain0.len() as int) =~= chain0);
            assert(hooks@.last() == gv);
            assert(gv.len() == 1);
            assert(gv[0].0 == "__gen/filter.h"@);
            assert(gv[0].1 == header@);
        }
        let program = Program::new(hooks, "clay_core/filter.c")?;
        proof {
            if vstd::utf8::is_ascii_chars(F::spec_name()) {
                assert(header@ == filter_gen_source(F::spec_name(), body@));
            }
        }
        Ok(PostprocBuilder { program, filter_kind: PhantomData })
    }
}

impl<F: Filter> PostprocBuilder<F> {
    /// The resolved program, as contracts see it.
    pub closed spec fn spec_program(&self) -> Program {
        self.program
    }

    /// The resolved postprocessing program.
    pub fn program(&self) -> (p: &Program)
        ensures
            *p == self.spec_program(),
    {
        &self.program
    }

    /// Builds the pipeline against one context.
    pub fn build(self, context: &Context, dims: (usize, usize), filter: F) -> (r: Result<
        (Postproc<F>, String),
        Error,
    >)
        requires
            pixel_count(dims) <= usize::MAX / 3,
            dims.0 <= i32::MAX,
            dims.1 <= i32::MAX,
        ensures
            r is Ok,
            r matches Ok((p, log)) ==> p.wf() && p.spec_context() == *context && p.spec_dims()
                == dims && p.spec_passes() == 0 && p.spec_filter() == filter,
    {
        Postproc::<F>::new(context, dims, filter, self.program)
    }
}

impl<F: Filter> Postproc<F> {
    /// The owning context, as contracts see it.
    pub closed spec fn spec_context(&self) -> Context {
        self.context
    }

    /// The filter, as contracts see it.
    pub closed spec fn spec_filter(&self) -> F {
        self.filter
    }

    /// The screen size, as contracts see it.
    pub closed spec fn spec_dims(&self) -> (usize, usize) {
        self.dims
    }

    /// The working color buffer, as contracts see it.
    pub closed spec fn spec_buf0(&self) -> Seq<u64> {
        self.buffers.0@
    }

    /// The scratch color buffer, as contracts see it.
    pub closed spec fn spec_buf1(&self) -> Seq<u64> {
        self.buffers.1@
    }

    /// The byte image, as contracts see it.
    pub closed spec fn spec_image(&self) -> Image {
        self.image
    }

    /// Passes represented in the working buffer, as contracts see them.
    pub closed spec fn spec_passes(&self) -> usize {
        self.passes
    }

    /// The mean kernel, as contracts see it.
    pub closed spec fn spec_k_mean(&self) -> Kernel<MeanArgs> {
        self.k_mean
    }

    /// The filter kernel, as contracts see it.
    pub closed spec fn spec_k_filt(&self) -> DeviceKernel {
        self.k_filt
    }

    /// The pack kernel, as contracts see it.
    pub closed spec fn spec_k_pack(&self) -> Kernel<PackArgs> {
        self.k_pack
    }

    /// Buffers sized to the screen, kernels declared as built, and the
    /// filter kernel's slots: the fixed prefix, then the filter's own.
    pub open spec fn wf(&self) -> bool {
        &&& self.spec_buf0().len() == lane_count(self.spec_dims())
        &&& self.spec_buf1().len() == lane_count(self.spec_dims())
        &&& self.spec_image().wf()
        &&& self.spec_image().spec_dims() == self.spec_dims()
        &&& self.spec_image().spec_context() == self.spec_context()
        &&& self.spec_k_mean().wf()
        &&& self.spec_k_mean().spec_kernel().spec_entry() == "mean"@
        &&& self.spec_k_pack().wf()
        &&& self.spec_k_pack().spec_kernel().spec_entry() == "pack"@
        &&& self.spec_k_filt().wf()
        &&& self.spec_k_filt().spec_entry() == "filter"@
        &&& self.spec_k_filt().spec_decls() == seq![
            ArgKind::Pair,
            ArgKind::RealBuffer,
            ArgKind::RealBuffer,
        ] + self.spec_filter().dyn_decls()
        &&& self.spec_passes() <= MAX_PASSES
        &&& self.spec_dims().0 <= i32::MAX
        &&& self.spec_dims().1 <= i32::MAX
    }

    /// Starts collecting hooks for a postprocessing program, the built-in
    /// source tree already in place.
    pub fn builder() -> (c: PostprocCollector<F>)
        ensures
            c.wf(),
            c.spec_chain().len() == 1,
    {
        let core = core_source();
        let mut hooks = ListHook::new();
        proof {
            lemma_chain_lookup_push(hooks@, core@, "clay_core/filter.c"@);
        }
        hooks.add_hook(core);
        PostprocCollector { list_hook: hooks, filter_kind: PhantomData }
    }

    /// Compiles the three stage kernels against the context and allocates
    /// the scratch buffers and the image, everything reading as zero.
    /// The returned log is the filter program's build log.
    pub fn new(context: &Context, dims: (usize, usize), filter: F, program: Program) -> (r: Result<
        (Postproc<F>, String),
        Error,
    >)
        requires
            pixel_count(dims) <= usize::MAX / 3,
            dims.0 <= i32::MAX,
            dims.1 <= i32::MAX,
        ensures
            r is Ok,
            r matches Ok((p, log)) ==> p.wf() && p.spec_context() == *context && p.spec_dims()
                == dims && p.spec_passes() == 0 && p.spec_filter() == filter && crate::buffer::all_zero(
                p.spec_buf0(),
            ) && crate::buffer::all_zero(p.spec_buf1()) && crate::buffer::all_zero_bytes(
                p.spec_image().spec_bytes(),
            ),
    {
        let (_built, log) = program.build(context)?;
        let mut kb = KernelBuilder::new();
        kb.arg(ArgKind::Pair);
        kb.arg(ArgKind::RealBuffer);
        kb.arg(ArgKind::RealBuffer);
        filter.args_def(&mut kb);
        let k_filt = DeviceKernel::assemble(context, "filter", kb);
        proof {
            assert(k_filt.spec_decls() =~= seq![
                ArgKind::Pair,
                ArgKind::RealBuffer,
                ArgKind::RealBuffer,
            ] + filter.dyn_decls());
        }
        let (k_mean, _mean_log) = Self::build_mean(context)?;
        let (k_pack, _pack_log) = Self::build_pack(context)?;
        let len = dims.0 * dims.1;
        let len = 3 * len;
        let mut b0: Vec<u64> = Vec::new();
        let mut b1: Vec<u64> = Vec::new();
        let mut i: usize = 0;
        while i < len
            invariant
                i <= len,
                b0@.len() == i,
                b1@.len() == i,
                forall|j: int| 0 <= j < i ==> b0@[j] == 0 && b1@[j] == 0,
            decreases len - i,
        {
            b0.push(0);
            b1.push(0);
            i += 1;
        }
        let image = Image::new(context, dims)?;
        Ok(
            (
                Postproc {
                    context: *context,
                    k_mean,
                    k_filt,
                    k_pack,
                    host_buffer: Vec::new(),
                    buffers: (b0, b1),
                    image,
                    dims,
                    passes: 0,
                    filter,
                },
                log,
            ),
        )
    }

    /// Compiles the mean kernel over the built-in source tree; its log
    /// comes along, produced by the device compiler whatever the verdict.
    fn build_mean(context: &Context) -> (r: Result<(Kernel<MeanArgs>, String), Error>)
        ensures
            r is Ok,
            r matches Ok((k, log)) ==> k.wf() && k.spec_kernel().spec_context() == *context
                && k.spec_kernel().spec_entry() == "mean"@,
    {
        let mut hooks = ListHook::new();
        hooks.add_hook(core_source());
        let program = Program::new(hooks, "clay_core/mean.c")?;
        Kernel::<MeanArgs>::new(context, &program, "mean")
    }

    /// Compiles the pack kernel over the built-in source tree; its log
    /// comes along, produced by the device compiler whatever the verdict.
    fn build_pack(context: &Context) -> (r: Result<(Kernel<PackArgs>, String), Error>)
        ensures
            r is Ok,
            r matches Ok((k, log)) ==> k.wf() && k.spec_kernel().spec_context() == *context
                && k.spec_kernel().spec_entry() == "pack"@,
    {
        let mut hooks = ListHook::new();
        hooks.add_hook(core_source());
        let program = Program::new(hooks, "clay_core/pack.c")?;
        Kernel::<PackArgs>::new(context, &program, "pack")
    }

    /// Recreates every buffer and the image at the new size and discards
    /// all accumulated content unconditionally: everything reads as zero
    /// until the next processing call.  Callers must restart accumulation.
    pub fn resize(&mut self, dims: (usize, usize)) -> (r: Result<(), Error>)
        requires
            old(self).wf(),
            pixel_count(dims) <= usize::MAX / 3,
            dims.0 <= i32::MAX,
            dims.1 <= i32::MAX,
        ensures
            r is Ok,
            final(self).wf(),
            final(self).spec_dims() == dims,
            final(self).spec_passes() == 0,
            crate::buffer::all_zero(final(self).spec_buf0()),
            crate::buffer::all_zero(final(self).spec_buf1()),
            crate::buffer::all_zero_bytes(final(self).spec_image().spec_bytes()),
            final(self).spec_context() == old(self).spec_context(),
            final(self).spec_filter() == old(self).spec_filter(),
    {
        let len = dims.0 * dims.1;
        let len = 3 * len;
        let mut b0: Vec<u64> = Vec::new();
        let mut b1: Vec<u64> = Vec::new();
        let mut i: usize = 0;
        while i < len
            invariant
                i <= len,
                b0@.len() == i,
                b1@.len() == i,
                forall|j: int| 0 <= j < i ==> b0@[j] == 0 && b1@[j] == 0,
            decreases len - i,
        {
            b0.push(0);
            b1.push(0);
            i += 1;
        }
        self.buffers = (b0, b1);
        self.image = Image::new(&self.context, dims)?;
        self.host_buffer = Vec::new();
        self.dims = dims;
        self.passes = 0;
        Ok(())
    }

    /// One mean-step merge: binds the mean kernel's schema and takes the
    /// screen's raw running sums into the working buffer, which holds the
    /// mean over the `n_prior` passes already collected there and ends
    /// holding the weighted mean over all of them.  A screen of another
    /// context is round-tripped through the host staging buffer into the
    /// scratch buffer first; a screen of this context is read directly.
    fn apply_collect(&mut self, n_prior: usize, screen: &RenderBuffer) -> (r: Result<(), Error>)
        requires
            old(self).wf(),
            screen.wf(),
            screen.spec_dims() == old(self).spec_dims(),
            n_prior + screen.spec_passes() <= MAX_PASSES,
            forall|i: int|
                0 <= i < old(self).spec_buf0().len() ==> old(self).spec_buf0()[i] * n_prior
                    + screen.spec_colors()[i] <= u64::MAX,
        ensures
            r is Ok,
            final(self).wf(),
            final(self).spec_dims() == old(self).spec_dims(),
            final(self).spec_context() == old(self).spec_context(),
            final(self).spec_passes() == old(self).spec_passes(),
            final(self).spec_filter() == old(self).spec_filter(),
            final(self).spec_image() == old(self).spec_image(),
            final(self).spec_buf0().len() == old(self).spec_buf0().len(),
            forall|i: int|
                0 <= i < final(self).spec_buf0().len() ==> final(self).spec_buf0()[i]
                    == weighted_step(
                    old(self).spec_buf0()[i] as int,
                    n_prior as int,
                    screen.spec_colors()[i] as int,
                    screen.spec_passes() as int,
                ),
            final(self).spec_buf1().len() == old(self).spec_buf1().len(),
            screen.spec_context().queue_id != old(self).spec_context().queue_id ==> final(self).spec_buf1() == screen.spec_colors(),
            screen.spec_context().queue_id == old(self).spec_context().queue_id ==> final(self).spec_buf1() == old(self).spec_buf1(),
    {
        let dims = self.dims;
        let mut args = MeanArgs {
            dims: (#[verifier::truncate] (dims.0 as i32), #[verifier::truncate] (dims.1 as i32)),
            dst_passes: #[verifier::truncate] (n_prior as i32),
            src_passes: #[verifier::truncate] (screen.n_passes() as i32),
            dst_len: self.buffers.0.len(),
            src_len: screen.color().len(),
        };
        self.k_mean.run(&mut args, dims)?;
        let cross = screen.context().queue() != self.context.queue();
        if cross {
            let src = screen.color();
            let len = src.len();
            let mut staged: Vec<u64> = Vec::new();
            let mut t: usize = 0;
            while t < len
                invariant
                    len == src@.len(),
                    t <= len,
                    staged@.len() == t,
                    forall|m: int| 0 <= m < t ==> staged@[m] == src@[m],
                decreases len - t,
            {
                staged.push(src[t]);
                t += 1;
            }
            self.host_buffer = staged;
            let len = self.buffers.1.len();
            proof {
                assert(screen.spec_colors().len() == self.spec_buf1().len());
            }
            let mut t: usize = 0;
            while t < len
                invariant
                    len == self.buffers.1@.len(),
                    self.host_buffer@ == screen.spec_colors(),
                    screen.spec_colors().len() == len,
                    t <= len,
                    forall|m: int| 0 <= m < t ==> self.buffers.1@[m] == screen.spec_colors()[m],
                    self.buffers.0@ == old(self).spec_buf0(),
                    self.context == old(self).spec_context(),
                    self.dims == old(self).spec_dims(),
                    self.passes == old(self).spec_passes(),
                    self.filter == old(self).filter,
                    self.image == old(self).spec_image(),
                    self.k_filt.wf(),
                    self.k_filt.spec_decls() == old(self).spec_k_filt().spec_decls(),
                    self.k_filt.spec_entry() == old(self).spec_k_filt().spec_entry(),
                    self.k_mean.wf(),
                    self.k_mean.spec_kernel().spec_entry() == old(
                        self,
                    ).spec_k_mean().spec_kernel().spec_entry(),
                    self.k_pack == old(self).spec_k_pack(),
                decreases len - t,
            {
                let v = self.host_buffer[t];
                self.buffers.1.set(t, v);
                t += 1;
            }
            proof {
                assert(self.buffers.1@ =~= screen.spec_colors());
            }
        }
        let len = self.buffers.0.len();
        proof {
            assert(screen.spec_colors().len() == self.spec_buf0().len());
        }
        let total = n_prior + screen.n_passes();
        let mut i: usize = 0;
        while i < len
            invariant
                len == self.buffers.0@.len(),
                screen.spec_colors().len() == len,
                i <= len,
                total == n_prior + screen.spec_passes(),
                forall|m: int|
                    0 <= m < len ==> old(self).spec_buf0()[m] * n_prior + screen.spec_colors()[m]
                        <= u64::MAX,
                cross ==> self.buffers.1@.len() == len && (forall|m: int|
                    0 <= m < len ==> self.buffers.1@[m] == screen.spec_colors()[m]),
                !cross ==> self.buffers.1@ == old(self).spec_buf1(),
                self.buffers.1@.len() == old(self).spec_buf1().len(),
                forall|m: int| 0 <= m < i ==> self.buffers.0@[m] == weighted_step(
                    old(self).spec_buf0()[m] as int,
                    n_prior as int,
                    screen.spec_colors()[m] as int,
                    screen.spec_passes() as int,
                ),
                forall|m: int| i <= m < len ==> self.buffers.0@[m] == old(self).spec_buf0()[m],
                self.context == old(self).spec_context(),
                self.dims == old(self).spec_dims(),
                self.passes == old(self).spec_passes(),
                self.filter == old(self).filter,
                self.image == old(self).spec_image(),
                self.k_filt.wf(),
                self.k_filt.spec_decls() == old(self).spec_k_filt().spec_decls(),
                self.k_filt.spec_entry() == old(self).spec_k_filt().spec_entry(),
                self.k_mean.wf(),
                self.k_mean.spec_kernel().spec_entry() == old(
                    self,
                ).spec_k_mean().spec_kernel().spec_entry(),
                self.k_pack == old(self).spec_k_pack(),
            decreases len - i,
        {
            let inc = if cross {
                self.buffers.1[i]
            } else {
                screen.color()[i]
            };
            proof {
                assert(inc == screen.spec_colors()[i as int]);
                assert(self.buffers.0@[i as int] == old(self).spec_buf0()[i as int]);
                assert(old(self).spec_buf0()[i as int] * n_prior + screen.spec_colors()[i as int]
                    <= u64::MAX);
            }
            let v = if total == 0 {
                0
            } else {
                (self.buffers.0[i] * (n_prior as u64) + inc) / (total as u64)
            };
            self.buffers.0.set(i, v);
            i += 1;
        }
        Ok(())
    }

    /// The filter step: applies the filter's transform to every lane of
    /// the working buffer, writing the scratch buffer, then swaps the two
    /// so the filtered lanes become the working content.  The filter's
    /// own kernel arguments are bound after the fixed prefix.
    fn apply_filter(&mut self) -> (r: Result<(), Error>)
        requires
            old(self).wf(),
        ensures
            r is Ok,
            final(self).wf(),
            final(self).spec_dims() == old(self).spec_dims(),
            final(self).spec_context() == old(self).spec_context(),
            final(self).spec_passes() == old(self).spec_passes(),
            final(self).spec_filter() == old(self).spec_filter(),
            final(self).spec_image() == old(self).spec_image(),
            final(self).spec_buf0().len() == old(self).spec_buf0().len(),
            forall|i: int|
                0 <= i < final(self).spec_buf0().len() ==> final(self).spec_buf0()[i] == old(
                    self,
                ).spec_filter().apply_spec(old(self).spec_buf0()[i]),
            final(self).spec_buf1() == old(self).spec_buf0(),
    {
        let dims = self.dims;
        let nslots = self.k_filt.slots();
        proof {
            assert(self.k_filt.spec_decls()[0] == ArgKind::Pair);
            assert(self.k_filt.spec_decls()[1] == ArgKind::RealBuffer);
            assert(self.k_filt.spec_decls()[2] == ArgKind::RealBuffer);
        }
        let len0 = self.buffers.0.len();
        let len1 = self.buffers.1.len();
        let r0 = self.k_filt.set_arg(
            0,
            ArgValue::Pair(
                #[verifier::truncate] (dims.0 as i32),
                #[verifier::truncate] (dims.1 as i32),
            ),
        );
        let r1 = self.k_filt.set_arg(1, ArgValue::RealBuffer(len1));
        let r2 = self.k_filt.set_arg(2, ArgValue::RealBuffer(len0));
        proof {
            assert(r0 is Ok && r1 is Ok && r2 is Ok);
            self.filter.dyn_args_wf();
            assert(self.k_filt.spec_decls().subrange(3, 3 + self.filter.dyn_decls().len() as int)
                =~= self.filter.dyn_decls());
        }
        let fr = self.filter.args_set(3, &mut self.k_filt);
        proof {
            assert(fr is Ok);
        }
        let len = self.buffers.0.len();
        let mut i: usize = 0;
        while i < len
            invariant
                len == self.buffers.0@.len(),
                self.buffers.0@ == old(self).spec_buf0(),
                self.buffers.1@.len() == len,
                i <= len,
                forall|m: int| 0 <= m < i ==> self.buffers.1@[m] == self.filter.apply_spec(
                    old(self).spec_buf0()[m],
                ),
                self.context == old(self).spec_context(),
                self.dims == old(self).spec_dims(),
                self.passes == old(self).spec_passes(),
                self.filter == old(self).filter,
                self.image == old(self).spec_image(),
                self.k_filt.wf(),
                self.k_filt.spec_decls() == old(self).spec_k_filt().spec_decls(),
                self.k_filt.spec_entry() == old(self).spec_k_filt().spec_entry(),
                self.k_mean.wf(),
                self.k_mean.spec_kernel().spec_entry() == old(
                    self,
                ).spec_k_mean().spec_kernel().spec_entry(),
                self.k_pack == old(self).spec_k_pack(),
                lane_count(self.dims) == len,
            decreases len - i,
        {
            let v = self.filter.apply(self.buffers.0[i]);
            self.buffers.1.set(i, v);
            i += 1;
        }
        core::mem::swap(&mut self.buffers.0, &mut self.buffers.1);
        Ok(())
    }

    /// Merges the screens' raw running sums into the working buffer,
    /// weighted by each screen's pass count, then runs the filter step.
    /// Succeeds exactly when every screen's size is the pipeline's; a
    /// mismatch is reported with both sizes before anything is merged.
    pub fn process(&mut self, screens: &Vec<RenderBuffer>) -> (r: Result<(), Error>)
        requires
            old(self).wf(),
            forall|j: int| 0 <= j < screens@.len() ==> screens@[j].wf(),
            total_passes(screens@, screens@.len() as int) <= MAX_PASSES,
        ensures
            final(self).wf(),
            final(self).spec_dims() == old(self).spec_dims(),
            final(self).spec_context() == old(self).spec_context(),
            final(self).spec_filter() == old(self).spec_filter(),
            r is Ok <==> forall|j: int|
                0 <= j < screens@.len() ==> screens@[j].spec_dims() == old(self).spec_dims(),
            r is Err ==> *final(self) == *old(self),
            r matches Err(e) ==> e matches Error::Dimensions(a, b) && a == old(self).spec_dims()
                && (exists|j: int|
                0 <= j < screens@.len() && #[trigger] screens@[j].spec_dims() == b && b != old(
                    self,
                ).spec_dims() && (forall|m: int| 0 <= m < j ==> screens@[m].spec_dims() == old(
                    self,
                ).spec_dims())),
            r is Ok ==> final(self).spec_passes() == total_passes(
                screens@,
                screens@.len() as int,
            ),
            r is Ok ==> final(self).spec_image() == old(self).spec_image(),
            r is Ok ==> final(self).spec_buf0().len() == old(self).spec_buf0().len() && (forall|i: int|
                0 <= i < final(self).spec_buf0().len() ==> final(self).spec_buf1()[i]
                    == collected_mean(screens@, old(self).spec_buf0(), i) && final(self).spec_buf0()[i] == old(self).spec_filter().apply_spec(
                    final(self).spec_buf1()[i],
                )),
    {
        let dims = self.dims;
        let n = screens.len();
        let mut j: usize = 0;
        while j < n
            invariant
                n == screens@.len(),
                j <= n,
                dims == old(self).spec_dims(),
                *self == *old(self),
                old(self).wf(),
                forall|m: int| 0 <= m < j ==> screens@[m].spec_dims() == dims,
            decreases n - j,
        {
            let d = screens[j].dims();
            if d.0 != dims.0 || d.1 != dims.1 {
                proof {
                    assert(screens@[j as int].spec_dims() == d);
                }
                return Err(Error::Dimensions(dims, d));
            }
            j += 1;
        }
        let mut n_passes: usize = 0;
        let mut j: usize = 0;
        while j < n
            invariant
                old(self).wf(),
                n == screens@.len(),
                j <= n,
                dims == old(self).spec_dims(),
                forall|m: int| 0 <= m < n ==> screens@[m].wf() && screens@[m].spec_dims() == dims,
                total_passes(screens@, n as int) <= MAX_PASSES,
                self.wf(),
                self.spec_dims() == old(self).spec_dims(),
                self.spec_context() == old(self).spec_context(),
                self.spec_passes() == old(self).spec_passes(),
                self.filter == old(self).filter,
                self.spec_image() == old(self).spec_image(),
                self.spec_buf0().len() == old(self).spec_buf0().len(),
                n_passes == total_passes(screens@, j as int),
                0 <= n_passes <= MAX_PASSES,
                j == 0 ==> self.spec_buf0() == old(self).spec_buf0(),
                j > 0 ==> forall|i: int|
                    0 <= i < self.spec_buf0().len() ==> self.spec_buf0()[i] == folded_mean(
                        screens@,
                        j as int,
                        i,
                    ),
            decreases n - j,
        {
            let screen = &screens[j];
            proof {
                total_passes_prefix(screens@, j as int, n as int);
                assert(screens@[j as int].spec_colors().len() == self.spec_buf0().len());
                assert forall|t: int|
                    0 <= t < self.spec_buf0().len() implies self.spec_buf0()[t] * n_passes
                    + screens@[j as int].spec_colors()[t] <= u64::MAX by {
                    let c = screens@[j as int].spec_colors()[t] as int;
                    let ns = screens@[j as int].spec_passes() as int;
                    assert(c <= ns * SAMPLE_MAX);
                    if j == 0 {
                        assert(self.spec_buf0()[t] * n_passes == 0);
                        assert(ns * SAMPLE_MAX <= MAX_PASSES * SAMPLE_MAX) by (nonlinear_arith)
                            requires
                                0 <= ns <= MAX_PASSES,
                        ;
                    } else {
                        lemma_folded_mean_bounded(screens@, j as int, t);
                        assert(self.spec_buf0()[t] <= SAMPLE_MAX);
                        vstd::arithmetic::mul::lemma_mul_inequality(
                            self.spec_buf0()[t] as int,
                            SAMPLE_MAX as int,
                            n_passes as int,
                        );
                        assert(SAMPLE_MAX * (n_passes as int) + ns * SAMPLE_MAX <= MAX_PASSES
                            * SAMPLE_MAX) by (nonlinear_arith)
                            requires
                                0 <= n_passes as int,
                                0 <= ns,
                                n_passes as int + ns <= MAX_PASSES,
                        ;
                    }
                }
            }
            self.apply_collect(n_passes, screen)?;
            proof {
                assert forall|t: int|
                    0 <= t < self.spec_buf0().len() implies self.spec_buf0()[t] == folded_mean(
                    screens@,
                    j as int + 1,
                    t,
                ) by {
                    assert(folded_mean(screens@, j as int + 1, t) == weighted_step(
                        folded_mean(screens@, j as int, t),
                        total_passes(screens@, j as int),
                        screens@[j as int].spec_colors()[t] as int,
                        screens@[j as int].spec_passes() as int,
                    ));
                    if j == 0 {
                        // a zero-weight base cancels, whatever it held
                        assert(total_passes(screens@, 0) == 0);
                        assert(old(self).spec_buf0()[t] as int * 0 == 0);
                        assert(folded_mean(screens@, 0, t) * 0 == 0);
                    }
                }
            }
            n_passes = n_passes + screen.n_passes();
            j += 1;
        }
        self.passes = n_passes;
        self.apply_filter()?;
        Ok(())
    }

    /// Processes exactly one screen: one weighted mean step, then the
    /// filter step.
    pub fn process_one(&mut self, screen: &RenderBuffer) -> (r: Result<(), Error>)
        requires
            old(self).wf(),
            screen.wf(),
        ensures
            final(self).wf(),
            final(self).spec_dims() == old(self).spec_dims(),
            final(self).spec_context() == old(self).spec_context(),
            final(self).spec_filter() == old(self).spec_filter(),
            r is Ok <==> screen.spec_dims() == old(self).spec_dims(),
            r is Err ==> *final(self) == *old(self),
            r matches Err(e) ==> e matches Error::Dimensions(a, b) && a == old(self).spec_dims()
                && b == screen.spec_dims(),
            r is Ok ==> final(self).spec_passes() == screen.spec_passes() && final(self).spec_image() == old(self).spec_image() && (forall|i: int|
                0 <= i < final(self).spec_buf0().len() ==> final(self).spec_buf1()[i]
                    == sample_mean(
                    screen.spec_colors()[i] as int,
                    screen.spec_passes() as int,
                ) && final(self).spec_buf0()[i] == old(self).spec_filter().apply_spec(
                    final(self).spec_buf1()[i],
                )),
    {
        let dims = self.dims;
        let d = screen.dims();
        if d.0 != dims.0 || d.1 != dims.1 {
            return Err(Error::Dimensions(dims, d));
        }
        self.apply_collect(0, screen)?;
        self.passes = screen.n_passes();
        self.apply_filter()?;
        Ok(())
    }

    /// The pack step: quantizes the working buffer into the byte image,
    /// each lane saturated at full intensity, then swaps the scratch
    /// buffers for the next round.  After processing the working buffer
    /// holds filtered per-pass means, so no further division happens
    /// here.
    pub fn make_image(&mut self) -> (r: Result<(), Error>)
        requires
            old(self).wf(),
        ensures
            r is Ok,
            final(self).wf(),
            final(self).spec_dims() == old(self).spec_dims(),
            final(self).spec_context() == old(self).spec_context(),
            final(self).spec_passes() == old(self).spec_passes(),
            final(self).spec_filter() == old(self).spec_filter(),
            final(self).spec_image().spec_bytes().len() == old(
                self,
            ).spec_image().spec_bytes().len(),
            forall|i: int|
                0 <= i < final(self).spec_image().spec_bytes().len() ==> final(self).spec_image().spec_bytes()[i] == quantize(
                    old(self).spec_buf0()[i],
                ),
            final(self).spec_buf0() == old(self).spec_buf1(),
            final(self).spec_buf1() == old(self).spec_buf0(),
    {
        let dims = self.dims;
        let mut args = PackArgs {
            dims: (#[verifier::truncate] (dims.0 as i32), #[verifier::truncate] (dims.1 as i32)),
            image_len: self.image.bytes().len(),
            color_len: self.buffers.0.len(),
        };
        self.k_pack.run(&mut args, dims)?;
        let len = self.buffers.0.len();
        let mut bytes: Vec<u8> = Vec::new();
        let mut i: usize = 0;
        while i < len
            invariant
                len == self.buffers.0@.len(),
                i <= len,
                bytes@.len() == i,
                forall|m: int| 0 <= m < i ==> bytes@[m] == quantize(self.buffers.0@[m]),
            decreases len - i,
        {
            let v = self.buffers.0[i];
            let b: u8 = if v > 255 {
                255
            } else {
                v as u8
            };
            bytes.push(b);
            i += 1;
        }
        self.image.write_all(bytes);
        core::mem::swap(&mut self.buffers.0, &mut self.buffers.1);
        Ok(())
    }

    /// The working color buffer: after processing, the filtered lanes.
    pub fn buffer(&self) -> (b: &Vec<u64>)
        ensures
            b@ == self.spec_buf0(),
    {
        &self.buffers.0
    }

    /// The packed byte image.
    pub fn image(&self) -> (m: &Image)
        ensures
            *m == self.spec_image(),
    {
        &self.image
    }

    /// The screen size.
    pub fn dims(&self) -> (d: (usize, usize))
        ensures
            d == self.spec_dims(),
    {
        self.dims
    }
}

/// A prefix's pass total plus the next screen's passes is the next
/// prefix's total, and no prefix exceeds the full total.
proof fn total_passes_prefix(rbs: Seq<RenderBuffer>, m: int, n: int)
    requires
        0 <= m < n,
        forall|j: int| 0 <= j < n ==> rbs[j].wf(),
    ensures
        total_passes(rbs, m) + rbs[m].spec_passes() == total_passes(rbs, m + 1),
        total_passes(rbs, m + 1) <= total_passes(rbs, n),
        0 <= total_passes(rbs, m),
    decreases n,
{
    if m + 1 < n {
        total_passes_prefix(rbs, m, n - 1);
        assert(total_passes(rbs, n) == total_passes(rbs, n - 1) + rbs[n - 1].spec_passes());
    } else {
        lemma_total_passes_nonneg(rbs, m);
    }
}

} // verus!
