use vstd::prelude::*;
use vstd::view::View as VstdView;
use crate::buffer::render_buffer::RenderBuffer;
use crate::buffer::{pixel_count, MAX_PASSES};
use crate::context::Context;
use crate::error::Error;
use crate::process::kernel::Kernel;
use crate::program::{
    chain_lookup, lemma_chain_lookup_push, lemma_mem_lookup_push, mem_lookup, ListHook, MemHook,
    Program,
};
use crate::push::{
    bound_range, kind_of, lemma_decls_split, ArgKind, ArgValue,
    DeviceKernel, KernelBuilder, Push,
};
use crate::scene::Scene;
use crate::source::SourceCache;
use crate::store::Store;
use crate::timing::{clock_elapsed, clock_now, duration_millis};
use crate::view::View;

verus! {

/// Largest screen side: it must fit the device's 32-bit signed size.
pub const MAX_DIM: usize = 0x7fff_ffff;

/// What the first `n` passes' samples add to color lane `i`.
pub open spec fn pass_sum(samples: Seq<Vec<u32>>, n: int, i: int) -> int
    decreases n,
{
    if n <= 0 {
        0
    } else {
        pass_sum(samples, n - 1, i) + samples[n - 1]@[i]
    }
}

/// Defines the whole ray-tracing process: it owns the scene and the view,
/// holds the composed device program, and produces per-context workers.
pub struct Renderer<S: Scene, V: View> {
    program: Program,
    dims: (usize, usize),
    /// The scene being rendered.
    pub scene: S,
    /// The virtual camera.
    pub view: V,
}

/// Device data of the renderer, mirrored per context: the render target
/// and the scene's and view's own device data.
pub struct RenderData<S: Scene, V: View> {
    screen: RenderBuffer,
    scene_data: S::Data,
    view_data: V::Data,
}

impl<S: Scene, V: View> RenderData<S, V> {
    /// The render target, as contracts see it.
    pub closed spec fn spec_screen(&self) -> RenderBuffer {
        self.screen
    }

    /// The scene's device data, as contracts see it.
    pub closed spec fn spec_scene_data(&self) -> S::Data {
        self.scene_data
    }

    /// The view's device data, as contracts see it.
    pub closed spec fn spec_view_data(&self) -> V::Data {
        self.view_data
    }

    /// The render target.
    pub fn buffer(&self) -> (b: &RenderBuffer)
        ensures
            *b == self.spec_screen(),
    {
        &self.screen
    }

    /// The render target, exclusively.
    pub fn buffer_mut(&mut self) -> (b: &mut RenderBuffer)
        ensures
            *b == old(self).spec_screen(),
            final(self).spec_screen() == *final(b),
            final(self).spec_scene_data() == old(self).spec_scene_data(),
            final(self).spec_view_data() == old(self).spec_view_data(),
    {
        &mut self.screen
    }

    /// The scene's device data.
    pub fn scene(&self) -> (d: &S::Data)
        ensures
            *d == self.spec_scene_data(),
    {
        &self.scene_data
    }

    /// The scene's device data, exclusively.
    pub fn scene_mut(&mut self) -> (d: &mut S::Data)
        ensures
            *d == old(self).spec_scene_data(),
            final(self).spec_scene_data() == *final(d),
            final(self).spec_screen() == old(self).spec_screen(),
            final(self).spec_view_data() == old(self).spec_view_data(),
    {
        &mut self.scene_data
    }

    /// The view's device data.
    pub fn view(&self) -> (d: &V::Data)
        ensures
            *d == self.spec_view_data(),
    {
        &self.view_data
    }

    /// The view's device data, exclusively.
    pub fn view_mut(&mut self) -> (d: &mut V::Data)
        ensures
            *d == old(self).spec_view_data(),
            final(self).spec_view_data() == *final(d),
            final(self).spec_screen() == old(self).spec_screen(),
            final(self).spec_scene_data() == old(self).spec_scene_data(),
    {
        &mut self.view_data
    }
}

impl<S: Scene, V: View> Push for RenderData<S, V> {
    open spec fn spec_decls() -> Seq<ArgKind> {
        seq![ArgKind::Pair, ArgKind::RealBuffer, ArgKind::SeedBuffer]
            + <S::Data as Push>::spec_decls() + <V::Data as Push>::spec_decls()
    }

    closed spec fn spec_args(&self) -> Seq<ArgValue> {
        seq![
            ArgValue::Pair(
                self.screen.spec_dims().0 as i32,
                self.screen.spec_dims().1 as i32,
            ),
            ArgValue::RealBuffer(self.screen.spec_colors().len() as usize),
            ArgValue::SeedBuffer(self.screen.spec_seeds().len() as usize),
        ] + self.scene_data.spec_args() + self.view_data.spec_args()
    }

    proof fn args_wf(&self) {
        self.scene_data.args_wf();
        self.view_data.args_wf();
        let ghost s = <S::Data as Push>::spec_decls().len() as int;
        let ghost v = <V::Data as Push>::spec_decls().len() as int;
        assert(Self::spec_decls().len() == 3 + s + v);
        assert(self.spec_args().len() == 3 + s + v);
        assert forall|j: int|
            0 <= j < Self::spec_decls().len() implies kind_of(self.spec_args()[j])
            == Self::spec_decls()[j] by {
            if j < 3 {
                if j == 0 {
                    assert(self.spec_args()[0] == ArgValue::Pair(
                        self.screen.spec_dims().0 as i32,
                        self.screen.spec_dims().1 as i32,
                    ));
                } else if j == 1 {
                    assert(self.spec_args()[1] == ArgValue::RealBuffer(
                        self.screen.spec_colors().len() as usize,
                    ));
                } else {
                    assert(self.spec_args()[2] == ArgValue::SeedBuffer(
                        self.screen.spec_seeds().len() as usize,
                    ));
                }
            } else if j < 3 + s {
                assert(self.spec_args()[j] == self.scene_data.spec_args()[j - 3]);
                assert(Self::spec_decls()[j] == <S::Data as Push>::spec_decls()[j - 3]);
            } else {
                assert(self.spec_args()[j] == self.view_data.spec_args()[j - 3 - s]);
                assert(Self::spec_decls()[j] == <V::Data as Push>::spec_decls()[j - 3 - s]);
            }
        }
    }

    fn args_count() -> (n: usize) {
        proof {
            assert(Self::spec_decls().len() == 3 + <S::Data as Push>::spec_decls().len() + <
            V::Data as Push>::spec_decls().len());
        }
        let s = <S::Data as Push>::args_count();
        let v = <V::Data as Push>::args_count();
        3 + s + v
    }

    fn args_def(kb: &mut KernelBuilder) {
        kb.arg(ArgKind::Pair);
        kb.arg(ArgKind::RealBuffer);
        kb.arg(ArgKind::SeedBuffer);
        <S::Data as Push>::args_def(kb);
        <V::Data as Push>::args_def(kb);
        proof {
            assert(kb@ =~= old(kb)@ + Self::spec_decls());
        }
    }

    fn args_set(&mut self, i: usize, k: &mut DeviceKernel) -> (r: Result<(), Error>) {
        let ghost d = old(k).spec_decls();
        let ghost a0 = old(k).spec_args();
        let ghost pre: Seq<ArgKind> = seq![
            ArgKind::Pair,
            ArgKind::RealBuffer,
            ArgKind::SeedBuffer,
        ];
        let ghost s = <S::Data as Push>::spec_decls().len() as int;
        let ghost v = <V::Data as Push>::spec_decls().len() as int;
        let ghost total = Self::spec_decls().len() as int;
        proof {
            assert(total == 3 + s + v);
            self.args_wf();
        }
        let dims = self.screen.dims();
        let v0 = ArgValue::Pair(
            #[verifier::truncate] (dims.0 as i32),
            #[verifier::truncate] (dims.1 as i32),
        );
        let v1 = ArgValue::RealBuffer(self.screen.color().len());
        let v2 = ArgValue::SeedBuffer(self.screen.random().len());
        let ghost cond = i + total <= d.len() && d.subrange(i as int, i + total)
            == Self::spec_decls();
        proof {
            if cond {
                lemma_decls_split(
                    d,
                    i as int,
                    pre + <S::Data as Push>::spec_decls(),
                    <V::Data as Push>::spec_decls(),
                );
                lemma_decls_split(d, i as int, pre, <S::Data as Push>::spec_decls());
                assert(pre + <S::Data as Push>::spec_decls() + <V::Data as Push>::spec_decls()
                    == Self::spec_decls());
                assert(d.subrange(i as int, i + 3)[0] == d[i as int]);
                assert(d.subrange(i as int, i + 3)[1] == d[i + 1]);
                assert(d.subrange(i as int, i + 3)[2] == d[i + 2]);
            }
        }
        match k.set_arg(i, v0) {
            Ok(()) => {},
            Err(e) => {
                proof {
                    if cond {
                        assert(d.subrange(i as int, i + 3) == pre);
                        assert(d[i as int] == ArgKind::Pair);
                    }
                }
                return Err(e);
            },
        }
        match k.set_arg(i + 1, v1) {
            Ok(()) => {},
            Err(e) => {
                proof {
                    if cond {
                        assert(d.subrange(i as int, i + 3) == pre);
                        assert(d[i + 1] == ArgKind::RealBuffer);
                    }
                }
                return Err(e);
            },
        }
        match k.set_arg(i + 2, v2) {
            Ok(()) => {},
            Err(e) => {
                proof {
                    if cond {
                        assert(d.subrange(i as int, i + 3) == pre);
                        assert(d[i + 2] == ArgKind::SeedBuffer);
                    }
                }
                return Err(e);
            },
        }
        let off_s = i + 3;
        match self.scene_data.args_set(off_s, k) {
            Ok(()) => {},
            Err(e) => {
                proof {
                    if cond {
                        assert(d.subrange(i + 3, i + 3 + s) == <S::Data as Push>::spec_decls());
                    }
                }
                return Err(e);
            },
        }
        proof {
            assert(<S::Data as Push>::spec_decls().len() <= usize::MAX);
        }
        let off_v = i + 3 + <S::Data as Push>::args_count();
        match self.view_data.args_set(off_v, k) {
            Ok(()) => {},
            Err(e) => {
                proof {
                    if cond {
                        assert(d.subrange(i + 3 + s, i + 3 + s + v) == <
                        V::Data as Push>::spec_decls());
                    }
                }
                return Err(e);
            },
        }
        proof {
            assert(d.subrange(i + 3, i + 3 + s) =~= <S::Data as Push>::spec_decls());
            assert(d.subrange(i + 3 + s, i + 3 + s + v) =~= <V::Data as Push>::spec_decls());
            assert(d.subrange(i as int, i + 3) =~= pre);
            lemma_decls_split(d, i as int, pre, <S::Data as Push>::spec_decls());
            lemma_decls_split(
                d,
                i as int,
                pre + <S::Data as Push>::spec_decls(),
                <V::Data as Push>::spec_decls(),
            );
            assert(pre + <S::Data as Push>::spec_decls() + <V::Data as Push>::spec_decls()
                == Self::spec_decls());
            assert(d.subrange(i as int, i + total) == Self::spec_decls());
            self.scene_data.args_wf();
            self.view_data.args_wf();
            assert forall|m: int| 0 <= m < total implies old(self).spec_args()[m] == (if m < 3 {
                old(self).spec_args()[m]
            } else if m < 3 + s {
                self.scene_data.spec_args()[m - 3]
            } else {
                self.view_data.spec_args()[m - 3 - s]
            }) by {}
            assert(k.spec_args() =~= bound_range(a0, i as int, old(self).spec_args()));
        }
        Ok(())
    }
}

/// Push offset law: the composite render schema binds its fixed prefix,
/// then the scene sub-schema, then the view sub-schema.  Its total arity
/// is the sum of the parts, and after binding the composite at offset
/// `k`, the view sub-schema sits bound starting exactly at `k` plus the
/// arity of everything before it.
pub proof fn lemma_push_offset_law<S: Scene, V: View>(
    data: RenderData<S, V>,
    args: Seq<Option<ArgValue>>,
    k: int,
)
    requires
        0 <= k,
        k + <RenderData<S, V> as Push>::spec_decls().len() <= args.len(),
    ensures
        <RenderData<S, V> as Push>::spec_decls().len() == 3 + <S::Data as Push>::spec_decls().len()
            + <V::Data as Push>::spec_decls().len(),
        forall|j: int|
            0 <= j < <S::Data as Push>::spec_decls().len() ==> bound_range(
                args,
                k,
                data.spec_args(),
            )[k + 3 + j] == Some(data.spec_scene_data().spec_args()[j]),
        forall|j: int|
            0 <= j < <V::Data as Push>::spec_decls().len() ==> bound_range(
                args,
                k,
                data.spec_args(),
            )[k + 3 + <S::Data as Push>::spec_decls().len() + j] == Some(
                data.spec_view_data().spec_args()[j],
            ),
{
    data.args_wf();
    data.spec_scene_data().args_wf();
    data.spec_view_data().args_wf();
    let s = <S::Data as Push>::spec_decls().len() as int;
    assert forall|j: int| 0 <= j < s implies bound_range(args, k, data.spec_args())[k + 3 + j]
        == Some(data.spec_scene_data().spec_args()[j]) by {
        assert(data.spec_args()[3 + j] == data.spec_scene_data().spec_args()[j]);
    }
    assert forall|j: int|
        0 <= j < <V::Data as Push>::spec_decls().len() implies bound_range(
        args,
        k,
        data.spec_args(),
    )[k + 3 + s + j] == Some(data.spec_view_data().spec_args()[j]) by {
        assert(data.spec_args()[3 + s + j] == data.spec_view_data().spec_args()[j]);
    }
}

impl<S: Scene, V: View> Renderer<S, V> {
    /// The composed program, as contracts see it.
    pub closed spec fn spec_program(&self) -> Program {
        self.program
    }

    /// The screen size, as contracts see it.
    pub closed spec fn spec_dims(&self) -> (usize, usize) {
        self.dims
    }

    /// The scene, as contracts see it.
    pub closed spec fn spec_scene(&self) -> S {
        self.scene
    }

    /// The view, as contracts see it.
    pub closed spec fn spec_view(&self) -> V {
        self.view
    }

    /// The screen fits the device's index space and the lane count fits
    /// the host.
    pub open spec fn wf(&self) -> bool {
        &&& pixel_count(self.spec_dims()) <= usize::MAX / 3
        &&& self.spec_dims().0 <= MAX_DIM
        &&& self.spec_dims().1 <= MAX_DIM
    }

    /// Composes the device program: the scene's and the view's source are
    /// generated into `__gen/scene.h` and `__gen/view.h` through one
    /// shared dedup cache, and the entry fragment `clay_core/render.c` is
    /// resolved against the caller's hook followed by the generated one.
    ///
    /// Succeeds exactly when the screen fits the device limits and the
    /// caller's hook serves the entry fragment; a missing entry fragment
    /// is reported with its path.
    pub fn new(dims: (usize, usize), scene: S, view: V, hook: MemHook) -> (r: Result<
        Renderer<S, V>,
        Error,
    >)
        ensures
            r is Ok <==> pixel_count(dims) <= usize::MAX / 3 && dims.0 <= MAX_DIM && dims.1
                <= MAX_DIM && mem_lookup(hook@, "clay_core/render.c"@) is Some,
            r matches Ok(p) ==> p.wf() && p.spec_dims() == dims && p.spec_scene() == scene
                && p.spec_view() == view && p.spec_program().spec_root()
                == "clay_core/render.c"@ && chain_lookup(
                p.spec_program().spec_chain(),
                "__gen/scene.h"@,
            ) is Some && chain_lookup(p.spec_program().spec_chain(), "__gen/view.h"@) is Some,
            r matches Ok(p) ==> p.spec_program().spec_chain().len() == 2
                && p.spec_program().spec_chain()[0] == hook@
                && p.spec_program().spec_chain()[1].len() == 2
                && p.spec_program().spec_chain()[1][0].0 == "__gen/scene.h"@
                && p.spec_program().spec_chain()[1][1].0 == "__gen/view.h"@,
            r matches Ok(p) ==> p.spec_program().spec_chain()[1][0].1 == S::spec_source(
                Set::empty(),
            ) && p.spec_program().spec_chain()[1][1].1 == V::spec_source(
                S::spec_visits(Set::empty()),
            ),
    {
        proof {
            reveal_strlit("__gen/scene.h");
            reveal_strlit("__gen/view.h");
            reveal_strlit("clay_core/render.c");
            assert(("__gen/scene.h"@).len() == 13);
            assert(("__gen/view.h"@).len() == 12);
            assert(("clay_core/render.c"@).len() == 18);
        }
        if dims.0 > MAX_DIM || dims.1 > MAX_DIM {
            return Err(Error::Backend(String::from_str("the screen size exceeds device limits")));
        }
        match dims.0.checked_mul(dims.1) {
            Some(p) => {
                if p > usize::MAX / 3 {
                    return Err(
                        Error::Backend(
                            String::from_str("the screen size exceeds device limits"),
                        ),
                    );
                }
            },
            None => {
                return Err(
                    Error::Backend(String::from_str("the screen size exceeds device limits")),
                );
            },
        }
        let mut cache = SourceCache::new();
        let sc = S::source(&mut cache);
        let vw = V::source(&mut cache);
        let mut gen = MemHook::new();
        let ghost g0 = gen@;
        let _r0 = gen.add_file("__gen/scene.h", sc.as_str());
        proof {
            lemma_mem_lookup_push(g0, "__gen/scene.h"@, sc@, "__gen/view.h"@);
            lemma_mem_lookup_push(g0, "__gen/scene.h"@, sc@, "clay_core/render.c"@);
        }
        let ghost g1 = gen@;
        let _r1 = gen.add_file("__gen/view.h", vw.as_str());
        proof {
            lemma_mem_lookup_push(g1, "__gen/view.h"@, vw@, "clay_core/render.c"@);
            lemma_mem_lookup_push(g0, "__gen/scene.h"@, sc@, "__gen/scene.h"@);
            lemma_mem_lookup_push(g1, "__gen/view.h"@, vw@, "__gen/scene.h"@);
            lemma_mem_lookup_push(g1, "__gen/view.h"@, vw@, "__gen/view.h"@);
        }
        let mut hooks = ListHook::new();
        let ghost c0 = hooks@;
        let ghost hv = hook@;
        proof {
            lemma_chain_lookup_push(c0, hook@, "clay_core/render.c"@);
            lemma_chain_lookup_push(c0, hook@, "__gen/scene.h"@);
            lemma_chain_lookup_push(c0, hook@, "__gen/view.h"@);
        }
        hooks.add_hook(hook);
        let ghost c1 = hooks@;
        let ghost gv = gen@;
        proof {
            lemma_chain_lookup_push(c1, gen@, "clay_core/render.c"@);
            lemma_chain_lookup_push(c1, gen@, "__gen/scene.h"@);
            lemma_chain_lookup_push(c1, gen@, "__gen/view.h"@);
        }
        hooks.add_hook(gen);
        proof {
            assert(hooks@.len() == 2);
            assert(hooks@[0] == hv);
            assert(hooks@[1] == gv);
            assert(gv.len() == 2);
            assert(gv[0].0 == "__gen/scene.h"@);
            assert(gv[1].0 == "__gen/view.h"@);
        }
        let program = Program::new(hooks, "clay_core/render.c")?;
        Ok(Renderer { program, dims, scene, view })
    }

    /// The composed device program.
    pub fn program(&self) -> (p: &Program)
        ensures
            *p == self.spec_program(),
    {
        &self.program
    }

    /// Creates the per-context mirrored data and wraps the compiled
    /// render kernel around it; the build log comes along.
    pub fn create_worker(&self, context: &Context) -> (r: Result<
        (RenderWorker<S, V>, String),
        Error,
    >)
        requires
            self.wf(),
        ensures
            r matches Ok((w, log)) ==> w.wf() && w.spec_kernel().spec_kernel().spec_context()
                == *context && w.spec_data().spec_screen().spec_context() == *context
                && w.spec_data().spec_screen().spec_dims() == self.spec_dims()
                && w.spec_data().spec_screen().spec_passes() == 0,
    {
        let data = self.new_data(context)?;
        RenderWorker::<S, V>::new(context, &self.program, data)
    }
}

impl<S: Scene, V: View> Store for Renderer<S, V> {
    type Data = RenderData<S, V>;

    fn new_data(&self, context: &Context) -> (r: Result<RenderData<S, V>, Error>)
        ensures
            r matches Ok(d) ==> d.spec_screen().wf() && d.spec_screen().spec_context() == *context
                && d.spec_screen().spec_dims() == self.spec_dims() && d.spec_screen().spec_passes()
                == 0,
            pixel_count(self.spec_dims()) > usize::MAX / 3 ==> r is Err,
    {
        match self.dims.0.checked_mul(self.dims.1) {
            Some(p) => {
                if p > usize::MAX / 3 {
                    return Err(
                        Error::Backend(
                            String::from_str("the screen size exceeds device limits"),
                        ),
                    );
                }
            },
            None => {
                return Err(
                    Error::Backend(String::from_str("the screen size exceeds device limits")),
                );
            },
        }
        let screen = RenderBuffer::new(context, self.dims)?;
        let scene_data = self.scene.new_data(context)?;
        let view_data = self.view.new_data(context)?;
        Ok(RenderData { screen, scene_data, view_data })
    }

    fn update_data(&self, context: &Context, data: &mut RenderData<S, V>) -> (r: Result<
        (),
        Error,
    >)
        ensures
            final(data).spec_screen() == old(data).spec_screen(),
    {
        self.scene.update_data(context, &mut data.scene_data)?;
        self.view.update_data(context, &mut data.view_data)?;
        Ok(())
    }
}

/// Drives the ray-tracing passes on one context: owns the mirrored data
/// and the compiled render kernel over its schema.
pub struct RenderWorker<S: Scene, V: View> {
    data: RenderData<S, V>,
    kernel: Kernel<RenderData<S, V>>,
}

impl<S: Scene, V: View> RenderWorker<S, V> {
    /// The mirrored data, as contracts see it.
    pub closed spec fn spec_data(&self) -> RenderData<S, V> {
        self.data
    }

    /// The kernel, as contracts see it.
    pub closed spec fn spec_kernel(&self) -> Kernel<RenderData<S, V>> {
        self.kernel
    }

    /// The kernel wraps the render entry point over this data's schema,
    /// and the render target is sound.
    pub open spec fn wf(&self) -> bool {
        &&& self.spec_kernel().wf()
        &&& self.spec_kernel().spec_kernel().spec_entry() == "render"@
        &&& self.spec_data().spec_screen().wf()
    }

    /// Compiles the render entry point against the context and binds it
    /// to the mirrored data; the build log comes along.
    pub fn new(context: &Context, program: &Program, data: RenderData<S, V>) -> (r: Result<
        (RenderWorker<S, V>, String),
        Error,
    >)
        requires
            data.spec_screen().wf(),
        ensures
            r is Ok,
            r matches Ok((w, log)) ==> w.wf() && w.spec_data() == data && w.spec_kernel(
            ).spec_kernel().spec_context() == *context,
    {
        let (kernel, log) = Kernel::<RenderData<S, V>>::new(context, program, "render")?;
        Ok((RenderWorker { data, kernel }, log))
    }

    /// The mirrored data.
    pub fn data(&self) -> (d: &RenderData<S, V>)
        ensures
            *d == self.spec_data(),
    {
        &self.data
    }

    /// The mirrored data, exclusively.
    pub fn data_mut(&mut self) -> (d: &mut RenderData<S, V>)
        ensures
            *d == old(self).spec_data(),
            final(self).spec_data() == *final(d),
            final(self).spec_kernel() == old(self).spec_kernel(),
    {
        &mut self.data
    }

    /// The context the worker renders on.
    pub fn context(&self) -> (c: &Context)
        ensures
            *c == self.spec_kernel().spec_kernel().spec_context(),
    {
        self.kernel.context()
    }

    /// Runs one ray-tracing pass: binds the mirrored data at offset zero,
    /// enqueues one full-screen dispatch, blocks until it completes, and
    /// only then counts the pass.  `sample` is the completed dispatch's
    /// output, one additional 32-bit sample per pixel lane, which the
    /// backend hands over at the blocking wait; it is added to the
    /// running sums.
    pub fn run(&mut self, sample: &Vec<u32>) -> (r: Result<(), Error>)
        requires
            old(self).wf(),
            old(self).spec_data().spec_screen().spec_passes() < MAX_PASSES,
        ensures
            final(self).wf(),
            final(self).spec_kernel().spec_kernel().spec_context() == old(
                self,
            ).spec_kernel().spec_kernel().spec_context(),
            final(self).spec_data().spec_scene_data() == old(self).spec_data().spec_scene_data(),
            final(self).spec_data().spec_view_data() == old(self).spec_data().spec_view_data(),
            final(self).spec_data().spec_screen().spec_dims() == old(
                self,
            ).spec_data().spec_screen().spec_dims(),
            final(self).spec_data().spec_screen().spec_seeds() == old(
                self,
            ).spec_data().spec_screen().spec_seeds(),
            final(self).spec_data().spec_screen().spec_context() == old(
                self,
            ).spec_data().spec_screen().spec_context(),
            r is Ok <==> sample@.len() == old(self).spec_data().spec_screen().spec_colors().len(),
            r is Ok ==> final(self).spec_data().spec_screen().spec_passes() == old(
                self,
            ).spec_data().spec_screen().spec_passes() + 1,
            r is Ok ==> forall|i: int|
                0 <= i < final(self).spec_data().spec_screen().spec_colors().len() ==> final(self).spec_data().spec_screen().spec_colors()[i] == old(
                    self,
                ).spec_data().spec_screen().spec_colors()[i] + sample@[i],
            r is Err ==> final(self).spec_data().spec_screen() == old(
                self,
            ).spec_data().spec_screen(),
            final(self).spec_kernel().spec_kernel().spec_args() == bound_range(
                old(self).spec_kernel().spec_kernel().spec_args(),
                0,
                old(self).spec_data().spec_args(),
            ),
    {
        let dims = self.data.screen.dims();
        self.kernel.run(&mut self.data, dims)?;
        self.data.screen.record_pass(sample)
    }

    /// Repeats passes until the wall-clock budget of `time_ms`
    /// milliseconds elapses or the supplied per-pass samples run out,
    /// always performing at least one pass even on an already-expired or
    /// zero budget, and never aborting a pass in flight.  Returns the
    /// count of passes performed, never zero.
    pub fn run_for(&mut self, time_ms: u64, samples: &Vec<Vec<u32>>) -> (r: Result<usize, Error>)
        requires
            old(self).wf(),
            samples@.len() >= 1,
            old(self).spec_data().spec_screen().spec_passes() + samples@.len() <= MAX_PASSES,
            forall|m: int|
                0 <= m < samples@.len() ==> (#[trigger] samples@[m])@.len() == old(
                    self,
                ).spec_data().spec_screen().spec_colors().len(),
        ensures
            r is Ok,
            final(self).wf(),
            final(self).spec_data().spec_scene_data() == old(self).spec_data().spec_scene_data(),
            final(self).spec_data().spec_view_data() == old(self).spec_data().spec_view_data(),
            final(self).spec_data().spec_screen().spec_dims() == old(
                self,
            ).spec_data().spec_screen().spec_dims(),
            final(self).spec_data().spec_screen().spec_seeds() == old(
                self,
            ).spec_data().spec_screen().spec_seeds(),
            final(self).spec_data().spec_screen().spec_context() == old(
                self,
            ).spec_data().spec_screen().spec_context(),
            r matches Ok(n) ==> 1 <= n <= samples@.len() && final(self).spec_data().spec_screen().spec_passes() == old(
                self,
            ).spec_data().spec_screen().spec_passes() + n && (time_ms == 0 ==> n == 1) && (forall|i: int|
                0 <= i < final(self).spec_data().spec_screen().spec_colors().len() ==> final(self).spec_data().spec_screen().spec_colors()[i] == old(
                    self,
                ).spec_data().spec_screen().spec_colors()[i] + pass_sum(samples@, n as int, i)),
    {
        let start = clock_now();
        let r0 = self.run(&samples[0]);
        proof {
            assert(r0 is Ok);
            assert forall|i: int|
                0 <= i < self.spec_data().spec_screen().spec_colors().len() implies self.spec_data(
            ).spec_screen().spec_colors()[i] == old(self).spec_data().spec_screen().spec_colors()[i]
                + pass_sum(samples@, 1, i) by {
                reveal_with_fuel(pass_sum, 3);
            }
        }
        let mut done: usize = 1;
        let mut expired = false;
        let n = samples.len();
        while done < n && !expired
            invariant
                old(self).wf(),
                n == samples@.len(),
                1 <= done <= n,
                old(self).spec_data().spec_screen().spec_passes() + n <= MAX_PASSES,
                forall|m: int|
                    0 <= m < n ==> (#[trigger] samples@[m])@.len() == old(
                        self,
                    ).spec_data().spec_screen().spec_colors().len(),
                self.wf(),
                self.spec_data().spec_scene_data() == old(self).spec_data().spec_scene_data(),
                self.spec_data().spec_view_data() == old(self).spec_data().spec_view_data(),
                self.spec_data().spec_screen().spec_dims() == old(
                    self,
                ).spec_data().spec_screen().spec_dims(),
                self.spec_data().spec_screen().spec_seeds() == old(
                    self,
                ).spec_data().spec_screen().spec_seeds(),
                self.spec_data().spec_screen().spec_context() == old(
                    self,
                ).spec_data().spec_screen().spec_context(),
                self.spec_data().spec_screen().spec_colors().len() == old(
                    self,
                ).spec_data().spec_screen().spec_colors().len(),
                self.spec_data().spec_screen().spec_passes() == old(
                    self,
                ).spec_data().spec_screen().spec_passes() + done,
                forall|i: int|
                    0 <= i < self.spec_data().spec_screen().spec_colors().len()
                        ==> self.spec_data().spec_screen().spec_colors()[i] == old(
                        self,
                    ).spec_data().spec_screen().spec_colors()[i] + pass_sum(
                        samples@,
                        done as int,
                        i,
                    ),
                time_ms == 0 ==> done == 1,
            decreases n - done + (if expired {
                0int
            } else {
                1int
            }),
        {
            let elapsed = duration_millis(&clock_elapsed(&start));
            if elapsed >= time_ms {
                expired = true;
            } else {
                let rr = self.run(&samples[done]);
                proof {
                    assert(rr is Ok);
                }
                done += 1;
            }
        }
        Ok(done)
    }
}

} // verus!
