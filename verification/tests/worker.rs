use clay_core::{
    core_source, ArgKind, ArgValue, Context, DeviceKernel, Error, KernelBuilder, MemHook, Push,
    Renderer, Scene, SourceCache, Store, View,
};

struct NullScene;

struct NullData;

impl Store for NullScene {
    type Data = NullData;

    fn new_data(&self, _context: &Context) -> Result<NullData, Error> {
        Ok(NullData)
    }

    fn update_data(&self, _context: &Context, _data: &mut NullData) -> Result<(), Error> {
        Ok(())
    }
}

impl Scene for NullScene {
    fn spec_source(_cache: vstd::set::Set<u64>) -> vstd::seq::Seq<char> {
        unreachable!()
    }

    fn spec_visits(_cache: vstd::set::Set<u64>) -> vstd::set::Set<u64> {
        unreachable!()
    }

    fn source(_cache: &mut SourceCache) -> String {
        "null-scene\n".to_string()
    }
}

impl Push for NullData {
    fn spec_decls() -> vstd::seq::Seq<ArgKind> {
        unreachable!()
    }

    fn spec_args(&self) -> vstd::seq::Seq<ArgValue> {
        unreachable!()
    }

    fn args_wf(&self) {}

    fn args_count() -> usize {
        0
    }

    fn args_def(_kb: &mut KernelBuilder) {}

    fn args_set(&mut self, i: usize, k: &mut DeviceKernel) -> Result<(), Error> {
        if i <= k.slots() {
            Ok(())
        } else {
            Err(Error::Backend("offset beyond the declared slots".to_string()))
        }
    }
}

struct NullView;

struct NullViewData;

impl Store for NullView {
    type Data = NullViewData;

    fn new_data(&self, _context: &Context) -> Result<NullViewData, Error> {
        Ok(NullViewData)
    }

    fn update_data(&self, _context: &Context, _data: &mut NullViewData) -> Result<(), Error> {
        Ok(())
    }
}

impl View for NullView {
    fn spec_source(_cache: vstd::set::Set<u64>) -> vstd::seq::Seq<char> {
        unreachable!()
    }

    fn spec_visits(_cache: vstd::set::Set<u64>) -> vstd::set::Set<u64> {
        unreachable!()
    }

    fn source(_cache: &mut SourceCache) -> String {
        "null-view\n".to_string()
    }
}

impl Push for NullViewData {
    fn spec_decls() -> vstd::seq::Seq<ArgKind> {
        unreachable!()
    }

    fn spec_args(&self) -> vstd::seq::Seq<ArgValue> {
        unreachable!()
    }

    fn args_wf(&self) {}

    fn args_count() -> usize {
        0
    }

    fn args_def(_kb: &mut KernelBuilder) {}

    fn args_set(&mut self, i: usize, k: &mut DeviceKernel) -> Result<(), Error> {
        if i <= k.slots() {
            Ok(())
        } else {
            Err(Error::Backend("offset beyond the declared slots".to_string()))
        }
    }
}

fn make_worker(ctx: &Context, dims: (usize, usize)) -> clay_core::RenderWorker<NullScene, NullView> {
    let renderer = Renderer::new(dims, NullScene, NullView, core_source()).unwrap();
    let (worker, _log) = renderer.create_worker(ctx).unwrap();
    worker
}

#[test]
fn run_adds_one_sample_per_lane_and_counts_afterwards() {
    let ctx = Context::new(1, 1);
    let mut worker = make_worker(&ctx, (2, 2));
    assert_eq!(worker.data().buffer().n_passes(), 0);
    let sample = vec![3u32; 2 * 2 * 3];
    worker.run(&sample).unwrap();
    assert_eq!(worker.data().buffer().n_passes(), 1);
    for &lane in worker.data().buffer().color() {
        assert_eq!(lane, 3);
    }
    worker.run(&sample).unwrap();
    assert_eq!(worker.data().buffer().n_passes(), 2);
    for &lane in worker.data().buffer().color() {
        assert_eq!(lane, 6);
    }
}

#[test]
fn clear_resets_pass_count_and_every_color_sum() {
    let ctx = Context::new(1, 1);
    let mut worker = make_worker(&ctx, (2, 2));
    let sample = vec![9u32; 2 * 2 * 3];
    worker.run(&sample).unwrap();
    worker.run(&sample).unwrap();
    let seeds_before = worker.data().buffer().random().clone();
    worker.data_mut().buffer_mut().clear().unwrap();
    assert_eq!(worker.data().buffer().n_passes(), 0);
    for &lane in worker.data().buffer().color() {
        assert_eq!(lane, 0);
    }
    // seeds parameterize the sampling, not the statistics: they stay
    assert_eq!(worker.data().buffer().random(), &seeds_before);
}

#[test]
fn run_for_zero_budget_still_performs_exactly_one_pass() {
    let ctx = Context::new(1, 1);
    let mut worker = make_worker(&ctx, (2, 2));
    let samples = vec![vec![1u32; 2 * 2 * 3], vec![2u32; 2 * 2 * 3], vec![4u32; 2 * 2 * 3]];
    let n = worker.run_for(0, &samples).unwrap();
    assert_eq!(n, 1);
    assert_eq!(worker.data().buffer().n_passes(), 1);
    for &lane in worker.data().buffer().color() {
        assert_eq!(lane, 1);
    }
}

#[test]
fn run_for_counts_every_performed_pass() {
    let ctx = Context::new(1, 1);
    let mut worker = make_worker(&ctx, (1, 1));
    let samples = vec![vec![1u32; 3], vec![2u32; 3]];
    // a generous budget lets the supplied passes run out instead
    let n = worker.run_for(60_000, &samples).unwrap();
    assert!(n >= 1);
    assert_eq!(worker.data().buffer().n_passes(), n);
}

#[test]
fn renderer_without_entry_fragment_names_the_missing_path() {
    match Renderer::new((2, 2), NullScene, NullView, MemHook::new()) {
        Err(Error::Resolution(p)) => assert_eq!(p, "clay_core/render.c"),
        _ => panic!("a missing entry fragment must be named"),
    }
}

#[test]
fn renderer_program_serves_the_generated_fragments() {
    let renderer = Renderer::new((2, 2), NullScene, NullView, core_source()).unwrap();
    assert_eq!(renderer.program().resolve("__gen/scene.h").unwrap(), "null-scene\n");
    assert_eq!(renderer.program().resolve("__gen/view.h").unwrap(), "null-view\n");
    assert!(renderer.program().text().contains("render"));
}

#[test]
fn render_buffer_seeds_cover_every_pixel() {
    let ctx = Context::new(1, 1);
    let worker = make_worker(&ctx, (4, 3));
    assert_eq!(worker.data().buffer().random().len(), 4 * 3);
    assert_eq!(worker.data().buffer().color().len(), 4 * 3 * 3);
}
