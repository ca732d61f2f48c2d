use clay_core::{
    core_source, ArgKind, ArgValue, Context, DeviceKernel, Error, KernelBuilder, Push, Renderer,
    RenderData, Scene, SourceCache, Store, View,
};

struct SceneTwo;

struct SceneTwoData;

impl Store for SceneTwo {
    type Data = SceneTwoData;

    fn new_data(&self, _context: &Context) -> Result<SceneTwoData, Error> {
        Ok(SceneTwoData)
    }

    fn update_data(&self, _context: &Context, _data: &mut SceneTwoData) -> Result<(), Error> {
        Ok(())
    }
}

impl Scene for SceneTwo {
    fn spec_source(_cache: vstd::set::Set<u64>) -> vstd::seq::Seq<char> {
        unreachable!()
    }

    fn spec_visits(_cache: vstd::set::Set<u64>) -> vstd::set::Set<u64> {
        unreachable!()
    }

    fn source(_cache: &mut SourceCache) -> String {
        "scene-src\n".to_string()
    }
}

impl Push for SceneTwoData {
    fn spec_decls() -> vstd::seq::Seq<ArgKind> {
        unreachable!()
    }

    fn spec_args(&self) -> vstd::seq::Seq<ArgValue> {
        unreachable!()
    }

    fn args_wf(&self) {}

    fn args_count() -> usize {
        2
    }

    fn args_def(kb: &mut KernelBuilder) {
        kb.arg(ArgKind::Scalar);
        kb.arg(ArgKind::Scalar);
    }

    fn args_set(&mut self, i: usize, k: &mut DeviceKernel) -> Result<(), Error> {
        k.set_arg(i, ArgValue::Scalar(21))?;
        k.set_arg(i + 1, ArgValue::Scalar(22))
    }
}

struct ViewOne;

struct ViewOneData;

impl Store for ViewOne {
    type Data = ViewOneData;

    fn new_data(&self, _context: &Context) -> Result<ViewOneData, Error> {
        Ok(ViewOneData)
    }

    fn update_data(&self, _context: &Context, _data: &mut ViewOneData) -> Result<(), Error> {
        Ok(())
    }
}

impl View for ViewOne {
    fn spec_source(_cache: vstd::set::Set<u64>) -> vstd::seq::Seq<char> {
        unreachable!()
    }

    fn spec_visits(_cache: vstd::set::Set<u64>) -> vstd::set::Set<u64> {
        unreachable!()
    }

    fn source(_cache: &mut SourceCache) -> String {
        "view-src\n".to_string()
    }
}

impl Push for ViewOneData {
    fn spec_decls() -> vstd::seq::Seq<ArgKind> {
        unreachable!()
    }

    fn spec_args(&self) -> vstd::seq::Seq<ArgValue> {
        unreachable!()
    }

    fn args_wf(&self) {}

    fn args_count() -> usize {
        1
    }

    fn args_def(kb: &mut KernelBuilder) {
        kb.arg(ArgKind::SeedBuffer);
    }

    fn args_set(&mut self, i: usize, k: &mut DeviceKernel) -> Result<(), Error> {
        k.set_arg(i, ArgValue::SeedBuffer(31))
    }
}

#[test]
fn composite_arity_is_the_sum_of_the_parts() {
    assert_eq!(<RenderData<SceneTwo, ViewOne> as Push>::args_count(), 3 + 2 + 1);
}

#[test]
fn composite_binds_sub_schemas_at_running_offsets() {
    let ctx = Context::new(1, 1);
    let renderer = Renderer::new((4, 4), SceneTwo, ViewOne, core_source()).unwrap();
    let mut data = renderer.new_data(&ctx).unwrap();
    let mut kb = KernelBuilder::new();
    <RenderData<SceneTwo, ViewOne> as Push>::args_def(&mut kb);
    let mut k = DeviceKernel::assemble(&ctx, "render", kb);
    data.args_set(0, &mut k).unwrap();
    // fixed prefix: screen size, color buffer, seed buffer
    assert_eq!(k.arg_at(0), Some(ArgValue::Pair(4, 4)));
    assert_eq!(k.arg_at(1), Some(ArgValue::RealBuffer(4 * 4 * 3)));
    assert_eq!(k.arg_at(2), Some(ArgValue::SeedBuffer(4 * 4)));
    // the scene's two arguments start right after the prefix
    assert_eq!(k.arg_at(3), Some(ArgValue::Scalar(21)));
    assert_eq!(k.arg_at(4), Some(ArgValue::Scalar(22)));
    // the view's argument starts exactly at prefix + scene arity
    assert_eq!(k.arg_at(5), Some(ArgValue::SeedBuffer(31)));
}

#[test]
fn binding_at_offset_k_shifts_every_sub_schema_by_k() {
    let ctx = Context::new(1, 1);
    let renderer = Renderer::new((2, 2), SceneTwo, ViewOne, core_source()).unwrap();
    let mut data = renderer.new_data(&ctx).unwrap();
    let mut kb = KernelBuilder::new();
    kb.arg(ArgKind::Scalar);
    <RenderData<SceneTwo, ViewOne> as Push>::args_def(&mut kb);
    let mut k = DeviceKernel::assemble(&ctx, "render", kb);
    k.set_arg(0, ArgValue::Scalar(-1)).unwrap();
    data.args_set(1, &mut k).unwrap();
    assert_eq!(k.arg_at(0), Some(ArgValue::Scalar(-1)));
    assert_eq!(k.arg_at(1), Some(ArgValue::Pair(2, 2)));
    // second sub-schema (the view) sits at k + 3 + scene arity = 1 + 5
    assert_eq!(k.arg_at(6), Some(ArgValue::SeedBuffer(31)));
}

#[test]
fn mismatched_slot_kind_is_refused_before_anything_reaches_the_device() {
    let ctx = Context::new(1, 1);
    let mut kb = KernelBuilder::new();
    kb.arg(ArgKind::Scalar);
    let mut k = DeviceKernel::assemble(&ctx, "mean", kb);
    let r = k.set_arg(0, ArgValue::Pair(1, 2));
    assert!(matches!(r, Err(Error::Backend(_))));
    assert_eq!(k.arg_at(0), None);
    let beyond = k.set_arg(7, ArgValue::Scalar(1));
    assert!(matches!(beyond, Err(Error::Backend(_))));
}
