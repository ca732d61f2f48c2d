use clay_core::{Context, Error, IdentityFilter, Postproc, RenderBuffer};

fn uniform_screen(ctx: &Context, dims: (usize, usize), passes: usize, v: u32) -> RenderBuffer {
    let mut rb = RenderBuffer::new(ctx, dims).unwrap();
    let sample = vec![v; dims.0 * dims.1 * 3];
    for _ in 0..passes {
        rb.record_pass(&sample).unwrap();
    }
    rb
}

fn make_pipeline(ctx: &Context, dims: (usize, usize)) -> Postproc<IdentityFilter> {
    let collector = Postproc::<IdentityFilter>::builder();
    let builder = collector.collect().unwrap();
    let (pipeline, _log) = builder.build(ctx, dims, IdentityFilter {}).unwrap();
    pipeline
}

#[test]
fn processing_one_screen_leaves_its_per_pass_mean() {
    let ctx = Context::new(1, 1);
    let dims = (2, 2);
    let mut pp = make_pipeline(&ctx, dims);
    let screen = uniform_screen(&ctx, dims, 4, 9);
    pp.process_one(&screen).unwrap();
    // the filter stage saw and passed through the mean, not the raw sum
    for &lane in pp.buffer() {
        assert_eq!(lane, (4 * 9) / 4);
    }
    pp.make_image().unwrap();
    let bytes = pp.image().read().unwrap();
    assert_eq!(bytes.len(), 2 * 2 * 3);
    for &b in &bytes {
        assert_eq!(b, 9);
    }
}

#[test]
fn processing_many_screens_combines_sums_like_the_accumulator() {
    let ctx = Context::new(1, 1);
    let dims = (2, 1);
    let mut pp = make_pipeline(&ctx, dims);
    let a = uniform_screen(&ctx, dims, 5, 10);
    let b = uniform_screen(&ctx, dims, 3, 2);
    pp.process(&vec![a, b]).unwrap();
    // the weighted mean over the eight merged passes, before the pack step
    for &lane in pp.buffer() {
        assert_eq!(lane, (5 * 10 + 3 * 2) / 8);
    }
    pp.make_image().unwrap();
    for &byte in pp.image().read().unwrap().iter() {
        assert_eq!(byte as u64, (5 * 10 + 3 * 2) / 8);
    }
}

#[test]
fn postproc_mean_stage_matches_the_accumulator() {
    let ctx = Context::new(1, 1);
    let dims = (2, 1);
    let a1 = uniform_screen(&ctx, dims, 5, 10);
    let b1 = uniform_screen(&ctx, dims, 3, 2);
    let mut db = clay_core::DoubleBuffer::new(&ctx, dims).unwrap();
    let mut acc = clay_core::Accumulator::new(&ctx).unwrap();
    acc.accumulate(&mut db, &vec![a1, b1]).unwrap();

    let a2 = uniform_screen(&ctx, dims, 5, 10);
    let b2 = uniform_screen(&ctx, dims, 3, 2);
    let mut pp = make_pipeline(&ctx, dims);
    pp.process(&vec![a2, b2]).unwrap();

    // the same incremental pass-weighted fold, stage for stage
    assert_eq!(pp.buffer(), db.src_buffer());
}

#[test]
fn cross_context_screen_processes_identically() {
    let home = Context::new(1, 1);
    let away = Context::new(2, 9);
    let dims = (2, 2);
    let mut pp1 = make_pipeline(&home, dims);
    pp1.process_one(&uniform_screen(&home, dims, 2, 5)).unwrap();
    let mut pp2 = make_pipeline(&home, dims);
    pp2.process_one(&uniform_screen(&away, dims, 2, 5)).unwrap();
    assert_eq!(pp1.buffer(), pp2.buffer());
}

#[test]
fn quantization_saturates_at_full_intensity() {
    let ctx = Context::new(1, 1);
    let dims = (1, 1);
    let mut pp = make_pipeline(&ctx, dims);
    let screen = uniform_screen(&ctx, dims, 2, 300);
    pp.process_one(&screen).unwrap();
    pp.make_image().unwrap();
    for &b in pp.image().read().unwrap().iter() {
        assert_eq!(b, 255);
    }
}

#[test]
fn a_screen_with_no_pass_reads_black() {
    let ctx = Context::new(1, 1);
    let dims = (1, 2);
    let mut pp = make_pipeline(&ctx, dims);
    let screen = RenderBuffer::new(&ctx, dims).unwrap();
    pp.process_one(&screen).unwrap();
    pp.make_image().unwrap();
    for &b in pp.image().read().unwrap().iter() {
        assert_eq!(b, 0);
    }
}

#[test]
fn resize_leaves_all_buffers_reading_as_zero() {
    let ctx = Context::new(1, 1);
    let mut pp = make_pipeline(&ctx, (2, 2));
    let screen = uniform_screen(&ctx, (2, 2), 3, 50);
    pp.process_one(&screen).unwrap();
    pp.make_image().unwrap();
    pp.resize((3, 2)).unwrap();
    assert_eq!(pp.dims(), (3, 2));
    assert_eq!(pp.buffer().len(), 3 * 2 * 3);
    for &lane in pp.buffer() {
        assert_eq!(lane, 0);
    }
    for &b in pp.image().read().unwrap().iter() {
        assert_eq!(b, 0);
    }
}

#[test]
fn size_mismatch_is_checked_before_any_merge() {
    let ctx = Context::new(1, 1);
    let mut pp = make_pipeline(&ctx, (2, 2));
    let wrong = uniform_screen(&ctx, (3, 3), 1, 1);
    match pp.process(&vec![wrong]) {
        Err(Error::Dimensions(a, b)) => {
            assert_eq!(a, (2, 2));
            assert_eq!(b, (3, 3));
        },
        _ => panic!("a size mismatch must be refused"),
    }
    for &lane in pp.buffer() {
        assert_eq!(lane, 0);
    }
}

#[test]
fn generated_filter_fragment_is_namespaced_by_the_instance_name() {
    let collector = Postproc::<IdentityFilter>::builder();
    let builder = collector.collect().unwrap();
    let header = builder.program().resolve("__gen/filter.h").unwrap();
    assert!(header.contains("#define __FILTER_ARGS_DEF IDENTITY_FILTER_ARGS_DEF"));
    assert!(header.contains("#define __FILTER_ARGS IDENTITY_FILTER_ARGS"));
    assert!(header.contains("#define __filter_apply identity_filter_apply"));
}
