use clay_core::{Accumulator, Context, DoubleBuffer, RenderBuffer};

fn uniform_buffer(ctx: &Context, dims: (usize, usize), passes: usize, v: u32) -> RenderBuffer {
    let mut rb = RenderBuffer::new(ctx, dims).unwrap();
    let sample = vec![v; dims.0 * dims.1 * 3];
    for _ in 0..passes {
        rb.record_pass(&sample).unwrap();
    }
    rb
}

#[test]
fn merging_two_uniform_buffers_yields_the_weighted_mean() {
    let ctx = Context::new(1, 1);
    let dims = (2, 2);
    let a = uniform_buffer(&ctx, dims, 5, 10);
    let b = uniform_buffer(&ctx, dims, 3, 2);
    let mut db = DoubleBuffer::new(&ctx, dims).unwrap();
    let mut acc = Accumulator::new(&ctx).unwrap();
    let total = acc.accumulate(&mut db, &vec![a, b]).unwrap();
    assert_eq!(total, 5 + 3);
    // the pass-weighted arithmetic mean of all merged samples
    for &lane in db.src_buffer() {
        assert_eq!(lane, (5 * 10 + 3 * 2) / 8);
    }
}

#[test]
fn folding_merges_one_source_at_a_time() {
    let ctx = Context::new(1, 1);
    let dims = (2, 1);
    // three sources folded incrementally: the base mean is re-weighted by
    // the passes it already represents at every step
    let a = uniform_buffer(&ctx, dims, 4, 8);
    let b = uniform_buffer(&ctx, dims, 2, 20);
    let c = uniform_buffer(&ctx, dims, 2, 6);
    let mut db = DoubleBuffer::new(&ctx, dims).unwrap();
    let mut acc = Accumulator::new(&ctx).unwrap();
    let total = acc.accumulate(&mut db, &vec![a, b, c]).unwrap();
    assert_eq!(total, 8);
    // step 1: 32/4 = 8; step 2: (8*4 + 40)/6 = 12; step 3: (12*6 + 12)/8 = 10
    for &lane in db.src_buffer() {
        assert_eq!(lane, 10);
    }
}

#[test]
fn cross_context_merge_matches_same_context_merge() {
    let home = Context::new(1, 1);
    let away = Context::new(2, 2);
    let dims = (3, 2);

    let a1 = uniform_buffer(&home, dims, 4, 7);
    let b1 = uniform_buffer(&home, dims, 2, 19);
    let mut db1 = DoubleBuffer::new(&home, dims).unwrap();
    let mut acc1 = Accumulator::new(&home).unwrap();
    acc1.accumulate(&mut db1, &vec![a1, b1]).unwrap();

    // the same data, but the second buffer lives on another context and
    // takes the host-staging round trip
    let a2 = uniform_buffer(&home, dims, 4, 7);
    let b2 = uniform_buffer(&away, dims, 2, 19);
    let mut db2 = DoubleBuffer::new(&home, dims).unwrap();
    let mut acc2 = Accumulator::new(&home).unwrap();
    acc2.accumulate(&mut db2, &vec![a2, b2]).unwrap();

    assert_eq!(db2.src_buffer(), db1.src_buffer());
}

#[test]
fn size_mismatch_is_reported_with_both_sizes() {
    let ctx = Context::new(1, 1);
    let mut db = DoubleBuffer::new(&ctx, (2, 2)).unwrap();
    let mut acc = Accumulator::new(&ctx).unwrap();
    let wrong = uniform_buffer(&ctx, (3, 3), 1, 1);
    let before = db.src_buffer().clone();
    match acc.accumulate(&mut db, &vec![wrong]) {
        Err(clay_core::Error::Dimensions(a, b)) => {
            assert_eq!(a, (2, 2));
            assert_eq!(b, (3, 3));
        },
        _ => panic!("a size mismatch must be refused"),
    }
    assert_eq!(db.src_buffer(), &before);
}

#[test]
fn double_buffer_swap_exchanges_roles_without_copying() {
    let ctx = Context::new(1, 1);
    let mut db = DoubleBuffer::new(&ctx, (1, 1)).unwrap();
    // one merge step over an empty base: the mean of one 1-pass source
    db.merge(&vec![5, 6, 7], 0, 1).unwrap();
    assert_eq!(db.dst_buffer(), &vec![5, 6, 7]);
    assert_eq!(db.src_buffer(), &vec![0, 0, 0]);
    db.swap();
    assert_eq!(db.src_buffer(), &vec![5, 6, 7]);
    assert_eq!(db.dst_buffer(), &vec![0, 0, 0]);
}

#[test]
fn a_merge_step_weights_base_and_source_by_pass_counts() {
    let ctx = Context::new(1, 1);
    let mut db = DoubleBuffer::new(&ctx, (1, 1)).unwrap();
    db.merge(&vec![12, 12, 12], 0, 4).unwrap();
    db.swap();
    // base mean 3 over 4 passes, incoming sum 28 over 4 more: (3*4+28)/8
    db.merge(&vec![28, 28, 28], 4, 4).unwrap();
    assert_eq!(db.dst_buffer(), &vec![5, 5, 5]);
}
