use clay_core::{core_source, Context, Error, ListHook, MemHook, Program};

#[test]
fn missing_path_is_named_never_empty() {
    let hooks = ListHook::new();
    match hooks.resolve("nowhere.c") {
        Err(Error::Resolution(p)) => {
            assert_eq!(p, "nowhere.c");
            let msg = Error::Resolution(p).message();
            assert_eq!(msg, "no source hook answers the path: nowhere.c");
        },
        _ => panic!("an unserved path must be named"),
    }
}

#[test]
fn duplicate_fragment_is_refused() {
    let mut hook = MemHook::new();
    hook.add_file("a.h", "one").unwrap();
    match hook.add_file("a.h", "two") {
        Err(Error::Resolution(p)) => assert_eq!(p, "a.h"),
        _ => panic!("a second fragment under one path must be refused"),
    }
    assert_eq!(hook.lookup("a.h").unwrap(), "one");
}

#[test]
fn first_hook_in_the_chain_wins() {
    let mut first = MemHook::new();
    first.add_file("x.h", "from-first").unwrap();
    let mut second = MemHook::new();
    second.add_file("x.h", "from-second").unwrap();
    second.add_file("y.h", "only-second").unwrap();
    let mut chain = ListHook::new();
    chain.add_hook(first);
    chain.add_hook(second);
    assert_eq!(chain.resolve("x.h").unwrap(), "from-first");
    assert_eq!(chain.resolve("y.h").unwrap(), "only-second");
}

#[test]
fn core_tree_serves_every_entry_fragment() {
    let core = core_source();
    for path in [
        "clay_core/render.c",
        "clay_core/mean.c",
        "clay_core/pack.c",
        "clay_core/filter.c",
        "clay_core/filter/identity.h",
    ] {
        assert!(core.lookup(path).is_some(), "missing {}", path);
    }
    assert!(core.lookup("clay_core/other.c").is_none());
}

#[test]
fn program_compiles_repeatably_per_context() {
    let mut chain = ListHook::new();
    chain.add_hook(core_source());
    let program = Program::new(chain, "clay_core/mean.c").unwrap();
    let c1 = Context::new(1, 1);
    let c2 = Context::new(2, 2);
    let (_b1, log1) = program.build(&c1).unwrap();
    let (_b2, log2) = program.build(&c2).unwrap();
    assert_eq!(log1, "");
    assert_eq!(log2, "");
    assert_eq!(program.text(), core_source().lookup("clay_core/mean.c").unwrap());
}

#[test]
fn error_messages_carry_their_payload_verbatim() {
    let b = Error::Build("warning: x".to_string());
    assert_eq!(b.message(), "device build failed: warning: x");
    let k = Error::Backend("queue lost".to_string());
    assert_eq!(k.message(), "device backend failure: queue lost");
    let d = Error::Dimensions((1, 2), (3, 4));
    assert_eq!(d.message(), "mismatched sizes handed to one stage: 1x2 against 3x4");
    let wide = Error::Dimensions((1920, 1080), (640, 480));
    assert_eq!(wide.message(), "mismatched sizes handed to one stage: 1920x1080 against 640x480");
}
