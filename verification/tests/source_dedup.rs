use clay_core::{Source, SourceCache, TypeHash};

struct Leaf;

impl TypeHash for Leaf {
    fn spec_type_hash() -> u64 {
        unreachable!()
    }

    fn type_hash() -> u64 {
        101
    }
}

impl Source for Leaf {
    fn spec_source(_cache: vstd::set::Set<u64>) -> vstd::seq::Seq<char> {
        unreachable!()
    }

    fn source_nocheck(_cache: &mut SourceCache) -> String {
        "leaf-def\n".to_string()
    }
}

struct NodeA;

impl TypeHash for NodeA {
    fn spec_type_hash() -> u64 {
        unreachable!()
    }

    fn type_hash() -> u64 {
        102
    }
}

impl Source for NodeA {
    fn spec_source(_cache: vstd::set::Set<u64>) -> vstd::seq::Seq<char> {
        unreachable!()
    }

    fn source_nocheck(cache: &mut SourceCache) -> String {
        let mut s = Leaf::source(cache);
        s.push_str("node-a\n");
        s
    }
}

struct NodeB;

impl TypeHash for NodeB {
    fn spec_type_hash() -> u64 {
        unreachable!()
    }

    fn type_hash() -> u64 {
        103
    }
}

impl Source for NodeB {
    fn spec_source(_cache: vstd::set::Set<u64>) -> vstd::seq::Seq<char> {
        unreachable!()
    }

    fn source_nocheck(cache: &mut SourceCache) -> String {
        let mut s = Leaf::source(cache);
        s.push_str("node-b\n");
        s
    }
}

struct Root;

impl TypeHash for Root {
    fn spec_type_hash() -> u64 {
        unreachable!()
    }

    fn type_hash() -> u64 {
        104
    }
}

impl Source for Root {
    fn spec_source(_cache: vstd::set::Set<u64>) -> vstd::seq::Seq<char> {
        unreachable!()
    }

    fn source_nocheck(cache: &mut SourceCache) -> String {
        let mut s = NodeA::source(cache);
        s.push_str(&NodeB::source(cache));
        s.push_str("root\n");
        s
    }
}

#[test]
fn diamond_emits_leaf_once() {
    let mut cache = SourceCache::new();
    let text = Root::source(&mut cache);
    assert_eq!(text.matches("leaf-def").count(), 1);
    assert_eq!(text.matches("node-a").count(), 1);
    assert_eq!(text.matches("node-b").count(), 1);
    // first-reachable-wins: the leaf is reached through node A first
    assert!(text.find("leaf-def").unwrap() < text.find("node-a").unwrap());
    assert!(text.find("node-a").unwrap() < text.find("node-b").unwrap());
}

#[test]
fn second_visit_emits_nothing() {
    let mut cache = SourceCache::new();
    let first = Leaf::source(&mut cache);
    assert_eq!(first, "leaf-def\n");
    let second = Leaf::source(&mut cache);
    assert_eq!(second, "");
}

#[test]
fn cache_tracks_visited_identities() {
    let mut cache = SourceCache::new();
    assert!(!cache.contains(101));
    assert!(cache.insert(101));
    assert!(cache.contains(101));
    assert!(!cache.insert(101));
    let emitted = Leaf::source(&mut cache);
    assert_eq!(emitted, "");
}
