use vstd::prelude::*;
use crate::type_hash::TypeHash;

verus! {

/// The per-build visited set of the source-composition system.
///
/// One cache threads through one build; it records the identity of every
/// type whose device source has already been emitted, so that a type that is
/// reachable through several composition paths contributes its definition
/// exactly once.
pub struct SourceCache {
    ids: Vec<u64>,
}

impl View for SourceCache {
    type V = Set<u64>;

    closed spec fn view(&self) -> Set<u64> {
        Set::new(|x: u64| self.ids@.contains(x))
    }
}

impl SourceCache {
    /// An empty cache: the start of one build.
    pub fn new() -> (c: SourceCache)
        ensures
            c@ == Set::<u64>::empty(),
    {
        let c = SourceCache { ids: Vec::new() };
        proof {
            assert(c@ =~= Set::<u64>::empty());
        }
        c
    }

    /// Whether the type with this identity has already emitted its source.
    pub fn contains(&self, id: u64) -> (b: bool)
        ensures
            b == self@.contains(id),
    {
        let mut i: usize = 0;
        while i < self.ids.len()
            invariant
                i <= self.ids.len(),
                forall|j: int| 0 <= j < i ==> self.ids@[j] != id,
            decreases self.ids.len() - i,
        {
            if self.ids[i] == id {
                return true;
            }
            i += 1;
        }
        false
    }

    /// Marks the identity as visited.  Returns whether it was fresh: a
    /// second insertion of the same identity changes nothing and answers
    /// `false`, which is the dedup short-circuit.
    pub fn insert(&mut self, id: u64) -> (fresh: bool)
        ensures
            final(self)@ == old(self)@.insert(id),
            fresh == !old(self)@.contains(id),
    {
        if self.contains(id) {
            proof {
                assert(self@ =~= self@.insert(id));
            }
            false
        } else {
            self.ids.push(id);
            proof {
                broadcast use vstd::seq_lib::lemma_seq_contains_after_push;

                assert(self@ =~= old(self)@.insert(id));
            }
            true
        }
    }
}

/// Something that has associated device source code.
///
/// Source is requested recursively over a composition graph while a single
/// mutable [`SourceCache`] threads through the build.  The first visit of a
/// type emits its source; every later visit emits nothing and leaves the
/// cache unchanged, so each concrete type contributes exactly one definition
/// per build, in deterministic first-reachable-wins order.
pub trait Source: TypeHash {
    /// The text this type emits when it is visited, as contracts see it.
    /// It may depend on which identities the build has already visited,
    /// since nested types deduplicate through the shared cache.
    spec fn spec_source(cache: Set<u64>) -> Seq<char>;

    /// Returns the associated device source, once per build.
    ///
    /// The first visit emits the type's own source, with its identity
    /// freshly in the cache; if the identity is already in `cache`, the
    /// empty string is returned and the cache is left as it was.
    fn source(cache: &mut SourceCache) -> (r: String)
        ensures
            final(cache)@.contains(Self::spec_type_hash()),
            old(cache)@.subset_of(final(cache)@),
            old(cache)@.contains(Self::spec_type_hash()) ==> r@ == Seq::<char>::empty()
                && final(cache)@ == old(cache)@,
            !old(cache)@.contains(Self::spec_type_hash()) ==> r@ == Self::spec_source(
                old(cache)@.insert(Self::spec_type_hash()),
            ),
    {
        if !cache.insert(Self::type_hash()) {
            proof {
                assert(old(cache)@.insert(Self::spec_type_hash()) =~= old(cache)@);
            }
            String::new()
        } else {
            let r = Self::source_nocheck(cache);
            r
        }
    }

    /// Returns the associated device source without consulting the cache
    /// for this type itself; nested types still deduplicate through it.
    fn source_nocheck(cache: &mut SourceCache) -> (r: String)
        ensures
            old(cache)@.subset_of(final(cache)@),
            r@ == Self::spec_source(old(cache)@),
    ;
}

} // verus!
