use vstd::prelude::*;
use crate::source::SourceCache;
use crate::store::Store;

/// Background of the scene.
pub mod background;

verus! {

/// Something that can be rendered: a collection of objects, responsible
/// for iterating over them, handling secondary rays and whatever rendering
/// technique it implements.
///
/// A scene mirrors its data on the device through [`Store`] and
/// contributes device source to the composed program; the shared build
/// cache keeps every contributing type's source unique.
pub trait Scene: Store {
    /// The source text this scene emits, as contracts see it.  It may
    /// depend on which identities the build has already visited, since
    /// nested types deduplicate through the shared cache.
    spec fn spec_source(cache: Set<u64>) -> Seq<char>;

    /// The visited set the emission leaves behind, as contracts see it.
    spec fn spec_visits(cache: Set<u64>) -> Set<u64>;

    /// Device source of the scene, deduplicated through the build cache.
    fn source(cache: &mut SourceCache) -> (r: String)
        ensures
            old(cache)@.subset_of(final(cache)@),
            r@ == Self::spec_source(old(cache)@),
            final(cache)@ == Self::spec_visits(old(cache)@),
    ;
}

} // verus!
