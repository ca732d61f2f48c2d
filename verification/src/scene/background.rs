use vstd::prelude::*;
use crate::source::SourceCache;
use crate::store::Store;

verus! {

/// Background of the scene: what happens to a ray that has not hit any
/// object.  Mirrors its data on the device and contributes device source
/// like every other composed part.
pub trait Background: Store {
    /// The source text this background emits, as contracts see it.  It may
    /// depend on which identities the build has already visited, since
    /// nested types deduplicate through the shared cache.
    spec fn spec_source(cache: Set<u64>) -> Seq<char>;

    /// The visited set the emission leaves behind, as contracts see it.
    spec fn spec_visits(cache: Set<u64>) -> Set<u64>;

    /// Device source of the background, deduplicated through the build cache.
    fn source(cache: &mut SourceCache) -> (r: String)
        ensures
            old(cache)@.subset_of(final(cache)@),
            r@ == Self::spec_source(old(cache)@),
            final(cache)@ == Self::spec_visits(old(cache)@),
    ;
}

} // verus!
