use vstd::prelude::*;
use vstd::view::View as VstdView;
use crate::source::SourceCache;
use crate::store::Store;

verus! {

/// The virtual camera: produces the initial rays (backward propagation)
/// and defines their origin and direction.
///
/// A view mirrors its data on the device through [`Store`] and contributes
/// device source to the composed program.
pub trait View: Store {
    /// The source text this view emits, as contracts see it.  It may
    /// depend on which identities the build has already visited, since
    /// nested types deduplicate through the shared cache.
    spec fn spec_source(cache: Set<u64>) -> Seq<char>;

    /// The visited set the emission leaves behind, as contracts see it.
    spec fn spec_visits(cache: Set<u64>) -> Set<u64>;

    /// Device source of the view, deduplicated through the build cache.
    fn source(cache: &mut SourceCache) -> (r: String)
        ensures
            old(cache)@.subset_of(final(cache)@),
            r@ == Self::spec_source(old(cache)@),
            final(cache)@ == Self::spec_visits(old(cache)@),
    ;
}

} // verus!
