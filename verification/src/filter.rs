use vstd::prelude::*;
use crate::push::PushDyn;
use crate::source::SourceCache;

/// The default pass-through filter.
pub mod identity;

verus! {

/// A pluggable transform over the rendered picture, applied by the
/// postprocessing pipeline between the mean step and the pack step.
///
/// A filter is runtime-polymorphic: it binds its own kernel arguments
/// through [`PushDyn`], contributes its device source under its instance
/// name, and `apply_spec` states the per-lane meaning of its device-side
/// transform, resolved at composition time and never at kernel-execution
/// time.
pub trait Filter: PushDyn {
    /// The filter's instance name as contracts see it.
    spec fn spec_name() -> Seq<char>;

    /// What the filter's transform makes of one color lane.
    spec fn apply_spec(&self, x: u64) -> u64;

    /// The filter's instance name, lower case; the generated device macros
    /// are namespaced by it.
    fn name() -> (n: String)
        ensures
            n@ == Self::spec_name(),
    ;

    /// The source text this filter emits, as contracts see it.  It may
    /// depend on which identities the build has already visited, since
    /// nested types deduplicate through the shared cache.
    spec fn spec_source(cache: Set<u64>) -> Seq<char>;

    /// The visited set the emission leaves behind, as contracts see it.
    spec fn spec_visits(cache: Set<u64>) -> Set<u64>;

    /// Device source of the filter, deduplicated through the build cache.
    fn source(cache: &mut SourceCache) -> (r: String)
        ensures
            old(cache)@.subset_of(final(cache)@),
            r@ == Self::spec_source(old(cache)@),
            final(cache)@ == Self::spec_visits(old(cache)@),
    ;

    /// The host-visible meaning of the filter's device transform, one
    /// color lane at a time.
    fn apply(&self, x: u64) -> (r: u64)
        ensures
            r == self.apply_spec(x),
    ;
}

} // verus!
