use vstd::prelude::*;

verus! {

/// Stable per-build identity of a device-visible type.
///
/// The identifier keys the per-build visited set that deduplicates emitted
/// device source, so it must be the same in every build on every machine:
/// each concrete type carries a programmer-assigned 64-bit identifier rather
/// than any language-provided type identity, which need not be stable across
/// target environments.
///
/// Accepted risk: a collision between two distinct types silently drops one
/// type's source.  The 64-bit space is not defended against collisions.
pub trait TypeHash: 'static {
    /// The identifier as contracts see it.
    spec fn spec_type_hash() -> u64;

    /// Returns the type's stable identifier.
    fn type_hash() -> (h: u64)
        ensures
            h == Self::spec_type_hash(),
    ;
}

} // verus!
