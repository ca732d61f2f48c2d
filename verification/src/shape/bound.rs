use vstd::prelude::*;
use vstd::string::StringExecFns;
use crate::class::{Class, Instance};
use crate::pack::Pack;
use crate::shape::Shape;

verus! {

/// A bounding shape: contains the whole of some object inside itself, so
/// the renderer can test it before the object's own intersection code.
pub trait Bound: Pack + Instance<BoundClass> {

}

/// The device interface for bounds: one method, `bound`.
pub enum BoundClass {
    /// The interface itself; the type only names it.
    Interface,
}

impl Class for BoundClass {
    open spec fn spec_name() -> Seq<char> {
        "bound"@
    }

    open spec fn spec_methods() -> Seq<Seq<char>> {
        seq!["bound"@]
    }

    fn name() -> (n: String)
        ensures
            n@ == Self::spec_name(),
    {
        String::from_str("bound")
    }

    fn methods() -> (m: Vec<String>)
        ensures
            m.deep_view() == Self::spec_methods(),
    {
        let mut m: Vec<String> = Vec::new();
        m.push(String::from_str("bound"));
        proof {
            assert(m.deep_view() =~= Self::spec_methods());
        }
        m
    }
}

/// A shape that can be put inside the given bound.
pub trait Bounded<B: Bound> {
    /// Returns the bounding shape instance, or `None` for a borderless
    /// shape that fits into no bound.
    fn bound(&self) -> Option<B>;
}

/// A shape that is itself a bound always fits into itself.
impl<T: Bound + Shape + Clone> Bounded<T> for T {
    fn bound(&self) -> (r: Option<T>)
        ensures
            r is Some,
    {
        Some(self.clone())
    }
}

} // verus!
