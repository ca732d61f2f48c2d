use vstd::prelude::*;
use vstd::string::StringExecFns;
use crate::class::{Class, Instance};
use crate::pack::Pack;

/// Bounding shapes.
pub mod bound;
/// A concrete shape: the sphere.
pub mod sphere;

verus! {

/// Shape of an object: defines the search for the point where a ray
/// intersects it.  A shape packs itself for the device and implements the
/// device-side `shape` interface under its instance name.
pub trait Shape: Pack + Instance<ShapeClass> {

}

/// The device interface for shapes: one method, `hit`.
pub enum ShapeClass {
    /// The interface itself; the type only names it.
    Interface,
}

impl Class for ShapeClass {
    open spec fn spec_name() -> Seq<char> {
        "shape"@
    }

    open spec fn spec_methods() -> Seq<Seq<char>> {
        seq!["hit"@]
    }

    fn name() -> (n: String)
        ensures
            n@ == Self::spec_name(),
    {
        String::from_str("shape")
    }

    fn methods() -> (m: Vec<String>)
        ensures
            m.deep_view() == Self::spec_methods(),
    {
        let mut m: Vec<String> = Vec::new();
        m.push(String::from_str("hit"));
        proof {
            assert(m.deep_view() =~= Self::spec_methods());
        }
        m
    }
}

} // verus!
