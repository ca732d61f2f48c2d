use vstd::prelude::*;
use vstd::string::StringExecFns;
use crate::class::{Class, Instance};
use crate::pack::Pack;

verus! {

/// Material of an object: how a ray behaves at the point it has hit.
/// A material packs itself for the device and implements the device-side
/// `material` interface under its instance name.
pub trait Material: Pack + Instance<MaterialClass> {

}

/// The device interface for materials: one method, `apply`.
pub enum MaterialClass {
    /// The interface itself; the type only names it.
    Interface,
}

impl Class for MaterialClass {
    open spec fn spec_name() -> Seq<char> {
        "material"@
    }

    open spec fn spec_methods() -> Seq<Seq<char>> {
        seq!["apply"@]
    }

    fn name() -> (n: String)
        ensures
            n@ == Self::spec_name(),
    {
        String::from_str("material")
    }

    fn methods() -> (m: Vec<String>)
        ensures
            m.deep_view() == Self::spec_methods(),
    {
        let mut m: Vec<String> = Vec::new();
        m.push(String::from_str("apply"));
        proof {
            assert(m.deep_view() =~= Self::spec_methods());
        }
        m
    }
}

} // verus!
