use vstd::prelude::*;
use vstd::string::StringExecFns;
use crate::class::{Class, Instance};
use crate::material::MaterialClass;
use crate::pack::Pack;
use crate::shape::ShapeClass;

verus! {

/// An abstract object that can be drawn completely: shape and material in
/// one.  An object packs itself for the device and implements the
/// device-side `object` interface under its instance name.
pub trait Object: Pack + Instance<ObjectClass> {

}

/// The device interface for objects: the shape interface's methods
/// followed by the material interface's.
pub enum ObjectClass {
    /// The interface itself; the type only names it.
    Interface,
}

impl Class for ObjectClass {
    open spec fn spec_name() -> Seq<char> {
        "object"@
    }

    open spec fn spec_methods() -> Seq<Seq<char>> {
        ShapeClass::spec_methods() + MaterialClass::spec_methods()
    }

    fn name() -> (n: String)
        ensures
            n@ == Self::spec_name(),
    {
        String::from_str("object")
    }

    fn methods() -> (m: Vec<String>)
        ensures
            m.deep_view() == Self::spec_methods(),
    {
        let mut m = ShapeClass::methods();
        let mut tail = MaterialClass::methods();
        m.append(&mut tail);
        proof {
            assert(m.deep_view() =~= Self::spec_methods());
        }
        m
    }
}

} // verus!
