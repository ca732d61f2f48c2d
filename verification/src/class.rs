use vstd::prelude::*;
use crate::source::Source;

verus! {

/// An interface in device code: a named contract with an ordered list of
/// methods, against which concrete implementations are written.
pub trait Class {
    /// The interface name as contracts see it.
    spec fn spec_name() -> Seq<char>;

    /// The method names as contracts see them.
    spec fn spec_methods() -> Seq<Seq<char>>;

    /// Class name (e.g. `shape`).
    fn name() -> (n: String)
        ensures
            n@ == Self::spec_name(),
    ;

    /// The ordered list of methods of the class.
    fn methods() -> (m: Vec<String>)
        ensures
            m.deep_view() == Self::spec_methods(),
    ;
}

/// A concrete implementation of an interface in device code.
///
/// An instance supplies its own source text (through [`Source`]) and a name
/// under which the interface's methods are resolved on the device.
pub trait Instance<C: Class>: Source + Sized {
    /// The instance name as contracts see it.
    spec fn spec_inst_name() -> Seq<char>;

    /// Name of the instance of the class (e.g. `sphere` as an instance of
    /// the class `shape`).
    fn inst_name() -> (n: String)
        ensures
            n@ == <Self as Instance<C>>::spec_inst_name(),
    ;
}

} // verus!
