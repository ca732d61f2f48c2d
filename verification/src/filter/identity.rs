use vstd::prelude::*;
use vstd::string::StringExecFns;
use crate::error::Error;
use crate::filter::Filter;
use crate::push::{bound_range, ArgKind, ArgValue, DeviceKernel, KernelBuilder, PushDyn};
use crate::source::SourceCache;

verus! {

/// The default filter: passes every color lane through unchanged and
/// binds no kernel arguments of its own.
pub struct IdentityFilter {}

impl PushDyn for IdentityFilter {
    open spec fn dyn_decls(&self) -> Seq<ArgKind> {
        Seq::empty()
    }

    open spec fn dyn_args(&self) -> Seq<ArgValue> {
        Seq::empty()
    }

    proof fn dyn_args_wf(&self)
        ensures
            self.dyn_args().len() == self.dyn_decls().len(),
            forall|j: int|
                0 <= j < self.dyn_decls().len() ==> crate::push::kind_of(self.dyn_args()[j])
                    == self.dyn_decls()[j],
    {
    }

    fn args_count(&self) -> (n: usize)
        ensures
            n == self.dyn_decls().len(),
    {
        0
    }

    fn args_def(&self, kb: &mut KernelBuilder)
        ensures
            final(kb)@ == old(kb)@ + self.dyn_decls(),
    {
        proof {
            assert(kb@ =~= old(kb)@ + self.dyn_decls());
        }
    }

    fn args_set(&mut self, i: usize, k: &mut DeviceKernel) -> (r: Result<(), Error>)
        ensures
            *final(self) == *old(self),
            final(k).wf(),
            final(k).spec_decls() == old(k).spec_decls(),
            final(k).spec_entry() == old(k).spec_entry(),
            final(k).spec_context() == old(k).spec_context(),
            final(k).spec_args().len() == old(k).spec_args().len(),
            r is Ok <==> i + old(self).dyn_decls().len() <= old(k).spec_decls().len() && old(
                k,
            ).spec_decls().subrange(i as int, i + old(self).dyn_decls().len())
                == old(self).dyn_decls(),
            r is Ok ==> final(k).spec_args() == bound_range(
                old(k).spec_args(),
                i as int,
                old(self).dyn_args(),
            ),
            forall|j: int|
                0 <= j < old(k).spec_args().len() && !(i <= j < i + old(self).dyn_decls().len())
                    ==> final(k).spec_args()[j] == old(k).spec_args()[j],
    {
        if i <= k.slots() {
            proof {
                assert(k.spec_decls().subrange(i as int, i as int) =~= self.dyn_decls());
                assert(k.spec_args() =~= bound_range(k.spec_args(), i as int, self.dyn_args()));
            }
            Ok(())
        } else {
            Err(Error::Backend(String::from_str("binding offset lies beyond the declared slots")))
        }
    }
}

impl Filter for IdentityFilter {
    open spec fn spec_name() -> Seq<char> {
        "identity_filter"@
    }

    open spec fn apply_spec(&self, x: u64) -> u64 {
        x
    }

    fn name() -> (n: String)
        ensures
            n@ == Self::spec_name(),
    {
        String::from_str("identity_filter")
    }

    open spec fn spec_source(cache: Set<u64>) -> Seq<char> {
        "#insert <clay_core/filter/identity.h>\n"@
    }

    open spec fn spec_visits(cache: Set<u64>) -> Set<u64> {
        cache
    }

    fn source(_cache: &mut SourceCache) -> (r: String) {
        String::from_str("#insert <clay_core/filter/identity.h>\n")
    }

    fn apply(&self, x: u64) -> (r: u64)
        ensures
            r == self.apply_spec(x),
    {
        x
    }
}

} // verus!
