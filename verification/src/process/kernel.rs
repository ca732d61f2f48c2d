use vstd::prelude::*;
use core::marker::PhantomData;
use crate::context::Context;
use crate::error::Error;
use crate::program::Program;
use crate::push::{bound_range, DeviceKernel, KernelBuilder, Push};

verus! {

/// A schema that binds the very slots some other schema `T` declares:
/// whoever declared a kernel against `T` may dispatch it with any subtype.
pub trait KernelSubtype<T: Push>: Push {
    /// Both schemas declare the same slots in the same order.
    proof fn subtype_decls()
        ensures
            Self::spec_decls() == T::spec_decls(),
    ;
}

impl<T: Push> KernelSubtype<T> for T {
    proof fn subtype_decls() {
    }
}

/// One compiled, named entry point bound to the argument schema `T`:
/// the kernel's slots are declared from `T` when it is built, and every
/// dispatch binds a full set of live values in the same order.
pub struct Kernel<T: Push> {
    raw: DeviceKernel,
    schema: PhantomData<T>,
}

impl<T: Push> Kernel<T> {
    /// The underlying kernel state, as contracts see it.
    pub closed spec fn spec_kernel(&self) -> DeviceKernel {
        self.raw
    }

    /// The kernel's slots are exactly the schema's declarations.
    pub open spec fn wf(&self) -> bool {
        &&& self.spec_kernel().wf()
        &&& self.spec_kernel().spec_decls() == T::spec_decls()
    }

    /// Builds the program against the context and wraps the named entry
    /// point, its argument slots declared from `T` in build order.  The
    /// device compiler's diagnostic log is returned regardless of success.
    pub fn new(context: &Context, program: &Program, name: &str) -> (r: Result<
        (Kernel<T>, String),
        Error,
    >)
        ensures
            r is Ok,
            r matches Ok((k, log)) ==> k.wf() && k.spec_kernel().spec_entry() == name@
                && k.spec_kernel().spec_context() == *context && (forall|j: int|
                0 <= j < k.spec_kernel().spec_args().len() ==> k.spec_kernel().spec_args()[j]
                    is None),
    {
        let (_built, log) = program.build(context)?;
        let mut kb = KernelBuilder::new();
        T::args_def(&mut kb);
        let raw = DeviceKernel::assemble(context, name, kb);
        Ok((Kernel { raw, schema: PhantomData }, log))
    }

    /// Binds `data` at offset zero and enqueues one dispatch over the
    /// index space `dims`; synchronization stays with the caller.  The
    /// binding always succeeds, since the kernel's slots are the schema's.
    #[allow(unused_variables)]
    pub fn run<S: KernelSubtype<T>>(&mut self, data: &mut S, dims: (usize, usize)) -> (r: Result<
        (),
        Error,
    >)
        requires
            old(self).wf(),
        ensures
            r is Ok,
            final(self).wf(),
            final(self).spec_kernel().spec_decls() == old(self).spec_kernel().spec_decls(),
            final(self).spec_kernel().spec_entry() == old(self).spec_kernel().spec_entry(),
            final(self).spec_kernel().spec_context() == old(self).spec_kernel().spec_context(),
            final(self).spec_kernel().spec_args() == bound_range(
                old(self).spec_kernel().spec_args(),
                0,
                old(data).spec_args(),
            ),
            *final(data) == *old(data),
    {
        let nslots = self.raw.slots();
        proof {
            S::subtype_decls();
            data.args_wf();
            assert(S::spec_decls().len() == nslots);
            assert(self.raw.spec_decls().subrange(0, S::spec_decls().len() as int)
                =~= S::spec_decls());
        }
        data.args_set(0, &mut self.raw)?;
        Ok(())
    }

    /// The underlying kernel state.
    pub fn kernel(&self) -> (k: &DeviceKernel)
        ensures
            *k == self.spec_kernel(),
    {
        &self.raw
    }

    /// The context this kernel was compiled against.
    pub fn context(&self) -> (c: &Context)
        ensures
            *c == self.spec_kernel().spec_context(),
    {
        self.raw.context()
    }
}

} // verus!
