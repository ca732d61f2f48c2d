use vstd::prelude::*;
use vstd::string::StringExecFns;
use crate::context::Context;
use crate::error::Error;

verus! {

/// The kind of one kernel argument slot, declared once per kernel build.
#[derive(Clone, Copy, PartialEq, Eq, Structural, Debug)]
pub enum ArgKind {
    /// A pair of 32-bit integers, such as the screen size.
    Pair,
    /// One 32-bit integer scalar.
    Scalar,
    /// A device buffer of real-number lanes.
    RealBuffer,
    /// A device buffer of 32-bit random seeds.
    SeedBuffer,
    /// A device buffer of bytes, such as the packed image.
    ByteBuffer,
}

/// One live kernel argument, bound at dispatch time.
///
/// A buffer argument records the length of the buffer it binds; which
/// device memory that is stays with the buffer's owning structure.
#[derive(Clone, Copy, PartialEq, Eq, Structural, Debug)]
pub enum ArgValue {
    Pair(i32, i32),
    Scalar(i32),
    RealBuffer(usize),
    SeedBuffer(usize),
    ByteBuffer(usize),
}

/// The slot kind that a bound argument occupies.
pub open spec fn kind_of(v: ArgValue) -> ArgKind {
    match v {
        ArgValue::Pair(_, _) => ArgKind::Pair,
        ArgValue::Scalar(_) => ArgKind::Scalar,
        ArgValue::RealBuffer(_) => ArgKind::RealBuffer,
        ArgValue::SeedBuffer(_) => ArgKind::SeedBuffer,
        ArgValue::ByteBuffer(_) => ArgKind::ByteBuffer,
    }
}

/// Executable twin of [`kind_of`].
pub fn value_kind(v: &ArgValue) -> (k: ArgKind)
    ensures
        k == kind_of(*v),
{
    match v {
        ArgValue::Pair(_, _) => ArgKind::Pair,
        ArgValue::Scalar(_) => ArgKind::Scalar,
        ArgValue::RealBuffer(_) => ArgKind::RealBuffer,
        ArgValue::SeedBuffer(_) => ArgKind::SeedBuffer,
        ArgValue::ByteBuffer(_) => ArgKind::ByteBuffer,
    }
}

/// The argument list `args` after binding `vals` at offset `i`: the slots
/// `i .. i + vals.len()` hold the new values, every other slot is kept.
pub open spec fn bound_range(
    args: Seq<Option<ArgValue>>,
    i: int,
    vals: Seq<ArgValue>,
) -> Seq<Option<ArgValue>> {
    Seq::new(
        args.len(),
        |j: int|
            if i <= j < i + vals.len() {
                Some(vals[j - i])
            } else {
                args[j]
            },
    )
}

/// A run of declared slots matches the concatenation of two kind lists
/// exactly when its two halves match them one by one.
pub proof fn lemma_decls_split(s: Seq<ArgKind>, i: int, a: Seq<ArgKind>, b: Seq<ArgKind>)
    requires
        0 <= i,
        i + a.len() + b.len() <= s.len(),
    ensures
        s.subrange(i, i + a.len() + b.len()) == a + b <==> (s.subrange(i, i + a.len()) == a
            && s.subrange(i + a.len(), i + a.len() + b.len()) == b),
{
    if s.subrange(i, i + a.len() + b.len()) == a + b {
        assert forall|j: int| 0 <= j < a.len() implies s[i + j] == a[j] by {
            assert(s.subrange(i, i + a.len() + b.len())[j] == (a + b)[j]);
        }
        assert forall|j: int| 0 <= j < b.len() implies s[i + a.len() + j] == b[j] by {
            assert(s.subrange(i, i + a.len() + b.len())[a.len() + j] == (a + b)[a.len() + j]);
        }
        assert(s.subrange(i, i + a.len()) =~= a);
        assert(s.subrange(i + a.len(), i + a.len() + b.len()) =~= b);
    }
    if s.subrange(i, i + a.len()) == a && s.subrange(i + a.len(), i + a.len() + b.len()) == b {
        assert(s.subrange(i, i + a.len() + b.len()) =~= a + b);
    }
}

/// Collects the ordered argument-slot declarations of one kernel build.
pub struct KernelBuilder {
    decls: Vec<ArgKind>,
}

impl View for KernelBuilder {
    type V = Seq<ArgKind>;

    closed spec fn view(&self) -> Seq<ArgKind> {
        self.decls@
    }
}

impl KernelBuilder {
    /// A builder with no slots declared yet.
    pub fn new() -> (kb: KernelBuilder)
        ensures
            kb@ == Seq::<ArgKind>::empty(),
    {
        KernelBuilder { decls: Vec::new() }
    }

    /// Declares the next argument slot.
    pub fn arg(&mut self, kind: ArgKind)
        ensures
            final(self)@ == old(self)@.push(kind),
    {
        self.decls.push(kind);
    }

    /// Number of slots declared so far.
    pub fn len(&self) -> (n: usize)
        ensures
            n == self@.len(),
    {
        self.decls.len()
    }
}

/// One compiled, named entry point together with its declared argument
/// slots and the live values currently bound to them.
///
/// The slot declarations are fixed when the kernel is built; binding writes
/// a value into one declared slot and is refused, before anything reaches
/// the device, if the value's kind does not match the declaration.
pub struct DeviceKernel {
    context: Context,
    entry: String,
    decls: Vec<ArgKind>,
    args: Vec<Option<ArgValue>>,
}

impl DeviceKernel {
    /// The declared slot kinds, as contracts see them.
    pub closed spec fn spec_decls(&self) -> Seq<ArgKind> {
        self.decls@
    }

    /// The bound arguments, as contracts see them.
    pub closed spec fn spec_args(&self) -> Seq<Option<ArgValue>> {
        self.args@
    }

    /// The entry point's name, as contracts see it.
    pub closed spec fn spec_entry(&self) -> Seq<char> {
        self.entry@
    }

    /// The owning context, as contracts see it.
    pub closed spec fn spec_context(&self) -> Context {
        self.context
    }

    /// There is one argument slot per declaration.
    pub open spec fn wf(&self) -> bool {
        self.spec_args().len() == self.spec_decls().len()
    }

    /// A fresh kernel over the given entry point: the slots declared by the
    /// builder, nothing bound yet.
    pub fn assemble(context: &Context, entry: &str, kb: KernelBuilder) -> (k: DeviceKernel)
        ensures
            k.wf(),
            k.spec_decls() == kb@,
            k.spec_entry() == entry@,
            k.spec_context() == *context,
            forall|j: int| 0 <= j < k.spec_args().len() ==> k.spec_args()[j] is None,
    {
        let n = kb.len();
        let mut args: Vec<Option<ArgValue>> = Vec::new();
        let mut i: usize = 0;
        while i < n
            invariant
                i <= n,
                args@.len() == i,
                forall|j: int| 0 <= j < i ==> args@[j] is None,
            decreases n - i,
        {
            args.push(None);
            i += 1;
        }
        DeviceKernel { context: *context, entry: String::from_str(entry), decls: kb.decls, args }
    }

    /// The value bound to slot `i`, if any.
    pub fn arg_at(&self, i: usize) -> (r: Option<ArgValue>)
        requires
            i < self.spec_args().len(),
        ensures
            r == self.spec_args()[i as int],
    {
        self.args[i]
    }

    /// Number of declared argument slots.
    pub fn slots(&self) -> (n: usize)
        ensures
            n == self.spec_decls().len(),
    {
        self.decls.len()
    }

    /// The name of the entry point this kernel dispatches.
    pub fn entry(&self) -> (e: &String)
        ensures
            e@ == self.spec_entry(),
    {
        &self.entry
    }

    /// The context this kernel was compiled against.
    pub fn context(&self) -> (c: &Context)
        ensures
            *c == self.spec_context(),
    {
        &self.context
    }

    /// Binds one value into one declared slot.
    ///
    /// Succeeds exactly when the slot exists and the value's kind matches
    /// its declaration; a mismatch is refused with a backend error and
    /// leaves every binding as it was.
    pub fn set_arg(&mut self, i: usize, v: ArgValue) -> (r: Result<(), Error>)
        requires
            old(self).wf(),
        ensures
            final(self).wf(),
            final(self).spec_decls() == old(self).spec_decls(),
            final(self).spec_entry() == old(self).spec_entry(),
            final(self).spec_context() == old(self).spec_context(),
            r is Ok <==> i < old(self).spec_decls().len() && kind_of(v)
                == old(self).spec_decls()[i as int],
            r is Ok ==> final(self).spec_args() == old(self).spec_args().update(i as int, Some(v)),
            r is Err ==> final(self).spec_args() == old(self).spec_args(),
    {
        if i < self.decls.len() && value_kind(&v) == self.decls[i] {
            self.args.set(i, Some(v));
            Ok(())
        } else {
            Err(Error::Backend(String::from_str("argument kind does not match its declared slot")))
        }
    }
}

/// The declare-then-bind kernel argument schema of a value whose argument
/// count is statically known.
///
/// `args_def` declares each argument's slot once, in build order;
/// `args_set` binds exactly as many live values starting at a caller-given
/// offset, in the same order as declared.  The agreement between the two
/// orders is stated once here, as `args_wf`, and proved by every
/// implementation: a mismatch would leave a kernel running against wrong
/// argument slots with no detection at any later layer.
pub trait Push: Sized {
    /// The slot kinds this schema declares, in build order.
    spec fn spec_decls() -> Seq<ArgKind>;

    /// The live values this value binds, in the same order.
    spec fn spec_args(&self) -> Seq<ArgValue>;

    /// The declared and the bound order agree, slot by slot.
    proof fn args_wf(&self)
        ensures
            self.spec_args().len() == Self::spec_decls().len(),
            forall|j: int|
                0 <= j < Self::spec_decls().len() ==> kind_of(self.spec_args()[j])
                    == Self::spec_decls()[j],
    ;

    /// The fixed argument count of this schema.
    fn args_count() -> (n: usize)
        requires
            Self::spec_decls().len() <= usize::MAX,
        ensures
            n == Self::spec_decls().len(),
    ;

    /// Declares this schema's slots, in order, after whatever the builder
    /// already holds.
    fn args_def(kb: &mut KernelBuilder)
        ensures
            final(kb)@ == old(kb)@ + Self::spec_decls(),
    ;

    /// Binds exactly `args_count()` values starting at slot `i`, in the
    /// declared order.
    ///
    /// Succeeds exactly when the kernel's declared slots at `i` onwards are
    /// this schema's; on failure the slots outside `i .. i + args_count()`
    /// are untouched.
    fn args_set(&mut self, i: usize, k: &mut DeviceKernel) -> (r: Result<(), Error>)
        requires
            old(k).wf(),
            i + Self::spec_decls().len() <= usize::MAX,
        ensures
            *final(self) == *old(self),
            final(k).wf(),
            final(k).spec_decls() == old(k).spec_decls(),
            final(k).spec_entry() == old(k).spec_entry(),
            final(k).spec_context() == old(k).spec_context(),
            final(k).spec_args().len() == old(k).spec_args().len(),
            r is Ok <==> i + Self::spec_decls().len() <= old(k).spec_decls().len() && old(
                k,
            ).spec_decls().subrange(i as int, i + Self::spec_decls().len())
                == Self::spec_decls(),
            r is Ok ==> final(k).spec_args() == bound_range(
                old(k).spec_args(),
                i as int,
                old(self).spec_args(),
            ),
            forall|j: int|
                0 <= j < old(k).spec_args().len() && !(i <= j < i + Self::spec_decls().len())
                    ==> final(k).spec_args()[j] == old(k).spec_args()[j],
    ;
}

/// Dynamic variant of [`Push`], for runtime-polymorphic values whose
/// argument count is not statically known.  The ordering guarantees are
/// identical; the declare/bind agreement is checked per value instead of
/// per type.
pub trait PushDyn: Sized {
    /// The slot kinds this value declares, in build order.
    spec fn dyn_decls(&self) -> Seq<ArgKind>;

    /// The live values this value binds, in the same order.
    spec fn dyn_args(&self) -> Seq<ArgValue>;

    /// The declared and the bound order agree, slot by slot.
    proof fn dyn_args_wf(&self)
        ensures
            self.dyn_args().len() == self.dyn_decls().len(),
            forall|j: int|
                0 <= j < self.dyn_decls().len() ==> kind_of(self.dyn_args()[j])
                    == self.dyn_decls()[j],
    ;

    /// The argument count of this value, fixed at its construction.
    fn args_count(&self) -> (n: usize)
        requires
            self.dyn_decls().len() <= usize::MAX,
        ensures
            n == self.dyn_decls().len(),
    ;

    /// Declares this value's slots, in order, after whatever the builder
    /// already holds.
    fn args_def(&self, kb: &mut KernelBuilder)
        ensures
            final(kb)@ == old(kb)@ + self.dyn_decls(),
    ;

    /// Binds exactly `args_count()` values starting at slot `i`, in the
    /// declared order; mirrors [`Push::args_set`].
    fn args_set(&mut self, i: usize, k: &mut DeviceKernel) -> (r: Result<(), Error>)
        requires
            old(k).wf(),
            i + old(self).dyn_decls().len() <= usize::MAX,
        ensures
            *final(self) == *old(self),
            final(k).wf(),
            final(k).spec_decls() == old(k).spec_decls(),
            final(k).spec_entry() == old(k).spec_entry(),
            final(k).spec_context() == old(k).spec_context(),
            final(k).spec_args().len() == old(k).spec_args().len(),
            r is Ok <==> i + old(self).dyn_decls().len() <= old(k).spec_decls().len() && old(
                k,
            ).spec_decls().subrange(i as int, i + old(self).dyn_decls().len())
                == old(self).dyn_decls(),
            r is Ok ==> final(k).spec_args() == bound_range(
                old(k).spec_args(),
                i as int,
                old(self).dyn_args(),
            ),
            forall|j: int|
                0 <= j < old(k).spec_args().len() && !(i <= j < i + old(self).dyn_decls().len())
                    ==> final(k).spec_args()[j] == old(k).spec_args()[j],
    ;
}

} // verus!
