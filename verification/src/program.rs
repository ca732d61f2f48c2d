use vstd::prelude::*;
use vstd::string::StringExecFns;
use crate::context::Context;
use crate::error::Error;
use crate::text::str_eq;

verus! {

/// What a hook chain answers for one virtual path: the text of the first
/// fragment registered under it, if any.
pub open spec fn mem_lookup(files: Seq<(Seq<char>, Seq<char>)>, p: Seq<char>) -> Option<Seq<char>>
    decreases files.len(),
{
    if files.len() == 0 {
        None
    } else if files[0].0 == p {
        Some(files[0].1)
    } else {
        mem_lookup(files.skip(1), p)
    }
}

/// What a chain of hooks answers for one virtual path: the first hook that
/// holds the path wins.
pub open spec fn chain_lookup(
    chain: Seq<Seq<(Seq<char>, Seq<char>)>>,
    p: Seq<char>,
) -> Option<Seq<char>>
    decreases chain.len(),
{
    if chain.len() == 0 {
        None
    } else {
        match mem_lookup(chain[0], p) {
            Some(t) => Some(t),
            None => chain_lookup(chain.skip(1), p),
        }
    }
}

/// A source-resolution hook over in-memory fragments: an ordered registry
/// of virtual paths and their text.
pub struct MemHook {
    files: Vec<(String, String)>,
}

impl View for MemHook {
    type V = Seq<(Seq<char>, Seq<char>)>;

    closed spec fn view(&self) -> Seq<(Seq<char>, Seq<char>)> {
        self.files@.map_values(|f: (String, String)| (f.0@, f.1@))
    }
}

impl MemHook {
    /// A hook with no fragments yet.
    pub fn new() -> (h: MemHook)
        ensures
            h@ == Seq::<(Seq<char>, Seq<char>)>::empty(),
    {
        let h = MemHook { files: Vec::new() };
        proof {
            assert(h@ =~= Seq::<(Seq<char>, Seq<char>)>::empty());
        }
        h
    }

    /// The text registered under the given path, if any.
    pub fn lookup(&self, path: &str) -> (r: Option<&String>)
        ensures
            match r {
                Some(t) => mem_lookup(self@, path@) == Some(t@),
                None => mem_lookup(self@, path@) is None,
            },
    {
        let n = self.files.len();
        let mut i: usize = 0;
        proof {
            assert(self@.skip(0) =~= self@);
        }
        while i < n
            invariant
                n == self.files@.len(),
                self@.len() == n,
                i <= n,
                forall|j: int| 0 <= j < self@.len() ==> self@[j] == (self.files@[j].0@, self.files@[j].1@),
                mem_lookup(self@, path@) == mem_lookup(self@.skip(i as int), path@),
            decreases n - i,
        {
            proof {
                assert(self@.skip(i as int)[0] == self@[i as int]);
                assert(self@.skip(i as int).skip(1) =~= self@.skip(i + 1));
            }
            if str_eq(self.files[i].0.as_str(), path) {
                return Some(&self.files[i].1);
            }
            i += 1;
        }
        proof {
            assert(self@.skip(n as int) =~= Seq::<(Seq<char>, Seq<char>)>::empty());
        }
        None
    }

    /// Registers the text of one fragment under a virtual path.
    ///
    /// Succeeds exactly when the path is not taken yet; a second fragment
    /// under the same path is refused, naming the path, so that every path
    /// this hook serves has one well-defined answer.
    pub fn add_file(&mut self, path: &str, text: &str) -> (r: Result<(), Error>)
        ensures
            r is Ok <==> mem_lookup(old(self)@, path@) is None,
            r is Ok ==> final(self)@ == old(self)@.push((path@, text@)),
            r is Err ==> final(self)@ == old(self)@ && (r matches Err(e) ==> e matches
                Error::Resolution(p) && p@ == path@),
    {
        match self.lookup(path) {
            Some(_) => Err(Error::Resolution(String::from_str(path))),
            None => {
                self.files.push((String::from_str(path), String::from_str(text)));
                proof {
                    assert(self@ =~= old(self)@.push((path@, text@)));
                }
                Ok(())
            },
        }
    }
}

/// An ordered chain of source-resolution hooks; the first hook that serves
/// a path answers it.
pub struct ListHook {
    hooks: Vec<MemHook>,
}

impl View for ListHook {
    type V = Seq<Seq<(Seq<char>, Seq<char>)>>;

    closed spec fn view(&self) -> Seq<Seq<(Seq<char>, Seq<char>)>> {
        self.hooks@.map_values(|h: MemHook| h@)
    }
}

impl ListHook {
    /// A chain with no hooks yet.
    pub fn new() -> (h: ListHook)
        ensures
            h@ == Seq::<Seq<(Seq<char>, Seq<char>)>>::empty(),
    {
        let h = ListHook { hooks: Vec::new() };
        proof {
            assert(h@ =~= Seq::<Seq<(Seq<char>, Seq<char>)>>::empty());
        }
        h
    }

    /// Appends one hook to the chain; earlier hooks keep priority.
    pub fn add_hook(&mut self, hook: MemHook)
        ensures
            final(self)@ == old(self)@.push(hook@),
    {
        self.hooks.push(hook);
        proof {
            assert(self@ =~= old(self)@.push(self.hooks@[self.hooks@.len() - 1]@));
        }
    }

    /// Answers one virtual-path lookup against the chain.
    ///
    /// Fails with the missing path named, never with empty text.
    pub fn resolve(&self, path: &str) -> (r: Result<String, Error>)
        ensures
            r is Ok <==> chain_lookup(self@, path@) is Some,
            r matches Ok(t) ==> chain_lookup(self@, path@) == Some(t@),
            r matches Err(e) ==> e matches Error::Resolution(p) && p@ == path@,
    {
        let n = self.hooks.len();
        let mut i: usize = 0;
        proof {
            assert(self@.skip(0) =~= self@);
        }
        while i < n
            invariant
                n == self.hooks@.len(),
                self@.len() == n,
                i <= n,
                forall|j: int| 0 <= j < self@.len() ==> self@[j] == self.hooks@[j]@,
                chain_lookup(self@, path@) == chain_lookup(self@.skip(i as int), path@),
            decreases n - i,
        {
            proof {
                assert(self@.skip(i as int)[0] == self@[i as int]);
                assert(self@.skip(i as int).skip(1) =~= self@.skip(i + 1));
            }
            match self.hooks[i].lookup(path) {
                Some(t) => {
                    return Ok(t.clone());
                },
                None => {},
            }
            i += 1;
        }
        proof {
            assert(self@.skip(n as int) =~= Seq::<Seq<(Seq<char>, Seq<char>)>>::empty());
        }
        Err(Error::Resolution(String::from_str(path)))
    }
}

/// Registering one more fragment leaves every earlier answer in place;
/// only a path that had no answer yet gains the new fragment's text.
pub proof fn lemma_mem_lookup_push(
    files: Seq<(Seq<char>, Seq<char>)>,
    q: Seq<char>,
    t: Seq<char>,
    p: Seq<char>,
)
    ensures
        mem_lookup(files.push((q, t)), p) == (if mem_lookup(files, p) is Some {
            mem_lookup(files, p)
        } else if q == p {
            Some(t)
        } else {
            None::<Seq<char>>
        }),
    decreases files.len(),
{
    if files.len() == 0 {
        assert(files.push((q, t))[0] == (q, t));
        assert(files.push((q, t)).skip(1) =~= Seq::<(Seq<char>, Seq<char>)>::empty());
        assert(mem_lookup(Seq::<(Seq<char>, Seq<char>)>::empty(), p) is None);
    } else {
        assert(files.push((q, t))[0] == files[0]);
        assert(files.push((q, t)).skip(1) =~= files.skip(1).push((q, t)));
        lemma_mem_lookup_push(files.skip(1), q, t, p);
    }
}

/// Appending one more hook to a chain leaves every answered path
/// answered as before; only a path no earlier hook served gains the new
/// hook's answer.
pub proof fn lemma_chain_lookup_push(
    chain: Seq<Seq<(Seq<char>, Seq<char>)>>,
    h: Seq<(Seq<char>, Seq<char>)>,
    p: Seq<char>,
)
    ensures
        chain_lookup(chain.push(h), p) == (if chain_lookup(chain, p) is Some {
            chain_lookup(chain, p)
        } else {
            mem_lookup(h, p)
        }),
    decreases chain.len(),
{
    if chain.len() == 0 {
        assert(chain.push(h)[0] == h);
        assert(chain.push(h).skip(1) =~= Seq::<Seq<(Seq<char>, Seq<char>)>>::empty());
        assert(chain_lookup(Seq::<Seq<(Seq<char>, Seq<char>)>>::empty(), p) is None);
    } else {
        assert(chain.push(h)[0] == chain[0]);
        assert(chain.push(h).skip(1) =~= chain.skip(1).push(h));
        lemma_chain_lookup_push(chain.skip(1), h, p);
    }
}

/// The built-in device source tree: the entry fragments of the render,
/// mean, filter and pack kernels and the default filter's header, each
/// under its virtual path.  The kernel text itself is the device
/// language's business and opaque here.
pub fn core_source() -> (h: MemHook)
    ensures
        mem_lookup(h@, "clay_core/render.c"@) is Some,
        mem_lookup(h@, "clay_core/mean.c"@) is Some,
        mem_lookup(h@, "clay_core/pack.c"@) is Some,
        mem_lookup(h@, "clay_core/filter.c"@) is Some,
        mem_lookup(h@, "clay_core/filter/identity.h"@) is Some,
{
    let mut h = MemHook::new();
    proof {
        reveal_strlit("clay_core/render.c");
        reveal_strlit("clay_core/mean.c");
        reveal_strlit("clay_core/pack.c");
        reveal_strlit("clay_core/filter.c");
        reveal_strlit("clay_core/filter/identity.h");
    }
    let ghost paths: Seq<Seq<char>> = seq![
        "clay_core/render.c"@,
        "clay_core/mean.c"@,
        "clay_core/pack.c"@,
        "clay_core/filter.c"@,
        "clay_core/filter/identity.h"@,
    ];
    let ghost s0 = h@;
    let _r0 = h.add_file(
        "clay_core/render.c",
        "#insert <__gen/scene.h>\n#insert <__gen/view.h>\nkernel void render() {}\n",
    );
    proof {
        assert(("clay_core/render.c"@)[10] != ("clay_core/filter.c"@)[10]);
        assert(("clay_core/mean.c"@)[10] != ("clay_core/pack.c"@)[10]);
        assert(("clay_core/filter.c"@).len() == 18);
        assert(("clay_core/filter/identity.h"@).len() == 27);
        assert(mem_lookup(s0, "clay_core/render.c"@) is None);
        assert forall|m: int| 0 <= m < 5 implies (m <= 0 ==> mem_lookup(h@, paths[m]) is Some)
            && (m > 0 ==> mem_lookup(h@, paths[m]) is None) by {
            assert(mem_lookup(s0, paths[m]) is None);
            lemma_mem_lookup_push(
                s0,
                paths[0],
                "#insert <__gen/scene.h>\n#insert <__gen/view.h>\nkernel void render() {}\n"@,
                paths[m],
            );
        }
    }
    let ghost s1 = h@;
    let _r1 = h.add_file("clay_core/mean.c", "kernel void mean() {}\n");
    proof {
        assert forall|m: int| 0 <= m < 5 implies (m <= 1 ==> mem_lookup(h@, paths[m]) is Some)
            && (m > 1 ==> mem_lookup(h@, paths[m]) is None) by {
            lemma_mem_lookup_push(s1, paths[1], "kernel void mean() {}\n"@, paths[m]);
        }
    }
    let ghost s2 = h@;
    let _r2 = h.add_file("clay_core/pack.c", "kernel void pack() {}\n");
    proof {
        assert forall|m: int| 0 <= m < 5 implies (m <= 2 ==> mem_lookup(h@, paths[m]) is Some)
            && (m > 2 ==> mem_lookup(h@, paths[m]) is None) by {
            lemma_mem_lookup_push(s2, paths[2], "kernel void pack() {}\n"@, paths[m]);
        }
    }
    let ghost s3 = h@;
    let _r3 = h.add_file(
        "clay_core/filter.c",
        "#insert <__gen/filter.h>\nkernel void filter() {}\n",
    );
    proof {
        assert forall|m: int| 0 <= m < 5 implies (m <= 3 ==> mem_lookup(h@, paths[m]) is Some)
            && (m > 3 ==> mem_lookup(h@, paths[m]) is None) by {
            lemma_mem_lookup_push(
                s3,
                paths[3],
                "#insert <__gen/filter.h>\nkernel void filter() {}\n"@,
                paths[m],
            );
        }
    }
    let ghost s4 = h@;
    let _r4 = h.add_file(
        "clay_core/filter/identity.h",
        "#define IDENTITY_FILTER_ARGS_DEF\n#define IDENTITY_FILTER_ARGS\n#define identity_filter_apply(c) (c)\n",
    );
    proof {
        assert forall|m: int| 0 <= m < 5 implies mem_lookup(h@, paths[m]) is Some by {
            lemma_mem_lookup_push(
                s4,
                paths[4],
                "#define IDENTITY_FILTER_ARGS_DEF\n#define IDENTITY_FILTER_ARGS\n#define identity_filter_apply(c) (c)\n"@,
                paths[m],
            );
        }
    }
    h
}

/// A device program: the entry fragment's resolved text together with the
/// include-resolution chain that answers the device compiler's lookups.
/// Immutable once built; compiling it against a context is repeatable and
/// must be redone per distinct context.
pub struct Program {
    hooks: ListHook,
    root: String,
    text: String,
}

/// One program compiled against one context.
pub struct BuiltProgram {
    context: Context,
    text: String,
}

impl BuiltProgram {
    /// The context the program was compiled against.
    pub closed spec fn spec_context(&self) -> Context {
        self.context
    }

    /// The compiled text, as contracts see it.
    pub closed spec fn spec_text(&self) -> Seq<char> {
        self.text@
    }
}

impl Program {
    /// The resolution chain, as contracts see it.
    pub closed spec fn spec_chain(&self) -> Seq<Seq<(Seq<char>, Seq<char>)>> {
        self.hooks@
    }

    /// The entry path, as contracts see it.
    pub closed spec fn spec_root(&self) -> Seq<char> {
        self.root@
    }

    /// The entry fragment's text, as contracts see it.
    pub closed spec fn spec_text(&self) -> Seq<char> {
        self.text@
    }

    /// Resolves the entry fragment under `root` against the hook chain.
    ///
    /// Succeeds exactly when the chain serves the entry path; otherwise the
    /// missing path is named in the error.
    pub fn new(hooks: ListHook, root: &str) -> (r: Result<Program, Error>)
        ensures
            r is Ok <==> chain_lookup(hooks@, root@) is Some,
            r matches Ok(p) ==> p.spec_chain() == hooks@ && p.spec_root() == root@
                && chain_lookup(hooks@, root@) == Some(p.spec_text()),
            r matches Err(e) ==> e matches Error::Resolution(missing) && missing@ == root@,
    {
        let text = hooks.resolve(root)?;
        Ok(Program { hooks, root: String::from_str(root), text })
    }

    /// Answers one virtual-path lookup on behalf of the device compiler.
    pub fn resolve(&self, path: &str) -> (r: Result<String, Error>)
        ensures
            r is Ok <==> chain_lookup(self.spec_chain(), path@) is Some,
            r matches Ok(t) ==> chain_lookup(self.spec_chain(), path@) == Some(t@),
            r matches Err(e) ==> e matches Error::Resolution(p) && p@ == path@,
    {
        self.hooks.resolve(path)
    }

    /// The entry fragment's resolved text.
    pub fn text(&self) -> (t: &String)
        ensures
            t@ == self.spec_text(),
    {
        &self.text
    }

    /// Compiles the program against one context.
    ///
    /// The verdict and the human-readable diagnostic log come from the
    /// device compiler, which is the backend's business: the host model
    /// records acceptance and an empty log.  The log is returned regardless
    /// of success, since device compilers routinely warn on success.
    pub fn build(&self, context: &Context) -> (r: Result<(BuiltProgram, String), Error>)
        ensures
            r is Ok,
            r matches Ok((b, log)) ==> b.spec_context() == *context && b.spec_text()
                == self.spec_text() && log@ == Seq::<char>::empty(),
    {
        Ok((BuiltProgram { context: *context, text: self.text.clone() }, String::new()))
    }
}

} // verus!
