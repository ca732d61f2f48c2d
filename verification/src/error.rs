use vstd::prelude::*;
use vstd::string::StringExecFns;
use crate::text::{dec_rep, usize_to_string};

verus! {

/// Why a pipeline operation failed.
///
/// Every fallible operation reports one of these; nothing is retried or
/// swallowed.  A build failure still carries the partial diagnostic log,
/// since that log is the primary tool for diagnosing device-code bugs.
#[derive(Debug)]
pub enum Error {
    /// The device compiler rejected a program; carries the literal
    /// diagnostic text.  Fatal to that program.
    Build(String),
    /// A requested virtual source path could not be served by the hook
    /// chain; carries the path in question.
    Resolution(String),
    /// The device backend failed an allocation, an enqueue or a transfer;
    /// carries the backend's report verbatim.
    Backend(String),
    /// Two sizes that one stage requires to agree did not; carries both,
    /// the stage's own size first.
    Dimensions((usize, usize), (usize, usize)),
}

impl Error {
    /// Renders the failure as one line of text; the payload of the textual
    /// variants is carried over verbatim behind a short label, and a size
    /// mismatch reports both sizes.
    pub fn message(&self) -> (m: String)
        ensures
            match self {
                Error::Build(log) => m@ == "device build failed: "@ + log@,
                Error::Resolution(path) => m@ == "no source hook answers the path: "@ + path@,
                Error::Backend(what) => m@ == "device backend failure: "@ + what@,
                Error::Dimensions(a, b) => m@ == "mismatched sizes handed to one stage: "@
                    + dec_rep(a.0 as int) + "x"@ + dec_rep(a.1 as int) + " against "@ + dec_rep(
                    b.0 as int,
                ) + "x"@ + dec_rep(b.1 as int),
            },
    {
        match self {
            Error::Build(log) => String::from_str("device build failed: ").concat(log.as_str()),
            Error::Resolution(path) => String::from_str("no source hook answers the path: ").concat(
                path.as_str(),
            ),
            Error::Backend(what) => String::from_str("device backend failure: ").concat(
                what.as_str(),
            ),
            Error::Dimensions(a, b) => {
                let mut m = String::from_str("mismatched sizes handed to one stage: ");
                m.append(usize_to_string(a.0).as_str());
                m.append("x");
                m.append(usize_to_string(a.1).as_str());
                m.append(" against ");
                m.append(usize_to_string(b.0).as_str());
                m.append("x");
                m.append(usize_to_string(b.1).as_str());
                m
            },
        }
    }
}

} // verus!
