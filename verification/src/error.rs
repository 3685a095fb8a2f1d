//! I/O error classification.
//!
//! The server reports an I/O failure together with a short label for the
//! operation that failed, so a failure is diagnosable without a stack trace.
//! Only the failure's kind decides the HTTP status: a missing file is the
//! client's problem, anything else is the server's.

use vstd::prelude::*;

verus! {

/// The part of an underlying I/O failure that the response policy reads.
#[derive(Clone, Copy, Debug, PartialEq, Eq, Structural)]
pub enum IoKind {
    /// The file or directory does not exist.
    NotFound,
    /// Any other I/O failure.
    Other,
}

/// An I/O failure wrapped with a human-readable label of the operation that
/// raised it ("opening thumbnail output", "reading metadata", ...).
#[derive(Clone, Copy, Debug)]
pub struct Io {
    pub context: &'static str,
    pub kind: IoKind,
}

/// Attaches an operation label to an I/O failure.
pub fn io_ctx(context: &'static str, kind: IoKind) -> (r: Io)
    ensures
        r.context == context,
        r.kind == kind,
{
    Io { context, kind }
}

/// HTTP status for an I/O failure: a missing file is 404, anything else 500.
pub open spec fn spec_io_status(kind: IoKind) -> u16 {
    match kind {
        IoKind::NotFound => 404u16,
        IoKind::Other => 500u16,
    }
}

impl Io {
    /// The HTTP status this failure maps to.
    pub fn status(&self) -> (s: u16)
        ensures
            s == spec_io_status(self.kind),
    {
        match self.kind {
            IoKind::NotFound => 404,
            IoKind::Other => 500,
        }
    }
}

} // verus!
