//! Reference backends of the capability contract.
//!
//! [`NullBackend`] implements nothing: every operation keeps the contract's
//! default. [`CannedHttpBackend`] overrides exactly one operation,
//! `http_request`, answering every request with a fixed response; it stands
//! in for a transport in tests and shows that overriding one operation
//! leaves every other operation at its default.

use vstd::prelude::*;

use crate::contract::Extio;
use crate::error::IoError;
use crate::http::HttpRequest;
use crate::http::HttpResponse;
use crate::op::Op;

verus! {

/// The error type of backends that never report a failure of their own.
/// No value of practical interest exists: such a backend either succeeds or
/// declines an operation as not supported.
#[derive(Clone, Copy, Debug, PartialEq, Eq, Structural)]
pub struct NoError;

/// A backend that implements no operation at all. Every call except `now`
/// resolves to the "not supported" failure; `now` still reads the system
/// clock, as the contract's default prescribes.
pub struct NullBackend;

impl NullBackend {
    /// A backend with the empty capability subset.
    pub fn new() -> (b: NullBackend) {
        NullBackend
    }
}

impl Extio for NullBackend {
    type Error = NoError;

    /// The empty capability subset.
    open spec fn supports(op: Op) -> bool {
        false
    }
}

/// No operation is in [`NullBackend`]'s capability subset, so by the
/// contract every operation on it resolves to the "not supported" failure
/// naming that operation — never a panic and never a disguised success.
pub proof fn lemma_null_backend_declines_every_op(op: Op)
    ensures
        !<NullBackend as Extio>::supports(op),
{
}

/// A backend that overrides exactly one operation: every `http_request`
/// answers with a fixed response, standing in for what a transport returned.
pub struct CannedHttpBackend {
    pub response: HttpResponse,
}

impl CannedHttpBackend {
    /// A backend that will answer every HTTP request with `response`.
    pub fn new(response: HttpResponse) -> (b: CannedHttpBackend)
        ensures
            b.response == response,
    {
        CannedHttpBackend { response }
    }
}

impl Extio for CannedHttpBackend {
    type Error = NoError;

    /// Exactly one capability: the HTTP exchange.
    open spec fn supports(op: Op) -> bool {
        op is HttpRequest
    }

    /// Answers with the canned response: status, headers and bytes exactly
    /// as stored, nothing lost or reordered, and the backend unchanged.
    fn http_request(&mut self, req: HttpRequest) -> (r: Result<HttpResponse, IoError<NoError>>)
        ensures
            r matches Ok(resp) && resp@ == old(self).response@,
            *final(self) == *old(self),
    {
        Ok(self.response.duplicate())
    }
}

/// Overriding one operation satisfies no other: every operation outside the
/// single capability of [`CannedHttpBackend`] stays outside its subset, so
/// by the contract it still resolves to the "not supported" failure.
pub proof fn lemma_single_override_declines_the_rest(op: Op)
    requires
        op !is HttpRequest,
    ensures
        !<CannedHttpBackend as Extio>::supports(op),
{
}

} // verus!
