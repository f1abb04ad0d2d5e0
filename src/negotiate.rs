//! Choosing between TLS and plaintext connection attempts by SSL mode.

use vstd::prelude::*;
use crate::error::PgError;

verus! {

/// The client's SSL mode.
#[derive(PartialEq, Eq, Structural, Clone, Copy, Debug)]
pub enum SslMode {
    Disable,
    Prefer,
    Require,
    /// A mode this client does not implement.
    Unimplemented,
}

/// The transport of one connection attempt.
#[derive(PartialEq, Eq, Structural, Clone, Copy, Debug)]
pub enum Transport {
    Tls,
    Plain,
}

/// What the caller is to do next.
#[derive(Debug, PartialEq, Eq)]
pub enum Step {
    /// Try to connect over this transport and report the outcome.
    Attempt(Transport),
    /// The connection over this transport is established.
    Connected(Transport),
    /// No connection can be had.
    Fail(PgError),
}

/// Where a negotiation stands.
#[derive(Debug, PartialEq, Eq)]
pub enum Negotiation {
    /// An attempt over `transport` is under way; `tls_error` holds why an
    /// earlier TLS attempt failed, if one did.
    Trying { mode: SslMode, transport: Transport, tls_error: Option<PgError> },
    Finished,
}

pub open spec fn unimplemented_msg() -> Seq<char> {
    "the requested sslmode is not implemented"@
}

pub open spec fn both_failed_msg() -> Seq<char> {
    "could not connect with TLS nor without it"@
}

/// The first transport a mode tries, if the mode is implemented.
pub open spec fn first_transport(mode: SslMode) -> Option<Transport> {
    match mode {
        SslMode::Disable => Some(Transport::Plain),
        SslMode::Prefer => Some(Transport::Tls),
        SslMode::Require => Some(Transport::Tls),
        SslMode::Unimplemented => None,
    }
}

/// `e` reports that both the TLS attempt (failing with `tls`) and the
/// plaintext one (failing with `plain`) failed, keeping both.
pub open spec fn both_failed(tls: PgError, plain: PgError, e: PgError) -> bool {
    &&& e.msg@ == both_failed_msg()
    &&& e.code is None
    &&& e.inner@ == seq![tls, plain]
}

/// The negotiation starting under `mode` is in state `n` and asks for `s`.
pub open spec fn starts(mode: SslMode, n: Negotiation, s: Step) -> bool {
    match first_transport(mode) {
        Some(t) => n == (Negotiation::Trying { mode, transport: t, tls_error: None })
            && s == Step::Attempt(t),
        None => n is Finished && (s matches Step::Fail(e) && e.msg@ == unimplemented_msg()
            && e.code is None && e.inner@.len() == 0),
    }
}

/// From state `n`, the attempt's `outcome` leads to state `n2` and step `s`.
pub open spec fn advances(n: Negotiation, outcome: Result<(), PgError>, n2: Negotiation, s: Step) -> bool {
    match n {
        Negotiation::Finished => false,
        Negotiation::Trying { mode, transport, tls_error } => match outcome {
            Ok(()) => n2 is Finished && s == Step::Connected(transport),
            Err(e) => if mode == SslMode::Prefer && transport == Transport::Tls {
                n2 == (Negotiation::Trying { mode, transport: Transport::Plain, tls_error: Some(e) })
                    && s == Step::Attempt(Transport::Plain)
            } else {
                &&& n2 is Finished
                &&& match tls_error {
                    Some(te) => s matches Step::Fail(f) && both_failed(te, e, f),
                    None => s == Step::Fail(e),
                }
            },
        },
    }
}

impl Negotiation {
    /// Starts negotiating under `mode`: TLS first under `prefer` and
    /// `require`, plaintext under `disable`; an unimplemented mode fails at once.
    pub fn start(mode: SslMode) -> (r: (Negotiation, Step))
        ensures
            starts(mode, r.0, r.1),
    {
        match mode {
            SslMode::Disable => (
                Negotiation::Trying { mode, transport: Transport::Plain, tls_error: None },
                Step::Attempt(Transport::Plain),
            ),
            SslMode::Prefer | SslMode::Require => (
                Negotiation::Trying { mode, transport: Transport::Tls, tls_error: None },
                Step::Attempt(Transport::Tls),
            ),
            SslMode::Unimplemented => (
                Negotiation::Finished,
                Step::Fail(PgError::new("the requested sslmode is not implemented".to_string())),
            ),
        }
    }

    /// Takes the outcome of the attempt under way: success connects; a
    /// failed TLS attempt under `prefer` is followed by a plaintext one; a
    /// plaintext failure after that reports both failures; any other
    /// failure is reported as it is.
    pub fn advance(self, outcome: Result<(), PgError>) -> (r: (Negotiation, Step))
        requires
            self is Trying,
        ensures
            advances(self, outcome, r.0, r.1),
    {
        match self {
            Negotiation::Finished => (Negotiation::Finished, Step::Fail(PgError::new(String::new()))),
            Negotiation::Trying { mode, transport, tls_error } => match outcome {
                Ok(()) => (Negotiation::Finished, Step::Connected(transport)),
                Err(e) => {
                    if mode == SslMode::Prefer && transport == Transport::Tls {
                        (
                            Negotiation::Trying { mode, transport: Transport::Plain, tls_error: Some(e) },
                            Step::Attempt(Transport::Plain),
                        )
                    } else {
                        match tls_error {
                            Some(te) => {
                                let f = PgError {
                                    msg: "could not connect with TLS nor without it".to_string(),
                                    code: None,
                                    help: None,
                                    inner: vec![te, e],
                                };
                                (Negotiation::Finished, Step::Fail(f))
                            },
                            None => (Negotiation::Finished, Step::Fail(e)),
                        }
                    }
                },
            },
        }
    }
}

/// Under `prefer`, a failed TLS attempt is followed by a plaintext one, and
/// when that succeeds the connection is plaintext.
pub proof fn lemma_prefer_falls_back_to_plain(
    n0: Negotiation,
    s0: Step,
    tls_err: PgError,
    n1: Negotiation,
    s1: Step,
    n2: Negotiation,
    s2: Step,
)
    requires
        starts(SslMode::Prefer, n0, s0),
        advances(n0, Err(tls_err), n1, s1),
        advances(n1, Ok(()), n2, s2),
    ensures
        s0 == Step::Attempt(Transport::Tls),
        s1 == Step::Attempt(Transport::Plain),
        s2 == Step::Connected(Transport::Plain),
{
}

/// Under `prefer`, when the TLS attempt and then the plaintext attempt both
/// fail, the reported error holds both failures, TLS first.
pub proof fn lemma_prefer_keeps_both_failures(
    n0: Negotiation,
    s0: Step,
    tls_err: PgError,
    n1: Negotiation,
    s1: Step,
    plain_err: PgError,
    n2: Negotiation,
    s2: Step,
)
    requires
        starts(SslMode::Prefer, n0, s0),
        advances(n0, Err(tls_err), n1, s1),
        advances(n1, Err(plain_err), n2, s2),
    ensures
        s2 matches Step::Fail(e) && e.inner@ == seq![tls_err, plain_err],
{
}

} // verus!
