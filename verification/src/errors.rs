//! Structured per-prompt errors and their sentinel renderings.
//!
//! Backends surface structured error values; only at the terminal boundary
//! is an error turned into the single-line sentinel string printed in place
//! of a model completion.

use vstd::prelude::*;
use vstd::string::StringExecFns;

verus! {

/// Everything that can go wrong while serving one prompt.
pub enum BackendError {
    /// The HTTP transport failed (network, TLS, or body read).
    Transport { detail: String },
    /// The response JSON lacks the expected field.
    ProtocolShapeMismatch,
    /// The Ollama response produced zero `response` fragments.
    EmptyStream,
    /// The helper process could not be started.
    SubprocessSpawnFailure { detail: String },
    /// The helper process ran but exited with a non-zero status.
    SubprocessNonZeroExit { stderr: String },
    /// `local_framework` is outside the recognized set.
    UnsupportedBackend,
}

/// The mathematical shadow of [`BackendError`].
pub ghost enum BackendErrorV {
    Transport { detail: Seq<char> },
    ProtocolShapeMismatch,
    EmptyStream,
    SubprocessSpawnFailure { detail: Seq<char> },
    SubprocessNonZeroExit { stderr: Seq<char> },
    UnsupportedBackend,
}

impl View for BackendError {
    type V = BackendErrorV;

    open spec fn view(&self) -> BackendErrorV {
        match self {
            BackendError::Transport { detail } => BackendErrorV::Transport { detail: detail@ },
            BackendError::ProtocolShapeMismatch => BackendErrorV::ProtocolShapeMismatch,
            BackendError::EmptyStream => BackendErrorV::EmptyStream,
            BackendError::SubprocessSpawnFailure { detail } => BackendErrorV::SubprocessSpawnFailure {
                detail: detail@,
            },
            BackendError::SubprocessNonZeroExit { stderr } => BackendErrorV::SubprocessNonZeroExit {
                stderr: stderr@,
            },
            BackendError::UnsupportedBackend => BackendErrorV::UnsupportedBackend,
        }
    }
}

/// The sentinel line shown for each failure class: a short tag, followed by
/// a diagnostic excerpt where one exists.
pub open spec fn sentinel_text(e: BackendErrorV) -> Seq<char> {
    match e {
        BackendErrorV::Transport { detail } => "transport failure: "@ + detail,
        BackendErrorV::ProtocolShapeMismatch => "invalid response"@,
        BackendErrorV::EmptyStream => "ollama inference error"@,
        BackendErrorV::SubprocessSpawnFailure { detail } => "subprocess spawn failure: "@ + detail,
        BackendErrorV::SubprocessNonZeroExit { stderr } => "subprocess error: "@ + stderr,
        BackendErrorV::UnsupportedBackend => "unsupported local framework"@,
    }
}

/// The transport's verdict, seen mathematically: the body text it delivered
/// or the diagnostic of its failure.
pub open spec fn fetched_view(fetched: Result<String, String>) -> Result<Seq<char>, Seq<char>> {
    match fetched {
        Ok(body) => Ok(body@),
        Err(detail) => Err(detail@),
    }
}

/// The outcome of one prompt, seen mathematically: the reply text or the
/// structured error.
pub open spec fn outcome_view(r: Result<String, BackendError>) -> Result<Seq<char>, BackendErrorV> {
    match r {
        Ok(s) => Ok(s@),
        Err(e) => Err(e@),
    }
}

/// The line the terminal prints for an outcome: the reply itself, or the
/// sentinel of its error.
pub open spec fn reply_text(r: Result<Seq<char>, BackendErrorV>) -> Seq<char> {
    match r {
        Ok(s) => s,
        Err(e) => sentinel_text(e),
    }
}

/// Renders one error as its sentinel line.
pub fn render_sentinel(e: &BackendError) -> (r: String)
    ensures
        r@ == sentinel_text(e@),
{
    match e {
        BackendError::Transport { detail } => {
            let mut s = String::from_str("transport failure: ");
            s.append(detail.as_str());
            s
        },
        BackendError::ProtocolShapeMismatch => String::from_str("invalid response"),
        BackendError::EmptyStream => String::from_str("ollama inference error"),
        BackendError::SubprocessSpawnFailure { detail } => {
            let mut s = String::from_str("subprocess spawn failure: ");
            s.append(detail.as_str());
            s
        },
        BackendError::SubprocessNonZeroExit { stderr } => {
            let mut s = String::from_str("subprocess error: ");
            s.append(stderr.as_str());
            s
        },
        BackendError::UnsupportedBackend => String::from_str("unsupported local framework"),
    }
}

/// Turns an outcome into the line the terminal prints: the reply, or the
/// sentinel of the error. The terminal never sees the structured error.
pub fn render_reply(r: Result<String, BackendError>) -> (out: String)
    ensures
        out@ == reply_text(outcome_view(r)),
{
    match r {
        Ok(s) => s,
        Err(e) => render_sentinel(&e),
    }
}

} // verus!
