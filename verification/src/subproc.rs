//! Reply assembly for the subprocess backend: the helper's captured exit
//! status and output streams become the reply or a structured error.

use vstd::prelude::*;

use crate::errors::{outcome_view, BackendError, BackendErrorV};
use crate::text::{chars_of, string_of, trim_end_chars, trimmed_end};

verus! {

/// What running the helper produced: a non-zero exit is still a completed
/// run, reported here, not a spawn failure.
pub struct RunOutcome {
    pub exit_code: i32,
    pub stdout: String,
    pub stderr: String,
}

/// The mathematical shadow of [`RunOutcome`].
pub ghost struct RunOutcomeV {
    pub exit_code: i32,
    pub stdout: Seq<char>,
    pub stderr: Seq<char>,
}

impl View for RunOutcome {
    type V = RunOutcomeV;

    open spec fn view(&self) -> RunOutcomeV {
        RunOutcomeV { exit_code: self.exit_code, stdout: self.stdout@, stderr: self.stderr@ }
    }
}

/// What the subprocess backend replies: trimmed stdout on exit code zero,
/// the non-zero-exit error carrying stderr otherwise, and the spawn-failure
/// error when the helper never started.
pub open spec fn subprocess_outcome_spec(run: Result<RunOutcomeV, Seq<char>>) -> Result<
    Seq<char>,
    BackendErrorV,
> {
    match run {
        Ok(o) => {
            if o.exit_code == 0 {
                Ok(trimmed_end(o.stdout))
            } else {
                Err(BackendErrorV::SubprocessNonZeroExit { stderr: o.stderr })
            }
        },
        Err(detail) => Err(BackendErrorV::SubprocessSpawnFailure { detail }),
    }
}

/// The spawn result, seen mathematically.
pub open spec fn spawned_view(run: Result<RunOutcome, String>) -> Result<RunOutcomeV, Seq<char>> {
    match run {
        Ok(o) => Ok(o@),
        Err(detail) => Err(detail@),
    }
}

/// The subprocess backend's outcome for a spawn result.
pub fn subprocess_outcome(run: Result<RunOutcome, String>) -> (r: Result<String, BackendError>)
    ensures
        outcome_view(r) == subprocess_outcome_spec(spawned_view(run)),
{
    match run {
        Ok(o) => {
            if o.exit_code == 0 {
                let mut out = chars_of(o.stdout.as_str());
                trim_end_chars(&mut out);
                Ok(string_of(&out))
            } else {
                Err(BackendError::SubprocessNonZeroExit { stderr: o.stderr })
            }
        },
        Err(detail) => Err(BackendError::SubprocessSpawnFailure { detail }),
    }
}

} // verus!
