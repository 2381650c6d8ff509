use vstd::prelude::*;

use crate::error::{TessError, TessResult};
use crate::text::{spec_lines, split_lines};

verus! {

/// What one finished child process left behind: its exit code (absent when
/// the process was ended by a signal), the platform's rendering of the whole
/// exit status, and the fully captured, already decoded output streams.
#[derive(Debug, Clone)]
pub struct ProcessOutcome {
    pub code: Option<i32>,
    pub status: String,
    pub stdout: String,
    pub stderr: String,
}

impl ProcessOutcome {
    /// Exit code zero is success; anything else, a signal included, is failure.
    pub open spec fn is_success(&self) -> bool {
        self.code == Some(0i32)
    }
}

/// Exactly the classification a caller may rely on: success carries the raw
/// standard output, unmodified; failure carries the stringified status and
/// the captured standard error.
pub open spec fn classified(outcome: ProcessOutcome, r: TessResult<String>) -> bool {
    match r {
        Ok(out) => outcome.is_success() && out@ == outcome.stdout@,
        Err(TessError::CommandExitStatusError(status, err)) => !outcome.is_success() && status@
            == outcome.status@ && err@ == outcome.stderr@,
        Err(_) => false,
    }
}

/// Classifies a captured process outcome by its exit code.
pub fn classify_output(outcome: &ProcessOutcome) -> (r: TessResult<String>)
    ensures
        classified(*outcome, r),
{
    match outcome.code {
        Some(0i32) => Ok(outcome.stdout.clone()),
        _ => Err(
            TessError::CommandExitStatusError(outcome.status.clone(), outcome.stderr.clone()),
        ),
    }
}

/// The language codes in a `--list-langs` output: every line but the first,
/// which is a human-readable header; blank or repeated lines are kept.
pub open spec fn spec_langs(raw: Seq<char>) -> Seq<Seq<char>> {
    let lines = spec_lines(raw);
    if lines.len() == 0 {
        lines
    } else {
        lines.skip(1)
    }
}

/// Interprets the outcome of a `--version` invocation: the raw version text
/// on success, the typed failure otherwise.
pub fn get_tesseract_version(outcome: &ProcessOutcome) -> (r: TessResult<String>)
    ensures
        classified(*outcome, r),
{
    classify_output(outcome)
}

/// Interprets the outcome of a recognition invocation: the raw recognized
/// text on success (trailing newline included), the typed failure otherwise.
pub fn image_to_string(outcome: &ProcessOutcome) -> (r: TessResult<String>)
    ensures
        classified(*outcome, r),
{
    classify_output(outcome)
}

/// Interprets the outcome of a `--list-langs` invocation: on success, the
/// language codes listed after the header line, in order.
pub fn get_tesseract_langs(outcome: &ProcessOutcome) -> (r: TessResult<Vec<String>>)
    ensures
        (match r {
            Ok(langs) => outcome.is_success() && langs@.map_values(|l: String| l@) == spec_langs(
                outcome.stdout@,
            ),
            Err(TessError::CommandExitStatusError(status, err)) => !outcome.is_success()
                && status@ == outcome.status@ && err@ == outcome.stderr@,
            Err(_) => false,
        }),
{
    let raw = classify_output(outcome);
    match raw {
        Ok(out) => {
            let mut lines = split_lines(out.as_str());
            let ghost all = lines@.map_values(|l: String| l@);
            if lines.len() > 0 {
                lines.remove(0);
                proof {
                    assert(lines@.map_values(|l: String| l@) =~= all.skip(1));
                }
            }
            Ok(lines)
        },
        Err(e) => Err(e),
    }
}

} // verus!
