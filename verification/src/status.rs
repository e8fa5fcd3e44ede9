//! The exit-status model and its converters.
//!
//! A [`ProcessExitStatus`] says how a child process terminated. The
//! converters classify it: success, exit code 127 (the shell convention for
//! "command not found"), termination by a signal, or an unknown failure
//! whose message renders the raw status. The classification is stated once,
//! as [`spec_classify`], and every converter's contract pins its result to
//! that specification.

use crate::decimal::lemma_signed_decimal_nonempty;
use crate::decimal::signed_decimal;
use crate::decimal::spec_signed_decimal;
use vstd::prelude::*;

verus! {

/// How a child process terminated: a success flag, the exit code when the
/// process exited with one, and the terminating signal on platforms that
/// report signals. The party that ran the process fills these fields in;
/// `signal` stays `None` where the platform has no signal concept.
#[derive(Clone, Copy, PartialEq, Eq, Debug)]
pub struct ProcessExitStatus {
    pub success: bool,
    pub exit_code: Option<i32>,
    pub signal: Option<i32>,
}

/// The classified cause of a process failure.
#[derive(Clone, PartialEq, Eq, Debug)]
pub enum ExecutionError {
    /// The process exited with code 127, the shell convention for a command
    /// that could not be located or executed.
    CommandNotFound,
    /// The operating system ended the process with this signal.
    TerminatedBySignal(i32),
    /// Any other failure; the message renders the raw status.
    UnknownFailure(String),
}

/// The specification-level value of an [`ExecutionError`]: the same variants
/// with the message abstracted to its character sequence.
pub enum ErrorModel {
    CommandNotFound,
    TerminatedBySignal(i32),
    UnknownFailure(Seq<char>),
}

impl View for ExecutionError {
    type V = ErrorModel;

    open spec fn view(&self) -> ErrorModel {
        match self {
            ExecutionError::CommandNotFound => ErrorModel::CommandNotFound,
            ExecutionError::TerminatedBySignal(n) => ErrorModel::TerminatedBySignal(*n),
            ExecutionError::UnknownFailure(m) => ErrorModel::UnknownFailure(m@),
        }
    }
}

/// The model of a converter's result: errors abstracted by their view.
pub open spec fn result_model(r: Result<(), ExecutionError>) -> Result<(), ErrorModel> {
    match r {
        Ok(u) => Ok(u),
        Err(e) => Err(e@),
    }
}

/// The message carried by an unknown failure: a rendering of the raw status,
/// with at least the numeric exit code when there is one.
pub open spec fn spec_status_message(s: ProcessExitStatus) -> Seq<char> {
    match s.exit_code {
        Some(c) => "status is unknown: exit code "@ + spec_signed_decimal(c as int),
        None => "status is unknown: no exit code"@,
    }
}

/// What classifying a status yields, with the checks in their fixed order:
/// success first, then the 127 convention, then signal termination, then the
/// catch-all.
pub open spec fn spec_classify(s: ProcessExitStatus) -> Result<(), ErrorModel> {
    if s.success {
        Ok(())
    } else if s.exit_code == Some(127i32) {
        Err(ErrorModel::CommandNotFound)
    } else if s.signal is Some {
        Err(ErrorModel::TerminatedBySignal(s.signal->0))
    } else {
        Err(ErrorModel::UnknownFailure(spec_status_message(s)))
    }
}

/// Converts a value into a `Result` by reference.
pub trait AsResult<T, E> {
    /// Converts the value into a `Result`, leaving it usable afterwards.
    fn as_result(&self) -> Result<T, E>;
}

/// Converts a value into a `Result`, taking ownership.
pub trait IntoResult<T, E> {
    /// Converts the value into a `Result`.
    fn into_result(self) -> Result<T, E>;
}

/// Maps a result into another result.
pub trait MapResult<T, E> {
    /// Maps the result into another result.
    fn map_result(self) -> Result<T, E>;
}

/// Renders a status for the catch-all error message.
fn status_message(s: &ProcessExitStatus) -> (m: String)
    ensures
        m@ == spec_status_message(*s),
        m@.len() > 0,
{
    match s.exit_code {
        Some(c) => {
            let mut m = String::from_str("status is unknown: exit code ");
            let digits = signed_decimal(c as i64);
            m.append(digits.as_str());
            proof {
                lemma_signed_decimal_nonempty(c as int);
            }
            m
        },
        None => {
            let m = String::from_str("status is unknown: no exit code");
            proof {
                reveal_strlit("status is unknown: no exit code");
            }
            m
        },
    }
}

impl AsResult<(), ExecutionError> for ProcessExitStatus {
    /// Classifies the status without consuming it. A successful status is
    /// `Ok`; exit code 127 wins over a recorded signal; a recorded signal
    /// wins over the catch-all; the catch-all's message is never empty.
    fn as_result(&self) -> (r: Result<(), ExecutionError>)
        ensures
            result_model(r) == spec_classify(*self),
            self.success ==> r is Ok,
            !self.success && self.exit_code == Some(127i32) ==> r == Result::<(), ExecutionError>::Err(ExecutionError::CommandNotFound),
            !self.success && self.exit_code != Some(127i32) && self.signal is Some ==> r
                == Result::<(), ExecutionError>::Err(
                ExecutionError::TerminatedBySignal(self.signal->0),
            ),
            !self.success && self.exit_code != Some(127i32) && self.signal is None ==> (r matches
                Err(ExecutionError::UnknownFailure(m)) && m@ == spec_status_message(*self)
                && m@.len() > 0),
    {
        if self.success {
            return Ok(());
        }
        if let Some(code) = self.exit_code {
            if code == 127 {
                return Err(ExecutionError::CommandNotFound);
            }
        }
        if let Some(signal_number) = self.signal {
            return Err(ExecutionError::TerminatedBySignal(signal_number));
        }
        Err(ExecutionError::UnknownFailure(status_message(self)))
    }
}

impl IntoResult<(), ExecutionError> for ProcessExitStatus {
    /// Classifies the status, consuming it; delegates to `as_result` and so
    /// yields the same classification.
    fn into_result(self) -> (r: Result<(), ExecutionError>)
        ensures
            result_model(r) == spec_classify(self),
    {
        self.as_result()
    }
}

/// A process's captured output: the exit status together with everything the
/// process wrote to its standard output and standard error.
#[derive(Clone, PartialEq, Eq, Debug)]
pub struct ProcessOutput {
    pub status: ProcessExitStatus,
    pub stdout: Vec<u8>,
    pub stderr: Vec<u8>,
}

impl IntoResult<ProcessOutput, ExecutionError> for ProcessOutput {
    /// Classifies the contained status: on success the output comes back
    /// unchanged, captured bytes included; otherwise the classified error is
    /// the one the status alone yields.
    fn into_result(self) -> (r: Result<ProcessOutput, ExecutionError>)
        ensures
            self.status.success ==> r == Result::<ProcessOutput, ExecutionError>::Ok(self),
            !self.status.success ==> (r matches Err(e) && Err::<(), ErrorModel>(e@)
                == spec_classify(self.status)),
    {
        match self.status.as_result() {
            Ok(_) => Ok(self),
            Err(e) => Err(e),
        }
    }
}

impl MapResult<(), ExecutionError> for Result<ProcessExitStatus, ExecutionError> {
    /// Chains a prior result into the classification: an error from before
    /// (say, a failure to wait on the process) passes through unchanged; a
    /// status is classified as `as_result` classifies it.
    fn map_result(self) -> (r: Result<(), ExecutionError>)
        ensures
            self matches Err(e) ==> r == Result::<(), ExecutionError>::Err(e),
            self matches Ok(s) ==> result_model(r) == spec_classify(s),
    {
        match self {
            Ok(s) => s.into_result(),
            Err(e) => Err(e),
        }
    }
}

/// Classification is a pure function of the status: any two results that
/// meet the converters' contract for the same status have the same model.
/// In particular, calling `as_result` twice on one status classifies
/// identically both times, and `into_result` agrees with `as_result` on
/// every status.
pub proof fn lemma_classification_deterministic(
    s: ProcessExitStatus,
    r1: Result<(), ExecutionError>,
    r2: Result<(), ExecutionError>,
)
    requires
        result_model(r1) == spec_classify(s),
        result_model(r2) == spec_classify(s),
    ensures
        result_model(r1) == result_model(r2),
{
}

/// Converting an output agrees with converting its status: whenever `rs`
/// meets the status converter's contract and `ro` meets the output
/// converter's contract for the same underlying status, success returns the
/// output unchanged and failure carries the very error the status converter
/// yields.
pub proof fn lemma_output_agrees_with_status(
    out: ProcessOutput,
    rs: Result<(), ExecutionError>,
    ro: Result<ProcessOutput, ExecutionError>,
)
    requires
        result_model(rs) == spec_classify(out.status),
        out.status.success ==> ro == Result::<ProcessOutput, ExecutionError>::Ok(out),
        !out.status.success ==> (ro matches Err(e) && Err::<(), ErrorModel>(e@) == spec_classify(
            out.status,
        )),
    ensures
        rs is Ok ==> ro == Result::<ProcessOutput, ExecutionError>::Ok(out),
        rs matches Err(e1) ==> (ro matches Err(e2) && e2@ == e1@),
{
}

} // verus!
