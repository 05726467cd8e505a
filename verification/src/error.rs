//! The error taxonomy of the pipeline: each variant identifies the stage that
//! failed. Every stage fails fast and propagates the first error unchanged.

use vstd::prelude::*;

verus! {

/// The first failure of a pipeline run, tagged by stage.
#[derive(Clone, Copy, Debug, PartialEq, Eq, Structural)]
pub enum PipelineError {
    /// Remote or file acquisition of the base state failed.
    Fetch,
    /// Bytes did not match the expected layout (state snapshot decode or
    /// return-value decode).
    Decode,
    /// The live identity did not match the overlay's under the strict policy.
    Consistency,
    /// The execution engine reported a failure during the entry-point call.
    Execution,
    /// Argument preparation failed (practically unreachable: the entry point
    /// is always called with empty arguments).
    Encoding,
}

impl PipelineError {
    /// A short description of the stage that failed, so a report can say
    /// which stage aborted the run.
    pub fn stage(&self) -> (s: &'static str)
        ensures
            *self is Fetch ==> s@ == "state fetch failed"@,
            *self is Decode ==> s@ == "decode failed"@,
            *self is Consistency ==> s@ == "live identity mismatch"@,
            *self is Execution ==> s@ == "entry point execution failed"@,
            *self is Encoding ==> s@ == "argument encoding failed"@,
    {
        match self {
            PipelineError::Fetch => "state fetch failed",
            PipelineError::Decode => "decode failed",
            PipelineError::Consistency => "live identity mismatch",
            PipelineError::Execution => "entry point execution failed",
            PipelineError::Encoding => "argument encoding failed",
        }
    }
}

} // verus!
