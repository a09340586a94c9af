//! The errors of the pipeline.
use vstd::prelude::*;

verus! {

/// What went wrong, for one submission or for a whole phase.
#[derive(Debug, PartialEq, Eq)]
pub enum PipelineError {
    /// Reconciling the submission's files failed; the text says why.
    Staging(String),
    /// The toolchain refused to compile the staged sources.
    Compile,
    /// A source file of the submission could not be read; the text says why.
    Read(String),
    /// The manifest of submissions is not a JSON object of strings.
    Manifest,
    /// The grading backend never answered its health check.
    ServiceUnavailable,
    /// The grading backend did not accept a record: the status it answered
    /// with, or `None` where no usable answer came.
    Submission(Option<u16>),
    /// The tracker entry could not be created; the text says why.
    Publication(String),
}

} // verus!
