//! The failure taxonomy of the pipeline: every stage failure is one of
//! these, surfaced once and terminal for the run.

use vstd::prelude::*;

verus! {

/// Why a run ended without a commit.
#[derive(Debug)]
pub enum PipelineError {
    /// The version-control tool could not be invoked or the repository
    /// could not be opened.
    VcsUnavailable,
    /// The staged diff was empty after trimming: nothing to summarize.
    NoStagedChanges,
    /// The transport call to the generation backend could not be completed.
    RequestFailed,
    /// The reply body was not well-formed JSON.
    MalformedReply,
    /// The operator's input stream closed before a line was read.
    InputUnavailable,
    /// The commit command exited nonzero; its standard-error text is kept.
    CommitFailed(String),
}

impl Clone for PipelineError {
    fn clone(&self) -> (r: Self)
        ensures
            r == *self,
    {
        match self {
            PipelineError::VcsUnavailable => PipelineError::VcsUnavailable,
            PipelineError::NoStagedChanges => PipelineError::NoStagedChanges,
            PipelineError::RequestFailed => PipelineError::RequestFailed,
            PipelineError::MalformedReply => PipelineError::MalformedReply,
            PipelineError::InputUnavailable => PipelineError::InputUnavailable,
            PipelineError::CommitFailed(s) => PipelineError::CommitFailed(s.clone()),
        }
    }
}

impl PipelineError {
    /// The message printed for the operator on the error stream.
    pub fn describe(&self) -> (r: String)
        ensures
            r@ == match *self {
                PipelineError::VcsUnavailable => "git diff --cached failed"@,
                PipelineError::NoStagedChanges => "no changes added to commit"@,
                PipelineError::RequestFailed => "Failed to ask Gemini"@,
                PipelineError::MalformedReply => "Failed to parse response."@,
                PipelineError::InputUnavailable => "Failed to read input."@,
                PipelineError::CommitFailed(s) => s@,
            },
    {
        match self {
            PipelineError::VcsUnavailable => "git diff --cached failed".to_owned(),
            PipelineError::NoStagedChanges => "no changes added to commit".to_owned(),
            PipelineError::RequestFailed => "Failed to ask Gemini".to_owned(),
            PipelineError::MalformedReply => "Failed to parse response.".to_owned(),
            PipelineError::InputUnavailable => "Failed to read input.".to_owned(),
            PipelineError::CommitFailed(s) => s.clone(),
        }
    }
}

} // verus!
