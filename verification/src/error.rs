//! Failures at the backend boundary.
//!
//! Every failure the demo can meet comes from the backend: creating a
//! resource, compiling the shader pipeline, or submitting a frame.
//! Each one is fatal; the shell reports the message and stops.

use vstd::prelude::*;

verus! {

/// The three ways the backend boundary can fail.
#[derive(Clone, Copy, PartialEq, Eq, Structural, Debug)]
pub enum BackendError {
    /// A font, texture or buffer could not be created.
    ResourceCreation,
    /// The shader pair failed to compile or link.
    PipelineCompilation,
    /// The backend rejected a submitted frame.
    BackendSubmission,
}

impl BackendError {
    /// The message reported before the process stops.
    pub fn message(&self) -> (m: &'static str)
        ensures
            *self == BackendError::ResourceCreation ==> m@ == "resource creation failed"@,
            *self == BackendError::PipelineCompilation ==> m@ == "pipeline compilation failed"@,
            *self == BackendError::BackendSubmission ==> m@ == "frame submission failed"@,
    {
        match self {
            BackendError::ResourceCreation => "resource creation failed",
            BackendError::PipelineCompilation => "pipeline compilation failed",
            BackendError::BackendSubmission => "frame submission failed",
        }
    }
}

} // verus!
