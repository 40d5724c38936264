//! Error taxonomy of the pipeline.
//!
//! Every failure is fatal to the run: nothing is retried.  The variants
//! record which stage gave up, so the caller can report it and halt.

use vstd::prelude::*;

verus! {

/// Why a pipeline step failed.
#[derive(Clone, Copy, Debug, PartialEq, Eq, Structural)]
pub enum PipelineError {
    /// Identity, genesis or ledger construction failed.
    Setup,
    /// A cached artifact failed to deserialize.
    CorruptArtifact,
    /// A proposed or cached block failed the ledger's validation rules.
    InvalidBlock,
    /// Building a deployment or execution transaction failed.
    Execution,
    /// Serializing a block or transaction failed.
    Serialization,
    /// Committing an already validated block failed.
    CommitFailed,
}

} // verus!
