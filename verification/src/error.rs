//! The ways in which the harness fails, and the step each failure belongs to.

use vstd::prelude::*;

verus! {

/// The part of a compiled artifact that a deployment cannot do without.
#[derive(Clone, Copy, Debug, PartialEq, Eq, Structural)]
pub enum ArtifactPart {
    Interface,
    Bytecode,
}

/// The step of the harness's life in which a failure arose.
#[derive(Clone, Copy, Debug, PartialEq, Eq, Structural)]
pub enum FailingStep {
    Spawn,
    Connect,
    Lookup,
    Deploy,
}

/// Every failure the harness reports. None is retried. Where a failure
/// was reported from outside, `detail` is the text of that report,
/// unchanged; where the harness found it itself, there is none.
#[derive(Clone, Debug, PartialEq, Eq)]
#[allow(inconsistent_fields)]
pub enum HarnessError {
    /// The node could not be started, or reported accounts that are no keys.
    SpawnFailure { detail: Option<String> },
    /// The endpoint was refused as a URL, or the remote declined the handshake.
    ConnectionFailure { detail: String },
    /// The chain identifier could not be learned from the node, or does
    /// not fit in 64 bits.
    ChainIdDiscoveryFailure { detail: Option<String> },
    /// No account stands at the index asked for.
    NotFound,
    /// The artifact lacks the named part.
    InvalidArtifact { missing: ArtifactPart },
    /// The constructor arguments do not fit the interface.
    EncodingFailure { detail: Option<String> },
    /// The node rejected the signed transaction.
    BroadcastFailure { detail: String },
    /// No contract was seen created: the wait ran out or ended on an
    /// error, or the transaction was mined without one.
    ConfirmationTimeout { detail: Option<String> },
}

impl HarnessError {
    /// The step a failure belongs to.
    pub open spec fn spec_step(self) -> FailingStep {
        match self {
            HarnessError::SpawnFailure { .. } => FailingStep::Spawn,
            HarnessError::ConnectionFailure { .. } => FailingStep::Connect,
            HarnessError::ChainIdDiscoveryFailure { .. } => FailingStep::Connect,
            HarnessError::NotFound => FailingStep::Lookup,
            HarnessError::InvalidArtifact { .. } => FailingStep::Deploy,
            HarnessError::EncodingFailure { .. } => FailingStep::Deploy,
            HarnessError::BroadcastFailure { .. } => FailingStep::Deploy,
            HarnessError::ConfirmationTimeout { .. } => FailingStep::Deploy,
        }
    }

    /// Names the failing step, so that a caller can tell spawn from connect from deploy.
    pub fn step(&self) -> (step: FailingStep)
        ensures
            step == self.spec_step(),
    {
        match self {
            HarnessError::SpawnFailure { .. } => FailingStep::Spawn,
            HarnessError::ConnectionFailure { .. } => FailingStep::Connect,
            HarnessError::ChainIdDiscoveryFailure { .. } => FailingStep::Connect,
            HarnessError::NotFound => FailingStep::Lookup,
            HarnessError::InvalidArtifact { .. } => FailingStep::Deploy,
            HarnessError::EncodingFailure { .. } => FailingStep::Deploy,
            HarnessError::BroadcastFailure { .. } => FailingStep::Deploy,
            HarnessError::ConfirmationTimeout { .. } => FailingStep::Deploy,
        }
    }
}

} // verus!
