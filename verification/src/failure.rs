//! Which error envelope answers a failed operation.

use vstd::prelude::*;

verus! {

/// A failure of the daemon's canonical taxonomy, with what the envelope says about this
/// occurrence of it.
#[derive(Debug, PartialEq, Eq)]
pub enum Failure<S = String> {
    IndexUnavailable { details: S },
    WorktreeNotIndexed,
    PathNotIndexed { path: S, reason: S },
    IncompatibleStore { details: S },
    UnknownMemory,
    OptimisticConflict { expected: i64, actual: i64 },
    CanonicalKeyConflict,
    InvalidGlobalScopeOwner,
    IllegalMemoryTransition { details: S },
    EntryTerminal,
    IncompatibleScope,
    EmptyMergeSet,
    ModelClaimOnlyProvenance,
    UnknownCandidate,
    IllegalCandidateTransition { details: S },
    CandidateNotPending,
    InvalidProposedOperation { details: S },
}

impl View for Failure<String> {
    type V = Failure<Seq<char>>;

    open spec fn view(&self) -> Failure<Seq<char>> {
        match *self {
            Failure::IndexUnavailable { details } => Failure::IndexUnavailable {
                details: details@,
            },
            Failure::WorktreeNotIndexed => Failure::WorktreeNotIndexed,
            Failure::PathNotIndexed { path, reason } => Failure::PathNotIndexed {
                path: path@,
                reason: reason@,
            },
            Failure::IncompatibleStore { details } => Failure::IncompatibleStore {
                details: details@,
            },
            Failure::UnknownMemory => Failure::UnknownMemory,
            Failure::OptimisticConflict { expected, actual } => Failure::OptimisticConflict {
                expected,
                actual,
            },
            Failure::CanonicalKeyConflict => Failure::CanonicalKeyConflict,
            Failure::InvalidGlobalScopeOwner => Failure::InvalidGlobalScopeOwner,
            Failure::IllegalMemoryTransition { details } => Failure::IllegalMemoryTransition {
                details: details@,
            },
            Failure::EntryTerminal => Failure::EntryTerminal,
            Failure::IncompatibleScope => Failure::IncompatibleScope,
            Failure::EmptyMergeSet => Failure::EmptyMergeSet,
            Failure::ModelClaimOnlyProvenance => Failure::ModelClaimOnlyProvenance,
            Failure::UnknownCandidate => Failure::UnknownCandidate,
            Failure::IllegalCandidateTransition { details } =>
            Failure::IllegalCandidateTransition { details: details@ },
            Failure::CandidateNotPending => Failure::CandidateNotPending,
            Failure::InvalidProposedOperation { details } => Failure::InvalidProposedOperation {
                details: details@,
            },
        }
    }
}

} // verus!
