//! The failure taxonomy that resolvers and page handlers exchange.

use vstd::prelude::*;

verus! {

/// A typed failure from one of the external collaborators.
///
/// Resolvers never swallow a failure: the value handed in by the caller is
/// propagated unchanged, and nothing is cached for a failed attempt.
#[derive(Clone, Copy, Debug, PartialEq, Eq, Structural)]
pub enum UpstreamError {
    /// Network or HTTP failure from the repository or scrobbling API.
    UpstreamUnavailable,
    /// Object-storage listing failure.
    StorageUnavailable,
    /// A missing or invalid environment-sourced credential.
    Unauthenticated,
    /// One member of a fan-out batch failed to complete at all.
    PartialJoinFailure,
}

} // verus!
