//! The closed set of failures of a bootstrap run.

use crate::block::HeaderHash;
use vstd::prelude::*;

verus! {

/// What a collaborator said when it failed, kept as text so that the
/// collaborator's own error types stay behind its interface.
#[derive(Clone, Debug, PartialEq, Eq)]
pub struct Cause {
    pub message: String,
}

/// Why a peer discovery or a bootstrap run did not succeed.
#[derive(Clone, Debug, PartialEq, Eq)]
pub enum Error {
    /// The session to the peer could not be opened.
    Connect(Cause),
    /// The session was opened but did not become ready.
    ClientNotReady(Cause),
    /// The peer did not answer the request for its peer list.
    PeersNotAvailable(Cause),
    /// The peer refused the request to pull blocks.
    PullRequestFailed(Cause),
    /// The stream of pulled blocks broke.
    PullStreamFailed(Cause),
    /// A header did not pass the check before or after classification.
    HeaderCheckFailed(Cause),
    /// The block is known locally but descends from none of the checkpoints.
    BlockNotOnBranch(HeaderHash),
    /// The parent of the block is unknown: the stream has a gap.
    BlockMissingParent(HeaderHash),
    /// The checkpoints could not be read from the local chain.
    GetCheckpointsFailed(Cause),
    /// A validated block could not be stored.
    ApplyBlockFailed(Cause),
    /// Chain selection refused the new tip.
    ChainSelectionFailed(Cause),
    /// The shutdown signal fired.
    Interrupted,
}

} // verus!
