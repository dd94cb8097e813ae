//! Admission of one block: from the chain state's classification of its
//! header, through the check against its parent, to storage.

use crate::block::PreCheckedHeader;
use crate::error::{Cause, Error};
use vstd::prelude::*;

verus! {

/// Where the admission of the block in hand stands: what the chain state was
/// asked last.
#[derive(Clone, Copy, Debug, PartialEq, Eq, Structural)]
pub enum AdmissionPhase {
    /// To classify the header. A missing parent is to be reported, not
    /// waited for.
    PreChecking,
    /// To check the header against its parent, proofs included.
    PostChecking,
    /// To store the block.
    Applying,
}

/// Whether the proofs in a header are checked with it.
#[derive(Clone, Copy, Debug, PartialEq, Eq, Structural)]
pub enum CheckHeaderProof {
    Enabled,
    Disabled,
}

/// What the chain state answered.
#[derive(Debug, PartialEq, Eq)]
pub enum AdmissionEvent<R> {
    PreChecked(Result<PreCheckedHeader<R>, Cause>),
    PostChecked(Result<(), Cause>),
    /// The block was stored, and this is its reference.
    Applied(Result<R, Cause>),
}

/// What comes next for the block in hand.
#[derive(Debug, PartialEq, Eq)]
pub enum AdmissionStep<R> {
    /// Check the header against its parent at `parent_ref`, with its proofs
    /// or without.
    PostCheck { parent_ref: R, check_header_proof: CheckHeaderProof },
    /// Store the block.
    Apply,
    /// The block is through: accepted at this reference, or refused.
    Done(Result<R, Error>),
}

/// What follows from the classification of a header.
pub open spec fn classified<R>(header: PreCheckedHeader<R>) -> AdmissionStep<R> {
    match header {
        PreCheckedHeader::AlreadyPresent { hash, cached_reference: Some(r) } => AdmissionStep::Done(
            Ok(r),
        ),
        PreCheckedHeader::AlreadyPresent { hash, cached_reference: None } => AdmissionStep::Done(
            Err(Error::BlockNotOnBranch(hash)),
        ),
        PreCheckedHeader::MissingParent { hash } => AdmissionStep::Done(
            Err(Error::BlockMissingParent(hash)),
        ),
        PreCheckedHeader::HeaderWithCache { hash, parent_ref } => AdmissionStep::PostCheck {
            parent_ref,
            check_header_proof: CheckHeaderProof::Enabled,
        },
    }
}

/// The step that an answer leads to in a phase; `None` where the answer is
/// not one to what was asked in that phase.
pub open spec fn admission_step<R>(phase: AdmissionPhase, event: AdmissionEvent<R>) -> Option<
    AdmissionStep<R>,
> {
    match event {
        AdmissionEvent::PreChecked(answer) => if phase == AdmissionPhase::PreChecking {
            Some(
                match answer {
                    Ok(header) => classified(header),
                    Err(cause) => AdmissionStep::Done(Err(Error::HeaderCheckFailed(cause))),
                },
            )
        } else {
            None
        },
        AdmissionEvent::PostChecked(answer) => if phase == AdmissionPhase::PostChecking {
            Some(
                match answer {
                    Ok(_) => AdmissionStep::Apply,
                    Err(cause) => AdmissionStep::Done(Err(Error::HeaderCheckFailed(cause))),
                },
            )
        } else {
            None
        },
        AdmissionEvent::Applied(answer) => if phase == AdmissionPhase::Applying {
            Some(
                match answer {
                    Ok(r) => AdmissionStep::Done(Ok(r)),
                    Err(cause) => AdmissionStep::Done(Err(Error::ApplyBlockFailed(cause))),
                },
            )
        } else {
            None
        },
    }
}

/// Takes the chain state's answer for the block in hand and says what comes
/// next. An answer that does not belong to the phase is handed back.
pub fn handle_block<R>(phase: AdmissionPhase, event: AdmissionEvent<R>) -> (r: Result<
    AdmissionStep<R>,
    AdmissionEvent<R>,
>)
    ensures
        r == match admission_step(phase, event) {
            Some(step) => Ok::<AdmissionStep<R>, AdmissionEvent<R>>(step),
            None => Err(event),
        },
{
    match event {
        AdmissionEvent::PreChecked(answer) => match phase {
            AdmissionPhase::PreChecking => match answer {
                Ok(PreCheckedHeader::AlreadyPresent { hash: _, cached_reference: Some(r) }) => Ok(
                    AdmissionStep::Done(Ok(r)),
                ),
                Ok(PreCheckedHeader::AlreadyPresent { hash, cached_reference: None }) => Ok(
                    AdmissionStep::Done(Err(Error::BlockNotOnBranch(hash))),
                ),
                Ok(PreCheckedHeader::MissingParent { hash }) => Ok(
                    AdmissionStep::Done(Err(Error::BlockMissingParent(hash))),
                ),
                Ok(PreCheckedHeader::HeaderWithCache { hash: _, parent_ref }) => Ok(
                    AdmissionStep::PostCheck {
                        parent_ref,
                        check_header_proof: CheckHeaderProof::Enabled,
                    },
                ),
                Err(cause) => Ok(AdmissionStep::Done(Err(Error::HeaderCheckFailed(cause)))),
            },
            _ => Err(AdmissionEvent::PreChecked(answer)),
        },
        AdmissionEvent::PostChecked(answer) => match phase {
            AdmissionPhase::PostChecking => match answer {
                Ok(_) => Ok(AdmissionStep::Apply),
                Err(cause) => Ok(AdmissionStep::Done(Err(Error::HeaderCheckFailed(cause)))),
            },
            _ => Err(AdmissionEvent::PostChecked(answer)),
        },
        AdmissionEvent::Applied(answer) => match phase {
            AdmissionPhase::Applying => match answer {
                Ok(r) => Ok(AdmissionStep::Done(Ok(r))),
                Err(cause) => Ok(AdmissionStep::Done(Err(Error::ApplyBlockFailed(cause)))),
            },
            _ => Err(AdmissionEvent::Applied(answer)),
        },
    }
}

} // verus!
