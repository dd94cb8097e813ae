//! The way to the stream: the session to the peer is opened and made ready
//! while the checkpoints are computed, the pull is requested, and all of it
//! races against the shutdown signal.

use crate::block::Checkpoint;
use crate::error::{Cause, Error};
use crate::merger::Signal;
use vstd::prelude::*;

verus! {

/// Where the setup of a bootstrap run stands.
#[derive(Debug, PartialEq, Eq)]
pub enum Setup {
    /// The session to the peer is being opened.
    Connecting,
    /// The session is becoming ready while the checkpoints are computed.
    /// `ready` says that the session is; `checkpoints` holds them once they
    /// are there.
    Preparing { ready: bool, checkpoints: Option<Vec<Checkpoint>> },
    /// The peer was asked to send what lies beyond the checkpoints.
    Requesting,
    /// The setup is over: the stream is open.
    Streaming,
    /// The setup is over: it failed, or the signal ended it.
    Failed,
}

/// What happened outside.
#[derive(Debug, PartialEq, Eq)]
pub enum SetupEvent {
    /// The session was opened, or could not be.
    Connected(Result<(), Cause>),
    /// The session became ready, or broke.
    Ready(Result<(), Cause>),
    /// The checkpoints of the tip's branch were computed.
    Checkpoints(Result<Vec<Checkpoint>, Cause>),
    /// The peer took the request to pull, or refused it.
    PullRequested(Result<(), Cause>),
    /// A look at the shutdown signal.
    Stopper(Signal),
}

/// What is to happen outside next.
#[derive(Debug, PartialEq, Eq)]
pub enum SetupAction {
    /// Wait for the session to become ready and compute the checkpoints of
    /// the tip's branch, both at once.
    Prepare,
    /// Go on waiting for what is still under way.
    Wait,
    /// Ask the peer to send the blocks up to its tip that lie beyond these
    /// checkpoints.
    RequestPull(Vec<Checkpoint>),
    /// Consume the stream, with the same shutdown signal.
    Stream,
    /// The run is over with this error. No block was asked for.
    Fail(Error),
    /// The signal can no longer be observed: the process is to stop. This is
    /// no outcome of the run.
    Abort,
}

impl Setup {
    /// Whether the setup is over.
    pub open spec fn is_over(self) -> bool {
        self is Streaming || self is Failed
    }
}

/// The next state and the action that a look at the signal leads to.
pub open spec fn stopper_step(state: Setup, signal: Signal) -> (Setup, SetupAction) {
    match signal {
        Signal::Pending => (state, SetupAction::Wait),
        Signal::Fired => (Setup::Failed, SetupAction::Fail(Error::Interrupted)),
        Signal::Lost => (Setup::Failed, SetupAction::Abort),
    }
}

/// The next state and the action once one of the two preparations is done
/// and the other stands as `ready` and `checkpoints` say.
pub open spec fn prepared(ready: bool, checkpoints: Option<Vec<Checkpoint>>) -> (
    Setup,
    SetupAction,
) {
    match checkpoints {
        Some(found) => if ready {
            (Setup::Requesting, SetupAction::RequestPull(found))
        } else {
            (Setup::Preparing { ready, checkpoints }, SetupAction::Wait)
        },
        None => (Setup::Preparing { ready, checkpoints }, SetupAction::Wait),
    }
}

/// The next state and the action that an event leads to; `None` where the
/// setup is over or the event does not answer what it is waiting for.
pub open spec fn setup_step(state: Setup, event: SetupEvent) -> Option<(Setup, SetupAction)> {
    if state.is_over() {
        None
    } else {
        match event {
            SetupEvent::Stopper(signal) => Some(stopper_step(state, signal)),
            SetupEvent::Connected(answer) => match state {
                Setup::Connecting => Some(
                    match answer {
                        Ok(_) => (
                            Setup::Preparing { ready: false, checkpoints: None },
                            SetupAction::Prepare,
                        ),
                        Err(cause) => (Setup::Failed, SetupAction::Fail(Error::Connect(cause))),
                    },
                ),
                _ => None,
            },
            SetupEvent::Ready(answer) => match state {
                Setup::Preparing { ready: false, checkpoints } => Some(
                    match answer {
                        Ok(_) => prepared(true, checkpoints),
                        Err(cause) => (
                            Setup::Failed,
                            SetupAction::Fail(Error::ClientNotReady(cause)),
                        ),
                    },
                ),
                _ => None,
            },
            SetupEvent::Checkpoints(answer) => match state {
                Setup::Preparing { ready, checkpoints: None } => Some(
                    match answer {
                        Ok(found) => prepared(ready, Some(found)),
                        Err(cause) => (
                            Setup::Failed,
                            SetupAction::Fail(Error::GetCheckpointsFailed(cause)),
                        ),
                    },
                ),
                _ => None,
            },
            SetupEvent::PullRequested(answer) => match state {
                Setup::Requesting => Some(
                    match answer {
                        Ok(_) => (Setup::Streaming, SetupAction::Stream),
                        Err(cause) => (
                            Setup::Failed,
                            SetupAction::Fail(Error::PullRequestFailed(cause)),
                        ),
                    },
                ),
                _ => None,
            },
        }
    }
}

impl Setup {
    /// The setup before anything has happened: the session is to be opened.
    pub fn new() -> (state: Setup)
        ensures
            state == Setup::Connecting,
    {
        Setup::Connecting
    }
}

/// The two preparations stand as `ready` and `checkpoints` say: the pull is
/// requested once both are done.
fn prepare(state: &mut Setup, ready: bool, checkpoints: Option<Vec<Checkpoint>>) -> (action:
    SetupAction)
    ensures
        (*final(state), action) == prepared(ready, checkpoints),
{
    match checkpoints {
        Some(found) => if ready {
            *state = Setup::Requesting;
            SetupAction::RequestPull(found)
        } else {
            *state = Setup::Preparing { ready, checkpoints: Some(found) };
            SetupAction::Wait
        },
        None => {
            *state = Setup::Preparing { ready, checkpoints: None };
            SetupAction::Wait
        },
    }
}

/// Takes what happened outside and says what is to happen next, up to the
/// point where the stream is open. An event that the setup is not waiting
/// for is handed back and changes nothing.
pub fn bootstrap_from_peer(state: &mut Setup, event: SetupEvent) -> (r: Result<
    SetupAction,
    SetupEvent,
>)
    ensures
        match setup_step(*old(state), event) {
            Some((next, action)) => r == Ok::<SetupAction, SetupEvent>(action) && *final(state)
                == next,
            None => r == Err::<SetupAction, SetupEvent>(event) && *final(state) == *old(state),
        },
{
    let mut current = Setup::Failed;
    core::mem::swap(state, &mut current);
    match current {
        Setup::Streaming => {
            *state = Setup::Streaming;
            Err(event)
        },
        Setup::Failed => Err(event),
        Setup::Connecting => match event {
            SetupEvent::Stopper(Signal::Pending) => {
                *state = Setup::Connecting;
                Ok(SetupAction::Wait)
            },
            SetupEvent::Stopper(Signal::Fired) => Ok(SetupAction::Fail(Error::Interrupted)),
            SetupEvent::Stopper(Signal::Lost) => Ok(SetupAction::Abort),
            SetupEvent::Connected(Ok(_)) => {
                *state = Setup::Preparing { ready: false, checkpoints: None };
                Ok(SetupAction::Prepare)
            },
            SetupEvent::Connected(Err(cause)) => Ok(SetupAction::Fail(Error::Connect(cause))),
            other => {
                *state = Setup::Connecting;
                Err(other)
            },
        },
        Setup::Preparing { ready, checkpoints } => match event {
            SetupEvent::Stopper(Signal::Pending) => {
                *state = Setup::Preparing { ready, checkpoints };
                Ok(SetupAction::Wait)
            },
            SetupEvent::Stopper(Signal::Fired) => Ok(SetupAction::Fail(Error::Interrupted)),
            SetupEvent::Stopper(Signal::Lost) => Ok(SetupAction::Abort),
            SetupEvent::Ready(answer) => if ready {
                *state = Setup::Preparing { ready, checkpoints };
                Err(SetupEvent::Ready(answer))
            } else {
                match answer {
                    Ok(_) => Ok(prepare(state, true, checkpoints)),
                    Err(cause) => Ok(SetupAction::Fail(Error::ClientNotReady(cause))),
                }
            },
            SetupEvent::Checkpoints(answer) => match checkpoints {
                Some(found) => {
                    *state = Setup::Preparing { ready, checkpoints: Some(found) };
                    Err(SetupEvent::Checkpoints(answer))
                },
                None => match answer {
                    Ok(found) => Ok(prepare(state, ready, Some(found))),
                    Err(cause) => Ok(SetupAction::Fail(Error::GetCheckpointsFailed(cause))),
                },
            },
            other => {
                *state = Setup::Preparing { ready, checkpoints };
                Err(other)
            },
        },
        Setup::Requesting => match event {
            SetupEvent::Stopper(Signal::Pending) => {
                *state = Setup::Requesting;
                Ok(SetupAction::Wait)
            },
            SetupEvent::Stopper(Signal::Fired) => Ok(SetupAction::Fail(Error::Interrupted)),
            SetupEvent::Stopper(Signal::Lost) => Ok(SetupAction::Abort),
            SetupEvent::PullRequested(Ok(_)) => {
                *state = Setup::Streaming;
                Ok(SetupAction::Stream)
            },
            SetupEvent::PullRequested(Err(cause)) => Ok(
                SetupAction::Fail(Error::PullRequestFailed(cause)),
            ),
            other => {
                *state = Setup::Requesting;
                Err(other)
            },
        },
    }
}

} // verus!
