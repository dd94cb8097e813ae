//! Consumption of the merged stream: every block in order through
//! admission, and at the end the best validated position to chain selection.

use crate::admission::{
    admission_step, handle_block, AdmissionEvent, AdmissionPhase, AdmissionStep, CheckHeaderProof,
};
use crate::block::{Block, HeaderHash};
use crate::error::{Cause, Error};
use crate::progress::{elapsed_between, BootstrapInfo, Progress, Report, PROCESS_LOGGING_DISTANCE};
use std::time::SystemTime;
use vstd::prelude::*;

verus! {

/// Where the consumption of the stream stands.
#[derive(Debug, PartialEq, Eq)]
pub enum Phase {
    /// Between blocks: the next item of the merged stream is awaited.
    Streaming,
    /// A block is in hand and the chain state was asked about it.
    Admitting(AdmissionPhase),
    /// The stream was left on this error, and chain selection was asked to
    /// keep what had been validated before it.
    Salvaging(Error),
    /// The stream ended, and chain selection was asked for the new tip.
    Committing,
    /// The run is over: it was left on an error.
    Halted,
    /// The run is over: the stream was consumed to its end.
    Exhausted,
}

/// What happened outside.
#[derive(Debug, PartialEq, Eq)]
pub enum StreamEvent<R> {
    /// The merged stream yielded an item, or `None` at its end.
    Item(Option<Result<Block, Error>>),
    /// The chain state answered about the block in hand.
    Admission(AdmissionEvent<R>),
    /// Chain selection answered.
    Committed(Result<(), Cause>),
}

/// What is to happen outside next.
#[derive(Debug, PartialEq, Eq)]
pub enum StreamAction<R> {
    /// Poll the merged stream.
    Pull,
    /// Ask the chain state to classify the header of the block just
    /// received. With `allow_missing_parent`, a header whose parent is
    /// unknown is classified as such, not waited for. Where the block was
    /// one on which a progress report is due, `report` is that report, to
    /// be logged first.
    PreCheck { report: Option<Report>, allow_missing_parent: bool },
    /// Ask the chain state to check the header against its parent at
    /// `parent_ref`, with its proofs or without.
    PostCheck { parent_ref: R, check_header_proof: CheckHeaderProof },
    /// Ask the chain state to store the block in hand.
    Apply,
    /// Ask chain selection to take this reference as the tip.
    Commit(R),
    /// The run is over with `result`. Where `secondary` is set, keeping what
    /// had been validated failed too: that is to be logged and not returned.
    Finish { result: Result<(), Error>, secondary: Option<Error> },
}

/// The state of a run over the stream. `R` is the handle by which the chain
/// state refers to a validated position.
pub struct StreamState<R> {
    pub phase: Phase,
    /// Hash of the chain's first block, which is never admitted again.
    pub block0: HeaderHash,
    /// Reference of the block accepted last.
    pub last_good: Option<R>,
    pub info: BootstrapInfo,
}

/// A run's state, with the tracker's counters as numbers without bound.
pub struct StreamView<R> {
    pub phase: Phase,
    pub block0: HeaderHash,
    pub last_good: Option<R>,
    pub info: Progress,
}

impl<R> View for StreamState<R> {
    type V = StreamView<R>;

    open spec fn view(&self) -> StreamView<R> {
        StreamView {
            phase: self.phase,
            block0: self.block0,
            last_good: self.last_good,
            info: self.info@,
        }
    }
}

/// What chain selection's answer means where the stream was consumed to its
/// end.
pub open spec fn selected(answer: Result<(), Cause>) -> Result<(), Error> {
    match answer {
        Ok(_) => Ok(()),
        Err(cause) => Err(Error::ChainSelectionFailed(cause)),
    }
}

/// What chain selection's answer means where the stream was left on an
/// error: a failure to be logged.
pub open spec fn salvaged(answer: Result<(), Cause>) -> Option<Error> {
    match answer {
        Ok(_) => None,
        Err(cause) => Some(Error::ChainSelectionFailed(cause)),
    }
}

impl<R> StreamView<R> {
    /// The run is at its start: between blocks, with no block accepted yet.
    pub open spec fn is_start(self) -> bool {
        self.phase == Phase::Streaming && self.last_good is None
    }

    /// The stream is left on `error`: what was validated before is kept, if
    /// there is any.
    pub open spec fn halt(self, error: Error) -> (StreamView<R>, StreamAction<R>) {
        match self.last_good {
            Some(r) => (
                StreamView { phase: Phase::Salvaging(error), last_good: None, ..self },
                StreamAction::Commit(r),
            ),
            None => (
                StreamView { phase: Phase::Halted, ..self },
                StreamAction::Finish { result: Err(error), secondary: None },
            ),
        }
    }

    /// The stream has ended.
    pub open spec fn exhaust(self) -> (StreamView<R>, StreamAction<R>) {
        match self.last_good {
            Some(r) => (
                StreamView { phase: Phase::Committing, last_good: None, ..self },
                StreamAction::Commit(r),
            ),
            None => (
                StreamView { phase: Phase::Exhausted, ..self },
                StreamAction::Finish { result: Ok(()), secondary: None },
            ),
        }
    }

    /// A block arrives: the chain's first block is passed over, any other is
    /// counted and goes to admission. Where the count has come to a multiple
    /// of the distance, the report is made, `elapsed` being the time since
    /// the report before.
    pub open spec fn receive(self, block: Block, elapsed: Option<u128>) -> (
        StreamView<R>,
        StreamAction<R>,
    ) {
        if block.hash@ == self.block0@ {
            (self, StreamAction::Pull)
        } else {
            let counted = self.info.append(block);
            let phase = Phase::Admitting(AdmissionPhase::PreChecking);
            if counted.due() {
                (
                    StreamView { phase, info: counted.reported(), ..self },
                    StreamAction::PreCheck {
                        report: Some(counted.report_for(elapsed)),
                        allow_missing_parent: true,
                    },
                )
            } else {
                (
                    StreamView { phase, info: counted, ..self },
                    StreamAction::PreCheck { report: None, allow_missing_parent: true },
                )
            }
        }
    }

    /// Admission of the block in hand has come to `step`.
    pub open spec fn advance(self, step: AdmissionStep<R>) -> (StreamView<R>, StreamAction<R>) {
        match step {
            AdmissionStep::PostCheck { parent_ref, check_header_proof } => (
                StreamView { phase: Phase::Admitting(AdmissionPhase::PostChecking), ..self },
                StreamAction::PostCheck { parent_ref, check_header_proof },
            ),
            AdmissionStep::Apply => (
                StreamView { phase: Phase::Admitting(AdmissionPhase::Applying), ..self },
                StreamAction::Apply,
            ),
            AdmissionStep::Done(Ok(r)) => (
                StreamView { phase: Phase::Streaming, last_good: Some(r), ..self },
                StreamAction::Pull,
            ),
            AdmissionStep::Done(Err(error)) => self.halt(error),
        }
    }

    /// The next state and the action that an event leads to; `None` where
    /// the event does not answer what the run is waiting for. `elapsed` is
    /// the time since the last progress report; it enters only where the
    /// event is a block on which a report is due.
    pub open spec fn step(self, event: StreamEvent<R>, elapsed: Option<u128>) -> Option<
        (StreamView<R>, StreamAction<R>),
    > {
        match event {
            StreamEvent::Item(item) => match self.phase {
                Phase::Streaming => Some(
                    match item {
                        None => self.exhaust(),
                        Some(Err(error)) => self.halt(error),
                        Some(Ok(block)) => self.receive(block, elapsed),
                    },
                ),
                _ => None,
            },
            StreamEvent::Admission(answer) => match self.phase {
                Phase::Admitting(phase) => match admission_step(phase, answer) {
                    Some(step) => Some(self.advance(step)),
                    None => None,
                },
                _ => None,
            },
            StreamEvent::Committed(answer) => match self.phase {
                Phase::Salvaging(error) => Some(
                    (
                        StreamView { phase: Phase::Halted, ..self },
                        StreamAction::Finish { result: Err(error), secondary: salvaged(answer) },
                    ),
                ),
                Phase::Committing => Some(
                    (
                        StreamView { phase: Phase::Exhausted, ..self },
                        StreamAction::Finish { result: selected(answer), secondary: None },
                    ),
                ),
                _ => None,
            },
        }
    }

    /// Whether the executable counters can take what `event` brings.
    pub open spec fn has_room(self, event: StreamEvent<R>) -> bool {
        match event {
            StreamEvent::Item(Some(Ok(block))) => block.hash@ != self.block0@
                ==> self.info.has_room(block),
            _ => true,
        }
    }

    /// Whether a run in this state takes `event`.
    pub open spec fn accepts(self, event: StreamEvent<R>) -> bool {
        self.step(event, None) is Some && self.has_room(event)
    }
}

impl<R> StreamState<R> {
    /// The state before the first item: no block accepted, and a tracker
    /// that has received nothing. `block0` is the hash of the chain's first
    /// block.
    pub fn new(block0: HeaderHash) -> (state: StreamState<R>)
        ensures
            state@.is_start(),
            state@.block0 == block0,
            state@.info == Progress::initial(PROCESS_LOGGING_DISTANCE as nat),
    {
        StreamState::with_info(block0, BootstrapInfo::new())
    }

    /// As `new`, with a tracker of the caller's.
    pub fn with_info(block0: HeaderHash, info: BootstrapInfo) -> (state: StreamState<R>)
        ensures
            state@.is_start(),
            state@.block0 == block0,
            state.info == info,
    {
        StreamState { phase: Phase::Streaming, block0, last_good: None, info }
    }

    /// The stream is left on `error`.
    fn halt(&mut self, error: Error) -> (action: StreamAction<R>)
        ensures
            (final(self)@, action) == old(self)@.halt(error),
            final(self).info == old(self).info,
    {
        match self.last_good.take() {
            Some(r) => {
                self.phase = Phase::Salvaging(error);
                StreamAction::Commit(r)
            },
            None => {
                self.phase = Phase::Halted;
                StreamAction::Finish { result: Err(error), secondary: None }
            },
        }
    }

    /// The stream has ended.
    fn exhaust(&mut self) -> (action: StreamAction<R>)
        ensures
            (final(self)@, action) == old(self)@.exhaust(),
            final(self).info == old(self).info,
    {
        match self.last_good.take() {
            Some(r) => {
                self.phase = Phase::Committing;
                StreamAction::Commit(r)
            },
            None => {
                self.phase = Phase::Exhausted;
                StreamAction::Finish { result: Ok(()), secondary: None }
            },
        }
    }

    /// Whether the run is over.
    pub fn is_over(&self) -> (over: bool)
        ensures
            over == (self@.phase == Phase::Halted || self@.phase == Phase::Exhausted),
    {
        match &self.phase {
            Phase::Halted => true,
            Phase::Exhausted => true,
            _ => false,
        }
    }
}

/// Whether a step has made a progress report.
pub open spec fn made_report<R>(r: Result<StreamAction<R>, StreamEvent<R>>) -> bool {
    r matches Ok(StreamAction::PreCheck { report: Some(_), .. })
}

/// Takes what happened outside and says what is to happen next. A block on
/// which a progress report is due gets it made here, by the wall clock, and
/// handed out with the action. An event that the run is not waiting for, or
/// a block for which the tracker's counters have no room left, is handed
/// back and changes nothing.
pub fn bootstrap_from_stream<R>(state: &mut StreamState<R>, event: StreamEvent<R>) -> (r: Result<
    StreamAction<R>,
    StreamEvent<R>,
>)
    ensures
        old(state)@.accepts(event) ==> r is Ok && old(state)@.step(
            event,
            elapsed_between(final(state).info.last_reported(), old(state).info.last_reported()),
        ) == Some((final(state)@, r->Ok_0)),
        old(state)@.accepts(event) && !made_report(r) ==> final(state).info.last_reported() == old(
            state,
        ).info.last_reported(),
        !old(state)@.accepts(event) ==> r == Err::<StreamAction<R>, StreamEvent<R>>(event)
            && *final(state) == *old(state),
{
    step_with(state, event, None)
}

/// As `bootstrap_from_stream`, at the time `now` in place of the wall
/// clock's: a report that is due is made at that time, which becomes the
/// time of the last report.
pub fn bootstrap_from_stream_at<R>(
    state: &mut StreamState<R>,
    event: StreamEvent<R>,
    now: SystemTime,
) -> (r: Result<StreamAction<R>, StreamEvent<R>>)
    ensures
        old(state)@.accepts(event) ==> r is Ok && old(state)@.step(
            event,
            elapsed_between(now, old(state).info.last_reported()),
        ) == Some((final(state)@, r->Ok_0)),
        old(state)@.accepts(event) ==> final(state).info.last_reported() == if made_report(r) {
            now
        } else {
            old(state).info.last_reported()
        },
        !old(state)@.accepts(event) ==> r == Err::<StreamAction<R>, StreamEvent<R>>(event)
            && *final(state) == *old(state),
{
    step_with(state, event, Some(now))
}

/// The step, with a report that is due made at the time `now`, or by the
/// wall clock where there is none.
fn step_with<R>(state: &mut StreamState<R>, event: StreamEvent<R>, now: Option<SystemTime>) -> (r:
    Result<StreamAction<R>, StreamEvent<R>>)
    ensures
        old(state)@.accepts(event) ==> r is Ok && old(state)@.step(
            event,
            elapsed_between(final(state).info.last_reported(), old(state).info.last_reported()),
        ) == Some((final(state)@, r->Ok_0)),
        old(state)@.accepts(event) && !made_report(r) ==> final(state).info.last_reported() == old(
            state,
        ).info.last_reported(),
        old(state)@.accepts(event) && made_report(r) && now is Some ==> final(state).info.last_reported()
            == now->Some_0,
        !old(state)@.accepts(event) ==> r == Err::<StreamAction<R>, StreamEvent<R>>(event)
            && *final(state) == *old(state),
{
    match event {
        StreamEvent::Item(item) => {
            match &state.phase {
                Phase::Streaming => {},
                _ => {
                    return Err(StreamEvent::Item(item));
                },
            }
            match item {
                None => Ok(state.exhaust()),
                Some(Err(error)) => Ok(state.halt(error)),
                Some(Ok(block)) => {
                    if block.hash == state.block0 {
                        Ok(StreamAction::Pull)
                    } else if state.info.has_room(&block) {
                        state.info.append_block(&block);
                        state.phase = Phase::Admitting(AdmissionPhase::PreChecking);
                        let report = if state.info.is_report_due() {
                            match now {
                                Some(at) => Some(state.info.report_at(at)),
                                None => Some(state.info.report()),
                            }
                        } else {
                            None
                        };
                        Ok(StreamAction::PreCheck { report, allow_missing_parent: true })
                    } else {
                        Err(StreamEvent::Item(Some(Ok(block))))
                    }
                },
            }
        },
        StreamEvent::Admission(answer) => {
            let phase = match &state.phase {
                Phase::Admitting(phase) => *phase,
                _ => {
                    return Err(StreamEvent::Admission(answer));
                },
            };
            match handle_block(phase, answer) {
                Err(answer) => Err(StreamEvent::Admission(answer)),
                Ok(AdmissionStep::PostCheck { parent_ref, check_header_proof }) => {
                    state.phase = Phase::Admitting(AdmissionPhase::PostChecking);
                    Ok(StreamAction::PostCheck { parent_ref, check_header_proof })
                },
                Ok(AdmissionStep::Apply) => {
                    state.phase = Phase::Admitting(AdmissionPhase::Applying);
                    Ok(StreamAction::Apply)
                },
                Ok(AdmissionStep::Done(Ok(r))) => {
                    state.phase = Phase::Streaming;
                    state.last_good = Some(r);
                    Ok(StreamAction::Pull)
                },
                Ok(AdmissionStep::Done(Err(error))) => Ok(state.halt(error)),
            }
        },
        StreamEvent::Committed(answer) => {
            match &state.phase {
                Phase::Salvaging(_) => {},
                Phase::Committing => {},
                _ => {
                    return Err(StreamEvent::Committed(answer));
                },
            }
            let mut phase = Phase::Halted;
            core::mem::swap(&mut state.phase, &mut phase);
            match phase {
                Phase::Salvaging(error) => {
                    let secondary = match answer {
                        Ok(_) => None,
                        Err(cause) => Some(Error::ChainSelectionFailed(cause)),
                    };
                    Ok(StreamAction::Finish { result: Err(error), secondary })
                },
                _ => {
                    state.phase = Phase::Exhausted;
                    let result = match answer {
                        Ok(_) => Ok(()),
                        Err(cause) => Err(Error::ChainSelectionFailed(cause)),
                    };
                    Ok(StreamAction::Finish { result, secondary: None })
                },
            }
        },
    }
}

} // verus!
