//! Whole runs over a stream, as the state machine of `stream` makes them
//! when the world around it behaves as a script says and the caller does
//! what the machine asks for.

use crate::admission::AdmissionEvent;
use crate::block::{Block, PreCheckedHeader};
use crate::error::{Cause, Error};
use crate::merger::{interrupted_item, merged_item, observed, verdict, Poll, Signal};
use crate::progress::{Progress, Report};
use crate::stream::{StreamAction, StreamEvent, StreamView};
use vstd::prelude::*;

verus! {

/// One item of the peer's stream, with what the chain state answers about
/// the block when it is asked.
pub struct Delivery<R> {
    /// What the stream of blocks gives.
    pub item: Result<Block, Cause>,
    /// The answer on classifying the header.
    pub pre_check: Result<PreCheckedHeader<R>, Cause>,
    /// The answer on checking the header against its parent.
    pub post_check: Result<(), Cause>,
    /// The answer on storing the block: its reference.
    pub apply: Result<R, Cause>,
    /// The time that the clock shows to have passed since the last progress
    /// report, where one is made on this block.
    pub elapsed: Option<u128>,
}

/// How the world around a run behaves.
pub struct Script<R> {
    /// What the peer sends, in order. After the last the stream ends.
    pub deliveries: Seq<Delivery<R>>,
    /// With `Some(k)`, the shutdown signal has fired by the time the merged
    /// stream is polled for the item at position `k`.
    pub cancel_at: Option<nat>,
    /// What chain selection answers.
    pub commit: Result<(), Cause>,
}

/// What a run has come to.
pub struct Outcome<R> {
    /// The state in which the run is over.
    pub state: StreamView<R>,
    /// What the run returns.
    pub result: Result<(), Error>,
    /// A failure that is logged and not returned.
    pub secondary: Option<Error>,
    /// The references handed to chain selection, in order.
    pub commits: Seq<R>,
    /// Positions of the deliveries whose header went to classification.
    pub checked: Seq<nat>,
    /// The tracker's counters right after each of those blocks was counted,
    /// in the same order.
    pub counted: Seq<Progress>,
    /// The report made when each of those blocks was counted, if one was,
    /// in the same order.
    pub reports: Seq<Option<Report>>,
    /// Positions of the deliveries whose block went to storage.
    pub applied: Seq<nat>,
    /// How many items the merged stream was asked for.
    pub polled: nat,
}

/// What one item of the merged stream has led to: the state and the action
/// with which the run goes on, and how far the block went.
pub struct Turn<R> {
    pub state: StreamView<R>,
    pub action: StreamAction<R>,
    /// The header went to classification.
    pub checked: bool,
    /// The tracker's counters after the block was counted.
    pub counted: Progress,
    /// The report made when the block was counted, if one was.
    pub report: Option<Report>,
    /// The block went to storage.
    pub applied: bool,
}

/// The tracker's counters right after `item` was counted, if it is counted.
pub open spec fn counted_with(info: Progress, item: Option<Result<Block, Error>>) -> Progress {
    match item {
        Some(Ok(block)) => info.append(block),
        _ => info,
    }
}

impl<R> Script<R> {
    /// What a look at the signal shows at the poll for position `pos`.
    pub open spec fn signal_at(self, pos: nat) -> Signal {
        match self.cancel_at {
            Some(k) => if k <= pos {
                Signal::Fired
            } else {
                Signal::Pending
            },
            None => Signal::Pending,
        }
    }

    /// What the merged stream yields at position `pos`.
    pub open spec fn yielded(self, pos: nat) -> Option<Result<Block, Error>> {
        if verdict(observed(Signal::Pending, self.signal_at(pos))) == Poll::Interrupted {
            interrupted_item()
        } else if pos < self.deliveries.len() {
            merged_item(Some(self.deliveries[pos as int].item))
        } else {
            merged_item(None)
        }
    }
}

/// The run takes `item` from the merged stream and goes with the block, if
/// it is one, through admission, the chain state answering as `d` says.
/// `None` where the run was not between blocks.
pub open spec fn turn<R>(
    s: StreamView<R>,
    item: Option<Result<Block, Error>>,
    d: Delivery<R>,
) -> Option<Turn<R>> {
    match s.step(StreamEvent::Item(item), d.elapsed) {
        None => None,
        Some((s1, StreamAction::PreCheck { report, allow_missing_parent })) => match s1.step(
            StreamEvent::Admission(AdmissionEvent::PreChecked(d.pre_check)),
            None,
        ) {
            None => None,
            Some((s2, StreamAction::PostCheck { parent_ref, check_header_proof })) => match s2.step(
                StreamEvent::Admission(AdmissionEvent::PostChecked(d.post_check)),
                None,
            ) {
                None => None,
                Some((s3, StreamAction::Apply)) => match s3.step(
                    StreamEvent::Admission(AdmissionEvent::Applied(d.apply)),
                    None,
                ) {
                    None => None,
                    Some((s4, a4)) => Some(
                        Turn {
                            state: s4,
                            action: a4,
                            checked: true,
                            counted: counted_with(s.info, item),
                            report,
                            applied: true,
                        },
                    ),
                },
                Some((s3, a3)) => Some(
                    Turn {
                        state: s3,
                        action: a3,
                        checked: true,
                        counted: counted_with(s.info, item),
                        report,
                        applied: false,
                    },
                ),
            },
            Some((s2, a2)) => Some(
                Turn {
                    state: s2,
                    action: a2,
                    checked: true,
                    counted: counted_with(s.info, item),
                    report,
                    applied: false,
                },
            ),
        },
        Some((s1, a1)) => Some(
            Turn {
                state: s1,
                action: a1,
                checked: false,
                counted: s1.info,
                report: None,
                applied: false,
            },
        ),
    }
}

/// The end of a run that has left the stream with `action`: chain selection
/// is asked where the run wants it, and answers as `commit` says.
pub open spec fn conclude<R>(
    s: StreamView<R>,
    action: StreamAction<R>,
    commit: Result<(), Cause>,
) -> Option<Outcome<R>> {
    match action {
        StreamAction::Finish { result, secondary } => Some(
            Outcome {
                state: s,
                result,
                secondary,
                commits: Seq::empty(),
                checked: Seq::empty(),
                counted: Seq::empty(),
                reports: Seq::empty(),
                applied: Seq::empty(),
                polled: 0,
            },
        ),
        StreamAction::Commit(r) => match s.step(StreamEvent::Committed(commit), None) {
            Some((s1, StreamAction::Finish { result, secondary })) => Some(
                Outcome {
                    state: s1,
                    result,
                    secondary,
                    commits: seq![r],
                    checked: Seq::empty(),
                    counted: Seq::empty(),
                    reports: Seq::empty(),
                    applied: Seq::empty(),
                    polled: 0,
                },
            ),
            _ => None,
        },
        _ => None,
    }
}

/// `rest` with what the turn at position `pos` adds to it.
pub open spec fn after_turn<R>(pos: nat, t: Turn<R>, rest: Outcome<R>) -> Outcome<R> {
    Outcome {
        checked: if t.checked {
            seq![pos] + rest.checked
        } else {
            rest.checked
        },
        counted: if t.checked {
            seq![t.counted] + rest.counted
        } else {
            rest.counted
        },
        reports: if t.checked {
            seq![t.report] + rest.reports
        } else {
            rest.reports
        },
        applied: if t.applied {
            seq![pos] + rest.applied
        } else {
            rest.applied
        },
        polled: rest.polled + 1,
        ..rest
    }
}

/// The run from state `s`, between blocks, with the merged stream at
/// position `pos`, to its end. `None` where the state machine does not take
/// what the script brings.
pub open spec fn run<R>(s: StreamView<R>, script: Script<R>, pos: nat) -> Option<Outcome<R>>
    decreases script.deliveries.len() + 1 - pos,
{
    if pos > script.deliveries.len() {
        None
    } else {
        match turn(s, script.yielded(pos), script.deliveries[pos as int]) {
            None => None,
            Some(t) => {
                let rest = if t.action == StreamAction::<R>::Pull {
                    run(t.state, script, pos + 1)
                } else {
                    conclude(t.state, t.action, script.commit)
                };
                match rest {
                    Some(rest) => Some(after_turn(pos, t, rest)),
                    None => None,
                }
            },
        }
    }
}

} // verus!
