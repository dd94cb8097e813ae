//! The stream of pulled blocks, merged with the shutdown signal: the signal
//! is looked at before every pull, and once it has fired the merged stream
//! yields `Interrupted` and nothing else.

use crate::block::Block;
use crate::error::{Cause, Error};
use futures::channel::oneshot::{Canceled, Receiver};
use futures::future::{FusedFuture, Shared};
use std::future::Future;
use std::pin::Pin;
use std::task::Context;
use vstd::prelude::*;

verus! {

/// `Shared` of futures: a handle to a future that several tasks await. The
/// shutdown signal is one of these, over the receiving end of a one-shot
/// channel.
#[verifier::external_type_specification]
#[verifier::external_body]
#[verifier::reject_recursive_types(Fut)]
pub struct ExShared<Fut: Future>(Shared<Fut>);

/// `oneshot::Receiver` of futures: the receiving end of a one-shot channel.
#[verifier::external_type_specification]
#[verifier::external_body]
#[verifier::reject_recursive_types(T)]
pub struct ExReceiver<T>(Receiver<T>);

/// `oneshot::Canceled` of futures: what the receiving end yields when the
/// sending end is gone.
#[verifier::external_type_specification]
#[verifier::external_body]
pub struct ExCanceled(Canceled);

/// `Context` of std: the task on whose behalf a future is polled.
#[verifier::external_type_specification]
#[verifier::external_body]
pub struct ExContext<'a>(Context<'a>);

/// What `FusedFuture::is_terminated` gives for a handle to the signal:
/// whether this handle has handed out the outcome. Such a handle must not be
/// polled again.
pub uninterp spec fn spent(stopper: Shared<Receiver<()>>) -> bool;

/// What a look at the shutdown signal shows. Looking does not consume it.
#[derive(Clone, Copy, Debug, PartialEq, Eq, Structural)]
pub enum Signal {
    /// It has not fired yet.
    Pending,
    /// It has fired.
    Fired,
    /// Its source is gone and it never fired.
    Lost,
}

/// What to do at one poll of the merged stream.
#[derive(Clone, Copy, Debug, PartialEq, Eq, Structural)]
pub enum Poll {
    /// Poll the stream of blocks and yield what it gives.
    Stream,
    /// Yield `Interrupted` and leave the stream of blocks alone.
    Interrupted,
    /// The signal can no longer be observed: the process is to stop. This is
    /// no outcome of the run.
    Abort,
}

/// `FusedFuture::is_terminated` on a handle to the signal: whether the
/// handle has handed out the outcome.
#[verifier::external_body]
fn is_spent(stopper: &Shared<Receiver<()>>) -> (r: bool)
    ensures
        r == spent(*stopper),
{
    stopper.is_terminated()
}

/// `Future::poll` on a handle to the signal, which must not have handed out
/// the outcome before: `None` while the signal is pending, and else the
/// outcome. The handle has handed out the outcome afterwards exactly if the
/// poll gave one. Whether it gives one, and which, is left open. On such a
/// handle the poll does not panic for having been made too often. It may
/// still unwind where the waker of the caller's context panics or the table
/// of wakers cannot grow.
#[verifier::external_body]
fn look(stopper: &mut Shared<Receiver<()>>, cx: &mut Context<'_>) -> (outcome: Option<
    Result<(), Canceled>,
>)
    requires
        !spent(*old(stopper)),
    ensures
        spent(*final(stopper)) == (outcome is Some),
{
    match Pin::new(stopper).poll(cx) {
        std::task::Poll::Pending => None,
        std::task::Poll::Ready(outcome) => Some(outcome),
    }
}

/// What the outcome of the signal means: it has fired, or its source went
/// away without firing it.
pub open spec fn outcome_signal(outcome: Result<(), Canceled>) -> Signal {
    match outcome {
        Ok(_) => Signal::Fired,
        Err(_) => Signal::Lost,
    }
}

/// What is known of the signal after a look, given what was known before:
/// what was once seen fired or lost stays so.
pub open spec fn observed(seen: Signal, signal: Signal) -> Signal {
    if seen == Signal::Pending {
        signal
    } else {
        seen
    }
}

/// What a poll is to do, given what is known of the signal.
pub open spec fn verdict(seen: Signal) -> Poll {
    match seen {
        Signal::Pending => Poll::Stream,
        Signal::Fired => Poll::Interrupted,
        Signal::Lost => Poll::Abort,
    }
}

/// The merged stream's item for an item of the stream of blocks.
pub open spec fn merged_item(item: Option<Result<Block, Cause>>) -> Option<Result<Block, Error>> {
    match item {
        None => None,
        Some(Ok(block)) => Some(Ok(block)),
        Some(Err(cause)) => Some(Err(Error::PullStreamFailed(cause))),
    }
}

/// The merged stream's item once the signal has fired.
pub open spec fn interrupted_item() -> Option<Result<Block, Error>> {
    Some(Err(Error::Interrupted))
}

/// What the outcome of the signal means.
pub fn signal_of(outcome: Result<(), Canceled>) -> (signal: Signal)
    ensures
        signal == outcome_signal(outcome),
{
    match outcome {
        Ok(_) => Signal::Fired,
        Err(_) => Signal::Lost,
    }
}

/// What a poll of the handle means: the signal is pending while the poll
/// gives no outcome, and else what the outcome means.
pub open spec fn polled_signal(outcome: Option<Result<(), Canceled>>) -> Signal {
    match outcome {
        None => Signal::Pending,
        Some(outcome) => outcome_signal(outcome),
    }
}

/// What is known of the signal after a poll of the handle gave `outcome`,
/// given what was known before.
pub fn absorb(seen: Signal, outcome: Option<Result<(), Canceled>>) -> (known: Signal)
    ensures
        known == observed(seen, polled_signal(outcome)),
{
    match outcome {
        None => observe(seen, Signal::Pending),
        Some(outcome) => observe(seen, signal_of(outcome)),
    }
}

/// What is known of the signal after a look at it.
pub fn observe(seen: Signal, signal: Signal) -> (known: Signal)
    ensures
        known == observed(seen, signal),
{
    match seen {
        Signal::Pending => signal,
        _ => seen,
    }
}

/// What a poll is to do, given what is known of the signal.
pub fn decide(seen: Signal) -> (poll: Poll)
    ensures
        poll == verdict(seen),
{
    match seen {
        Signal::Pending => Poll::Stream,
        Signal::Fired => Poll::Interrupted,
        Signal::Lost => Poll::Abort,
    }
}

/// The merged stream's hold on the signal, and what it has seen of it.
pub struct Merger {
    stopper: Shared<Receiver<()>>,
    seen: Signal,
}

impl Merger {
    /// What the merged stream has seen of the signal so far.
    pub closed spec fn seen(self) -> Signal {
        self.seen
    }

    /// The merged stream's handle to the signal.
    pub closed spec fn handle(self) -> Shared<Receiver<()>> {
        self.stopper
    }

    /// A merged stream over the signal. A handle that has handed out the
    /// outcome already can show nothing any more: the signal counts as lost.
    pub fn new(stopper: Shared<Receiver<()>>) -> (merger: Merger)
        ensures
            merger.handle() == stopper,
            merger.seen() == if spent(stopper) {
                Signal::Lost
            } else {
                Signal::Pending
            },
    {
        let seen = if is_spent(&stopper) {
            Signal::Lost
        } else {
            Signal::Pending
        };
        Merger { stopper, seen }
    }

    /// What has been seen of the signal so far.
    pub fn known(&self) -> (seen: Signal)
        ensures
            seen == self.seen(),
    {
        self.seen
    }

    /// One poll of the merged stream: the signal is looked at, unless it was
    /// seen fired or lost before, and what is known of it then decides. Once
    /// the signal was seen fired, every poll yields `Interrupted`. The
    /// handle is polled only while it has not handed out the outcome; one
    /// that has, without the merged stream having seen it, counts as lost.
    /// After the poll, the signal counts as pending exactly while the
    /// handle has not handed out the outcome.
    pub fn poll(&mut self, cx: &mut Context<'_>) -> (poll: Poll)
        ensures
            poll == verdict(final(self).seen()),
            old(self).seen() != Signal::Pending ==> *final(self) == *old(self),
            old(self).seen() == Signal::Pending ==> (final(self).seen() == Signal::Pending)
                == !spent(final(self).handle()),
    {
        match self.seen {
            Signal::Pending => {
                if is_spent(&self.stopper) {
                    self.seen = Signal::Lost;
                } else {
                    let outcome = look(&mut self.stopper, cx);
                    self.seen = absorb(Signal::Pending, outcome);
                }
            },
            _ => {},
        }
        decide(self.seen)
    }

    /// What the merged stream yields for an item of the stream of blocks.
    pub fn item(item: Option<Result<Block, Cause>>) -> (merged: Option<Result<Block, Error>>)
        ensures
            merged == merged_item(item),
    {
        match item {
            None => None,
            Some(Ok(block)) => Some(Ok(block)),
            Some(Err(cause)) => Some(Err(Error::PullStreamFailed(cause))),
        }
    }

    /// What the merged stream yields once the signal has fired.
    pub fn interrupted() -> (merged: Option<Result<Block, Error>>)
        ensures
            merged == interrupted_item(),
    {
        Some(Err(Error::Interrupted))
    }
}

} // verus!
