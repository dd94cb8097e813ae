//! What holds of every run over a stream.

use crate::block::{HeaderHash, PreCheckedHeader};
use crate::error::Error;
use crate::merger::{observed, verdict, Poll, Signal};
use crate::orchestrator::{setup_step, Setup, SetupAction, SetupEvent};
use crate::progress::{Progress, Report};
use crate::run::Outcome;
use crate::run::{after_turn, conclude, run, turn, Delivery, Script};
use crate::stream::{salvaged, selected, Phase, StreamAction, StreamView};
use vstd::arithmetic::div_mod::{lemma_fundamental_div_mod, lemma_fundamental_div_mod_converse};
use vstd::prelude::*;

verus! {

impl<R> Delivery<R> {
    /// The delivery is the chain's first block.
    pub open spec fn is_first_block(self, block0: HeaderHash) -> bool {
        self.item matches Ok(block) && block.hash@ == block0@
    }

    /// The delivery is a block other than the chain's first.
    pub open spec fn is_other_block(self, block0: HeaderHash) -> bool {
        self.item matches Ok(block) && block.hash@ != block0@
    }

    /// The error on which the run leaves the stream at this delivery, if it
    /// does.
    pub open spec fn refusal(self, block0: HeaderHash) -> Option<Error> {
        match self.item {
            Err(cause) => Some(Error::PullStreamFailed(cause)),
            Ok(block) => if block.hash@ == block0@ {
                None
            } else {
                match self.pre_check {
                    Err(cause) => Some(Error::HeaderCheckFailed(cause)),
                    Ok(PreCheckedHeader::AlreadyPresent { hash, cached_reference: Some(r) }) => None,
                    Ok(PreCheckedHeader::AlreadyPresent { hash, cached_reference: None }) => Some(
                        Error::BlockNotOnBranch(hash),
                    ),
                    Ok(PreCheckedHeader::MissingParent { hash }) => Some(
                        Error::BlockMissingParent(hash),
                    ),
                    Ok(PreCheckedHeader::HeaderWithCache { hash, parent_ref }) => match self.post_check {
                        Err(cause) => Some(Error::HeaderCheckFailed(cause)),
                        Ok(_) => match self.apply {
                            Err(cause) => Some(Error::ApplyBlockFailed(cause)),
                            Ok(r) => None,
                        },
                    },
                }
            },
        }
    }

    /// The header is new.
    pub open spec fn is_new(self) -> bool {
        self.pre_check matches Ok(PreCheckedHeader::HeaderWithCache { hash, parent_ref })
    }

    /// The block is new, follows on what is there, and is valid: it gets
    /// through admission into storage.
    pub open spec fn is_fresh(self, block0: HeaderHash) -> bool {
        self.is_other_block(block0) && self.is_new() && self.post_check is Ok && self.apply is Ok
    }

    /// The block is there already, on a validated branch.
    pub open spec fn is_known(self, block0: HeaderHash) -> bool {
        self.is_other_block(block0)
            && self.pre_check matches Ok(
            PreCheckedHeader::AlreadyPresent { hash, cached_reference: Some(r) },
        )
    }

    /// The block is there already, on no validated branch.
    pub open spec fn is_orphan(self, block0: HeaderHash) -> bool {
        self.is_other_block(block0)
            && self.pre_check matches Ok(
            PreCheckedHeader::AlreadyPresent { hash, cached_reference: None },
        )
    }

    /// The run takes the delivery and stays in the stream.
    pub open spec fn passes(self, block0: HeaderHash) -> bool {
        self.item is Ok && self.refusal(block0) is None
    }

    /// The run accepts the block: it passes and is not the chain's first.
    pub open spec fn is_accepted(self, block0: HeaderHash) -> bool {
        self.is_other_block(block0) && self.refusal(block0) is None
    }

    /// The reference at which the block is accepted, if it is.
    pub open spec fn reference(self) -> R {
        match self.pre_check {
            Ok(PreCheckedHeader::AlreadyPresent { hash, cached_reference: Some(r) }) => r,
            _ => self.apply->Ok_0,
        }
    }
}

impl<R> Script<R> {
    /// The signal has not fired by the poll for position `k`, or fires just
    /// then.
    pub open spec fn quiet_before(self, k: nat) -> bool {
        self.cancel_at matches Some(c) ==> c >= k
    }

    /// The run takes every delivery from `from` up to `to` and stays in the
    /// stream.
    pub open spec fn passes_between(self, block0: HeaderHash, from: nat, to: nat) -> bool {
        forall|i: int| from <= i < to ==> (#[trigger] self.deliveries[i]).passes(block0)
    }

    /// Every delivery from `from` up to `to` is the chain's first block.
    pub open spec fn first_blocks_between(self, block0: HeaderHash, from: nat, to: nat) -> bool {
        forall|i: int| from <= i < to ==> (#[trigger] self.deliveries[i]).is_first_block(block0)
    }

    /// Among the deliveries before `k`, the one at `last` is the last that
    /// is accepted; with `None`, none of them is.
    pub open spec fn last_accepted_before(self, block0: HeaderHash, k: nat, last: Option<nat>) -> bool {
        match last {
            Some(j) => j < k && self.deliveries[j as int].is_accepted(block0)
                && self.first_blocks_between(block0, j + 1, k),
            None => self.first_blocks_between(block0, 0, k),
        }
    }

    /// The run leaves the stream at position `k`: the signal has fired, the
    /// delivery is refused, or the stream has ended.
    pub open spec fn leaves_at(self, block0: HeaderHash, k: nat) -> bool {
        k <= self.deliveries.len() && (self.cancel_at == Some(k) || k == self.deliveries.len()
            || self.deliveries[k as int].refusal(block0) is Some)
    }

    /// The error on which the run leaves the stream at position `k`; `None`
    /// where the stream has ended there.
    pub open spec fn leaving_error(self, block0: HeaderHash, k: nat) -> Option<Error> {
        if self.cancel_at == Some(k) {
            Some(Error::Interrupted)
        } else if k < self.deliveries.len() {
            self.deliveries[k as int].refusal(block0)
        } else {
            None
        }
    }

    /// What a run returns that leaves the stream at position `k`, having
    /// accepted a block before (`progress`) or not.
    pub open spec fn ending(self, block0: HeaderHash, k: nat, progress: bool) -> Result<(), Error> {
        match self.leaving_error(block0, k) {
            Some(error) => Err(error),
            None => if progress {
                selected(self.commit)
            } else {
                Ok(())
            },
        }
    }

    /// The failure that such a run logs and does not return.
    pub open spec fn ending_secondary(self, block0: HeaderHash, k: nat, progress: bool) -> Option<
        Error,
    > {
        if progress && self.leaving_error(block0, k) is Some {
            salvaged(self.commit)
        } else {
            None
        }
    }

    /// The references that such a run hands to chain selection.
    pub open spec fn ending_commits(self, last: Option<nat>) -> Seq<R> {
        match last {
            Some(j) => seq![self.deliveries[j as int].reference()],
            None => Seq::empty(),
        }
    }

    /// The delivery at position `p` is a block other than the chain's first.
    pub open spec fn other_block_at(self, block0: HeaderHash, p: nat) -> bool {
        p < self.deliveries.len() && self.deliveries[p as int].is_other_block(block0)
    }
}

/// The positions from `from` up to `to`, in order.
pub open spec fn positions(from: nat, to: nat) -> Seq<nat> {
    Seq::new((to - from) as nat, |i: int| (from + i) as nat)
}

/// A run that leaves the stream at position `k`, seen from position `pos`
/// on its way there.
proof fn lemma_leaving<R>(s: StreamView<R>, script: Script<R>, pos: nat, k: nat, last: Option<nat>)
    requires
        s.phase == Phase::Streaming,
        pos <= k,
        script.quiet_before(k),
        script.passes_between(s.block0, pos, k),
        script.leaves_at(s.block0, k),
        match last {
            Some(j) => j < k && script.deliveries[j as int].is_accepted(s.block0)
                && script.first_blocks_between(s.block0, if j + 1 > pos {
                    j + 1
                } else {
                    pos
                }, k) && (pos > j ==> s.last_good == Some(script.deliveries[j as int].reference())),
            None => script.first_blocks_between(s.block0, pos, k) && s.last_good is None,
        },
    ensures
        run(s, script, pos) matches Some(o) && o.commits == script.ending_commits(last) && o.result
            == script.ending(s.block0, k, last is Some) && o.secondary == script.ending_secondary(
            s.block0,
            k,
            last is Some,
        ) && o.polled == k - pos + 1,
    decreases k - pos,
{
    let d = script.deliveries[pos as int];
    let t = turn(s, script.yielded(pos), d);
    if pos < k {
        assert(d.passes(s.block0));
        assert(t is Some);
        let t = t->Some_0;
        assert(t.action == StreamAction::<R>::Pull);
        assert(t.state.phase == Phase::Streaming);
        assert(t.state.block0 == s.block0);
        match last {
            Some(j) => {
                if pos > j {
                    assert(d.is_first_block(s.block0));
                }
            },
            None => {
                assert(d.is_first_block(s.block0));
            },
        }
        lemma_leaving(t.state, script, pos + 1, k, last);
    } else {
        assert(t is Some);
        let t = t->Some_0;
        assert(t.action != StreamAction::<R>::Pull);
        assert(conclude(t.state, t.action, script.commit) is Some);
    }
}

/// The positions that a run takes through classification and into storage,
/// seen from position `pos`.
proof fn lemma_positions<R>(s: StreamView<R>, script: Script<R>, pos: nat)
    requires
        s.phase == Phase::Streaming,
        pos <= script.deliveries.len(),
    ensures
        run(s, script, pos) matches Some(o) && o.state.block0 == s.block0
            && o.state.info.block_received == s.info.block_received + o.checked.len()
            && o.applied.len() <= o.checked.len() && pos + o.polled <= script.deliveries.len() + 1
            && (forall|i: int|
            0 <= i < o.checked.len() ==> pos <= #[trigger] o.checked[i] < pos + o.polled
                && script.other_block_at(s.block0, o.checked[i])) && (forall|i: int|
            0 <= i < o.applied.len() ==> pos <= #[trigger] o.applied[i] < pos + o.polled
                && script.other_block_at(s.block0, o.applied[i])
                && script.deliveries[o.applied[i] as int].is_new()),
    decreases script.deliveries.len() - pos,
{
    let d = script.deliveries[pos as int];
    let t = turn(s, script.yielded(pos), d);
    assert(t is Some);
    let t = t->Some_0;
    assert(t.checked ==> script.other_block_at(s.block0, pos));
    assert(t.applied ==> t.checked && d.is_new());
    if t.action == StreamAction::<R>::Pull {
        assert(pos < script.deliveries.len());
        lemma_positions(t.state, script, pos + 1);
        let rest = run(t.state, script, pos + 1)->Some_0;
        let o = after_turn(pos, t, rest);
        assert forall|i: int| 0 <= i < o.checked.len() implies pos <= #[trigger] o.checked[i] < pos
            + o.polled && script.other_block_at(s.block0, o.checked[i]) by {
            if t.checked && i > 0 {
                assert(o.checked[i] == rest.checked[i - 1]);
            }
        }
        assert forall|i: int| 0 <= i < o.applied.len() implies pos <= #[trigger] o.applied[i] < pos
            + o.polled && script.other_block_at(s.block0, o.applied[i])
            && script.deliveries[o.applied[i] as int].is_new() by {
            if t.applied && i > 0 {
                assert(o.applied[i] == rest.applied[i - 1]);
            }
        }
    } else {
        assert(conclude(t.state, t.action, script.commit) is Some);
        let rest = conclude(t.state, t.action, script.commit)->Some_0;
        let o = after_turn(pos, t, rest);
        assert(rest.checked.len() == 0);
        assert(rest.applied.len() == 0);
    }
}

/// In a run without a signal over blocks that all get into storage, every
/// position is classified and stored, in order.
proof fn lemma_all_stored<R>(s: StreamView<R>, script: Script<R>, pos: nat)
    requires
        s.phase == Phase::Streaming,
        pos <= script.deliveries.len(),
        script.cancel_at is None,
        forall|i: int|
            pos <= i < script.deliveries.len() ==> (#[trigger] script.deliveries[i]).is_fresh(
                s.block0,
            ),
    ensures
        run(s, script, pos) matches Some(o) && o.checked == positions(pos, script.deliveries.len())
            && o.applied == positions(pos, script.deliveries.len()),
    decreases script.deliveries.len() - pos,
{
    let len = script.deliveries.len();
    let d = script.deliveries[pos as int];
    let t = turn(s, script.yielded(pos), d);
    if pos < len {
        assert(d.is_fresh(s.block0));
        assert(t is Some);
        let t = t->Some_0;
        assert(t.action == StreamAction::<R>::Pull);
        assert(t.checked && t.applied);
        lemma_all_stored(t.state, script, pos + 1);
        let rest = run(t.state, script, pos + 1)->Some_0;
        assert(seq![pos] + positions(pos + 1, len) =~= positions(pos, len));
    } else {
        assert(t is Some);
        let t = t->Some_0;
        assert(conclude(t.state, t.action, script.commit) is Some);
        assert(positions(pos, len) =~= Seq::<nat>::empty());
    }
}

/// A run that leaves the stream at position `k`, on whatever ground, hands
/// to chain selection the reference of the block accepted last, once, if a
/// block was accepted, and nothing otherwise. It returns the error on which
/// it left; where the stream ended, it returns what chain selection
/// answered, or success without asking where no block was accepted. A
/// failure of chain selection after an error is logged and not returned.
/// The merged stream is not asked beyond position `k`.
pub proof fn law_leaving_keeps_progress<R>(
    s: StreamView<R>,
    script: Script<R>,
    k: nat,
    last: Option<nat>,
)
    requires
        s.is_start(),
        script.quiet_before(k),
        script.passes_between(s.block0, 0, k),
        script.leaves_at(s.block0, k),
        script.last_accepted_before(s.block0, k, last),
    ensures
        run(s, script, 0) matches Some(o) && o.commits == script.ending_commits(last) && o.result
            == script.ending(s.block0, k, last is Some) && o.secondary == script.ending_secondary(
            s.block0,
            k,
            last is Some,
        ) && o.polled == k + 1,
{
    lemma_leaving(s, script, 0, k, last);
}

/// Where every block of a stream is new, follows on what is there and is
/// valid, and no signal fires: every block is stored, in order; the
/// reference of the last one is handed to chain selection, once; and the run
/// returns what chain selection answered.
pub proof fn law_fresh_stream_commits_last<R>(s: StreamView<R>, script: Script<R>)
    requires
        s.is_start(),
        script.cancel_at is None,
        script.deliveries.len() > 0,
        forall|i: int|
            0 <= i < script.deliveries.len() ==> (#[trigger] script.deliveries[i]).is_fresh(
                s.block0,
            ),
    ensures
        run(s, script, 0) matches Some(o) && o.commits == seq![
            script.deliveries.last().apply->Ok_0,
        ] && o.result == selected(script.commit) && o.secondary is None && o.applied == positions(
            0,
            script.deliveries.len(),
        ),
{
    let len = script.deliveries.len();
    let last = (len - 1) as nat;
    assert(script.deliveries[last as int].is_fresh(s.block0));
    assert forall|i: int| 0 <= i < len implies (#[trigger] script.deliveries[i]).passes(
        s.block0,
    ) by {
        assert(script.deliveries[i].is_fresh(s.block0));
    }
    lemma_leaving(s, script, 0, len, Some(last));
    lemma_all_stored(s, script, 0);
}

/// Where the signal fires after blocks were accepted, none refused: the
/// reference of the block accepted last is handed to chain selection, once,
/// and the run returns `Interrupted`, whatever chain selection answers. For
/// a block that was stored, that reference is the one that storing it gave.
pub proof fn law_cancelled_after_progress<R>(s: StreamView<R>, script: Script<R>, k: nat, j: nat)
    requires
        s.is_start(),
        script.cancel_at == Some(k),
        k <= script.deliveries.len(),
        script.passes_between(s.block0, 0, k),
        script.last_accepted_before(s.block0, k, Some(j)),
    ensures
        run(s, script, 0) matches Some(o) && o.commits == seq![
            script.deliveries[j as int].reference(),
        ] && o.result == Err::<(), Error>(Error::Interrupted) && o.polled == k + 1,
        script.deliveries[j as int].is_fresh(s.block0) ==> script.deliveries[j as int].reference()
            == script.deliveries[j as int].apply->Ok_0,
{
    lemma_leaving(s, script, 0, k, Some(j));
}

/// Where the signal fires before any block was accepted: nothing is handed
/// to chain selection, nothing is classified or stored, and the run returns
/// `Interrupted`.
pub proof fn law_cancelled_before_progress<R>(s: StreamView<R>, script: Script<R>, k: nat)
    requires
        s.is_start(),
        script.cancel_at == Some(k),
        k <= script.deliveries.len(),
        script.first_blocks_between(s.block0, 0, k),
    ensures
        run(s, script, 0) matches Some(o) && o.commits == Seq::<R>::empty() && o.result == Err::<
            (),
            Error,
        >(Error::Interrupted) && o.secondary is None && o.checked == Seq::<nat>::empty()
            && o.applied == Seq::<nat>::empty() && o.state.info == s.info,
{
    assert forall|i: int| 0 <= i < k implies (#[trigger] script.deliveries[i]).passes(
        s.block0,
    ) by {
        assert(script.deliveries[i].is_first_block(s.block0));
    }
    lemma_leaving(s, script, 0, k, None);
    lemma_untouched(s, script, 0, k);
}

/// A run over first blocks only, up to where it leaves the stream on the
/// signal, classifies and stores nothing and counts nothing.
proof fn lemma_untouched<R>(s: StreamView<R>, script: Script<R>, pos: nat, k: nat)
    requires
        s.phase == Phase::Streaming,
        pos <= k <= script.deliveries.len(),
        script.cancel_at == Some(k),
        script.first_blocks_between(s.block0, pos, k),
    ensures
        run(s, script, pos) matches Some(o) && o.checked == Seq::<nat>::empty() && o.applied
            == Seq::<nat>::empty() && o.state.info == s.info,
    decreases k - pos,
{
    let d = script.deliveries[pos as int];
    let t = turn(s, script.yielded(pos), d);
    if pos < k {
        assert(d.is_first_block(s.block0));
        assert(t is Some);
        let t = t->Some_0;
        assert(t.state == s);
        lemma_untouched(s, script, pos + 1, k);
    } else {
        assert(t is Some);
        let t = t->Some_0;
        assert(conclude(t.state, t.action, script.commit) is Some);
    }
}

/// Where a block is known already and lies on no validated branch, after
/// blocks that were not refused: the run returns `BlockNotOnBranch` with the
/// hash that the classification gave; the reference of the block accepted
/// last before it is handed to chain selection, if there is one; and nothing
/// behind that block is asked for, classified or stored.
pub proof fn law_orphan_ends_run<R>(s: StreamView<R>, script: Script<R>, k: nat, last: Option<nat>)
    requires
        s.is_start(),
        k < script.deliveries.len(),
        script.cancel_at matches Some(c) ==> c > k,
        script.passes_between(s.block0, 0, k),
        script.deliveries[k as int].is_orphan(s.block0),
        script.last_accepted_before(s.block0, k, last),
    ensures
        run(s, script, 0) matches Some(o) && o.commits == script.ending_commits(last) && o.polled
            == k + 1 && (forall|i: int| 0 <= i < o.checked.len() ==> #[trigger] o.checked[i] <= k)
            && (forall|i: int| 0 <= i < o.applied.len() ==> #[trigger] o.applied[i] < k) && (
        script.deliveries[k as int].pre_check matches Ok(
            PreCheckedHeader::AlreadyPresent { hash, cached_reference },
        ) && o.result == Err::<(), Error>(Error::BlockNotOnBranch(hash))),
{
    lemma_leaving(s, script, 0, k, last);
    lemma_positions(s, script, 0);
    let o = run(s, script, 0)->Some_0;
    assert forall|i: int| 0 <= i < o.applied.len() implies #[trigger] o.applied[i] < k by {
        assert(script.deliveries[o.applied[i] as int].is_new());
    }
}

/// The chain's first block, wherever it stands in a stream, is neither
/// classified nor stored, and the tracker does not count it: what a run
/// classifies are blocks other than the first; it counts exactly those; and
/// what it stores is among them.
pub proof fn law_first_block_passed_over<R>(s: StreamView<R>, script: Script<R>)
    requires
        s.phase == Phase::Streaming,
    ensures
        run(s, script, 0) matches Some(o) && o.state.info.block_received == s.info.block_received
            + o.checked.len() && (forall|i: int|
            0 <= i < o.checked.len() ==> script.other_block_at(s.block0, #[trigger] o.checked[i]))
            && (forall|i: int|
            0 <= i < o.applied.len() ==> script.other_block_at(s.block0, #[trigger] o.applied[i])),
{
    lemma_positions(s, script, 0);
}

/// How many reports were made.
pub open spec fn count_made(reports: Seq<Option<Report>>) -> nat
    decreases reports.len(),
{
    if reports.len() == 0 {
        0
    } else if reports[0] is Some {
        1 + count_made(reports.skip(1))
    } else {
        count_made(reports.skip(1))
    }
}

/// The block that a run counted as its `i`-th was counted rightly: the
/// tracker has one block more than with the block counted before, and its
/// bytes more; it describes this block as its latest; and a report was made
/// exactly if the count of blocks had come to a multiple of the distance,
/// on the counters as they stood then and the time that the script gives.
/// `start` are the counters with which the run began.
pub open spec fn counted_rightly<R>(script: Script<R>, start: Progress, o: Outcome<R>, i: int) -> bool {
    let before = if i == 0 {
        start
    } else {
        o.counted[i - 1]
    };
    let delivery = script.deliveries[o.checked[i] as int];
    let block = delivery.item->Ok_0;
    let after = o.counted[i];
    &&& after.block_received == start.block_received + i + 1
    &&& after.bytes_received == before.bytes_received + block.size
    &&& after.last_block_description == Some(block.description)
    &&& after.distance == start.distance
    &&& o.reports[i] == if after.block_received % after.distance == 0 {
        Some(after.report_for(delivery.elapsed))
    } else {
        None
    }
}

/// The tracker of a run counts the blocks that go to classification, each
/// once and in order, and nothing else, and a report is made on every block
/// with which the count comes to a multiple of the distance: as many
/// reports as there are such multiples between the count at the start and
/// the count at the end. For a run that starts at zero and counts `n`
/// blocks these are `n / distance`.
pub proof fn law_reports_on_cadence<R>(s: StreamView<R>, script: Script<R>)
    requires
        s.phase == Phase::Streaming,
        s.info.distance > 0,
    ensures
        run(s, script, 0) matches Some(o) && o.counted.len() == o.checked.len()
            && o.reports.len() == o.checked.len() && (forall|i: int|
            0 <= i < o.checked.len() ==> #[trigger] counted_rightly(script, s.info, o, i))
            && o.state.info.block_received == s.info.block_received + o.checked.len()
            && o.state.info.bytes_received == (if o.checked.len() == 0 {
            s.info.bytes_received
        } else {
            o.counted.last().bytes_received
        }) && count_made(o.reports) == (s.info.block_received + o.checked.len())
            / s.info.distance - s.info.block_received / s.info.distance,
{
    lemma_tracked(s, script, 0);
}

/// From one count to the next there is a multiple of the distance exactly
/// if the next count is one.
proof fn lemma_next_multiple(c: nat, d: nat)
    requires
        d > 0,
    ensures
        (c + 1) / d - c / d == if (c + 1) % d == 0 {
            1int
        } else {
            0int
        },
{
    let q = c as int / d as int;
    let r = c as int % d as int;
    lemma_fundamental_div_mod(c as int, d as int);
    assert(c == d * q + r);
    assert(d * q == q * d) by (nonlinear_arith);
    if r + 1 < d {
        lemma_fundamental_div_mod_converse(c as int + 1, d as int, q, r + 1);
    } else {
        assert((q + 1) * d == q * d + d) by (nonlinear_arith);
        lemma_fundamental_div_mod_converse(c as int + 1, d as int, q + 1, 0);
    }
}

proof fn lemma_tracked<R>(s: StreamView<R>, script: Script<R>, pos: nat)
    requires
        s.phase == Phase::Streaming,
        s.info.distance > 0,
        pos <= script.deliveries.len(),
    ensures
        run(s, script, pos) matches Some(o) && o.counted.len() == o.checked.len()
            && o.reports.len() == o.checked.len() && (forall|i: int|
            0 <= i < o.checked.len() ==> #[trigger] counted_rightly(script, s.info, o, i))
            && o.state.info.block_received == s.info.block_received + o.checked.len()
            && o.state.info.distance == s.info.distance && o.state.info.bytes_received == (if o.checked.len()
            == 0 {
            s.info.bytes_received
        } else {
            o.counted.last().bytes_received
        }) && count_made(o.reports) == (s.info.block_received + o.checked.len())
            / s.info.distance - s.info.block_received / s.info.distance,
    decreases script.deliveries.len() - pos,
{
    lemma_positions(s, script, pos);
    let d = script.deliveries[pos as int];
    let t = turn(s, script.yielded(pos), d)->Some_0;
    let rest = if t.action == StreamAction::<R>::Pull {
        lemma_tracked(t.state, script, pos + 1);
        run(t.state, script, pos + 1)->Some_0
    } else {
        conclude(t.state, t.action, script.commit)->Some_0
    };
    let o = after_turn(pos, t, rest);
    assert(run(s, script, pos) == Some(o));
    if t.action != StreamAction::<R>::Pull {
        assert(rest.checked.len() == 0 && rest.counted.len() == 0 && rest.reports.len() == 0);
        assert(rest.state.info == t.state.info);
        assert(count_made(rest.reports) == 0);
    }
    if t.checked {
        let block = d.item->Ok_0;
        assert(t.counted == s.info.append(block));
        assert(t.state.info.block_received == t.counted.block_received);
        assert(t.state.info.bytes_received == t.counted.bytes_received);
        assert(t.state.info.distance == t.counted.distance);
        assert(o.reports.skip(1) =~= rest.reports);
        lemma_next_multiple(s.info.block_received, s.info.distance);
        assert forall|i: int| 0 <= i < o.checked.len() implies #[trigger] counted_rightly(
            script,
            s.info,
            o,
            i,
        ) by {
            if i > 0 {
                assert(counted_rightly(script, t.state.info, rest, i - 1));
                assert(o.checked[i] == rest.checked[i - 1]);
                assert(o.counted[i] == rest.counted[i - 1]);
                assert(o.reports[i] == rest.reports[i - 1]);
                if i > 1 {
                    assert(o.counted[i - 1] == rest.counted[i - 2]);
                }
            }
        }
        if rest.checked.len() > 0 {
            assert(o.counted.last() == rest.counted.last());
        }
    } else {
        assert(t.state.info == s.info);
        assert forall|i: int| 0 <= i < o.checked.len() implies #[trigger] counted_rightly(
            script,
            s.info,
            o,
            i,
        ) by {
            assert(counted_rightly(script, t.state.info, rest, i));
        }
    }
}

/// Once the signal has fired by the poll for position `k`, nothing at that
/// position or behind it is classified or stored, and the merged stream is
/// not asked beyond it, whatever came before.
pub proof fn law_nothing_after_signal<R>(s: StreamView<R>, script: Script<R>, k: nat)
    requires
        s.phase == Phase::Streaming,
        script.cancel_at == Some(k),
    ensures
        run(s, script, 0) matches Some(o) && o.polled <= k + 1 && (forall|i: int|
            0 <= i < o.checked.len() ==> #[trigger] o.checked[i] < k) && (forall|i: int|
            0 <= i < o.applied.len() ==> #[trigger] o.applied[i] < k),
{
    lemma_positions(s, script, 0);
    if k <= script.deliveries.len() {
        lemma_before_signal(s, script, 0, k);
    }
}

proof fn lemma_before_signal<R>(s: StreamView<R>, script: Script<R>, pos: nat, k: nat)
    requires
        s.phase == Phase::Streaming,
        script.cancel_at == Some(k),
        pos <= k <= script.deliveries.len(),
    ensures
        run(s, script, pos) matches Some(o) && pos + o.polled <= k + 1 && (forall|i: int|
            0 <= i < o.checked.len() ==> #[trigger] o.checked[i] < k) && (forall|i: int|
            0 <= i < o.applied.len() ==> #[trigger] o.applied[i] < k),
    decreases k - pos,
{
    lemma_positions(s, script, pos);
    let t = turn(s, script.yielded(pos), script.deliveries[pos as int])->Some_0;
    if t.action == StreamAction::<R>::Pull {
        assert(pos < k);
        lemma_before_signal(t.state, script, pos + 1, k);
        let rest = run(t.state, script, pos + 1)->Some_0;
        let o = after_turn(pos, t, rest);
        assert forall|i: int| 0 <= i < o.checked.len() implies #[trigger] o.checked[i] < k by {
            if t.checked && i > 0 {
                assert(o.checked[i] == rest.checked[i - 1]);
            }
        }
        assert forall|i: int| 0 <= i < o.applied.len() implies #[trigger] o.applied[i] < k by {
            if t.applied && i > 0 {
                assert(o.applied[i] == rest.applied[i - 1]);
            }
        }
    } else {
        let rest = conclude(t.state, t.action, script.commit)->Some_0;
        assert(rest.checked.len() == 0 && rest.applied.len() == 0);
        assert(pos == k ==> !t.checked);
    }
}

/// The merged stream yields a block other than the chain's first at
/// position `p`.
pub open spec fn yields_other_block<R>(script: Script<R>, block0: HeaderHash, p: nat) -> bool {
    script.yielded(p) matches Some(Ok(block)) && block.hash@ != block0@
}

/// Every block other than the chain's first that a run takes from the
/// merged stream goes to classification, and so is counted.
pub proof fn law_every_other_block_counted<R>(s: StreamView<R>, script: Script<R>)
    requires
        s.phase == Phase::Streaming,
    ensures
        run(s, script, 0) matches Some(o) && (forall|p: nat|
            p < o.polled && #[trigger] yields_other_block(script, s.block0, p)
                ==> o.checked.contains(p)),
{
    lemma_all_counted(s, script, 0);
}

proof fn lemma_all_counted<R>(s: StreamView<R>, script: Script<R>, pos: nat)
    requires
        s.phase == Phase::Streaming,
        pos <= script.deliveries.len(),
    ensures
        run(s, script, pos) matches Some(o) && (forall|p: nat|
            pos <= p < pos + o.polled && #[trigger] yields_other_block(script, s.block0, p)
                ==> o.checked.contains(p)),
    decreases script.deliveries.len() - pos,
{
    lemma_positions(s, script, pos);
    let t = turn(s, script.yielded(pos), script.deliveries[pos as int])->Some_0;
    let rest = if t.action == StreamAction::<R>::Pull {
        lemma_all_counted(t.state, script, pos + 1);
        run(t.state, script, pos + 1)->Some_0
    } else {
        conclude(t.state, t.action, script.commit)->Some_0
    };
    let o = after_turn(pos, t, rest);
    assert(run(s, script, pos) == Some(o));
    assert forall|p: nat|
        pos <= p < pos + o.polled && #[trigger] yields_other_block(
            script,
            s.block0,
            p,
        ) implies o.checked.contains(p) by {
        if p == pos {
            assert(t.checked);
            assert(o.checked[0] == pos);
        } else {
            assert(t.action == StreamAction::<R>::Pull);
            assert(rest.checked.contains(p));
            let j = choose|j: int| 0 <= j < rest.checked.len() && rest.checked[j] == p;
            if t.checked {
                assert(o.checked[j + 1] == p);
            } else {
                assert(o.checked[j] == p);
            }
        }
    }
}

/// Blocks are taken in the order of the stream: the positions that a run
/// classifies, and those that it stores, come in rising order.
pub proof fn law_stream_order_kept<R>(s: StreamView<R>, script: Script<R>)
    requires
        s.phase == Phase::Streaming,
    ensures
        run(s, script, 0) matches Some(o) && (forall|i: int, j: int|
            0 <= i < j < o.checked.len() ==> o.checked[i] < o.checked[j]) && (forall|i: int, j: int|
            0 <= i < j < o.applied.len() ==> o.applied[i] < o.applied[j]),
{
    lemma_in_order(s, script, 0);
}

proof fn lemma_in_order<R>(s: StreamView<R>, script: Script<R>, pos: nat)
    requires
        s.phase == Phase::Streaming,
        pos <= script.deliveries.len(),
    ensures
        run(s, script, pos) matches Some(o) && (forall|i: int, j: int|
            0 <= i < j < o.checked.len() ==> o.checked[i] < o.checked[j]) && (forall|i: int, j: int|
            0 <= i < j < o.applied.len() ==> o.applied[i] < o.applied[j]),
    decreases script.deliveries.len() - pos,
{
    lemma_positions(s, script, pos);
    let t = turn(s, script.yielded(pos), script.deliveries[pos as int])->Some_0;
    if t.action == StreamAction::<R>::Pull {
        lemma_in_order(t.state, script, pos + 1);
        lemma_positions(t.state, script, pos + 1);
        let rest = run(t.state, script, pos + 1)->Some_0;
        let o = after_turn(pos, t, rest);
        assert forall|i: int, j: int| 0 <= i < j < o.checked.len() implies o.checked[i]
            < o.checked[j] by {
            if t.checked {
                assert(o.checked[j] == rest.checked[j - 1]);
                if i > 0 {
                    assert(o.checked[i] == rest.checked[i - 1]);
                }
            }
        }
        assert forall|i: int, j: int| 0 <= i < j < o.applied.len() implies o.applied[i]
            < o.applied[j] by {
            if t.applied {
                assert(o.applied[j] == rest.applied[j - 1]);
                if i > 0 {
                    assert(o.applied[i] == rest.applied[i - 1]);
                }
            }
        }
    } else {
        let rest = conclude(t.state, t.action, script.commit)->Some_0;
        assert(rest.checked.len() == 0 && rest.applied.len() == 0);
    }
}

/// Where every block of a stream is known already, on a validated branch,
/// and no signal fires: nothing is stored; the reference of the last block
/// is handed to chain selection, once; and the run returns what chain
/// selection answered.
pub proof fn law_known_stream_stores_nothing<R>(s: StreamView<R>, script: Script<R>)
    requires
        s.is_start(),
        script.cancel_at is None,
        script.deliveries.len() > 0,
        forall|i: int|
            0 <= i < script.deliveries.len() ==> (#[trigger] script.deliveries[i]).is_known(
                s.block0,
            ),
    ensures
        run(s, script, 0) matches Some(o) && o.applied == Seq::<nat>::empty() && o.commits == seq![
            script.deliveries.last().reference(),
        ] && o.result == selected(script.commit) && o.secondary is None,
{
    let len = script.deliveries.len();
    let last = (len - 1) as nat;
    assert(script.deliveries[last as int].is_known(s.block0));
    assert forall|i: int| 0 <= i < len implies (#[trigger] script.deliveries[i]).passes(
        s.block0,
    ) by {
        assert(script.deliveries[i].is_known(s.block0));
    }
    lemma_leaving(s, script, 0, len, Some(last));
    lemma_positions(s, script, 0);
    let o = run(s, script, 0)->Some_0;
    if o.applied.len() > 0 {
        let p = o.applied[0];
        assert(script.deliveries[p as int].is_new());
        assert(script.deliveries[p as int].is_known(s.block0));
    }
    assert(o.applied =~= Seq::<nat>::empty());
}

/// What the merged stream knows of the signal after looks at it that showed
/// `signals`, one after the other.
pub open spec fn observed_all(seen: Signal, signals: Seq<Signal>) -> Signal
    decreases signals.len(),
{
    if signals.len() == 0 {
        seen
    } else {
        observed_all(observed(seen, signals[0]), signals.skip(1))
    }
}

/// Once a look at the signal has shown it fired, with none before that
/// showed it lost, every later poll of the merged stream yields
/// `Interrupted` and leaves the stream of blocks alone, whatever the signal
/// would show then.
pub proof fn law_merger_stays_interrupted(signals: Seq<Signal>, k: int, later: Signal)
    requires
        0 <= k < signals.len(),
        signals[k] == Signal::Fired,
        forall|i: int| 0 <= i < k ==> signals[i] == Signal::Pending,
    ensures
        observed_all(Signal::Pending, signals) == Signal::Fired,
        verdict(observed(observed_all(Signal::Pending, signals), later)) == Poll::Interrupted,
    decreases signals.len(),
{
    lemma_observed_from(Signal::Pending, signals, k);
}

proof fn lemma_observed_from(seen: Signal, signals: Seq<Signal>, k: int)
    requires
        0 <= k < signals.len(),
        seen == Signal::Pending ==> signals[k] == Signal::Fired && forall|i: int|
            0 <= i < k ==> signals[i] == Signal::Pending,
        seen != Signal::Lost,
    ensures
        observed_all(seen, signals) == Signal::Fired,
    decreases signals.len(),
{
    let next = observed(seen, signals[0]);
    let rest = signals.skip(1);
    if rest.len() == 0 {
        assert(observed_all(next, rest) == next);
    } else if k > 0 {
        assert(seen == Signal::Pending ==> signals[0] == Signal::Pending);
        assert forall|i: int| 0 <= i < k - 1 implies rest[i] == signals[i + 1] by {}
        lemma_observed_from(next, rest, k - 1);
    } else {
        lemma_observed_from(next, rest, 0);
    }
}

/// However far the setup has come, once the signal is seen fired the run is
/// over with `Interrupted`, and nothing that arrives later opens the stream.
pub proof fn law_cancelled_setup_never_streams(state: Setup, later: SetupEvent)
    requires
        !state.is_over(),
    ensures
        setup_step(state, SetupEvent::Stopper(Signal::Fired)) == Some(
            (Setup::Failed, SetupAction::Fail(Error::Interrupted)),
        ),
        setup_step(Setup::Failed, later) is None,
{
}

/// A run that starts between blocks comes to an end, whatever the script.
pub proof fn law_run_ends<R>(s: StreamView<R>, script: Script<R>)
    requires
        s.phase == Phase::Streaming,
    ensures
        run(s, script, 0) matches Some(o) && (o.state.phase == Phase::Halted || o.state.phase
            == Phase::Exhausted) && o.commits.len() <= 1,
{
    lemma_ends(s, script, 0);
}

proof fn lemma_ends<R>(s: StreamView<R>, script: Script<R>, pos: nat)
    requires
        s.phase == Phase::Streaming,
        pos <= script.deliveries.len(),
    ensures
        run(s, script, pos) matches Some(o) && (o.state.phase == Phase::Halted || o.state.phase
            == Phase::Exhausted) && o.commits.len() <= 1,
    decreases script.deliveries.len() - pos,
{
    let d = script.deliveries[pos as int];
    let t = turn(s, script.yielded(pos), d);
    assert(t is Some);
    let t = t->Some_0;
    if t.action == StreamAction::<R>::Pull {
        assert(pos < script.deliveries.len());
        lemma_ends(t.state, script, pos + 1);
    } else {
        assert(conclude(t.state, t.action, script.commit) is Some);
    }
}

} // verus!
