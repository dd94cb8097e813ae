//! Progress of a bootstrap run: counters of what was received, and the
//! periodic report on them.

use crate::block::Block;
use std::time::{Duration, SystemTime};
use vstd::prelude::*;

verus! {

/// `SystemTime` of std: a reading of the wall clock, carried as it is.
#[verifier::external_type_specification]
#[verifier::external_body]
pub struct ExSystemTime(SystemTime);

/// After how many accepted blocks a report is due, unless the caller says
/// otherwise.
pub const PROCESS_LOGGING_DISTANCE: u64 = 2500;

/// Nanoseconds in a second.
pub const NANOS_PER_SECOND: u64 = 1_000_000_000;

/// The unit in which a magnitude is shown.
#[derive(Clone, Copy, Debug, PartialEq, Eq, Structural)]
pub enum Unit {
    Bytes,
    Kilobytes,
    Megabytes,
}

/// The unit for a count of `n` bytes. The thresholds are decimal.
pub open spec fn unit_of(n: nat) -> Unit {
    if n >= 1_000_000 {
        Unit::Megabytes
    } else if n >= 1_000 {
        Unit::Kilobytes
    } else {
        Unit::Bytes
    }
}

/// The throughput of `bytes` in the time `elapsed`, in whole bytes per
/// second. There is none where the time could not be measured or was zero.
pub open spec fn rate_of(bytes: nat, elapsed: Option<u128>) -> Option<nat> {
    match elapsed {
        None => None,
        Some(nanos) => if nanos == 0 {
            None
        } else {
            Some((bytes * NANOS_PER_SECOND) as nat / (nanos as nat))
        },
    }
}

/// The unit in which a throughput is shown: the one for as many bytes as
/// pass in a second.
pub open spec fn rate_unit_of(bytes: nat, elapsed: Option<u128>) -> Option<Unit> {
    match rate_of(bytes, elapsed) {
        None => None,
        Some(rate) => Some(unit_of(rate)),
    }
}

impl Unit {
    /// By how many bytes a magnitude is divided to be shown in this unit.
    /// The divisors are binary.
    pub open spec fn spec_divisor(self) -> nat {
        match self {
            Unit::Bytes => 1,
            Unit::Kilobytes => 1024,
            Unit::Megabytes => 1024 * 1024,
        }
    }

    /// The unit for a count of `n` bytes.
    pub fn of(n: u64) -> (unit: Unit)
        ensures
            unit == unit_of(n as nat),
    {
        if n >= 1_000_000 {
            Unit::Megabytes
        } else if n >= 1_000 {
            Unit::Kilobytes
        } else {
            Unit::Bytes
        }
    }

    /// The unit for a throughput of `bytes` in the time `elapsed`.
    pub fn of_rate(bytes: u64, elapsed: Option<u128>) -> (unit: Option<Unit>)
        ensures
            unit == rate_unit_of(bytes as nat, elapsed),
    {
        match rate(bytes, elapsed) {
            None => None,
            Some(rate) => if rate >= 1_000_000 {
                Some(Unit::Megabytes)
            } else if rate >= 1_000 {
                Some(Unit::Kilobytes)
            } else {
                Some(Unit::Bytes)
            },
        }
    }

    pub fn divisor(self) -> (d: u64)
        ensures
            d == self.spec_divisor(),
    {
        match self {
            Unit::Bytes => 1,
            Unit::Kilobytes => 1024,
            Unit::Megabytes => 1_048_576,
        }
    }

    pub fn suffix(self) -> (s: &'static str)
        ensures
            s@ == match self {
                Unit::Bytes => "b"@,
                Unit::Kilobytes => "kb"@,
                Unit::Megabytes => "mb"@,
            },
    {
        match self {
            Unit::Bytes => "b",
            Unit::Kilobytes => "kb",
            Unit::Megabytes => "mb",
        }
    }
}

/// The throughput of `bytes` in the time `elapsed`, in whole bytes per
/// second.
pub fn rate(bytes: u64, elapsed: Option<u128>) -> (rate: Option<u128>)
    ensures
        match rate {
            Some(n) => rate_of(bytes as nat, elapsed) == Some(n as nat),
            None => rate_of(bytes as nat, elapsed) is None,
        },
{
    match elapsed {
        None => None,
        Some(nanos) => {
            if nanos == 0 {
                None
            } else {
                let wide: u128 = bytes as u128;
                Some(wide * 1_000_000_000 / nanos)
            }
        },
    }
}

/// What a report says.
#[derive(Clone, Debug, PartialEq, Eq)]
pub struct Report {
    /// Bytes received since the report before.
    pub bytes: u64,
    /// The unit in which `bytes` is shown.
    pub bytes_unit: Unit,
    /// Nanoseconds since the report before; `None` where the clock went back.
    pub elapsed_nanos: Option<u128>,
    /// Whole bytes per second since the report before; `None` where the
    /// time is missing or zero.
    pub rate: Option<u128>,
    /// The unit in which the throughput is shown; `None` where there is no
    /// throughput to show.
    pub rate_unit: Option<Unit>,
    /// Description of the block accepted last.
    pub description: String,
}

impl Report {
    /// The throughput and its unit are those of the bytes in the time.
    pub open spec fn tells_rate(self) -> bool {
        &&& match self.rate {
            Some(n) => rate_of(self.bytes as nat, self.elapsed_nanos) == Some(n as nat),
            None => rate_of(self.bytes as nat, self.elapsed_nanos) is None,
        }
        &&& self.rate_unit == rate_unit_of(self.bytes as nat, self.elapsed_nanos)
    }
}

/// The counters of a tracker, as numbers without bound.
pub struct Progress {
    pub distance: nat,
    pub last_bytes_received: nat,
    pub bytes_received: nat,
    pub block_received: nat,
    pub last_block_description: Option<String>,
}

impl Progress {
    /// The counters of a run that has received nothing.
    pub open spec fn initial(distance: nat) -> Progress {
        Progress {
            distance,
            last_bytes_received: 0,
            bytes_received: 0,
            block_received: 0,
            last_block_description: None,
        }
    }

    /// The counters after `b` was accepted.
    pub open spec fn append(self, b: Block) -> Progress {
        Progress {
            bytes_received: self.bytes_received + b.size as nat,
            block_received: self.block_received + 1,
            last_block_description: Some(b.description),
            ..self
        }
    }

    /// Whether the executable counters can take `b`.
    pub open spec fn has_room(self, b: Block) -> bool {
        self.bytes_received + b.size <= u64::MAX && self.block_received < u64::MAX
    }

    /// Whether a report is due: the block count is a multiple of the
    /// distance.
    pub open spec fn due(self) -> bool {
        self.block_received % self.distance == 0
    }

    /// Bytes received since the report before.
    pub open spec fn unreported(self) -> nat {
        (self.bytes_received - self.last_bytes_received) as nat
    }

    /// The counters after a report.
    pub open spec fn reported(self) -> Progress {
        Progress { last_bytes_received: self.bytes_received, ..self }
    }

    /// The report on these counters where `elapsed` is the time since the
    /// report before.
    pub open spec fn report_for(self, elapsed: Option<u128>) -> Report {
        Report {
            bytes: self.unreported() as u64,
            bytes_unit: unit_of(self.unreported()),
            elapsed_nanos: elapsed,
            rate: match rate_of(self.unreported(), elapsed) {
                Some(n) => Some(n as u128),
                None => None,
            },
            rate_unit: rate_unit_of(self.unreported(), elapsed),
            description: self.last_block_description->Some_0,
        }
    }
}

/// Tracker of what a bootstrap run has received. One task owns it.
pub struct BootstrapInfo {
    last_reported: SystemTime,
    last_bytes_received: u64,
    bytes_received: u64,
    block_received: u64,
    last_block_description: Option<String>,
    distance: u64,
}

impl View for BootstrapInfo {
    type V = Progress;

    closed spec fn view(&self) -> Progress {
        Progress {
            distance: self.distance as nat,
            last_bytes_received: self.last_bytes_received as nat,
            bytes_received: self.bytes_received as nat,
            block_received: self.block_received as nat,
            last_block_description: self.last_block_description,
        }
    }
}

/// What `SystemTime::duration_since` of std gives: the time from `earlier`
/// to `later`, and `None` where `earlier` is the later of the two.
pub uninterp spec fn span(later: SystemTime, earlier: SystemTime) -> Option<Duration>;

/// What `Duration::as_nanos` of std gives: the duration in nanoseconds.
pub uninterp spec fn nanos(duration: Duration) -> u128;

/// The nanoseconds from `earlier` to `later`; `None` where `earlier` is the
/// later of the two.
pub open spec fn elapsed_between(later: SystemTime, earlier: SystemTime) -> Option<u128> {
    match span(later, earlier) {
        Some(duration) => Some(nanos(duration)),
        None => None,
    }
}

/// `SystemTime::now` of std: the wall clock's time. Nothing is claimed of it.
#[verifier::external_body]
fn clock_now() -> SystemTime {
    SystemTime::now()
}

/// `SystemTime::duration_since` of std: the time from `earlier` to `later`,
/// and `None` where `earlier` is the later of the two. The result is that
/// of the two times alone.
#[verifier::external_body]
fn duration_between(later: &SystemTime, earlier: &SystemTime) -> (elapsed: Option<Duration>)
    ensures
        elapsed == span(*later, *earlier),
{
    match later.duration_since(*earlier) {
        Ok(elapsed) => Some(elapsed),
        Err(_) => None,
    }
}

/// `Duration::as_nanos` of std: the duration in nanoseconds.
#[verifier::external_body]
fn nanos_of(duration: Duration) -> (n: u128)
    ensures
        n == nanos(duration),
{
    duration.as_nanos()
}

impl BootstrapInfo {
    #[verifier::type_invariant]
    spec fn inv(self) -> bool {
        &&& self.distance > 0
        &&& self.last_bytes_received <= self.bytes_received
    }

    /// The time of the last report, or of the tracker's making where none
    /// was made yet.
    pub closed spec fn last_reported(self) -> SystemTime {
        self.last_reported
    }

    /// A tracker that has received nothing, with a report due every
    /// `PROCESS_LOGGING_DISTANCE` blocks. The time of its making counts as
    /// the time of the last report.
    pub fn new() -> (info: BootstrapInfo)
        ensures
            info@ == Progress::initial(PROCESS_LOGGING_DISTANCE as nat),
    {
        BootstrapInfo::with_distance(PROCESS_LOGGING_DISTANCE)
    }

    /// As `new`, with a report due every `distance` blocks.
    pub fn with_distance(distance: u64) -> (info: BootstrapInfo)
        requires
            distance > 0,
        ensures
            info@ == Progress::initial(distance as nat),
    {
        BootstrapInfo::started_at(distance, clock_now())
    }

    /// A tracker made at the time `now` that has received nothing, with a
    /// report due every `distance` blocks.
    pub fn started_at(distance: u64, now: SystemTime) -> (info: BootstrapInfo)
        requires
            distance > 0,
        ensures
            info@ == Progress::initial(distance as nat),
            info.last_reported() == now,
    {
        BootstrapInfo {
            last_reported: now,
            last_bytes_received: 0,
            bytes_received: 0,
            block_received: 0,
            last_block_description: None,
            distance,
        }
    }

    /// Whether the counters can take `b` without leaving their range.
    pub fn has_room(&self, b: &Block) -> (r: bool)
        ensures
            r == self@.has_room(*b),
    {
        b.size <= u64::MAX - self.bytes_received && self.block_received < u64::MAX
    }

    /// Counts an accepted block: its size, itself, and its description as
    /// the latest.
    pub fn append_block(&mut self, b: &Block)
        requires
            old(self)@.has_room(*b),
        ensures
            final(self)@ == old(self)@.append(*b),
            final(self).last_reported() == old(self).last_reported(),
    {
        proof {
            use_type_invariant(&*self);
        }
        self.bytes_received = self.bytes_received + b.size;
        self.block_received = self.block_received + 1;
        self.last_block_description = Some(b.description.clone());
    }

    /// Whether a report is due now.
    pub fn is_report_due(&self) -> (r: bool)
        ensures
            r == self@.due(),
    {
        proof {
            use_type_invariant(self);
        }
        self.block_received % self.distance == 0
    }

    /// The report on what was received since the report before, for a given
    /// time since then. Counts what it reports as reported, and leaves the
    /// time of the last report as it is.
    pub fn report_after(&mut self, elapsed: Option<u128>) -> (report: Report)
        requires
            old(self)@.last_block_description is Some,
        ensures
            final(self)@ == old(self)@.reported(),
            final(self).last_reported() == old(self).last_reported(),
            report == old(self)@.report_for(elapsed),
            report.bytes == old(self)@.unreported(),
            report.tells_rate(),
            Some(report.description) == old(self)@.last_block_description,
    {
        proof {
            use_type_invariant(&*self);
        }
        let bytes: u64 = self.bytes_received - self.last_bytes_received;
        self.last_bytes_received = self.bytes_received;
        let description = match &self.last_block_description {
            Some(d) => d.clone(),
            None => String::new(),
        };
        Report {
            bytes,
            bytes_unit: Unit::of(bytes),
            elapsed_nanos: elapsed,
            rate: rate(bytes, elapsed),
            rate_unit: Unit::of_rate(bytes, elapsed),
            description,
        }
    }

    /// The report made at the time `now` on what was received since the
    /// report before: the time that has passed is that from the last report
    /// to `now`, and there is none where `now` is the earlier of the two.
    /// `now` becomes the time of the last report.
    pub fn report_at(&mut self, now: SystemTime) -> (report: Report)
        requires
            old(self)@.last_block_description is Some,
        ensures
            final(self)@ == old(self)@.reported(),
            final(self).last_reported() == now,
            report == old(self)@.report_for(elapsed_between(now, old(self).last_reported())),
            report.bytes == old(self)@.unreported(),
            report.tells_rate(),
            Some(report.description) == old(self)@.last_block_description,
    {
        proof {
            use_type_invariant(&*self);
        }
        let elapsed = match duration_between(&now, &self.last_reported) {
            Some(duration) => Some(nanos_of(duration)),
            None => None,
        };
        self.last_reported = now;
        self.report_after(elapsed)
    }

    /// The report on what was received since the report before, by the wall
    /// clock: the time of this call becomes the time of the last report, and
    /// the time that has passed is that from the last report to this call.
    pub fn report(&mut self) -> (report: Report)
        requires
            old(self)@.last_block_description is Some,
        ensures
            final(self)@ == old(self)@.reported(),
            report == old(self)@.report_for(
                elapsed_between(final(self).last_reported(), old(self).last_reported()),
            ),
            report.bytes == old(self)@.unreported(),
            report.tells_rate(),
            Some(report.description) == old(self)@.last_block_description,
    {
        self.report_at(clock_now())
    }

    /// Whether a block was counted, so that there is one to describe in a
    /// report.
    pub fn has_description(&self) -> (r: bool)
        ensures
            r == (self@.last_block_description is Some),
    {
        self.last_block_description.is_some()
    }

    /// After how many accepted blocks a report is due.
    pub fn distance(&self) -> (n: u64)
        ensures
            n == self@.distance,
    {
        self.distance
    }

    /// All bytes received.
    pub fn bytes_received(&self) -> (n: u64)
        ensures
            n == self@.bytes_received,
    {
        self.bytes_received
    }

    /// All blocks received.
    pub fn block_received(&self) -> (n: u64)
        ensures
            n == self@.block_received,
    {
        self.block_received
    }
}

} // verus!
