use bootstrap::block::{Block, HeaderHash};
use bootstrap::progress::{rate, BootstrapInfo, Unit, NANOS_PER_SECOND, PROCESS_LOGGING_DISTANCE};
use std::time::{Duration, SystemTime};

fn block(tag: u8, size: u64, description: &str) -> Block {
    Block { hash: HeaderHash { bytes: [tag; 32] }, size, description: description.to_string() }
}

const SECOND: u128 = 1_000_000_000;

#[test]
fn new_tracker_has_received_nothing() {
    let info = BootstrapInfo::new();
    assert_eq!(info.bytes_received(), 0);
    assert_eq!(info.block_received(), 0);
}

#[test]
fn default_distance_is_2500() {
    assert_eq!(PROCESS_LOGGING_DISTANCE, 2500);
    assert_eq!(NANOS_PER_SECOND, 1_000_000_000);
    let mut info = BootstrapInfo::new();
    for i in 0..2499u64 {
        info.append_block(&block(1, 1, "b"));
        assert!(!info.is_report_due(), "due after {} blocks", i + 1);
    }
    info.append_block(&block(1, 1, "b"));
    assert!(info.is_report_due());
    info.append_block(&block(1, 1, "b"));
    assert!(!info.is_report_due());
}

#[test]
fn append_block_adds_size_and_counts() {
    let mut info = BootstrapInfo::new();
    info.append_block(&block(1, 120, "first"));
    info.append_block(&block(2, 80, "second"));
    assert_eq!(info.bytes_received(), 200);
    assert_eq!(info.block_received(), 2);
}

#[test]
fn report_is_due_on_every_multiple_of_the_distance() {
    let mut info = BootstrapInfo::with_distance(3);
    let mut due = Vec::new();
    for _ in 0..7 {
        info.append_block(&block(1, 1, "b"));
        due.push(info.is_report_due());
    }
    assert_eq!(due, vec![false, false, true, false, false, true, false]);
}

#[test]
fn report_after_gives_bytes_since_last_report_and_latest_description() {
    let mut info = BootstrapInfo::with_distance(2);
    info.append_block(&block(1, 700, "one"));
    info.append_block(&block(2, 800, "two"));
    let first = info.report_after(Some(SECOND));
    assert_eq!(first.bytes, 1500);
    assert_eq!(first.bytes_unit, Unit::Kilobytes);
    assert_eq!(first.elapsed_nanos, Some(SECOND));
    assert_eq!(first.rate, Some(1500));
    assert_eq!(first.rate_unit, Some(Unit::Kilobytes));
    assert_eq!(first.description, "two");

    info.append_block(&block(3, 40, "three"));
    let second = info.report_after(Some(SECOND));
    assert_eq!(second.bytes, 40);
    assert_eq!(second.bytes_unit, Unit::Bytes);
    assert_eq!(second.rate_unit, Some(Unit::Bytes));
    assert_eq!(second.description, "three");
    assert_eq!(info.bytes_received(), 1540);

    let third = info.report_after(Some(SECOND));
    assert_eq!(third.bytes, 0);
    assert_eq!(third.description, "three");
}

#[test]
fn report_without_measurable_time_has_no_rate() {
    let mut info = BootstrapInfo::new();
    info.append_block(&block(1, 5_000_000, "big"));
    let report = info.report_after(None);
    assert_eq!(report.bytes, 5_000_000);
    assert_eq!(report.bytes_unit, Unit::Megabytes);
    assert_eq!(report.elapsed_nanos, None);
    assert_eq!(report.rate, None);
    assert_eq!(report.rate_unit, None);
}

#[test]
fn report_by_the_clock_reports_what_was_received() {
    let mut info = BootstrapInfo::new();
    info.append_block(&block(1, 2048, "clocked"));
    let report = info.report();
    assert_eq!(report.bytes, 2048);
    assert_eq!(report.bytes_unit, Unit::Kilobytes);
    assert_eq!(report.description, "clocked");
    assert_eq!(report.rate, rate(report.bytes, report.elapsed_nanos));
    assert_eq!(report.rate_unit, Unit::of_rate(report.bytes, report.elapsed_nanos));
    let again = info.report();
    assert_eq!(again.bytes, 0);
}

#[test]
fn unit_thresholds_are_decimal() {
    assert_eq!(Unit::of(0), Unit::Bytes);
    assert_eq!(Unit::of(999), Unit::Bytes);
    assert_eq!(Unit::of(1_000), Unit::Kilobytes);
    assert_eq!(Unit::of(1_024), Unit::Kilobytes);
    assert_eq!(Unit::of(999_999), Unit::Kilobytes);
    assert_eq!(Unit::of(1_000_000), Unit::Megabytes);
    assert_eq!(Unit::of(u64::MAX), Unit::Megabytes);
}

#[test]
fn unit_divisors_are_binary() {
    assert_eq!(Unit::Bytes.divisor(), 1);
    assert_eq!(Unit::Kilobytes.divisor(), 1024);
    assert_eq!(Unit::Megabytes.divisor(), 1_048_576);
}

#[test]
fn unit_suffixes() {
    assert_eq!(Unit::Bytes.suffix(), "b");
    assert_eq!(Unit::Kilobytes.suffix(), "kb");
    assert_eq!(Unit::Megabytes.suffix(), "mb");
}

#[test]
fn rate_is_whole_bytes_per_second() {
    assert_eq!(rate(1500, Some(SECOND)), Some(1500));
    assert_eq!(rate(1500, Some(2 * SECOND)), Some(750));
    assert_eq!(rate(1500, Some(SECOND / 2)), Some(3000));
    assert_eq!(rate(999, Some(SECOND + 1)), Some(998));
    assert_eq!(rate(1, Some(3)), Some(333_333_333));
    assert_eq!(rate(0, Some(SECOND)), Some(0));
    assert_eq!(rate(u64::MAX, Some(1)), Some(u64::MAX as u128 * 1_000_000_000));
    assert_eq!(rate(1, Some(u128::MAX)), Some(0));
    assert_eq!(rate(5, None), None);
    assert_eq!(rate(5, Some(0)), None);
}

#[test]
fn rate_unit_goes_by_bytes_per_second() {
    assert_eq!(Unit::of_rate(999, Some(SECOND)), Some(Unit::Bytes));
    assert_eq!(Unit::of_rate(1_000, Some(SECOND)), Some(Unit::Kilobytes));
    assert_eq!(Unit::of_rate(999_999, Some(SECOND)), Some(Unit::Kilobytes));
    assert_eq!(Unit::of_rate(1_000_000, Some(SECOND)), Some(Unit::Megabytes));
    // 500 bytes in half a second are 1000 bytes per second
    assert_eq!(Unit::of_rate(500, Some(SECOND / 2)), Some(Unit::Kilobytes));
    assert_eq!(Unit::of_rate(500, Some(SECOND / 2 + 1)), Some(Unit::Bytes));
    // 2 000 000 bytes in two seconds and one nanosecond stay under a million per second
    assert_eq!(Unit::of_rate(2_000_000, Some(2 * SECOND)), Some(Unit::Megabytes));
    assert_eq!(Unit::of_rate(2_000_000, Some(2 * SECOND + 1)), Some(Unit::Kilobytes));
    assert_eq!(Unit::of_rate(1, Some(1)), Some(Unit::Megabytes));
    assert_eq!(Unit::of_rate(0, Some(1)), Some(Unit::Bytes));
    assert_eq!(Unit::of_rate(u64::MAX, Some(u128::MAX)), Some(Unit::Bytes));
}

#[test]
fn rate_unit_is_missing_without_time() {
    assert_eq!(Unit::of_rate(10, None), None);
    assert_eq!(Unit::of_rate(10, Some(0)), None);
    assert_eq!(Unit::of_rate(0, Some(0)), None);
}

#[test]
fn has_room_guards_the_counters() {
    let mut info = BootstrapInfo::new();
    assert!(info.has_room(&block(1, u64::MAX, "huge")));
    info.append_block(&block(1, u64::MAX - 5, "huge"));
    assert!(info.has_room(&block(2, 5, "fits")));
    assert!(!info.has_room(&block(2, 6, "too much")));
    info.append_block(&block(2, 5, "fits"));
    assert_eq!(info.bytes_received(), u64::MAX);
    assert!(info.has_room(&block(3, 0, "empty")));
    assert!(!info.has_room(&block(3, 1, "one more")));
}

fn at(millis: u64) -> SystemTime {
    SystemTime::UNIX_EPOCH + Duration::from_millis(millis)
}

#[test]
fn report_at_measures_from_the_last_report() {
    let mut info = BootstrapInfo::started_at(2500, at(10_000));
    info.append_block(&block(1, 3000, "one"));
    let first = info.report_at(at(11_500));
    assert_eq!(first.bytes, 3000);
    assert_eq!(first.elapsed_nanos, Some(1_500_000_000));
    assert_eq!(first.rate, Some(2000));
    assert_eq!(first.rate_unit, Some(Unit::Kilobytes));
    assert_eq!(first.description, "one");

    info.append_block(&block(2, 500, "two"));
    let second = info.report_at(at(11_750));
    assert_eq!(second.bytes, 500);
    assert_eq!(second.elapsed_nanos, Some(250_000_000));
    assert_eq!(second.rate, Some(2000));
}

#[test]
fn counting_a_block_leaves_the_time_of_the_last_report() {
    let mut info = BootstrapInfo::started_at(2500, at(5_000));
    info.append_block(&block(1, 10, "one"));
    info.append_block(&block(2, 10, "two"));
    let report = info.report_at(at(6_000));
    assert_eq!(report.elapsed_nanos, Some(1_000_000_000));
    assert_eq!(report.rate, Some(20));
}

#[test]
fn report_with_a_clock_that_went_back_has_no_rate_and_still_sets_the_time() {
    let mut info = BootstrapInfo::started_at(2500, at(10_000));
    info.append_block(&block(1, 4000, "one"));
    let back = info.report_at(at(9_000));
    assert_eq!(back.bytes, 4000);
    assert_eq!(back.bytes_unit, Unit::Kilobytes);
    assert_eq!(back.elapsed_nanos, None);
    assert_eq!(back.rate, None);
    assert_eq!(back.rate_unit, None);
    assert_eq!(back.description, "one");

    // the next report measures from the time of that one
    info.append_block(&block(2, 100, "two"));
    let next = info.report_at(at(9_500));
    assert_eq!(next.bytes, 100);
    assert_eq!(next.elapsed_nanos, Some(500_000_000));
    assert_eq!(next.rate, Some(200));
}

#[test]
fn report_at_the_very_time_of_the_last_report_has_no_rate() {
    let mut info = BootstrapInfo::started_at(1, at(10_000));
    info.append_block(&block(1, 4000, "one"));
    let report = info.report_at(at(10_000));
    assert_eq!(report.elapsed_nanos, Some(0));
    assert_eq!(report.rate, None);
    assert_eq!(report.rate_unit, None);
}

#[test]
fn report_after_leaves_the_time_of_the_last_report() {
    let mut info = BootstrapInfo::started_at(1, at(10_000));
    info.append_block(&block(1, 4000, "one"));
    let given = info.report_after(Some(7));
    assert_eq!(given.elapsed_nanos, Some(7));
    info.append_block(&block(2, 1000, "two"));
    let report = info.report_at(at(12_000));
    assert_eq!(report.bytes, 1000);
    assert_eq!(report.elapsed_nanos, Some(2_000_000_000));
}

#[test]
fn tracker_started_at_a_time_has_received_nothing() {
    let info = BootstrapInfo::started_at(7, at(1));
    assert_eq!(info.distance(), 7);
    assert_eq!(info.bytes_received(), 0);
    assert_eq!(info.block_received(), 0);
    assert_eq!(BootstrapInfo::new().distance(), 2500);
}

#[test]
fn tracker_has_a_description_once_a_block_was_counted() {
    let mut info = BootstrapInfo::new();
    assert!(!info.has_description());
    info.append_block(&block(1, 0, "one"));
    assert!(info.has_description());
    let _ = info.report_after(None);
    assert!(info.has_description());
}
