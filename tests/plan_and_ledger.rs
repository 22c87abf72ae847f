use write_bench::errors::RunError;
use write_bench::payload::{make_payload, SizeSource, WritePlan};
use write_bench::run_ledger::{RunLedger, WriteOutcome};

fn completed(bytes: usize, latency_ns: u64) -> WriteOutcome {
    WriteOutcome::Completed { bytes: bytes as u64, latency_ns }
}

#[test]
fn plan_sizes_stay_in_range() {
    let mut source = SizeSource::seeded(7);
    let plan = WritePlan::draw(&mut source, 100, 10, 20).unwrap();
    assert_eq!(plan.sizes.len(), 100);
    assert!(plan.sizes.iter().all(|s| *s >= 10 && *s < 20));
    let sum: u64 = plan.sizes.iter().map(|s| *s as u64).sum();
    assert_eq!(plan.total_bytes, sum);
    assert!(plan.total_bytes >= 1000 && plan.total_bytes < 2000);
}

#[test]
fn plan_is_reproducible_from_seed() {
    let a = WritePlan::draw(&mut SizeSource::seeded(42), 50, 300, 2000).unwrap();
    let b = WritePlan::draw(&mut SizeSource::seeded(42), 50, 300, 2000).unwrap();
    assert_eq!(a.sizes, b.sizes);
    assert!(a.sizes.iter().any(|s| *s != a.sizes[0]));
}

#[test]
fn plan_with_one_size() {
    let plan = WritePlan::draw(&mut SizeSource::seeded(1), 4, 5, 6).unwrap();
    assert_eq!(plan.sizes, vec![5, 5, 5, 5]);
    assert_eq!(plan.total_bytes, 20);
}

#[test]
fn plan_rejects_zero_writes() {
    let r = WritePlan::draw(&mut SizeSource::seeded(1), 0, 10, 20);
    assert_eq!(r.err(), Some(RunError::InvalidWriteCount));
}

#[test]
fn plan_rejects_empty_range() {
    let r = WritePlan::draw(&mut SizeSource::seeded(1), 3, 20, 20);
    assert_eq!(r.err(), Some(RunError::InvalidSizeRange));
}

#[test]
fn plan_rejects_overflowing_total() {
    let r = WritePlan::draw(&mut SizeSource::seeded(1), 4, 0, usize::MAX);
    assert_eq!(r.err(), Some(RunError::ByteTotalOverflow));
}

#[test]
fn payload_is_zero_filled() {
    let p = make_payload(17);
    assert_eq!(p.len(), 17);
    assert!(p.iter().all(|b| *b == 0));
    assert!(make_payload(0).is_empty());
}

#[test]
fn full_run_reports_every_write() {
    let plan = WritePlan::draw(&mut SizeSource::seeded(3), 100, 10, 20).unwrap();
    let mut ledger = RunLedger::new(&plan);
    for (i, size) in plan.sizes.iter().enumerate() {
        assert!(ledger.record(completed(*size, 1000 + i as u64)));
    }
    let r = ledger.finish().unwrap();
    assert_eq!(r.num_writes, 100);
    assert_eq!(r.total_bytes, plan.total_bytes);
    assert_eq!(r.median, 1050);
    assert_eq!(r.p90, 1090);
    assert_eq!(r.mean, 1049);
}

#[test]
fn single_write_run() {
    let plan = WritePlan::draw(&mut SizeSource::seeded(3), 1, 10, 20).unwrap();
    let mut ledger = RunLedger::new(&plan);
    assert!(ledger.record(completed(plan.sizes[0], 42)));
    let r = ledger.finish().unwrap();
    assert_eq!((r.mean, r.median, r.p90, r.num_writes), (42, 42, 42, 1));
}

#[test]
fn injected_write_failure_fails_run() {
    let plan = WritePlan::draw(&mut SizeSource::seeded(9), 1000, 10, 20).unwrap();
    let mut ledger = RunLedger::new(&plan);
    for (i, size) in plan.sizes.iter().enumerate() {
        if i == 500 {
            assert!(!ledger.record(WriteOutcome::Failed(RunError::WriteFailure)));
        } else {
            ledger.record(completed(*size, 10));
        }
    }
    assert_eq!(ledger.finish().err(), Some(RunError::WriteFailure));
}

#[test]
fn first_failure_is_kept() {
    let plan = WritePlan::draw(&mut SizeSource::seeded(9), 3, 10, 20).unwrap();
    let mut ledger = RunLedger::new(&plan);
    assert!(!ledger.record(WriteOutcome::Failed(RunError::CoordinationFailure)));
    assert!(!ledger.record(WriteOutcome::Failed(RunError::WriteFailure)));
    assert!(!ledger.record(completed(plan.sizes[0], 1)));
    assert_eq!(ledger.finish().err(), Some(RunError::CoordinationFailure));
}

#[test]
fn missing_write_is_incomplete() {
    let plan = WritePlan::draw(&mut SizeSource::seeded(5), 1000, 10, 20).unwrap();
    let mut ledger = RunLedger::new(&plan);
    for size in plan.sizes.iter().take(999) {
        assert!(ledger.record(completed(*size, 10)));
    }
    assert_eq!(ledger.finish().err(), Some(RunError::IncompleteRun));
}

#[test]
fn confirmation_beyond_plan_is_coordination_failure() {
    let plan = WritePlan::draw(&mut SizeSource::seeded(5), 2, 10, 20).unwrap();
    let mut ledger = RunLedger::new(&plan);
    assert!(ledger.record(completed(plan.sizes[0], 1)));
    assert!(ledger.record(completed(plan.sizes[1], 1)));
    assert!(!ledger.record(completed(1, 1)));
    assert_eq!(ledger.finish().err(), Some(RunError::CoordinationFailure));
}

#[test]
fn more_bytes_than_planned_is_coordination_failure() {
    let plan = WritePlan::draw(&mut SizeSource::seeded(5), 2, 10, 20).unwrap();
    let mut ledger = RunLedger::new(&plan);
    assert!(!ledger.record(completed(plan.total_bytes as usize + 1, 1)));
    assert_eq!(ledger.finish().err(), Some(RunError::CoordinationFailure));
}
