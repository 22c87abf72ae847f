use rand::rngs::StdRng;
use rand::seq::SliceRandom;
use rand::SeedableRng;
use write_bench::errors::RunError;
use write_bench::offset_counter::OffsetCounter;
use write_bench::payload::{make_payload, SizeSource, WritePlan};
use write_bench::strategies::{
    ArcMutexTest, FlumeMpmcTest, FlumeMpscCallbackTest, MpscSingleWriterTest, SyncIoTest,
};
use write_bench::test_result::summarize;
use write_bench::test_runner::TestRunner;

#[test]
fn strategy_names_are_distinct() {
    let names = vec![
        SyncIoTest.get_name(),
        ArcMutexTest.get_name(),
        MpscSingleWriterTest.get_name(),
        FlumeMpmcTest.get_name(),
        FlumeMpscCallbackTest.get_name(),
    ];
    assert_eq!(names[0], "SyncIoTest");
    assert_eq!(names[3], "FlumeMpmcTest");
    for i in 0..names.len() {
        for j in (i + 1)..names.len() {
            assert_ne!(names[i], names[j]);
        }
    }
}

#[test]
fn topology_constants() {
    assert_eq!(FlumeMpmcTest.writer_count(), 10);
    assert_eq!(FlumeMpscCallbackTest.queue_capacity(), 5);
    assert_eq!(MpscSingleWriterTest.queue_capacity(1000), 1000);
    assert_eq!(MpscSingleWriterTest.queue_capacity(0), 1);
}

#[test]
fn expected_sink_lengths() {
    let plan = WritePlan::draw(&mut SizeSource::seeded(11), 20, 10, 20).unwrap();
    assert_eq!(SyncIoTest.expected_sink_len(&plan), plan.sizes[19] as u64);
    assert_eq!(ArcMutexTest.expected_sink_len(&plan), plan.total_bytes);
    assert_eq!(MpscSingleWriterTest.expected_sink_len(&plan), plan.total_bytes);
    assert_eq!(FlumeMpmcTest.expected_sink_len(&plan), plan.total_bytes);
    assert_eq!(FlumeMpscCallbackTest.expected_sink_len(&plan), plan.total_bytes);
}

#[test]
fn counter_claims_consecutive_ranges() {
    let mut c = OffsetCounter::new();
    assert_eq!(c.load(), 0);
    assert_eq!(c.claim(10), Some(0));
    assert_eq!(c.claim(0), Some(10));
    assert_eq!(c.claim(5), Some(10));
    assert_eq!(c.load(), 15);
}

#[test]
fn counter_refuses_overflow() {
    let mut c = OffsetCounter::new();
    assert_eq!(c.claim(u64::MAX - 1), Some(0));
    assert_eq!(c.claim(2), None);
    assert_eq!(c.load(), u64::MAX - 1);
    assert_eq!(c.claim(1), Some(u64::MAX - 1));
    assert_eq!(c.load(), u64::MAX);
}

#[test]
fn positional_writes_fill_sink_to_counter() {
    let plan = WritePlan::draw(&mut SizeSource::seeded(21), 200, 1, 40).unwrap();
    let mut order: Vec<usize> = (0..plan.sizes.len()).collect();
    order.shuffle(&mut StdRng::seed_from_u64(99));
    let mut counter = OffsetCounter::new();
    let mut sink: Vec<u8> = Vec::new();
    let mut written = vec![false; plan.total_bytes as usize];
    for i in order {
        let payload: Vec<u8> = make_payload(plan.sizes[i]).iter().map(|_| (i % 251) as u8 + 1).collect();
        let start = counter.claim(payload.len() as u64).unwrap() as usize;
        if sink.len() < start + payload.len() {
            sink.resize(start + payload.len(), 0);
        }
        for (k, b) in payload.iter().enumerate() {
            assert!(!written[start + k]);
            written[start + k] = true;
            sink[start + k] = *b;
        }
    }
    assert_eq!(sink.len() as u64, counter.load());
    assert_eq!(counter.load(), FlumeMpmcTest.expected_sink_len(&plan));
    assert!(written.iter().all(|w| *w));
}

#[test]
fn locked_appends_in_shuffled_order() {
    let plan = WritePlan::draw(&mut SizeSource::seeded(8), 1000, 300, 2000).unwrap();
    let mut order: Vec<usize> = (0..plan.sizes.len()).collect();
    order.shuffle(&mut StdRng::seed_from_u64(5));
    let sink = std::sync::Mutex::new(Vec::<u8>::new());
    for i in order {
        let payload = make_payload(plan.sizes[i]);
        let mut guard = sink.lock().unwrap();
        guard.extend_from_slice(&payload);
    }
    let len = sink.lock().unwrap().len() as u64;
    assert_eq!(len, ArcMutexTest.expected_sink_len(&plan));
}

#[test]
fn runner_keeps_results_and_stops_on_error() {
    let mut runner = TestRunner::new();
    let t = summarize(&vec![3, 1, 2], 30).unwrap();
    assert_eq!(runner.record_run(3, 500, Ok(t)), Ok(()));
    assert_eq!(runner.test_runs.len(), 1);
    assert_eq!(runner.test_runs[0].run_duration_ns, 500);
    assert_eq!(runner.test_runs[0].result.median, 2);
    assert_eq!(runner.record_run(3, 9, Err(RunError::WriteFailure)), Err(RunError::WriteFailure));
    assert_eq!(runner.test_runs.len(), 1);
}
