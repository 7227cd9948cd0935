use std::collections::VecDeque;

use modbus_stream::fifo::{fifo_read_count, FifoCollector, FifoRead};

// ── fifo_read_count ────────────────────────────────────────────────────────

#[test]
fn count_is_always_divisible_by_3() {
    for raw in 0u16..=300 {
        let c = fifo_read_count(raw);
        assert_eq!(c % 3, 0, "raw={raw} → count={c} is not divisible by 3");
    }
}

#[test]
fn count_never_exceeds_123() {
    for raw in 0u16..=65535 {
        assert!(fifo_read_count(raw) <= 123, "raw={raw} exceeded 123");
    }
}

#[test]
fn count_is_zero_only_for_small_raw() {
    // raw < 3 cannot form a full XYZ triplet
    assert_eq!(fifo_read_count(0), 0);
    assert_eq!(fifo_read_count(1), 0);
    assert_eq!(fifo_read_count(2), 0);
    // raw == 3 gives exactly 1 sample
    assert_eq!(fifo_read_count(3), 3);
}

#[test]
fn count_representative_values() {
    assert_eq!(fifo_read_count(7), 6);
    assert_eq!(fifo_read_count(100), 99);
    assert_eq!(fifo_read_count(122), 120);
    assert_eq!(fifo_read_count(123), 123); // exact multiple — unchanged
    assert_eq!(fifo_read_count(200), 123); // capped at 123
}

// ── Collection loop driven by a canned FIFO ────────────────────────────────

#[derive(Clone, Copy, Debug, PartialEq)]
struct Sample {
    x: f64,
    y: f64,
    z: f64,
}

fn sample(v: f64) -> Sample {
    Sample { x: v, y: v, z: v }
}

/// A canned sequence of FIFO responses; an exhausted queue reads as an error.
struct MockFifo {
    responses: VecDeque<Result<(u16, Vec<Sample>), &'static str>>,
}

impl MockFifo {
    fn new() -> Self {
        Self { responses: VecDeque::new() }
    }
    fn push_data(&mut self, size_after: u16, n_samples: u16) {
        let data: Vec<_> = (0..n_samples).map(|i| sample(i as f64)).collect();
        self.responses.push_back(Ok((size_after, data)));
    }
    fn push_size(&mut self, size: u16) {
        self.responses.push_back(Ok((size, vec![])));
    }
    fn push_error(&mut self) {
        self.responses.push_back(Err("simulated Modbus timeout"));
    }
    fn pop(&mut self) -> Result<(u16, Vec<Sample>), &'static str> {
        match self.responses.pop_front() {
            Some(r) => r,
            None => Err("mock exhausted"),
        }
    }
}

/// Runs the collector against the mock until the target is reached or
/// `max_consecutive_errors` reads in a row fail. Returns (samples, errors,
/// empty cycles).
fn run_mock_collection(fifo: &mut MockFifo, target: usize, max_consecutive_errors: u32) -> (usize, u64, u64) {
    let mut collector: FifoCollector<Sample> = FifoCollector::new(target);
    loop {
        if collector.is_complete() {
            break;
        }
        let result = match collector.next_read() {
            FifoRead::SizeOnly => fifo.pop().map(|(sz, _)| (sz, vec![])),
            FifoRead::Combined(count) => match fifo.pop() {
                // Partial drain: at most count / 3 samples come back.
                Ok((new_size, data)) => {
                    let take = (count / 3) as usize;
                    Ok((new_size, data.into_iter().take(take).collect()))
                }
                Err(e) => Err(e),
            },
        };
        match result {
            Ok((new_size, data)) => {
                collector.on_read(new_size, data);
            }
            Err(_) => {
                collector.on_error();
                if collector.consecutive_errors >= max_consecutive_errors {
                    break;
                }
            }
        }
    }
    (collector.samples.len(), collector.total_errors, collector.empty_cycles)
}

#[test]
fn quiet_sensor_completes() {
    let mut mf = MockFifo::new();
    mf.push_size(30);
    for _ in 0..40 {
        mf.push_data(30, 10);
    }
    let (collected, errors, _) = run_mock_collection(&mut mf, 100, 50);
    assert_eq!(collected, 100);
    assert_eq!(errors, 0);
}

#[test]
fn vibrating_sensor_completes() {
    let mut mf = MockFifo::new();
    for _ in 0..10 {
        mf.push_size(123);
        for _ in 0..20 {
            mf.push_data(123, 41);
        }
    }
    let (collected, errors, _) = run_mock_collection(&mut mf, 100, 50);
    assert_eq!(collected, 100);
    assert_eq!(errors, 0);
}

#[test]
fn intermittent_errors_do_not_stop_recording() {
    let mut mf = MockFifo::new();
    mf.push_size(30);
    for _ in 0..200 {
        mf.push_data(30, 10);
        mf.push_data(30, 10);
        mf.push_error();
        mf.push_size(30);
    }
    let (collected, errors, _) = run_mock_collection(&mut mf, 100, 50);
    assert_eq!(collected, 100, "recording should still complete despite errors");
    assert!(errors > 0, "should have seen some errors");
}

#[test]
fn persistent_errors_abort_recording() {
    let mut mf = MockFifo::new();
    for _ in 0..200 {
        mf.push_error();
    }
    let (collected, errors, _) = run_mock_collection(&mut mf, 1000, 50);
    assert_eq!(collected, 0, "should collect nothing when every read fails");
    assert_eq!(errors, 50, "should stop at exactly 50 consecutive errors");
}

#[test]
fn misaligned_fifo_count_does_not_cause_orphan_register() {
    let mut mf = MockFifo::new();
    mf.push_size(100);
    mf.push_data(1, 33);
    mf.push_size(60);
    mf.push_data(60, 20);
    mf.push_data(60, 20);
    mf.push_data(60, 20);
    mf.push_data(60, 20);
    let (collected, errors, empty) = run_mock_collection(&mut mf, 100, 50);
    assert_eq!(collected, 100);
    assert_eq!(errors, 0);
    assert!(empty >= 1, "orphan should trigger an empty-cycle size poll");
}
