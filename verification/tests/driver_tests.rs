use ttrpc_benchmark::driver::{
    Action, BenchError, Driver, Event, Transport, WARMUP_CALLS,
};
use ttrpc_benchmark::stats::{try_calculate_stats, StatsError};

/// Drive one run to its end against a stub transport: every call answers
/// at once, timed call `index` takes `latencies[index]` nanoseconds, and
/// the call at `fail_at`, if any, fails instead.
fn run_with_stub(
    transport: Transport,
    iterations: usize,
    latencies: &[u64],
    fail_at: Option<usize>,
    connect_fails: bool,
) -> (Driver, Vec<Action>) {
    let mut driver = Driver::new(transport, iterations);
    let mut actions: Vec<Action> = Vec::new();
    while let Some(action) = driver.next_action() {
        actions.push(action);
        let event = match action {
            Action::RemoveSocketFile | Action::SleepGrace | Action::StopServer => {
                Event::Completed
            }
            Action::StartServer => Event::StartOk,
            Action::Connect => {
                if connect_fails {
                    Event::ConnectFailed
                } else {
                    Event::ConnectOk
                }
            }
            Action::CallWarmup => Event::WarmupReturned,
            Action::CallTimed { index } => {
                if fail_at == Some(index) {
                    Event::TimedFailed
                } else {
                    Event::TimedOk {
                        nanos: latencies[index],
                    }
                }
            }
        };
        driver.on_event(event);
    }
    (driver, actions)
}

#[test]
fn full_unix_run_collects_all_latencies() {
    let schedule: Vec<u64> = vec![10, 20, 30, 40, 50];
    let (driver, actions) = run_with_stub(Transport::Unix, 5, &schedule, None, false);
    let sample = driver.outcome().expect("run must succeed").clone();
    assert_eq!(sample, schedule);
    let warmups = actions
        .iter()
        .filter(|a| matches!(a, Action::CallWarmup))
        .count();
    assert_eq!(warmups, WARMUP_CALLS);
    assert_eq!(actions[0], Action::RemoveSocketFile);
}

#[test]
fn timed_calls_run_in_order() {
    let schedule: Vec<u64> = vec![9, 8, 7];
    let (driver, actions) = run_with_stub(Transport::Tcp, 3, &schedule, None, false);
    let timed: Vec<usize> = actions
        .iter()
        .filter_map(|a| match a {
            Action::CallTimed { index } => Some(*index),
            _ => None,
        })
        .collect();
    assert_eq!(timed, vec![0, 1, 2]);
    assert_eq!(driver.outcome().expect("run must succeed").clone(), schedule);
}

#[test]
fn unix_run_removes_socket_after_success() {
    let schedule: Vec<u64> = vec![1, 2];
    let (_, actions) = run_with_stub(Transport::Unix, 2, &schedule, None, false);
    assert_eq!(*actions.last().unwrap(), Action::RemoveSocketFile);
}

#[test]
fn unix_run_removes_socket_after_timed_failure() {
    let schedule: Vec<u64> = vec![1, 2, 3, 4];
    let (driver, actions) = run_with_stub(Transport::Unix, 4, &schedule, Some(2), false);
    assert_eq!(driver.outcome().unwrap_err(), BenchError::Call);
    assert_eq!(*actions.last().unwrap(), Action::RemoveSocketFile);
    // the server was still stopped first
    assert!(actions.iter().any(|a| matches!(a, Action::StopServer)));
}

#[test]
fn unix_run_removes_socket_after_connect_failure() {
    let (driver, actions) = run_with_stub(Transport::Unix, 3, &[], None, true);
    assert_eq!(driver.outcome().unwrap_err(), BenchError::Connect);
    assert_eq!(*actions.last().unwrap(), Action::RemoveSocketFile);
}

#[test]
fn tcp_run_never_touches_socket_file() {
    let schedule: Vec<u64> = vec![5, 6];
    let (_, actions) = run_with_stub(Transport::Tcp, 2, &schedule, None, false);
    assert!(actions
        .iter()
        .all(|a| !matches!(a, Action::RemoveSocketFile)));
}

#[test]
fn timed_failure_leaves_no_partial_result() {
    let schedule: Vec<u64> = vec![1, 2, 3];
    let (driver, _) = run_with_stub(Transport::Tcp, 3, &schedule, Some(0), false);
    assert_eq!(driver.outcome().unwrap_err(), BenchError::Call);
}

#[test]
fn zero_iterations_yield_empty_sample() {
    let (driver, actions) = run_with_stub(Transport::Unix, 0, &[], None, false);
    let sample = driver.outcome().expect("run must succeed").clone();
    assert!(sample.is_empty());
    assert!(actions.iter().all(|a| !matches!(a, Action::CallTimed { .. })));
    // statistics on the degenerate sample are a defined error, not a panic
    assert_eq!(try_calculate_stats(&sample), Err(StatsError::EmptySample));
}

#[test]
fn single_iteration_run() {
    let schedule: Vec<u64> = vec![77];
    let (driver, _) = run_with_stub(Transport::Tcp, 1, &schedule, None, false);
    let sample = driver.outcome().expect("run must succeed").clone();
    assert_eq!(sample, schedule);
    let (min, mean, max, p99) = try_calculate_stats(&sample).unwrap();
    assert_eq!((min, mean, max, p99), (77, 77, 77, 77));
}

#[test]
fn two_runs_same_stub_sample_agree() {
    let schedule: Vec<u64> = vec![120, 80, 100, 90, 110];
    let (first, _) = run_with_stub(Transport::Unix, 5, &schedule, None, false);
    let (second, _) = run_with_stub(Transport::Unix, 5, &schedule, None, false);
    let a = try_calculate_stats(first.outcome().unwrap()).unwrap();
    let b = try_calculate_stats(second.outcome().unwrap()).unwrap();
    assert_eq!(a, b);
    assert_eq!(a.1, 100);
}
