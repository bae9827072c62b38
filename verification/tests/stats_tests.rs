use ttrpc_benchmark::stats::{calculate_stats, sort_nanos, try_calculate_stats, StatsError};

const MILLIS: u64 = 1_000_000;

#[test]
fn stats_fixed_stub_sample() {
    // 10ms, 20ms, ..., 100ms
    let mut sample: Vec<u64> = Vec::new();
    let mut k: u64 = 1;
    while k <= 10 {
        sample.push(k * 10 * MILLIS);
        k += 1;
    }
    let (min, mean, max, p99) = calculate_stats(&sample);
    assert_eq!(min, 10 * MILLIS);
    assert_eq!(mean, 55 * MILLIS);
    assert_eq!(max, 100 * MILLIS);
    // p99 index = floor(10 * 0.99) = 9
    assert_eq!(p99, 100 * MILLIS);
}

#[test]
fn sort_orders_and_keeps_duplicates() {
    let sample: Vec<u64> = vec![50, 10, 50, 20];
    assert_eq!(sort_nanos(&sample), vec![10, 20, 50, 50]);
    assert_eq!(sort_nanos(&Vec::new()), Vec::<u64>::new());
}

#[test]
fn stats_unsorted_sample() {
    let sample: Vec<u64> = vec![30, 10, 20];
    let (min, mean, max, p99) = calculate_stats(&sample);
    assert_eq!(min, 10);
    assert_eq!(mean, 20);
    assert_eq!(max, 30);
    // p99 index = floor(3 * 0.99) = 2
    assert_eq!(p99, 30);
}

#[test]
fn stats_single_sample_all_equal() {
    let sample: Vec<u64> = vec![42];
    let (min, mean, max, p99) = calculate_stats(&sample);
    assert_eq!(min, 42);
    assert_eq!(mean, 42);
    assert_eq!(max, 42);
    assert_eq!(p99, 42);
}

#[test]
fn stats_mean_truncates() {
    let sample: Vec<u64> = vec![1, 2];
    let (min, mean, max, _) = calculate_stats(&sample);
    assert_eq!(min, 1);
    assert_eq!(mean, 1);
    assert_eq!(max, 2);
}

#[test]
fn stats_duplicate_values() {
    let sample: Vec<u64> = vec![7, 7, 7, 7];
    let (min, mean, max, p99) = calculate_stats(&sample);
    assert_eq!((min, mean, max, p99), (7, 7, 7, 7));
}

#[test]
fn p99_is_not_the_maximum_on_larger_samples() {
    // 1, 2, ..., 101: p99 index = floor(101 * 0.99) = 99, so p99 is the
    // 100th value, one below the maximum
    let mut sample: Vec<u64> = Vec::new();
    let mut k: u64 = 1;
    while k <= 101 {
        sample.push(k);
        k += 1;
    }
    let (min, _, max, p99) = calculate_stats(&sample);
    assert_eq!(min, 1);
    assert_eq!(max, 101);
    assert_eq!(p99, 100);
}

#[test]
fn empty_sample_is_error() {
    let sample: Vec<u64> = Vec::new();
    assert_eq!(try_calculate_stats(&sample), Err(StatsError::EmptySample));
}

#[test]
fn guarded_stats_agree_with_plain() {
    let sample: Vec<u64> = vec![5, 1, 9];
    assert_eq!(try_calculate_stats(&sample), Ok(calculate_stats(&sample)));
}
