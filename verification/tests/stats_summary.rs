use watchbench::stats::{sort_samples, summarize};

#[test]
fn sort_arranges_ascending_keeping_duplicates() {
    let mut v = vec![5, 1, 4, 1, 3];
    sort_samples(&mut v);
    assert_eq!(v, vec![1, 1, 3, 4, 5]);
}

#[test]
fn sort_of_empty_and_singleton() {
    let mut v: Vec<u64> = vec![];
    sort_samples(&mut v);
    assert_eq!(v, Vec::<u64>::new());
    let mut v = vec![7];
    sort_samples(&mut v);
    assert_eq!(v, vec![7]);
}

#[test]
fn no_successful_requests_yield_no_summary() {
    assert!(summarize(&Vec::new()).is_none());
}

#[test]
fn summary_of_five_samples() {
    // Ascending arrangement: [1, 2, 3, 4, 5]; the 95th and 99th percentile
    // indices of five samples are 5*95/100 = 4 and 5*99/100 = 4.
    let results = vec![5, 1, 4, 2, 3];
    let b = summarize(&results).unwrap();
    assert_eq!(b.min, 1);
    assert_eq!(b.max, 5);
    assert_eq!(b.average, 3);
    assert_eq!(b.median, 3);
    assert_eq!(b.p95, 5);
    assert_eq!(b.p99, 5);
}

#[test]
fn summary_of_one_sample() {
    let b = summarize(&vec![42]).unwrap();
    assert_eq!(b.min, 42);
    assert_eq!(b.max, 42);
    assert_eq!(b.average, 42);
    assert_eq!(b.median, 42);
    assert_eq!(b.p95, 42);
    assert_eq!(b.p99, 42);
}

#[test]
fn average_truncates_toward_zero() {
    let b = summarize(&vec![1, 2]).unwrap();
    assert_eq!(b.average, 1);
    // Median of an even count is the upper-middle sample: index 2/2 = 1.
    assert_eq!(b.median, 2);
}

#[test]
fn summary_of_one_hundred_samples() {
    // 0..100 in reverse: ascending arrangement is 0..100, so the percentile
    // indices are exactly 95 and 99.
    let results: Vec<u64> = (0..100).rev().collect();
    let b = summarize(&results).unwrap();
    assert_eq!(b.min, 0);
    assert_eq!(b.max, 99);
    assert_eq!(b.average, 49);
    assert_eq!(b.median, 50);
    assert_eq!(b.p95, 95);
    assert_eq!(b.p99, 99);
}

#[test]
fn summary_handles_large_sample_values() {
    let results = vec![u64::MAX, u64::MAX, u64::MAX];
    let b = summarize(&results).unwrap();
    assert_eq!(b.min, u64::MAX);
    assert_eq!(b.max, u64::MAX);
    assert_eq!(b.average, u64::MAX);
}
