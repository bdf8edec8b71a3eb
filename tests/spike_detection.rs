use worker_rs::spike::{history_from_entries, HistoryAppend, SpikeDetectionResult, SpikeDetector, HISTORY_WINDOW};

fn detector() -> SpikeDetector {
    SpikeDetector::new(3, "spike:brand".to_string(), 86_400)
}

#[test]
fn spike_math_against_flat_history() {
    let d = detector();
    let history = vec![10, 10, 10];
    let hit = d.evaluate(&history, 25);
    assert!(hit.is_spike);
    assert_eq!(hit.history_total, 30);
    assert_eq!(hit.history_len, 3);
    assert_eq!(hit.current_count, 25);
    assert!(!d.evaluate(&history, 15).is_spike);
    // exactly twice the average is not above it
    assert!(!d.evaluate(&history, 20).is_spike);
    assert!(d.evaluate(&history, 21).is_spike);
}

#[test]
fn empty_history_uses_the_static_floor() {
    let d = detector();
    assert!(!d.evaluate(&Vec::new(), 3).is_spike);
    assert!(d.evaluate(&Vec::new(), 4).is_spike);
    assert_eq!(d.evaluate(&Vec::new(), 4).history_len, 0);
}

#[test]
fn only_the_window_counts() {
    let d = detector();
    let mut history = vec![1i64; HISTORY_WINDOW];
    history.extend(vec![1_000_000i64; 50]);
    let r = d.evaluate(&history, 5);
    assert_eq!(r.history_len, HISTORY_WINDOW);
    assert_eq!(r.history_total, 100);
    assert!(r.is_spike);
}

#[test]
fn default_result_is_a_non_spike() {
    let r = SpikeDetectionResult::default();
    assert!(!r.is_spike);
    assert_eq!(r.history_len, 0);
    assert_eq!(r.current_count, 0);
}

#[test]
fn history_key_and_batch() {
    let d = detector();
    assert_eq!(d.history_key("acme", 7), "spike:brand:acme:7");
    assert_eq!(d.history_key("acme", -2), "spike:brand:acme:-2");
    let b = d.append_batch("acme", 1, 42);
    assert_eq!(b.key, "spike:brand:acme:1");
    assert_eq!(b.value, 42);
    assert_eq!(b.keep, 100);
    assert_eq!(b.ttl_secs, 86_400);
}

fn append_n(n: usize) -> Vec<i64> {
    let d = detector();
    let mut history = Vec::new();
    for i in 0..n {
        let batch: HistoryAppend = d.append_batch("acme", 1, i + 1);
        batch.apply_to(&mut history);
    }
    history
}

#[test]
fn one_hundred_fifty_appends_keep_the_hundred_most_recent() {
    let history = append_n(150);
    let expected: Vec<i64> = (51..=150).rev().collect();
    assert_eq!(history, expected);
}

#[test]
fn appends_never_lose_entries_below_the_window() {
    for n in [0usize, 1, 50, 99, 100, 101, 150] {
        assert_eq!(append_n(n).len(), n.min(100));
    }
}

#[test]
fn history_entries_that_are_not_integers_are_skipped() {
    let entries: Vec<String> = ["10", "-3", "+4", "x", "", "5 ", "99999999999999999999", "7"]
        .iter()
        .map(|s| s.to_string())
        .collect();
    assert_eq!(history_from_entries(&entries), vec![10, -3, 4, 7]);
}

#[test]
fn a_batch_keeps_as_many_entries_as_it_says() {
    let mut history = vec![3i64, 2, 1];
    let batch = HistoryAppend { key: "k".to_string(), value: 4, keep: 2, ttl_secs: 60 };
    batch.apply_to(&mut history);
    assert_eq!(history, vec![4, 3]);
    let batch = HistoryAppend { key: "k".to_string(), value: 9, keep: 10, ttl_secs: 60 };
    batch.apply_to(&mut history);
    assert_eq!(history, vec![9, 4, 3]);
}

#[test]
fn appends_to_a_full_history_keep_every_new_count() {
    let d = detector();
    let mut history: Vec<i64> = (0..100).map(|i| -(i as i64)).collect();
    for i in 1..=30usize {
        d.append_batch("acme", 1, i).apply_to(&mut history);
    }
    assert_eq!(history.len(), 100);
    let newest: Vec<i64> = (1..=30).rev().collect();
    assert_eq!(&history[..30], &newest[..]);
    assert_eq!(history[30], 0);
}
