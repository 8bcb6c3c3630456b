use kd::alert::QueryHistory;

const NOW: u64 = 1_000_000;

#[test]
fn test_frequency_calculation() {
    let mut history = QueryHistory::new();
    for i in (0..30u64).rev() {
        assert!(!history.check(NOW - i * 1000));
    }
    assert!(history.check(NOW));
}

#[test]
fn test_frequency_cleanup() {
    let mut history = QueryHistory::new();
    for age in [120u64, 90, 30, 10] {
        history.check(NOW - age * 1000);
    }
    let mut alerts = 0;
    for _ in 0..28 {
        if history.check(NOW) {
            alerts += 1;
        }
    }
    assert_eq!(alerts, 0);
    assert!(history.check(NOW));
}

#[test]
fn test_frequency_threshold() {
    let threshold = 30;
    let mut history = QueryHistory::new();
    let mut recorded = 0;
    for i in (0..29u64).rev() {
        if !history.check(NOW - i * 1000) {
            recorded += 1;
        }
    }
    assert!(recorded < threshold);
    assert!(!history.check(NOW));
    recorded += 1;
    assert!(recorded >= threshold);
    assert!(history.check(NOW));
}

#[test]
fn queries_older_than_a_minute_are_forgotten() {
    let mut history = QueryHistory::new();
    for i in 0..30u64 {
        assert!(!history.check(i));
    }
    assert!(history.check(59_999));
    assert!(!history.check(60_000));
}
