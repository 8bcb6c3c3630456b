use kd::codec::legacy_payload;
use kd::legacy::LegacyResult;
use kd::migrate::{run_failed, BatchOutcome, TableMigration, BATCH_SIZE};

fn legacy(word: &str) -> LegacyResult {
    LegacyResult { keyword: Some(word.to_string()), pronounce: None, paraphrase: Some(vec!["n. x".to_string()]), examples: None, collins: None }
}

fn parse(bytes: &[u8]) -> Option<LegacyResult> {
    let text = std::str::from_utf8(bytes).ok()?;
    let word = text.strip_prefix("{\"k\":\"")?.strip_suffix("\"}")?;
    Some(legacy(word))
}

#[test]
fn one_valid_row_and_one_garbage_row() {
    let rows: Vec<(String, Vec<u8>)> = vec![
        ("cat".to_string(), b"{\"k\":\"cat\"}".to_vec()),
        ("bad".to_string(), vec![0xff, 0x00, 0x13, 0x37]),
    ];
    let mut m = TableMigration::new();
    for (query, bytes) in &rows {
        let parsed = parse(&legacy_payload(bytes));
        assert!(m.on_row(query.clone(), parsed).is_none());
    }
    let batch = m.finish().expect("one record waits");
    assert_eq!(batch.len(), 1);
    assert_eq!(batch[0].1.query, "cat");
    m.on_flush(BatchOutcome::Written(batch.len()));
    let report = m.report("en".to_string());
    assert_eq!(report.total, 2);
    assert_eq!(report.inserted, 1);
    assert_eq!(report.errors, 1);
}

#[test]
fn full_batches_are_handed_out() {
    let mut m = TableMigration::new();
    let mut flushed = 0;
    for i in 0..250 {
        if let Some(batch) = m.on_row(format!("w{}", i), Some(legacy("w"))) {
            assert_eq!(batch.len(), BATCH_SIZE);
            flushed += 1;
            m.on_flush(BatchOutcome::Written(batch.len()));
        }
    }
    assert_eq!(flushed, 2);
    let rest = m.finish().unwrap();
    assert_eq!(rest.len(), 50);
    m.on_flush(BatchOutcome::Written(50));
    assert!(m.finish().is_none());
    assert_eq!(m.inserted(), 250);
    assert_eq!(m.errors(), 0);
}

#[test]
fn failed_batch_counts_each_record_as_an_error() {
    let mut m = TableMigration::new();
    for i in 0..100 {
        if let Some(batch) = m.on_row(format!("w{}", i), Some(legacy("w"))) {
            assert!(m.awaiting_flush());
            assert_eq!(batch.len(), 100);
            m.on_flush(BatchOutcome::Failed);
        }
    }
    assert_eq!(m.errors(), 100);
    assert_eq!(m.inserted(), 0);
    assert_eq!(m.rows(), 100);
}

#[test]
fn empty_query_is_an_error() {
    let mut m = TableMigration::new();
    assert!(m.on_row(String::new(), Some(legacy("x"))).is_none());
    assert!(m.finish().is_none());
    assert_eq!(m.errors(), 1);
    assert_eq!(m.inserted(), 0);
}

#[test]
fn a_run_fails_only_when_every_table_failed() {
    assert!(run_failed(&vec![true, true]));
    assert!(!run_failed(&vec![true, false]));
    assert!(!run_failed(&vec![false, false]));
    assert!(!run_failed(&Vec::new()));
}
