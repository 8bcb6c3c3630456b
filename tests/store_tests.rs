use kd::codec::decode_payload;
use kd::model::CompressedCache;
use kd::store::{batch_count, collect_rows, encode_batch, prepare_row};

fn items(n: usize) -> Vec<(String, Vec<u8>)> {
    (0..n).map(|i| (format!("word{}", i), format!("{{\"query\":\"word{}\"}}", i).into_bytes())).collect()
}

#[test]
fn batch_skips_items_that_failed_to_encode() {
    let items = items(5);
    let mut encoded = encode_batch(&items);
    assert_eq!(encoded.len(), 5);
    assert!(encoded.iter().all(|e| e.is_some()));
    encoded[1] = None;
    encoded[3] = None;
    let rows = collect_rows(&items, &encoded, 42);
    assert_eq!(rows.len(), 3);
    assert_eq!(rows.iter().map(|r| r.query.as_str()).collect::<Vec<_>>(), vec!["word0", "word2", "word4"]);
    assert_eq!(batch_count(&vec![true; rows.len()], true), 3);
}

#[test]
fn failed_commit_reports_zero() {
    assert_eq!(batch_count(&vec![true, true, false], false), 0);
    assert_eq!(batch_count(&vec![true, false, true], true), 2);
    assert_eq!(batch_count(&Vec::new(), true), 0);
}

#[test]
fn rows_hold_the_encoding_and_the_write_time() {
    let row = prepare_row(&"cat".to_string(), &b"{\"query\":\"cat\"}".to_vec(), 1234).unwrap();
    assert_eq!(row.query, "cat");
    assert_eq!(row.created_at, 1234);
    assert_eq!(row.updated_at, 1234);
    assert_eq!(row.original_size, 15);
    assert_eq!(row.compressed_size, row.data.len());
    assert_eq!(decode_payload(&row.data), Ok(b"{\"query\":\"cat\"}".to_vec()));
}

#[test]
fn collected_rows_copy_the_encoding() {
    let items = vec![("q".to_string(), b"abc".to_vec())];
    let encoded = vec![Some(CompressedCache { data: vec![1, 2, 3], compressed_size: 3, original_size: 3 })];
    let rows = collect_rows(&items, &encoded, 7);
    assert_eq!(rows[0].data, vec![1, 2, 3]);
    assert_eq!(rows[0].created_at, 7);
}

#[test]
fn rows_under_an_empty_query_are_left_out() {
    let items = vec![(String::new(), b"{}".to_vec()), ("q".to_string(), b"{}".to_vec())];
    let encoded = encode_batch(&items);
    let rows = collect_rows(&items, &encoded, 1);
    assert_eq!(rows.len(), 1);
    assert_eq!(rows[0].query, "q");
}
