use std::io::Write;

use kd::codec::{decode_payload, encode_payload, legacy_payload, CodecError};

#[test]
fn payload_round_trip_keeps_bytes_and_sizes() {
    let json = br#"{"query":"cat","found":true,"translations":["n. cat"]}"#.to_vec();
    let c = encode_payload(&json).expect("compression succeeds");
    assert_eq!(c.original_size, json.len());
    assert_eq!(c.compressed_size, c.data.len());
    assert_ne!(c.data, json);
    assert_eq!(decode_payload(&c.data), Ok(json));
}

#[test]
fn empty_payload_round_trips() {
    let c = encode_payload(&Vec::new()).expect("compression succeeds");
    assert_eq!(c.original_size, 0);
    assert_eq!(decode_payload(&c.data), Ok(Vec::new()));
}

#[test]
fn garbage_is_a_corrupt_record() {
    assert_eq!(decode_payload(&b"not zstd".to_vec()), Err(CodecError::CorruptRecord));
}

#[test]
fn zlib_legacy_payload_is_inflated() {
    let plain = br#"{"k":"cat"}"#.to_vec();
    let mut enc = flate2::write::ZlibEncoder::new(Vec::new(), flate2::Compression::default());
    enc.write_all(&plain).unwrap();
    let compressed = enc.finish().unwrap();
    assert_eq!(legacy_payload(&compressed), plain);
}

#[test]
fn plain_legacy_payload_is_kept() {
    let plain = br#"{"k":"dog"}"#.to_vec();
    assert_eq!(legacy_payload(&plain), plain);
}

#[test]
fn encoding_an_ordinary_payload_succeeds() {
    for n in [1usize, 100, 10_000] {
        let data = vec![b'x'; n];
        let c = encode_payload(&data).expect("compression succeeds");
        assert_eq!(c.original_size, n);
        assert_eq!(decode_payload(&c.data), Ok(data));
    }
}
