//! The compressed encoding of persisted records, and the decoding of legacy
//! payloads.

use vstd::prelude::*;
use crate::model::CompressedCache;

verus! {

/// What zstd's `decode_all` yields for the given bytes (`None` for an error).
pub uninterp spec fn zstd_decoded(frame: Seq<u8>) -> Option<Seq<u8>>;

/// What zstd's `encode_all` at the default level yields for the given bytes
/// (`None` for an error).
pub uninterp spec fn zstd_frame_of(data: Seq<u8>) -> Option<Seq<u8>>;

/// What reading a zlib stream to its end yields for the given bytes (`None`
/// for an error).
pub uninterp spec fn zlib_inflated(stream: Seq<u8>) -> Option<Seq<u8>>;

/// Relies on zstd::stream::encode_all at the default level: its result
/// depends on the bytes alone, it is a zstd frame, and zstd is lossless, so
/// decoding the frame gives the input back.
#[verifier::external_body]
fn zstd_compress(data: &[u8]) -> (r: Option<Vec<u8>>)
    ensures
        r is Some == zstd_frame_of(data@) is Some,
        r matches Some(frame) ==> zstd_frame_of(data@) == Some(frame@),
        r matches Some(frame) ==> zstd_decoded(frame@) == Some(data@),
{
    zstd::stream::encode_all(std::io::Cursor::new(data), 0).ok()
}

/// Relies on zstd::stream::decode_all; its result depends on the bytes alone.
#[verifier::external_body]
fn zstd_decompress(frame: &[u8]) -> (r: Option<Vec<u8>>)
    ensures
        r matches Some(v) ==> zstd_decoded(frame@) == Some(v@),
        r is None ==> zstd_decoded(frame@) is None,
{
    zstd::stream::decode_all(std::io::Cursor::new(frame)).ok()
}

/// Relies on flate2::read::ZlibDecoder read to its end; its result depends on
/// the bytes alone.
#[verifier::external_body]
fn zlib_decompress(stream: &[u8]) -> (r: Option<Vec<u8>>)
    ensures
        r matches Some(v) ==> zlib_inflated(stream@) == Some(v@),
        r is None ==> zlib_inflated(stream@) is None,
{
    let mut decoder = flate2::read::ZlibDecoder::new(stream);
    let mut out: Vec<u8> = Vec::new();
    match std::io::Read::read_to_end(&mut decoder, &mut out) {
        Ok(_) => Some(out),
        Err(_) => None,
    }
}

/// Why a payload could not be encoded or decoded.
#[derive(Debug, Clone, Copy, PartialEq, Eq, Structural)]
pub enum CodecError {
    /// The compressor failed.
    Compression,
    /// The stored bytes are not a valid compressed payload.
    CorruptRecord,
}

/// `c` is an encoding of the serialized record `serialized`: its data
/// decompresses to it, and it carries both sizes.
pub open spec fn is_encoding(serialized: Seq<u8>, c: CompressedCache) -> bool {
    &&& zstd_decoded(c.data@) == Some(serialized)
    &&& c.compressed_size == c.data@.len()
    &&& c.original_size == serialized.len()
}

/// What decoding the stored bytes `data` yields.
pub open spec fn payload_of(data: Seq<u8>) -> Result<Seq<u8>, CodecError> {
    match zstd_decoded(data) {
        Some(v) => Ok(v),
        None => Err(CodecError::CorruptRecord),
    }
}

/// Compresses a serialized record.
pub fn encode_payload(serialized: &Vec<u8>) -> (r: Result<CompressedCache, CodecError>)
    ensures
        r is Ok == zstd_frame_of(serialized@) is Some,
        r matches Ok(c) ==> is_encoding(serialized@, c) && zstd_frame_of(serialized@) == Some(c.data@),
        r matches Err(e) ==> e == CodecError::Compression,
{
    match zstd_compress(serialized.as_slice()) {
        Some(data) => {
            let compressed_size = data.len();
            Ok(CompressedCache { data, compressed_size, original_size: serialized.len() })
        },
        None => Err(CodecError::Compression),
    }
}

/// Decompresses stored bytes back into the serialized record.
pub fn decode_payload(data: &Vec<u8>) -> (r: Result<Vec<u8>, CodecError>)
    ensures
        r matches Ok(v) ==> payload_of(data@) == Ok::<Seq<u8>, CodecError>(v@),
        r matches Err(e) ==> payload_of(data@) == Err::<Seq<u8>, CodecError>(e),
{
    match zstd_decompress(data.as_slice()) {
        Some(v) => Ok(v),
        None => Err(CodecError::CorruptRecord),
    }
}

/// Round trip: decoding the data of an encoding yields the serialized record
/// it was made from.
pub proof fn lemma_payload_round_trip(serialized: Seq<u8>, c: CompressedCache)
    requires
        is_encoding(serialized, c),
    ensures
        payload_of(c.data@) == Ok::<Seq<u8>, CodecError>(serialized),
{
}

/// The record bytes of a legacy payload: the inflated stream when the payload
/// is zlib-compressed, else the payload as it is.
pub open spec fn legacy_bytes(raw: Seq<u8>) -> Seq<u8> {
    match zlib_inflated(raw) {
        Some(v) => v,
        None => raw,
    }
}

/// Inflates a legacy payload, or keeps it as it is when it is not a zlib stream.
pub fn legacy_payload(raw: &Vec<u8>) -> (r: Vec<u8>)
    ensures
        r@ == legacy_bytes(raw@),
{
    match zlib_decompress(raw.as_slice()) {
        Some(v) => v,
        None => copy_bytes(raw),
    }
}

/// A copy of a byte vector.
pub fn copy_bytes(raw: &Vec<u8>) -> (r: Vec<u8>)
    ensures
        r@ == raw@,
{
    let mut copy: Vec<u8> = Vec::new();
    let mut i: usize = 0;
    while i < raw.len()
        invariant
            i <= raw.len(),
            copy@ == raw@.subrange(0, i as int),
        decreases raw.len() - i,
    {
        copy.push(raw[i]);
        i = i + 1;
        assert(copy@ =~= raw@.subrange(0, i as int));
    }
    assert(raw@.subrange(0, raw.len() as int) =~= raw@);
    copy
}

} // verus!
