//! The rows of the persistent store: how a record is prepared for writing,
//! alone or in a batch, and how a batch reports what it wrote.
//!
//! The store is the table `cache (query TEXT PRIMARY KEY, data BLOB,
//! compressed_size INTEGER, original_size INTEGER, created_at INTEGER,
//! updated_at INTEGER)` with an index on `updated_at`; writes replace any row
//! of the same query.

use vstd::prelude::*;
use crate::codec::{CodecError, copy_bytes, encode_payload, is_encoding, zstd_frame_of};
use crate::model::CompressedCache;

verus! {

/// One row of the store, ready to be written.
#[derive(Debug)]
pub struct StoreRow {
    pub query: String,
    pub data: Vec<u8>,
    pub compressed_size: usize,
    pub original_size: usize,
    pub created_at: i64,
    pub updated_at: i64,
}

pub ghost struct RowView {
    pub query: Seq<char>,
    pub data: Seq<u8>,
    pub compressed_size: usize,
    pub original_size: usize,
    pub created_at: i64,
    pub updated_at: i64,
}

impl DeepView for StoreRow {
    type V = RowView;

    open spec fn deep_view(&self) -> RowView {
        RowView {
            query: self.query@,
            data: self.data@,
            compressed_size: self.compressed_size,
            original_size: self.original_size,
            created_at: self.created_at,
            updated_at: self.updated_at,
        }
    }
}

/// The row that stores an encoding under `query`, written at `now`: both
/// timestamps are the time of the write.
pub open spec fn row_of(query: Seq<char>, c: CompressedCache, now: i64) -> RowView {
    RowView {
        query,
        data: c.data@,
        compressed_size: c.compressed_size,
        original_size: c.original_size,
        created_at: now,
        updated_at: now,
    }
}

fn make_row(query: &String, c: &CompressedCache, now: i64) -> (r: StoreRow)
    ensures
        r.deep_view() == row_of(query@, *c, now),
{
    StoreRow {
        query: query.clone(),
        data: copy_bytes(&c.data),
        compressed_size: c.compressed_size,
        original_size: c.original_size,
        created_at: now,
        updated_at: now,
    }
}

/// Prepares the row that writes a serialized record under `query` at `now`.
/// A stored query is never empty.
pub fn prepare_row(query: &String, serialized: &Vec<u8>, now: i64) -> (r: Result<StoreRow, CodecError>)
    requires
        query@.len() > 0,
    ensures
        r is Ok == zstd_frame_of(serialized@) is Some,
        r matches Ok(row) ==> exists|c: CompressedCache|
            is_encoding(serialized@, c) && zstd_frame_of(serialized@) == Some(c.data@)
                && row.deep_view() == row_of(query@, c, now),
        r matches Err(e) ==> e == CodecError::Compression,
{
    match encode_payload(serialized) {
        Ok(c) => {
            let row = make_row(query, &c, now);
            assert(is_encoding(serialized@, c) && zstd_frame_of(serialized@) == Some(c.data@)
                && row.deep_view() == row_of(query@, c, now));
            Ok(row)
        },
        Err(e) => Err(e),
    }
}

/// Encodes each serialized record of a batch; an entry is `None` where the
/// encoding failed.
pub fn encode_batch(items: &Vec<(String, Vec<u8>)>) -> (r: Vec<Option<CompressedCache>>)
    ensures
        r.len() == items.len(),
        forall|i: int| 0 <= i < r.len() ==> (#[trigger] r@[i] is Some) == (zstd_frame_of(items@[i].1@) is Some),
        forall|i: int| 0 <= i < r.len() ==> (#[trigger] r@[i] matches Some(c) ==> is_encoding(items@[i].1@, c)
            && zstd_frame_of(items@[i].1@) == Some(c.data@)),
{
    let mut out: Vec<Option<CompressedCache>> = Vec::new();
    let mut i: usize = 0;
    while i < items.len()
        invariant
            i <= items.len(),
            out.len() == i,
            forall|k: int| 0 <= k < i ==> (#[trigger] out@[k] is Some) == (zstd_frame_of(items@[k].1@) is Some),
            forall|k: int| 0 <= k < i ==> (#[trigger] out@[k] matches Some(c) ==> is_encoding(items@[k].1@, c)
                && zstd_frame_of(items@[k].1@) == Some(c.data@)),
        decreases items.len() - i,
    {
        out.push(encode_payload(&items[i].1).ok());
        i = i + 1;
    }
    out
}

/// The rows of a batch: one for each item whose encoding succeeded and
/// whose query is not empty (a stored query is never empty), in order.
pub open spec fn kept_rows(
    items: Seq<(Seq<char>, Seq<u8>)>,
    encoded: Seq<Option<CompressedCache>>,
    now: i64,
) -> Seq<RowView>
    decreases items.len(),
{
    if items.len() == 0 || encoded.len() != items.len() {
        Seq::empty()
    } else {
        let rest = kept_rows(items.drop_last(), encoded.drop_last(), now);
        match encoded.last() {
            Some(c) if items.last().0.len() > 0 => rest.push(row_of(items.last().0, c, now)),
            _ => rest,
        }
    }
}

/// The number of items whose encoding failed.
pub open spec fn encode_failures(encoded: Seq<Option<CompressedCache>>) -> nat
    decreases encoded.len(),
{
    if encoded.len() == 0 {
        0
    } else {
        encode_failures(encoded.drop_last()) + if encoded.last() is None { 1nat } else { 0nat }
    }
}

/// Builds the rows of a batch from its items and their encodings.
/// Items with an empty query are left out.
pub fn collect_rows(items: &Vec<(String, Vec<u8>)>, encoded: &Vec<Option<CompressedCache>>, now: i64) -> (r: Vec<StoreRow>)
    requires
        encoded.len() == items.len(),
    ensures
        r.deep_view() == kept_rows(items.deep_view(), encoded@, now),
{
    let mut out: Vec<StoreRow> = Vec::new();
    let mut i: usize = 0;
    while i < items.len()
        invariant
            i <= items.len(),
            encoded.len() == items.len(),
            out.deep_view() == kept_rows(
                items.deep_view().subrange(0, i as int),
                encoded@.subrange(0, i as int),
                now,
            ),
        decreases items.len() - i,
    {
        let ghost before = out.deep_view();
        match &encoded[i] {
            Some(c) if items[i].0.as_str().unicode_len() > 0 => {
                let row = make_row(&items[i].0, c, now);
                out.push(row);
                assert(out.deep_view() =~= before.push(row.deep_view()));
            },
            _ => {},
        }
        assert(items.deep_view().subrange(0, i + 1).drop_last() =~= items.deep_view().subrange(0, i as int));
        assert(encoded@.subrange(0, i + 1).drop_last() =~= encoded@.subrange(0, i as int));
        i = i + 1;
    }
    assert(items.deep_view().subrange(0, items.len() as int) =~= items.deep_view());
    assert(encoded@.subrange(0, items.len() as int) =~= encoded@);
    out
}

/// The number of rows whose write succeeded.
pub open spec fn count_written(executed: Seq<bool>) -> nat
    decreases executed.len(),
{
    if executed.len() == 0 {
        0
    } else {
        count_written(executed.drop_last()) + if executed.last() { 1nat } else { 0nat }
    }
}

/// What a batch reports: the rows written when its transaction committed,
/// and none when it did not.
pub fn batch_count(executed: &Vec<bool>, committed: bool) -> (r: usize)
    ensures
        r == if committed { count_written(executed@) } else { 0 },
{
    if !committed {
        return 0;
    }
    let mut n: usize = 0;
    let mut i: usize = 0;
    while i < executed.len()
        invariant
            i <= executed.len(),
            n == count_written(executed@.subrange(0, i as int)),
            n <= i,
        decreases executed.len() - i,
    {
        assert(executed@.subrange(0, i + 1).drop_last() =~= executed@.subrange(0, i as int));
        if executed[i] {
            n = n + 1;
        }
        i = i + 1;
    }
    assert(executed@.subrange(0, executed.len() as int) =~= executed@);
    n
}

proof fn lemma_kept_rows_len(items: Seq<(Seq<char>, Seq<u8>)>, encoded: Seq<Option<CompressedCache>>, now: i64)
    requires
        encoded.len() == items.len(),
        forall|i: int| 0 <= i < items.len() ==> (#[trigger] items[i]).0.len() > 0,
    ensures
        kept_rows(items, encoded, now).len() + encode_failures(encoded) == items.len(),
    decreases items.len(),
{
    if items.len() > 0 {
        assert(items[items.len() - 1].0.len() > 0);
        assert forall|i: int| 0 <= i < items.drop_last().len() implies (#[trigger] items.drop_last()[i]).0.len() > 0 by {
            assert(items.drop_last()[i] == items[i]);
        }
        lemma_kept_rows_len(items.drop_last(), encoded.drop_last(), now);
    }
}

proof fn lemma_all_written(executed: Seq<bool>)
    requires
        forall|i: int| 0 <= i < executed.len() ==> #[trigger] executed[i],
    ensures
        count_written(executed) == executed.len(),
    decreases executed.len(),
{
    if executed.len() > 0 {
        assert(executed.last());
        lemma_all_written(executed.drop_last());
    }
}

/// A batch of N items, each under a non-empty query, of which M fail to
/// encode holds N − M rows; when each of them is written and the transaction
/// commits, the batch reports N − M.
pub proof fn lemma_batch_skips_encode_failures(
    items: Seq<(Seq<char>, Seq<u8>)>,
    encoded: Seq<Option<CompressedCache>>,
    now: i64,
    executed: Seq<bool>,
)
    requires
        encoded.len() == items.len(),
        forall|i: int| 0 <= i < items.len() ==> (#[trigger] items[i]).0.len() > 0,
        executed.len() == kept_rows(items, encoded, now).len(),
        forall|i: int| 0 <= i < executed.len() ==> #[trigger] executed[i],
    ensures
        kept_rows(items, encoded, now).len() == items.len() - encode_failures(encoded),
        count_written(executed) == items.len() - encode_failures(encoded),
{
    lemma_kept_rows_len(items, encoded, now);
    lemma_all_written(executed);
}

} // verus!
