//! Migration of a legacy table into the persistent store, row by row, in
//! bounded batches, counting what was inserted and what failed.
//!
//! `TableMigration` holds the decisions. The caller reads the rows, decodes
//! each payload with `legacy_payload`, parses it, and hands the outcome to
//! `on_row`; a batch that `on_row` or `finish` hands back is written in one
//! transaction, and its outcome goes to `on_flush`.

use vstd::prelude::*;
use crate::legacy::{LegacyResult, LegacyView, converted, convert_legacy};
use crate::model::{QueryResult, RecordView};

verus! {

/// The number of records written per transaction.
pub const BATCH_SIZE: usize = 100;

/// The outcome of writing one batch.
#[derive(Debug, Clone, Copy, PartialEq, Eq, Structural)]
pub enum BatchOutcome {
    /// The transaction committed; this many rows were written.
    Written(usize),
    /// The transaction failed.
    Failed,
}

/// The progress of one table's migration.
#[derive(Debug)]
pub struct TableMigration {
    rows: usize,
    inserted: usize,
    errors: usize,
    in_flight: usize,
    batch: Vec<(String, QueryResult)>,
}

pub ghost struct MigrationView {
    pub rows: nat,
    pub inserted: nat,
    pub errors: nat,
    pub in_flight: nat,
    pub batch: Seq<(Seq<char>, RecordView)>,
}

/// The view of a batch of (query, record) items.
pub open spec fn batch_view(b: Seq<(String, QueryResult)>) -> Seq<(Seq<char>, RecordView)> {
    Seq::new(b.len(), |i: int| (b[i].0@, b[i].1@))
}

impl View for TableMigration {
    type V = MigrationView;

    closed spec fn view(&self) -> MigrationView {
        MigrationView {
            rows: self.rows as nat,
            inserted: self.inserted as nat,
            errors: self.errors as nat,
            in_flight: self.in_flight as nat,
            batch: batch_view(self.batch@),
        }
    }
}

impl MigrationView {
    /// Every row seen is counted once: inserted, failed, being written or
    /// waiting in the batch (rows the store skipped are in none of these).
    pub open spec fn wf(self) -> bool {
        &&& self.inserted + self.errors + self.in_flight + self.batch.len() <= self.rows
        &&& self.batch.len() < BATCH_SIZE
        &&& forall|i: int| 0 <= i < self.batch.len() ==> (#[trigger] self.batch[i]).0.len() > 0
    }

    /// The state after a row whose payload parsed as `parsed`: a row that
    /// did not parse, or whose query is empty, is an error.
    pub open spec fn after_row(self, query: Seq<char>, parsed: Option<LegacyView>) -> MigrationView {
        match parsed {
            Some(l) if query.len() > 0 => {
                let b = self.batch.push((query, converted(l)));
                if b.len() >= BATCH_SIZE {
                    MigrationView { rows: self.rows + 1, in_flight: self.in_flight + b.len(), batch: Seq::empty(), ..self }
                } else {
                    MigrationView { rows: self.rows + 1, batch: b, ..self }
                }
            },
            _ => MigrationView { rows: self.rows + 1, errors: self.errors + 1, ..self },
        }
    }

    /// The batch that a row hands out to be written, if the row fills it.
    pub open spec fn flushed_by_row(self, query: Seq<char>, parsed: Option<LegacyView>) -> Option<Seq<(Seq<char>, RecordView)>> {
        match parsed {
            Some(l) if query.len() > 0 => {
                let b = self.batch.push((query, converted(l)));
                if b.len() >= BATCH_SIZE { Some(b) } else { None }
            },
            _ => None,
        }
    }

    /// The state after the batch being written had the given outcome: a
    /// failed batch counts each of its records as an error.
    pub open spec fn after_flush(self, outcome: BatchOutcome) -> MigrationView {
        match outcome {
            BatchOutcome::Written(n) => MigrationView { inserted: (self.inserted + n) as nat, in_flight: 0, ..self },
            BatchOutcome::Failed => MigrationView { errors: self.errors + self.in_flight, in_flight: 0, ..self },
        }
    }
}

/// The view of an optional parsed legacy record.
pub open spec fn parsed_view(parsed: Option<LegacyResult>) -> Option<LegacyView> {
    match parsed {
        Some(l) => Some(l@),
        None => None,
    }
}

/// What a table's migration reports.
#[derive(Debug)]
pub struct MigrationReport {
    pub table: String,
    pub total: usize,
    pub inserted: usize,
    pub errors: usize,
}

impl TableMigration {
    /// A migration that has seen no row.
    pub fn new() -> (r: Self)
        ensures
            r@.wf(),
            r@ == (MigrationView { rows: 0, inserted: 0, errors: 0, in_flight: 0, batch: Seq::empty() }),
    {
        let r = TableMigration { rows: 0, inserted: 0, errors: 0, in_flight: 0, batch: Vec::new() };
        assert(batch_view(r.batch@) =~= Seq::<(Seq<char>, RecordView)>::empty());
        r
    }

    /// The number of rows inserted so far.
    pub fn inserted(&self) -> (r: usize)
        ensures
            r == self@.inserted,
    {
        self.inserted
    }

    /// The number of rows that failed so far.
    pub fn errors(&self) -> (r: usize)
        ensures
            r == self@.errors,
    {
        self.errors
    }

    /// The number of rows seen so far.
    pub fn rows(&self) -> (r: usize)
        ensures
            r == self@.rows,
    {
        self.rows
    }

    /// Whether a batch handed out is still waiting for its outcome.
    pub fn awaiting_flush(&self) -> (r: bool)
        ensures
            r == (self@.in_flight > 0),
    {
        self.in_flight > 0
    }

    /// Takes one row: a row that did not parse, or whose query is empty, is
    /// an error (a stored query is never empty); a parsed row is converted
    /// and queued, and a full batch is handed out to be written.
    pub fn on_row(&mut self, query: String, parsed: Option<LegacyResult>) -> (r: Option<Vec<(String, QueryResult)>>)
        requires
            old(self)@.wf(),
            old(self)@.in_flight == 0,
            old(self)@.rows < usize::MAX,
            parsed matches Some(l) ==> l@.wf(),
        ensures
            final(self)@.wf(),
            final(self)@ == old(self)@.after_row(query@, parsed_view(parsed)),
            match r {
                Some(b) => old(self)@.flushed_by_row(query@, parsed_view(parsed)) == Some(batch_view(b@)),
                None => old(self)@.flushed_by_row(query@, parsed_view(parsed)) is None,
            },
    {
        self.rows = self.rows + 1;
        if query.as_str().unicode_len() == 0 {
            self.errors = self.errors + 1;
            return None;
        }
        match parsed {
            None => {
                self.errors = self.errors + 1;
                None
            },
            Some(legacy) => {
                let ghost before = batch_view(self.batch@);
                let record = convert_legacy(legacy);
                self.batch.push((query, record));
                assert(batch_view(self.batch@) =~= before.push((query@, record@)));
                if self.batch.len() >= BATCH_SIZE {
                    let ghost all = self.batch@;
                    let full = self.batch.split_off(0);
                    assert(full@ =~= all);
                    self.in_flight = full.len();
                    assert(batch_view(self.batch@) =~= Seq::<(Seq<char>, RecordView)>::empty());
                    Some(full)
                } else {
                    None
                }
            },
        }
    }

    /// Hands out the last, partial batch, if any record is waiting.
    pub fn finish(&mut self) -> (r: Option<Vec<(String, QueryResult)>>)
        requires
            old(self)@.wf(),
            old(self)@.in_flight == 0,
        ensures
            final(self)@.wf(),
            match r {
                Some(b) => {
                    &&& old(self)@.batch.len() > 0
                    &&& batch_view(b@) == old(self)@.batch
                &&& forall|i: int| 0 <= i < b.len() ==> (#[trigger] b@[i]).0@.len() > 0
                    &&& final(self)@ == (MigrationView { in_flight: b.len() as nat, batch: Seq::empty(), ..old(self)@ })
                },
                None => old(self)@.batch.len() == 0 && final(self)@ == old(self)@,
            },
    {
        if self.batch.len() == 0 {
            return None;
        }
        let ghost all = self.batch@;
        let rest = self.batch.split_off(0);
        assert(rest@ =~= all);
        assert forall|i: int| 0 <= i < rest.len() implies (#[trigger] rest@[i]).0@.len() > 0 by {
            assert(batch_view(rest@)[i].0 == rest@[i].0@);
        }
        self.in_flight = rest.len();
        assert(batch_view(self.batch@) =~= Seq::<(Seq<char>, RecordView)>::empty());
        Some(rest)
    }

    /// Takes the outcome of writing the batch that was handed out.
    pub fn on_flush(&mut self, outcome: BatchOutcome)
        requires
            old(self)@.wf(),
            outcome matches BatchOutcome::Written(n) ==> n <= old(self)@.in_flight,
        ensures
            final(self)@.wf(),
            final(self)@ == old(self)@.after_flush(outcome),
    {
        match outcome {
            BatchOutcome::Written(n) => {
                self.inserted = self.inserted + n;
            },
            BatchOutcome::Failed => {
                self.errors = self.errors + self.in_flight;
            },
        }
        self.in_flight = 0;
    }

    /// The report of the table, once its rows are done.
    pub fn report(&self, table: String) -> (r: MigrationReport)
        ensures
            r.table@ == table@,
            r.total == self@.rows,
            r.inserted == self@.inserted,
            r.errors == self@.errors,
    {
        MigrationReport { table, total: self.rows, inserted: self.inserted, errors: self.errors }
    }
}

/// Whether a run over tables failed: it fails only when there were tables
/// and every one of them failed (a missing table is no failure).
pub fn run_failed(failed: &Vec<bool>) -> (r: bool)
    ensures
        r == (failed.len() > 0 && forall|i: int| 0 <= i < failed.len() ==> #[trigger] failed@[i]),
{
    let mut i: usize = 0;
    while i < failed.len()
        invariant
            i <= failed.len(),
            forall|k: int| 0 <= k < i ==> #[trigger] failed@[k],
        decreases failed.len() - i,
    {
        if !failed[i] {
            return false;
        }
        i = i + 1;
    }
    failed.len() > 0
}

} // verus!
