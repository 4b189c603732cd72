//! The naming table's schema, and the decisions of a batch insert: which row to
//! write next, whether a failed write is tried again, and what is reported for
//! each file.

use vstd::prelude::*;

use crate::file_info::{encode_row, row_error, row_matches, EncodingError, FileInfoItem, FileRow};

verus! {

/// Creates the naming table where it does not exist yet; running it again on a
/// database that has the table changes nothing.
pub const CREATE_FILE_INFO_TABLE: &'static str = "CREATE TABLE IF NOT EXISTS NAMING_FILE_INFO (
    FILE_INFO_ID INTEGER PRIMARY KEY AUTOINCREMENT,
    PATH_PREFIX_TYPE INTEGER NOT NULL,
    PATH_SUFFIX TEXT NOT NULL,
    TYPE_CHECKER_MODE INTEGER,
    DECL_HASH TEXT,
    CLASSES TEXT NOT NULL,
    CONSTS TEXT NOT NULL,
    FUNS TEXT NOT NULL,
    RECS TEXT NOT NULL,
    TYPEDEFS TEXT NOT NULL
);";

/// Appends one row; its nine parameters are the fields of a `FileRow`, in order.
pub const INSERT_FILE_INFO: &'static str = "INSERT INTO NAMING_FILE_INFO (
    PATH_PREFIX_TYPE,
    PATH_SUFFIX,
    TYPE_CHECKER_MODE,
    DECL_HASH,
    CLASSES,
    CONSTS,
    FUNS,
    RECS,
    TYPEDEFS
) VALUES (?, ?, ?, ?, ?, ?, ?, ?, ?);";

/// Reads the rows of one path, oldest first; its two parameters are the stored
/// prefix and the suffix.
pub const SELECT_FILE_INFO_BY_PATH: &'static str = "SELECT FILE_INFO_ID, PATH_PREFIX_TYPE, PATH_SUFFIX,
    TYPE_CHECKER_MODE, DECL_HASH, CLASSES, CONSTS, FUNS, RECS, TYPEDEFS
FROM NAMING_FILE_INFO
WHERE PATH_PREFIX_TYPE = ? AND PATH_SUFFIX = ?
ORDER BY FILE_INFO_ID;";

/// How many times one row is written at most while the database is busy.
pub const MAX_WRITE_ATTEMPTS: u32 = 3;

/// What becomes of a batch in which some row failed.
#[derive(Clone, Copy, Debug, PartialEq, Eq, Structural)]
pub enum BatchPolicy {
    /// Any failure rolls the whole batch back.
    AllOrNothing,
    /// The rows that were written are kept; the others are reported.
    PartialProgress,
}

/// Why the database did not take a row.
#[derive(Clone, Copy, Debug, PartialEq, Eq, Structural)]
pub enum WriteFailure {
    /// Another writer held the lock: worth trying again.
    Busy,
    /// Any other engine failure: disk full, a broken constraint.
    Engine,
}

/// What became of one file of a batch.
#[derive(Clone, Copy, Debug, PartialEq, Eq, Structural)]
pub enum RowOutcome {
    Inserted,
    EncodingFailed(EncodingError),
    WriteFailed(WriteFailure),
    RolledBack,
}

/// What became of a batch: whether it was committed, and each file's outcome.
#[derive(Clone, Debug)]
pub struct InsertReport {
    pub committed: bool,
    pub outcomes: Vec<RowOutcome>,
}

/// The next thing to do in a batch.
#[derive(Clone, Copy, Debug, PartialEq, Eq, Structural)]
pub enum BatchStep {
    /// Write the row of this file.
    Write(usize),
    /// This file has no row; go on with the next one.
    Skip(usize),
    /// Stop: commit or roll back as the report says.
    Finish,
}

/// `encoded` holds the stored row of each file of `items`, or why it has none.
pub open spec fn batch_encodes(
    encoded: Seq<Result<FileRow, EncodingError>>,
    items: Seq<FileInfoItem>,
) -> bool {
    &&& encoded.len() == items.len()
    &&& forall|i: int|
        0 <= i < items.len() ==> match #[trigger] encoded[i] {
            Ok(row) => row_error(items[i]) is None && row_matches(row, items[i]),
            Err(e) => row_error(items[i]) == Some(e),
        }
}

/// Every file of the batch has a row.
pub open spec fn all_encoded(encoded: Seq<Result<FileRow, EncodingError>>) -> bool {
    forall|i: int| 0 <= i < encoded.len() ==> #[trigger] encoded[i] is Ok
}

/// No write has failed so far.
pub open spec fn no_write_failed(written: Seq<Option<WriteFailure>>) -> bool {
    forall|i: int| 0 <= i < written.len() ==> #[trigger] written[i] is None
}

/// The batch is committed: always where progress is kept, else only where every
/// file has a row and every write went through.
pub open spec fn commits(
    policy: BatchPolicy,
    encoded: Seq<Result<FileRow, EncodingError>>,
    written: Seq<Option<WriteFailure>>,
) -> bool {
    policy == BatchPolicy::PartialProgress || (all_encoded(encoded) && no_write_failed(written))
}

/// The outcome of one file, from its row, the result of its write and whether
/// the batch was committed.
pub open spec fn outcome_of(
    e: Result<FileRow, EncodingError>,
    w: Option<WriteFailure>,
    committed: bool,
) -> RowOutcome {
    match e {
        Err(x) => RowOutcome::EncodingFailed(x),
        Ok(_) => match w {
            Some(f) => RowOutcome::WriteFailed(f),
            None => if committed {
                RowOutcome::Inserted
            } else {
                RowOutcome::RolledBack
            },
        },
    }
}

/// `r` reports the batch whose rows are `encoded` and whose writes came out as
/// `written`.
pub open spec fn report_matches(
    r: InsertReport,
    policy: BatchPolicy,
    encoded: Seq<Result<FileRow, EncodingError>>,
    written: Seq<Option<WriteFailure>>,
) -> bool {
    &&& r.committed == commits(policy, encoded, written)
    &&& r.outcomes@.len() == encoded.len()
    &&& forall|i: int|
        0 <= i < encoded.len() ==> #[trigger] r.outcomes@[i] == outcome_of(
            encoded[i],
            written[i],
            r.committed,
        )
}

/// The next step of a batch of which `written.len()` files are done.
pub open spec fn step_of(
    policy: BatchPolicy,
    encoded: Seq<Result<FileRow, EncodingError>>,
    written: Seq<Option<WriteFailure>>,
) -> BatchStep {
    if policy == BatchPolicy::AllOrNothing && !(all_encoded(encoded) && no_write_failed(written)) {
        BatchStep::Finish
    } else if written.len() >= encoded.len() {
        BatchStep::Finish
    } else if encoded[written.len() as int] is Ok {
        BatchStep::Write(written.len() as usize)
    } else {
        BatchStep::Skip(written.len() as usize)
    }
}

/// The row of each file of `items`, or why it has none.
pub fn encode_batch(items: &Vec<FileInfoItem>) -> (r: Vec<Result<FileRow, EncodingError>>)
    ensures
        batch_encodes(r@, items@),
{
    let mut r: Vec<Result<FileRow, EncodingError>> = Vec::new();
    let mut i: usize = 0;
    while i < items.len()
        invariant
            0 <= i <= items.len(),
            batch_encodes(r@, items@.subrange(0, i as int)),
        decreases items.len() - i,
    {
        let e = encode_row(&items[i]);
        r.push(e);
        i = i + 1;
        assert forall|j: int| 0 <= j < i implies match #[trigger] r@[j] {
            Ok(row) => row_error(items@.subrange(0, i as int)[j]) is None && row_matches(
                row,
                items@.subrange(0, i as int)[j],
            ),
            Err(e) => row_error(items@.subrange(0, i as int)[j]) == Some(e),
        } by {
            assert(items@.subrange(0, i as int)[j] == items@[j]);
            if j < i - 1 {
                assert(items@.subrange(0, i - 1)[j] == items@[j]);
            }
        }
    }
    assert(items@.subrange(0, i as int) =~= items@);
    r
}

fn all_encoded_exec(encoded: &Vec<Result<FileRow, EncodingError>>) -> (r: bool)
    ensures
        r == all_encoded(encoded@),
{
    let mut i: usize = 0;
    while i < encoded.len()
        invariant
            0 <= i <= encoded.len(),
            forall|j: int| 0 <= j < i ==> #[trigger] encoded@[j] is Ok,
        decreases encoded.len() - i,
    {
        if encoded[i].is_err() {
            return false;
        }
        i = i + 1;
    }
    true
}

fn no_write_failed_exec(written: &Vec<Option<WriteFailure>>) -> (r: bool)
    ensures
        r == no_write_failed(written@),
{
    let mut i: usize = 0;
    while i < written.len()
        invariant
            0 <= i <= written.len(),
            forall|j: int| 0 <= j < i ==> #[trigger] written@[j] is None,
        decreases written.len() - i,
    {
        if written[i].is_some() {
            return false;
        }
        i = i + 1;
    }
    true
}

/// What to do next in a batch whose rows are `encoded`, once the first
/// `written.len()` files are done (`written[i]` is how the write of file `i`
/// failed, or `None`). Under all-or-nothing nothing is written once any file
/// lacks a row or any write has failed.
pub fn next_step(
    policy: BatchPolicy,
    encoded: &Vec<Result<FileRow, EncodingError>>,
    written: &Vec<Option<WriteFailure>>,
) -> (r: BatchStep)
    ensures
        r == step_of(policy, encoded@, written@),
{
    if policy == BatchPolicy::AllOrNothing && !(all_encoded_exec(encoded) && no_write_failed_exec(
        written,
    )) {
        BatchStep::Finish
    } else if written.len() >= encoded.len() {
        BatchStep::Finish
    } else if encoded[written.len()].is_ok() {
        BatchStep::Write(written.len())
    } else {
        BatchStep::Skip(written.len())
    }
}

/// Whether a write that failed with `failure`, after `attempts` tries of that
/// row, is tried again: only where the database was busy, and at most
/// `MAX_WRITE_ATTEMPTS` times in all.
pub fn should_retry(failure: WriteFailure, attempts: u32) -> (r: bool)
    ensures
        r == (failure == WriteFailure::Busy && attempts < MAX_WRITE_ATTEMPTS),
{
    failure == WriteFailure::Busy && attempts < MAX_WRITE_ATTEMPTS
}

/// The report of a batch whose rows are `encoded` and whose writes came out as
/// `written` (`None` for a write that went through or was not made).
pub fn batch_report(
    policy: BatchPolicy,
    encoded: &Vec<Result<FileRow, EncodingError>>,
    written: &Vec<Option<WriteFailure>>,
) -> (r: InsertReport)
    requires
        written.len() == encoded.len(),
    ensures
        report_matches(r, policy, encoded@, written@),
{
    let committed = policy == BatchPolicy::PartialProgress || (all_encoded_exec(encoded)
        && no_write_failed_exec(written));
    let mut outcomes: Vec<RowOutcome> = Vec::new();
    let mut i: usize = 0;
    while i < encoded.len()
        invariant
            0 <= i <= encoded.len(),
            written.len() == encoded.len(),
            committed == commits(policy, encoded@, written@),
            outcomes@.len() == i,
            forall|j: int|
                0 <= j < i ==> #[trigger] outcomes@[j] == outcome_of(
                    encoded@[j],
                    written@[j],
                    committed,
                ),
        decreases encoded.len() - i,
    {
        let o = match &encoded[i] {
            Err(x) => RowOutcome::EncodingFailed(*x),
            Ok(_) => match written[i] {
                Some(f) => RowOutcome::WriteFailed(f),
                None => if committed {
                    RowOutcome::Inserted
                } else {
                    RowOutcome::RolledBack
                },
            },
        };
        outcomes.push(o);
        i = i + 1;
    }
    InsertReport { committed, outcomes }
}

/// In a batch where file `k` alone has no row and every write went through, the
/// report marks file `k` failed, and every other file inserted where progress is
/// kept, or rolled back under all-or-nothing; under all-or-nothing no row is
/// written at all.
pub proof fn lemma_one_malformed_file(
    policy: BatchPolicy,
    encoded: Seq<Result<FileRow, EncodingError>>,
    written: Seq<Option<WriteFailure>>,
    k: int,
    r: InsertReport,
)
    requires
        0 <= k < encoded.len(),
        encoded[k] is Err,
        forall|i: int| 0 <= i < encoded.len() && i != k ==> #[trigger] encoded[i] is Ok,
        written.len() == encoded.len(),
        no_write_failed(written),
        report_matches(r, policy, encoded, written),
    ensures
        r.committed == (policy == BatchPolicy::PartialProgress),
        r.outcomes@[k] == RowOutcome::EncodingFailed(encoded[k]->Err_0),
        forall|i: int|
            0 <= i < encoded.len() && i != k ==> #[trigger] r.outcomes@[i] == if policy
                == BatchPolicy::PartialProgress {
                RowOutcome::Inserted
            } else {
                RowOutcome::RolledBack
            },
        step_of(BatchPolicy::AllOrNothing, encoded, Seq::empty()) == BatchStep::Finish,
{
    assert(!all_encoded(encoded));
    assert forall|i: int|
        0 <= i < encoded.len() && i != k implies #[trigger] r.outcomes@[i] == if policy
            == BatchPolicy::PartialProgress {
            RowOutcome::Inserted
        } else {
            RowOutcome::RolledBack
        } by {
        assert(encoded[i] is Ok);
        assert(written[i] is None);
    }
}

} // verus!
