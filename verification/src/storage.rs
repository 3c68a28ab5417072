//! The document store: processed documents with their extracted text and
//! their metadata, kept in the `documents` table.
//!
//! The table has the columns of a scanned document and those of a
//! processed one. A processed document fills both: its file name, type
//! and size are taken from its metadata, and the time of the write is its
//! `indexed_at` and its `created_at`.

use vstd::prelude::*;
use vstd::string::*;
use crate::command::{like_pattern, like_pattern_of, Command, CommandView};
use crate::engine::{describe, open_database, Cell};
use crate::error::{StorageError, WriteTarget};
use crate::metadata::{
    decode_metadata, decoded_metadata, encode_metadata, encoded_metadata, metadata_round_trip,
};
use crate::processors::{DocumentMetadata, MetadataView, ProcessedDocument, ProcessedDocumentView};
use crate::records::views;
use crate::rows::{
    checked_order, decode_rows, disorder_at, keys_of, listed, listing, ordered, records_of, row_decodes,
    row_fault, text_in, text_of, ColumnKind, Stored,
};
use crate::schema::{ensure_schema, schema_ensured};
use crate::script::{failed_before_rows, query_rows, run_script};
use crate::session::{
    carried_on, plain_run_succeeds_when_every_statement_does, ran, started, successes, verdict_of,
    Failure,
};
use crate::stamp::current_timestamp;
use crate::text::{chars_of, contains_folded, decimal, decimal_string, occurs_folded};

verus! {

/// A document as it is read from the store. The two times are RFC 3339
/// texts; `created_at` is the time of the last write of the row.
#[derive(Debug, PartialEq, Eq)]
pub struct StoredDocument {
    pub id: String,
    pub file_path: String,
    pub content: String,
    pub metadata: DocumentMetadata,
    pub processed_at: String,
    pub created_at: String,
}

/// The view of a stored document.
pub struct StoredDocumentView {
    pub id: Seq<char>,
    pub file_path: Seq<char>,
    pub content: Seq<char>,
    pub metadata: MetadataView,
    pub processed_at: Seq<char>,
    pub created_at: Seq<char>,
}

impl View for StoredDocument {
    type V = StoredDocumentView;

    open spec fn view(&self) -> StoredDocumentView {
        StoredDocumentView {
            id: self.id@,
            file_path: self.file_path@,
            content: self.content@,
            metadata: self.metadata@,
            processed_at: self.processed_at@,
            created_at: self.created_at@,
        }
    }
}

/// The metadata record without content.
pub open spec fn empty_metadata() -> MetadataView {
    MetadataView {
        file_name: Seq::empty(),
        file_size: 0,
        file_type: Seq::empty(),
        created_at: None,
        modified_at: None,
    }
}

/// The metadata that a stored text stands for.
pub open spec fn metadata_in(cell: Cell) -> MetadataView {
    match decoded_metadata(text_in(cell)) {
        Some(m) => m,
        None => empty_metadata(),
    }
}

impl Stored for StoredDocument {
    open spec fn shape() -> Seq<ColumnKind> {
        seq![
            ColumnKind::Text,
            ColumnKind::Text,
            ColumnKind::Text,
            ColumnKind::Metadata,
            ColumnKind::Timestamp,
            ColumnKind::Timestamp,
        ]
    }

    open spec fn record_of(cells: Seq<Cell>) -> StoredDocumentView {
        StoredDocumentView {
            id: text_in(cells[0]),
            file_path: text_in(cells[1]),
            content: text_in(cells[2]),
            metadata: metadata_in(cells[3]),
            processed_at: text_in(cells[4]),
            created_at: text_in(cells[5]),
        }
    }

    open spec fn key_of(v: StoredDocumentView) -> Seq<char> {
        v.created_at
    }

    fn columns() -> (shape: Vec<ColumnKind>) {
        let shape = vec![
            ColumnKind::Text,
            ColumnKind::Text,
            ColumnKind::Text,
            ColumnKind::Metadata,
            ColumnKind::Timestamp,
            ColumnKind::Timestamp,
        ];
        assert(shape@ =~= Self::shape());
        shape
    }

    fn build(cells: &Vec<Cell>) -> (r: Self) {
        assert(cells@.len() == 6);
        let metadata = match decode_metadata(text_of(&cells[3]).as_str()) {
            Some(m) => m,
            None => DocumentMetadata {
                file_name: String::new(),
                file_size: 0,
                file_type: String::new(),
                created_at: None,
                modified_at: None,
            },
        };
        StoredDocument {
            id: text_of(&cells[0]),
            file_path: text_of(&cells[1]),
            content: text_of(&cells[2]),
            metadata,
            processed_at: text_of(&cells[4]),
            created_at: text_of(&cells[5]),
        }
    }

    fn key(&self) -> (k: Vec<char>) {
        chars_of(self.created_at.as_str())
    }
}

/// The text of the statement that writes a document.
pub open spec fn document_upsert_sql() -> Seq<char> {
    "INSERT OR REPLACE INTO documents (id, file_path, file_name, file_type, size_bytes, indexed_at, content, metadata, processed_at, created_at) VALUES (?1, ?2, ?3, ?4, ?5, ?6, ?7, ?8, ?9, ?10)"@
}

/// The text of the query that lists the documents.
pub open spec fn documents_sql() -> Seq<char> {
    "SELECT id, file_path, content, metadata, processed_at, created_at FROM documents ORDER BY created_at DESC"@
}

/// The text of the query that searches the documents.
pub open spec fn document_search_sql() -> Seq<char> {
    "SELECT id, file_path, content, metadata, processed_at, created_at FROM documents WHERE content LIKE ?1 ESCAPE '\\' OR file_path LIKE ?1 ESCAPE '\\' ORDER BY created_at DESC"@
}

/// The statement that writes a document at the time `now`: insert, or
/// replace the row that has the same id. The metadata goes in its stored
/// form.
pub open spec fn document_upsert_of(d: ProcessedDocumentView, now: Seq<char>) -> CommandView {
    CommandView {
        sql: document_upsert_sql(),
        params: seq![
            Some(d.id),
            Some(d.file_path),
            Some(d.metadata.file_name),
            Some(d.metadata.file_type),
            Some(decimal(d.metadata.file_size as nat)),
            Some(now),
            Some(d.content),
            Some(encoded_metadata(d.metadata)),
            Some(d.processed_at),
            Some(now),
        ],
    }
}

/// The query that lists the documents, the most recently written first.
pub open spec fn documents_query_of() -> CommandView {
    CommandView { sql: documents_sql(), params: Seq::empty() }
}

/// The query that searches the documents: those whose text or path holds
/// the query's text, the most recently written first.
pub open spec fn document_search_query_of(query: Seq<char>) -> CommandView {
    CommandView { sql: document_search_sql(), params: seq![Some(like_pattern_of(query))] }
}

/// The command that writes a document at the time `now`.
pub fn document_upsert(document: &ProcessedDocument, now: &str) -> (c: Command)
    ensures
        c@ == document_upsert_of(document@, now@),
{
    let mut params: Vec<Option<String>> = Vec::new();
    params.push(Some(document.id.clone()));
    params.push(Some(document.file_path.clone()));
    params.push(Some(document.metadata.file_name.clone()));
    params.push(Some(document.metadata.file_type.clone()));
    params.push(Some(decimal_string(document.metadata.file_size)));
    params.push(Some(String::from_str(now)));
    params.push(Some(document.content.clone()));
    params.push(Some(encode_metadata(&document.metadata)));
    params.push(Some(document.processed_at.clone()));
    params.push(Some(String::from_str(now)));
    let c = Command {
        sql: String::from_str(
            "INSERT OR REPLACE INTO documents (id, file_path, file_name, file_type, size_bytes, indexed_at, content, metadata, processed_at, created_at) VALUES (?1, ?2, ?3, ?4, ?5, ?6, ?7, ?8, ?9, ?10)",
        ),
        params,
    };
    assert(c@.params =~= document_upsert_of(document@, now@).params);
    c
}

/// The command that lists the documents.
pub fn documents_query() -> (c: Command)
    ensures
        c@ == documents_query_of(),
{
    let c = Command {
        sql: String::from_str(
            "SELECT id, file_path, content, metadata, processed_at, created_at FROM documents ORDER BY created_at DESC",
        ),
        params: Vec::new(),
    };
    assert(c@.params =~= Seq::empty());
    c
}

/// The command that searches the documents.
pub fn document_search_query(query: &str) -> (c: Command)
    ensures
        c@ == document_search_query_of(query@),
{
    let mut params: Vec<Option<String>> = Vec::new();
    params.push(Some(like_pattern(query)));
    let c = Command {
        sql: String::from_str(
            "SELECT id, file_path, content, metadata, processed_at, created_at FROM documents WHERE content LIKE ?1 ESCAPE '\\' OR file_path LIKE ?1 ESCAPE '\\' ORDER BY created_at DESC",
        ),
        params,
    };
    assert(c@.params =~= seq![Some(like_pattern_of(query@))]);
    c
}

/// The metadata that is written with a document is the metadata that is
/// read back from the row: the stored form that the write hands to the
/// engine decodes to the document's metadata, whatever they hold.
pub proof fn stored_metadata_reads_back(d: ProcessedDocumentView, now: Seq<char>)
    ensures
        document_upsert_of(d, now).params[7] matches Some(stored) && decoded_metadata(stored)
            == Some(d.metadata),
{
    metadata_round_trip(d.metadata);
}

/// The document's text or its path holds the query, upper and lower case
/// ASCII letters taken as equal.
pub open spec fn document_found(d: StoredDocumentView, query: Seq<char>) -> bool {
    occurs_folded(d.content, query) || occurs_folded(d.file_path, query)
}

/// The documents among `documents` whose text or path holds the query, in
/// their order.
pub open spec fn found_documents(documents: Seq<StoredDocumentView>, query: Seq<char>) -> Seq<
    StoredDocumentView,
> {
    documents.filter(|d: StoredDocumentView| document_found(d, query))
}

/// Keeps the documents whose text or path holds the query.
pub fn keep_found(documents: Vec<StoredDocument>, query: &str) -> (r: Vec<StoredDocument>)
    ensures
        views(r@) == found_documents(views(documents@), query@),
{
    let needle = chars_of(query);
    let mut r: Vec<StoredDocument> = Vec::new();
    let ghost all = views(documents@);
    let ghost pred = |d: StoredDocumentView| document_found(d, query@);
    proof {
        reveal(Seq::filter);
        assert(all.take(0) =~= Seq::<StoredDocumentView>::empty());
    }
    for d in it: documents
        invariant
            needle@ == query@,
            all == views(it.seq()),
            pred == (|d: StoredDocumentView| document_found(d, query@)),
            views(r@) == all.take(it.index() as int).filter(pred),
    {
        let ghost i = it.index() as int;
        let hit = contains_folded(&chars_of(d.content.as_str()), &needle) || contains_folded(
            &chars_of(d.file_path.as_str()),
            &needle,
        );
        proof {
            reveal(Seq::filter);
            let upto = all.take(i + 1);
            assert(upto.drop_last() =~= all.take(i));
            assert(upto.last() == d@);
        }
        if hit {
            let ghost before = r@;
            r.push(d);
            assert(views(r@) =~= views(before).push(d@));
        }
    }
    assert(all.take(all.len() as int) =~= all);
    r
}

/// `r` is what a search of the documents makes of `rows`: as a listing,
/// of the documents whose text or path holds the query, the most recently
/// written first.
pub open spec fn search_listed(
    rows: Seq<Result<Vec<Cell>, String>>,
    query: Seq<char>,
    r: Result<Vec<StoredDocument>, StorageError>,
) -> bool {
    match r {
        Ok(documents) => {
            let kept = found_documents(records_of::<StoredDocument>(rows), query);
            &&& forall|i: int| 0 <= i < rows.len() ==> row_decodes::<StoredDocument>(rows[i])
            &&& ordered(keys_of::<StoredDocument>(kept), true)
            &&& views(documents@) == kept
        },
        Err(StorageError::Row { row, detail }) => {
            &&& row < rows.len()
            &&& forall|i: int| 0 <= i < row ==> row_decodes::<StoredDocument>(rows[i])
            &&& rows[row as int] matches Err(words) && words@ == detail@
        },
        Err(StorageError::Decode { row, column, fault }) => {
            &&& row < rows.len()
            &&& forall|i: int| 0 <= i < row ==> row_decodes::<StoredDocument>(rows[i])
            &&& rows[row as int] matches Ok(cells) && row_fault(
                cells@,
                StoredDocument::shape(),
                column,
                fault,
            )
        },
        Err(StorageError::Order { row }) => {
            let kept = found_documents(records_of::<StoredDocument>(rows), query);
            &&& forall|i: int| 0 <= i < rows.len() ==> row_decodes::<StoredDocument>(rows[i])
            &&& disorder_at(keys_of::<StoredDocument>(kept), true, row)
        },
        Err(_) => false,
    }
}

/// What a search of the documents makes of the rows of its query: every
/// row is decoded; the documents whose text or path holds the query are
/// kept; they must have come most recently written first.
pub fn search_listing(rows: &Vec<Result<Vec<Cell>, String>>, query: &str) -> (r: Result<
    Vec<StoredDocument>,
    StorageError,
>)
    ensures
        search_listed(rows@, query@, r),
{
    let decoded = decode_rows::<StoredDocument>(rows)?;
    let kept = keep_found(decoded, query);
    checked_order(kept, true)
}

/// What a failed write of a document is reported as.
pub open spec fn store_failure_of(failure: Failure) -> StorageError {
    match failure {
        Failure::Begin { detail } => StorageError::Begin { detail },
        Failure::Statement { index, detail } => StorageError::Write {
            target: WriteTarget::Document,
            detail,
        },
        Failure::Commit { detail } => StorageError::Commit { detail },
    }
}

/// What the write of a document reports of a run that ended as `run`
/// says.
pub open spec fn store_reported(run: Result<(), Failure>) -> Result<(), StorageError> {
    match run {
        Ok(()) => Ok(()),
        Err(failure) => Err(store_failure_of(failure)),
    }
}

/// `r` is the result of writing a document when its one statement went as
/// `outcomes` says.
pub open spec fn stored(outcomes: Seq<Result<(), String>>, r: Result<(), StorageError>) -> bool {
    let run = verdict_of(carried_on(started(false, 1), outcomes));
    ran(false, 1, outcomes, run) && r == store_reported(run)
}

/// A document is stored exactly when its statement was run and succeeded.
pub proof fn stored_when_the_write_succeeds(
    outcomes: Seq<Result<(), String>>,
    r: Result<(), StorageError>,
)
    requires
        stored(outcomes, r),
    ensures
        r is Ok <==> (outcomes.len() == 1 && outcomes[0] is Ok),
{
    let run = verdict_of(carried_on(started(false, 1), outcomes));
    plain_run_succeeds_when_every_statement_does(1, outcomes, run);
    if outcomes.len() == 1 {
        assert(successes(outcomes)[0] == (outcomes[0] is Ok));
    }
}

/// Turns the failure of a document's write into the failure that is
/// reported.
pub fn store_failure(failure: Failure) -> (e: StorageError)
    ensures
        e == store_failure_of(failure),
{
    match failure {
        Failure::Begin { detail } => StorageError::Begin { detail },
        Failure::Statement { index, detail } => StorageError::Write {
            target: WriteTarget::Document,
            detail,
        },
        Failure::Commit { detail } => StorageError::Commit { detail },
    }
}

/// The document store of one database file. It holds no connection: every
/// operation opens its own and releases it when it ends.
#[derive(Debug, PartialEq, Eq)]
pub struct DatabaseStorage {
    db_path: String,
}

impl DatabaseStorage {
    /// The path of the database file.
    pub closed spec fn path(&self) -> Seq<char> {
        self.db_path@
    }

    /// The store of the database file at `db_path`.
    pub fn new(db_path: String) -> (r: Self)
        ensures
            r.path() == db_path@,
    {
        Self { db_path }
    }

    /// Creates every table and index of the schema that is missing.
    pub fn initialize(&self) -> (r: Result<(), StorageError>)
        ensures
            r matches Err(StorageError::Open { .. }) || exists|outcomes: Seq<Result<(), String>>|
                schema_ensured(outcomes, r),
            r matches Err(e) ==> e is Open || e is Schema,
    {
        match open_database(self.db_path.as_str()) {
            Ok(conn) => ensure_schema(&conn),
            Err(e) => Err(StorageError::Open { detail: describe(&e) }),
        }
    }

    /// Writes a document: insert, or replace the row that has the same
    /// id, whole. The time of the write becomes the row's `created_at`,
    /// on a replacement too.
    pub fn store_document(&self, document: &ProcessedDocument) -> (r: Result<(), StorageError>)
        ensures
            r matches Err(StorageError::Open { .. }) || exists|outcomes: Seq<Result<(), String>>|
                stored(outcomes, r),
            r matches Err(e) ==> (e is Open || (e matches StorageError::Write { target, .. }
                && target == WriteTarget::Document)),
    {
        let now = current_timestamp();
        let mut commands: Vec<Command> = Vec::new();
        commands.push(document_upsert(document, now.as_str()));
        let conn = match open_database(self.db_path.as_str()) {
            Ok(conn) => conn,
            Err(e) => {
                return Err(StorageError::Open { detail: describe(&e) });
            },
        };
        let result = run_script(&conn, false, &commands);
        let ghost run = result;
        let ghost outcomes = choose|outcomes: Seq<Result<(), String>>|
            ran(false, commands.len(), outcomes, run);
        let r = match result {
            Ok(()) => Ok(()),
            Err(failure) => Err(store_failure(failure)),
        };
        assert(stored(outcomes, r));
        r
    }

    /// The documents, ordered by `created_at` with the most recently
    /// written first. A row that cannot be decoded fails the listing.
    pub fn get_documents(&self) -> (r: Result<Vec<StoredDocument>, StorageError>)
        ensures
            r matches Ok(documents) ==> ordered(keys_of::<StoredDocument>(views(documents@)), true),
            failed_before_rows(r) || exists|rows: Seq<Result<Vec<Cell>, String>>|
                listed::<StoredDocument>(rows, true, None, r),
    {
        let rows = query_rows(self.db_path.as_str(), &documents_query(), 6)?;
        let documents = listing::<StoredDocument>(&rows, true, None)?;
        proof {
            assert(listed::<StoredDocument>(rows@, true, None, Ok(documents)));
            assert(views(documents@) =~= records_of::<StoredDocument>(rows@));
        }
        Ok(documents)
    }

    /// The documents whose text or path holds `query`, upper and lower
    /// case ASCII letters taken as equal and every character of the query
    /// read as itself, ordered by `created_at` with the most recently
    /// written first. No match gives an empty list.
    pub fn search_documents(&self, query: &str) -> (r: Result<Vec<StoredDocument>, StorageError>)
        ensures
            r matches Ok(documents) ==> {
                &&& ordered(keys_of::<StoredDocument>(views(documents@)), true)
                &&& forall|i: int|
                    0 <= i < documents@.len() ==> document_found((#[trigger] documents@[i])@, query@)
            },
            failed_before_rows(r) || exists|rows: Seq<Result<Vec<Cell>, String>>|
                search_listed(rows, query@, r),
    {
        let rows = query_rows(self.db_path.as_str(), &document_search_query(query), 6)?;
        let documents = search_listing(&rows, query)?;
        proof {
            assert(search_listed(rows@, query@, Ok(documents)));
            let pred = |d: StoredDocumentView| document_found(d, query@);
            assert forall|i: int| 0 <= i < documents@.len() implies document_found(
                (#[trigger] documents@[i])@,
                query@,
            ) by {
                records_of::<StoredDocument>(rows@).lemma_filter_pred(pred, i);
                assert(views(documents@)[i] == documents@[i]@);
            }
        }
        Ok(documents)
    }
}

} // verus!
