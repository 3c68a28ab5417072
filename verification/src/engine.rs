//! The SQLite engine, reached through `rusqlite`.
//!
//! Everything here is taken on trust: a handful of small calls into the
//! engine, and the types they pass around. What the engine answers depends
//! on the database file, so no contract below says what comes back.

use vstd::prelude::*;

verus! {

/// `rusqlite::Connection`, a handle to an open database, carried through
/// as it is.
#[verifier::external_type_specification]
#[verifier::external_body]
pub struct ExConnection(rusqlite::Connection);

/// `rusqlite::Error`, the engine's failure, carried through as it is.
#[verifier::external_type_specification]
#[verifier::external_body]
pub struct ExEngineError(rusqlite::Error);

/// `rusqlite::Transaction`, a transaction in progress on a connection.
#[verifier::external_type_specification]
#[verifier::external_body]
pub struct ExTransaction<'a>(rusqlite::Transaction<'a>);

/// `rusqlite::Statement`, a compiled statement of a connection.
#[verifier::external_type_specification]
#[verifier::external_body]
pub struct ExStatement<'a>(rusqlite::Statement<'a>);

/// `rusqlite::Row`, the current row of a running query.
#[verifier::external_type_specification]
#[verifier::external_body]
pub struct ExRow<'a>(rusqlite::Row<'a>);

/// One column of one row, as the engine holds it. A real number is kept as
/// the bits of its IEEE 754 double.
#[derive(Debug, PartialEq, Eq)]
pub enum Cell {
    Null,
    Integer(i64),
    Real(u64),
    Text(String),
    Blob(Vec<u8>),
}

/// The view of a cell: its text and its bytes as sequences.
pub enum CellView {
    Null,
    Integer(i64),
    Real(u64),
    Text(Seq<char>),
    Blob(Seq<u8>),
}

impl View for Cell {
    type V = CellView;

    open spec fn view(&self) -> CellView {
        match self {
            Cell::Null => CellView::Null,
            Cell::Integer(n) => CellView::Integer(*n),
            Cell::Real(bits) => CellView::Real(*bits),
            Cell::Text(s) => CellView::Text(s@),
            Cell::Blob(b) => CellView::Blob(b@),
        }
    }
}

/// What a row holds: the value of each of its columns, in the columns'
/// order, and `None` for a column whose text is not UTF-8. A row stays as
/// it is for as long as it can be read.
pub uninterp spec fn row_cells(row: &rusqlite::Row<'_>) -> Seq<Option<CellView>>;

/// What reading column `index` of a row gives: the column's value, or
/// `None` where the row has no such column or the column cannot be read.
pub open spec fn column_in(row: &rusqlite::Row<'_>, index: int) -> Option<CellView> {
    if 0 <= index < row_cells(row).len() {
        row_cells(row)[index]
    } else {
        None
    }
}

/// The row can be read up to column `index`, and not at it.
pub open spec fn unreadable_at(row: &rusqlite::Row<'_>, index: int) -> bool {
    &&& column_in(row, index) is None
    &&& forall|k: int| 0 <= k < index ==> column_in(row, k) is Some
}

/// `rusqlite::Connection::open`: opens the database file at `path`, and
/// creates it when it is missing.
#[verifier::external_body]
pub(crate) fn open_database(path: &str) -> (r: Result<rusqlite::Connection, rusqlite::Error>) {
    rusqlite::Connection::open(path)
}

/// `rusqlite::Connection::unchecked_transaction`: starts a deferred
/// transaction, which rolls back when it is dropped uncommitted.
#[verifier::external_body]
pub(crate) fn begin<'a>(conn: &'a rusqlite::Connection) -> (r: Result<
    rusqlite::Transaction<'a>,
    rusqlite::Error,
>) {
    conn.unchecked_transaction()
}

/// `Deref::deref` of `rusqlite::Transaction`: the connection that the
/// transaction runs on.
#[verifier::external_body]
pub(crate) fn connection_of<'a>(tx: &'a rusqlite::Transaction<'_>) -> (r: &'a rusqlite::Connection) {
    std::ops::Deref::deref(tx)
}

/// `rusqlite::Transaction::commit`: commits and ends the transaction.
#[verifier::external_body]
pub(crate) fn commit(tx: rusqlite::Transaction<'_>) -> (r: Result<(), rusqlite::Error>) {
    tx.commit()
}

/// `rusqlite::Transaction::rollback`: rolls back and ends the transaction.
#[verifier::external_body]
pub(crate) fn rollback(tx: rusqlite::Transaction<'_>) -> (r: Result<(), rusqlite::Error>) {
    tx.rollback()
}

/// `rusqlite::Connection::execute`: prepares and runs one statement with
/// its positional parameters, a text or `NULL` each, and returns the number
/// of rows changed.
#[verifier::external_body]
pub(crate) fn execute(conn: &rusqlite::Connection, sql: &str, params: &Vec<Option<String>>) -> (r:
    Result<usize, rusqlite::Error>) {
    conn.execute(sql, rusqlite::params_from_iter(params.iter()))
}

/// `rusqlite::Connection::prepare`: compiles one statement.
#[verifier::external_body]
pub(crate) fn prepare<'a>(conn: &'a rusqlite::Connection, sql: &str) -> (r: Result<
    rusqlite::Statement<'a>,
    rusqlite::Error,
>) {
    conn.prepare(sql)
}

/// `rusqlite::Row::get_ref`, and `rusqlite::Row::get` for a text: the value
/// in column `index` of the row, variant for variant. A text that is not
/// UTF-8 and a column that the row does not have are errors, and nothing
/// else is: the call succeeds exactly where the row holds a value there,
/// and hands back that value.
#[verifier::external_body]
pub(crate) fn cell_at(row: &rusqlite::Row<'_>, index: usize) -> (r: Result<Cell, rusqlite::Error>)
    ensures
        match r {
            Ok(cell) => index < row_cells(row).len() && row_cells(row)[index as int] == Some(
                cell@,
            ),
            Err(_) => index >= row_cells(row).len() || row_cells(row)[index as int] is None,
        },
{
    Ok(
        match row.get_ref(index)? {
            rusqlite::types::ValueRef::Null => Cell::Null,
            rusqlite::types::ValueRef::Integer(n) => Cell::Integer(n),
            rusqlite::types::ValueRef::Real(x) => Cell::Real(x.to_bits()),
            rusqlite::types::ValueRef::Text(_) => Cell::Text(row.get(index)?),
            rusqlite::types::ValueRef::Blob(b) => Cell::Blob(b.to_vec()),
        },
    )
}

/// The first `width` columns of a row, in order. The reading succeeds
/// exactly when the row holds a value in each of them; the first column
/// that cannot be read ends it with the engine's error. A width of zero
/// reads nothing and succeeds.
pub(crate) fn read_row(row: &rusqlite::Row<'_>, width: usize) -> (r: Result<
    Vec<Cell>,
    rusqlite::Error,
>)
    ensures
        match r {
            Ok(cells) => {
                &&& cells@.len() == width
                &&& forall|i: int|
                    0 <= i < width ==> column_in(row, i) == Some((#[trigger] cells@[i])@)
            },
            Err(_) => exists|i: int| 0 <= i < width && unreadable_at(row, i),
        },
{
    let mut cells: Vec<Cell> = Vec::new();
    let mut i: usize = 0;
    while i < width
        invariant
            i <= width,
            cells@.len() == i,
            forall|k: int| 0 <= k < i ==> column_in(row, k) == Some((#[trigger] cells@[k])@),
        decreases width - i,
    {
        match cell_at(row, i) {
            Ok(cell) => cells.push(cell),
            Err(e) => {
                assert forall|k: int| 0 <= k < i implies column_in(row, k) is Some by {
                    assert(column_in(row, k) == Some(cells@[k]@));
                }
                assert(unreadable_at(row, i as int));
                return Err(e);
            },
        }
        i += 1;
    }
    Ok(cells)
}

/// `rusqlite::Statement::query_map`: binds the parameters, a text or `NULL`
/// each, runs the query and hands back every row, read by `read_row`, or
/// the error that the engine met at that row. The outer error is a failure
/// to bind.
#[verifier::external_body]
pub(crate) fn fetch_rows(
    stmt: &mut rusqlite::Statement<'_>,
    params: &Vec<Option<String>>,
    width: usize,
) -> (r: Result<Vec<Result<Vec<Cell>, rusqlite::Error>>, rusqlite::Error>) {
    let rows = stmt.query_map(rusqlite::params_from_iter(params.iter()), |row| read_row(row, width))?;
    Ok(rows.collect())
}

/// `Display` of `rusqlite::Error`: the engine's words for a failure.
#[verifier::external_body]
pub(crate) fn describe(e: &rusqlite::Error) -> (r: String) {
    e.to_string()
}

} // verus!
