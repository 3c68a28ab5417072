//! From the rows that the engine hands over to records: which rows fit a
//! record's shape, what a fitting row holds, and whether the records came
//! in the order that was asked for.

use vstd::prelude::*;
use crate::engine::Cell;
use crate::error::{DecodeFault, StorageError};
use crate::metadata::{decode_metadata, decoded_metadata};
use crate::stamp::{is_rfc3339, rfc3339_valid};
use crate::text::{at_most, at_most_transitive, comes_before};

verus! {

/// What a column of a record must hold.
#[derive(Debug, Clone, Copy, PartialEq, Eq, Structural)]
pub enum ColumnKind {
    /// A text.
    Text,
    /// An integer that is a count: not negative, within the machine's word.
    Count,
    /// A count, or nothing.
    OptionalCount,
    /// A text that is the stored form of a metadata record.
    Metadata,
    /// A text that is an RFC 3339 date and time.
    Timestamp,
}

/// The integer is a count.
pub open spec fn is_count(n: i64) -> bool {
    0 <= n <= usize::MAX
}

/// What is wrong with `cell` in a column of this kind, if anything.
pub open spec fn fault_of(cell: Cell, kind: ColumnKind) -> Option<DecodeFault> {
    match kind {
        ColumnKind::Text => match cell {
            Cell::Text(_) => None,
            _ => Some(DecodeFault::NotText),
        },
        ColumnKind::Count => match cell {
            Cell::Integer(n) => if is_count(n) {
                None
            } else {
                Some(DecodeFault::OutOfRange)
            },
            _ => Some(DecodeFault::NotInteger),
        },
        ColumnKind::OptionalCount => match cell {
            Cell::Null => None,
            Cell::Integer(n) => if is_count(n) {
                None
            } else {
                Some(DecodeFault::OutOfRange)
            },
            _ => Some(DecodeFault::NotInteger),
        },
        ColumnKind::Metadata => match cell {
            Cell::Text(s) => if decoded_metadata(s@) is Some {
                None
            } else {
                Some(DecodeFault::Metadata)
            },
            _ => Some(DecodeFault::NotText),
        },
        ColumnKind::Timestamp => match cell {
            Cell::Text(s) => if rfc3339_valid(s@) {
                None
            } else {
                Some(DecodeFault::Timestamp)
            },
            _ => Some(DecodeFault::NotText),
        },
    }
}

/// The row has the shape's width and every cell fits its column.
pub open spec fn row_fits(cells: Seq<Cell>, shape: Seq<ColumnKind>) -> bool {
    &&& cells.len() == shape.len()
    &&& forall|c: int| 0 <= c < cells.len() ==> fault_of(cells[c], shape[c]) is None
}

/// The row's first fault is `fault`, at `column`: a wrong width counts as
/// a fault of column 0, and comes before any other.
pub open spec fn row_fault(
    cells: Seq<Cell>,
    shape: Seq<ColumnKind>,
    column: usize,
    fault: DecodeFault,
) -> bool {
    if cells.len() != shape.len() {
        column == 0 && fault == DecodeFault::Width
    } else {
        &&& column < cells.len()
        &&& fault_of(cells[column as int], shape[column as int]) == Some(fault)
        &&& forall|c: int| 0 <= c < column ==> fault_of(cells[c], shape[c]) is None
    }
}

fn cell_fault(cell: &Cell, kind: ColumnKind) -> (r: Option<DecodeFault>)
    ensures
        r == fault_of(*cell, kind),
{
    match kind {
        ColumnKind::Text => match cell {
            Cell::Text(_) => None,
            _ => Some(DecodeFault::NotText),
        },
        ColumnKind::Count => match cell {
            Cell::Integer(n) => if 0 <= *n && *n as u64 <= usize::MAX as u64 {
                None
            } else {
                Some(DecodeFault::OutOfRange)
            },
            _ => Some(DecodeFault::NotInteger),
        },
        ColumnKind::OptionalCount => match cell {
            Cell::Null => None,
            Cell::Integer(n) => if 0 <= *n && *n as u64 <= usize::MAX as u64 {
                None
            } else {
                Some(DecodeFault::OutOfRange)
            },
            _ => Some(DecodeFault::NotInteger),
        },
        ColumnKind::Metadata => match cell {
            Cell::Text(s) => if decode_metadata(s.as_str()).is_some() {
                None
            } else {
                Some(DecodeFault::Metadata)
            },
            _ => Some(DecodeFault::NotText),
        },
        ColumnKind::Timestamp => match cell {
            Cell::Text(s) => if is_rfc3339(s.as_str()) {
                None
            } else {
                Some(DecodeFault::Timestamp)
            },
            _ => Some(DecodeFault::NotText),
        },
    }
}

/// The first fault of a row against a shape, or `None` when the row fits.
pub fn first_fault(cells: &Vec<Cell>, shape: &Vec<ColumnKind>) -> (r: Option<(usize, DecodeFault)>)
    ensures
        match r {
            None => row_fits(cells@, shape@),
            Some((column, fault)) => row_fault(cells@, shape@, column, fault),
        },
{
    if cells.len() != shape.len() {
        return Some((0, DecodeFault::Width));
    }
    let mut c: usize = 0;
    while c < cells.len()
        invariant
            c <= cells.len(),
            cells@.len() == shape@.len(),
            forall|k: int| 0 <= k < c ==> fault_of(cells@[k], shape@[k]) is None,
        decreases cells.len() - c,
    {
        match cell_fault(&cells[c], shape[c]) {
            Some(fault) => {
                return Some((c, fault));
            },
            None => {},
        }
        c += 1;
    }
    None
}

/// The text that a cell holds; the empty text for a cell that holds none.
pub open spec fn text_in(cell: Cell) -> Seq<char> {
    match cell {
        Cell::Text(s) => s@,
        _ => Seq::empty(),
    }
}

/// The count that a cell holds, if it holds one.
pub open spec fn count_in(cell: Cell) -> Option<usize> {
    match cell {
        Cell::Integer(n) => if is_count(n) {
            Some(n as usize)
        } else {
            None
        },
        _ => None,
    }
}

/// The text that a cell holds; the empty text for a cell that holds none.
pub fn text_of(cell: &Cell) -> (r: String)
    ensures
        r@ == text_in(*cell),
{
    match cell {
        Cell::Text(s) => s.clone(),
        _ => String::new(),
    }
}

/// The count that a cell holds, if it holds one.
pub fn count_of(cell: &Cell) -> (r: Option<usize>)
    ensures
        r == count_in(*cell),
{
    match cell {
        Cell::Integer(n) => if 0 <= *n && *n as u64 <= usize::MAX as u64 {
            Some(*n as usize)
        } else {
            None
        },
        _ => None,
    }
}

/// A record that is read from rows of the store.
pub trait Stored: View + Sized {
    /// What each column of the record's rows must hold.
    spec fn shape() -> Seq<ColumnKind>;

    /// The record that a fitting row stands for.
    spec fn record_of(cells: Seq<Cell>) -> Self::V;

    /// The text by which the records are ordered.
    spec fn key_of(v: Self::V) -> Seq<char>;

    fn columns() -> (shape: Vec<ColumnKind>)
        ensures
            shape@ == Self::shape(),
    ;

    fn build(cells: &Vec<Cell>) -> (r: Self)
        requires
            row_fits(cells@, Self::shape()),
        ensures
            r@ == Self::record_of(cells@),
    ;

    fn key(&self) -> (k: Vec<char>)
        ensures
            k@ == Self::key_of(self@),
    ;
}

/// A row as the engine handed it over: its cells, or the engine's words
/// for why it has none.
pub open spec fn row_decodes<T: Stored>(row: Result<Vec<Cell>, String>) -> bool {
    row matches Ok(cells) && row_fits(cells@, T::shape())
}

/// The records that the rows stand for, in the rows' order.
pub open spec fn records_of<T: Stored>(rows: Seq<Result<Vec<Cell>, String>>) -> Seq<T::V> {
    Seq::new(rows.len(), |i: int| T::record_of(rows[i]->Ok_0@))
}

/// Turns every row into a record, in order. The first row that the engine
/// failed on, or that does not fit the record's shape, ends the reading:
/// no row is skipped.
pub fn decode_rows<T: Stored>(rows: &Vec<Result<Vec<Cell>, String>>) -> (r: Result<
    Vec<T>,
    StorageError,
>)
    ensures
        match r {
            Ok(records) => {
                &&& forall|i: int| 0 <= i < rows@.len() ==> row_decodes::<T>(rows@[i])
                &&& crate::records::views(records@) == records_of::<T>(rows@)
            },
            Err(StorageError::Row { row, detail }) => {
                &&& row < rows@.len()
                &&& forall|i: int| 0 <= i < row ==> row_decodes::<T>(rows@[i])
                &&& rows@[row as int] matches Err(words) && words@ == detail@
            },
            Err(StorageError::Decode { row, column, fault }) => {
                &&& row < rows@.len()
                &&& forall|i: int| 0 <= i < row ==> row_decodes::<T>(rows@[i])
                &&& rows@[row as int] matches Ok(cells) && row_fault(
                    cells@,
                    T::shape(),
                    column,
                    fault,
                )
            },
            Err(_) => false,
        },
{
    let shape = T::columns();
    let mut records: Vec<T> = Vec::new();
    let mut i: usize = 0;
    while i < rows.len()
        invariant
            i <= rows.len(),
            shape@ == T::shape(),
            records@.len() == i,
            forall|k: int| 0 <= k < i ==> row_decodes::<T>(rows@[k]),
            forall|k: int| 0 <= k < i ==> (#[trigger] records@[k])@ == T::record_of(rows@[k]->Ok_0@),
        decreases rows.len() - i,
    {
        match &rows[i] {
            Ok(cells) => {
                match first_fault(cells, &shape) {
                    Some((column, fault)) => {
                        return Err(StorageError::Decode { row: i, column, fault });
                    },
                    None => {
                        records.push(T::build(cells));
                    },
                }
            },
            Err(words) => {
                return Err(StorageError::Row { row: i, detail: words.clone() });
            },
        }
        i += 1;
    }
    assert(crate::records::views(records@) =~= records_of::<T>(rows@));
    Ok(records)
}

/// `a` may stand before `b` in a listing of this direction.
pub open spec fn in_order(a: Seq<char>, b: Seq<char>, descending: bool) -> bool {
    if descending {
        at_most(b, a)
    } else {
        at_most(a, b)
    }
}

/// The keys of the records, in the records' order.
pub open spec fn keys_of<T: Stored>(records: Seq<T::V>) -> Seq<Seq<char>> {
    Seq::new(records.len(), |i: int| T::key_of(records[i]))
}

/// The keys are out of order at `row` for the first time: the key at
/// `row` may not stand before the next, and every earlier key may.
pub open spec fn disorder_at(keys: Seq<Seq<char>>, descending: bool, row: usize) -> bool {
    &&& row + 1 < keys.len()
    &&& !in_order(keys[row as int], keys[row + 1], descending)
    &&& forall|k: int| 0 <= k < row ==> in_order(#[trigger] keys[k], keys[k + 1], descending)
}

/// Every key may stand before every key that follows it.
pub open spec fn ordered(keys: Seq<Seq<char>>, descending: bool) -> bool {
    forall|i: int, j: int| 0 <= i < j < keys.len() ==> in_order(keys[i], keys[j], descending)
}

/// Keys of which each may stand before the next are ordered as a whole.
pub proof fn ordered_from_neighbours(keys: Seq<Seq<char>>, descending: bool)
    requires
        forall|i: int|
            0 <= i && i + 1 < keys.len() ==> in_order(#[trigger] keys[i], keys[i + 1], descending),
    ensures
        ordered(keys, descending),
{
    assert forall|i: int, j: int| 0 <= i < j < keys.len() implies in_order(
        keys[i],
        keys[j],
        descending,
    ) by {
        neighbours_reach(keys, descending, i, j);
    }
}

proof fn neighbours_reach(keys: Seq<Seq<char>>, descending: bool, i: int, j: int)
    requires
        forall|k: int|
            0 <= k && k + 1 < keys.len() ==> in_order(#[trigger] keys[k], keys[k + 1], descending),
        0 <= i < j < keys.len(),
    ensures
        in_order(keys[i], keys[j], descending),
    decreases j - i,
{
    if j > i + 1 {
        neighbours_reach(keys, descending, i, j - 1);
        assert(in_order(keys[j - 1], keys[j], descending));
        if descending {
            at_most_transitive(keys[j], keys[j - 1], keys[i]);
        } else {
            at_most_transitive(keys[i], keys[j - 1], keys[j]);
        }
    }
}

/// The position of the first record whose successor may not stand behind
/// it, or `None` when the records are ordered.
pub fn first_disorder<T: Stored>(records: &Vec<T>, descending: bool) -> (r: Option<usize>)
    ensures
        match r {
            None => ordered(keys_of::<T>(crate::records::views(records@)), descending),
            Some(row) => disorder_at(
                keys_of::<T>(crate::records::views(records@)),
                descending,
                row,
            ),
        },
{
    let ghost keys = keys_of::<T>(crate::records::views(records@));
    if records.len() < 2 {
        proof {
            ordered_from_neighbours(keys, descending);
        }
        return None;
    }
    let mut i: usize = 0;
    let mut previous = records[0].key();
    while i + 1 < records.len()
        invariant
            i + 1 <= records.len(),
            keys == keys_of::<T>(crate::records::views(records@)),
            previous@ == keys[i as int],
            forall|k: int| 0 <= k < i ==> in_order(#[trigger] keys[k], keys[k + 1], descending),
        decreases records.len() - i,
    {
        let next = records[i + 1].key();
        let wrong = if descending {
            comes_before(&previous, &next)
        } else {
            comes_before(&next, &previous)
        };
        if wrong {
            return Some(i);
        }
        previous = next;
        i += 1;
    }
    proof {
        ordered_from_neighbours(keys, descending);
    }
    None
}

/// The records as they are, when they are ordered; the place of the first
/// disorder otherwise.
pub fn checked_order<T: Stored>(records: Vec<T>, descending: bool) -> (r: Result<
    Vec<T>,
    StorageError,
>)
    ensures
        match r {
            Ok(same) => same == records && ordered(
                keys_of::<T>(crate::records::views(records@)),
                descending,
            ),
            Err(StorageError::Order { row }) => disorder_at(
                keys_of::<T>(crate::records::views(records@)),
                descending,
                row,
            ),
            Err(_) => false,
        },
{
    match first_disorder(&records, descending) {
        None => Ok(records),
        Some(row) => Err(StorageError::Order { row }),
    }
}

/// The number of records that a limit lets through, of `len`.
pub open spec fn bounded_len(len: nat, limit: Option<usize>) -> nat {
    match limit {
        Some(n) => if n < len {
            n as nat
        } else {
            len
        },
        None => len,
    }
}

/// The first records, as many as the limit lets through: all of them
/// without a limit.
pub fn bounded<T>(records: Vec<T>, limit: Option<usize>) -> (r: Vec<T>)
    ensures
        r@ == records@.take(bounded_len(records@.len(), limit) as int),
{
    let mut r = records;
    match limit {
        Some(n) => {
            r.truncate(n);
        },
        None => {},
    }
    assert(r@ =~= records@.take(bounded_len(records@.len(), limit) as int));
    r
}

/// `r` is what a listing makes of `rows`. It is the records of the rows,
/// as many as the limit lets through, when every row decodes and the
/// records are in the order that was asked for; the failure of the first
/// row that the engine failed on or that does not decode otherwise, and
/// the place of the first disorder after that.
pub open spec fn listed<T: Stored>(
    rows: Seq<Result<Vec<Cell>, String>>,
    descending: bool,
    limit: Option<usize>,
    r: Result<Vec<T>, StorageError>,
) -> bool {
    match r {
        Ok(records) => {
            &&& forall|i: int| 0 <= i < rows.len() ==> row_decodes::<T>(rows[i])
            &&& ordered(keys_of::<T>(records_of::<T>(rows)), descending)
            &&& crate::records::views(records@) == records_of::<T>(rows).take(
                bounded_len(rows.len(), limit) as int,
            )
        },
        Err(StorageError::Row { row, detail }) => {
            &&& row < rows.len()
            &&& forall|i: int| 0 <= i < row ==> row_decodes::<T>(rows[i])
            &&& rows[row as int] matches Err(words) && words@ == detail@
        },
        Err(StorageError::Decode { row, column, fault }) => {
            &&& row < rows.len()
            &&& forall|i: int| 0 <= i < row ==> row_decodes::<T>(rows[i])
            &&& rows[row as int] matches Ok(cells) && row_fault(cells@, T::shape(), column, fault)
        },
        Err(StorageError::Order { row }) => {
            &&& forall|i: int| 0 <= i < rows.len() ==> row_decodes::<T>(rows[i])
            &&& disorder_at(keys_of::<T>(records_of::<T>(rows)), descending, row)
        },
        Err(_) => false,
    }
}

/// What a listing makes of the rows of a query. Every row is decoded, in
/// order; the records must have come in the order that was asked for; the
/// limit then lets the first of them through.
pub fn listing<T: Stored>(
    rows: &Vec<Result<Vec<Cell>, String>>,
    descending: bool,
    limit: Option<usize>,
) -> (r: Result<Vec<T>, StorageError>)
    ensures
        listed::<T>(rows@, descending, limit, r),
{
    let decoded = decode_rows::<T>(rows)?;
    let checked = checked_order(decoded, descending)?;
    let r = bounded(checked, limit);
    assert(crate::records::views(r@) =~= records_of::<T>(rows@).take(
        bounded_len(rows@.len(), limit) as int,
    ));
    Ok(r)
}

/// A listing is ordered and within its limit, whatever the rows were.
pub proof fn listing_is_ordered_and_bounded<T: Stored>(
    rows: Seq<Result<Vec<Cell>, String>>,
    descending: bool,
    limit: Option<usize>,
)
    requires
        ordered(keys_of::<T>(records_of::<T>(rows)), descending),
    ensures
        ({
            let listed = records_of::<T>(rows).take(bounded_len(rows.len(), limit) as int);
            &&& ordered(keys_of::<T>(listed), descending)
            &&& limit matches Some(n) ==> listed.len() <= n
        }),
{
    let all = keys_of::<T>(records_of::<T>(rows));
    let n = bounded_len(rows.len(), limit) as int;
    let listed = records_of::<T>(rows).take(n);
    assert(keys_of::<T>(listed) =~= all.take(n));
}

} // verus!
