//! The failures of the storage layer, typed, each with the operation it
//! comes from and the engine's own words.

use vstd::prelude::*;
use vstd::string::*;
use crate::text::{decimal, decimal_string};

verus! {

/// What a write was aimed at.
#[derive(Debug, Clone, Copy, PartialEq, Eq)]
pub enum WriteTarget {
    /// The header row of a conversation.
    Conversation,
    /// The message at this position of the list that was handed in.
    Message(usize),
    /// A document row.
    Document,
}

/// Why a stored row could not be turned into a record.
#[derive(Debug, Clone, Copy, PartialEq, Eq)]
pub enum DecodeFault {
    /// The row does not have the number of columns that was asked for.
    Width,
    /// A text was expected in this column.
    NotText,
    /// An integer, or nothing, was expected in this column.
    NotInteger,
    /// The integer is negative or does not fit the machine's word.
    OutOfRange,
    /// The metadata blob is not a metadata object.
    Metadata,
    /// The text is not an RFC 3339 date and time.
    Timestamp,
}

/// A failure of the storage layer.
#[derive(Debug, PartialEq, Eq)]
pub enum StorageError {
    /// The database file could not be opened.
    Open { detail: String },
    /// A table or an index could not be created; `label` names it.
    Schema { label: String, detail: String },
    /// The transaction could not be started.
    Begin { detail: String },
    /// A row could not be written. An open transaction was rolled back.
    Write { target: WriteTarget, detail: String },
    /// The transaction could not be committed.
    Commit { detail: String },
    /// The engine refused the query text.
    Prepare { detail: String },
    /// The engine refused the query's parameters.
    Query { detail: String },
    /// The engine failed while it handed over the row at `row`.
    Row { row: usize, detail: String },
    /// The row at `row` could not be decoded, because of `column`.
    Decode { row: usize, column: usize, fault: DecodeFault },
    /// The rows at `row` and `row + 1` came out of the engine in the wrong
    /// order.
    Order { row: usize },
}

/// What each kind of decoding fault is called in a message.
pub open spec fn fault_text(fault: DecodeFault) -> Seq<char> {
    match fault {
        DecodeFault::Width => "unexpected number of columns"@,
        DecodeFault::NotText => "text expected"@,
        DecodeFault::NotInteger => "integer expected"@,
        DecodeFault::OutOfRange => "integer out of range"@,
        DecodeFault::Metadata => "malformed metadata"@,
        DecodeFault::Timestamp => "malformed timestamp"@,
    }
}

/// The words in front of a write failure's detail.
pub open spec fn write_prefix(target: WriteTarget) -> Seq<char> {
    match target {
        WriteTarget::Conversation => "Fehler beim Speichern der Conversation: "@,
        WriteTarget::Message(_) => "Fehler beim Speichern der Message: "@,
        WriteTarget::Document => "Fehler beim Speichern des Dokuments: "@,
    }
}

/// The message of a failure: the operation's words, then the detail.
pub open spec fn message_of(e: StorageError) -> Seq<char> {
    match e {
        StorageError::Open { detail } => "Datenbankfehler: "@ + detail@,
        StorageError::Schema { label, detail } => "Fehler beim Erstellen "@ + label@ + ": "@
            + detail@,
        StorageError::Begin { detail } => "Transaktionsfehler: "@ + detail@,
        StorageError::Write { target, detail } => write_prefix(target) + detail@,
        StorageError::Commit { detail } => "Commit-Fehler: "@ + detail@,
        StorageError::Prepare { detail } => "SQL-Vorbereitung fehlgeschlagen: "@ + detail@,
        StorageError::Query { detail } => "Query-Ausf\u{fc}hrung fehlgeschlagen: "@ + detail@,
        StorageError::Row { row, detail } => "Row-Parsing fehlgeschlagen: "@ + detail@,
        StorageError::Decode { row, column, fault } => "Row-Parsing fehlgeschlagen: "@
            + fault_text(fault) + " (row "@ + decimal(row as nat) + ", column "@ + decimal(
            column as nat,
        ) + ")"@,
        StorageError::Order { row } => "Row-Parsing fehlgeschlagen: rows out of order after row "@
            + decimal(row as nat),
    }
}

fn fault_words(fault: DecodeFault) -> (r: &'static str)
    ensures
        r@ == fault_text(fault),
{
    match fault {
        DecodeFault::Width => "unexpected number of columns",
        DecodeFault::NotText => "text expected",
        DecodeFault::NotInteger => "integer expected",
        DecodeFault::OutOfRange => "integer out of range",
        DecodeFault::Metadata => "malformed metadata",
        DecodeFault::Timestamp => "malformed timestamp",
    }
}

fn joined(prefix: &str, detail: &str) -> (r: String)
    ensures
        r@ == prefix@ + detail@,
{
    let mut r = String::from_str(prefix);
    r.append(detail);
    r
}

impl StorageError {
    /// The message to show for this failure.
    pub fn message(&self) -> (r: String)
        ensures
            r@ == message_of(*self),
    {
        match self {
            StorageError::Open { detail } => joined("Datenbankfehler: ", detail.as_str()),
            StorageError::Schema { label, detail } => {
                let mut r = joined("Fehler beim Erstellen ", label.as_str());
                r.append(": ");
                r.append(detail.as_str());
                r
            },
            StorageError::Begin { detail } => joined("Transaktionsfehler: ", detail.as_str()),
            StorageError::Write { target, detail } => {
                match target {
                    WriteTarget::Conversation => joined(
                        "Fehler beim Speichern der Conversation: ",
                        detail.as_str(),
                    ),
                    WriteTarget::Message(_) => joined(
                        "Fehler beim Speichern der Message: ",
                        detail.as_str(),
                    ),
                    WriteTarget::Document => joined(
                        "Fehler beim Speichern des Dokuments: ",
                        detail.as_str(),
                    ),
                }
            },
            StorageError::Commit { detail } => joined("Commit-Fehler: ", detail.as_str()),
            StorageError::Prepare { detail } => joined(
                "SQL-Vorbereitung fehlgeschlagen: ",
                detail.as_str(),
            ),
            StorageError::Query { detail } => joined(
                "Query-Ausf\u{fc}hrung fehlgeschlagen: ",
                detail.as_str(),
            ),
            StorageError::Row { row, detail } => joined(
                "Row-Parsing fehlgeschlagen: ",
                detail.as_str(),
            ),
            StorageError::Decode { row, column, fault } => {
                let mut r = joined("Row-Parsing fehlgeschlagen: ", fault_words(*fault));
                r.append(" (row ");
                r.append(decimal_string(*row as u64).as_str());
                r.append(", column ");
                r.append(decimal_string(*column as u64).as_str());
                r.append(")");
                r
            },
            StorageError::Order { row } => joined(
                "Row-Parsing fehlgeschlagen: rows out of order after row ",
                decimal_string(*row as u64).as_str(),
            ),
        }
    }
}

} // verus!
