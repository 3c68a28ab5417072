//! Persistence and search core of a local document and chat assistant.
//!
//! The store keeps conversations, their messages and processed documents
//! in one SQLite file. Every operation opens its own connection, so the
//! library holds no state between calls.
//!
//! - `schema`, `conversations` and `storage` are the store: the schema
//!   that is ensured on every start, the conversation store with its
//!   all-or-nothing save, and the document store.
//! - `command`, `session`, `script` and `rows` are what the store is made
//!   of: the statements as plain values, the order in which a run takes
//!   its steps, the run itself, and the way from rows to records.
//! - `engine` and `stamp` hold what is taken on trust: the calls into the
//!   engine, the clock and the source of identifiers.
//! - `metadata` is the stored form of a document's metadata.
//! - `documents`, `pst`, `models` and `processors` serve the commands
//!   around the store: snippets and summaries, the e-mail search, the
//!   model catalogue and the assembly of a processed document.
//! - `records`, `error` and `text` are shared by all of them.

pub mod command;
pub mod conversations;
pub mod documents;
pub mod engine;
pub mod error;
pub mod metadata;
pub mod models;
pub mod processors;
pub mod pst;
pub mod records;
pub mod rows;
pub mod schema;
pub mod script;
pub mod session;
pub mod stamp;
pub mod storage;
pub mod text;
