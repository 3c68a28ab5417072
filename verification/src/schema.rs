//! The schema: four tables and three indexes, each created only where it
//! is missing, so that ensuring the schema never drops or empties anything.

use vstd::prelude::*;
use vstd::string::*;
use crate::command::{Command, CommandView};
use crate::error::StorageError;
use crate::script::run_script;
use crate::session::{
    all_succeeded, carried_on, plain_run_succeeds_when_every_statement_does, ran, started,
    successes, verdict_of, Failure,
};

verus! {

/// Whether a schema object is a table or an index.
#[derive(Debug, Clone, Copy, PartialEq, Eq, Structural)]
pub enum ObjectKind {
    Table,
    Index,
}

/// One table or index of the schema. `definition` is the column list of a
/// table, or the indexed table with its column for an index. `label` is
/// what a failure to create the object calls it.
#[derive(Debug, PartialEq, Eq)]
pub struct SchemaObject {
    pub kind: ObjectKind,
    pub name: String,
    pub definition: String,
    pub label: String,
}

/// The view of a schema object.
pub struct SchemaObjectView {
    pub kind: ObjectKind,
    pub name: Seq<char>,
    pub definition: Seq<char>,
    pub label: Seq<char>,
}

impl View for SchemaObject {
    type V = SchemaObjectView;

    open spec fn view(&self) -> SchemaObjectView {
        SchemaObjectView {
            kind: self.kind,
            name: self.name@,
            definition: self.definition@,
            label: self.label@,
        }
    }
}

/// The words that open the statement for an object of this kind. Both
/// create the object only if it does not exist.
pub open spec fn opening_of(kind: ObjectKind) -> Seq<char> {
    match kind {
        ObjectKind::Table => "CREATE TABLE IF NOT EXISTS "@,
        ObjectKind::Index => "CREATE INDEX IF NOT EXISTS "@,
    }
}

/// The statement that creates an object where it is missing.
pub open spec fn ddl_of(o: SchemaObjectView) -> Seq<char> {
    match o.kind {
        ObjectKind::Table => opening_of(o.kind) + o.name + " ("@ + o.definition + ")"@,
        ObjectKind::Index => opening_of(o.kind) + o.name + " ON "@ + o.definition,
    }
}

/// The schema, in the order in which it is created: the tables, then the
/// indexes.
pub open spec fn schema_of() -> Seq<SchemaObjectView> {
    seq![
        SchemaObjectView {
            kind: ObjectKind::Table,
            name: "conversations"@,
            definition: "id TEXT PRIMARY KEY, title TEXT NOT NULL, created_at TEXT NOT NULL, updated_at TEXT NOT NULL, model_used TEXT NOT NULL, message_count INTEGER DEFAULT 0"@,
            label: "der Conversations-Tabelle"@,
        },
        SchemaObjectView {
            kind: ObjectKind::Table,
            name: "messages"@,
            definition: "id TEXT PRIMARY KEY, conversation_id TEXT NOT NULL, role TEXT NOT NULL, content TEXT NOT NULL, timestamp TEXT NOT NULL, tokens_used INTEGER, FOREIGN KEY (conversation_id) REFERENCES conversations (id)"@,
            label: "der Messages-Tabelle"@,
        },
        SchemaObjectView {
            kind: ObjectKind::Table,
            name: "documents"@,
            definition: "id TEXT PRIMARY KEY, file_path TEXT NOT NULL, file_name TEXT NOT NULL, file_type TEXT NOT NULL, size_bytes INTEGER NOT NULL, indexed_at TEXT NOT NULL, content_preview TEXT, embedding_vector BLOB, content TEXT NOT NULL, metadata TEXT NOT NULL, processed_at TEXT NOT NULL, created_at TEXT NOT NULL"@,
            label: "der Documents-Tabelle"@,
        },
        SchemaObjectView {
            kind: ObjectKind::Table,
            name: "pst_emails"@,
            definition: "id TEXT PRIMARY KEY, pst_file_path TEXT NOT NULL, subject TEXT NOT NULL, sender TEXT NOT NULL, recipient TEXT NOT NULL, date_sent TEXT NOT NULL, body_content TEXT, has_attachments BOOLEAN NOT NULL, attachment_count INTEGER DEFAULT 0, folder_name TEXT, indexed_at TEXT NOT NULL"@,
            label: "der PST-Emails-Tabelle"@,
        },
        SchemaObjectView {
            kind: ObjectKind::Index,
            name: "idx_messages_conversation"@,
            definition: "messages (conversation_id)"@,
            label: "des Message-Index"@,
        },
        SchemaObjectView {
            kind: ObjectKind::Index,
            name: "idx_documents_path"@,
            definition: "documents (file_path)"@,
            label: "des Document-Index"@,
        },
        SchemaObjectView {
            kind: ObjectKind::Index,
            name: "idx_pst_sender"@,
            definition: "pst_emails (sender)"@,
            label: "des PST-Sender-Index"@,
        },
    ]
}

fn object(kind: ObjectKind, name: &str, definition: &str, label: &str) -> (o: SchemaObject)
    ensures
        o@ == (SchemaObjectView { kind, name: name@, definition: definition@, label: label@ }),
{
    SchemaObject {
        kind,
        name: String::from_str(name),
        definition: String::from_str(definition),
        label: String::from_str(label),
    }
}

/// The objects of the schema, in the order in which they are created.
pub fn schema_objects() -> (objects: Vec<SchemaObject>)
    ensures
        crate::records::views(objects@) == schema_of(),
{
    let mut objects: Vec<SchemaObject> = Vec::new();
    objects.push(
        object(
            ObjectKind::Table,
            "conversations",
            "id TEXT PRIMARY KEY, title TEXT NOT NULL, created_at TEXT NOT NULL, updated_at TEXT NOT NULL, model_used TEXT NOT NULL, message_count INTEGER DEFAULT 0",
            "der Conversations-Tabelle",
        ),
    );
    objects.push(
        object(
            ObjectKind::Table,
            "messages",
            "id TEXT PRIMARY KEY, conversation_id TEXT NOT NULL, role TEXT NOT NULL, content TEXT NOT NULL, timestamp TEXT NOT NULL, tokens_used INTEGER, FOREIGN KEY (conversation_id) REFERENCES conversations (id)",
            "der Messages-Tabelle",
        ),
    );
    objects.push(
        object(
            ObjectKind::Table,
            "documents",
            "id TEXT PRIMARY KEY, file_path TEXT NOT NULL, file_name TEXT NOT NULL, file_type TEXT NOT NULL, size_bytes INTEGER NOT NULL, indexed_at TEXT NOT NULL, content_preview TEXT, embedding_vector BLOB, content TEXT NOT NULL, metadata TEXT NOT NULL, processed_at TEXT NOT NULL, created_at TEXT NOT NULL",
            "der Documents-Tabelle",
        ),
    );
    objects.push(
        object(
            ObjectKind::Table,
            "pst_emails",
            "id TEXT PRIMARY KEY, pst_file_path TEXT NOT NULL, subject TEXT NOT NULL, sender TEXT NOT NULL, recipient TEXT NOT NULL, date_sent TEXT NOT NULL, body_content TEXT, has_attachments BOOLEAN NOT NULL, attachment_count INTEGER DEFAULT 0, folder_name TEXT, indexed_at TEXT NOT NULL",
            "der PST-Emails-Tabelle",
        ),
    );
    objects.push(
        object(
            ObjectKind::Index,
            "idx_messages_conversation",
            "messages (conversation_id)",
            "des Message-Index",
        ),
    );
    objects.push(
        object(ObjectKind::Index, "idx_documents_path", "documents (file_path)", "des Document-Index"),
    );
    objects.push(
        object(ObjectKind::Index, "idx_pst_sender", "pst_emails (sender)", "des PST-Sender-Index"),
    );
    assert(crate::records::views(objects@) =~= schema_of());
    objects
}

/// The statement that creates `o` where it is missing.
pub fn ddl(o: &SchemaObject) -> (sql: String)
    ensures
        sql@ == ddl_of(o@),
{
    match o.kind {
        ObjectKind::Table => {
            let mut sql = String::from_str("CREATE TABLE IF NOT EXISTS ");
            sql.append(o.name.as_str());
            sql.append(" (");
            sql.append(o.definition.as_str());
            sql.append(")");
            sql
        },
        ObjectKind::Index => {
            let mut sql = String::from_str("CREATE INDEX IF NOT EXISTS ");
            sql.append(o.name.as_str());
            sql.append(" ON ");
            sql.append(o.definition.as_str());
            sql
        },
    }
}

/// Every statement of the schema opens with the words that create an
/// object only where it is missing: running the schema again changes
/// nothing that is there.
pub proof fn ddl_is_conditional(o: SchemaObjectView)
    ensures
        opening_of(o.kind).is_prefix_of(ddl_of(o)),
{
    let open = opening_of(o.kind);
    assert(ddl_of(o).subrange(0, open.len() as int) =~= open);
}

/// The statements that create the objects where they are missing: one
/// without parameters for each object, in the objects' order.
pub fn schema_commands(objects: &Vec<SchemaObject>) -> (commands: Vec<Command>)
    ensures
        commands@.len() == objects@.len(),
        forall|i: int|
            0 <= i < objects@.len() ==> (#[trigger] commands@[i])@ == (CommandView {
                sql: ddl_of(objects@[i]@),
                params: Seq::empty(),
            }),
{
    let mut commands: Vec<Command> = Vec::new();
    let mut i: usize = 0;
    while i < objects.len()
        invariant
            i <= objects.len(),
            commands@.len() == i,
            forall|k: int|
                0 <= k < i ==> (#[trigger] commands@[k])@ == (CommandView {
                    sql: ddl_of(objects@[k]@),
                    params: Seq::empty(),
                }),
        decreases objects.len() - i,
    {
        let command = Command { sql: ddl(&objects[i]), params: Vec::new() };
        assert(command@.params =~= Seq::empty());
        commands.push(command);
        i += 1;
    }
    commands
}

/// What a failed run of the schema's statements is reported as: the
/// object that could not be created, by its label, and the engine's words.
pub open spec fn schema_failure_of(failure: Failure, labels: Seq<Seq<char>>) -> (Seq<char>, Seq<char>) {
    match failure {
        Failure::Statement { index, detail } => (
            if index < labels.len() {
                labels[index as int]
            } else {
                Seq::empty()
            },
            detail@,
        ),
        Failure::Begin { detail } => (Seq::empty(), detail@),
        Failure::Commit { detail } => (Seq::empty(), detail@),
    }
}

/// The labels of the schema's objects, in order.
pub open spec fn labels_of(objects: Seq<SchemaObject>) -> Seq<Seq<char>> {
    Seq::new(objects.len(), |i: int| objects[i].label@)
}

/// Turns the failure of a run of the schema's statements into the failure
/// that is reported.
pub fn schema_failure(failure: Failure, objects: &Vec<SchemaObject>) -> (e: StorageError)
    ensures
        e matches StorageError::Schema { label, detail } && (label@, detail@) == schema_failure_of(
            failure,
            labels_of(objects@),
        ),
{
    match failure {
        Failure::Statement { index, detail } => {
            let label = if index < objects.len() {
                objects[index].label.clone()
            } else {
                String::new()
            };
            StorageError::Schema { label, detail }
        },
        Failure::Begin { detail } => StorageError::Schema { label: String::new(), detail },
        Failure::Commit { detail } => StorageError::Schema { label: String::new(), detail },
    }
}

/// The number of objects of the schema.
pub const SCHEMA_SIZE: usize = 7;

/// The labels of the schema, in the schema's order.
pub open spec fn schema_labels() -> Seq<Seq<char>> {
    Seq::new(schema_of().len(), |i: int| schema_of()[i].label)
}

/// `r` is what is reported of a run of the schema's statements that ended
/// as `run` says: success, or the object that could not be created, by
/// its label, with the engine's words.
pub open spec fn schema_reported(run: Result<(), Failure>, r: Result<(), StorageError>) -> bool {
    match run {
        Ok(()) => r is Ok,
        Err(failure) => r matches Err(StorageError::Schema { label, detail }) && (label@, detail@)
            == schema_failure_of(failure, schema_labels()),
    }
}

/// `r` is the result of ensuring the schema when the statements went as
/// `outcomes` says: each was run on its own, in the schema's order, up to
/// the first that failed.
pub open spec fn schema_ensured(outcomes: Seq<Result<(), String>>, r: Result<(), StorageError>) -> bool {
    let run = verdict_of(carried_on(started(false, SCHEMA_SIZE), outcomes));
    ran(false, SCHEMA_SIZE, outcomes, run) && schema_reported(run, r)
}

/// The schema is ensured exactly when each of its statements was run and
/// succeeded; the first that fails ends the run and is what is reported.
pub proof fn schema_is_ensured_when_every_statement_succeeds(
    outcomes: Seq<Result<(), String>>,
    r: Result<(), StorageError>,
)
    requires
        schema_ensured(outcomes, r),
    ensures
        r is Ok <==> (outcomes.len() == SCHEMA_SIZE && all_succeeded(successes(outcomes))),
{
    let run = verdict_of(carried_on(started(false, SCHEMA_SIZE), outcomes));
    plain_run_succeeds_when_every_statement_does(SCHEMA_SIZE, outcomes, run);
}

/// Creates every table and index of the schema that is missing, in the
/// schema's order, each statement on its own. The first statement that
/// the engine refuses ends the run and is reported with the object's
/// label; what was created before it stays.
pub fn ensure_schema(conn: &rusqlite::Connection) -> (r: Result<(), StorageError>)
    ensures
        exists|outcomes: Seq<Result<(), String>>| schema_ensured(outcomes, r),
        r matches Err(e) ==> (e matches StorageError::Schema { label, .. } && exists|i: int|
            0 <= i < schema_of().len() && label@ == schema_of()[i].label),
{
    let objects = schema_objects();
    let commands = schema_commands(&objects);
    assert(crate::records::views(objects@).len() == objects@.len());
    assert(labels_of(objects@) =~= schema_labels()) by {
        assert forall|i: int| 0 <= i < objects@.len() implies labels_of(objects@)[i]
            == schema_labels()[i] by {
            assert(crate::records::views(objects@)[i] == schema_of()[i]);
        }
    }
    let result = run_script(conn, false, &commands);
    let ghost run = result;
    let ghost outcomes = choose|outcomes: Seq<Result<(), String>>|
        ran(false, commands.len(), outcomes, run);
    match result {
        Ok(()) => {
            assert(schema_ensured(outcomes, Ok(())));
            Ok(())
        },
        Err(failure) => {
            let ghost at = match failure {
                Failure::Statement { index, .. } => index as int,
                _ => 0,
            };
            let e = schema_failure(failure, &objects);
            proof {
                assert(crate::records::views(objects@)[at] == schema_of()[at]);
                assert(schema_ensured(outcomes, Err(e)));
            }
            Err(e)
        },
    }
}

} // verus!
