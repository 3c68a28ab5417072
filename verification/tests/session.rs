use localllm_desktop::conversations::save_failure;
use localllm_desktop::error::{StorageError, WriteTarget};
use localllm_desktop::schema::{
    ddl, ensure_schema, schema_commands, schema_failure, schema_objects, ObjectKind,
};
use localllm_desktop::session::{Failure, Session, Step};
use localllm_desktop::storage::store_failure;

fn run(transactional: bool, len: usize, outcomes: &[bool]) -> (Vec<Step>, Result<(), Failure>) {
    let mut session = Session::start(transactional, len);
    let mut steps = vec![session.due];
    for (i, ok) in outcomes.iter().enumerate() {
        session.advance(if *ok { Ok(()) } else { Err(format!("failure {}", i)) });
        steps.push(session.due);
    }
    (steps, session.verdict())
}

#[test]
fn a_transaction_that_succeeds_commits_last() {
    let (steps, verdict) = run(true, 3, &[true, true, true, true, true]);
    assert_eq!(
        steps,
        vec![Step::Begin, Step::Run(0), Step::Run(1), Step::Run(2), Step::Commit, Step::Done]
    );
    assert_eq!(verdict, Ok(()));
}

#[test]
fn a_failed_statement_rolls_back_and_never_commits() {
    for failing in 0..3usize {
        let mut outcomes = vec![true; failing + 1];
        outcomes.push(false);
        outcomes.push(true);
        outcomes.push(true);
        let (steps, verdict) = run(true, 3, &outcomes);
        assert!(!steps.contains(&Step::Commit));
        assert_eq!(steps[failing + 2], Step::Rollback);
        assert_eq!(steps[failing + 3], Step::Done);
        assert_eq!(steps[failing + 4], Step::Done);
        assert_eq!(
            verdict,
            Err(Failure::Statement { index: failing, detail: format!("failure {}", failing + 1) })
        );
    }
}

#[test]
fn a_failed_rollback_keeps_the_first_failure() {
    let (steps, verdict) = run(true, 2, &[true, false, false]);
    assert_eq!(steps, vec![Step::Begin, Step::Run(0), Step::Rollback, Step::Done]);
    assert_eq!(verdict, Err(Failure::Statement { index: 0, detail: "failure 1".to_string() }));
}

#[test]
fn a_failed_begin_or_commit_ends_the_run() {
    let (steps, verdict) = run(true, 2, &[false, true]);
    assert_eq!(steps, vec![Step::Begin, Step::Done, Step::Done]);
    assert_eq!(verdict, Err(Failure::Begin { detail: "failure 0".to_string() }));
    let (steps, verdict) = run(true, 1, &[true, true, false]);
    assert_eq!(steps, vec![Step::Begin, Step::Run(0), Step::Commit, Step::Done]);
    assert_eq!(verdict, Err(Failure::Commit { detail: "failure 2".to_string() }));
}

#[test]
fn an_empty_transaction_begins_and_commits() {
    let (steps, verdict) = run(true, 0, &[true, true]);
    assert_eq!(steps, vec![Step::Begin, Step::Commit, Step::Done]);
    assert_eq!(verdict, Ok(()));
}

#[test]
fn statements_outside_a_transaction_stop_at_the_first_failure() {
    let (steps, verdict) = run(false, 3, &[true, true, true]);
    assert_eq!(steps, vec![Step::Run(0), Step::Run(1), Step::Run(2), Step::Done]);
    assert_eq!(verdict, Ok(()));
    let (steps, verdict) = run(false, 3, &[true, false, true]);
    assert_eq!(steps, vec![Step::Run(0), Step::Run(1), Step::Done, Step::Done]);
    assert_eq!(verdict, Err(Failure::Statement { index: 1, detail: "failure 1".to_string() }));
    let (steps, verdict) = run(false, 0, &[true]);
    assert_eq!(steps, vec![Step::Done, Step::Done]);
    assert_eq!(verdict, Ok(()));
}

#[test]
fn save_failures_name_what_was_written() {
    assert_eq!(
        save_failure(Failure::Begin { detail: "b".to_string() }),
        StorageError::Begin { detail: "b".to_string() }
    );
    assert_eq!(
        save_failure(Failure::Statement { index: 0, detail: "h".to_string() }),
        StorageError::Write { target: WriteTarget::Conversation, detail: "h".to_string() }
    );
    assert_eq!(
        save_failure(Failure::Statement { index: 1, detail: "m".to_string() }),
        StorageError::Write { target: WriteTarget::Message(0), detail: "m".to_string() }
    );
    assert_eq!(
        save_failure(Failure::Statement { index: 5, detail: "m".to_string() }),
        StorageError::Write { target: WriteTarget::Message(4), detail: "m".to_string() }
    );
    assert_eq!(
        save_failure(Failure::Commit { detail: "c".to_string() }),
        StorageError::Commit { detail: "c".to_string() }
    );
    assert_eq!(
        store_failure(Failure::Statement { index: 0, detail: "d".to_string() }),
        StorageError::Write { target: WriteTarget::Document, detail: "d".to_string() }
    );
}

#[test]
fn the_schema_has_four_tables_and_three_indexes() {
    let objects = schema_objects();
    let names: Vec<(&str, ObjectKind)> =
        objects.iter().map(|o| (o.name.as_str(), o.kind)).collect();
    assert_eq!(
        names,
        vec![
            ("conversations", ObjectKind::Table),
            ("messages", ObjectKind::Table),
            ("documents", ObjectKind::Table),
            ("pst_emails", ObjectKind::Table),
            ("idx_messages_conversation", ObjectKind::Index),
            ("idx_documents_path", ObjectKind::Index),
            ("idx_pst_sender", ObjectKind::Index),
        ]
    );
    assert_eq!(
        ddl(&objects[4]),
        "CREATE INDEX IF NOT EXISTS idx_messages_conversation ON messages (conversation_id)"
    );
    assert_eq!(
        ddl(&objects[0]),
        "CREATE TABLE IF NOT EXISTS conversations (id TEXT PRIMARY KEY, title TEXT NOT NULL, created_at TEXT NOT NULL, updated_at TEXT NOT NULL, model_used TEXT NOT NULL, message_count INTEGER DEFAULT 0)"
    );
    let commands = schema_commands(&objects);
    assert_eq!(commands.len(), 7);
    for (command, object) in commands.iter().zip(objects.iter()) {
        assert_eq!(command.sql, ddl(object));
        assert!(command.params.is_empty());
        assert!(
            command.sql.starts_with("CREATE TABLE IF NOT EXISTS ")
                || command.sql.starts_with("CREATE INDEX IF NOT EXISTS ")
        );
    }
}

#[test]
fn schema_failures_carry_the_label_of_the_object() {
    let objects = schema_objects();
    assert_eq!(
        schema_failure(Failure::Statement { index: 1, detail: "no".to_string() }, &objects),
        StorageError::Schema { label: "der Messages-Tabelle".to_string(), detail: "no".to_string() }
    );
    assert_eq!(
        schema_failure(Failure::Statement { index: 6, detail: "no".to_string() }, &objects),
        StorageError::Schema { label: "des PST-Sender-Index".to_string(), detail: "no".to_string() }
    );
    assert_eq!(
        schema_failure(Failure::Statement { index: 7, detail: "no".to_string() }, &objects),
        StorageError::Schema { label: String::new(), detail: "no".to_string() }
    );
}

#[test]
fn ensuring_the_schema_reports_the_object_that_failed() {
    let conn = rusqlite::Connection::open_in_memory().unwrap();
    // An index that has the name of the third table stands in its way.
    conn.execute_batch("CREATE TABLE other (x); CREATE INDEX documents ON other (x);").unwrap();
    match ensure_schema(&conn) {
        Err(StorageError::Schema { label, detail }) => {
            assert_eq!(label, "der Documents-Tabelle");
            assert!(!detail.is_empty());
        }
        other => panic!("unexpected {:?}", other),
    }
    // What came before the failure stays.
    let n: i64 = conn
        .query_row(
            "SELECT COUNT(*) FROM sqlite_master WHERE name IN ('conversations', 'messages')",
            [],
            |r| r.get(0),
        )
        .unwrap();
    assert_eq!(n, 2);
    let fresh = rusqlite::Connection::open_in_memory().unwrap();
    assert_eq!(ensure_schema(&fresh), Ok(()));
    assert_eq!(ensure_schema(&fresh), Ok(()));
}

#[test]
fn messages_of_failures() {
    let d = "disk full".to_string();
    assert_eq!(StorageError::Open { detail: d.clone() }.message(), "Datenbankfehler: disk full");
    assert_eq!(
        StorageError::Schema { label: "der Messages-Tabelle".to_string(), detail: d.clone() }
            .message(),
        "Fehler beim Erstellen der Messages-Tabelle: disk full"
    );
    assert_eq!(StorageError::Begin { detail: d.clone() }.message(), "Transaktionsfehler: disk full");
    assert_eq!(
        StorageError::Write { target: WriteTarget::Conversation, detail: d.clone() }.message(),
        "Fehler beim Speichern der Conversation: disk full"
    );
    assert_eq!(
        StorageError::Write { target: WriteTarget::Message(3), detail: d.clone() }.message(),
        "Fehler beim Speichern der Message: disk full"
    );
    assert_eq!(
        StorageError::Write { target: WriteTarget::Document, detail: d.clone() }.message(),
        "Fehler beim Speichern des Dokuments: disk full"
    );
    assert_eq!(StorageError::Commit { detail: d.clone() }.message(), "Commit-Fehler: disk full");
    assert_eq!(
        StorageError::Prepare { detail: d.clone() }.message(),
        "SQL-Vorbereitung fehlgeschlagen: disk full"
    );
    assert_eq!(
        StorageError::Query { detail: d.clone() }.message(),
        "Query-Ausf\u{fc}hrung fehlgeschlagen: disk full"
    );
    assert_eq!(
        StorageError::Row { row: 2, detail: d.clone() }.message(),
        "Row-Parsing fehlgeschlagen: disk full"
    );
    assert_eq!(
        StorageError::Decode {
            row: 12,
            column: 5,
            fault: localllm_desktop::error::DecodeFault::OutOfRange
        }
        .message(),
        "Row-Parsing fehlgeschlagen: integer out of range (row 12, column 5)"
    );
    assert_eq!(
        StorageError::Order { row: 7 }.message(),
        "Row-Parsing fehlgeschlagen: rows out of order after row 7"
    );
}
