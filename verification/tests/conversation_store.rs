use localllm_desktop::conversations::{
    init_database, load_conversation_messages, load_conversations, save_conversation,
    search_conversation_history,
};
use localllm_desktop::error::{StorageError, WriteTarget};
use localllm_desktop::records::{ConversationRecord, MessageRecord};

/// A database that lives in memory under `name` for as long as the
/// returned connection is open.
fn memory_db(name: &str) -> (String, rusqlite::Connection) {
    let path = format!("file:{}?mode=memory&cache=shared", name);
    let keeper = rusqlite::Connection::open(&path).unwrap();
    (path, keeper)
}

fn conversation(id: &str, title: &str, updated_at: &str, count: usize) -> ConversationRecord {
    ConversationRecord {
        id: id.to_string(),
        title: title.to_string(),
        created_at: "2024-01-01T00:00:00Z".to_string(),
        updated_at: updated_at.to_string(),
        model_used: "phi-4-mini-instruct".to_string(),
        message_count: count,
    }
}

fn message(id: &str, conversation_id: &str, content: &str, timestamp: &str, tokens: Option<usize>) -> MessageRecord {
    MessageRecord {
        id: id.to_string(),
        conversation_id: conversation_id.to_string(),
        role: "user".to_string(),
        content: content.to_string(),
        timestamp: timestamp.to_string(),
        tokens_used: tokens,
    }
}

fn schema_of(conn: &rusqlite::Connection) -> Vec<(String, String, Option<String>)> {
    let mut stmt = conn
        .prepare("SELECT type, name, sql FROM sqlite_master ORDER BY type, name")
        .unwrap();
    let rows = stmt
        .query_map([], |row| Ok((row.get(0)?, row.get(1)?, row.get(2)?)))
        .unwrap();
    rows.map(|r| r.unwrap()).collect()
}

#[test]
fn schema_creation_is_idempotent() {
    let (path, keeper) = memory_db("schema_twice");
    assert_eq!(init_database(&path), Ok(()));
    let first = schema_of(&keeper);
    assert_eq!(init_database(&path), Ok(()));
    let second = schema_of(&keeper);
    assert_eq!(first, second);
    let names: Vec<&str> = first.iter().map(|(_, name, _)| name.as_str()).collect();
    for expected in [
        "conversations",
        "messages",
        "documents",
        "pst_emails",
        "idx_messages_conversation",
        "idx_documents_path",
        "idx_pst_sender",
    ] {
        assert!(names.contains(&expected), "missing {}", expected);
    }
}

#[test]
fn schema_creation_keeps_existing_rows() {
    let (path, _keeper) = memory_db("schema_keeps");
    init_database(&path).unwrap();
    save_conversation(&path, &conversation("c1", "First", "2024-02-01T00:00:00Z", 0), &vec![]).unwrap();
    init_database(&path).unwrap();
    let listed = load_conversations(&path, None).unwrap();
    assert_eq!(listed.len(), 1);
    assert_eq!(listed[0].id, "c1");
}

#[test]
fn save_then_load_round_trips_header_and_messages() {
    let (path, _keeper) = memory_db("round_trip");
    init_database(&path).unwrap();
    let c = conversation("c1", "Budget talk", "2024-03-01T10:00:00Z", 2);
    let m = vec![
        message("m2", "c1", "second", "2024-03-01T10:02:00Z", Some(17)),
        message("m1", "c1", "first", "2024-03-01T10:01:00Z", None),
    ];
    assert_eq!(save_conversation(&path, &c, &m), Ok(()));
    let listed = load_conversations(&path, None).unwrap();
    assert_eq!(listed.len(), 1);
    assert_eq!(listed[0].id, "c1");
    assert_eq!(listed[0].title, "Budget talk");
    assert_eq!(listed[0].created_at, "2024-01-01T00:00:00Z");
    assert_eq!(listed[0].updated_at, "2024-03-01T10:00:00Z");
    assert_eq!(listed[0].model_used, "phi-4-mini-instruct");
    assert_eq!(listed[0].message_count, 2);
    let messages = load_conversation_messages(&path, "c1").unwrap();
    assert_eq!(messages.len(), 2);
    assert_eq!(messages[0].id, "m1");
    assert_eq!(messages[0].content, "first");
    assert_eq!(messages[0].tokens_used, None);
    assert_eq!(messages[1].id, "m2");
    assert_eq!(messages[1].role, "user");
    assert_eq!(messages[1].conversation_id, "c1");
    assert_eq!(messages[1].tokens_used, Some(17));
}

#[test]
fn save_with_no_messages_saves_header_only() {
    let (path, _keeper) = memory_db("header_only");
    init_database(&path).unwrap();
    save_conversation(&path, &conversation("c1", "Empty", "2024-03-01T10:00:00Z", 0), &vec![]).unwrap();
    assert_eq!(load_conversations(&path, None).unwrap().len(), 1);
    assert!(load_conversation_messages(&path, "c1").unwrap().is_empty());
}

#[test]
fn saving_same_id_twice_replaces_row() {
    let (path, keeper) = memory_db("upsert");
    init_database(&path).unwrap();
    save_conversation(&path, &conversation("c1", "Old title", "2024-03-01T10:00:00Z", 0), &vec![]).unwrap();
    save_conversation(&path, &conversation("c1", "New title", "2024-03-02T10:00:00Z", 0), &vec![]).unwrap();
    let listed = load_conversations(&path, None).unwrap();
    assert_eq!(listed.len(), 1);
    assert_eq!(listed[0].title, "New title");
    let n: i64 = keeper
        .query_row("SELECT COUNT(*) FROM conversations WHERE id = 'c1'", [], |row| row.get(0))
        .unwrap();
    assert_eq!(n, 1);
}

#[test]
fn saving_same_message_id_twice_replaces_message() {
    let (path, _keeper) = memory_db("upsert_message");
    init_database(&path).unwrap();
    let c = conversation("c1", "T", "2024-03-01T10:00:00Z", 1);
    save_conversation(&path, &c, &vec![message("m1", "c1", "old", "2024-03-01T10:01:00Z", None)]).unwrap();
    save_conversation(&path, &c, &vec![message("m1", "c1", "new", "2024-03-01T10:01:00Z", Some(3))]).unwrap();
    let messages = load_conversation_messages(&path, "c1").unwrap();
    assert_eq!(messages.len(), 1);
    assert_eq!(messages[0].content, "new");
    assert_eq!(messages[0].tokens_used, Some(3));
}

#[test]
fn failed_message_write_rolls_back_header() {
    let (path, keeper) = memory_db("atomic");
    init_database(&path).unwrap();
    // The second message cannot be written: the trigger refuses it after
    // the header and the first message went through.
    keeper
        .execute_batch(
            "CREATE TRIGGER refuse BEFORE INSERT ON messages WHEN NEW.id = 'bad' \
             BEGIN SELECT RAISE(ABORT, 'refused'); END;",
        )
        .unwrap();
    let c = conversation("c1", "Atomic", "2024-03-01T10:00:00Z", 2);
    let m = vec![
        message("good", "c1", "fine", "2024-03-01T10:01:00Z", None),
        message("bad", "c1", "refused", "2024-03-01T10:02:00Z", None),
    ];
    let r = save_conversation(&path, &c, &m);
    match r {
        Err(StorageError::Write { target, detail }) => {
            assert_eq!(target, WriteTarget::Message(1));
            assert!(detail.contains("refused"), "{}", detail);
        }
        other => panic!("unexpected {:?}", other),
    }
    assert!(load_conversations(&path, None).unwrap().is_empty());
    assert!(load_conversation_messages(&path, "c1").unwrap().is_empty());
}

#[test]
fn failed_header_write_is_reported_as_conversation() {
    let (path, _keeper) = memory_db("no_schema");
    let r = save_conversation(&path, &conversation("c1", "T", "2024-03-01T10:00:00Z", 0), &vec![]);
    match r {
        Err(StorageError::Write { target, .. }) => assert_eq!(target, WriteTarget::Conversation),
        other => panic!("unexpected {:?}", other),
    }
}

#[test]
fn conversations_come_most_recent_first() {
    let (path, _keeper) = memory_db("ordering");
    init_database(&path).unwrap();
    for (id, updated) in [
        ("b", "2024-03-02T00:00:00Z"),
        ("d", "2024-03-04T00:00:00Z"),
        ("a", "2024-03-01T00:00:00Z"),
        ("c", "2024-03-03T00:00:00Z"),
    ] {
        save_conversation(&path, &conversation(id, id, updated, 0), &vec![]).unwrap();
    }
    let listed = load_conversations(&path, None).unwrap();
    let ids: Vec<&str> = listed.iter().map(|c| c.id.as_str()).collect();
    assert_eq!(ids, vec!["d", "c", "b", "a"]);
}

#[test]
fn messages_come_oldest_first() {
    let (path, _keeper) = memory_db("message_order");
    init_database(&path).unwrap();
    let c = conversation("c1", "T", "2024-03-01T10:00:00Z", 3);
    let m = vec![
        message("m3", "c1", "three", "2024-03-01T10:03:00Z", None),
        message("m1", "c1", "one", "2024-03-01T10:01:00Z", None),
        message("m2", "c1", "two", "2024-03-01T10:02:00Z", None),
        message("x1", "other", "elsewhere", "2024-03-01T09:00:00Z", None),
    ];
    save_conversation(&path, &c, &m).unwrap();
    let messages = load_conversation_messages(&path, "c1").unwrap();
    let ids: Vec<&str> = messages.iter().map(|m| m.id.as_str()).collect();
    assert_eq!(ids, vec!["m1", "m2", "m3"]);
}

#[test]
fn limit_bounds_the_listing() {
    let (path, _keeper) = memory_db("limit");
    init_database(&path).unwrap();
    for i in 0..5 {
        let id = format!("c{}", i);
        let updated = format!("2024-03-0{}T00:00:00Z", i + 1);
        save_conversation(&path, &conversation(&id, "t", &updated, 0), &vec![]).unwrap();
    }
    let listed = load_conversations(&path, Some(2)).unwrap();
    let ids: Vec<&str> = listed.iter().map(|c| c.id.as_str()).collect();
    assert_eq!(ids, vec!["c4", "c3"]);
    assert_eq!(load_conversations(&path, Some(0)).unwrap().len(), 0);
    assert_eq!(load_conversations(&path, Some(10)).unwrap().len(), 5);
    assert_eq!(load_conversations(&path, Some(usize::MAX)).unwrap().len(), 5);
    assert_eq!(load_conversations(&path, None).unwrap().len(), 5);
}

#[test]
fn empty_tables_list_nothing() {
    let (path, _keeper) = memory_db("empty");
    init_database(&path).unwrap();
    assert!(load_conversations(&path, None).unwrap().is_empty());
    assert!(load_conversation_messages(&path, "nobody").unwrap().is_empty());
    assert!(search_conversation_history(&path, "anything", None).unwrap().is_empty());
}

#[test]
fn search_finds_the_one_matching_message() {
    let (path, _keeper) = memory_db("search_one");
    init_database(&path).unwrap();
    let c = conversation("c1", "T", "2024-03-01T10:00:00Z", 3);
    let m = vec![
        message("m1", "c1", "Hello there", "2024-03-01T10:01:00Z", None),
        message("m2", "c1", "The Budget is due", "2024-03-01T10:02:00Z", None),
        message("m3", "c1", "Goodbye", "2024-03-01T10:03:00Z", None),
    ];
    save_conversation(&path, &c, &m).unwrap();
    let found = search_conversation_history(&path, "Budget", None).unwrap();
    assert_eq!(found.len(), 1);
    assert_eq!(found[0].id, "m2");
    let none = search_conversation_history(&path, "Quarterly", None).unwrap();
    assert!(none.is_empty());
}

#[test]
fn search_ignores_ascii_case_and_reads_wildcards_literally() {
    let (path, _keeper) = memory_db("search_case");
    init_database(&path).unwrap();
    let c = conversation("c1", "T", "2024-03-01T10:00:00Z", 3);
    let m = vec![
        message("m1", "c1", "100% sure", "2024-03-01T10:01:00Z", None),
        message("m2", "c1", "budget_2024 is ready", "2024-03-01T10:02:00Z", None),
        message("m3", "c1", "budgetX2024", "2024-03-01T10:03:00Z", None),
    ];
    save_conversation(&path, &c, &m).unwrap();
    let found = search_conversation_history(&path, "BUDGET", None).unwrap();
    let ids: Vec<&str> = found.iter().map(|m| m.id.as_str()).collect();
    assert_eq!(ids, vec!["m3", "m2"]);
    let found = search_conversation_history(&path, "budget_2024", None).unwrap();
    let ids: Vec<&str> = found.iter().map(|m| m.id.as_str()).collect();
    assert_eq!(ids, vec!["m2"]);
    let found = search_conversation_history(&path, "%", None).unwrap();
    let ids: Vec<&str> = found.iter().map(|m| m.id.as_str()).collect();
    assert_eq!(ids, vec!["m1"]);
}

#[test]
fn search_defaults_to_fifty_results() {
    let (path, _keeper) = memory_db("search_limit");
    init_database(&path).unwrap();
    let c = conversation("c1", "T", "2024-03-01T10:00:00Z", 60);
    let mut m = Vec::new();
    for i in 0..60 {
        m.push(message(
            &format!("m{:02}", i),
            "c1",
            "needle in here",
            &format!("2024-03-01T10:{:02}:00Z", i),
            None,
        ));
    }
    save_conversation(&path, &c, &m).unwrap();
    let found = search_conversation_history(&path, "needle", None).unwrap();
    assert_eq!(found.len(), 50);
    assert_eq!(found[0].id, "m59");
    assert_eq!(found[49].id, "m10");
    let found = search_conversation_history(&path, "needle", Some(3)).unwrap();
    let ids: Vec<&str> = found.iter().map(|m| m.id.as_str()).collect();
    assert_eq!(ids, vec!["m59", "m58", "m57"]);
    let found = search_conversation_history(&path, "needle", Some(100)).unwrap();
    assert_eq!(found.len(), 60);
    let found = search_conversation_history(&path, "needle", Some(usize::MAX)).unwrap();
    assert_eq!(found.len(), 60);
}

#[test]
fn unreadable_database_is_an_open_error() {
    let r = init_database("/nonexistent-directory/for/sure/db.sqlite");
    match r {
        Err(StorageError::Open { detail }) => assert!(!detail.is_empty()),
        other => panic!("unexpected {:?}", other),
    }
    let r = load_conversations("/nonexistent-directory/for/sure/db.sqlite", None);
    assert!(matches!(r, Err(StorageError::Open { .. })));
}

#[test]
fn counts_beyond_the_engine_are_not_read_back() {
    let (path, _keeper) = memory_db("large_count");
    init_database(&path).unwrap();
    let c = conversation("c1", "T", "2024-03-01T10:00:00Z", i64::MAX as usize);
    save_conversation(&path, &c, &vec![]).unwrap();
    assert_eq!(load_conversations(&path, None).unwrap()[0].message_count, i64::MAX as usize);
    let c = conversation("c1", "T", "2024-03-01T10:00:00Z", usize::MAX);
    save_conversation(&path, &c, &vec![]).unwrap();
    assert!(matches!(
        load_conversations(&path, None),
        Err(StorageError::Decode { row: 0, column: 5, .. })
    ));
}

#[test]
fn a_row_that_the_engine_cannot_hand_over_fails_the_listing() {
    let (path, keeper) = memory_db("bad_text");
    init_database(&path).unwrap();
    let c = conversation("c1", "T", "2024-03-01T10:00:00Z", 1);
    save_conversation(&path, &c, &vec![message("m1", "c1", "fine", "2024-03-01T10:01:00Z", None)])
        .unwrap();
    keeper
        .execute(
            "INSERT INTO messages (id, conversation_id, role, content, timestamp) \
             VALUES ('m2', 'c1', 'user', CAST(X'ff' AS TEXT), '2024-03-01T10:02:00Z')",
            [],
        )
        .unwrap();
    match load_conversation_messages(&path, "c1") {
        Err(StorageError::Row { row, detail }) => {
            assert_eq!(row, 1);
            assert!(!detail.is_empty());
        }
        other => panic!("unexpected {:?}", other),
    }
}

#[test]
fn a_row_of_the_wrong_kind_fails_the_listing() {
    let (path, keeper) = memory_db("wrong_kind");
    init_database(&path).unwrap();
    keeper
        .execute(
            "INSERT INTO messages (id, conversation_id, role, content, timestamp, tokens_used) \
             VALUES ('m1', 'c1', 'user', 'text', '2024-03-01T10:02:00Z', '')",
            [],
        )
        .unwrap();
    assert_eq!(
        load_conversation_messages(&path, "c1"),
        Err(StorageError::Decode {
            row: 0,
            column: 5,
            fault: localllm_desktop::error::DecodeFault::NotInteger
        })
    );
    keeper.execute("UPDATE messages SET tokens_used = -3", []).unwrap();
    assert_eq!(
        load_conversation_messages(&path, "c1"),
        Err(StorageError::Decode {
            row: 0,
            column: 5,
            fault: localllm_desktop::error::DecodeFault::OutOfRange
        })
    );
    keeper.execute("UPDATE messages SET tokens_used = 2.5", []).unwrap();
    assert!(matches!(
        load_conversation_messages(&path, "c1"),
        Err(StorageError::Decode { row: 0, column: 5, .. })
    ));
    keeper.execute("UPDATE messages SET tokens_used = 7, content = X'0102'", []).unwrap();
    assert_eq!(
        load_conversation_messages(&path, "c1"),
        Err(StorageError::Decode {
            row: 0,
            column: 3,
            fault: localllm_desktop::error::DecodeFault::NotText
        })
    );
}
