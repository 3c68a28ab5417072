//! The conversation store: saving a conversation with its messages in one
//! transaction, listing conversations and messages, and searching the
//! message history.

use vstd::prelude::*;
use vstd::string::*;
use crate::command::{
    like_pattern, like_pattern_of, limit_clause, limit_clause_of, save_plan, save_plan_of, Command,
    CommandView,
};
use crate::engine::{describe, open_database, Cell};
use crate::error::{StorageError, WriteTarget};
use crate::records::{views, ConversationRecord, ConversationView, MessageRecord, MessageView};
use crate::rows::{
    bounded, bounded_len, checked_order, count_in, count_of, decode_rows, disorder_at, keys_of,
    listed, listing, ordered, records_of, row_decodes, row_fault, text_in, text_of, ColumnKind,
    Stored,
};
use crate::schema::{ensure_schema, schema_ensured};
use crate::script::{failed_before_rows, query_rows, run_script};
use crate::session::{
    all_succeeded, carried_on, commit_needs_every_success, ran, started, step_after, successes,
    transaction_succeeds_when_every_step_does, verdict_of, Failure, Step,
};
use crate::text::{chars_of, contains_folded, occurs_folded};

verus! {

impl Stored for ConversationRecord {
    open spec fn shape() -> Seq<ColumnKind> {
        seq![
            ColumnKind::Text,
            ColumnKind::Text,
            ColumnKind::Text,
            ColumnKind::Text,
            ColumnKind::Text,
            ColumnKind::Count,
        ]
    }

    open spec fn record_of(cells: Seq<Cell>) -> ConversationView {
        ConversationView {
            id: text_in(cells[0]),
            title: text_in(cells[1]),
            created_at: text_in(cells[2]),
            updated_at: text_in(cells[3]),
            model_used: text_in(cells[4]),
            message_count: match count_in(cells[5]) {
                Some(n) => n as nat,
                None => 0,
            },
        }
    }

    open spec fn key_of(v: ConversationView) -> Seq<char> {
        v.updated_at
    }

    fn columns() -> (shape: Vec<ColumnKind>) {
        let shape = vec![
            ColumnKind::Text,
            ColumnKind::Text,
            ColumnKind::Text,
            ColumnKind::Text,
            ColumnKind::Text,
            ColumnKind::Count,
        ];
        assert(shape@ =~= Self::shape());
        shape
    }

    fn build(cells: &Vec<Cell>) -> (r: Self) {
        assert(cells@.len() == 6);
        ConversationRecord {
            id: text_of(&cells[0]),
            title: text_of(&cells[1]),
            created_at: text_of(&cells[2]),
            updated_at: text_of(&cells[3]),
            model_used: text_of(&cells[4]),
            message_count: match count_of(&cells[5]) {
                Some(n) => n,
                None => 0,
            },
        }
    }

    fn key(&self) -> (k: Vec<char>) {
        chars_of(self.updated_at.as_str())
    }
}

impl Stored for MessageRecord {
    open spec fn shape() -> Seq<ColumnKind> {
        seq![
            ColumnKind::Text,
            ColumnKind::Text,
            ColumnKind::Text,
            ColumnKind::Text,
            ColumnKind::Text,
            ColumnKind::OptionalCount,
        ]
    }

    open spec fn record_of(cells: Seq<Cell>) -> MessageView {
        MessageView {
            id: text_in(cells[0]),
            conversation_id: text_in(cells[1]),
            role: text_in(cells[2]),
            content: text_in(cells[3]),
            timestamp: text_in(cells[4]),
            tokens_used: count_in(cells[5]),
        }
    }

    open spec fn key_of(v: MessageView) -> Seq<char> {
        v.timestamp
    }

    fn columns() -> (shape: Vec<ColumnKind>) {
        let shape = vec![
            ColumnKind::Text,
            ColumnKind::Text,
            ColumnKind::Text,
            ColumnKind::Text,
            ColumnKind::Text,
            ColumnKind::OptionalCount,
        ];
        assert(shape@ =~= Self::shape());
        shape
    }

    fn build(cells: &Vec<Cell>) -> (r: Self) {
        assert(cells@.len() == 6);
        MessageRecord {
            id: text_of(&cells[0]),
            conversation_id: text_of(&cells[1]),
            role: text_of(&cells[2]),
            content: text_of(&cells[3]),
            timestamp: text_of(&cells[4]),
            tokens_used: count_of(&cells[5]),
        }
    }

    fn key(&self) -> (k: Vec<char>) {
        chars_of(self.timestamp.as_str())
    }
}

/// Opens the database at `db_path`, creating the file when it is missing,
/// and creates every table and index of the schema that is missing. Safe
/// on every start: nothing that exists is dropped or emptied.
pub fn init_database(db_path: &str) -> (r: Result<(), StorageError>)
    ensures
        r matches Err(StorageError::Open { .. }) || exists|outcomes: Seq<Result<(), String>>|
            schema_ensured(outcomes, r),
        r matches Err(e) ==> e is Open || e is Schema,
{
    match open_database(db_path) {
        Ok(conn) => ensure_schema(&conn),
        Err(e) => Err(StorageError::Open { detail: describe(&e) }),
    }
}

/// What a statement of a save writes: the first the header, each later
/// one the message at the position before its own.
pub open spec fn target_of(index: usize) -> WriteTarget {
    if index == 0 {
        WriteTarget::Conversation
    } else {
        WriteTarget::Message((index - 1) as usize)
    }
}

/// What a failed save is reported as.
pub open spec fn save_failure_of(failure: Failure) -> StorageError {
    match failure {
        Failure::Begin { detail } => StorageError::Begin { detail },
        Failure::Statement { index, detail } => StorageError::Write {
            target: target_of(index),
            detail,
        },
        Failure::Commit { detail } => StorageError::Commit { detail },
    }
}

/// Turns the failure of a save's run into the failure that is reported.
pub fn save_failure(failure: Failure) -> (e: StorageError)
    ensures
        e == save_failure_of(failure),
{
    match failure {
        Failure::Begin { detail } => StorageError::Begin { detail },
        Failure::Statement { index, detail } => {
            let target = if index == 0 {
                WriteTarget::Conversation
            } else {
                WriteTarget::Message(index - 1)
            };
            StorageError::Write { target, detail }
        },
        Failure::Commit { detail } => StorageError::Commit { detail },
    }
}

/// A save is atomic: its transaction commits exactly when it has begun
/// and the header and every message have been written, which makes one
/// success more than there are messages and one for the beginning; once a
/// step has failed, no commit is due any more.
pub proof fn save_commits_after_every_write(
    c: ConversationView,
    messages: Seq<MessageView>,
    outcomes: Seq<bool>,
)
    requires
        messages.len() < usize::MAX,
    ensures
        step_after(true, save_plan_of(c, messages).len(), outcomes) == Step::Commit <==> (
        outcomes.len() == messages.len() + 2 && all_succeeded(outcomes)),
{
    commit_needs_every_success(save_plan_of(c, messages).len(), outcomes);
}

/// What a save reports of a run that ended as `run` says.
pub open spec fn save_reported(run: Result<(), Failure>) -> Result<(), StorageError> {
    match run {
        Ok(()) => Ok(()),
        Err(failure) => Err(save_failure_of(failure)),
    }
}

/// `r` is the result of saving a conversation with `messages` messages
/// when the steps of its transaction went as `outcomes` says: the begin,
/// the header, each message in turn and the commit, or up to the first
/// that failed and the rollback after a failed write.
pub open spec fn saved(messages: nat, outcomes: Seq<Result<(), String>>, r: Result<
    (),
    StorageError,
>) -> bool {
    let len = (messages + 1) as usize;
    let run = verdict_of(carried_on(started(true, len), outcomes));
    messages < usize::MAX && ran(true, len, outcomes, run) && r == save_reported(run)
}

/// A save succeeds exactly when the transaction was begun, the header and
/// every message were written and the commit succeeded, which are three
/// steps more than there are messages; in every other case it fails, and
/// no commit was taken after the failure.
pub proof fn save_succeeds_when_every_step_does(
    messages: nat,
    outcomes: Seq<Result<(), String>>,
    r: Result<(), StorageError>,
)
    requires
        saved(messages, outcomes, r),
    ensures
        r is Ok <==> (outcomes.len() == messages + 3 && all_succeeded(successes(outcomes))),
{
    let len = (messages + 1) as usize;
    let run = verdict_of(carried_on(started(true, len), outcomes));
    transaction_succeeds_when_every_step_does(len, outcomes, run);
}

/// Saves a conversation with its messages, all or nothing. The header and
/// every message are written inside one transaction, the header first,
/// each replacing the row that has the same id; the transaction commits
/// only after the last write, and the first write that fails rolls back
/// every write before it. An empty list of messages saves the header
/// alone. The counts are handed over as numerals; the engine keeps one
/// as an integer up to 2^63 - 1, and a larger one is not read back.
pub fn save_conversation(
    db_path: &str,
    conversation: &ConversationRecord,
    messages: &Vec<MessageRecord>,
) -> (r: Result<(), StorageError>)
    ensures
        r matches Err(StorageError::Open { .. }) || exists|outcomes: Seq<Result<(), String>>|
            saved(messages@.len(), outcomes, r),
        r matches Err(e) ==> (match e {
            StorageError::Open { .. } => true,
            StorageError::Begin { .. } => true,
            StorageError::Write { target, .. } => match target {
                WriteTarget::Conversation => true,
                WriteTarget::Message(i) => i < messages@.len(),
                WriteTarget::Document => false,
            },
            StorageError::Commit { .. } => true,
            _ => false,
        }),
{
    let plan = save_plan(conversation, messages);
    assert(plan@.len() == views(plan@).len());
    let conn = match open_database(db_path) {
        Ok(conn) => conn,
        Err(e) => {
            return Err(StorageError::Open { detail: describe(&e) });
        },
    };
    let result = run_script(&conn, true, &plan);
    let ghost run = result;
    let ghost outcomes = choose|outcomes: Seq<Result<(), String>>|
        ran(true, plan.len(), outcomes, run);
    let r = match result {
        Ok(()) => Ok(()),
        Err(failure) => Err(save_failure(failure)),
    };
    assert(saved(messages@.len(), outcomes, r));
    r
}

/// The text of the query that lists the conversations, without a limit.
pub open spec fn conversations_sql() -> Seq<char> {
    "SELECT id, title, created_at, updated_at, model_used, message_count FROM conversations ORDER BY updated_at DESC"@
}

/// The text of the query that lists the messages of a conversation.
pub open spec fn messages_sql() -> Seq<char> {
    "SELECT id, conversation_id, role, content, timestamp, tokens_used FROM messages WHERE conversation_id = ?1 ORDER BY timestamp ASC"@
}

/// The text of the query that searches the message history, without its
/// limit.
pub open spec fn history_sql() -> Seq<char> {
    "SELECT id, conversation_id, role, content, timestamp, tokens_used FROM messages WHERE content LIKE ?1 ESCAPE '\\' ORDER BY timestamp DESC"@
}

/// The query that lists the conversations, the most recently updated
/// first, as many as the limit allows.
pub open spec fn conversations_query_of(limit: Option<usize>) -> CommandView {
    CommandView { sql: conversations_sql() + limit_clause_of(limit), params: Seq::empty() }
}

/// The query that lists the messages of one conversation, the oldest
/// first.
pub open spec fn messages_query_of(conversation_id: Seq<char>) -> CommandView {
    CommandView { sql: messages_sql(), params: seq![Some(conversation_id)] }
}

/// The number of messages that a search returns at most: 50 when the
/// caller names no limit.
pub open spec fn history_limit_of(limit: Option<usize>) -> usize {
    match limit {
        Some(n) => n,
        None => 50,
    }
}

/// The query that searches the message history: the messages whose
/// content holds the query's text, the newest first, within the limit.
pub open spec fn history_query_of(query: Seq<char>, limit: Option<usize>) -> CommandView {
    CommandView {
        sql: history_sql() + limit_clause_of(Some(history_limit_of(limit))),
        params: seq![Some(like_pattern_of(query))],
    }
}

/// The command that lists the conversations.
pub fn conversations_query(limit: Option<usize>) -> (c: Command)
    ensures
        c@ == conversations_query_of(limit),
{
    let mut sql = String::from_str(
        "SELECT id, title, created_at, updated_at, model_used, message_count FROM conversations ORDER BY updated_at DESC",
    );
    sql.append(limit_clause(limit).as_str());
    let c = Command { sql, params: Vec::new() };
    assert(c@.params =~= Seq::empty());
    c
}

/// The command that lists the messages of one conversation.
pub fn messages_query(conversation_id: &str) -> (c: Command)
    ensures
        c@ == messages_query_of(conversation_id@),
{
    let mut params: Vec<Option<String>> = Vec::new();
    params.push(Some(String::from_str(conversation_id)));
    let c = Command {
        sql: String::from_str(
            "SELECT id, conversation_id, role, content, timestamp, tokens_used FROM messages WHERE conversation_id = ?1 ORDER BY timestamp ASC",
        ),
        params,
    };
    assert(c@.params =~= seq![Some(conversation_id@)]);
    c
}

/// The limit of a search of the message history.
pub fn history_limit(limit: Option<usize>) -> (n: usize)
    ensures
        n == history_limit_of(limit),
{
    match limit {
        Some(n) => n,
        None => 50,
    }
}

/// The command that searches the message history.
pub fn history_query(query: &str, limit: Option<usize>) -> (c: Command)
    ensures
        c@ == history_query_of(query@, limit),
{
    let mut sql = String::from_str(
        "SELECT id, conversation_id, role, content, timestamp, tokens_used FROM messages WHERE content LIKE ?1 ESCAPE '\\' ORDER BY timestamp DESC",
    );
    sql.append(limit_clause(Some(history_limit(limit))).as_str());
    let mut params: Vec<Option<String>> = Vec::new();
    params.push(Some(like_pattern(query)));
    let c = Command { sql, params };
    assert(c@.params =~= seq![Some(like_pattern_of(query@))]);
    c
}

/// The conversations, ordered by `updated_at` with the most recent first:
/// all of them without a limit, the first `limit` of them with one. An
/// empty table gives an empty list.
pub fn load_conversations(db_path: &str, limit: Option<usize>) -> (r: Result<
    Vec<ConversationRecord>,
    StorageError,
>)
    ensures
        r matches Ok(records) ==> {
            &&& ordered(keys_of::<ConversationRecord>(views(records@)), true)
            &&& limit matches Some(n) ==> records@.len() <= n
        },
        failed_before_rows(r) || exists|rows: Seq<Result<Vec<Cell>, String>>|
            listed::<ConversationRecord>(rows, true, limit, r),
{
    let rows = query_rows(db_path, &conversations_query(limit), 6)?;
    let records = listing::<ConversationRecord>(&rows, true, limit)?;
    proof {
        assert(listed::<ConversationRecord>(rows@, true, limit, Ok(records)));
        let all = keys_of::<ConversationRecord>(records_of::<ConversationRecord>(rows@));
        let n = bounded_len(rows@.len(), limit) as int;
        assert(keys_of::<ConversationRecord>(views(records@)) =~= all.take(n));
        assert(views(records@).len() == records@.len());
    }
    Ok(records)
}

/// The messages of one conversation, ordered by `timestamp` with the
/// oldest first. A conversation without messages, or one that does not
/// exist, gives an empty list.
pub fn load_conversation_messages(db_path: &str, conversation_id: &str) -> (r: Result<
    Vec<MessageRecord>,
    StorageError,
>)
    ensures
        r matches Ok(records) ==> ordered(keys_of::<MessageRecord>(views(records@)), false),
        failed_before_rows(r) || exists|rows: Seq<Result<Vec<Cell>, String>>|
            listed::<MessageRecord>(rows, false, None, r),
{
    let rows = query_rows(db_path, &messages_query(conversation_id), 6)?;
    let records = listing::<MessageRecord>(&rows, false, None)?;
    proof {
        assert(listed::<MessageRecord>(rows@, false, None, Ok(records)));
        assert(views(records@) =~= records_of::<MessageRecord>(rows@));
    }
    Ok(records)
}

/// The message's content holds the query, upper and lower case ASCII
/// letters taken as equal.
pub open spec fn message_matches(m: MessageView, query: Seq<char>) -> bool {
    occurs_folded(m.content, query)
}

/// The messages among `messages` whose content holds the query, in their
/// order.
pub open spec fn matching_messages(messages: Seq<MessageView>, query: Seq<char>) -> Seq<
    MessageView,
> {
    messages.filter(|m: MessageView| message_matches(m, query))
}

/// Keeps the messages whose content holds the query.
pub fn keep_matching(messages: Vec<MessageRecord>, query: &str) -> (r: Vec<MessageRecord>)
    ensures
        views(r@) == matching_messages(views(messages@), query@),
{
    let needle = chars_of(query);
    let mut r: Vec<MessageRecord> = Vec::new();
    let ghost all = views(messages@);
    let ghost pred = |m: MessageView| message_matches(m, query@);
    proof {
        reveal(Seq::filter);
        assert(all.take(0) =~= Seq::<MessageView>::empty());
    }
    for m in it: messages
        invariant
            needle@ == query@,
            all == views(it.seq()),
            pred == (|m: MessageView| message_matches(m, query@)),
            views(r@) == all.take(it.index() as int).filter(pred),
    {
        let ghost i = it.index() as int;
        let hay = chars_of(m.content.as_str());
        let hit = contains_folded(&hay, &needle);
        proof {
            reveal(Seq::filter);
            let upto = all.take(i + 1);
            assert(upto.drop_last() =~= all.take(i));
            assert(upto.last() == m@);
        }
        if hit {
            let ghost before = r@;
            r.push(m);
            assert(views(r@) =~= views(before).push(m@));
        }
    }
    assert(all.take(all.len() as int) =~= all);
    r
}

/// `r` is what a search of the message history makes of `rows`: as a
/// listing, of the messages whose content holds the query, newest first,
/// within the limit, which is 50 when none is named.
pub open spec fn history_listed(
    rows: Seq<Result<Vec<Cell>, String>>,
    query: Seq<char>,
    limit: Option<usize>,
    r: Result<Vec<MessageRecord>, StorageError>,
) -> bool {
    match r {
        Ok(records) => {
            let kept = matching_messages(records_of::<MessageRecord>(rows), query);
            &&& forall|i: int| 0 <= i < rows.len() ==> row_decodes::<MessageRecord>(rows[i])
            &&& ordered(keys_of::<MessageRecord>(kept), true)
            &&& views(records@) == kept.take(
                bounded_len(kept.len(), Some(history_limit_of(limit))) as int,
            )
        },
        Err(StorageError::Row { row, detail }) => {
            &&& row < rows.len()
            &&& forall|i: int| 0 <= i < row ==> row_decodes::<MessageRecord>(rows[i])
            &&& rows[row as int] matches Err(words) && words@ == detail@
        },
        Err(StorageError::Decode { row, column, fault }) => {
            &&& row < rows.len()
            &&& forall|i: int| 0 <= i < row ==> row_decodes::<MessageRecord>(rows[i])
            &&& rows[row as int] matches Ok(cells) && row_fault(
                cells@,
                MessageRecord::shape(),
                column,
                fault,
            )
        },
        Err(StorageError::Order { row }) => {
            let kept = matching_messages(records_of::<MessageRecord>(rows), query);
            &&& forall|i: int| 0 <= i < rows.len() ==> row_decodes::<MessageRecord>(rows[i])
            &&& disorder_at(keys_of::<MessageRecord>(kept), true, row)
        },
        Err(_) => false,
    }
}

/// What a search of the message history makes of the rows of its query:
/// every row is decoded; the messages whose content holds the query are
/// kept; they must have come newest first; the limit, 50 when none is
/// named, lets the first of them through.
pub fn history_listing(
    rows: &Vec<Result<Vec<Cell>, String>>,
    query: &str,
    limit: Option<usize>,
) -> (r: Result<Vec<MessageRecord>, StorageError>)
    ensures
        history_listed(rows@, query@, limit, r),
{
    let decoded = decode_rows::<MessageRecord>(rows)?;
    let kept = keep_matching(decoded, query);
    let checked = checked_order(kept, true)?;
    let records = bounded(checked, Some(history_limit(limit)));
    assert(views(records@) =~= views(checked@).take(
        bounded_len(checked@.len(), Some(history_limit_of(limit))) as int,
    ));
    Ok(records)
}

/// The messages whose content holds `query`, upper and lower case ASCII
/// letters taken as equal and every character of the query read as
/// itself, ordered by `timestamp` with the newest first, at most `limit`
/// of them, at most 50 when no limit is named. No match gives an empty
/// list.
pub fn search_conversation_history(db_path: &str, query: &str, limit: Option<usize>) -> (r: Result<
    Vec<MessageRecord>,
    StorageError,
>)
    ensures
        r matches Ok(records) ==> {
            &&& ordered(keys_of::<MessageRecord>(views(records@)), true)
            &&& records@.len() <= history_limit_of(limit)
            &&& forall|i: int|
                0 <= i < records@.len() ==> message_matches((#[trigger] records@[i])@, query@)
        },
        failed_before_rows(r) || exists|rows: Seq<Result<Vec<Cell>, String>>|
            history_listed(rows, query@, limit, r),
{
    let rows = query_rows(db_path, &history_query(query, limit), 6)?;
    let records = history_listing(&rows, query, limit)?;
    proof {
        assert(history_listed(rows@, query@, limit, Ok(records)));
        let kept = matching_messages(records_of::<MessageRecord>(rows@), query@);
        let n = bounded_len(kept.len(), Some(history_limit_of(limit))) as int;
        assert(keys_of::<MessageRecord>(views(records@)) =~= keys_of::<MessageRecord>(kept).take(n));
        assert(views(records@).len() == records@.len());
        let pred = |m: MessageView| message_matches(m, query@);
        assert forall|i: int| 0 <= i < records@.len() implies message_matches(
            (#[trigger] records@[i])@,
            query@,
        ) by {
            records_of::<MessageRecord>(rows@).lemma_filter_pred(pred, i);
            assert(views(records@)[i] == kept[i]);
        }
    }
    Ok(records)
}

} // verus!
