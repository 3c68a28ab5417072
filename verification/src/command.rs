//! Commands for the engine as plain values: the text handed to the engine and its
//! positional parameters, each a text or `NULL`.

use vstd::prelude::*;
use vstd::string::*;
use crate::records::{ConversationRecord, ConversationView, MessageRecord, MessageView};
use crate::text::{chars_of, decimal, decimal_string, string_of};

verus! {

/// One statement for the engine, with its parameters.
#[derive(Debug, PartialEq, Eq)]
pub struct Command {
    pub sql: String,
    pub params: Vec<Option<String>>,
}

/// The view of a command: its text and parameters as character sequences.
pub struct CommandView {
    pub sql: Seq<char>,
    pub params: Seq<Option<Seq<char>>>,
}

/// The parameters of a statement, each text by its characters.
pub open spec fn params_view(params: Seq<Option<String>>) -> Seq<Option<Seq<char>>> {
    Seq::new(
        params.len(),
        |i: int|
            match params[i] {
                Some(s) => Some(s@),
                None => None,
            },
    )
}

impl View for Command {
    type V = CommandView;

    open spec fn view(&self) -> CommandView {
        CommandView { sql: self.sql@, params: params_view(self.params@) }
    }
}

/// The numeral of an optional count: `NULL` when there is none.
pub open spec fn optional_decimal(n: Option<usize>) -> Option<Seq<char>> {
    match n {
        Some(n) => Some(decimal(n as nat)),
        None => None,
    }
}

/// The text of the statement that writes a conversation's header.
pub open spec fn conversation_upsert_sql() -> Seq<char> {
    "INSERT OR REPLACE INTO conversations (id, title, created_at, updated_at, model_used, message_count) VALUES (?1, ?2, ?3, ?4, ?5, ?6)"@
}

/// The text of the statement that writes a message.
pub open spec fn message_upsert_sql() -> Seq<char> {
    "INSERT OR REPLACE INTO messages (id, conversation_id, role, content, timestamp, tokens_used) VALUES (?1, ?2, ?3, ?4, ?5, ?6)"@
}

/// The statement that writes a conversation's header: insert, or replace
/// the row that has the same id.
pub open spec fn conversation_upsert_of(c: ConversationView) -> CommandView {
    CommandView {
        sql: conversation_upsert_sql(),
        params: seq![
            Some(c.id),
            Some(c.title),
            Some(c.created_at),
            Some(c.updated_at),
            Some(c.model_used),
            Some(decimal(c.message_count)),
        ],
    }
}

/// The statement that writes one message: insert, or replace the row that
/// has the same id. A message without a token count stores `NULL`.
pub open spec fn message_upsert_of(m: MessageView) -> CommandView {
    CommandView {
        sql: message_upsert_sql(),
        params: seq![
            Some(m.id),
            Some(m.conversation_id),
            Some(m.role),
            Some(m.content),
            Some(m.timestamp),
            optional_decimal(m.tokens_used),
        ],
    }
}

/// What saving a conversation runs, in order: the header first, then each
/// message as it stands in the list.
pub open spec fn save_plan_of(c: ConversationView, messages: Seq<MessageView>) -> Seq<
    CommandView,
> {
    Seq::new(
        messages.len() + 1,
        |i: int|
            if i == 0 {
                conversation_upsert_of(c)
            } else {
                message_upsert_of(messages[i - 1])
            },
    )
}

/// Two saves of the same id write the same key with the same statement,
/// which replaces the row of that key: the second save's title is the one
/// that is handed to the engine for it.
pub proof fn same_id_writes_same_key(a: ConversationView, b: ConversationView)
    requires
        a.id == b.id,
    ensures
        conversation_upsert_of(a).sql == conversation_upsert_of(b).sql,
        conversation_upsert_of(a).params[0] == conversation_upsert_of(b).params[0],
        conversation_upsert_of(b).params[1] == Some(b.title),
{
}

/// The command that writes a conversation's header.
pub fn conversation_upsert(c: &ConversationRecord) -> (s: Command)
    ensures
        s@ == conversation_upsert_of(c@),
{
    let mut params: Vec<Option<String>> = Vec::new();
    params.push(Some(c.id.clone()));
    params.push(Some(c.title.clone()));
    params.push(Some(c.created_at.clone()));
    params.push(Some(c.updated_at.clone()));
    params.push(Some(c.model_used.clone()));
    params.push(Some(decimal_string(c.message_count as u64)));
    let s = Command {
        sql: String::from_str(
            "INSERT OR REPLACE INTO conversations (id, title, created_at, updated_at, model_used, message_count) VALUES (?1, ?2, ?3, ?4, ?5, ?6)",
        ),
        params,
    };
    assert(s@.params =~= conversation_upsert_of(c@).params);
    s
}

/// The command that writes one message.
pub fn message_upsert(m: &MessageRecord) -> (s: Command)
    ensures
        s@ == message_upsert_of(m@),
{
    let mut params: Vec<Option<String>> = Vec::new();
    params.push(Some(m.id.clone()));
    params.push(Some(m.conversation_id.clone()));
    params.push(Some(m.role.clone()));
    params.push(Some(m.content.clone()));
    params.push(Some(m.timestamp.clone()));
    params.push(
        match m.tokens_used {
            Some(t) => Some(decimal_string(t as u64)),
            None => None,
        },
    );
    let s = Command {
        sql: String::from_str(
            "INSERT OR REPLACE INTO messages (id, conversation_id, role, content, timestamp, tokens_used) VALUES (?1, ?2, ?3, ?4, ?5, ?6)",
        ),
        params,
    };
    assert(s@.params =~= message_upsert_of(m@).params);
    s
}

/// The statements that save a conversation with its messages.
pub fn save_plan(c: &ConversationRecord, messages: &Vec<MessageRecord>) -> (plan: Vec<Command>)
    ensures
        crate::records::views(plan@) == save_plan_of(c@, crate::records::views(messages@)),
{
    let mut plan: Vec<Command> = Vec::new();
    plan.push(conversation_upsert(c));
    let mut i: usize = 0;
    while i < messages.len()
        invariant
            i <= messages.len(),
            plan@.len() == i + 1,
            plan@[0]@ == conversation_upsert_of(c@),
            forall|k: int| 1 <= k <= i ==> (#[trigger] plan@[k])@ == message_upsert_of(
                messages@[k - 1]@,
            ),
        decreases messages.len() - i,
    {
        plan.push(message_upsert(&messages[i]));
        i += 1;
    }
    assert(crate::records::views(plan@) =~= save_plan_of(c@, crate::records::views(messages@)));
    plan
}

/// `q` with every character that a `LIKE` pattern reads as a wildcard, and
/// the escape character itself, behind a backslash.
pub open spec fn like_escaped(q: Seq<char>) -> Seq<char>
    decreases q.len(),
{
    if q.len() == 0 {
        Seq::empty()
    } else {
        let c = q.last();
        if c == '%' || c == '_' || c == '\\' {
            like_escaped(q.drop_last()).push('\\').push(c)
        } else {
            like_escaped(q.drop_last()).push(c)
        }
    }
}

/// The `LIKE` pattern that matches the texts in which `q` stands, read
/// letter by letter.
pub open spec fn like_pattern_of(q: Seq<char>) -> Seq<char> {
    seq!['%'] + like_escaped(q) + seq!['%']
}

/// The `LIKE` pattern for a query that is read letter by letter.
pub fn like_pattern(query: &str) -> (p: String)
    ensures
        p@ == like_pattern_of(query@),
{
    let q = chars_of(query);
    let mut v: Vec<char> = Vec::new();
    v.push('%');
    let mut i: usize = 0;
    while i < q.len()
        invariant
            i <= q.len(),
            v@ == seq!['%'] + like_escaped(q@.take(i as int)),
        decreases q.len() - i,
    {
        let c = q[i];
        proof {
            let t = q@.take(i + 1);
            assert(t.drop_last() =~= q@.take(i as int));
            assert(t.last() == c);
        }
        if c == '%' || c == '_' || c == '\\' {
            v.push('\\');
        }
        v.push(c);
        i += 1;
        assert(v@ =~= seq!['%'] + like_escaped(q@.take(i as int)));
    }
    assert(q@.take(q.len() as int) =~= q@);
    v.push('%');
    assert(v@ =~= like_pattern_of(query@));
    string_of(&v)
}

/// The largest number of rows that the engine counts.
pub const ENGINE_MAX_ROWS: u64 = 0x7fff_ffff_ffff_ffff;

/// The end of a query's text that bounds the number of rows. A limit
/// beyond what the engine counts bounds nothing and is left out.
pub open spec fn limit_clause_of(limit: Option<usize>) -> Seq<char> {
    match limit {
        Some(n) => if n <= ENGINE_MAX_ROWS {
            " LIMIT "@ + decimal(n as nat)
        } else {
            Seq::empty()
        },
        None => Seq::empty(),
    }
}

/// The end of a query's text for a limit: nothing without one.
pub fn limit_clause(limit: Option<usize>) -> (r: String)
    ensures
        r@ == limit_clause_of(limit),
{
    match limit {
        Some(n) => {
            if n as u64 <= ENGINE_MAX_ROWS {
                let mut r = String::from_str(" LIMIT ");
                r.append(decimal_string(n as u64).as_str());
                r
            } else {
                String::new()
            }
        },
        None => String::new(),
    }
}

} // verus!
