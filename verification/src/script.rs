//! Running commands against the engine: a list of statements, step by
//! step as the session decides, and a query with its rows.

use vstd::prelude::*;
use crate::command::Command;
use crate::engine::{
    begin, commit, connection_of, describe, execute, fetch_rows, open_database, prepare, rollback,
    Cell,
};
use crate::error::StorageError;
use crate::session::{in_course, in_course_push, ran, verdict_of, Failure, Session, Step};

verus! {

/// The outcome of an engine call as the session takes it: success, or the
/// engine's words.
pub(crate) fn outcome_of<T>(r: Result<T, rusqlite::Error>) -> (o: Result<(), String>)
    ensures
        o is Ok == r is Ok,
{
    match r {
        Ok(_) => Ok(()),
        Err(e) => Err(describe(&e)),
    }
}

/// What is known of a session's failure: a failed statement is one of the
/// list, and a run outside a transaction fails at a statement only.
pub open spec fn failure_fits(session: Session) -> bool {
    match session.failure {
        Some(Failure::Statement { index, .. }) => index < session.len,
        Some(_) => session.transactional,
        None => true,
    }
}

/// How many steps the session may still take through the statements.
pub open spec fn statements_left(session: Session) -> nat {
    match session.due {
        Step::Run(i) => (session.len - i) as nat,
        _ => 0,
    }
}

/// Runs the statements that are due, one after the other, until one fails
/// or none is left. The course of the session is carried along.
fn run_statements(
    conn: &rusqlite::Connection,
    commands: &Vec<Command>,
    session: &mut Session,
    Ghost(start): Ghost<Session>,
    Ghost(so_far): Ghost<Seq<Result<(), String>>>,
) -> (taken: Ghost<Seq<Result<(), String>>>)
    requires
        old(session).wf(),
        old(session).len == commands@.len(),
        failure_fits(*old(session)),
        in_course(start, so_far, *old(session)),
    ensures
        final(session).wf(),
        final(session).len == old(session).len,
        final(session).transactional == old(session).transactional,
        failure_fits(*final(session)),
        !(final(session).due is Run),
        !(old(session).due is Begin) ==> !(final(session).due is Begin),
        !final(session).transactional ==> final(session).due is Done || final(session).due
            == old(session).due,
        in_course(start, taken@, *final(session)),
{
    let ghost mut taken = so_far;
    loop
        invariant
            session.wf(),
            session.len == commands@.len(),
            session.len == old(session).len,
            session.transactional == old(session).transactional,
            failure_fits(*session),
            !(old(session).due is Begin) ==> !(session.due is Begin),
            !session.transactional ==> session.due is Done || session.due is Run || session.due
                == old(session).due,
            in_course(start, taken, *session),
        ensures
            !(session.due is Run),
        decreases statements_left(*session),
    {
        match session.due {
            Step::Run(i) => {
                let r = execute(conn, commands[i].sql.as_str(), &commands[i].params);
                let outcome = outcome_of(r);
                proof {
                    in_course_push(start, taken, *session, outcome);
                    taken = taken.push(outcome);
                }
                session.advance(outcome);
            },
            _ => {
                break ;
            },
        }
    }
    Ghost(taken)
}

/// Runs `commands` in order on `conn`, as the session decides: every step
/// is taken in its turn until nothing is due, and the session's verdict is
/// the result. Inside a transaction, the run begins it, commits after the
/// last statement and rolls back at the first that fails; outside, each
/// statement stands on its own and the first that fails ends the run. An
/// empty list outside a transaction takes no step and succeeds.
pub(crate) fn run_script(conn: &rusqlite::Connection, transactional: bool, commands: &Vec<Command>) -> (r:
    Result<(), Failure>)
    ensures
        exists|outcomes: Seq<Result<(), String>>| ran(transactional, commands.len(), outcomes, r),
        r matches Err(Failure::Statement { index, .. }) ==> index < commands@.len(),
        r matches Err(Failure::Begin { .. }) ==> transactional,
        r matches Err(Failure::Commit { .. }) ==> transactional,
        !transactional && commands@.len() == 0 ==> r is Ok,
{
    let mut session = Session::start(transactional, commands.len());
    let ghost start = session;
    let ghost mut taken: Seq<Result<(), String>> = Seq::empty();
    assert(in_course(start, taken, session));
    if transactional {
        match begin(conn) {
            Ok(tx) => {
                proof {
                    in_course_push(start, taken, session, Ok(()));
                    taken = taken.push(Ok(()));
                }
                session.advance(Ok(()));
                let Ghost(after) = run_statements(
                    connection_of(&tx),
                    commands,
                    &mut session,
                    Ghost(start),
                    Ghost(taken),
                );
                proof {
                    taken = after;
                }
                match session.due {
                    Step::Commit => {
                        let outcome = outcome_of(commit(tx));
                        proof {
                            in_course_push(start, taken, session, outcome);
                            taken = taken.push(outcome);
                        }
                        session.advance(outcome);
                    },
                    Step::Rollback => {
                        let outcome = outcome_of(rollback(tx));
                        proof {
                            in_course_push(start, taken, session, outcome);
                            taken = taken.push(outcome);
                        }
                        session.advance(outcome);
                    },
                    _ => {},
                }
            },
            Err(e) => {
                let outcome: Result<(), String> = Err(describe(&e));
                proof {
                    in_course_push(start, taken, session, outcome);
                    taken = taken.push(outcome);
                }
                session.advance(outcome);
            },
        }
    } else {
        let Ghost(after) = run_statements(conn, commands, &mut session, Ghost(start), Ghost(taken));
        proof {
            taken = after;
        }
    }
    assert(session.due == Step::Done);
    assert(ran(transactional, commands.len(), taken, verdict_of(session)));
    session.verdict()
}

/// The engine failed before it handed over a row: the database could not
/// be opened, or the query was refused.
pub open spec fn failed_before_rows<T>(r: Result<T, StorageError>) -> bool {
    r matches Err(e) && (e is Open || e is Prepare || e is Query)
}

/// The rows of the engine with each failure in words.
pub(crate) fn plain_rows(rows: Vec<Result<Vec<Cell>, rusqlite::Error>>) -> (r: Vec<
    Result<Vec<Cell>, String>,
>)
    ensures
        r@.len() == rows@.len(),
        forall|i: int|
            0 <= i < rows@.len() ==> (match rows@[i] {
                Ok(cells) => #[trigger] r@[i] == Ok::<Vec<Cell>, String>(cells),
                Err(_) => r@[i] is Err,
            }),
{
    let mut r: Vec<Result<Vec<Cell>, String>> = Vec::new();
    let ghost all = rows@;
    for row in it: rows
        invariant
            it.seq() == all,
            r@.len() == it.index(),
            forall|k: int|
                0 <= k < it.index() ==> (match all[k] {
                    Ok(cells) => #[trigger] r@[k] == Ok::<Vec<Cell>, String>(cells),
                    Err(_) => r@[k] is Err,
                }),
    {
        match row {
            Ok(cells) => r.push(Ok(cells)),
            Err(e) => r.push(Err(describe(&e))),
        }
    }
    r
}

/// Runs a query on the database at `db_path` and hands back its rows, each
/// with `width` cells or the engine's words for why it has none.
pub(crate) fn query_rows(db_path: &str, command: &Command, width: usize) -> (r: Result<
    Vec<Result<Vec<Cell>, String>>,
    StorageError,
>)
    ensures
        r is Err ==> failed_before_rows(r),
{
    let conn = match open_database(db_path) {
        Ok(conn) => conn,
        Err(e) => {
            return Err(StorageError::Open { detail: describe(&e) });
        },
    };
    let mut statement = match prepare(&conn, command.sql.as_str()) {
        Ok(statement) => statement,
        Err(e) => {
            return Err(StorageError::Prepare { detail: describe(&e) });
        },
    };
    match fetch_rows(&mut statement, &command.params, width) {
        Ok(rows) => Ok(plain_rows(rows)),
        Err(e) => Err(StorageError::Query { detail: describe(&e) }),
    }
}

} // verus!
