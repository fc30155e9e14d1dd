//! What holds across calls, stated over the calls' own contracts.

use vstd::prelude::*;
use crate::database::Database;
use crate::hooks::better_sqlite3;
use crate::statement::{Statement, EMPTY_OBJECT};
use crate::trace::{line, Operation, Traced};

verus! {

/// Any handle prepares any text, and any statement accepts `run` with any
/// parameters.
pub proof fn lemma_prepare_and_run_accept_everything(
    db: Database,
    sql: String,
    statement: Statement,
    params: Option<String>,
)
    ensures
        call_requires(Database::prepare, (&db, sql)),
        call_requires(Statement::run, (&statement, params)),
{
}

/// A statement prepared from any text, run with any parameters, answers with
/// the empty object and announces the text it was prepared from.
pub proof fn lemma_prepared_statement_runs_to_empty_object(
    db: Database,
    sql: String,
    prepared: Traced<Statement>,
    params: Option<String>,
    ran: Traced<String>,
)
    requires
        call_ensures(Database::prepare, (&db, sql), prepared),
        call_ensures(Statement::run, (&prepared.value, params), ran),
    ensures
        prepared.value@ == sql@,
        ran.value@ == EMPTY_OBJECT@,
        ran.trace@ == line(Operation::Run, sql@),
{
}

/// Running a statement again answers as before, whatever the parameters of
/// either call.
pub proof fn lemma_run_repeats(
    statement: Statement,
    params1: Option<String>,
    first: Traced<String>,
    params2: Option<String>,
    second: Traced<String>,
)
    requires
        call_ensures(Statement::run, (&statement, params1), first),
        call_ensures(Statement::run, (&statement, params2), second),
    ensures
        first.value@ == second.value@,
        first.trace@ == second.trace@,
{
}

/// Asking a statement for a row again answers as before: with no row,
/// whatever the parameters of either call.
pub proof fn lemma_get_repeats(
    statement: Statement,
    params1: Option<String>,
    first: Traced<Option<String>>,
    params2: Option<String>,
    second: Traced<Option<String>>,
)
    requires
        call_ensures(Statement::get, (&statement, params1), first),
        call_ensures(Statement::get, (&statement, params2), second),
    ensures
        first.value is None,
        second.value is None,
        first.trace@ == second.trace@,
{
}

/// Asking a statement for all rows again answers as before: with no rows,
/// whatever the parameters of either call.
pub proof fn lemma_all_repeats(
    statement: Statement,
    params1: Option<String>,
    first: Traced<Vec<String>>,
    params2: Option<String>,
    second: Traced<Vec<String>>,
)
    requires
        call_ensures(Statement::all, (&statement, params1), first),
        call_ensures(Statement::all, (&statement, params2), second),
    ensures
        first.value@.len() == 0,
        second.value@.len() == 0,
        first.trace@ == second.trace@,
{
}

/// Closing forbids nothing. Whatever `close` answered, the handle accepts
/// every call with every text, `close` included, and a call made then answers
/// as it would have before.
pub proof fn lemma_close_forbids_nothing(
    db: Database,
    closed: Traced<()>,
    text: String,
    prepared: Traced<Statement>,
    done: Traced<()>,
    asked: Traced<Option<String>>,
    closed_again: Traced<()>,
)
    requires
        call_ensures(Database::close, (&db,), closed),
    ensures
        call_requires(Database::prepare, (&db, text)),
        call_requires(Database::exec, (&db, text)),
        call_requires(Database::pragma, (&db, text)),
        call_requires(Database::close, (&db,)),
        call_ensures(Database::prepare, (&db, text), prepared) ==> prepared.value@ == text@
            && prepared.trace@ == line(Operation::Prepare, text@),
        call_ensures(Database::exec, (&db, text), done) ==> done.trace@ == line(
            Operation::Exec,
            text@,
        ),
        call_ensures(Database::pragma, (&db, text), asked) ==> asked.value is None
            && asked.trace@ == line(Operation::Pragma, text@),
        call_ensures(Database::close, (&db,), closed_again) ==> closed_again.trace@
            == closed.trace@,
{
}

/// The free-standing constructor and `Database::new` cannot be told apart:
/// on the same arguments both give a handle with the same path and announce
/// it with the same line.
pub proof fn lemma_constructors_agree(
    path: String,
    options: Option<String>,
    direct: Traced<Database>,
    aliased: Traced<Database>,
)
    requires
        call_ensures(Database::new, (path, options), direct),
        call_ensures(better_sqlite3, (path, options), aliased),
    ensures
        direct.value@ == path@,
        aliased.value@ == direct.value@,
        aliased.trace@ == direct.trace@,
{
}

} // verus!
