//! The schema initializer: the statements that make sure the two tables
//! exist, to be run on every start before the first request is served.

use vstd::prelude::*;
use crate::statement::{placeholders, Statement, StatementView};

verus! {

/// Creates `users` unless it exists: an id that the datastore assigns and
/// never reuses, and a username that is required and unique.
pub const CREATE_USERS: &'static str =
    "CREATE TABLE IF NOT EXISTS users (id INTEGER PRIMARY KEY AUTOINCREMENT, username TEXT NOT NULL UNIQUE)";

/// Creates `cards` unless it exists: the two faces of a card, both text.
pub const CREATE_CARDS: &'static str =
    "CREATE TABLE IF NOT EXISTS cards (front TEXT NOT NULL, back TEXT NOT NULL)";

/// What a statement starts with when it creates a table only where none of
/// that name exists, and otherwise leaves the store as it is.
pub const CREATE_IF_ABSENT: &'static str = "CREATE TABLE IF NOT EXISTS ";

/// What each statement of `statements` stands for, in the same order.
pub open spec fn statements_view(statements: Seq<Statement>) -> Seq<StatementView> {
    Seq::new(statements.len(), |i: int| statements[i]@)
}

/// The schema: first `users`, then `cards`.
pub open spec fn schema() -> Seq<StatementView> {
    seq![
        StatementView { sql: CREATE_USERS@, params: Seq::empty() },
        StatementView { sql: CREATE_CARDS@, params: Seq::empty() },
    ]
}

/// Whether `statement` is a conditional creation.
pub open spec fn conditional(statement: StatementView) -> bool {
    CREATE_IF_ABSENT@.is_prefix_of(statement.sql)
}

/// The statements to run, in order, before the service accepts traffic.
/// They are the same on every start; the caller treats a failure of any of
/// them as fatal.
pub fn initialize() -> (statements: Vec<Statement>)
    ensures
        statements_view(statements@) == schema(),
        statements@.len() == schema().len(),
{
    let statements = vec![Statement::plain(CREATE_USERS), Statement::plain(CREATE_CARDS)];
    assert(statements_view(statements@) =~= schema());
    statements
}

/// Every statement of the schema is a conditional creation, so running the
/// initializer again asks the datastore to create nothing that is there.
/// None has a placeholder, and none binds a value.
pub proof fn lemma_schema_is_conditional()
    ensures
        forall|i: int|
            0 <= i < schema().len() ==> conditional(#[trigger] schema()[i])
                && schema()[i].well_formed(),
{
    reveal_strlit("CREATE TABLE IF NOT EXISTS ");
    reveal_strlit(
        "CREATE TABLE IF NOT EXISTS users (id INTEGER PRIMARY KEY AUTOINCREMENT, username TEXT NOT NULL UNIQUE)",
    );
    reveal_strlit("CREATE TABLE IF NOT EXISTS cards (front TEXT NOT NULL, back TEXT NOT NULL)");
    assert(CREATE_IF_ABSENT@ =~= CREATE_USERS@.subrange(0, CREATE_IF_ABSENT@.len() as int));
    assert(CREATE_IF_ABSENT@ =~= CREATE_CARDS@.subrange(0, CREATE_IF_ABSENT@.len() as int));
    assert(placeholders(CREATE_USERS@) =~= Set::<int>::empty());
    assert(placeholders(CREATE_CARDS@) =~= Set::<int>::empty());
}

} // verus!
