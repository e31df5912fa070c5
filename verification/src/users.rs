//! The `users` resource: creating a user.
//!
//! The handler is split around its one datastore call.
//! [`prepare_create_user`] turns the parsed request body into the statement to
//! run, or into the rejection to send; [`create_user`] turns what the
//! datastore answered into the reply.

use vstd::prelude::*;
use crate::statement::{placeholders, Statement, StatementView};
use crate::status::Status;

verus! {

/// Inserts one user and hands back the stored row. Its one placeholder takes
/// the username; the datastore assigns the id.
pub const INSERT_USER: &'static str =
    "INSERT INTO users (username) VALUES (?) RETURNING id, username";

/// The body of a request to create a user.
#[derive(Clone, Debug, PartialEq, Eq)]
pub struct CreateUser {
    pub username: String,
}

/// A stored user.
#[derive(Clone, Debug, PartialEq, Eq)]
pub struct User {
    pub id: i64,
    pub username: String,
}

/// What a [`CreateUser`] stands for.
pub struct CreateUserView {
    pub username: Seq<char>,
}

/// What a [`User`] stands for.
pub struct UserView {
    pub id: int,
    pub username: Seq<char>,
}

impl View for CreateUser {
    type V = CreateUserView;

    open spec fn view(&self) -> CreateUserView {
        CreateUserView { username: self.username@ }
    }
}

impl View for User {
    type V = UserView;

    open spec fn view(&self) -> UserView {
        UserView { id: self.id as int, username: self.username@ }
    }
}

/// A rejection or a failure as it is sent: the status and the message.
pub open spec fn refusal_view(refusal: (Status, String)) -> (Status, Seq<char>) {
    (refusal.0, refusal.1@)
}

/// The parsed body, or the parser's complaint.
pub open spec fn body_view(body: Result<CreateUser, String>) -> Result<
    CreateUserView,
    Seq<char>,
> {
    match body {
        Ok(payload) => Ok(payload@),
        Err(reason) => Err(reason@),
    }
}

/// The statement to run, or the rejection to send.
pub open spec fn plan_view(plan: Result<Statement, (Status, String)>) -> Result<
    StatementView,
    (Status, Seq<char>),
> {
    match plan {
        Ok(statement) => Ok(statement@),
        Err(refusal) => Err(refusal_view(refusal)),
    }
}

/// The stored row, or the datastore's error as text.
pub open spec fn outcome_view(outcome: Result<User, String>) -> Result<UserView, Seq<char>> {
    match outcome {
        Ok(user) => Ok(user@),
        Err(cause) => Err(cause@),
    }
}

/// The reply to a request to create a user.
pub open spec fn reply_view(reply: Result<(Status, User), (Status, String)>) -> Result<
    (Status, UserView),
    (Status, Seq<char>),
> {
    match reply {
        Ok((status, user)) => Ok((status, user@)),
        Err(refusal) => Err(refusal_view(refusal)),
    }
}

/// What is done with a request to create a user, before the datastore is
/// touched. A body that parsed is answered by one insert of exactly its
/// username. A body that did not parse is answered with 400 and the parser's
/// complaint, and nothing is run.
pub open spec fn create_user_plan(body: Result<CreateUserView, Seq<char>>) -> Result<
    StatementView,
    (Status, Seq<char>),
> {
    match body {
        Ok(payload) => Ok(StatementView { sql: INSERT_USER@, params: seq![payload.username] }),
        Err(reason) => Err((Status::BadRequest, reason)),
    }
}

/// The reply once the datastore has answered the insert. The stored row is
/// sent back unchanged with 201. Any failure of the datastore, a username
/// that is already taken among them, is sent back as 500 with the
/// datastore's own message.
pub open spec fn create_user_reply(outcome: Result<UserView, Seq<char>>) -> Result<
    (Status, UserView),
    (Status, Seq<char>),
> {
    match outcome {
        Ok(user) => Ok((Status::Created, user)),
        Err(cause) => Err((Status::InternalServerError, cause)),
    }
}

/// Decides what a request to create a user leads to: the statement to run,
/// or the rejection to send without running anything.
///
/// `body` is the request body as the JSON parser left it: the payload, or
/// the parser's complaint where the body was malformed or lacked `username`.
pub fn prepare_create_user(body: Result<CreateUser, String>) -> (plan: Result<
    Statement,
    (Status, String),
>)
    ensures
        plan_view(plan) == create_user_plan(body_view(body)),
{
    match body {
        Ok(payload) => Ok(Statement::with_text(INSERT_USER, payload.username)),
        Err(reason) => Err((Status::BadRequest, reason)),
    }
}

/// Turns the datastore's answer to [`INSERT_USER`] into the reply.
///
/// `outcome` is the row that the insert returned, or the datastore's error
/// as text.
pub fn create_user(outcome: Result<User, String>) -> (reply: Result<
    (Status, User),
    (Status, String),
>)
    ensures
        reply_view(reply) == create_user_reply(outcome_view(outcome)),
{
    match outcome {
        Ok(user) => Ok((Status::Created, user)),
        Err(cause) => Err((Status::InternalServerError, cause)),
    }
}

/// The status of a reply, whichever way it went.
pub open spec fn reply_status(reply: Result<(Status, UserView), (Status, Seq<char>)>) -> Status {
    match reply {
        Ok((status, _)) => status,
        Err((status, _)) => status,
    }
}

/// A request reaches the datastore exactly when its body parsed, as one
/// insert that binds the body's username and nothing else. A body that did
/// not parse is answered with 400, never with 500, and plans no statement.
pub proof fn lemma_insert_binds_the_username(body: Result<CreateUserView, Seq<char>>)
    ensures
        create_user_plan(body) is Ok <==> body is Ok,
        body matches Ok(payload) ==> create_user_plan(body) == Ok::<
            StatementView,
            (Status, Seq<char>),
        >(StatementView { sql: INSERT_USER@, params: seq![payload.username] }),
        body matches Err(reason) ==> create_user_plan(body) == Err::<
            StatementView,
            (Status, Seq<char>),
        >((Status::BadRequest, reason)),
{
}

/// The insert binds its one placeholder: the datastore is never handed a
/// statement with a value missing or left over.
pub proof fn lemma_insert_is_well_formed(payload: CreateUserView)
    ensures
        create_user_plan(Ok(payload)) matches Ok(statement) && statement.well_formed(),
{
    reveal_strlit("INSERT INTO users (username) VALUES (?) RETURNING id, username");
    assert(placeholders(INSERT_USER@) =~= set![37int]);
}

/// A user is reported as created exactly when the datastore stored the row:
/// the status is 201 if and only if the insert returned a row, and the reply
/// then carries that row's id and username unchanged. Whatever the datastore
/// refused, a username that is already taken included, is answered with 500
/// and the datastore's message.
pub proof fn lemma_created_iff_stored(outcome: Result<UserView, Seq<char>>)
    ensures
        reply_status(create_user_reply(outcome)) == Status::Created <==> outcome is Ok,
        outcome matches Ok(user) ==> create_user_reply(outcome) == Ok::<
            (Status, UserView),
            (Status, Seq<char>),
        >((Status::Created, user)),
        outcome matches Err(cause) ==> create_user_reply(outcome) == Err::<
            (Status, UserView),
            (Status, Seq<char>),
        >((Status::InternalServerError, cause)),
{
}

} // verus!
