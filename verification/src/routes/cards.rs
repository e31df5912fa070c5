//! The `cards` resource: listing every card.
//!
//! [`select_cards`] is the statement to run; [`get_all_cards`] turns what the
//! datastore answered into the reply.

use vstd::prelude::*;
use crate::routes::{Handler, Method, Route, RouteView, ROOT_PATH, table_view};
use crate::statement::{placeholders, Statement, StatementView};
use crate::status::Status;

verus! {

/// Reads the two columns of every row of `cards`.
pub const SELECT_CARDS: &'static str = "SELECT front, back FROM cards";

/// What the message of a failed listing starts with; the datastore's own
/// message follows.
pub const DATABASE_ERROR: &'static str = "Database error: ";

/// A stored card.
#[derive(Clone, Debug, PartialEq, Eq)]
pub struct Card {
    pub front: String,
    pub back: String,
}

/// What a [`Card`] stands for.
pub struct CardView {
    pub front: Seq<char>,
    pub back: Seq<char>,
}

impl View for Card {
    type V = CardView;

    open spec fn view(&self) -> CardView {
        CardView { front: self.front@, back: self.back@ }
    }
}

/// What each card of `cards` stands for, in the same order.
pub open spec fn cards_view(cards: Seq<Card>) -> Seq<CardView> {
    Seq::new(cards.len(), |i: int| cards[i]@)
}

/// The rows that the datastore returned, or its error as text.
pub open spec fn outcome_view(outcome: Result<Vec<Card>, String>) -> Result<
    Seq<CardView>,
    Seq<char>,
> {
    match outcome {
        Ok(cards) => Ok(cards_view(cards@)),
        Err(cause) => Err(cause@),
    }
}

/// The reply to a request for every card.
pub open spec fn reply_view(reply: Result<(Status, Vec<Card>), (Status, String)>) -> Result<
    (Status, Seq<CardView>),
    (Status, Seq<char>),
> {
    match reply {
        Ok((status, cards)) => Ok((status, cards_view(cards@))),
        Err((status, message)) => Err((status, message@)),
    }
}

/// The reply once the datastore has answered the listing. Every row that it
/// returned is sent back with 200, in the order in which it returned them;
/// no row gives the empty list. A failure of the datastore is sent back as
/// 500, with a message made of [`DATABASE_ERROR`] and the datastore's own.
pub open spec fn get_all_cards_reply(outcome: Result<Seq<CardView>, Seq<char>>) -> Result<
    (Status, Seq<CardView>),
    (Status, Seq<char>),
> {
    match outcome {
        Ok(cards) => Ok((Status::Okay, cards)),
        Err(cause) => Err((Status::InternalServerError, DATABASE_ERROR@ + cause)),
    }
}

/// The listing as a statement: its text, and no bound value.
pub open spec fn select_cards_plan() -> StatementView {
    StatementView { sql: SELECT_CARDS@, params: Seq::empty() }
}

/// The routes of the `cards` resource within its own table.
pub open spec fn cards_table() -> Seq<RouteView> {
    seq![RouteView { method: Method::Get, path: ROOT_PATH@, handler: Handler::GetAllCards }]
}

/// The statement that lists every card. It binds nothing.
pub fn select_cards() -> (statement: Statement)
    ensures
        statement@ == select_cards_plan(),
{
    Statement::plain(SELECT_CARDS)
}

/// Turns the datastore's answer to [`SELECT_CARDS`] into the reply.
///
/// `outcome` is the rows that the listing returned, or the datastore's error
/// as text.
pub fn get_all_cards(outcome: Result<Vec<Card>, String>) -> (reply: Result<
    (Status, Vec<Card>),
    (Status, String),
>)
    ensures
        reply_view(reply) == get_all_cards_reply(outcome_view(outcome)),
        outcome matches Ok(cards) ==> reply matches Ok((_, sent)) && sent@ == cards@,
{
    match outcome {
        Ok(cards) => Ok((Status::Okay, cards)),
        Err(cause) => {
            let mut message = DATABASE_ERROR.to_owned();
            message.append(cause.as_str());
            Err((Status::InternalServerError, message))
        },
    }
}

/// The listing has no placeholder and binds no value.
pub proof fn lemma_listing_is_well_formed()
    ensures
        select_cards_plan().well_formed(),
{
    reveal_strlit("SELECT front, back FROM cards");
    assert(placeholders(SELECT_CARDS@) =~= Set::<int>::empty());
}

/// The route table of the `cards` resource served on its own: `GET /`.
pub fn routes() -> (table: Vec<Route>)
    ensures
        table_view(table@) == cards_table(),
        table@.len() == cards_table().len(),
{
    let table = vec![Route { method: Method::Get, path: ROOT_PATH, handler: Handler::GetAllCards }];
    assert(table_view(table@) =~= cards_table());
    table
}

} // verus!
