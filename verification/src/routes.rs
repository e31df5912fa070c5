//! The route table: which method and path reaches which handler.

pub mod cards;

use vstd::prelude::*;

verus! {

/// The request methods that the service answers.
#[derive(Clone, Copy, Debug, PartialEq, Eq, Structural)]
pub enum Method {
    Get,
    Post,
}

/// The handlers of the service.
#[derive(Clone, Copy, Debug, PartialEq, Eq, Structural)]
pub enum Handler {
    /// The liveness reply.
    Root,
    /// Creates a user.
    CreateUser,
    /// Lists every card.
    GetAllCards,
}

/// One binding of a method and a path to a handler.
#[derive(Clone, Copy, Debug, PartialEq, Eq)]
pub struct Route {
    pub method: Method,
    pub path: &'static str,
    pub handler: Handler,
}

/// What a [`Route`] stands for.
pub struct RouteView {
    pub method: Method,
    pub path: Seq<char>,
    pub handler: Handler,
}

impl View for Route {
    type V = RouteView;

    open spec fn view(&self) -> RouteView {
        RouteView { method: self.method, path: self.path@, handler: self.handler }
    }
}

/// The path of the liveness endpoint, and of a resource within its own table.
pub const ROOT_PATH: &'static str = "/";

/// The path of the `users` resource.
pub const USERS_PATH: &'static str = "/users";

/// The path of the `cards` resource.
pub const CARDS_PATH: &'static str = "/cards";

/// What each route of `table` stands for, in the same order.
pub open spec fn table_view(table: Seq<Route>) -> Seq<RouteView> {
    Seq::new(table.len(), |i: int| table[i]@)
}

/// The routes of the whole service, and no others.
pub open spec fn app_table() -> Seq<RouteView> {
    seq![
        RouteView { method: Method::Get, path: ROOT_PATH@, handler: Handler::Root },
        RouteView { method: Method::Post, path: USERS_PATH@, handler: Handler::CreateUser },
        RouteView { method: Method::Get, path: CARDS_PATH@, handler: Handler::GetAllCards },
    ]
}

/// Whether every path of `table` starts with a slash and no two of its
/// routes answer the same method on the same path.
pub open spec fn unambiguous(table: Seq<RouteView>) -> bool {
    &&& forall|i: int|
        0 <= i < table.len() ==> (#[trigger] table[i]).path.len() > 0 && table[i].path[0] == '/'
    &&& forall|i: int, j: int|
        0 <= i < j < table.len() ==> !((#[trigger] table[i]).method == (#[trigger] table[j]).method
            && table[i].path == table[j].path)
}

/// The route table of the whole service: `GET /`, `POST /users` and
/// `GET /cards`.
pub fn app() -> (table: Vec<Route>)
    ensures
        table_view(table@) == app_table(),
        table@.len() == app_table().len(),
{
    let table = vec![
        Route { method: Method::Get, path: ROOT_PATH, handler: Handler::Root },
        Route { method: Method::Post, path: USERS_PATH, handler: Handler::CreateUser },
        Route { method: Method::Get, path: CARDS_PATH, handler: Handler::GetAllCards },
    ];
    assert(table_view(table@) =~= app_table());
    table
}

/// A request reaches at most one handler: in the service's table every path
/// starts with a slash, and no two routes share method and path.
pub proof fn lemma_app_table_unambiguous()
    ensures
        unambiguous(app_table()),
{
    reveal_strlit("/");
    reveal_strlit("/users");
    reveal_strlit("/cards");
    let table = app_table();
    assert(table[0].path.len() == 1 && table[2].path.len() == 6);
}

} // verus!
