//! The route table: which handler answers which request.
//!
//! A request is matched on its method and its path, both exactly. The table
//! is fixed, and it is total: what matches no route goes to the fallback.

use vstd::prelude::*;
use crate::handlers::{
    handler_404, hello_handler, hello_reply, not_found_reply, root_handler, root_reply, Reply,
    ReplyView,
};
use crate::text::same_text;

verus! {

/// The handlers that a request can reach.
#[derive(Clone, Copy, Debug, PartialEq, Eq, Structural)]
pub enum Route {
    /// `GET /`
    Root,
    /// `GET /hello`
    Hello,
    /// Every other method and path.
    Fallback,
}

/// The route of a request with this method and this path. The method is
/// compared as it stands on the request line, so `get` is not `GET`; the path
/// is the request target without its query.
pub open spec fn route_of(method: Seq<char>, path: Seq<char>) -> Route {
    if method == "GET"@ && path == "/"@ {
        Route::Root
    } else if method == "GET"@ && path == "/hello"@ {
        Route::Hello
    } else {
        Route::Fallback
    }
}

/// The reply that the handler of `route` gives.
pub open spec fn reply_of(route: Route) -> ReplyView {
    match route {
        Route::Root => root_reply(),
        Route::Hello => hello_reply(),
        Route::Fallback => not_found_reply(),
    }
}

/// Looks a request up in the route table.
pub fn route(method: &str, path: &str) -> (found: Route)
    ensures
        found == route_of(method@, path@),
{
    if !same_text(method, "GET") {
        Route::Fallback
    } else if same_text(path, "/") {
        Route::Root
    } else if same_text(path, "/hello") {
        Route::Hello
    } else {
        Route::Fallback
    }
}

/// Calls the handler of `route`.
pub fn dispatch(route: Route) -> (reply: Reply)
    ensures
        reply@ == reply_of(route),
{
    match route {
        Route::Root => root_handler(),
        Route::Hello => hello_handler(),
        Route::Fallback => handler_404(),
    }
}

/// Answers a request: the welcome page for `GET /`, the greeting for
/// `GET /hello`, the not-found page for every other method and path, each
/// with the log record of its handler.
pub fn handle(method: &str, path: &str) -> (reply: Reply)
    ensures
        reply@ == reply_of(route_of(method@, path@)),
        method@ == "GET"@ && path@ == "/"@ ==> reply@ == root_reply(),
        method@ == "GET"@ && path@ == "/hello"@ ==> reply@ == hello_reply(),
        !(method@ == "GET"@ && (path@ == "/"@ || path@ == "/hello"@)) ==> reply@
            == not_found_reply(),
{
    proof {
        lemma_routes_are_distinct();
    }
    dispatch(route(method, path))
}

/// The two paths of the table differ, so no request matches two routes.
pub proof fn lemma_routes_are_distinct()
    ensures
        "/"@ != "/hello"@,
{
    reveal_strlit("/");
    reveal_strlit("/hello");
    assert("/"@.len() == 1);
    assert("/hello"@.len() == 6);
}

} // verus!
