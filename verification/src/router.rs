//! The routing table: which method and path reach which handler.

use vstd::prelude::*;
use crate::counter::Operation;
use crate::http::Method;
use crate::text::str_eq;

verus! {

/// What a request can ask for.
#[derive(Clone, Copy, Debug, PartialEq, Eq)]
pub enum Route {
    /// `GET /`: the page with the current count.
    CounterPage,
    /// `POST /increment`, `POST /decrement`, `POST /reset`: a change to the
    /// counter.
    Change(Operation),
    /// `GET /hello`: the fixed greeting.
    Hello,
}

impl Route {
    /// Whether serving the route reads or writes the counter.
    pub open spec fn needs_counter(self) -> bool {
        self != Route::Hello
    }
}

/// The route that a method and a path select. Both have to match exactly:
/// a path with a trailing slash, a query left on it, or another case selects
/// nothing, and so does a known path under another method.
pub open spec fn route_of(method: Method, path: Seq<char>) -> Option<Route> {
    match method {
        Method::Get => {
            if path == "/"@ {
                Some(Route::CounterPage)
            } else if path == "/hello"@ {
                Some(Route::Hello)
            } else {
                None
            }
        },
        Method::Post => {
            if path == "/increment"@ {
                Some(Route::Change(Operation::Increment))
            } else if path == "/decrement"@ {
                Some(Route::Change(Operation::Decrement))
            } else if path == "/reset"@ {
                Some(Route::Change(Operation::Reset))
            } else {
                None
            }
        },
        Method::Other => None,
    }
}

/// Looks up the route for a request; `None` where no route matches.
pub fn route(method: Method, path: &str) -> (found: Option<Route>)
    ensures
        found == route_of(method, path@),
{
    match method {
        Method::Get => {
            if str_eq(path, "/") {
                Some(Route::CounterPage)
            } else if str_eq(path, "/hello") {
                Some(Route::Hello)
            } else {
                None
            }
        },
        Method::Post => {
            if str_eq(path, "/increment") {
                Some(Route::Change(Operation::Increment))
            } else if str_eq(path, "/decrement") {
                Some(Route::Change(Operation::Decrement))
            } else if str_eq(path, "/reset") {
                Some(Route::Change(Operation::Reset))
            } else {
                None
            }
        },
        Method::Other => None,
    }
}

} // verus!
