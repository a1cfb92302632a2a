//! The service: what each request does to the counter and what it is
//! answered with.
//!
//! The handlers work on a state that the caller owns. A server that shares
//! the state between workers keeps it behind a lock: it asks [`plan`] what a
//! request needs, takes the lock only where the counter is needed, and hands
//! the state to [`serve`].

use vstd::prelude::*;
use vstd::string::*;
use crate::counter::{lemma_run_is_net_sum, net_sum, only_steps, run, wrap32, Counter, Operation};
use crate::http::{Body, BodyView, CounterResponse, Method, Response, ResponseView, Status};
use crate::page::{
    lemma_page_shows_count, occurs_at, page_text, render_page, COUNT_OPEN, HELLO, PAGE_HEAD,
};
use crate::router::{route, route_of, Route};
use crate::text::int_text;

verus! {

/// The state that the handlers share: the counter. Its view is the count.
#[derive(Clone, Copy, Debug, PartialEq, Eq)]
pub struct AppState {
    pub counter: Counter,
}

impl View for AppState {
    type V = int;

    open spec fn view(&self) -> int {
        self.counter@
    }
}

impl AppState {
    /// The state at start: the counter at zero.
    pub fn new() -> (state: AppState)
        ensures
            state@ == 0,
    {
        AppState { counter: Counter::new() }
    }
}

/// The reply that shows the page for the count `count`.
pub open spec fn page_reply(count: int) -> ResponseView {
    ResponseView { status: Status::Success, body: BodyView::Html(page_text(count)) }
}

/// The reply that reports the count `count` as JSON.
pub open spec fn count_reply(count: int) -> ResponseView {
    ResponseView { status: Status::Success, body: BodyView::Json(count) }
}

/// The reply that greets.
pub open spec fn hello_reply() -> ResponseView {
    ResponseView { status: Status::Success, body: BodyView::Html(HELLO@) }
}

/// The reply to a request that no route answers.
pub open spec fn not_found_reply() -> ResponseView {
    ResponseView { status: Status::NotFound, body: BodyView::Empty }
}

/// The reply to a request whose counter could not be reached.
pub open spec fn unavailable_reply() -> ResponseView {
    ResponseView { status: Status::ServerError, body: BodyView::Empty }
}

/// The count after `route` has been served on the count `state`.
pub open spec fn state_after(state: int, route: Route) -> int {
    match route {
        Route::Change(op) => op.after(state),
        _ => state,
    }
}

/// The reply to `route` served on the count `state`: a change answers with
/// the count it leaves, the page shows the count it finds.
pub open spec fn reply_to(state: int, route: Route) -> ResponseView {
    match route {
        Route::CounterPage => page_reply(state),
        Route::Change(op) => count_reply(op.after(state)),
        Route::Hello => hello_reply(),
    }
}

/// The count after the request `method` `path` has been handled on the count
/// `state`.
pub open spec fn state_after_request(state: int, method: Method, path: Seq<char>) -> int {
    match route_of(method, path) {
        Some(route) => state_after(state, route),
        None => state,
    }
}

/// The reply to the request `method` `path` handled on the count `state`.
pub open spec fn reply_to_request(state: int, method: Method, path: Seq<char>) -> ResponseView {
    match route_of(method, path) {
        Some(route) => reply_to(state, route),
        None => not_found_reply(),
    }
}

/// `GET /`: the page with the current count. The counter stays as it is.
pub fn counter_page(data: &AppState) -> (reply: Response)
    ensures
        reply@ == page_reply(data@),
{
    let count = data.counter.read();
    Response { status: Status::Success, body: Body::Html(render_page(count)) }
}

/// `POST /increment`: steps the counter up and reports the new count.
pub fn increment(data: &mut AppState) -> (reply: Response)
    ensures
        final(data)@ == wrap32(old(data)@ + 1),
        reply@ == count_reply(final(data)@),
{
    let count = data.counter.increment();
    Response { status: Status::Success, body: Body::Json(CounterResponse { count }) }
}

/// `POST /decrement`: steps the counter down and reports the new count.
pub fn decrement(data: &mut AppState) -> (reply: Response)
    ensures
        final(data)@ == wrap32(old(data)@ - 1),
        reply@ == count_reply(final(data)@),
{
    let count = data.counter.decrement();
    Response { status: Status::Success, body: Body::Json(CounterResponse { count }) }
}

/// `POST /reset`: puts the counter back to zero and reports the new count,
/// zero.
pub fn reset(data: &mut AppState) -> (reply: Response)
    ensures
        final(data)@ == 0,
        reply@ == count_reply(0),
{
    let count = data.counter.reset();
    Response { status: Status::Success, body: Body::Json(CounterResponse { count }) }
}

/// `GET /hello`: the fixed greeting. It takes no state and so cannot depend
/// on any.
pub fn hello_world() -> (reply: Response)
    ensures
        reply@ == hello_reply(),
{
    Response { status: Status::Success, body: Body::Html(String::from_str(HELLO)) }
}

/// The reply to a request that no route answers: status 404, no body.
pub fn not_found() -> (reply: Response)
    ensures
        reply@ == not_found_reply(),
{
    Response { status: Status::NotFound, body: Body::Empty }
}

/// The reply to a request whose counter could not be reached, as when the
/// lock around it is poisoned: status 500, no body. The request fails, the
/// service goes on.
pub fn unavailable() -> (reply: Response)
    ensures
        reply@ == unavailable_reply(),
{
    Response { status: Status::ServerError, body: Body::Empty }
}

/// Serves `route` on the state: runs the handler that the route names.
pub fn serve(data: &mut AppState, route: Route) -> (reply: Response)
    ensures
        final(data)@ == state_after(old(data)@, route),
        reply@ == reply_to(old(data)@, route),
{
    match route {
        Route::CounterPage => counter_page(data),
        Route::Change(Operation::Increment) => increment(data),
        Route::Change(Operation::Decrement) => decrement(data),
        Route::Change(Operation::Reset) => reset(data),
        Route::Hello => hello_world(),
    }
}

/// What a server has to do for a request.
#[derive(Debug, PartialEq, Eq)]
pub enum Plan {
    /// Send this reply; the counter is not involved.
    Reply(Response),
    /// Get hold of the state and [`serve`] this route on it, or send
    /// [`unavailable`] if the state cannot be had.
    WithCounter(Route),
}

/// What a plan holds, as mathematics.
pub enum PlanView {
    Reply(ResponseView),
    WithCounter(Route),
}

impl View for Plan {
    type V = PlanView;

    open spec fn view(&self) -> PlanView {
        match self {
            Plan::Reply(reply) => PlanView::Reply(reply@),
            Plan::WithCounter(route) => PlanView::WithCounter(*route),
        }
    }
}

/// The plan for the request `method` `path`: an unknown request and the
/// greeting are answered at once, every other route goes to the counter.
pub open spec fn plan_of(method: Method, path: Seq<char>) -> PlanView {
    match route_of(method, path) {
        None => PlanView::Reply(not_found_reply()),
        Some(Route::Hello) => PlanView::Reply(hello_reply()),
        Some(route) => PlanView::WithCounter(route),
    }
}

/// Decides what a request needs before any state is touched.
pub fn plan(method: Method, path: &str) -> (plan: Plan)
    ensures
        plan@ == plan_of(method, path@),
{
    match route(method, path) {
        None => Plan::Reply(not_found()),
        Some(Route::Hello) => Plan::Reply(hello_world()),
        Some(found) => Plan::WithCounter(found),
    }
}

/// Handles one request on a state that the caller holds: finds the route,
/// serves it, and answers 404 where there is none.
pub fn handle(data: &mut AppState, method: Method, path: &str) -> (reply: Response)
    ensures
        final(data)@ == state_after_request(old(data)@, method, path@),
        reply@ == reply_to_request(old(data)@, method, path@),
{
    match plan(method, path) {
        Plan::Reply(reply) => reply,
        Plan::WithCounter(found) => serve(data, found),
    }
}

/// A plan never changes what a request does: to follow it, serving the route
/// where it names one, is to handle the request. A route that it sends to the
/// counter does need the counter.
pub proof fn lemma_plan_agrees(state: int, method: Method, path: Seq<char>)
    ensures
        plan_of(method, path) matches PlanView::Reply(reply) ==> (
            reply == reply_to_request(state, method, path)
            && state == state_after_request(state, method, path)
        ),
        plan_of(method, path) matches PlanView::WithCounter(route) ==> (
            route.needs_counter()
            && reply_to(state, route) == reply_to_request(state, method, path)
            && state_after(state, route) == state_after_request(state, method, path)
        ),
{
}

/// The reply to the last of a sequence of increments and decrements served
/// from zero carries the net sum of the steps, and so does the page asked for
/// next, as long as the net sum fits the counter.
pub proof fn lemma_count_read_back(ops: Seq<Operation>)
    requires
        ops.len() > 0,
        only_steps(ops),
        i32::MIN <= net_sum(ops) <= i32::MAX,
    ensures
        reply_to(run(0, ops.drop_last()), Route::Change(ops.last())) == count_reply(net_sum(ops)),
        state_after(run(0, ops.drop_last()), Route::Change(ops.last())) == net_sum(ops),
        reply_to(run(0, ops), Route::CounterPage) == page_reply(net_sum(ops)),
{
    lemma_run_is_net_sum(0, ops);
}

/// A reset answers with zero and leaves zero whatever the count was, and a
/// second reset answers and leaves the same.
pub proof fn lemma_reset_twice(state: int)
    ensures
        reply_to(state, Route::Change(Operation::Reset)) == count_reply(0),
        state_after(state, Route::Change(Operation::Reset)) == 0,
        reply_to(state_after(state, Route::Change(Operation::Reset)), Route::Change(Operation::Reset))
            == reply_to(state, Route::Change(Operation::Reset)),
        state_after(state_after(state, Route::Change(Operation::Reset)), Route::Change(Operation::Reset))
            == state_after(state, Route::Change(Operation::Reset)),
{
}

/// The rows of the routing table: each of the five requests reaches its own
/// route, none hides another.
pub proof fn lemma_routing_table()
    ensures
        route_of(Method::Get, "/"@) == Some(Route::CounterPage),
        route_of(Method::Get, "/hello"@) == Some(Route::Hello),
        route_of(Method::Post, "/increment"@) == Some(Route::Change(Operation::Increment)),
        route_of(Method::Post, "/decrement"@) == Some(Route::Change(Operation::Decrement)),
        route_of(Method::Post, "/reset"@) == Some(Route::Change(Operation::Reset)),
{
    reveal_strlit("/");
    reveal_strlit("/hello");
    reveal_strlit("/increment");
    reveal_strlit("/decrement");
    reveal_strlit("/reset");
    assert("/"@.len() == 1 && "/hello"@.len() == 6);
    assert("/increment"@[1] == 'i');
    assert("/decrement"@[1] == 'd');
    assert("/reset"@[1] == 'r');
}

/// `GET /` is answered with the page for the current count, which holds the
/// count's decimal text inside the element that shows it, and leaves the
/// count alone.
pub proof fn lemma_page_request_shows_count(state: int)
    ensures
        reply_to_request(state, Method::Get, "/"@) == page_reply(state),
        state_after_request(state, Method::Get, "/"@) == state,
        page_reply(state).body == BodyView::Html(page_text(state)),
        occurs_at(
            page_text(state),
            int_text(state),
            (PAGE_HEAD@.len() + COUNT_OPEN@.len()) as int,
        ),
{
    lemma_routing_table();
    lemma_page_shows_count(state);
}

/// `GET /hello` is answered with the greeting and nothing else, whatever the
/// count is, and leaves the count alone.
pub proof fn lemma_hello_is_constant(state: int)
    ensures
        reply_to_request(state, Method::Get, "/hello"@) == hello_reply(),
        state_after_request(state, Method::Get, "/hello"@) == state,
        plan_of(Method::Get, "/hello"@) == PlanView::Reply(hello_reply()),
        hello_reply().body == BodyView::Html("<h1>Hello World</h1>"@),
{
    lemma_routing_table();
}

} // verus!
