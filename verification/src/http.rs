//! The plain values that stand for a request and a reply. A server turns
//! what it received into the first and sends what it finds in the second.

use vstd::prelude::*;
use crate::text::str_eq;

verus! {

/// The request method, as far as the service tells methods apart.
#[derive(Clone, Copy, Debug, PartialEq, Eq)]
pub enum Method {
    Get,
    Post,
    /// Any method that no route of the service answers.
    Other,
}

/// The method that the token `name` of a request line stands for. Method
/// tokens are case-sensitive.
pub open spec fn method_of(name: Seq<char>) -> Method {
    if name == "GET"@ {
        Method::Get
    } else if name == "POST"@ {
        Method::Post
    } else {
        Method::Other
    }
}

impl Method {
    /// Reads the method token of a request line.
    pub fn from_name(name: &str) -> (method: Method)
        ensures
            method == method_of(name@),
    {
        if str_eq(name, "GET") {
            Method::Get
        } else if str_eq(name, "POST") {
            Method::Post
        } else {
            Method::Other
        }
    }
}

/// The two method names that the service knows stand for two methods.
pub proof fn lemma_method_names()
    ensures
        method_of("GET"@) == Method::Get,
        method_of("POST"@) == Method::Post,
{
    reveal_strlit("GET");
    reveal_strlit("POST");
    assert("GET"@.len() == 3 && "POST"@.len() == 4);
}

/// The status of a reply.
#[derive(Clone, Copy, Debug, PartialEq, Eq)]
pub enum Status {
    /// 200: the request was served.
    Success,
    /// 404: no route answers the request.
    NotFound,
    /// 500: the counter could not be reached.
    ServerError,
}

impl Status {
    /// The status code as a number.
    pub open spec fn code_of(self) -> int {
        match self {
            Status::Success => 200,
            Status::NotFound => 404,
            Status::ServerError => 500,
        }
    }

    /// The status code as a number.
    pub fn code(self) -> (code: u16)
        ensures
            code == self.code_of(),
    {
        match self {
            Status::Success => 200,
            Status::NotFound => 404,
            Status::ServerError => 500,
        }
    }
}

/// What a change to the counter answers with: the count after the change. On
/// the wire it is a JSON object with the one member `count`.
#[derive(Clone, Copy, Debug, PartialEq, Eq)]
pub struct CounterResponse {
    pub count: i32,
}

/// The body of a reply.
#[derive(Debug, PartialEq, Eq)]
pub enum Body {
    /// An HTML document or fragment, sent as it stands.
    Html(String),
    /// A count, sent as JSON.
    Json(CounterResponse),
    /// Nothing.
    Empty,
}

/// What a body holds, as mathematics.
pub enum BodyView {
    Html(Seq<char>),
    Json(int),
    Empty,
}

impl BodyView {
    /// The media type that the body is sent under; none for an empty body.
    pub open spec fn content_type(self) -> Option<Seq<char>> {
        match self {
            BodyView::Html(_) => Some("text/html"@),
            BodyView::Json(_) => Some("application/json"@),
            BodyView::Empty => None,
        }
    }
}

impl View for Body {
    type V = BodyView;

    open spec fn view(&self) -> BodyView {
        match self {
            Body::Html(text) => BodyView::Html(text@),
            Body::Json(response) => BodyView::Json(response.count as int),
            Body::Empty => BodyView::Empty,
        }
    }
}

impl Body {
    /// The media type that the body is sent under; none for an empty body.
    pub fn content_type(&self) -> (media: Option<&'static str>)
        ensures
            media matches Some(name) ==> self@.content_type() == Some(name@),
            media is None ==> self@.content_type() is None,
    {
        match self {
            Body::Html(_) => Some("text/html"),
            Body::Json(_) => Some("application/json"),
            Body::Empty => None,
        }
    }
}

/// A reply: a status and a body.
#[derive(Debug, PartialEq, Eq)]
pub struct Response {
    pub status: Status,
    pub body: Body,
}

/// What a reply holds, as mathematics.
pub struct ResponseView {
    pub status: Status,
    pub body: BodyView,
}

impl View for Response {
    type V = ResponseView;

    open spec fn view(&self) -> ResponseView {
        ResponseView { status: self.status, body: self.body@ }
    }
}

} // verus!
