//! The dispatcher: it says which URL to fetch for a request, and turns what
//! the transport brought back into a document ready for typed conversion.
//! The fetch itself is the caller's.

use crate::error::{outcome, ErrorView, MyError};
use crate::json::{json_document, Json, JsonView};
use crate::record::Record;
use crate::stocks::{path, query, EndpointView, StocksEndpoint};
use vstd::prelude::*;
use vstd::string::StringExecFns;

verus! {

/// The prefix of every JSON endpoint of the service.
pub const IEX_ENDPOINT: &'static str = "https://api.iextrading.com/1.0";

/// The prefix of the service's socket endpoints.
pub const IEX_WEBSOCKET_ENDPOINT: &'static str = "https://ws-api.iextrading.com/1.0";

/// What the transport brought back for one request.
#[derive(Debug, PartialEq, Eq)]
pub enum Reply {
    /// No reply: the connection failed.
    Unreachable,
    /// A reply with its status code and body.
    Answer { status: u16, body: Vec<u8> },
}

/// The mathematical value of a [`Reply`].
pub enum ReplyView {
    Unreachable,
    Answer { status: u16, body: Seq<u8> },
}

impl View for Reply {
    type V = ReplyView;

    open spec fn view(&self) -> ReplyView {
        match *self {
            Reply::Unreachable => ReplyView::Unreachable,
            Reply::Answer { status, body } => ReplyView::Answer { status, body: body@ },
        }
    }
}

/// The untyped document of one reply, waiting for its typed conversion.
#[derive(Debug, PartialEq, Eq)]
pub struct Response(pub Json);

impl View for Response {
    type V = JsonView;

    open spec fn view(&self) -> JsonView {
        self.0@
    }
}

/// True for the status codes that report success.
pub open spec fn is_success(status: u16) -> bool {
    200 <= status < 300
}

/// What becomes of the outcome of parsing a body: the document, or a syntax
/// error at the position where parsing stopped.
pub open spec fn parsed_body(parsed: Result<JsonView, (usize, usize)>) -> Result<
    JsonView,
    ErrorView,
> {
    match parsed {
        Ok(doc) => Ok(doc),
        Err(at) => Err(ErrorView::JsonSyntax { line: at.0, column: at.1 }),
    }
}

/// What becomes of a reply: without one, or with a status that is no
/// success, a transport error whatever the body holds; else the body's
/// document, or the syntax error of a body that is no JSON.
pub open spec fn received(reply: ReplyView) -> Result<JsonView, ErrorView> {
    match reply {
        ReplyView::Unreachable => Err(ErrorView::Transport { status: None }),
        ReplyView::Answer { status, body } => if is_success(status) {
            parsed_body(json_document(body))
        } else {
            Err(ErrorView::Transport { status: Some(status) })
        },
    }
}

/// A reply whose status is no success is a transport error, and the same
/// one whatever its body holds.
pub proof fn lemma_failed_status_ignores_body(status: u16, body: Seq<u8>, other: Seq<u8>)
    requires
        !is_success(status),
    ensures
        received(ReplyView::Answer { status, body }) == Err::<JsonView, ErrorView>(
            ErrorView::Transport { status: Some(status) },
        ),
        received(ReplyView::Answer { status, body }) == received(
            ReplyView::Answer { status, body: other },
        ),
{
}

/// The URL of a request: the base, the path, and the query string behind a
/// `?` where there is one.
pub open spec fn request_url(base: Seq<char>, e: EndpointView, symbol: Seq<char>) -> Seq<char> {
    if query(e).len() == 0 {
        base + path(e, symbol)
    } else {
        base + path(e, symbol) + "?"@ + query(e)
    }
}

impl Response {
    /// Wraps the outcome of parsing a body.
    pub fn from_parsed(parsed: Result<Json, (usize, usize)>) -> (r: Result<Response, MyError>)
        ensures
            outcome(r) == parsed_body(
                match parsed {
                    Ok(doc) => Ok(doc@),
                    Err(at) => Err(at),
                },
            ),
    {
        match parsed {
            Ok(doc) => Ok(Response(doc)),
            Err(at) => Err(MyError::JsonSyntax { line: at.0, column: at.1 }),
        }
    }

    /// Reads the body of a reply as a document.
    pub fn from_bytes(body: &[u8]) -> (r: Result<Response, MyError>)
        ensures
            outcome(r) == parsed_body(json_document(body@)),
    {
        Response::from_parsed(Json::parse(body))
    }

    /// Converts the document into a record of type `T`, by `T`'s own rules.
    /// The document is used up.
    pub fn try_into<T: Record>(self) -> (r: Result<T, MyError>)
        ensures
            match r {
                Ok(record) => T::decoded(self@) == Ok::<T::Model, ErrorView>(record.model()),
                Err(e) => T::decoded(self@) == Err::<T::Model, ErrorView>(e@),
            },
    {
        T::from_json(&self.0)
    }
}

/// The dispatcher for the service at one base URL.
#[derive(Debug, PartialEq, Eq)]
pub struct Client {
    pub base: String,
}

impl Client {
    /// A client for the service's own base URL.
    pub fn new() -> (c: Client)
        ensures
            c.base@ == IEX_ENDPOINT@,
    {
        Client { base: String::from_str(IEX_ENDPOINT) }
    }

    /// A client for a service at `base`.
    pub fn with_base(base: &str) -> (c: Client)
        ensures
            c.base@ == base@,
    {
        Client { base: String::from_str(base) }
    }

    /// The URL to fetch for the product `req` of `symbol`.
    pub fn stocks_request(&self, symbol: &str, req: StocksEndpoint) -> (url: String)
        ensures
            url@ == request_url(self.base@, req@, symbol@),
    {
        let (path, query) = req.encode(symbol);
        let mut url = self.base.clone();
        url.append(path.as_str());
        if !query.as_str().is_empty() {
            url.append("?");
            url.append(query.as_str());
        }
        url
    }

    /// Turns what the transport brought back into a document. A reply whose
    /// status is no success is a transport error; its body is not read.
    pub fn stocks_response(&self, reply: Reply) -> (r: Result<Response, MyError>)
        ensures
            outcome(r) == received(reply@),
    {
        match reply {
            Reply::Unreachable => Err(MyError::Transport { status: None }),
            Reply::Answer { status, body } => {
                if 200 <= status && status < 300 {
                    Response::from_bytes(body.as_slice())
                } else {
                    Err(MyError::Transport { status: Some(status) })
                }
            },
        }
    }
}

} // verus!
