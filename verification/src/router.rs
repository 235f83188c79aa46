//! From a request to its reply.
//!
//! Handling a request takes outside work in the middle: the slot sits behind
//! a lock, the body of a write has to be collected, the content of a read has
//! to be fetched. The functions here make every decision in between. The
//! driver starts with `dispatch`, does what the returned step asks for and
//! hands the outcome to the function that the step names, until it holds a
//! reply:
//!
//! ```text
//! dispatch --ReadStore--> relay --Fetch--> relayed --> reply
//!          --ReadBody---> accept --WriteStore--> commit --> reply
//! ```
//!
//! Each function may also end the request at once with `Respond`.

use crate::auth::{authorize_header, authorized, presented};
use crate::reply::{Reply, ReplyView, Status};
use crate::store::UrlStore;
use crate::text::{bytes_view, decode_text, same_text, utf8_text_of};
use vstd::prelude::*;
use vstd::utf8::{decode_utf8_encode_utf8, encode_utf8, valid_utf8};

verus! {

/// What the router reads of a request before it touches the body.
#[derive(Clone, Debug, PartialEq, Eq)]
pub struct IncomingRequest {
    /// The method token, as sent: `GET`, `POST`, ...
    pub method: String,
    /// The path of the request target, without the query.
    pub path: String,
    /// The value of the `Authorization` header, where one was sent.
    pub authorization: Option<Vec<u8>>,
}

/// A request head as a mathematical value.
pub struct RequestView {
    pub method: Seq<char>,
    pub path: Seq<char>,
    pub authorization: Option<Seq<u8>>,
}

impl View for IncomingRequest {
    type V = RequestView;

    open spec fn view(&self) -> RequestView {
        RequestView {
            method: self.method@,
            path: self.path@,
            authorization: bytes_view(self.authorization),
        }
    }
}

/// Why an upstream fetch gave no content: the transport's own words.
#[derive(Clone, Debug, PartialEq, Eq)]
pub struct FetchError {
    pub cause: String,
}

/// An upstream outcome as a mathematical value.
pub open spec fn upstream_view(outcome: Result<Vec<u8>, FetchError>) -> Result<Seq<u8>, Seq<char>> {
    match outcome {
        Ok(content) => Ok(content@),
        Err(error) => Err(error.cause@),
    }
}

/// The three things a request can ask for.
#[derive(Clone, Copy, Debug, PartialEq, Eq, Structural)]
pub enum Route {
    /// Fetch the content at the stored URL and relay it.
    Relay,
    /// Replace the stored URL with the request body.
    Update,
    /// Anything else.
    NotFound,
}

/// What the driver does next.
#[derive(Clone, Debug, PartialEq, Eq)]
pub enum Step {
    /// Take the store for reading and call `relay`.
    ReadStore,
    /// Fetch this URL upstream and call `relayed` with the outcome.
    Fetch(String),
    /// Collect the request body and call `accept` with it.
    ReadBody,
    /// Take the store for writing and call `commit` with this URL.
    WriteStore(String),
    /// Send this reply; the request is done.
    Respond(Reply),
}

/// A step as a mathematical value.
pub enum StepView {
    ReadStore,
    Fetch(Seq<char>),
    ReadBody,
    WriteStore(Seq<char>),
    Respond(ReplyView),
}

impl View for Step {
    type V = StepView;

    open spec fn view(&self) -> StepView {
        match self {
            Step::ReadStore => StepView::ReadStore,
            Step::Fetch(url) => StepView::Fetch(url@),
            Step::ReadBody => StepView::ReadBody,
            Step::WriteStore(url) => StepView::WriteStore(url@),
            Step::Respond(reply) => StepView::Respond(reply@),
        }
    }
}

/// The route of a method and a path: `GET /` reads, `POST /url` and its
/// alias `POST /` write, everything else is unknown.
pub open spec fn route_of(method: Seq<char>, path: Seq<char>) -> Route {
    if method == "GET"@ && path == "/"@ {
        Route::Relay
    } else if method == "POST"@ && (path == "/url"@ || path == "/"@) {
        Route::Update
    } else {
        Route::NotFound
    }
}

/// The first step for a request under the configured `secret`. A write that
/// is not authorized is answered at once, before its body is looked at.
pub open spec fn first_step(secret: Option<Seq<char>>, request: RequestView) -> StepView {
    match route_of(request.method, request.path) {
        Route::Relay => StepView::ReadStore,
        Route::Update => if authorized(secret, presented(request.authorization)) {
            StepView::ReadBody
        } else {
            StepView::Respond(ReplyView::unauthorized())
        },
        Route::NotFound => StepView::Respond(ReplyView::not_found()),
    }
}

/// The step of a read once the store's value is known.
pub open spec fn relay_step(current: Option<Seq<char>>) -> StepView {
    match current {
        Some(url) => StepView::Fetch(url),
        None => StepView::Respond(ReplyView::no_url()),
    }
}

/// The reply of a read once the upstream outcome is known.
pub open spec fn relayed_reply(outcome: Result<Seq<u8>, Seq<char>>) -> ReplyView {
    match outcome {
        Ok(content) => ReplyView::content(content),
        Err(cause) => ReplyView::bad_gateway(cause),
    }
}

/// The URL that a write stores: its body, character for character, where the
/// body arrived whole and is UTF-8 text.
pub open spec fn new_url(body: Option<Seq<u8>>) -> Option<Seq<char>> {
    match body {
        Some(bytes) => utf8_text_of(bytes),
        None => None,
    }
}

/// The step of a write once its body is known.
pub open spec fn accept_step(body: Option<Seq<u8>>) -> StepView {
    match new_url(body) {
        Some(url) => StepView::WriteStore(url),
        None => StepView::Respond(
            if body is Some {
                ReplyView::invalid_body()
            } else {
                ReplyView::unreadable_body()
            },
        ),
    }
}

/// The store after a write with `body`, from the store `before` it.
pub open spec fn updated_store(before: Option<Seq<char>>, body: Option<Seq<u8>>) -> Option<Seq<char>> {
    match accept_step(body) {
        StepView::WriteStore(url) => Some(url),
        _ => before,
    }
}

/// The reply of a write with `body`.
pub open spec fn update_reply(body: Option<Seq<u8>>) -> ReplyView {
    match accept_step(body) {
        StepView::Respond(reply) => reply,
        _ => ReplyView::updated(),
    }
}

/// Maps a method and a path to a route.
pub fn route(method: &str, path: &str) -> (selected: Route)
    ensures
        selected == route_of(method@, path@),
{
    if same_text(method, "GET") && same_text(path, "/") {
        Route::Relay
    } else if same_text(method, "POST") && (same_text(path, "/url") || same_text(path, "/")) {
        Route::Update
    } else {
        Route::NotFound
    }
}

/// Takes a request in: routes it and, for a write, checks its credential
/// against `secret`.
pub fn dispatch(secret: &Option<String>, request: &IncomingRequest) -> (step: Step)
    ensures
        step@ == first_step(secret.deep_view(), request@),
{
    match route(request.method.as_str(), request.path.as_str()) {
        Route::Relay => Step::ReadStore,
        Route::Update => {
            if authorize_header(secret, &request.authorization) {
                Step::ReadBody
            } else {
                Step::Respond(Reply::unauthorized())
            }
        },
        Route::NotFound => Step::Respond(Reply::not_found()),
    }
}

/// Continues a read: asks for a fetch of the stored URL, or answers that
/// none is set. The store is left as it is.
pub fn relay(store: &UrlStore) -> (step: Step)
    ensures
        step@ == relay_step(store@),
{
    match store.read() {
        Some(url) => Step::Fetch(url),
        None => Step::Respond(Reply::no_url()),
    }
}

/// Ends a read: wraps the fetched content, or reports why there is none.
pub fn relayed(outcome: Result<Vec<u8>, FetchError>) -> (reply: Reply)
    ensures
        reply@ == relayed_reply(upstream_view(outcome)),
{
    match outcome {
        Ok(content) => Reply::content(content),
        Err(error) => Reply::bad_gateway(error.cause.as_str()),
    }
}

/// Continues a write. `body` is the collected request body, or nothing where
/// it could not be read to its end. A body that is text becomes the URL to
/// store, verbatim; any other ends the request.
pub fn accept(body: Option<Vec<u8>>) -> (step: Step)
    ensures
        step@ == accept_step(bytes_view(body)),
{
    match body {
        None => Step::Respond(Reply::unreadable_body()),
        Some(bytes) => match decode_text(bytes) {
            Some(url) => Step::WriteStore(url),
            None => Step::Respond(Reply::invalid_body()),
        },
    }
}

/// Ends a write: puts `url` into the store and confirms.
pub fn commit(store: &mut UrlStore, url: String) -> (reply: Reply)
    ensures
        final(store)@ == Some(url@),
        reply@ == ReplyView::updated(),
{
    store.replace(url);
    Reply::updated()
}

/// The whole of a write after its body was collected, for a caller that has
/// the store to itself: `accept`, then `commit` where the body is accepted.
/// The store changes only then.
pub fn update(store: &mut UrlStore, body: Option<Vec<u8>>) -> (reply: Reply)
    ensures
        reply@ == update_reply(bytes_view(body)),
        final(store)@ == updated_store(old(store)@, bytes_view(body)),
{
    match accept(body) {
        Step::WriteStore(url) => commit(store, url),
        Step::Respond(reply) => reply,
        _ => unreached(),
    }
}

/// A write that is repeated with the same body leaves the store as the first
/// write left it.
pub proof fn lemma_update_idempotent(before: Option<Seq<char>>, body: Option<Seq<u8>>)
    ensures
        updated_store(updated_store(before, body), body) == updated_store(before, body),
{
}

/// A write that is turned down leaves the store as it was, and is answered
/// as a bad request: one whose body could not be read, and one whose body is
/// not UTF-8 text.
pub proof fn lemma_rejected_update_keeps_store(before: Option<Seq<char>>, body: Option<Seq<u8>>)
    requires
        accept_step(body) is Respond,
    ensures
        updated_store(before, body) == before,
        update_reply(body).status == Status::BadRequest,
{
}

/// A write that goes through stores its body verbatim: the stored URL,
/// encoded as UTF-8, is the body byte for byte, with nothing trimmed.
pub proof fn lemma_update_stores_body_verbatim(before: Option<Seq<char>>, bytes: Seq<u8>)
    requires
        valid_utf8(bytes),
    ensures
        update_reply(Some(bytes)) == ReplyView::updated(),
        updated_store(before, Some(bytes)) matches Some(url) && encode_utf8(url) == bytes,
{
    decode_utf8_encode_utf8(bytes);
}

/// A read that follows a write which went through asks for a fetch of
/// exactly what was written.
pub proof fn lemma_read_after_update(before: Option<Seq<char>>, body: Option<Seq<u8>>)
    ensures
        accept_step(body) matches StepView::WriteStore(url) ==> relay_step(updated_store(before, body))
            == StepView::Fetch(url),
{
}

} // verus!
