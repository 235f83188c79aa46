//! What the service answers.

use vstd::prelude::*;
use vstd::string::*;
use vstd::utf8::*;

verus! {

/// The outcome class of a reply.
#[derive(Clone, Copy, Debug, PartialEq, Eq, Structural)]
pub enum Status {
    Success,
    BadRequest,
    Unauthorized,
    NotFound,
    BadGateway,
}

impl Status {
    /// The HTTP status code of each class.
    pub open spec fn spec_code(self) -> u16 {
        match self {
            Status::Success => 200,
            Status::BadRequest => 400,
            Status::Unauthorized => 401,
            Status::NotFound => 404,
            Status::BadGateway => 502,
        }
    }

    /// The HTTP status code to send.
    #[verifier::when_used_as_spec(spec_code)]
    pub fn code(self) -> (code: u16)
        ensures
            code == self.spec_code(),
    {
        match self {
            Status::Success => 200,
            Status::BadRequest => 400,
            Status::Unauthorized => 401,
            Status::NotFound => 404,
            Status::BadGateway => 502,
        }
    }
}

/// A reply: status, header lines in the order they are sent, and body bytes.
#[derive(Clone, Debug, PartialEq, Eq)]
pub struct Reply {
    pub status: Status,
    pub headers: Vec<(String, String)>,
    pub body: Vec<u8>,
}

/// A reply as a mathematical value.
pub struct ReplyView {
    pub status: Status,
    pub headers: Seq<(Seq<char>, Seq<char>)>,
    pub body: Seq<u8>,
}

impl View for Reply {
    type V = ReplyView;

    open spec fn view(&self) -> ReplyView {
        ReplyView { status: self.status, headers: self.headers.deep_view(), body: self.body@ }
    }
}

impl ReplyView {
    /// A reply without headers whose body is `text`, encoded as UTF-8.
    pub open spec fn plain(status: Status, text: Seq<char>) -> ReplyView {
        ReplyView { status, headers: seq![], body: encode_utf8(text) }
    }

    /// No route matches the request.
    pub open spec fn not_found() -> ReplyView {
        ReplyView::plain(Status::NotFound, "Not Found"@)
    }

    /// A read came before any URL was configured.
    pub open spec fn no_url() -> ReplyView {
        ReplyView::plain(Status::NotFound, "No URL has been set"@)
    }

    /// A write came without the credential that is required, with the
    /// challenge that names the scheme to use.
    pub open spec fn unauthorized() -> ReplyView {
        ReplyView {
            status: Status::Unauthorized,
            headers: seq![("www-authenticate"@, "Bearer"@)],
            body: encode_utf8("Unauthorized: Valid password required to update URL"@),
        }
    }

    /// The body of a write could not be read to its end.
    pub open spec fn unreadable_body() -> ReplyView {
        ReplyView::plain(Status::BadRequest, "Failed to read request body"@)
    }

    /// The body of a write is not text.
    pub open spec fn invalid_body() -> ReplyView {
        ReplyView::plain(Status::BadRequest, "Request body is not valid UTF-8"@)
    }

    /// A write went through.
    pub open spec fn updated() -> ReplyView {
        ReplyView::plain(Status::Success, "URL updated successfully"@)
    }

    /// The upstream fetch failed for the reason `cause`.
    pub open spec fn bad_gateway(cause: Seq<char>) -> ReplyView {
        ReplyView::plain(Status::BadGateway, "Error proxying request: "@ + cause)
    }

    /// The fetched `content`, served as an SVG image that no cache may keep.
    pub open spec fn content(content: Seq<u8>) -> ReplyView {
        ReplyView {
            status: Status::Success,
            headers: seq![
                ("content-type"@, "image/svg+xml"@),
                ("cache-control"@, "no-cache, no-store, must-revalidate"@),
                ("pragma"@, "no-cache"@),
                ("expires"@, "0"@),
            ],
            body: content,
        }
    }
}

/// One header line.
fn header(name: &str, value: &str) -> (line: (String, String))
    ensures
        line.deep_view() == (name@, value@),
{
    (String::from_str(name), String::from_str(value))
}

impl Reply {
    /// A reply without headers whose body is `text`.
    pub fn plain(status: Status, text: &str) -> (reply: Reply)
        ensures
            reply@ == ReplyView::plain(status, text@),
    {
        let reply = Reply { status, headers: Vec::new(), body: text.as_bytes_vec() };
        assert(reply.headers.deep_view() =~= seq![]);
        reply
    }

    /// The reply to a request that no route matches.
    pub fn not_found() -> (reply: Reply)
        ensures
            reply@ == ReplyView::not_found(),
    {
        Reply::plain(Status::NotFound, "Not Found")
    }

    /// The reply to a read that came before any URL was configured.
    pub fn no_url() -> (reply: Reply)
        ensures
            reply@ == ReplyView::no_url(),
    {
        Reply::plain(Status::NotFound, "No URL has been set")
    }

    /// The reply to a write without the required credential.
    pub fn unauthorized() -> (reply: Reply)
        ensures
            reply@ == ReplyView::unauthorized(),
    {
        let mut headers: Vec<(String, String)> = Vec::new();
        headers.push(header("www-authenticate", "Bearer"));
        let body = "Unauthorized: Valid password required to update URL".as_bytes_vec();
        let reply = Reply { status: Status::Unauthorized, headers, body };
        assert(reply.headers.deep_view() =~= ReplyView::unauthorized().headers);
        reply
    }

    /// The reply to a write whose body could not be read to its end.
    pub fn unreadable_body() -> (reply: Reply)
        ensures
            reply@ == ReplyView::unreadable_body(),
    {
        Reply::plain(Status::BadRequest, "Failed to read request body")
    }

    /// The reply to a write whose body is not text.
    pub fn invalid_body() -> (reply: Reply)
        ensures
            reply@ == ReplyView::invalid_body(),
    {
        Reply::plain(Status::BadRequest, "Request body is not valid UTF-8")
    }

    /// The reply to a write that went through.
    pub fn updated() -> (reply: Reply)
        ensures
            reply@ == ReplyView::updated(),
    {
        Reply::plain(Status::Success, "URL updated successfully")
    }

    /// The reply to a read whose upstream fetch failed for the reason `cause`.
    pub fn bad_gateway(cause: &str) -> (reply: Reply)
        ensures
            reply@ == ReplyView::bad_gateway(cause@),
    {
        let mut message = String::from_str("Error proxying request: ");
        message.append(cause);
        Reply::plain(Status::BadGateway, message.as_str())
    }

    /// The reply that relays the fetched `content`.
    pub fn content(content: Vec<u8>) -> (reply: Reply)
        ensures
            reply@ == ReplyView::content(content@),
    {
        let mut headers: Vec<(String, String)> = Vec::new();
        headers.push(header("content-type", "image/svg+xml"));
        headers.push(header("cache-control", "no-cache, no-store, must-revalidate"));
        headers.push(header("pragma", "no-cache"));
        headers.push(header("expires", "0"));
        let reply = Reply { status: Status::Success, headers, body: content };
        assert(reply.headers.deep_view() =~= ReplyView::content(content@).headers);
        reply
    }
}

} // verus!
