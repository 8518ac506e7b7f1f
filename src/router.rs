use vstd::prelude::*;
use crate::request::{
    line_end, path_of, request_line_of, request_of, skip_space, token_end, Method, Path, Request,
    RequestModel,
};
use crate::text::{decimal_digits, push_decimal, push_text};
use vstd::utf8::{decode_utf8, encode_utf8, valid_utf8};

verus! {

/// The statuses that the server answers with.
#[derive(Debug, Clone, Copy, PartialEq, Eq, Structural)]
pub enum Status {
    Success,
    BadRequest,
    Unauthorized,
    Forbidden,
    NotFound,
    MethodNotAllowed,
    InternalServerError,
}

pub open spec fn status_text(s: Status) -> Seq<char> {
    match s {
        Status::Success => "200 OK"@,
        Status::BadRequest => "400 Bad Request"@,
        Status::Unauthorized => "401 Unauthorized"@,
        Status::Forbidden => "403 Forbidden"@,
        Status::NotFound => "404 Not Found"@,
        Status::MethodNotAllowed => "405 Method Not Allowed"@,
        Status::InternalServerError => "500 Internal Server Error"@,
    }
}

impl Status {
    /// The numeric status code.
    pub fn code(&self) -> (r: u16)
        ensures
            r == match *self {
                Status::Success => 200u16,
                Status::BadRequest => 400u16,
                Status::Unauthorized => 401u16,
                Status::Forbidden => 403u16,
                Status::NotFound => 404u16,
                Status::MethodNotAllowed => 405u16,
                Status::InternalServerError => 500u16,
            },
    {
        match self {
            Status::Success => 200,
            Status::BadRequest => 400,
            Status::Unauthorized => 401,
            Status::Forbidden => 403,
            Status::NotFound => 404,
            Status::MethodNotAllowed => 405,
            Status::InternalServerError => 500,
        }
    }

    /// The status line text, code and reason phrase: `404 Not Found`.
    pub fn status_line(&self) -> (r: &'static str)
        ensures
            r@ == status_text(*self),
    {
        match self {
            Status::Success => "200 OK",
            Status::BadRequest => "400 Bad Request",
            Status::Unauthorized => "401 Unauthorized",
            Status::Forbidden => "403 Forbidden",
            Status::NotFound => "404 Not Found",
            Status::MethodNotAllowed => "405 Method Not Allowed",
            Status::InternalServerError => "500 Internal Server Error",
        }
    }
}

/// A response: a status and a body.
pub struct Response {
    pub status: Status,
    pub body: String,
}

pub struct Reply {
    pub status: Status,
    pub body: Seq<char>,
}

impl View for Response {
    type V = Reply;

    open spec fn view(&self) -> Reply {
        Reply { status: self.status, body: self.body@ }
    }
}

pub open spec fn reply(status: Status, body: Seq<char>) -> Reply {
    Reply { status, body }
}

pub open spec fn health_text() -> Seq<char> {
    "{\"healthy\": true}"@
}

/// The bytes of a response on the wire:
/// `HTTP/1.1 <status>\r\nContent-Length: <n>\r\n\r\n<body>`, where `n` is the
/// body's length in UTF-8 bytes.
pub open spec fn wire_text(r: Reply) -> Seq<char> {
    "HTTP/1.1 "@ + status_text(r.status) + "\r\nContent-Length: "@ + decimal_digits(
        encode_utf8(r.body).len(),
    ) + "\r\n\r\n"@ + r.body
}

impl Response {
    fn new(status: Status, body: &str) -> (r: Response)
        ensures
            r@ == reply(status, body@),
    {
        Response { status, body: body.to_owned() }
    }

    /// The response framed for the wire (see `wire_text`).
    pub fn to_wire(&self) -> (r: String)
        ensures
            r@ == wire_text(self@),
    {
        let mut out = String::new();
        push_text(&mut out, "HTTP/1.1 ");
        push_text(&mut out, self.status.status_line());
        push_text(&mut out, "\r\nContent-Length: ");
        push_decimal(&mut out, self.body.as_str().as_bytes().len() as u64);
        push_text(&mut out, "\r\n\r\n");
        push_text(&mut out, self.body.as_str());
        out
    }
}

/// Largest request, in bytes, that the server reads in one piece.
pub const MAX_REQUEST_BYTES: usize = 100000;

/// The answer to a request that fills the whole read buffer: it is refused
/// rather than decoded from a truncated text.
pub fn oversized_reply() -> (r: Response)
    ensures
        r@ == reply(Status::BadRequest, "Request too large"@),
{
    Response::new(Status::BadRequest, "Request too large")
}

/// What to do with a request: answer it at once, or decode its body, which
/// is handed over, as a chat envelope.
pub enum Dispatch {
    Reply(Response),
    Chat(String),
}

pub enum DispatchModel {
    Reply(Reply),
    Chat(Seq<char>),
}

impl View for Dispatch {
    type V = DispatchModel;

    open spec fn view(&self) -> DispatchModel {
        match self {
            Dispatch::Reply(r) => DispatchModel::Reply(r@),
            Dispatch::Chat(b) => DispatchModel::Chat(b@),
        }
    }
}

/// Whether a body holds fewer UTF-8 bytes than its declared length.
pub open spec fn body_short(body: Seq<char>, declared: u64) -> bool {
    encode_utf8(body).len() < declared
}

/// Whether the request text `s` decodes, has a body, and that body is short.
pub open spec fn body_pending_in(s: Seq<char>) -> bool {
    match request_of(s) {
        Some(q) => match q.body {
            Some(b) => body_short(b, q.content_length),
            None => false,
        },
        None => false,
    }
}

/// How a decoded request (`None`: one that did not decode) is answered under
/// the API key `key`. The key is checked before the path.
pub open spec fn route_of(key: Seq<char>, req: Option<RequestModel>) -> DispatchModel {
    match req {
        None => DispatchModel::Reply(reply(Status::BadRequest, "Invalid request"@)),
        Some(r) => match r.api_key {
            None => DispatchModel::Reply(reply(Status::Unauthorized, "Missing API key"@)),
            Some(k) => if k != key {
                DispatchModel::Reply(reply(Status::Forbidden, "Invalid API key"@))
            } else {
                match r.path {
                    Path::Root => if r.method == Method::GET {
                        DispatchModel::Reply(reply(Status::Success, health_text()))
                    } else {
                        DispatchModel::Reply(reply(Status::MethodNotAllowed, "Invalid method for /"@))
                    },
                    Path::Favicon => DispatchModel::Reply(
                        reply(Status::NotFound, "Favicon not found"@),
                    ),
                    Path::Chat => if r.method != Method::POST {
                        DispatchModel::Reply(
                            reply(Status::MethodNotAllowed, "Invalid method for /chat"@),
                        )
                    } else {
                        match r.body {
                            None => DispatchModel::Reply(
                                reply(Status::BadRequest, "Missing request body"@),
                            ),
                            Some(b) => if body_short(b, r.content_length) {
                                DispatchModel::Reply(
                                    reply(Status::BadRequest, "Incomplete request body"@),
                                )
                            } else {
                                DispatchModel::Chat(b)
                            },
                        }
                    },
                }
            },
        },
    }
}

/// A decoded request without an API key is answered 401, one whose key differs
/// from the server's 403, whatever its path and method; a request that does
/// not decode is answered 400.
pub proof fn law_key_checked_first(key: Seq<char>, req: Option<RequestModel>)
    ensures
        req is None ==> route_of(key, req) == DispatchModel::Reply(
            reply(Status::BadRequest, "Invalid request"@),
        ),
        req matches Some(r) && r.api_key is None ==> route_of(key, req) == DispatchModel::Reply(
            reply(Status::Unauthorized, "Missing API key"@),
        ),
        req matches Some(r) && r.api_key matches Some(k) && k != key ==> route_of(key, req)
            == DispatchModel::Reply(reply(Status::Forbidden, "Invalid API key"@)),
{
}

/// A request text whose second word is not a known path is answered 400,
/// whatever its key.
pub proof fn law_unknown_path_rejected(key: Seq<char>, s: Seq<char>)
    requires
        ({
            let e = line_end(s, 0);
            let b1 = token_end(s, skip_space(s, 0, e), e);
            let a2 = skip_space(s, b1, e);
            path_of(s.subrange(a2, token_end(s, a2, e))) is None
        }),
    ensures
        route_of(key, request_of(s)) == DispatchModel::Reply(
            reply(Status::BadRequest, "Invalid request"@),
        ),
{
    assert(request_line_of(s) is None);
}

/// With the right key, a known path asked with a method it does not take is
/// answered 405.
pub proof fn law_wrong_method_rejected(key: Seq<char>, r: RequestModel)
    requires
        r.api_key == Some(key),
        (r.path == Path::Chat && r.method == Method::GET) || (r.path == Path::Root && r.method
            == Method::POST),
    ensures
        route_of(key, Some(r)) matches DispatchModel::Reply(resp) && resp.status
            == Status::MethodNotAllowed,
{
}

/// With the right key, `GET /` is answered 200 with exactly `{"healthy": true}`.
pub proof fn law_health_check(key: Seq<char>, r: RequestModel)
    requires
        r.api_key == Some(key),
        r.path == Path::Root,
        r.method == Method::GET,
    ensures
        route_of(key, Some(r)) == DispatchModel::Reply(reply(Status::Success, health_text())),
{
}

/// The text of a byte buffer with each invalid UTF-8 sequence replaced.
pub uninterp spec fn lossy_text(b: Seq<u8>) -> Seq<char>;

/// Relies on `String::from_utf8_lossy`: the text depends on the bytes alone,
/// and valid UTF-8 is decoded as it stands.
#[verifier::external_body]
fn utf8_lossy(raw: &[u8]) -> (r: String)
    ensures
        r@ == lossy_text(raw@),
        valid_utf8(raw@) ==> r@ == decode_utf8(raw@),
{
    String::from_utf8_lossy(raw).into_owned()
}

/// Checks requests against the server's API key and dispatches them.
pub struct Router {
    pub api_key: String,
}

impl Router {
    pub fn new(api_key: String) -> (r: Router)
        ensures
            r.api_key@ == api_key@,
    {
        Router { api_key }
    }

    /// Answers a decoded request, or one that did not decode (`None`).
    pub fn route(&self, request: Option<Request>) -> (r: Dispatch)
        ensures
            r@ == route_of(
                self.api_key@,
                match request {
                    Some(q) => Some(q@),
                    None => None,
                },
            ),
    {
        let req = match request {
            None => {
                return Dispatch::Reply(Response::new(Status::BadRequest, "Invalid request"));
            },
            Some(q) => q,
        };
        match &req.api_key {
            None => {
                return Dispatch::Reply(Response::new(Status::Unauthorized, "Missing API key"));
            },
            Some(k) => {
                if *k != self.api_key {
                    return Dispatch::Reply(Response::new(Status::Forbidden, "Invalid API key"));
                }
            },
        }
        match req.path {
            Path::Root => {
                if req.method == Method::GET {
                    Dispatch::Reply(Response::new(Status::Success, "{\"healthy\": true}"))
                } else {
                    Dispatch::Reply(Response::new(Status::MethodNotAllowed, "Invalid method for /"))
                }
            },
            Path::Favicon => Dispatch::Reply(Response::new(Status::NotFound, "Favicon not found")),
            Path::Chat => {
                if req.method != Method::POST {
                    Dispatch::Reply(
                        Response::new(Status::MethodNotAllowed, "Invalid method for /chat"),
                    )
                } else {
                    match req.body {
                        None => Dispatch::Reply(
                            Response::new(Status::BadRequest, "Missing request body"),
                        ),
                        Some(b) => {
                            if (b.as_str().as_bytes().len() as u64) < req.content_length {
                                Dispatch::Reply(
                                    Response::new(Status::BadRequest, "Incomplete request body"),
                                )
                            } else {
                                Dispatch::Chat(b)
                            }
                        },
                    }
                }
            },
        }
    }

    /// Answers a request as read from the connection: a buffer that reaches
    /// the read limit is refused; otherwise its text, with invalid UTF-8
    /// replaced, is decoded and answered.
    pub fn handle_bytes(&self, raw: &[u8]) -> (r: Dispatch)
        ensures
            raw@.len() >= MAX_REQUEST_BYTES ==> r@ == DispatchModel::Reply(
                reply(Status::BadRequest, "Request too large"@),
            ),
            raw@.len() < MAX_REQUEST_BYTES ==> r@ == route_of(
                self.api_key@,
                request_of(lossy_text(raw@)),
            ),
            raw@.len() < MAX_REQUEST_BYTES && valid_utf8(raw@) ==> r@ == route_of(
                self.api_key@,
                request_of(decode_utf8(raw@)),
            ),
    {
        if raw.len() >= MAX_REQUEST_BYTES {
            return Dispatch::Reply(oversized_reply());
        }
        let text = utf8_lossy(raw);
        self.handle(text.as_str())
    }

    /// Whether a buffer read so far holds a request whose body is still
    /// shorter than its declared length, so that more should be read before
    /// it is answered. A buffer at the read limit is never pending.
    pub fn body_pending(raw: &[u8]) -> (r: bool)
        ensures
            r == (raw@.len() < MAX_REQUEST_BYTES && body_pending_in(lossy_text(raw@))),
    {
        if raw.len() >= MAX_REQUEST_BYTES {
            return false;
        }
        let text = utf8_lossy(raw);
        match Request::parse(text.as_str()) {
            Some(q) => match &q.body {
                Some(b) => (b.as_str().as_bytes().len() as u64) < q.content_length,
                None => false,
            },
            None => false,
        }
    }

    /// Decodes a request text and answers it.
    pub fn handle(&self, request_str: &str) -> (r: Dispatch)
        ensures
            r@ == route_of(self.api_key@, request_of(request_str@)),
    {
        self.route(Request::parse(request_str))
    }
}

} // verus!
