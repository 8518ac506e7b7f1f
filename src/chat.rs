use vstd::prelude::*;
use crate::router::{reply, Response, Status};

verus! {

/// A single message of a chat conversation, as the client sends it.
pub struct HttpMessage {
    /// `user` or `assistant`.
    pub role: String,
    pub content: String,
}

/// The body of `POST /chat`.
pub struct ChatRequest {
    pub prompt: String,
    pub chat_history: Option<Vec<HttpMessage>>,
}

/// Who wrote a message of the history.
#[derive(Debug, Clone, Copy, PartialEq, Eq, Structural)]
pub enum Role {
    User,
    Assistant,
}

/// A history message whose role is known.
pub struct ChatMessage {
    pub role: Role,
    pub content: String,
}

pub open spec fn role_of(s: Seq<char>) -> Option<Role> {
    if s == "user"@ {
        Some(Role::User)
    } else if s == "assistant"@ {
        Some(Role::Assistant)
    } else {
        None
    }
}

impl HttpMessage {
    /// The message with its role recognised, or `None` for an unknown role.
    pub fn into_message(self) -> (r: Option<ChatMessage>)
        ensures
            match r {
                Some(m) => role_of(self.role@) == Some(m.role) && m.content@ == self.content@,
                None => role_of(self.role@) is None,
            },
    {
        let role = if self.role == "user".to_owned() {
            Role::User
        } else if self.role == "assistant".to_owned() {
            Role::Assistant
        } else {
            return None;
        };
        Some(ChatMessage { role, content: self.content })
    }
}

/// What to do with a chat envelope: answer at once, or forward the prompt and
/// history to the reasoning backend.
pub enum ChatStep {
    Reply(Response),
    Forward { prompt: String, history: Vec<ChatMessage> },
}

/// Whether every message of `h` has a known role.
pub open spec fn roles_known(h: Seq<HttpMessage>) -> bool {
    forall|i: int| 0 <= i < h.len() ==> (#[trigger] role_of(h[i].role@)) is Some
}

/// Whether `out` is `h` with each role recognised.
pub open spec fn converted(h: Seq<HttpMessage>, out: Seq<ChatMessage>) -> bool {
    &&& out.len() == h.len()
    &&& forall|i: int|
        0 <= i < h.len() ==> role_of(h[i].role@) == Some(#[trigger] out[i].role)
            && out[i].content@ == h[i].content@
}

/// Converts the history; fails on the first message with an unknown role.
pub fn convert_history(history: Vec<HttpMessage>) -> (r: Option<Vec<ChatMessage>>)
    ensures
        match r {
            Some(out) => roles_known(history@) && converted(history@, out@),
            None => !roles_known(history@),
        },
{
    let ghost h = history@;
    let mut out: Vec<ChatMessage> = Vec::new();
    for m in it: history
        invariant
            it.seq() == h,
            roles_known(h.take(it.index() as int)),
            converted(h.take(it.index() as int), out@),
    {
        let ghost i = it.index() as int;
        assert(m == h[i]);
        match m.into_message() {
            Some(c) => {
                out.push(c);
            },
            None => {
                return None;
            },
        }
        assert(h.take(i + 1).drop_last() == h.take(i));
    }
    let ghost i = h.len() as int;
    assert(h.take(i) == h);
    Some(out)
}

pub open spec fn bad_role_text() -> Seq<char> {
    "Invalid message role in chat history"@
}

/// Decides on a chat envelope, given as what its JSON decoded to (`None`: it
/// did not decode): a malformed envelope or an unknown role is a client
/// error, answered without consulting the backend; otherwise the prompt and
/// the converted history go to the backend.
pub fn chat_step(envelope: Option<ChatRequest>) -> (r: ChatStep)
    ensures
        match envelope {
            None => r matches ChatStep::Reply(resp) && resp@ == reply(
                Status::BadRequest,
                "Invalid JSON body"@,
            ),
            Some(req) => match req.chat_history {
                Some(h) if !roles_known(h@) => r matches ChatStep::Reply(resp) && resp@ == reply(
                    Status::BadRequest,
                    bad_role_text(),
                ),
                Some(h) => r matches ChatStep::Forward { prompt, history } && prompt@
                    == req.prompt@ && converted(h@, history@),
                None => r matches ChatStep::Forward { prompt, history } && prompt@
                    == req.prompt@ && history@.len() == 0,
            },
        },
{
    let req = match envelope {
        None => {
            return ChatStep::Reply(
                Response { status: Status::BadRequest, body: "Invalid JSON body".to_owned() },
            );
        },
        Some(r) => r,
    };
    let history = match req.chat_history {
        None => Vec::new(),
        Some(h) => match convert_history(h) {
            Some(c) => c,
            None => {
                return ChatStep::Reply(
                    Response {
                        status: Status::BadRequest,
                        body: "Invalid message role in chat history".to_owned(),
                    },
                );
            },
        },
    };
    ChatStep::Forward { prompt: req.prompt, history }
}

/// The answer to a chat once the backend has run: its text with 200, or 500
/// when it failed (`None`).
pub fn backend_reply(outcome: Option<String>) -> (r: Response)
    ensures
        r@ == match outcome {
            Some(t) => reply(Status::Success, t@),
            None => reply(Status::InternalServerError, "Failed to generate response"@),
        },
{
    match outcome {
        Some(t) => Response { status: Status::Success, body: t },
        None => Response {
            status: Status::InternalServerError,
            body: "Failed to generate response".to_owned(),
        },
    }
}

} // verus!
