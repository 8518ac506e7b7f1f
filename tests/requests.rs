use agent_gateway::chat::{backend_reply, chat_step, ChatRequest, ChatStep, HttpMessage, Role};
use agent_gateway::request::{Method, Path, Request};
use agent_gateway::router::{oversized_reply, Dispatch, Response, Router, Status, MAX_REQUEST_BYTES};

const KEY: &str = "open-sesame";

fn router() -> Router {
    Router::new(KEY.to_string())
}

fn reply_of(d: Dispatch) -> Response {
    match d {
        Dispatch::Reply(r) => r,
        Dispatch::Chat(_) => panic!("expected a reply"),
    }
}

fn message(role: &str, content: &str) -> HttpMessage {
    HttpMessage { role: role.to_string(), content: content.to_string() }
}

#[test]
fn parses_request_line_and_headers() {
    let r = Request::parse("GET / HTTP/1.1\r\nHost: x\r\nX-Api-Key: abc\r\n\r\n").unwrap();
    assert_eq!(r.method, Method::GET);
    assert_eq!(r.path, Path::Root);
    assert_eq!(r.api_key.as_deref(), Some("abc"));
    assert!(r.body.is_none());
}

#[test]
fn headers_are_matched_without_case_and_trimmed() {
    let r = Request::parse(
        "POST /chat HTTP/1.1\r\nx-API-key:   k1  \r\nCONTENT-LENGTH: 5\r\n\r\nhello",
    )
    .unwrap();
    assert_eq!(r.method, Method::POST);
    assert_eq!(r.path, Path::Chat);
    assert_eq!(r.api_key.as_deref(), Some("k1"));
    assert_eq!(r.body.as_deref(), Some("hello"));
}

#[test]
fn body_is_kept_verbatim() {
    let r = Request::parse("POST /chat HTTP/1.1\nContent-Length: 9\n\nline1\r\nx\n").unwrap();
    assert_eq!(r.body.as_deref(), Some("line1\r\nx\n"));
}

#[test]
fn body_needs_a_positive_length() {
    let text = "POST /chat HTTP/1.1\r\nContent-Length: 0\r\n\r\nhello";
    assert!(Request::parse(text).unwrap().body.is_none());
    let text = "POST /chat HTTP/1.1\r\nContent-Length: abc\r\n\r\nhello";
    assert!(Request::parse(text).unwrap().body.is_none());
    let text = "POST /chat HTTP/1.1\r\n\r\nhello";
    assert!(Request::parse(text).unwrap().body.is_none());
}

#[test]
fn last_header_wins() {
    let text = "GET / HTTP/1.1\r\nX-Api-Key: a\r\nX-Api-Key: b\r\nContent-Length: 3\r\nContent-Length: 0\r\n\r\nabc";
    let r = Request::parse(text).unwrap();
    assert_eq!(r.api_key.as_deref(), Some("b"));
    assert!(r.body.is_none());
}

#[test]
fn header_value_runs_to_the_end_of_the_line() {
    let r = Request::parse("GET / HTTP/1.1\r\nX-Api-Key:  a:b \r\n\r\n").unwrap();
    assert_eq!(r.api_key.as_deref(), Some("a:b"));
    let r = Request::parse("GET /\nX-Api-Key: a:b").unwrap();
    assert_eq!(r.api_key.as_deref(), Some("a:b"));
}

#[test]
fn key_with_a_colon_is_accepted() {
    let router = Router::new("a:b".to_string());
    let r = reply_of(router.handle("GET / HTTP/1.1\r\nX-Api-Key: a:b\r\n\r\n"));
    assert_eq!(r.status, Status::Success);
}

#[test]
fn length_with_a_colon_is_no_length() {
    let r = Request::parse("POST /chat HTTP/1.1\r\nContent-Length: 5:x\r\n\r\nhello").unwrap();
    assert_eq!(r.content_length, 0);
    assert!(r.body.is_none());
}

#[test]
fn declared_length_is_kept() {
    let r = Request::parse("POST /chat HTTP/1.1\r\nContent-Length: 12\r\n\r\nhello").unwrap();
    assert_eq!(r.content_length, 12);
    assert_eq!(r.body.as_deref(), Some("hello"));
}

#[test]
fn short_chat_body_is_refused() {
    let text = format!(
        "POST /chat HTTP/1.1\r\nX-Api-Key: {}\r\nContent-Length: 40\r\n\r\n{{\"prompt\":\"hi\"}}",
        KEY
    );
    let r = reply_of(router().handle(&text));
    assert_eq!(r.status, Status::BadRequest);
    assert_eq!(r.body, "Incomplete request body");
}

#[test]
fn pending_body_asks_for_more() {
    let head = format!("POST /chat HTTP/1.1\r\nX-Api-Key: {}\r\nContent-Length: 10\r\n\r\n", KEY);
    let partial = format!("{}hello", head).into_bytes();
    assert!(Router::body_pending(&partial));
    let whole = format!("{}helloworld", head).into_bytes();
    assert!(!Router::body_pending(&whole));
    assert!(!Router::body_pending(b"GET / HTTP/1.1\r\n\r\n"));
    assert!(!Router::body_pending(b"nonsense"));
}

#[test]
fn headers_end_at_the_first_empty_line() {
    let r = Request::parse("GET / HTTP/1.1\r\n\r\nX-Api-Key: a\r\n").unwrap();
    assert!(r.api_key.is_none());
}

#[test]
fn unknown_method_or_path_does_not_decode() {
    assert!(Request::parse("PUT / HTTP/1.1\r\n\r\n").is_none());
    assert!(Request::parse("GET /other HTTP/1.1\r\n\r\n").is_none());
    assert!(Request::parse("GET\r\n\r\n").is_none());
    assert!(Request::parse("").is_none());
    assert!(Request::parse("\r\n").is_none());
    assert!(Request::parse("get / HTTP/1.1\r\n\r\n").is_none());
}

#[test]
fn method_and_path_names() {
    assert_eq!(Method::from_str("GET"), Some(Method::GET));
    assert_eq!(Method::from_str("POST"), Some(Method::POST));
    assert_eq!(Method::from_str("DELETE"), None);
    assert_eq!(Path::from_str("/chat"), Some(Path::Chat));
    assert_eq!(Path::from_str("/"), Some(Path::Root));
    assert_eq!(Path::from_str("/favicon.ico"), Some(Path::Favicon));
    assert_eq!(Path::from_str("/chat/"), None);
}

#[test]
fn missing_key_is_unauthorized() {
    let r = reply_of(router().handle("GET / HTTP/1.1\r\n\r\n"));
    assert_eq!(r.status, Status::Unauthorized);
    assert_eq!(r.body, "Missing API key");
}

#[test]
fn wrong_key_is_forbidden() {
    let r = reply_of(router().handle("GET / HTTP/1.1\r\nX-Api-Key: nope\r\n\r\n"));
    assert_eq!(r.status, Status::Forbidden);
    assert_eq!(r.body, "Invalid API key");
}

#[test]
fn unknown_path_is_bad_request() {
    let text = format!("GET /admin HTTP/1.1\r\nX-Api-Key: {}\r\n\r\n", KEY);
    let r = reply_of(router().handle(&text));
    assert_eq!(r.status, Status::BadRequest);
    assert_eq!(r.body, "Invalid request");
}

#[test]
fn health_check_answers_exactly() {
    let text = format!("GET / HTTP/1.1\r\nX-Api-Key: {}\r\n\r\n", KEY);
    let r = reply_of(router().handle(&text));
    assert_eq!(r.status, Status::Success);
    assert_eq!(r.body, "{\"healthy\": true}");
    assert_eq!(r.to_wire(), "HTTP/1.1 200 OK\r\nContent-Length: 17\r\n\r\n{\"healthy\": true}");
}

#[test]
fn get_on_chat_is_method_not_allowed() {
    let text = format!("GET /chat HTTP/1.1\r\nHost: localhost\r\nX-Api-Key: {}\r\n\r\n", KEY);
    let decoded = Request::parse(&text).unwrap();
    assert_eq!(decoded.path, Path::Chat);
    assert_eq!(decoded.method, Method::GET);
    let r = reply_of(router().handle(&text));
    assert_eq!(r.status, Status::MethodNotAllowed);
    assert_eq!(r.status.code(), 405);
}

#[test]
fn post_on_root_is_method_not_allowed() {
    let text = format!("POST / HTTP/1.1\r\nX-Api-Key: {}\r\n\r\n", KEY);
    assert_eq!(reply_of(router().handle(&text)).status, Status::MethodNotAllowed);
}

#[test]
fn favicon_is_not_found() {
    let text = format!("GET /favicon.ico HTTP/1.1\r\nX-Api-Key: {}\r\n\r\n", KEY);
    let r = reply_of(router().handle(&text));
    assert_eq!(r.status, Status::NotFound);
    assert_eq!(r.status.status_line(), "404 Not Found");
}

#[test]
fn chat_without_body_is_bad_request() {
    let text = format!("POST /chat HTTP/1.1\r\nX-Api-Key: {}\r\n\r\n", KEY);
    let r = reply_of(router().handle(&text));
    assert_eq!(r.status, Status::BadRequest);
    assert_eq!(r.body, "Missing request body");
}

#[test]
fn chat_body_is_handed_over() {
    let body = "{\"prompt\":\"hi\",\"chat_history\":[{\"role\":\"admin\",\"content\":\"x\"}]}";
    let text = format!(
        "POST /chat HTTP/1.1\r\nX-Api-Key: {}\r\nContent-Length: {}\r\n\r\n{}",
        KEY,
        body.len(),
        body
    );
    match router().handle(&text) {
        Dispatch::Chat(b) => assert_eq!(b, body),
        Dispatch::Reply(_) => panic!("expected the chat body"),
    }
}

#[test]
fn invalid_role_is_rejected_before_the_backend() {
    let envelope = ChatRequest {
        prompt: "hi".to_string(),
        chat_history: Some(vec![message("admin", "x")]),
    };
    match chat_step(Some(envelope)) {
        ChatStep::Reply(r) => {
            assert_eq!(r.status, Status::BadRequest);
            assert_eq!(r.status.code(), 400);
            assert_eq!(r.body, "Invalid message role in chat history");
        }
        ChatStep::Forward { .. } => panic!("the backend must not be consulted"),
    }
}

#[test]
fn one_bad_role_rejects_the_whole_history() {
    let envelope = ChatRequest {
        prompt: "hi".to_string(),
        chat_history: Some(vec![message("user", "a"), message("assistant", "b"), message("User", "c")]),
    };
    assert!(matches!(chat_step(Some(envelope)), ChatStep::Reply(_)));
}

#[test]
fn malformed_envelope_is_bad_request() {
    match chat_step(None) {
        ChatStep::Reply(r) => {
            assert_eq!(r.status, Status::BadRequest);
            assert_eq!(r.body, "Invalid JSON body");
        }
        ChatStep::Forward { .. } => panic!("expected a reply"),
    }
}

#[test]
fn valid_envelope_is_forwarded() {
    let envelope = ChatRequest {
        prompt: "what runs?".to_string(),
        chat_history: Some(vec![message("user", "a"), message("assistant", "b")]),
    };
    match chat_step(Some(envelope)) {
        ChatStep::Forward { prompt, history } => {
            assert_eq!(prompt, "what runs?");
            assert_eq!(history.len(), 2);
            assert_eq!(history[0].role, Role::User);
            assert_eq!(history[0].content, "a");
            assert_eq!(history[1].role, Role::Assistant);
            assert_eq!(history[1].content, "b");
        }
        ChatStep::Reply(_) => panic!("expected a forward"),
    }
    let envelope = ChatRequest { prompt: "p".to_string(), chat_history: None };
    match chat_step(Some(envelope)) {
        ChatStep::Forward { history, .. } => assert!(history.is_empty()),
        ChatStep::Reply(_) => panic!("expected a forward"),
    }
}

#[test]
fn backend_outcome_becomes_the_answer() {
    let ok = backend_reply(Some("fine".to_string()));
    assert_eq!(ok.status, Status::Success);
    assert_eq!(ok.body, "fine");
    let failed = backend_reply(None);
    assert_eq!(failed.status, Status::InternalServerError);
    assert_eq!(failed.body, "Failed to generate response");
    assert_eq!(failed.status.code(), 500);
}

#[test]
fn wire_length_counts_bytes() {
    let r = Response { status: Status::Success, body: "héllo".to_string() };
    assert_eq!(r.to_wire(), "HTTP/1.1 200 OK\r\nContent-Length: 6\r\n\r\nhéllo");
    let r = Response { status: Status::BadRequest, body: String::new() };
    assert_eq!(r.to_wire(), "HTTP/1.1 400 Bad Request\r\nContent-Length: 0\r\n\r\n");
}

#[test]
fn raw_get_on_chat_is_method_not_allowed() {
    let raw = format!("GET /chat HTTP/1.1\r\nX-Api-Key: {}\r\n\r\n", KEY).into_bytes();
    let r = reply_of(router().handle_bytes(&raw));
    assert_eq!(r.status, Status::MethodNotAllowed);
    assert_eq!(r.body, "Invalid method for /chat");
}

#[test]
fn raw_health_check() {
    let raw = format!("GET / HTTP/1.1\r\nX-Api-Key: {}\r\n\r\n", KEY).into_bytes();
    let r = reply_of(router().handle_bytes(&raw));
    assert_eq!(r.status, Status::Success);
    assert_eq!(r.body, "{\"healthy\": true}");
}

#[test]
fn raw_invalid_utf8_is_replaced() {
    let mut raw = format!("POST /chat HTTP/1.1\r\nX-Api-Key: {}\r\nContent-Length: 3\r\n\r\n", KEY)
        .into_bytes();
    raw.extend_from_slice(&[b'a', 0xff, b'b']);
    match router().handle_bytes(&raw) {
        Dispatch::Chat(body) => assert_eq!(body, "a\u{fffd}b"),
        Dispatch::Reply(_) => panic!("expected the chat body"),
    }
}

#[test]
fn full_buffer_is_refused() {
    let raw = vec![b'G'; MAX_REQUEST_BYTES];
    let r = reply_of(router().handle_bytes(&raw));
    assert_eq!(r.status, Status::BadRequest);
    assert_eq!(r.body, "Request too large");
    assert_eq!(oversized_reply().body, "Request too large");
}
