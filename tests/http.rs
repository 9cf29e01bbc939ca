use tiny_http_server::bytes::{bytes_eq, find_from_exec};
use tiny_http_server::request::{HttpRequest, ParseError};
use tiny_http_server::response::{decimal_bytes, HttpResponse};
use tiny_http_server::router::{delete, get, post, Handler, HttpMethod, RouteError, Router};
use tiny_http_server::server::{Action, Server};
use tiny_http_server::status::{DigitTable, StatusCode};

type Func = fn(&HttpRequest) -> HttpResponse;

fn hello(_req: &HttpRequest) -> HttpResponse {
    HttpResponse::new(StatusCode::ok(), b"hi")
}

fn hello_router() -> Router<Func> {
    Router::new().route("/hello".to_string(), get(hello as Func)).unwrap()
}

fn run(router: &Router<Func>, raw: &[u8]) -> Option<Vec<u8>> {
    match router.dispatch(raw) {
        Action::Close => None,
        Action::Reply(bytes) => Some(bytes),
        Action::Dispatch(i, req) => Some((router.handler(i).get_func())(&req).to_bytes()),
    }
}

#[test]
fn status_digits_match_decimal_for_every_code() {
    for c in 100u16..=999 {
        let s = StatusCode::from_u16(c).unwrap();
        assert_eq!(s.as_str(), format!("{:03}", c));
        assert_eq!(s.as_u16(), c);
    }
}

#[test]
fn digit_table_holds_every_code() {
    let table = DigitTable::new();
    for c in 100u16..=999 {
        let s = StatusCode::from_u16(c).unwrap();
        assert_eq!(s.digits(&table), format!("{:03}", c).as_bytes());
    }
}

#[test]
fn status_code_range_is_enforced() {
    assert!(StatusCode::from_u16(0).is_none());
    assert!(StatusCode::from_u16(99).is_none());
    assert!(StatusCode::from_u16(1000).is_none());
    assert!(StatusCode::from_u16(100).is_some());
    assert!(StatusCode::from_u16(999).is_some());
}

#[test]
fn reason_phrases() {
    assert_eq!(StatusCode::from_u16(404).unwrap().canonical_reason(), "Not Found");
    assert_eq!(StatusCode::from_u16(200).unwrap().canonical_reason(), "OK");
    assert_eq!(StatusCode::from_u16(418).unwrap().canonical_reason(), "I'm a teapot");
    assert_eq!(StatusCode::from_u16(299).unwrap().canonical_reason(), "");
    assert_eq!(StatusCode::from_u16(999).unwrap().canonical_reason(), "");
}

#[test]
fn all_header_lines_are_parsed() {
    let req = HttpRequest::parse(b"GET /hello HTTP/1.1\r\nX: 1\r\nY: 2\r\n\r\n").unwrap();
    assert_eq!(req.headers().len(), 2);
    assert_eq!(req.headers().get("X").unwrap(), "1");
    assert_eq!(req.headers().get("Y").unwrap(), "2");
    assert!(req.headers().get("Z").is_none());
}

#[test]
fn header_count_equals_field_lines() {
    let req = HttpRequest::parse(b"GET / HTTP/1.1\r\nA: 1\r\nB: 2\r\nC: 3\r\n\r\n").unwrap();
    assert_eq!(req.headers().len(), 3);
}

#[test]
fn later_header_replaces_earlier() {
    let req = HttpRequest::parse(b"GET / HTTP/1.1\r\nA: 1\r\nA: 2\r\n\r\n").unwrap();
    assert_eq!(req.headers().len(), 1);
    assert_eq!(req.headers().get("A").unwrap(), "2");
}

#[test]
fn lines_without_separator_are_skipped() {
    let req = HttpRequest::parse(b"GET / HTTP/1.1\r\nnonsense\r\nK: v\r\nK2:v2\r\n\r\n").unwrap();
    assert_eq!(req.headers().len(), 1);
    assert_eq!(req.headers().get("K").unwrap(), "v");
}

#[test]
fn value_keeps_text_after_first_separator() {
    let req = HttpRequest::parse(b"GET / HTTP/1.1\r\nX: a: b\r\n\r\n").unwrap();
    assert_eq!(req.headers().get("X").unwrap(), "a: b");
}

#[test]
fn start_line_parts() {
    let req = HttpRequest::parse(b"POST /a/b?c=d HTTP/1.0\r\nHost: x\r\n\r\n").unwrap();
    assert_eq!(req.method(), HttpMethod::Post);
    assert_eq!(req.path(), "/a/b?c=d");
    assert_eq!(req.version(), "HTTP/1.0");
}

#[test]
fn body_is_taken_verbatim() {
    let req = HttpRequest::parse(b"POST /x HTTP/1.1\r\nContent-Length: 99\r\n\r\nabc\r\n\r\ndef").unwrap();
    assert_eq!(req.body(), b"abc\r\n\r\ndef");
}

#[test]
fn request_without_headers() {
    let req = HttpRequest::parse(b"GET /missing HTTP/1.1\r\n\r\n").unwrap();
    assert_eq!(req.path(), "/missing");
    assert_eq!(req.headers().len(), 0);
    assert_eq!(req.body(), b"");
}

#[test]
fn missing_header_end_is_rejected() {
    assert_eq!(HttpRequest::parse(b"GET / HTTP/1.1\r\nHost: x\r\n").err(), Some(ParseError::MissingHeaderEnd));
    assert_eq!(HttpRequest::parse(b"GET / HTTP/1.1").err(), Some(ParseError::MissingHeaderEnd));
}

#[test]
fn malformed_start_line_is_rejected() {
    assert_eq!(HttpRequest::parse(b"GET /\r\n\r\n").err(), Some(ParseError::MalformedStartLine));
    assert_eq!(HttpRequest::parse(b"GET / HTTP/1.1 x\r\n\r\n").err(), Some(ParseError::MalformedStartLine));
}

#[test]
fn unknown_method_is_rejected() {
    assert_eq!(HttpRequest::parse(b"FETCH / HTTP/1.1\r\n\r\n").err(), Some(ParseError::UnknownMethod));
    assert_eq!(HttpRequest::parse(b"get / HTTP/1.1\r\n\r\n").err(), Some(ParseError::UnknownMethod));
}

#[test]
fn every_method_token_is_known() {
    let cases: [(&[u8], HttpMethod); 9] = [
        (b"GET", HttpMethod::Get),
        (b"POST", HttpMethod::Post),
        (b"PUT", HttpMethod::Put),
        (b"DELETE", HttpMethod::Delete),
        (b"PATCH", HttpMethod::Patch),
        (b"HEAD", HttpMethod::Head),
        (b"OPTIONS", HttpMethod::Options),
        (b"TRACE", HttpMethod::Trace),
        (b"CONNECT", HttpMethod::Connect),
    ];
    for (t, m) in cases {
        assert_eq!(HttpMethod::from_token(t), Some(m));
    }
    assert_eq!(HttpMethod::from_token(b"PATH"), None);
}

#[test]
fn invalid_utf8_in_path_is_replaced() {
    let req = HttpRequest::parse(b"GET /\xff HTTP/1.1\r\n\r\n").unwrap();
    assert_eq!(req.path(), "/\u{FFFD}");
}

#[test]
fn response_bytes_exact() {
    let res = HttpResponse::new(StatusCode::ok(), b"hi");
    assert_eq!(res.to_bytes(), b"HTTP/1.1 200 OK\r\nContent-Length: 2\r\n\r\nhi".to_vec());
    let res = HttpResponse::status_code(StatusCode::from_u16(299).unwrap());
    assert_eq!(res.to_bytes(), b"HTTP/1.1 299 \r\nContent-Length: 0\r\n\r\n".to_vec());
    assert_eq!(res.get_status_code().as_u16(), 299);
    assert_eq!(res.get_body(), b"");
}

#[test]
fn decimal_lengths() {
    assert_eq!(decimal_bytes(0), b"0".to_vec());
    assert_eq!(decimal_bytes(7), b"7".to_vec());
    assert_eq!(decimal_bytes(1024), b"1024".to_vec());
}

#[test]
fn byte_search() {
    assert_eq!(find_from_exec(b"ab\r\ncd\r\n", b"\r\n", 0), Some(2));
    assert_eq!(find_from_exec(b"ab\r\ncd\r\n", b"\r\n", 3), Some(6));
    assert_eq!(find_from_exec(b"abc", b"\r\n", 0), None);
    assert!(bytes_eq(b"GET", b"GET"));
    assert!(!bytes_eq(b"GET", b"GE"));
}

#[test]
fn duplicate_route_is_refused() {
    let r = hello_router();
    let again = r.route("/hello".to_string(), get(hello as Func));
    assert_eq!(again.err(), Some(RouteError::DuplicateRoute));
}

#[test]
fn same_path_other_method_is_accepted() {
    let r = hello_router()
        .route("/hello".to_string(), post(hello as Func))
        .unwrap()
        .route("/other".to_string(), delete(hello as Func))
        .unwrap();
    assert_eq!(r.get_routes().len(), 3);
    assert_eq!(r.lookup("/hello", HttpMethod::Post), Some(1));
    assert_eq!(r.lookup("/other", HttpMethod::Delete), Some(2));
    assert_eq!(r.lookup("/other", HttpMethod::Get), None);
    assert_eq!(*r.handler(1).get_method(), HttpMethod::Post);
}

#[test]
fn handler_builders_bind_methods() {
    let h: Handler<u8> = Handler::new(HttpMethod::Trace, 3);
    assert_eq!(*h.get_method(), HttpMethod::Trace);
    assert_eq!(*h.get_func(), 3);
    assert_eq!(*tiny_http_server::router::put(0u8).get_method(), HttpMethod::Put);
    assert_eq!(*tiny_http_server::router::patch(0u8).get_method(), HttpMethod::Patch);
    assert_eq!(*tiny_http_server::router::head(0u8).get_method(), HttpMethod::Head);
    assert_eq!(*tiny_http_server::router::options(0u8).get_method(), HttpMethod::Options);
    assert_eq!(*tiny_http_server::router::trace(0u8).get_method(), HttpMethod::Trace);
    assert_eq!(*tiny_http_server::router::connect(0u8).get_method(), HttpMethod::Connect);
}

#[test]
fn hello_end_to_end() {
    let r = hello_router();
    let out = run(&r, b"GET /hello HTTP/1.1\r\nHost: x\r\n\r\n").unwrap();
    assert_eq!(out, b"HTTP/1.1 200 OK\r\nContent-Length: 2\r\n\r\nhi".to_vec());
}

#[test]
fn missing_path_gets_404() {
    let r = hello_router();
    let out = run(&r, b"GET /missing HTTP/1.1\r\n\r\n").unwrap();
    assert_eq!(out, b"HTTP/1.1 404 Not Found\r\nContent-Length: 0\r\n\r\n".to_vec());
}

#[test]
fn other_method_gets_404() {
    let r = hello_router();
    let out = run(&r, b"POST /hello HTTP/1.1\r\n\r\n").unwrap();
    assert_eq!(out, b"HTTP/1.1 404 Not Found\r\nContent-Length: 0\r\n\r\n".to_vec());
}

#[test]
fn empty_read_closes_without_reply() {
    let r = hello_router();
    assert!(matches!(r.dispatch(b""), Action::Close));
}

#[test]
fn malformed_request_gets_400() {
    let r = hello_router();
    let out = run(&r, b"garbage").unwrap();
    assert_eq!(out, b"HTTP/1.1 400 Bad Request\r\nContent-Length: 0\r\n\r\n".to_vec());
}

#[test]
fn dispatched_request_carries_all_headers() {
    let r = hello_router();
    match r.dispatch(b"GET /hello HTTP/1.1\r\nX: 1\r\nY: 2\r\n\r\n") {
        Action::Dispatch(i, req) => {
            assert_eq!(i, 0);
            assert_eq!(req.headers().get("X").unwrap(), "1");
            assert_eq!(req.headers().get("Y").unwrap(), "2");
        }
        _ => panic!("expected a dispatch"),
    }
}

#[test]
fn same_bytes_twice_same_response() {
    let r = hello_router();
    let raw = b"GET /hello HTTP/1.1\r\nHost: x\r\n\r\n";
    assert_eq!(run(&r, raw), run(&r, raw));
    let raw = b"GET /nope HTTP/1.1\r\n\r\n";
    assert_eq!(run(&r, raw), run(&r, raw));
}

#[test]
fn server_keeps_its_settings() {
    let s = Server::new("127.0.0.1".to_string(), 8080, hello_router());
    assert_eq!(s.ip_addr(), "127.0.0.1");
    assert_eq!(s.port(), 8080);
    assert_eq!(s.router().get_routes().len(), 1);
}
