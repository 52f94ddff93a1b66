use http_server::request::{parse_request, parse_request_line, ParseError};
use http_server::response::Response;
use http_server::router::{
    bad_request_response, dispatch, file_response, handle_request, is_safe_name, route, Action,
    FileOutcome, Route,
};
use http_server::server::Server;
use http_server::text::{push_decimal, push_signed_decimal, starts_with, suffix_from};

fn head(lines: &[&str]) -> Vec<Vec<u8>> {
    lines.iter().map(|l| l.as_bytes().to_vec()).collect()
}

fn reply(action: Action) -> String {
    match action {
        Action::Reply(wire) => String::from_utf8(wire).unwrap(),
        Action::ReadFile(name) => panic!("unexpected file read of {:?}", name),
    }
}

fn expected(code: &str, content_type: &str, body: &str) -> String {
    format!(
        "HTTP/1.1 {}\r\nServer: RustServer\r\nConnection: Keep-Alive\r\nKeep-Alive: timeout=5, max=1000\r\nContent-Type: {}\r\nContent-Length: {}\r\n\r\n{}",
        code,
        content_type,
        body.len(),
        body
    )
}

fn header_value<'a>(wire: &'a str, name: &str) -> &'a str {
    let head = wire.split("\r\n\r\n").next().unwrap();
    let prefix = format!("{}: ", name);
    head.split("\r\n").find(|l| l.starts_with(&prefix)).unwrap()[prefix.len()..].as_ref()
}

#[test]
fn request_line_yields_path() {
    for path in ["/", "/echo/hello", "/files/a/b.txt", "/user-agent", "/x?y=z"] {
        let line = format!("GET {} HTTP/1.1", path);
        assert_eq!(parse_request_line(line.as_bytes()), Some(path.as_bytes().to_vec()));
        let req = parse_request(&head(&[&line, "Host: x", ""])).unwrap();
        assert_eq!(req.path, path.as_bytes().to_vec());
    }
}

#[test]
fn request_line_with_extra_whitespace() {
    assert_eq!(parse_request_line(b"  GET \t /a   HTTP/1.1 "), Some(b"/a".to_vec()));
}

#[test]
fn request_line_without_target() {
    assert_eq!(parse_request_line(b"GET"), None);
    assert_eq!(parse_request_line(b"   "), None);
    assert_eq!(parse_request(&head(&["GET", ""])).unwrap_err(), ParseError::MissingTarget);
}

#[test]
fn echo_route() {
    let wire = reply(handle_request(&head(&["GET /echo/hello HTTP/1.1", ""])));
    assert_eq!(wire, expected("200 OK", "text/plain", "hello"));
    assert_eq!(header_value(&wire, "Content-Length"), "5");
}

#[test]
fn root_route() {
    let wire = reply(handle_request(&head(&["GET / HTTP/1.1", ""])));
    assert_eq!(wire, expected("200 OK", "text/plain", ""));
    assert_eq!(header_value(&wire, "Content-Length"), "0");
}

#[test]
fn user_agent_route() {
    let lines = head(&["GET /user-agent HTTP/1.1", "Host: localhost", "User-Agent: test-client/1.0", ""]);
    let wire = reply(handle_request(&lines));
    assert_eq!(wire, expected("200 OK", "text/plain", "test-client/1.0"));
}

#[test]
fn user_agent_missing_is_empty() {
    let wire = reply(handle_request(&head(&["GET /user-agent HTTP/1.1", ""])));
    assert_eq!(wire, expected("200 OK", "text/plain", ""));
}

#[test]
fn user_agent_last_header_wins_and_body_is_ignored() {
    let lines = head(&[
        "GET /user-agent HTTP/1.1",
        "User-Agent: first",
        "User-Agent: second",
        "User-Agent:nospace",
        "",
        "User-Agent: after-blank",
    ]);
    let req = parse_request(&lines).unwrap();
    assert_eq!(req.user_agent, b"second".to_vec());
}

#[test]
fn existing_file_route() {
    let req = parse_request(&head(&["GET /files/report.txt HTTP/1.1", ""])).unwrap();
    match dispatch(&req) {
        Action::ReadFile(name) => assert_eq!(name, b"report.txt".to_vec()),
        Action::Reply(_) => panic!("expected a file read"),
    }
    let wire = String::from_utf8(file_response(FileOutcome::Contents(b"abc".to_vec()))).unwrap();
    assert_eq!(wire, expected("200 OK", "application/octet-stream", "abc"));
    assert_eq!(header_value(&wire, "Content-Length"), "3");
}

#[test]
fn missing_file_route() {
    match handle_request(&head(&["GET /files/missing.txt HTTP/1.1", ""])) {
        Action::ReadFile(name) => assert_eq!(name, b"missing.txt".to_vec()),
        Action::Reply(_) => panic!("expected a file read"),
    }
    let wire = String::from_utf8(file_response(FileOutcome::Missing)).unwrap();
    assert_eq!(wire, expected("404 NOT FOUND", "application/octet-stream", ""));
}

#[test]
fn unreadable_file_is_server_error() {
    let wire = String::from_utf8(file_response(FileOutcome::ReadFailed)).unwrap();
    assert_eq!(wire, expected("500 Internal Server Error", "application/octet-stream", ""));
}

#[test]
fn binary_file_contents_pass_through() {
    let contents = vec![0u8, 255, 128, 10, 13];
    let wire = file_response(FileOutcome::Contents(contents.clone()));
    assert!(wire.ends_with(&contents));
    let text = String::from_utf8_lossy(&wire);
    assert!(text.contains("Content-Length: 5\r\n"));
}

#[test]
fn unknown_route() {
    let wire = reply(handle_request(&head(&["GET /unknown HTTP/1.1", ""])));
    assert_eq!(wire, expected("404 NOT FOUND", "text/plain", ""));
}

#[test]
fn echo_without_slash_is_unknown() {
    let wire = reply(handle_request(&head(&["GET /echo HTTP/1.1", ""])));
    assert_eq!(wire, expected("404 NOT FOUND", "text/plain", ""));
}

#[test]
fn malformed_request_is_bad_request() {
    let wire = reply(handle_request(&head(&["GARBAGE", ""])));
    assert_eq!(wire, expected("400 Bad Request", "text/plain", ""));
    assert_eq!(String::from_utf8(bad_request_response()).unwrap(), wire);
}

#[test]
fn empty_head_defaults_to_root() {
    let wire = reply(handle_request(&Vec::new()));
    assert_eq!(wire, expected("200 OK", "text/plain", ""));
    let wire = reply(handle_request(&head(&["", "GET /unknown HTTP/1.1"])));
    assert_eq!(wire, expected("200 OK", "text/plain", ""));
}

#[test]
fn traversal_is_refused_without_file_read() {
    for path in ["/files/../secret", "/files/a/../../b", "/files/..", "/files//etc/passwd", "/files/"] {
        let line = format!("GET {} HTTP/1.1", path);
        let wire = reply(handle_request(&head(&[&line, ""])));
        assert_eq!(wire, expected("404 NOT FOUND", "application/octet-stream", ""));
    }
    assert!(is_safe_name(b"a/..b/c..d"));
    assert!(is_safe_name(b"dir/report.txt"));
    assert!(!is_safe_name(b"dir/.."));
}

#[test]
fn routes_match_in_order() {
    assert_eq!(route(b"/"), Route::Root);
    assert_eq!(route(b"/echo/"), Route::Echo);
    assert_eq!(route(b"/user-agent/more"), Route::UserAgent);
    assert_eq!(route(b"/files/x"), Route::Files);
    assert_eq!(route(b"/files"), Route::NotFound);
    assert_eq!(route(b""), Route::NotFound);
}

#[test]
fn every_response_has_ordered_headers_and_exact_length() {
    let heads = [
        vec!["GET / HTTP/1.1", ""],
        vec!["GET /echo/abc%20def HTTP/1.1", ""],
        vec!["GET /user-agent HTTP/1.1", "User-Agent: curl/8.0", ""],
        vec!["GET /nothing HTTP/1.1", ""],
        vec!["BAD", ""],
    ];
    for lines in heads.iter() {
        let wire = reply(handle_request(&head(lines)));
        let (head_part, body) = wire.split_once("\r\n\r\n").unwrap();
        let names: Vec<&str> = head_part.split("\r\n").skip(1).map(|l| l.split(": ").next().unwrap()).collect();
        assert_eq!(names, vec!["Server", "Connection", "Keep-Alive", "Content-Type", "Content-Length"]);
        assert!(head_part.starts_with("HTTP/1.1 "));
        assert_eq!(header_value(&wire, "Content-Length"), body.len().to_string());
    }
}

#[test]
fn builder_stages() {
    let r = Response::new("/x", 201, "Created");
    assert_eq!(r.route(), "/x");
    let r = r.content_type("text/html");
    let r = r.content_length(2);
    let wire = String::from_utf8(r.send(b"hi")).unwrap();
    assert_eq!(wire, expected("201 Created", "text/html", "hi"));
}

#[test]
fn builder_negative_status_code() {
    let r = Response::new("/", -7, "Odd").content_type("a").content_length(0);
    let wire = String::from_utf8(r.send(b"")).unwrap();
    assert!(wire.starts_with("HTTP/1.1 -7 Odd\r\n"));
}

#[test]
fn decimal_rendering() {
    let mut out = Vec::new();
    push_decimal(&mut out, 0);
    push_decimal(&mut out, 1234567890);
    push_decimal(&mut out, u64::MAX);
    assert_eq!(out, format!("01234567890{}", u64::MAX).into_bytes());
    let mut out = Vec::new();
    push_signed_decimal(&mut out, i32::MIN);
    assert_eq!(out, i32::MIN.to_string().into_bytes());
}

#[test]
fn byte_helpers() {
    assert!(starts_with(b"/echo/x", b"/echo/"));
    assert!(!starts_with(b"/ech", b"/echo/"));
    assert!(starts_with(b"abc", b""));
    assert_eq!(suffix_from(b"/files/a.txt", 7), b"a.txt".to_vec());
    assert_eq!(suffix_from(b"abc", 3), Vec::<u8>::new());
}

#[test]
fn server_address() {
    let s = Server::new("127.0.0.1", "4221");
    assert_eq!(s.host, "127.0.0.1");
    assert_eq!(s.port, "4221");
    assert_eq!(s.address(), "127.0.0.1:4221");
}
