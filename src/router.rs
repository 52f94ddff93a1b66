//! Route dispatch: from a parsed request to the response bytes, or to the
//! name of a file that must be read before the response can be built.
//!
//! Routes, first match wins: exactly `/`; prefix `/echo/`; prefix
//! `/user-agent`; prefix `/files/`; anything else is not found. A file name
//! that is empty, absolute, or holds a `..` segment is answered as not found
//! without touching the file system, so no request reaches outside the
//! serve directory.

use crate::request::{parse_lines, parse_request, Request};
use crate::response::{wire_response, Response};
use crate::text::{has_prefix, starts_with, suffix_from};
use vstd::prelude::*;
use vstd::string::StringSliceAdditionalSpecFns;

verus! {

/// The four routes of the server, and the fallback.
#[derive(Debug, Clone, Copy, PartialEq, Eq, Structural)]
pub enum Route {
    Root,
    Echo,
    UserAgent,
    Files,
    NotFound,
}

pub open spec fn echo_prefix() -> Seq<u8> {
    "/echo/".spec_bytes()
}

pub open spec fn user_agent_route() -> Seq<u8> {
    "/user-agent".spec_bytes()
}

pub open spec fn files_prefix() -> Seq<u8> {
    "/files/".spec_bytes()
}

pub open spec fn text_plain() -> Seq<u8> {
    "text/plain".spec_bytes()
}

pub open spec fn octet_stream() -> Seq<u8> {
    "application/octet-stream".spec_bytes()
}

pub open spec fn ok_text() -> Seq<u8> {
    "OK".spec_bytes()
}

pub open spec fn not_found_text() -> Seq<u8> {
    "NOT FOUND".spec_bytes()
}

pub open spec fn server_error_text() -> Seq<u8> {
    "Internal Server Error".spec_bytes()
}

pub open spec fn bad_request_text() -> Seq<u8> {
    "Bad Request".spec_bytes()
}

/// The route that serves `path`.
pub open spec fn route_of(path: Seq<u8>) -> Route {
    if path == seq![47u8] {
        Route::Root
    } else if has_prefix(path, echo_prefix()) {
        Route::Echo
    } else if has_prefix(path, user_agent_route()) {
        Route::UserAgent
    } else if has_prefix(path, files_prefix()) {
        Route::Files
    } else {
        Route::NotFound
    }
}

/// The part of a `/files/` path after the prefix.
pub open spec fn file_name_of(path: Seq<u8>) -> Seq<u8> {
    path.subrange(files_prefix().len() as int, path.len() as int)
}

/// Whether a `..` segment starts at index `i` of `name`.
pub open spec fn parent_segment_at(name: Seq<u8>, i: int) -> bool {
    &&& 0 <= i
    &&& i + 2 <= name.len()
    &&& name[i] == 46u8
    &&& name[i + 1] == 46u8
    &&& (i == 0 || name[i - 1] == 47u8)
    &&& (i + 2 == name.len() || name[i + 2] == 47u8)
}

/// A file name that stays under the serve directory: nonempty, relative,
/// and without a `..` segment.
pub open spec fn is_safe_file_name(name: Seq<u8>) -> bool {
    &&& name.len() > 0
    &&& name[0] != 47u8
    &&& forall|i: int| !parent_segment_at(name, i)
}

/// Whether answering `path` takes a file read.
pub open spec fn wants_file(path: Seq<u8>) -> bool {
    route_of(path) == Route::Files && is_safe_file_name(file_name_of(path))
}

/// The response to `path` when no file read is involved.
pub open spec fn reply_for(path: Seq<u8>, user_agent: Seq<u8>) -> Seq<u8> {
    match route_of(path) {
        Route::Root => wire_response(200, ok_text(), text_plain(), Seq::empty()),
        Route::Echo => wire_response(
            200,
            ok_text(),
            text_plain(),
            path.subrange(echo_prefix().len() as int, path.len() as int),
        ),
        Route::UserAgent => wire_response(200, ok_text(), text_plain(), user_agent),
        Route::Files => wire_response(404, not_found_text(), octet_stream(), Seq::empty()),
        Route::NotFound => wire_response(404, not_found_text(), text_plain(), Seq::empty()),
    }
}

/// What the server does next for a request.
#[derive(Debug, Clone)]
pub enum Action {
    /// Write these bytes on the connection.
    Reply(Vec<u8>),
    /// Read this file under the serve directory and pass the outcome to
    /// `file_response`.
    ReadFile(Vec<u8>),
}

/// How reading a requested file went.
#[derive(Debug, Clone)]
pub enum FileOutcome {
    /// The file was read whole.
    Contents(Vec<u8>),
    /// The file does not exist or cannot be opened.
    Missing,
    /// The file was opened but reading it failed.
    ReadFailed,
}

/// Whether `a` is the right action for a request for `path` from `user_agent`.
pub open spec fn is_action_for(a: Action, path: Seq<u8>, user_agent: Seq<u8>) -> bool {
    match a {
        Action::Reply(wire) => !wants_file(path) && wire@ == reply_for(path, user_agent),
        Action::ReadFile(name) => wants_file(path) && name@ == file_name_of(path),
    }
}

/// The response to a `/files/` request once the file was tried.
pub open spec fn file_reply(outcome: FileOutcome) -> Seq<u8> {
    match outcome {
        FileOutcome::Contents(contents) => wire_response(200, ok_text(), octet_stream(), contents@),
        FileOutcome::Missing => wire_response(404, not_found_text(), octet_stream(), Seq::empty()),
        FileOutcome::ReadFailed => wire_response(
            500,
            server_error_text(),
            octet_stream(),
            Seq::empty(),
        ),
    }
}

/// The response to a request whose request line holds no target.
pub open spec fn bad_request_reply() -> Seq<u8> {
    wire_response(400, bad_request_text(), text_plain(), Seq::empty())
}

/// A whole response through the staged builder.
fn build(route: &str, status_code: i32, text: &str, content_type: &str, body: &[u8])
    -> (wire: Vec<u8>)
    ensures
        wire@ == wire_response(
            status_code as int,
            text.spec_bytes(),
            content_type.spec_bytes(),
            body@,
        ),
{
    let response = Response::new(route, status_code, text);
    let response = response.content_type(content_type);
    let response = response.content_length(body.len());
    response.send(body)
}

/// The route that serves `path`.
pub fn route(path: &[u8]) -> (r: Route)
    ensures
        r == route_of(path@),
{
    if path.len() == 1 && path[0] == 47u8 {
        assert(path@ == seq![47u8]);
        Route::Root
    } else if starts_with(path, "/echo/".as_bytes()) {
        Route::Echo
    } else if starts_with(path, "/user-agent".as_bytes()) {
        Route::UserAgent
    } else if starts_with(path, "/files/".as_bytes()) {
        Route::Files
    } else {
        Route::NotFound
    }
}

/// Whether `name` stays under the serve directory.
pub fn is_safe_name(name: &[u8]) -> (r: bool)
    ensures
        r == is_safe_file_name(name@),
{
    if name.len() == 0 || name[0] == 47u8 {
        return false;
    }
    let mut i: usize = 0;
    while name.len() - i >= 2
        invariant
            i <= name@.len(),
            name@.len() > 0,
            name@[0] != 47u8,
            forall|j: int| 0 <= j < i ==> !parent_segment_at(name@, j),
        decreases name@.len() - i,
    {
        if name[i] == 46u8 && name[i + 1] == 46u8 && (i == 0 || name[i - 1] == 47u8) && (i + 2
            == name.len() || name[i + 2] == 47u8) {
            assert(parent_segment_at(name@, i as int));
            return false;
        }
        i = i + 1;
    }
    true
}

/// The next step for a parsed request: the response itself, or the file to
/// read first.
pub fn dispatch(req: &Request) -> (a: Action)
    ensures
        is_action_for(a, req.path@, req.user_agent@),
{
    let path = req.path.as_slice();
    match route(path) {
        Route::Root => Action::Reply(build("/", 200, "OK", "text/plain", &[])),
        Route::Echo => {
            let body = suffix_from(path, "/echo/".as_bytes().len());
            Action::Reply(build("/echo", 200, "OK", "text/plain", body.as_slice()))
        },
        Route::UserAgent => Action::Reply(
            build("/user-agent", 200, "OK", "text/plain", req.user_agent.as_slice()),
        ),
        Route::Files => {
            let name = suffix_from(path, "/files/".as_bytes().len());
            if is_safe_name(name.as_slice()) {
                Action::ReadFile(name)
            } else {
                Action::Reply(build("/files", 404, "NOT FOUND", "application/octet-stream", &[]))
            }
        },
        Route::NotFound => Action::Reply(build("/", 404, "NOT FOUND", "text/plain", &[])),
    }
}

/// The response to a `/files/` request, given how reading the file went.
pub fn file_response(outcome: FileOutcome) -> (wire: Vec<u8>)
    ensures
        wire@ == file_reply(outcome),
{
    match outcome {
        FileOutcome::Contents(contents) => build(
            "/files",
            200,
            "OK",
            "application/octet-stream",
            contents.as_slice(),
        ),
        FileOutcome::Missing => build("/files", 404, "NOT FOUND", "application/octet-stream", &[]),
        FileOutcome::ReadFailed => build(
            "/files",
            500,
            "Internal Server Error",
            "application/octet-stream",
            &[],
        ),
    }
}

/// The response to a request whose request line holds no target.
pub fn bad_request_response() -> (wire: Vec<u8>)
    ensures
        wire@ == bad_request_reply(),
{
    build("/", 400, "Bad Request", "text/plain", &[])
}

/// The next step for a request, from the lines of its head: a 400 response
/// when the request line holds no target, else what `dispatch` decides.
pub fn handle_request(lines: &Vec<Vec<u8>>) -> (a: Action)
    ensures
        match parse_lines(lines.deep_view()) {
            Some((path, user_agent)) => is_action_for(a, path, user_agent),
            None => a matches Action::Reply(wire) && wire@ == bad_request_reply(),
        },
{
    match parse_request(lines) {
        Ok(req) => dispatch(&req),
        Err(_) => Action::Reply(bad_request_response()),
    }
}

/// Whether `wire` is a complete response: status line, `Server`,
/// `Connection`, `Keep-Alive`, `Content-Type`, a `Content-Length` equal to
/// the byte length of the body, a blank line, then the body.
pub open spec fn is_complete_response(wire: Seq<u8>) -> bool {
    exists|code: int, text: Seq<u8>, content_type: Seq<u8>, body: Seq<u8>|
        wire == #[trigger] wire_response(code, text, content_type, body)
}

/// Every response the server produces, for any request path and user agent,
/// for any outcome of a file read, and for a malformed request, is complete:
/// its headers come in the fixed order and its `Content-Length` is the exact
/// byte length of its body.
pub proof fn lemma_responses_are_complete(path: Seq<u8>, user_agent: Seq<u8>, outcome: FileOutcome)
    ensures
        is_complete_response(reply_for(path, user_agent)),
        is_complete_response(file_reply(outcome)),
        is_complete_response(bad_request_reply()),
{
    match route_of(path) {
        Route::Root => {
            assert(reply_for(path, user_agent) == wire_response(200, ok_text(), text_plain(), Seq::empty()));
        },
        Route::Echo => {
            let body = path.subrange(echo_prefix().len() as int, path.len() as int);
            assert(reply_for(path, user_agent) == wire_response(200, ok_text(), text_plain(), body));
        },
        Route::UserAgent => {
            assert(reply_for(path, user_agent) == wire_response(200, ok_text(), text_plain(), user_agent));
        },
        Route::Files => {
            assert(reply_for(path, user_agent) == wire_response(404, not_found_text(), octet_stream(), Seq::empty()));
        },
        Route::NotFound => {
            assert(reply_for(path, user_agent) == wire_response(404, not_found_text(), text_plain(), Seq::empty()));
        },
    }
    match outcome {
        FileOutcome::Contents(contents) => {
            assert(file_reply(outcome) == wire_response(200, ok_text(), octet_stream(), contents@));
        },
        FileOutcome::Missing => {
            assert(file_reply(outcome) == wire_response(404, not_found_text(), octet_stream(), Seq::empty()));
        },
        FileOutcome::ReadFailed => {
            assert(file_reply(outcome) == wire_response(500, server_error_text(), octet_stream(), Seq::empty()));
        },
    }
    assert(bad_request_reply() == wire_response(400, bad_request_text(), text_plain(), Seq::empty()));
}

} // verus!
