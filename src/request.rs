//! Extraction of the request target and the `User-Agent` header from the
//! lines of a request head.

use crate::text::{has_prefix, starts_with, suffix_from};
use vstd::prelude::*;
use vstd::string::StringSliceAdditionalSpecFns;

verus! {

/// ASCII whitespace: space, tab, line feed, form feed, carriage return.
pub open spec fn is_space(b: u8) -> bool {
    b == 32 || b == 9 || b == 10 || b == 12 || b == 13
}

/// The first index at or after `i` that does not hold whitespace.
pub open spec fn skip_spaces(s: Seq<u8>, i: int) -> int
    decreases s.len() - i,
{
    if 0 <= i < s.len() && is_space(s[i]) {
        skip_spaces(s, i + 1)
    } else {
        i
    }
}

/// The first index at or after `i` that holds whitespace, or the length.
pub open spec fn skip_word(s: Seq<u8>, i: int) -> int
    decreases s.len() - i,
{
    if 0 <= i < s.len() && !is_space(s[i]) {
        skip_word(s, i + 1)
    } else {
        i
    }
}

/// The second whitespace-separated token of a request line (the target),
/// if the line has one.
pub open spec fn request_target(line: Seq<u8>) -> Option<Seq<u8>> {
    let method_end = skip_word(line, skip_spaces(line, 0));
    let start = skip_spaces(line, method_end);
    let end = skip_word(line, start);
    if start < end {
        Some(line.subrange(start, end))
    } else {
        None
    }
}

/// The literal that introduces the `User-Agent` header.
pub open spec fn user_agent_prefix() -> Seq<u8> {
    "User-Agent: ".spec_bytes()
}

/// The index of the first empty line at or after `i`, or the number of lines.
pub open spec fn headers_end(lines: Seq<Seq<u8>>, i: int) -> int
    decreases lines.len() - i,
{
    if 0 <= i < lines.len() && lines[i].len() > 0 {
        headers_end(lines, i + 1)
    } else {
        i
    }
}

/// The value of the last `User-Agent` header among `lines[1..n]`, or empty.
pub open spec fn user_agent_in(lines: Seq<Seq<u8>>, n: int) -> Seq<u8>
    decreases n,
{
    if n <= 1 || n > lines.len() {
        Seq::empty()
    } else if has_prefix(lines[n - 1], user_agent_prefix()) {
        lines[n - 1].subrange(user_agent_prefix().len() as int, lines[n - 1].len() as int)
    } else {
        user_agent_in(lines, n - 1)
    }
}

/// What a request head says: `Some((path, user_agent))`, or `None` when the
/// request line holds fewer than two tokens. No lines, or an empty first
/// line, leave the defaults: path `/` and no user agent.
pub open spec fn parse_lines(lines: Seq<Seq<u8>>) -> Option<(Seq<u8>, Seq<u8>)> {
    if lines.len() == 0 || lines[0].len() == 0 {
        Some((seq![47u8], Seq::empty()))
    } else {
        match request_target(lines[0]) {
            Some(path) => Some((path, user_agent_in(lines, headers_end(lines, 1)))),
            None => None,
        }
    }
}

/// The request line of a GET request for `path` over HTTP/1.1.
pub open spec fn get_request_line(path: Seq<u8>) -> Seq<u8> {
    seq![71u8, 69u8, 84u8, 32u8] + path + seq![32u8, 72u8, 84u8, 84u8, 80u8, 47u8, 49u8, 46u8, 49u8]
}

/// What the server reads from a request: its target and its user agent.
#[derive(Debug, Clone)]
pub struct Request {
    pub path: Vec<u8>,
    pub user_agent: Vec<u8>,
}

/// Why a request head could not be read.
#[derive(Debug, Clone, Copy, PartialEq, Eq)]
pub enum ParseError {
    /// The request line holds no target.
    MissingTarget,
}

fn is_space_byte(b: u8) -> (r: bool)
    ensures
        r == is_space(b),
{
    b == 32 || b == 9 || b == 10 || b == 12 || b == 13
}

fn skip_spaces_from(line: &[u8], start: usize) -> (r: usize)
    requires
        start <= line@.len(),
    ensures
        r as int == skip_spaces(line@, start as int),
        start <= r <= line@.len(),
{
    let mut i = start;
    while i < line.len() && is_space_byte(line[i])
        invariant
            start <= i <= line@.len(),
            skip_spaces(line@, i as int) == skip_spaces(line@, start as int),
        decreases line@.len() - i,
    {
        i = i + 1;
    }
    i
}

fn skip_word_from(line: &[u8], start: usize) -> (r: usize)
    requires
        start <= line@.len(),
    ensures
        r as int == skip_word(line@, start as int),
        start <= r <= line@.len(),
{
    let mut i = start;
    while i < line.len() && !is_space_byte(line[i])
        invariant
            start <= i <= line@.len(),
            skip_word(line@, i as int) == skip_word(line@, start as int),
        decreases line@.len() - i,
    {
        i = i + 1;
    }
    i
}

/// The target of a request line: its second whitespace-separated token.
pub fn parse_request_line(line: &[u8]) -> (r: Option<Vec<u8>>)
    ensures
        match r {
            Some(target) => request_target(line@) == Some(target@),
            None => request_target(line@) is None,
        },
{
    let method_start = skip_spaces_from(line, 0);
    let method_end = skip_word_from(line, method_start);
    let start = skip_spaces_from(line, method_end);
    let end = skip_word_from(line, start);
    if start < end {
        let mut target: Vec<u8> = Vec::new();
        let mut i = start;
        while i < end
            invariant
                start <= i <= end <= line@.len(),
                target@ == line@.subrange(start as int, i as int),
            decreases end - i,
        {
            target.push(line[i]);
            i = i + 1;
            assert(line@.subrange(start as int, i as int) == line@.subrange(start as int, i - 1).push(
                line@[i - 1],
            ));
        }
        Some(target)
    } else {
        None
    }
}

/// Reads the path and the `User-Agent` value from the lines of a request
/// head. Scanning stops at the first empty line; later lines are ignored.
pub fn parse_request(lines: &Vec<Vec<u8>>) -> (r: Result<Request, ParseError>)
    ensures
        match r {
            Ok(req) => parse_lines(lines.deep_view()) == Some((req.path@, req.user_agent@)),
            Err(e) => parse_lines(lines.deep_view()) is None && e == ParseError::MissingTarget,
        },
{
    let ghost ls = lines.deep_view();
    assert(ls.len() == lines@.len());
    if lines.len() == 0 || lines[0].len() == 0 {
        let mut path: Vec<u8> = Vec::new();
        path.push(47u8);
        assert(path@ == seq![47u8]);
        return Ok(Request { path, user_agent: Vec::new() });
    }
    assert(ls[0] == lines@[0]@);
    let path = match parse_request_line(lines[0].as_slice()) {
        Some(path) => path,
        None => return Err(ParseError::MissingTarget),
    };
    let prefix = "User-Agent: ".as_bytes();
    let mut user_agent: Vec<u8> = Vec::new();
    let mut i: usize = 1;
    while i < lines.len() && lines[i].len() > 0
        invariant
            1 <= i <= lines@.len(),
            ls == lines.deep_view(),
            prefix@ == user_agent_prefix(),
            headers_end(ls, i as int) == headers_end(ls, 1),
            user_agent@ == user_agent_in(ls, i as int),
        decreases lines@.len() - i,
    {
        let line = lines[i].as_slice();
        assert(line@ == ls[i as int]);
        if starts_with(line, prefix) {
            user_agent = suffix_from(line, prefix.len());
        }
        i = i + 1;
    }
    assert(i == lines@.len() || ls[i as int].len() == 0);
    Ok(Request { path, user_agent })
}

proof fn lemma_skip_word_to(s: Seq<u8>, i: int, k: int)
    requires
        0 <= i <= k <= s.len(),
        forall|j: int| i <= j < k ==> !is_space(s[j]),
        k == s.len() || is_space(s[k]),
    ensures
        skip_word(s, i) == k,
    decreases k - i,
{
    if i < k {
        lemma_skip_word_to(s, i + 1, k);
    }
}

/// For every request line `GET <path> HTTP/1.1` whose path is a nonempty run
/// of non-whitespace bytes, the parsed path is exactly `<path>`, whatever
/// header lines follow.
pub proof fn lemma_get_request_path(path: Seq<u8>, headers: Seq<Seq<u8>>)
    requires
        path.len() > 0,
        forall|j: int| 0 <= j < path.len() ==> !is_space(#[trigger] path[j]),
    ensures
        request_target(get_request_line(path)) == Some(path),
        parse_lines(seq![get_request_line(path)] + headers) matches Some((p, _)) && p == path,
{
    let line = get_request_line(path);
    let n = path.len() as int;
    assert(line[0] == 71u8 && line[1] == 69u8 && line[2] == 84u8 && line[3] == 32u8);
    assert(line[4 + n] == 32u8);
    assert(skip_spaces(line, 0) == 0);
    lemma_skip_word_to(line, 0, 3);
    assert(skip_spaces(line, 4) == 4);
    assert(skip_spaces(line, 3) == 4);
    assert forall|j: int| 4 <= j < 4 + n implies !is_space(line[j]) by {
        assert(line[j] == path[j - 4]);
    }
    lemma_skip_word_to(line, 4, 4 + n);
    assert(line.subrange(4, 4 + n) == path);
    let lines = seq![line] + headers;
    assert(lines[0] == line);
}

} // verus!
