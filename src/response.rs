//! A staged HTTP/1.1 response builder.
//!
//! A response starts with its status line and the fixed server headers.
//! The content type must be set next, then the content length; only a
//! response with both has `send`, so every response on the wire carries
//! its headers in one fixed order.

use crate::text::{decimal, push_bytes, push_decimal, push_signed_decimal, push_str, signed_decimal};
use vstd::prelude::*;
use vstd::string::StringSliceAdditionalSpecFns;

verus! {

/// `\r\n`, the line terminator of the wire format.
pub open spec fn crlf() -> Seq<u8> {
    seq![13u8, 10u8]
}

/// `HTTP/1.1 <code> <text>\r\n`.
pub open spec fn status_line(code: int, text: Seq<u8>) -> Seq<u8> {
    "HTTP/1.1 ".spec_bytes() + signed_decimal(code) + seq![32u8] + text + crlf()
}

/// The `Server`, `Connection` and `Keep-Alive` headers, in that order.
pub open spec fn fixed_headers() -> Seq<u8> {
    "Server: RustServer\r\n".spec_bytes() + "Connection: Keep-Alive\r\n".spec_bytes()
        + "Keep-Alive: timeout=5, max=1000\r\n".spec_bytes()
}

/// What a response holds before its content headers: status line, then fixed headers.
pub open spec fn response_head(code: int, text: Seq<u8>) -> Seq<u8> {
    status_line(code, text) + fixed_headers()
}

/// The `Content-Type` and `Content-Length` headers followed by the blank line.
pub open spec fn content_headers(content_type: Seq<u8>, content_length: nat) -> Seq<u8> {
    "Content-Type: ".spec_bytes() + content_type + crlf() + "Content-Length: ".spec_bytes()
        + decimal(content_length) + crlf() + crlf()
}

/// A complete response on the wire: head, content headers, blank line, body,
/// with the content length equal to the length of the body.
pub open spec fn wire_response(code: int, text: Seq<u8>, content_type: Seq<u8>, body: Seq<u8>) -> Seq<u8> {
    response_head(code, text) + content_headers(content_type, body.len()) + body
}

/// Marks a response whose content type is not set yet.
#[derive(Debug, Clone, Copy)]
pub struct NoContentType;

/// A response's content type.
#[derive(Debug, Clone)]
pub struct ContentType(Vec<u8>);

/// Marks a response whose content length is not set yet.
#[derive(Debug, Clone, Copy)]
pub struct NoContentLength;

/// A response's content length in bytes.
#[derive(Debug, Clone, Copy)]
pub struct ContentLength(usize);

impl View for ContentType {
    type V = Seq<u8>;

    closed spec fn view(&self) -> Seq<u8> {
        self.0@
    }
}

impl View for ContentLength {
    type V = nat;

    closed spec fn view(&self) -> nat {
        self.0 as nat
    }
}

/// A response in progress; `T` and `L` record whether the content type and
/// the content length are set.
pub struct Response<T, L> {
    route: String,
    data: Vec<u8>,
    content_type: T,
    content_length: L,
}

impl<T, L> Response<T, L> {
    /// The route this response answers, kept for reporting.
    pub closed spec fn route_view(&self) -> Seq<char> {
        self.route@
    }

    /// The bytes assembled so far: status line and fixed headers.
    pub closed spec fn head(&self) -> Seq<u8> {
        self.data@
    }

    /// The route this response answers.
    pub fn route(&self) -> (r: &String)
        ensures
            r@ == self.route_view(),
    {
        &self.route
    }
}

impl<L> Response<ContentType, L> {
    /// The content type that was set.
    pub closed spec fn content_type_view(&self) -> Seq<u8> {
        self.content_type@
    }
}

impl<T> Response<T, ContentLength> {
    /// The content length that was set.
    pub closed spec fn content_length_view(&self) -> nat {
        self.content_length@
    }
}

impl Response<NoContentType, NoContentLength> {
    /// Starts a response with its status line and the fixed server headers.
    pub fn new(route: &str, status_code: i32, text: &str) -> (r: Self)
        ensures
            r.route_view() == route@,
            r.head() == response_head(status_code as int, text.spec_bytes()),
    {
        let mut data: Vec<u8> = Vec::new();
        push_str(&mut data, "HTTP/1.1 ");
        push_signed_decimal(&mut data, status_code);
        data.push(32u8);
        push_str(&mut data, text);
        data.push(13u8);
        data.push(10u8);
        push_str(&mut data, "Server: RustServer\r\n");
        push_str(&mut data, "Connection: Keep-Alive\r\n");
        push_str(&mut data, "Keep-Alive: timeout=5, max=1000\r\n");
        assert(data@ == response_head(status_code as int, text.spec_bytes()));
        Response {
            route: route.to_owned(),
            data,
            content_type: NoContentType,
            content_length: NoContentLength,
        }
    }

    /// Sets the content type; it can be set once, and before the content length.
    pub fn content_type(&self, content_type: &str) -> (r: Response<ContentType, NoContentLength>)
        ensures
            r.route_view() == self.route_view(),
            r.head() == self.head(),
            r.content_type_view() == content_type.spec_bytes(),
    {
        let mut data: Vec<u8> = Vec::new();
        push_bytes(&mut data, self.data.as_slice());
        let mut value: Vec<u8> = Vec::new();
        push_str(&mut value, content_type);
        Response {
            route: self.route.clone(),
            data,
            content_type: ContentType(value),
            content_length: NoContentLength,
        }
    }
}

impl Response<ContentType, NoContentLength> {
    /// Sets the content length, once the content type is set.
    pub fn content_length(&self, len: usize) -> (r: Response<ContentType, ContentLength>)
        ensures
            r.route_view() == self.route_view(),
            r.head() == self.head(),
            r.content_type_view() == self.content_type_view(),
            r.content_length_view() == len as nat,
    {
        let mut data: Vec<u8> = Vec::new();
        push_bytes(&mut data, self.data.as_slice());
        let mut value: Vec<u8> = Vec::new();
        push_bytes(&mut value, self.content_type.0.as_slice());
        Response {
            route: self.route.clone(),
            data,
            content_type: ContentType(value),
            content_length: ContentLength(len),
        }
    }
}

impl Response<ContentType, ContentLength> {
    /// Completes the response with `body` and returns the bytes to write on
    /// the connection: head, `Content-Type`, `Content-Length`, blank line, body.
    pub fn send(self, body: &[u8]) -> (wire: Vec<u8>)
        requires
            body@.len() == self.content_length_view(),
        ensures
            wire@ == self.head() + content_headers(self.content_type_view(), body@.len()) + body@,
    {
        let mut data = self.data;
        push_str(&mut data, "Content-Type: ");
        push_bytes(&mut data, self.content_type.0.as_slice());
        data.push(13u8);
        data.push(10u8);
        push_str(&mut data, "Content-Length: ");
        push_decimal(&mut data, self.content_length.0 as u64);
        data.push(13u8);
        data.push(10u8);
        data.push(13u8);
        data.push(10u8);
        push_bytes(&mut data, body);
        assert(data@ == self.head() + content_headers(self.content_type_view(), body@.len()) + body@);
        data
    }
}

} // verus!
