//! A minimal HTTP/1.1 server core: request parsing, route dispatch and
//! response construction, all as verified functions on byte sequences.

pub mod request;
pub mod response;
pub mod router;
pub mod server;
pub mod text;
