//! The address the server listens on.

use vstd::prelude::*;

verus! {

/// Where the server listens: a host name or address, and a port, as given.
pub struct Server {
    pub host: String,
    pub port: String,
}

impl Server {
    pub fn new(host: &str, port: &str) -> (r: Self)
        ensures
            r.host@ == host@,
            r.port@ == port@,
    {
        Server { host: host.to_owned(), port: port.to_owned() }
    }

    /// The socket address to bind: `host:port`.
    pub fn address(&self) -> (r: String)
        ensures
            r@ == self.host@ + ":"@ + self.port@,
    {
        self.host.clone().concat(":").concat(self.port.as_str())
    }
}

} // verus!
