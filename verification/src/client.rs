//! The browser-side counterpart's endpoint bookkeeping: where the ceremony
//! endpoints live. Sending the requests is transport work and stays outside
//! the library; the address arithmetic is specified here.

use vstd::prelude::*;
use vstd::string::StringExecFns;

verus! {

/// A handle on the server the client talks to.
pub struct Client {
    endpoint: String,
}

impl Client {
    /// The configured endpoint authority, e.g. a host and port.
    pub closed spec fn endpoint_view(self) -> Seq<char> {
        self.endpoint@
    }

    pub fn new(endpoint: &str) -> (c: Client)
        ensures
            c.endpoint_view() == endpoint@,
    {
        Client { endpoint: String::from_str(endpoint) }
    }

    /// The absolute URL of a ceremony endpoint: scheme, authority and path.
    pub fn url(&self, path: &str) -> (r: String)
        ensures
            r@ == "https://"@ + self.endpoint_view() + "/"@ + path@,
    {
        let mut url = String::from_str("https://");
        url.append(self.endpoint.as_str());
        url.append("/");
        url.append(path);
        url
    }
}

} // verus!
