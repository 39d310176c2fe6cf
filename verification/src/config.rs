//! Client configuration: the remote API's domain and the bearer token.

use vstd::prelude::*;

verus! {

/// The `api` section of the configuration: the Canvas domain name and the
/// access token sent as a bearer credential on every request.
pub struct Api {
    pub key: String,
    pub url: String,
}

/// Everything the client needs to talk to the remote API.
pub struct Config {
    pub api: Api,
}

/// The base URL of the remote API built from a configuration:
/// `https://{domain}/api/v1`.
pub open spec fn api_url_spec(c: Config) -> Seq<char> {
    "https://"@ + c.api.url@ + "/api/v1"@
}

impl Config {
    /// The base URL of the remote API: `https://{domain}/api/v1`.
    pub fn api_url(&self) -> (r: String)
        ensures
            r@ == api_url_spec(*self),
    {
        let mut s = String::from_str("https://");
        s.append(self.api.url.as_str());
        s.append("/api/v1");
        s
    }

    /// The token placed in the `Authorization: Bearer` header.
    pub fn key(&self) -> (r: &str)
        ensures
            r@ == self.api.key@,
    {
        self.api.key.as_str()
    }
}

} // verus!
