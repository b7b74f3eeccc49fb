//! Process-wide configuration: the server's base URL and local domain.
//!
//! Constructed once at startup and passed by reference into each component
//! that needs it; never a mutable global.

use vstd::prelude::*;

verus! {

/// The server's process-wide configuration.
///
/// `base_url` is the scheme-and-authority prefix under which this server is
/// reachable (e.g. `https://example.com`, no trailing slash); `domain` is the
/// domain that scopes local account addresses (e.g. `example.com`).
pub struct Config {
    pub base_url: String,
    pub domain: String,
}

impl Config {
    pub fn new(base_url: String, domain: String) -> (c: Config)
        ensures
            c.base_url@ == base_url@,
            c.domain@ == domain@,
    {
        Config { base_url, domain }
    }
}

} // verus!
