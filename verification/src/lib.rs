//! Federation-discovery layer of a social-networking server.
//!
//! Other servers on a federated network locate a local account's canonical
//! identity through three cooperating pieces: content negotiation that
//! classifies a request as "wants a federation object" or not
//! ([`media_type`]), a discovery-query resolver that parses an `acct:` query,
//! validates it against the server's own domain and assembles a discovery
//! document ([`webfinger`]), and a static entry-point document advertising
//! where discovery queries should be sent ([`host_meta`]).

pub mod account;
pub mod config;
pub mod host_meta;
pub mod jrd;
pub mod media_type;
pub mod strutil;
pub mod webfinger;
