//! The entry-point document: a well-known, unauthenticated XRD document
//! advertising where discovery queries should be sent.
//!
//! The document is a pure function of the configured base URL; the literal
//! `{uri}` placeholder is left unsubstituted for the querying client to
//! fill in.

use vstd::prelude::*;
use crate::config::Config;
use crate::media_type::MediaType;

verus! {

/// The discovery endpoint template: the base URL followed by the WebFinger
/// path, with the `{uri}` placeholder untouched.
pub open spec fn discovery_endpoint_template(base_url: Seq<char>) -> Seq<char> {
    base_url + "/.well-known/webfinger?resource={uri}"@
}

/// The XRD text up to the link template.
pub open spec fn host_meta_head() -> Seq<char> {
    "<?xml version=\"1.0\"?>\n<XRD xmlns=\"http://docs.oasis-open.org/ns/xri/xrd-1.0\">\n  <Link rel=\"lrdd\" type=\"application/xrd+xml\" template=\""@
}

/// The XRD text after the link template.
pub open spec fn host_meta_tail() -> Seq<char> {
    "\"/>\n</XRD>"@
}

/// The whole host-meta document for a given base URL.
pub open spec fn spec_host_meta(base_url: Seq<char>) -> Seq<char> {
    host_meta_head() + discovery_endpoint_template(base_url) + host_meta_tail()
}

/// The entry-point document: one link descriptor whose template embeds the
/// discovery endpoint.
pub struct EntryPointDocument {
    pub rel: String,
    pub media_type: String,
    pub template: String,
}

impl EntryPointDocument {
    /// Builds the entry-point document from the process-wide configuration;
    /// it never varies by request.
    pub fn advertise(config: &Config) -> (d: EntryPointDocument)
        ensures
            d.rel@ == "lrdd"@,
            d.media_type@ == "application/xrd+xml"@,
            d.template@ == discovery_endpoint_template(config.base_url@),
    {
        EntryPointDocument {
            rel: String::from_str("lrdd"),
            media_type: String::from_str("application/xrd+xml"),
            template: config.base_url.clone().concat("/.well-known/webfinger?resource={uri}"),
        }
    }

    /// Renders the document as XRD.
    pub fn render(&self) -> (r: String)
        ensures
            r@ == host_meta_head() + self.template@ + host_meta_tail(),
    {
        String::from_str(
            "<?xml version=\"1.0\"?>\n<XRD xmlns=\"http://docs.oasis-open.org/ns/xri/xrd-1.0\">\n  <Link rel=\"lrdd\" type=\"application/xrd+xml\" template=\"",
        ).concat(self.template.as_str()).concat("\"/>\n</XRD>")
    }
}

/// The host-meta body: always the same XRD document, built fresh from the
/// configured base URL.
pub fn webfinger_host_meta(config: &Config) -> (r: String)
    ensures
        r@ == spec_host_meta(config.base_url@),
{
    let doc = EntryPointDocument::advertise(config);
    doc.render()
}

/// The content type the host-meta document is served under.
pub fn xrd_media_type() -> (m: MediaType)
    ensures
        m@.top == "application"@,
        m@.sub == "xrd+xml"@,
        m@.params.len() == 0,
{
    MediaType::new("application", "xrd+xml")
}

} // verus!
