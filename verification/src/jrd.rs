//! Rendering a discovery document as a JRD (JSON resource descriptor) body.
//!
//! The document shape is fixed — one alias, the profile-page link before the
//! self link — so the body is plain concatenation, with `"` and `\` escaped
//! inside embedded strings.

use vstd::prelude::*;
use crate::media_type::MediaType;
use crate::webfinger::{DiscoveryDocument, DiscoveryDocumentView};

verus! {

/// How one character is written inside a JSON string literal.
pub open spec fn esc_char(c: char) -> Seq<char> {
    if c == '"' {
        seq!['\\', '"']
    } else if c == '\\' {
        seq!['\\', '\\']
    } else {
        seq![c]
    }
}

/// A string as written inside a JSON string literal.
pub open spec fn spec_escape(s: Seq<char>) -> Seq<char>
    decreases s.len(),
{
    if s.len() == 0 {
        Seq::empty()
    } else {
        spec_escape(s.drop_last()) + esc_char(s.last())
    }
}

/// Escapes `"` and `\` for embedding in a JSON string literal.
pub fn json_escape(s: &str) -> (r: String)
    ensures
        r@ == spec_escape(s@),
{
    let n = s.unicode_len();
    let mut out = String::new();
    let mut i: usize = 0;
    assert(s@.take(0) =~= Seq::<char>::empty());
    while i < n
        invariant
            n == s@.len(),
            i <= n,
            out@ == spec_escape(s@.take(i as int)),
        decreases n - i,
    {
        let c = s.get_char(i);
        assert(s@.take(i + 1).drop_last() =~= s@.take(i as int));
        assert(s@.take(i + 1).last() == s@[i as int]);
        if c == '"' {
            out.append("\\\"");
            assert("\\\""@ =~= seq!['\\', '"']) by {
                reveal_strlit("\\\"");
            }
        } else if c == '\\' {
            out.append("\\\\");
            assert("\\\\"@ =~= seq!['\\', '\\']) by {
                reveal_strlit("\\\\");
            }
        } else {
            let piece = s.substring_char(i, i + 1);
            out.append(piece);
            assert(piece@ =~= seq![c]);
        }
        i = i + 1;
    }
    assert(s@.take(n as int) =~= s@);
    out
}

/// The JRD body of a discovery document: aliases, then the links in order,
/// then the subject.
pub open spec fn spec_render_jrd(d: DiscoveryDocumentView) -> Seq<char> {
    "{\"aliases\":[\""@ + spec_escape(d.aliases[0]) + "\"],\"links\":[{\"href\":\""@
        + spec_escape(d.links[0].href) + "\",\"rel\":\""@ + spec_escape(d.links[0].rel)
        + "\",\"type\":\""@ + spec_escape(d.links[0].media_type) + "\"},{\"href\":\""@
        + spec_escape(d.links[1].href) + "\",\"rel\":\""@ + spec_escape(d.links[1].rel)
        + "\",\"type\":\""@ + spec_escape(d.links[1].media_type) + "\"}],\"subject\":\""@
        + spec_escape(d.subject) + "\"}"@
}

/// Renders a discovery document as its JRD body.
pub fn render_jrd(doc: &DiscoveryDocument) -> (r: String)
    requires
        doc@.aliases.len() == 1,
        doc@.links.len() == 2,
    ensures
        r@ == spec_render_jrd(doc@),
{
    let mut out = String::from_str("{\"aliases\":[\"");
    let alias = &doc.aliases[0];
    assert(alias@ == doc@.aliases[0]);
    out.append(json_escape(alias.as_str()).as_str());
    out.append("\"],\"links\":[{\"href\":\"");
    let link0 = &doc.links[0];
    assert(link0@ == doc@.links[0]);
    out.append(json_escape(link0.href.as_str()).as_str());
    out.append("\",\"rel\":\"");
    out.append(json_escape(link0.rel.as_str()).as_str());
    out.append("\",\"type\":\"");
    out.append(json_escape(link0.media_type.as_str()).as_str());
    out.append("\"},{\"href\":\"");
    let link1 = &doc.links[1];
    assert(link1@ == doc@.links[1]);
    out.append(json_escape(link1.href.as_str()).as_str());
    out.append("\",\"rel\":\"");
    out.append(json_escape(link1.rel.as_str()).as_str());
    out.append("\",\"type\":\"");
    out.append(json_escape(link1.media_type.as_str()).as_str());
    out.append("\"}],\"subject\":\"");
    out.append(json_escape(doc.subject.as_str()).as_str());
    out.append("\"}");
    out
}

/// The content type a discovery document is served under.
pub fn jrd_media_type() -> (m: MediaType)
    ensures
        m@.top == "application"@,
        m@.sub == "jrd+json"@,
        m@.params.len() == 0,
{
    MediaType::new("application", "jrd+json")
}

} // verus!
