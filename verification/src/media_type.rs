//! Content negotiation: decides whether a request asks for a federation
//! object.
//!
//! The input is an ordered list of client-preferred media types, already
//! sorted by descending preference (quality-value ties broken by declaration
//! order). Only the single most-preferred entry is consulted: content
//! negotiation defers to the client's explicit ranking rather than matching
//! best-effort across the whole list.

use vstd::prelude::*;
use crate::strutil::str_eq;

verus! {

/// One `key=value` parameter of a media type.
pub struct MediaTypeParam {
    pub key: String,
    pub value: String,
}

pub ghost struct MediaTypeParamView {
    pub key: Seq<char>,
    pub value: Seq<char>,
}

impl View for MediaTypeParam {
    type V = MediaTypeParamView;

    open spec fn view(&self) -> MediaTypeParamView {
        MediaTypeParamView { key: self.key@, value: self.value@ }
    }
}

/// A parsed media type: top-level type, subtype, and ordered parameters.
pub struct MediaType {
    pub top: String,
    pub sub: String,
    pub params: Vec<MediaTypeParam>,
}

pub ghost struct MediaTypeView {
    pub top: Seq<char>,
    pub sub: Seq<char>,
    pub params: Seq<MediaTypeParamView>,
}

impl View for MediaType {
    type V = MediaTypeView;

    open spec fn view(&self) -> MediaTypeView {
        MediaTypeView {
            top: self.top@,
            sub: self.sub@,
            params: self.params@.map_values(|p: MediaTypeParam| p@),
        }
    }
}

impl MediaType {
    /// A media type with no parameters.
    pub fn new(top: &str, sub: &str) -> (m: MediaType)
        ensures
            m@.top == top@,
            m@.sub == sub@,
            m@.params.len() == 0,
    {
        let m = MediaType { top: top.to_owned(), sub: sub.to_owned(), params: Vec::new() };
        assert(m@.params =~= Seq::<MediaTypeParamView>::empty());
        m
    }

    /// The `type/subtype` form, parameters omitted.
    pub fn essence(&self) -> (r: String)
        ensures
            r@ == self@.top + "/"@ + self@.sub,
    {
        self.top.clone().concat("/").concat(self.sub.as_str())
    }

    /// A media type carrying a single `key=value` parameter.
    pub fn with_params(top: &str, sub: &str, key: &str, value: &str) -> (m: MediaType)
        ensures
            m@.top == top@,
            m@.sub == sub@,
            m@.params.len() == 1,
            m@.params[0].key == key@,
            m@.params[0].value == value@,
    {
        let mut params: Vec<MediaTypeParam> = Vec::new();
        params.push(MediaTypeParam { key: key.to_owned(), value: value.to_owned() });
        let m = MediaType { top: top.to_owned(), sub: sub.to_owned(), params };
        m
    }
}

/// An ordered client preference list, most-preferred entry first.
pub struct Accept {
    entries: Vec<MediaType>,
}

impl View for Accept {
    type V = Seq<MediaTypeView>;

    closed spec fn view(&self) -> Seq<MediaTypeView> {
        self.entries@.map_values(|m: MediaType| m@)
    }
}

impl Accept {
    /// A preference list always ranks at least one media type.
    pub open spec fn wf(&self) -> bool {
        self@.len() > 0
    }

    pub fn new(entries: Vec<MediaType>) -> (a: Accept)
        requires
            entries@.len() > 0,
        ensures
            a.wf(),
            a@ == entries@.map_values(|m: MediaType| m@),
    {
        Accept { entries }
    }

    /// The single most-preferred media type.
    pub fn preferred(&self) -> (m: &MediaType)
        requires
            self.wf(),
        ensures
            m@ == self@[0],
    {
        &self.entries[0]
    }
}

/// The namespace URI of the federation vocabulary.
pub open spec fn activitystreams_ns() -> Seq<char> {
    "https://www.w3.org/ns/activitystreams"@
}

/// Exactly `application/activity+json`, with no parameters.
pub open spec fn is_activity_json(m: MediaTypeView) -> bool {
    &&& m.top == "application"@
    &&& m.sub == "activity+json"@
    &&& m.params.len() == 0
}

/// Exactly `application/ld+json` whose sole parameter is `profile` with the
/// federation vocabulary namespace as its value.
pub open spec fn is_ld_json_activitystreams(m: MediaTypeView) -> bool {
    &&& m.top == "application"@
    &&& m.sub == "ld+json"@
    &&& m.params.len() == 1
    &&& m.params[0].key == "profile"@
    &&& m.params[0].value == activitystreams_ns()
}

/// The two recognized federation media types.
pub open spec fn is_federation_media_type(m: MediaTypeView) -> bool {
    is_activity_json(m) || is_ld_json_activitystreams(m)
}

/// A preference list asks for a federation object iff its most-preferred
/// entry is a recognized federation media type.
pub open spec fn spec_classify(prefs: Seq<MediaTypeView>) -> bool {
    prefs.len() > 0 && is_federation_media_type(prefs[0])
}

/// Returns true iff `accept`'s most-preferred entry is an
/// ActivityStreams-compatible media type.
pub fn is_as(accept: &Accept) -> (r: bool)
    requires
        accept.wf(),
    ensures
        r == spec_classify(accept@),
{
    let m = accept.preferred();
    if str_eq(m.top.as_str(), "application") {
        if str_eq(m.sub.as_str(), "activity+json") {
            if m.params.len() == 0 {
                assert(is_activity_json(accept@[0]));
                return true;
            }
            assert("activity+json"@ != "ld+json"@) by {
                reveal_strlit("activity+json");
                reveal_strlit("ld+json");
                assert("activity+json"@.len() == 13);
                assert("ld+json"@.len() == 7);
            }
            assert(!is_federation_media_type(accept@[0]));
            return false;
        }
        if str_eq(m.sub.as_str(), "ld+json") {
            if m.params.len() == 1 {
                let p = &m.params[0];
                assert(p@ == accept@[0].params[0]);
                if str_eq(p.key.as_str(), "profile")
                    && str_eq(p.value.as_str(), "https://www.w3.org/ns/activitystreams") {
                    assert(is_ld_json_activitystreams(accept@[0]));
                    return true;
                }
            }
            assert(!is_federation_media_type(accept@[0]));
            return false;
        }
        assert(!is_federation_media_type(accept@[0]));
        return false;
    }
    assert(!is_federation_media_type(accept@[0]));
    false
}

/// Classification of a whole request: an absent preference header never asks
/// for a federation object.
pub open spec fn spec_classify_request(prefs: Option<Seq<MediaTypeView>>) -> bool {
    prefs matches Some(p) && spec_classify(p)
}

/// Every preference list whose most-preferred entry is exactly
/// `application/activity+json` classifies as a federation request.
pub proof fn lemma_activity_json_is_classified(prefs: Seq<MediaTypeView>)
    requires
        prefs.len() > 0,
        is_activity_json(prefs[0]),
    ensures
        spec_classify(prefs),
{
}

/// Every preference list whose most-preferred entry is
/// `application/ld+json` with the `profile` parameter set exactly to the
/// federation vocabulary namespace classifies as a federation request; with
/// any other parameter list it does not.
pub proof fn lemma_ld_json_profile_decides(prefs: Seq<MediaTypeView>)
    requires
        prefs.len() > 0,
        prefs[0].top == "application"@,
        prefs[0].sub == "ld+json"@,
    ensures
        (prefs[0].params.len() == 1 && prefs[0].params[0].key == "profile"@
            && prefs[0].params[0].value == activitystreams_ns()) ==> spec_classify(prefs),
        !(prefs[0].params.len() == 1 && prefs[0].params[0].key == "profile"@
            && prefs[0].params[0].value == activitystreams_ns()) ==> !spec_classify(prefs),
{
    assert("activity+json"@ != "ld+json"@) by {
        reveal_strlit("activity+json");
        reveal_strlit("ld+json");
        assert("activity+json"@.len() == 13);
        assert("ld+json"@.len() == 7);
    }
}

/// A preference list with no recognized federation type as its
/// most-preferred entry classifies negatively, and so does an absent
/// preference header.
pub proof fn lemma_unrecognized_is_not_classified(prefs: Seq<MediaTypeView>)
    ensures
        prefs.len() > 0 && !is_federation_media_type(prefs[0]) ==> !spec_classify(prefs),
        !spec_classify_request(None),
{
}

/// A guard that admits a request only when content negotiation asks for a
/// federation object; otherwise the request falls through to the
/// human-facing handler.
pub struct ActivityGuard();

impl ActivityGuard {
    /// `Some` iff the request's preference header asks for a federation
    /// object; `None` forwards to the fallback handler.
    pub fn from_accept(accept: Option<&Accept>) -> (r: Option<ActivityGuard>)
        requires
            accept matches Some(a) ==> a.wf(),
        ensures
            r is Some <==> spec_classify_request(match accept {
                Some(a) => Some(a@),
                None => None,
            }),
    {
        match accept {
            Some(a) => {
                if is_as(a) {
                    Some(ActivityGuard())
                } else {
                    None
                }
            },
            None => None,
        }
    }
}

} // verus!
