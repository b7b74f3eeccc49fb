//! The discovery-query resolver: parses an `acct:` discovery query,
//! validates it against the server's own domain, consults the account
//! directory and assembles a standards-shaped discovery document.

use vstd::prelude::*;
use crate::account::{AccountDirectory, AccountView, spec_lookup};
use crate::config::Config;
use crate::strutil::str_eq;

verus! {

/// How a discovery request can fail.
///
/// A domain mismatch or an unknown account is deliberately *not* an error:
/// both surface as "not found", indistinguishable from one another, so that
/// cross-domain probes cannot enumerate local usernames.
#[derive(Clone, Copy, Debug, PartialEq, Eq)]
pub enum DiscoveryError {
    /// The query lacks `acct:` or its address is not `user@domain`.
    MalformedQuery,
    /// The account directory collaborator failed.
    StorageUnavailable,
}

/// The parameters of a discovery (WebFinger) query.
#[derive(Debug)]
pub struct WFQuery {
    pub resource: String,
}

impl WFQuery {
    pub fn new(resource: String) -> (q: WFQuery)
        ensures
            q.resource@ == resource@,
    {
        WFQuery { resource }
    }
}

/// The five characters of the `acct:` scheme start at position `j` of `s`.
pub open spec fn is_acct_at(s: Seq<char>, j: int) -> bool {
    &&& j >= 0
    &&& j + 5 <= s.len()
    &&& s[j] == 'a'
    &&& s[j + 1] == 'c'
    &&& s[j + 2] == 'c'
    &&& s[j + 3] == 't'
    &&& s[j + 4] == ':'
}

/// The start of the last occurrence of `acct:` at a position below `k`.
pub open spec fn last_acct_before(s: Seq<char>, k: int) -> Option<int>
    decreases k,
{
    if k <= 0 {
        None
    } else if is_acct_at(s, k - 1) {
        Some(k - 1)
    } else {
        last_acct_before(s, k - 1)
    }
}

/// The start of the last occurrence of `acct:` in `s`, if any.
pub open spec fn last_acct_start(s: Seq<char>) -> Option<int> {
    last_acct_before(s, s.len() - 4)
}

/// How many `@` characters `s` holds.
pub open spec fn at_count(s: Seq<char>) -> nat
    decreases s.len(),
{
    if s.len() == 0 {
        0
    } else {
        at_count(s.drop_last()) + (if s.last() == '@' {
            1nat
        } else {
            0nat
        })
    }
}

/// The position of the first `@` at or after `k`, or `s.len()` if none.
pub open spec fn first_at_from(s: Seq<char>, k: int) -> int
    decreases s.len() - k,
{
    if k < 0 || k >= s.len() {
        s.len() as int
    } else if s[k] == '@' {
        k
    } else {
        first_at_from(s, k + 1)
    }
}

/// Splits an address on its single `@` into (username, domain); an address
/// with zero or more than one `@` is malformed.
pub open spec fn split_address(addr: Seq<char>) -> Option<(Seq<char>, Seq<char>)> {
    if at_count(addr) == 1 {
        let p = first_at_from(addr, 0);
        Some((addr.subrange(0, p), addr.subrange(p + 1, addr.len() as int)))
    } else {
        None
    }
}

/// Parsing a discovery query: everything after the last `acct:` is the
/// address, which must split on exactly one `@`.
pub open spec fn spec_parse_query(resource: Seq<char>) -> Result<
    (Seq<char>, Seq<char>),
    DiscoveryError,
> {
    match last_acct_start(resource) {
        None => Err(DiscoveryError::MalformedQuery),
        Some(j) => {
            let addr = resource.subrange(j + 5, resource.len() as int);
            match split_address(addr) {
                None => Err(DiscoveryError::MalformedQuery),
                Some(p) => Ok(p),
            }
        },
    }
}

/// A `(username, domain)` pair extracted from a discovery query.
#[derive(Debug, PartialEq, Eq)]
pub struct ParsedAddress {
    pub username: String,
    pub domain: String,
}

/// Parses the address out of a discovery query string; malformed input is a
/// recoverable error, never a crash.
pub fn parse_discovery_query(resource: &str) -> (r: Result<ParsedAddress, DiscoveryError>)
    ensures
        match r {
            Ok(p) => spec_parse_query(resource@) == Ok::<_, DiscoveryError>((
                p.username@,
                p.domain@,
            )),
            Err(e) => spec_parse_query(resource@) == Err::<(Seq<char>, Seq<char>), _>(e),
        },
{
    let n = resource.unicode_len();
    let mut found = false;
    let mut pos: usize = 0;
    if n >= 5 {
        let mut k: usize = n - 4;
        while k > 0 && !found
            invariant
                n == resource@.len(),
                5 <= n,
                k <= n - 4,
                !found ==> last_acct_before(resource@, (n - 4) as int) == last_acct_before(
                    resource@,
                    k as int,
                ),
                found ==> last_acct_before(resource@, (n - 4) as int) == Some(pos as int),
                found ==> is_acct_at(resource@, pos as int),
            decreases k, (if found { 0int } else { 1int }),
        {
            let j = k - 1;
            if resource.get_char(j) == 'a' && resource.get_char(j + 1) == 'c' && resource.get_char(
                j + 2,
            ) == 'c' && resource.get_char(j + 3) == 't' && resource.get_char(j + 4) == ':' {
                assert(is_acct_at(resource@, j as int));
                found = true;
                pos = j;
            } else {
                assert(!is_acct_at(resource@, j as int));
                k = k - 1;
            }
        }
    }
    if !found {
        assert(last_acct_start(resource@) is None);
        return Err(DiscoveryError::MalformedQuery);
    }
    let ghost j = pos as int;
    assert(last_acct_start(resource@) == Some(j));
    let addr = resource.substring_char(pos + 5, n);
    let ghost av = resource@.subrange(j + 5, n as int);
    assert(addr@ == av);
    let m = addr.unicode_len();

    let mut count: usize = 0;
    let mut first: usize = 0;
    let mut i: usize = 0;
    assert(addr@.take(0) =~= Seq::<char>::empty());
    while i < m
        invariant
            m == addr@.len(),
            i <= m,
            count <= i,
            count as nat == at_count(addr@.take(i as int)),
            count > 0 ==> first < i && addr@[first as int] == '@' && first_at_from(addr@, 0)
                == first as int,
            count == 0 ==> first_at_from(addr@, 0) == first_at_from(addr@, i as int),
        decreases m - i,
    {
        let c = addr.get_char(i);
        assert(addr@.take(i + 1).drop_last() =~= addr@.take(i as int));
        assert(addr@.take(i + 1).last() == addr@[i as int]);
        if c == '@' {
            if count == 0 {
                first = i;
                assert(first_at_from(addr@, i as int) == i as int);
            }
            count = count + 1;
        }
        i = i + 1;
    }
    assert(addr@.take(m as int) =~= addr@);
    if count != 1 {
        assert(split_address(av) is None);
        return Err(DiscoveryError::MalformedQuery);
    }
    assert(first_at_from(addr@, 0) == first as int);
    let username = addr.substring_char(0, first);
    let domain = addr.substring_char(first + 1, m);
    assert(username@ == av.subrange(0, first as int));
    assert(domain@ == av.subrange(first as int + 1, av.len() as int));
    Ok(ParsedAddress { username: username.to_owned(), domain: domain.to_owned() })
}

/// One typed link of a discovery document.
#[derive(Debug, PartialEq, Eq)]
pub struct Link {
    pub href: String,
    pub rel: String,
    pub media_type: String,
}

#[verifier::ext_equal]
pub ghost struct LinkView {
    pub href: Seq<char>,
    pub rel: Seq<char>,
    pub media_type: Seq<char>,
}

impl View for Link {
    type V = LinkView;

    open spec fn view(&self) -> LinkView {
        LinkView { href: self.href@, rel: self.rel@, media_type: self.media_type@ }
    }
}

/// The response to a successful discovery query: the original query string
/// echoed as subject, the account's canonical URI as sole alias, and two
/// links — the human profile page before the machine-readable self link.
#[derive(Debug, PartialEq, Eq)]
pub struct DiscoveryDocument {
    pub subject: String,
    pub aliases: Vec<String>,
    pub links: Vec<Link>,
}

#[verifier::ext_equal]
pub ghost struct DiscoveryDocumentView {
    pub subject: Seq<char>,
    pub aliases: Seq<Seq<char>>,
    pub links: Seq<LinkView>,
}

impl View for DiscoveryDocument {
    type V = DiscoveryDocumentView;

    open spec fn view(&self) -> DiscoveryDocumentView {
        DiscoveryDocumentView {
            subject: self.subject@,
            aliases: self.aliases@.map_values(|s: String| s@),
            links: self.links@.map_values(|l: Link| l@),
        }
    }
}

/// The document owed to a well-formed query for a known local account.
/// The profile-page link precedes the self link: federated peers read the
/// first matching relation.
pub open spec fn spec_document(subject: Seq<char>, uri: Seq<char>) -> DiscoveryDocumentView {
    DiscoveryDocumentView {
        subject: subject,
        aliases: seq![uri],
        links: seq![
            LinkView {
                href: uri,
                rel: "http://webfinger.net/rel/profile-page"@,
                media_type: "text/html"@,
            },
            LinkView { href: uri, rel: "self"@, media_type: "application/activity+json"@ },
        ],
    }
}

/// The whole resolution, as a function of the configured domain, the
/// directory contents and the query string: a malformed query is an error;
/// a foreign domain or an unknown local account is "not found"; a known
/// local account yields its discovery document.
pub open spec fn spec_resolve(
    domain: Seq<char>,
    accounts: Seq<AccountView>,
    resource: Seq<char>,
) -> Result<Option<DiscoveryDocumentView>, DiscoveryError> {
    match spec_parse_query(resource) {
        Err(e) => Err(e),
        Ok((username, query_domain)) => {
            if query_domain != domain {
                Ok(None)
            } else {
                match spec_lookup(accounts, username) {
                    None => Ok(None),
                    Some(a) => Ok(Some(spec_document(resource, a.uri))),
                }
            }
        },
    }
}

/// Answers a discovery query: parses it, scopes it to the server's own
/// domain, looks the account up and builds the discovery document.
pub fn webfinger_get_resource(
    config: &Config,
    directory: &AccountDirectory,
    query: &WFQuery,
) -> (r: Result<Option<DiscoveryDocument>, DiscoveryError>)
    ensures
        match r {
            Ok(Some(doc)) => spec_resolve(config.domain@, directory@, query.resource@)
                == Ok::<_, DiscoveryError>(Some(doc@)),
            Ok(None) => spec_resolve(config.domain@, directory@, query.resource@)
                == Ok::<Option<DiscoveryDocumentView>, DiscoveryError>(None),
            Err(e) => spec_resolve(config.domain@, directory@, query.resource@)
                == Err::<Option<DiscoveryDocumentView>, DiscoveryError>(e),
        },
{
    let parsed = match parse_discovery_query(query.resource.as_str()) {
        Ok(p) => p,
        Err(e) => {
            return Err(e);
        },
    };

    // A query scoped to a different domain is not this server's concern:
    // "not found", never an error, and indistinguishable from an unknown
    // account.
    if !str_eq(parsed.domain.as_str(), config.domain.as_str()) {
        return Ok(None);
    }

    let account = match directory.fetch_local_by_username(parsed.username.as_str()) {
        Some(a) => a,
        None => {
            return Ok(None);
        },
    };

    let mut aliases: Vec<String> = Vec::new();
    aliases.push(account.uri.clone());
    let mut links: Vec<Link> = Vec::new();
    links.push(
        Link {
            href: account.uri.clone(),
            rel: String::from_str("http://webfinger.net/rel/profile-page"),
            media_type: String::from_str("text/html"),
        },
    );
    links.push(
        Link {
            href: account.uri.clone(),
            rel: String::from_str("self"),
            media_type: String::from_str("application/activity+json"),
        },
    );
    let doc = DiscoveryDocument { subject: query.resource.clone(), aliases, links };
    assert(doc@.aliases =~= seq![account@.uri]);
    assert(doc@.links =~= spec_document(query.resource@, account@.uri).links);
    assert(doc@ =~= spec_document(query.resource@, account@.uri));
    Ok(Some(doc))
}

/// Resolution is idempotent: two resolutions of the same query against the
/// same configuration and unchanged directory contents are identical.
pub proof fn lemma_resolver_idempotent(
    domain: Seq<char>,
    accounts: Seq<AccountView>,
    resource: Seq<char>,
    r1: Result<Option<DiscoveryDocumentView>, DiscoveryError>,
    r2: Result<Option<DiscoveryDocumentView>, DiscoveryError>,
)
    requires
        r1 == spec_resolve(domain, accounts, resource),
        r2 == spec_resolve(domain, accounts, resource),
    ensures
        r1 == r2,
{
}

} // verus!
