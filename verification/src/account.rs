//! Local accounts, the directory that looks them up, and their
//! federation-object representation.

use vstd::prelude::*;
use crate::config::Config;
use crate::strutil::str_eq;

verus! {

/// The canonical identity URI of a local account: derived deterministically
/// from the configured base URL and the username.
pub open spec fn canonical_uri(base_url: Seq<char>, username: Seq<char>) -> Seq<char> {
    base_url + "/users/"@ + username
}

/// An account record, read-only to the discovery layer.
#[derive(Debug, PartialEq, Eq)]
pub struct Account {
    pub username: String,
    pub local: bool,
    pub uri: String,
}

pub ghost struct AccountView {
    pub username: Seq<char>,
    pub local: bool,
    pub uri: Seq<char>,
}

impl View for Account {
    type V = AccountView;

    open spec fn view(&self) -> AccountView {
        AccountView { username: self.username@, local: self.local, uri: self.uri@ }
    }
}

impl Account {
    /// A local account; its canonical URI is derived from the base URL and
    /// the username.
    pub fn local_account(config: &Config, username: &str) -> (a: Account)
        ensures
            a@.username == username@,
            a@.local,
            a@.uri == canonical_uri(config.base_url@, username@),
    {
        let uri = config.base_url.clone().concat("/users/").concat(username);
        Account { username: username.to_owned(), local: true, uri }
    }

    /// Converts this account into its federation-object representation;
    /// total and deterministic.
    pub fn as_activitypub(&self) -> (obj: FederationObject)
        ensures
            obj@.id == self@.uri,
            obj@.preferred_username == self@.username,
    {
        FederationObject {
            id: self.uri.clone(),
            preferred_username: self.username.clone(),
        }
    }
}

/// The machine-readable representation of an account exchanged between
/// federated servers: a pure function of the account's public fields.
#[derive(Debug, PartialEq, Eq)]
pub struct FederationObject {
    pub id: String,
    pub preferred_username: String,
}

pub ghost struct FederationObjectView {
    pub id: Seq<char>,
    pub preferred_username: Seq<char>,
}

impl View for FederationObject {
    type V = FederationObjectView;

    open spec fn view(&self) -> FederationObjectView {
        FederationObjectView {
            id: self.id@,
            preferred_username: self.preferred_username@,
        }
    }
}

/// The first local account whose username equals `username`, if any.
pub open spec fn spec_lookup(accounts: Seq<AccountView>, username: Seq<char>) -> Option<AccountView>
    decreases accounts.len(),
{
    if accounts.len() == 0 {
        None
    } else if accounts[0].local && accounts[0].username == username {
        Some(accounts[0])
    } else {
        spec_lookup(accounts.drop_first(), username)
    }
}

/// Looks up local accounts by username.
///
/// Usernames are case-sensitive identifiers unique among local accounts;
/// the directory preserves that invariant on every insertion.
pub struct AccountDirectory {
    accounts: Vec<Account>,
}

impl View for AccountDirectory {
    type V = Seq<AccountView>;

    closed spec fn view(&self) -> Seq<AccountView> {
        self.accounts@.map_values(|a: Account| a@)
    }
}

impl AccountDirectory {
    /// Local usernames are unique.
    pub open spec fn wf(&self) -> bool {
        forall|i: int, j: int|
            0 <= i < j < self@.len() && self@[i].local && self@[j].local
                ==> self@[i].username != self@[j].username
    }

    pub fn new() -> (d: AccountDirectory)
        ensures
            d.wf(),
            d@ == Seq::<AccountView>::empty(),
    {
        let d = AccountDirectory { accounts: Vec::new() };
        assert(d@ =~= Seq::<AccountView>::empty());
        d
    }

    /// Adds an account; refuses (returning `false`, unchanged) a local
    /// account whose username is already taken by a local account.
    pub fn insert(&mut self, account: Account) -> (r: bool)
        requires
            old(self).wf(),
        ensures
            final(self).wf(),
            r == !(account@.local && spec_lookup(old(self)@, account@.username) is Some),
            r ==> final(self)@ == old(self)@.push(account@),
            !r ==> final(self)@ == old(self)@,
    {
        if account.local {
            if self.fetch_local_by_username(account.username.as_str()).is_some() {
                return false;
            }
        }
        let ghost pre = self@;
        let ghost av = account@;
        proof {
            lemma_lookup_finds_local(pre, av.username);
        }
        self.accounts.push(account);
        assert(self@ =~= pre.push(av));
        true
    }

    /// The local account named `username`, or `None` if there is none.
    pub fn fetch_local_by_username(&self, username: &str) -> (r: Option<&Account>)
        ensures
            match spec_lookup(self@, username@) {
                Some(av) => r matches Some(a) && a@ == av,
                None => r is None,
            },
    {
        let n = self.accounts.len();
        let mut i: usize = 0;
        assert(self@.skip(0) =~= self@);
        while i < n
            invariant
                n == self.accounts@.len(),
                i <= n,
                self@.len() == n,
                spec_lookup(self@, username@) == spec_lookup(self@.skip(i as int), username@),
            decreases n - i,
        {
            let a = &self.accounts[i];
            assert(a@ == self@[i as int]);
            assert(self@.skip(i as int)[0] == self@[i as int]);
            if a.local {
                if str_eq(a.username.as_str(), username) {
                    assert(spec_lookup(self@.skip(i as int), username@) == Some(a@));
                    return Some(a);
                }
            }
            assert(self@.skip(i as int).drop_first() =~= self@.skip(i + 1));
            i = i + 1;
        }
        assert(self@.skip(n as int) =~= Seq::<AccountView>::empty());
        None
    }
}

/// When no local account holds `username`, none of the directory's entries
/// is a local account with that username.
proof fn lemma_lookup_finds_local(accounts: Seq<AccountView>, username: Seq<char>)
    ensures
        spec_lookup(accounts, username) is None
            ==> forall|i: int|
                0 <= i < accounts.len() && accounts[i].local
                    ==> accounts[i].username != username,
    decreases accounts.len(),
{
    if accounts.len() > 0 {
        lemma_lookup_finds_local(accounts.drop_first(), username);
        assert forall|i: int|
            spec_lookup(accounts, username) is None && 0 <= i < accounts.len()
                && accounts[i].local implies accounts[i].username != username by {
            if i > 0 {
                assert(accounts.drop_first()[i - 1] == accounts[i]);
            }
        }
    }
}

/// Returns a user as a federation object: `Some` exactly for local accounts
/// the directory knows, with the object built from that account's fields.
pub fn ap_user_object(directory: &AccountDirectory, username: &str) -> (r: Option<
    FederationObject,
>)
    ensures
        match spec_lookup(directory@, username@) {
            Some(av) => r matches Some(obj) && obj@.id == av.uri
                && obj@.preferred_username == av.username,
            None => r is None,
        },
{
    match directory.fetch_local_by_username(username) {
        Some(account) => Some(account.as_activitypub()),
        None => None,
    }
}

} // verus!
