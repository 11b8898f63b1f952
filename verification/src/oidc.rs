//! The OpenID Connect (Google) sign-in state and the decisions made around the
//! provider calls: the fixed redirect address, the requested scopes, the client
//! settings, and the authorization code read from a callback's query string.
//! Discovery and token requests go over the network and are made by the caller.

use vstd::prelude::*;
use crate::opt_view;

verus! {

/// Where the provider sends the browser back after sign-in.
pub open spec fn redirect_address() -> Seq<char> {
    "http://localhost:8080/api/auth/google_auth/callback"@
}

/// The address that a callback's query string is read against.
pub open spec fn callback_base() -> Seq<char> {
    "http://localhost:8080/api/auth/callback?"@
}

/// Whether `url::Url::parse` accepts a string (the WHATWG URL parser).
pub uninterp spec fn url_parses(s: Seq<char>) -> bool;

/// The name/value pairs that `url::Url::query_pairs` decodes from the query of the
/// URL parsed from a string, in order (form-urlencoded, percent-decoded).
pub uninterp spec fn url_query_pairs(s: Seq<char>) -> Seq<(Seq<char>, Seq<char>)>;

/// Calls `url::Url::parse`, then `query_pairs` on the URL, owning each decoded pair.
/// Trusted: `None` exactly when the parse fails; otherwise the pairs that
/// `url_query_pairs` names for the string.
#[verifier::external_body]
fn parse_query_pairs(s: &str) -> (r: Option<Vec<(String, String)>>)
    ensures
        r is Some <==> url_parses(s@),
        r matches Some(v) ==> pairs_view(v@) == url_query_pairs(s@),
{
    match url::Url::parse(s) {
        Ok(u) => Some(u.query_pairs().map(|(k, v)| (k.into_owned(), v.into_owned())).collect()),
        Err(_) => None,
    }
}

/// The value found for `key` is that of the first pair named `key`, wherever it
/// stands: when pair `k` is named `key` and no earlier pair is, the value of pair `k`.
pub proof fn lemma_first_value_is_first_match(
    pairs: Seq<(Seq<char>, Seq<char>)>,
    key: Seq<char>,
    k: int,
)
    requires
        0 <= k < pairs.len(),
        pairs[k].0 == key,
        forall|j: int| 0 <= j < k ==> pairs[j].0 != key,
    ensures
        first_value(pairs, key) == Some(pairs[k].1),
    decreases k,
{
    if k > 0 {
        let rest = pairs.drop_first();
        assert(pairs[0].0 != key);
        assert forall|j: int| 0 <= j < k - 1 implies rest[j].0 != key by {
            assert(rest[j] == pairs[j + 1]);
        }
        assert(rest[k - 1] == pairs[k]);
        lemma_first_value_is_first_match(rest, key, k - 1);
    }
}

/// Nothing is found for `key` exactly when no pair is named `key`.
pub proof fn lemma_first_value_none_iff_absent(pairs: Seq<(Seq<char>, Seq<char>)>, key: Seq<char>)
    ensures
        first_value(pairs, key) is None <==> forall|j: int| 0 <= j < pairs.len() ==> pairs[j].0 != key,
    decreases pairs.len(),
{
    if pairs.len() > 0 {
        let rest = pairs.drop_first();
        lemma_first_value_none_iff_absent(rest, key);
        if pairs[0].0 != key {
            assert forall|j: int| 0 <= j < rest.len() implies rest[j] == pairs[j + 1] by {}
            if first_value(pairs, key) is None {
                assert forall|j: int| 0 <= j < pairs.len() implies pairs[j].0 != key by {
                    if j > 0 {
                        assert(pairs[j] == rest[j - 1]);
                    }
                }
            } else {
                let j0 = choose|j: int| 0 <= j < rest.len() && rest[j].0 == key;
                assert(pairs[j0 + 1].0 == key);
            }
        }
    }
}

/// Whether a string parses as a URL.
fn parse_ok(s: &str) -> (ok: bool)
    ensures
        ok == url_parses(s@),
{
    parse_query_pairs(s).is_some()
}

/// Pairs of strings by their characters.
pub open spec fn pairs_view(v: Seq<(String, String)>) -> Seq<(Seq<char>, Seq<char>)> {
    v.map_values(|p: (String, String)| (p.0@, p.1@))
}

/// The value of the first pair named `key`, if any.
pub open spec fn first_value(pairs: Seq<(Seq<char>, Seq<char>)>, key: Seq<char>) -> Option<Seq<char>>
    decreases pairs.len(),
{
    if pairs.len() == 0 {
        None
    } else if pairs[0].0 == key {
        Some(pairs[0].1)
    } else {
        first_value(pairs.drop_first(), key)
    }
}

/// The sign-in state of the OpenID Connect client: its credentials, the issuer and
/// redirect addresses, the provider's revocation endpoint where known, and the
/// tokens of the session.
pub struct OidcState {
    pub client_id: String,
    pub client_secret: String,
    pub issuer_url: String,
    pub redirect_url: String,
    pub revocation_endpoint: Option<String>,
    pub access_token: Option<String>,
    pub refresh_token: Option<String>,
    pub code_verifier: Option<String>,
}

/// What the OpenID Connect client is configured with.
pub struct ClientSettings {
    pub client_id: String,
    pub client_secret: String,
    pub redirect_url: String,
    pub revocation_url: String,
}

/// Why a client setting cannot be made.
#[derive(Clone, Copy, Debug, PartialEq, Eq, Structural)]
pub enum OidcError {
    /// The issuer address is not a URL.
    InvalidIssuerUrl,
    /// The redirect address is not a URL.
    InvalidRedirectUrl,
    /// No revocation endpoint is known.
    MissingRevocationEndpoint,
    /// The revocation endpoint is not a URL.
    InvalidRevocationUrl,
}

/// The scopes requested at sign-in, in order.
pub open spec fn scopes_spec() -> Seq<Seq<char>> {
    seq!["email"@, "profile"@]
}

/// The scopes requested at sign-in: the e-mail address and the profile.
pub fn authorization_scopes() -> (r: Vec<String>)
    ensures
        r@.map_values(|s: String| s@) == scopes_spec(),
{
    let mut r: Vec<String> = Vec::new();
    r.push(String::from_str("email"));
    r.push(String::from_str("profile"));
    assert(r@.map_values(|s: String| s@) =~= scopes_spec());
    r
}

/// The value of the first query pair named `code`, if any.
pub fn code_from_query_pairs(pairs: &Vec<(String, String)>) -> (r: Option<String>)
    ensures
        opt_view(r) == first_value(pairs_view(pairs@), "code"@),
{
    let key = String::from_str("code");
    let n = pairs.len();
    let mut i: usize = 0;
    assert(pairs_view(pairs@).subrange(0, n as int) =~= pairs_view(pairs@));
    while i < n
        invariant
            n == pairs@.len(),
            i <= n,
            key@ == "code"@,
            first_value(pairs_view(pairs@), "code"@) == first_value(
                pairs_view(pairs@).subrange(i as int, n as int),
                "code"@,
            ),
        decreases n - i,
    {
        let ghost rest = pairs_view(pairs@).subrange(i as int, n as int);
        assert(rest[0] == (pairs@[i as int].0@, pairs@[i as int].1@));
        if pairs[i].0 == key {
            return Some(pairs[i].1.clone());
        }
        assert(rest.drop_first() =~= pairs_view(pairs@).subrange(i + 1, n as int));
        i = i + 1;
    }
    None
}

/// The authorization code that a callback's query string carries: the first `code`
/// pair of the query, read against the callback address. `None` where that address
/// with the query does not parse as a URL, or where no `code` pair is present.
pub fn authorization_code(query_string: &str) -> (r: Option<String>)
    ensures
        ({
            let url = callback_base() + query_string@;
            opt_view(r) == (if url_parses(url) {
                first_value(url_query_pairs(url), "code"@)
            } else {
                None
            })
        }),
{
    let url = String::from_str("http://localhost:8080/api/auth/callback?").concat(query_string);
    match parse_query_pairs(url.as_str()) {
        Some(pairs) => code_from_query_pairs(&pairs),
        None => None,
    }
}

impl OidcState {
    /// The state for new client credentials and issuer: the redirect address is the
    /// callback of this service, the revocation endpoint is kept from `self`, and no
    /// session tokens are held.
    pub fn new(&self, client_id: String, client_secret: String, issuer_url: String) -> (r: Self)
        ensures
            r.client_id@ == client_id@,
            r.client_secret@ == client_secret@,
            r.issuer_url@ == issuer_url@,
            r.redirect_url@ == redirect_address(),
            opt_view(r.revocation_endpoint) == opt_view(self.revocation_endpoint),
            r.access_token is None,
            r.refresh_token is None,
            r.code_verifier is None,
    {
        let redirect_url = String::from_str("http://localhost:8080/api/auth/google_auth/callback");
        let revocation_endpoint = match &self.revocation_endpoint {
            Some(e) => Some(e.clone()),
            None => None,
        };
        OidcState {
            client_id,
            client_secret,
            issuer_url,
            redirect_url,
            revocation_endpoint,
            access_token: None,
            refresh_token: None,
            code_verifier: None,
        }
    }

    /// The issuer address that discovery starts from, given whether it parses as a
    /// URL: the issuer address itself, or `InvalidIssuerUrl`.
    pub fn discovery_issuer_checked(&self, issuer_ok: bool) -> (r: Result<String, OidcError>)
        ensures
            issuer_ok ==> (r matches Ok(s) && s@ == self.issuer_url@),
            !issuer_ok ==> r == Err::<String, OidcError>(OidcError::InvalidIssuerUrl),
    {
        if issuer_ok {
            Ok(self.issuer_url.clone())
        } else {
            Err(OidcError::InvalidIssuerUrl)
        }
    }

    /// The issuer address that discovery starts from, where it parses as a URL.
    pub fn discovery_issuer(&self) -> (r: Result<String, OidcError>)
        ensures
            url_parses(self.issuer_url@) ==> (r matches Ok(s) && s@ == self.issuer_url@),
            !url_parses(self.issuer_url@) ==> r == Err::<String, OidcError>(
                OidcError::InvalidIssuerUrl,
            ),
    {
        let ok = parse_ok(self.issuer_url.as_str());
        self.discovery_issuer_checked(ok)
    }

    /// The client settings, given whether the redirect address parses as a URL and
    /// whether the revocation endpoint (where known) does. Checked in this order: the
    /// redirect address, then that a revocation endpoint is known, then that it
    /// parses.
    pub fn client_settings_checked(&self, redirect_ok: bool, revocation_ok: bool) -> (r: Result<
        ClientSettings,
        OidcError,
    >)
        ensures
            !redirect_ok ==> r == Err::<ClientSettings, OidcError>(OidcError::InvalidRedirectUrl),
            redirect_ok && self.revocation_endpoint is None ==> r == Err::<
                ClientSettings,
                OidcError,
            >(OidcError::MissingRevocationEndpoint),
            redirect_ok && self.revocation_endpoint is Some && !revocation_ok ==> r == Err::<
                ClientSettings,
                OidcError,
            >(OidcError::InvalidRevocationUrl),
            r matches Ok(c) ==> {
                &&& redirect_ok && revocation_ok
                &&& self.revocation_endpoint matches Some(e) && c.revocation_url@ == e@
                &&& c.client_id@ == self.client_id@
                &&& c.client_secret@ == self.client_secret@
                &&& c.redirect_url@ == self.redirect_url@
            },
            redirect_ok && revocation_ok && self.revocation_endpoint is Some ==> r is Ok,
    {
        if !redirect_ok {
            return Err(OidcError::InvalidRedirectUrl);
        }
        match &self.revocation_endpoint {
            None => Err(OidcError::MissingRevocationEndpoint),
            Some(e) => {
                if !revocation_ok {
                    Err(OidcError::InvalidRevocationUrl)
                } else {
                    Ok(
                        ClientSettings {
                            client_id: self.client_id.clone(),
                            client_secret: self.client_secret.clone(),
                            redirect_url: self.redirect_url.clone(),
                            revocation_url: e.clone(),
                        },
                    )
                }
            },
        }
    }

    /// The client settings: the credentials, the redirect address and the revocation
    /// endpoint, each address checked to parse as a URL.
    pub fn client_settings(&self) -> (r: Result<ClientSettings, OidcError>)
        ensures
            !url_parses(self.redirect_url@) ==> r == Err::<ClientSettings, OidcError>(
                OidcError::InvalidRedirectUrl,
            ),
            url_parses(self.redirect_url@) && self.revocation_endpoint is None ==> r == Err::<
                ClientSettings,
                OidcError,
            >(OidcError::MissingRevocationEndpoint),
            self.revocation_endpoint matches Some(e) ==> (url_parses(self.redirect_url@) && !url_parses(e@)
                ==> r == Err::<ClientSettings, OidcError>(OidcError::InvalidRevocationUrl)),
            self.revocation_endpoint matches Some(e) ==> (url_parses(self.redirect_url@) && url_parses(e@)
                ==> (r matches Ok(c) && {
                &&& c.client_id@ == self.client_id@
                &&& c.client_secret@ == self.client_secret@
                &&& c.redirect_url@ == self.redirect_url@
                &&& c.revocation_url@ == e@
            })),
    {
        let redirect_ok = parse_ok(self.redirect_url.as_str());
        let revocation_ok = match &self.revocation_endpoint {
            Some(e) => parse_ok(e.as_str()),
            None => false,
        };
        self.client_settings_checked(redirect_ok, revocation_ok)
    }
}

} // verus!
