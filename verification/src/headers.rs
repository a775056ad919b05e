//! Header sets for the REST transport.
//!
//! [`HeaderSet`] is an ordered list of name/value pairs; [`SecurityHeaders`]
//! holds the security-related header values a session accumulates and
//! derives the exact header set each protocol version requires.

use vstd::prelude::*;

use crate::models::AuthVersion;
use crate::strutil::{
    opt_or_empty, spec_eq_ignore_ascii_case, spec_opt_or_empty, str_eq, str_eq_ignore_ascii_case,
};

verus! {

/// An ordered set of HTTP header name/value pairs.
#[derive(Clone, Debug)]
pub struct HeaderSet {
    pub entries: Vec<(String, String)>,
}

/// First value paired with `key`, if any.
pub open spec fn spec_header_get(s: Seq<(Seq<char>, Seq<char>)>, key: Seq<char>) -> Option<
    Seq<char>,
>
    decreases s.len(),
{
    if s.len() == 0 {
        None
    } else if s[0].0 == key {
        Some(s[0].1)
    } else {
        spec_header_get(s.drop_first(), key)
    }
}

impl View for HeaderSet {
    type V = Seq<(Seq<char>, Seq<char>)>;

    open spec fn view(&self) -> Seq<(Seq<char>, Seq<char>)> {
        self.entries@.map_values(|e: (String, String)| (e.0@, e.1@))
    }
}

impl HeaderSet {
    /// The empty header set.
    pub fn new() -> (r: HeaderSet)
        ensures
            r@ == Seq::<(Seq<char>, Seq<char>)>::empty(),
    {
        let r = HeaderSet { entries: Vec::new() };
        proof {
            assert(r@ =~= Seq::<(Seq<char>, Seq<char>)>::empty());
        }
        r
    }

    /// Appends one header pair.
    pub fn push(&mut self, name: String, value: String)
        ensures
            final(self)@ == old(self)@.push((name@, value@)),
    {
        let ghost before = self@;
        let ghost pair_v = (name@, value@);
        self.entries.push((name, value));
        proof {
            assert(self@ =~= before.push(pair_v));
        }
    }

    /// Number of headers in the set.
    pub fn len(&self) -> (r: usize)
        ensures
            r == self@.len(),
    {
        self.entries.len()
    }

    /// Whether the set holds no header. Callers must treat an empty set
    /// as "not ready" and never send partially populated auth headers.
    pub fn is_empty(&self) -> (r: bool)
        ensures
            r == (self@.len() == 0),
    {
        self.entries.len() == 0
    }

    /// The value of the first header named `key`, if any.
    pub fn get(&self, key: &str) -> (r: Option<String>)
        ensures
            (r is None) == (spec_header_get(self@, key@) is None),
            r matches Some(v) ==> spec_header_get(self@, key@) == Some(v@),
    {
        let n = self.entries.len();
        proof {
            assert(self@.subrange(0, n as int) =~= self@);
        }
        let mut i: usize = 0;
        while i < n
            invariant
                n == self.entries@.len(),
                i <= n,
                spec_header_get(self@, key@) == spec_header_get(
                    self@.subrange(i as int, n as int),
                    key@,
                ),
        decreases n - i,
        {
            proof {
                assert(self@.subrange(i as int, n as int)[0] == self@[i as int]);
                assert(self@.subrange(i as int, n as int).drop_first() =~= self@.subrange(
                    i as int + 1,
                    n as int,
                ));
            }
            if str_eq(self.entries[i].0.as_str(), key) {
                return Some(self.entries[i].1.clone());
            }
            i += 1;
        }
        proof {
            assert(self@.subrange(n as int, n as int).len() == 0);
        }
        None
    }
}

/// The headers every REST request carries: the api key, the JSON content
/// types, and the endpoint version — exactly these four, in this order.
pub open spec fn spec_common_headers(api_key: Seq<char>, version: Seq<char>) -> Seq<
    (Seq<char>, Seq<char>),
> {
    seq![
        ("X-IG-API-KEY"@, api_key),
        ("Content-Type"@, "application/json; charset=UTF-8"@),
        ("Accept"@, "application/json; charset=UTF-8"@),
        ("Version"@, version),
    ]
}

/// Builds the header set every REST request carries.
pub fn common_headers(api_key: &str, version: &str) -> (r: HeaderSet)
    ensures
        r@ == spec_common_headers(api_key@, version@),
{
    let mut h = HeaderSet::new();
    h.push("X-IG-API-KEY".to_owned(), api_key.to_owned());
    h.push("Content-Type".to_owned(), "application/json; charset=UTF-8".to_owned());
    h.push("Accept".to_owned(), "application/json; charset=UTF-8".to_owned());
    h.push("Version".to_owned(), version.to_owned());
    proof {
        assert(h@ =~= spec_common_headers(api_key@, version@));
    }
    h
}

/// The authentication headers a legacy session attaches to a REST request:
/// exactly the two token headers.
pub open spec fn spec_session_headers(cst: Seq<char>, token: Seq<char>) -> Seq<
    (Seq<char>, Seq<char>),
> {
    seq![("CST"@, cst), ("X-SECURITY-TOKEN"@, token)]
}

/// Builds the two legacy token headers of a session.
pub fn session_headers(cst: &str, token: &str) -> (r: HeaderSet)
    ensures
        r@ == spec_session_headers(cst@, token@),
{
    let mut h = HeaderSet::new();
    h.push("CST".to_owned(), cst.to_owned());
    h.push("X-SECURITY-TOKEN".to_owned(), token.to_owned());
    proof {
        assert(h@ =~= spec_session_headers(cst@, token@));
    }
    h
}

/// The security header values a session accumulates.
#[derive(Clone, Debug)]
pub struct SecurityHeaders {
    pub cst: Option<String>,
    pub x_security_token: Option<String>,
    pub ig_account_id: Option<String>,
    pub authorization: Option<String>,
    pub version: Option<String>,
    pub x_ig_api_key: Option<String>,
}

/// Effect of one response header on the stored values. Names match up to
/// ASCII case; unknown names leave the state unchanged.
pub open spec fn spec_apply_header(
    s: SecurityHeaders,
    name: Seq<char>,
    value: String,
) -> SecurityHeaders {
    if spec_eq_ignore_ascii_case(name, "CST"@) {
        SecurityHeaders { cst: Some(value), ..s }
    } else if spec_eq_ignore_ascii_case(name, "X-SECURITY-TOKEN"@) {
        SecurityHeaders { x_security_token: Some(value), ..s }
    } else if spec_eq_ignore_ascii_case(name, "IG-ACCOUNT-ID"@) {
        SecurityHeaders { ig_account_id: Some(value), ..s }
    } else if spec_eq_ignore_ascii_case(name, "AUTHORIZATION"@) {
        SecurityHeaders { authorization: Some(value), ..s }
    } else if spec_eq_ignore_ascii_case(name, "VERSION"@) {
        SecurityHeaders { version: Some(value), ..s }
    } else if spec_eq_ignore_ascii_case(name, "X-IG-API-KEY"@) {
        SecurityHeaders { x_ig_api_key: Some(value), ..s }
    } else {
        s
    }
}

/// Folding a whole response-header list over the stored values.
pub open spec fn spec_update_headers(
    s: SecurityHeaders,
    entries: Seq<(String, String)>,
) -> SecurityHeaders
    decreases entries.len(),
{
    if entries.len() == 0 {
        s
    } else {
        spec_update_headers(
            spec_apply_header(s, entries[0].0@, entries[0].1),
            entries.drop_first(),
        )
    }
}

impl SecurityHeaders {
    /// A header store with the given values.
    pub fn new(
        cst: Option<String>,
        x_security_token: Option<String>,
        ig_account_id: Option<String>,
        authorization: Option<String>,
        version: Option<String>,
        x_ig_api_key: Option<String>,
    ) -> (r: SecurityHeaders)
        ensures
            r.cst == cst,
            r.x_security_token == x_security_token,
            r.ig_account_id == ig_account_id,
            r.authorization == authorization,
            r.version == version,
            r.x_ig_api_key == x_ig_api_key,
    {
        SecurityHeaders { cst, x_security_token, ig_account_id, authorization, version, x_ig_api_key }
    }

    /// The headers a version-1 request carries: exactly `Version`,
    /// `X-IG-API-KEY`, `CST` and `X-SECURITY-TOKEN`, missing stored
    /// values rendered as the empty string.
    pub fn get_v1(&self) -> (r: HeaderSet)
        ensures
            r@ == seq![
                ("Version"@, "1"@),
                ("X-IG-API-KEY"@, spec_opt_or_empty(self.x_ig_api_key)),
                ("CST"@, spec_opt_or_empty(self.cst)),
                ("X-SECURITY-TOKEN"@, spec_opt_or_empty(self.x_security_token)),
            ],
    {
        let mut h = HeaderSet::new();
        h.push("Version".to_owned(), "1".to_owned());
        h.push("X-IG-API-KEY".to_owned(), opt_or_empty(&self.x_ig_api_key));
        h.push("CST".to_owned(), opt_or_empty(&self.cst));
        h.push("X-SECURITY-TOKEN".to_owned(), opt_or_empty(&self.x_security_token));
        proof {
            assert(h@ =~= seq![
                ("Version"@, "1"@),
                ("X-IG-API-KEY"@, spec_opt_or_empty(self.x_ig_api_key)),
                ("CST"@, spec_opt_or_empty(self.cst)),
                ("X-SECURITY-TOKEN"@, spec_opt_or_empty(self.x_security_token)),
            ]);
        }
        h
    }

    /// The headers a version-2 request carries: exactly `Version`,
    /// `X-IG-API-KEY`, `IG-ACCOUNT-ID` and `Authorization`.
    pub fn get_v2(&self) -> (r: HeaderSet)
        ensures
            r@ == seq![
                ("Version"@, "2"@),
                ("X-IG-API-KEY"@, spec_opt_or_empty(self.x_ig_api_key)),
                ("IG-ACCOUNT-ID"@, spec_opt_or_empty(self.ig_account_id)),
                ("Authorization"@, spec_opt_or_empty(self.authorization)),
            ],
    {
        let mut h = HeaderSet::new();
        h.push("Version".to_owned(), "2".to_owned());
        h.push("X-IG-API-KEY".to_owned(), opt_or_empty(&self.x_ig_api_key));
        h.push("IG-ACCOUNT-ID".to_owned(), opt_or_empty(&self.ig_account_id));
        h.push("Authorization".to_owned(), opt_or_empty(&self.authorization));
        proof {
            assert(h@ =~= seq![
                ("Version"@, "2"@),
                ("X-IG-API-KEY"@, spec_opt_or_empty(self.x_ig_api_key)),
                ("IG-ACCOUNT-ID"@, spec_opt_or_empty(self.ig_account_id)),
                ("Authorization"@, spec_opt_or_empty(self.authorization)),
            ]);
        }
        h
    }

    /// The headers a version-3 request carries: exactly `Version`,
    /// `X-IG-API-KEY`, `IG-ACCOUNT-ID` and `Authorization`.
    pub fn get_v3(&self) -> (r: HeaderSet)
        ensures
            r@ == seq![
                ("Version"@, "3"@),
                ("X-IG-API-KEY"@, spec_opt_or_empty(self.x_ig_api_key)),
                ("IG-ACCOUNT-ID"@, spec_opt_or_empty(self.ig_account_id)),
                ("Authorization"@, spec_opt_or_empty(self.authorization)),
            ],
    {
        let mut h = HeaderSet::new();
        h.push("Version".to_owned(), "3".to_owned());
        h.push("X-IG-API-KEY".to_owned(), opt_or_empty(&self.x_ig_api_key));
        h.push("IG-ACCOUNT-ID".to_owned(), opt_or_empty(&self.ig_account_id));
        h.push("Authorization".to_owned(), opt_or_empty(&self.authorization));
        proof {
            assert(h@ =~= seq![
                ("Version"@, "3"@),
                ("X-IG-API-KEY"@, spec_opt_or_empty(self.x_ig_api_key)),
                ("IG-ACCOUNT-ID"@, spec_opt_or_empty(self.ig_account_id)),
                ("Authorization"@, spec_opt_or_empty(self.authorization)),
            ]);
        }
        h
    }

    /// Header derivation is an exhaustive match over the version tag.
    pub fn get_headers_from_version(&self, version: AuthVersion) -> (r: HeaderSet)
        ensures
            version is V1 ==> r@ == self.get_v1_spec(),
            version is V2 ==> r@ == self.get_v2_spec(),
            version is V3 ==> r@ == self.get_v3_spec(),
    {
        match version {
            AuthVersion::V1 => self.get_v1(),
            AuthVersion::V2 => self.get_v2(),
            AuthVersion::V3 => self.get_v3(),
        }
    }

    /// What `get_v1` returns.
    pub open spec fn get_v1_spec(&self) -> Seq<(Seq<char>, Seq<char>)> {
        seq![
            ("Version"@, "1"@),
            ("X-IG-API-KEY"@, spec_opt_or_empty(self.x_ig_api_key)),
            ("CST"@, spec_opt_or_empty(self.cst)),
            ("X-SECURITY-TOKEN"@, spec_opt_or_empty(self.x_security_token)),
        ]
    }

    /// What `get_v2` returns.
    pub open spec fn get_v2_spec(&self) -> Seq<(Seq<char>, Seq<char>)> {
        seq![
            ("Version"@, "2"@),
            ("X-IG-API-KEY"@, spec_opt_or_empty(self.x_ig_api_key)),
            ("IG-ACCOUNT-ID"@, spec_opt_or_empty(self.ig_account_id)),
            ("Authorization"@, spec_opt_or_empty(self.authorization)),
        ]
    }

    /// What `get_v3` returns.
    pub open spec fn get_v3_spec(&self) -> Seq<(Seq<char>, Seq<char>)> {
        seq![
            ("Version"@, "3"@),
            ("X-IG-API-KEY"@, spec_opt_or_empty(self.x_ig_api_key)),
            ("IG-ACCOUNT-ID"@, spec_opt_or_empty(self.ig_account_id)),
            ("Authorization"@, spec_opt_or_empty(self.authorization)),
        ]
    }

    /// Stores every recognized header of a response, matching names up to
    /// ASCII case; unrecognized headers are ignored.
    pub fn update_headers(&mut self, headers: &Vec<(String, String)>)
        ensures
            *final(self) == spec_update_headers(*old(self), headers@),
    {
        let n = headers.len();
        proof {
            assert(headers@.subrange(0, n as int) =~= headers@);
        }
        let mut i: usize = 0;
        while i < n
            invariant
                n == headers@.len(),
                i <= n,
                spec_update_headers(*old(self), headers@) == spec_update_headers(
                    *self,
                    headers@.subrange(i as int, n as int),
                ),
            decreases n - i,
        {
            proof {
                assert(headers@.subrange(i as int, n as int)[0] == headers@[i as int]);
                assert(headers@.subrange(i as int, n as int).drop_first() =~= headers@.subrange(
                    i as int + 1,
                    n as int,
                ));
            }
            let name = &headers[i].0;
            let value = headers[i].1.clone();
            if str_eq_ignore_ascii_case(name.as_str(), "CST") {
                self.cst = Some(value);
            } else if str_eq_ignore_ascii_case(name.as_str(), "X-SECURITY-TOKEN") {
                self.x_security_token = Some(value);
            } else if str_eq_ignore_ascii_case(name.as_str(), "IG-ACCOUNT-ID") {
                self.ig_account_id = Some(value);
            } else if str_eq_ignore_ascii_case(name.as_str(), "AUTHORIZATION") {
                self.authorization = Some(value);
            } else if str_eq_ignore_ascii_case(name.as_str(), "VERSION") {
                self.version = Some(value);
            } else if str_eq_ignore_ascii_case(name.as_str(), "X-IG-API-KEY") {
                self.x_ig_api_key = Some(value);
            }
            i += 1;
        }
        proof {
            assert(headers@.subrange(n as int, n as int).len() == 0);
        }
    }
}

impl SecurityHeaders {
    /// The JSON rendering of the stored values, missing ones as the empty
    /// string.
    pub open spec fn spec_display(&self) -> Seq<char> {
        "{\"cst\":\""@ + spec_opt_or_empty(self.cst) + "\",\"x_security_token\":\""@
            + spec_opt_or_empty(self.x_security_token) + "\",\"ig_account_id\":\""@
            + spec_opt_or_empty(self.ig_account_id) + "\",\"authorization\":\""@
            + spec_opt_or_empty(self.authorization) + "\",\"version\":\""@ + spec_opt_or_empty(
            self.version,
        ) + "\",\"x_ig_api_key\":\""@ + spec_opt_or_empty(self.x_ig_api_key) + "\"}"@
    }

    /// Renders the stored values.
    pub fn display_string(&self) -> (r: String)
        ensures
            r@ == self.spec_display(),
    {
        let mut r = "{\"cst\":\"".to_owned();
        r.append(opt_or_empty(&self.cst).as_str());
        r.append("\",\"x_security_token\":\"");
        r.append(opt_or_empty(&self.x_security_token).as_str());
        r.append("\",\"ig_account_id\":\"");
        r.append(opt_or_empty(&self.ig_account_id).as_str());
        r.append("\",\"authorization\":\"");
        r.append(opt_or_empty(&self.authorization).as_str());
        r.append("\",\"version\":\"");
        r.append(opt_or_empty(&self.version).as_str());
        r.append("\",\"x_ig_api_key\":\"");
        r.append(opt_or_empty(&self.x_ig_api_key).as_str());
        r.append("\"}");
        r
    }
}

impl Default for SecurityHeaders {
    /// The empty store: no header value known yet.
    fn default() -> (r: SecurityHeaders)
        ensures
            r.cst is None,
            r.x_security_token is None,
            r.ig_account_id is None,
            r.authorization is None,
            r.version is None,
            r.x_ig_api_key is None,
    {
        SecurityHeaders {
            cst: None,
            x_security_token: None,
            ig_account_id: None,
            authorization: None,
            version: None,
            x_ig_api_key: None,
        }
    }
}

} // verus!
