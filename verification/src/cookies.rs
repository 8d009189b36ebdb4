//! The cookie/session manager: holds the credential mapping and renders the
//! two session cookies the upstream service requires.

use vstd::prelude::*;
use vstd::string::*;
use crate::entries::entry_get;
use crate::entries::entry_map;
use crate::errors::SdkError;

verus! {

/// The key under which the session user id is stored.
pub open spec fn ltuid_key() -> Seq<char> {
    "ltuid"@
}

/// The key under which the session token is stored.
pub open spec fn ltoken_key() -> Seq<char> {
    "ltoken"@
}

/// One cookie source: an explicit key/value mapping.
pub enum CookieOrHeader {
    Dict(Vec<(String, String)>),
}

/// A cookie source, alone or as a sequence of mappings for multi-account
/// use; only the first mapping of a sequence backs the session.
pub enum AnyCookieOrHeader {
    CookieOrHeader(CookieOrHeader),
    SequenceCookieOrHeader(Vec<CookieOrHeader>),
}

/// The mapping a cookie input denotes: its own, or the first of a sequence;
/// an empty sequence denotes the empty mapping.
pub open spec fn cookie_input_map(input: AnyCookieOrHeader) -> Map<Seq<char>, String> {
    match input {
        AnyCookieOrHeader::CookieOrHeader(CookieOrHeader::Dict(d)) => entry_map(d@),
        AnyCookieOrHeader::SequenceCookieOrHeader(ds) => if ds@.len() > 0 {
            match ds@[0] {
                CookieOrHeader::Dict(d) => entry_map(d@),
            }
        } else {
            Map::empty()
        },
    }
}

/// Holds the credential mapping a session was constructed from.
pub struct BaseCookieManager {
    entries: Vec<(String, String)>,
}

impl View for BaseCookieManager {
    type V = Map<Seq<char>, String>;

    closed spec fn view(&self) -> Map<Seq<char>, String> {
        entry_map(self.entries@)
    }
}

/// Whether a credential mapping carries both required session cookies.
pub open spec fn has_session_pair(m: Map<Seq<char>, String>) -> bool {
    m.contains_key(ltuid_key()) && m.contains_key(ltoken_key())
}

impl BaseCookieManager {
    /// Wraps an explicit key/value mapping; an absent mapping yields an
    /// empty one, whose cookies cannot be formed.
    pub fn from_mapping(cookies: Option<Vec<(String, String)>>) -> (r: BaseCookieManager)
        ensures
            match cookies {
                Some(c) => r@ == entry_map(c@),
                None => r@ == Map::<Seq<char>, String>::empty(),
            },
    {
        match cookies {
            Some(c) => BaseCookieManager { entries: c },
            None => BaseCookieManager { entries: Vec::new() },
        }
    }

    /// Wraps any accepted cookie input shape: a single mapping backs the
    /// session directly, a sequence through its first mapping.
    pub fn from_cookies(input: Option<AnyCookieOrHeader>) -> (r: BaseCookieManager)
        ensures
            match input {
                Some(i) => r@ == cookie_input_map(i),
                None => r@ == Map::<Seq<char>, String>::empty(),
            },
    {
        match input {
            None => BaseCookieManager { entries: Vec::new() },
            Some(AnyCookieOrHeader::CookieOrHeader(CookieOrHeader::Dict(d))) => {
                BaseCookieManager { entries: d }
            },
            Some(AnyCookieOrHeader::SequenceCookieOrHeader(mut ds)) => {
                if ds.len() > 0 {
                    let CookieOrHeader::Dict(d) = ds.remove(0);
                    BaseCookieManager { entries: d }
                } else {
                    BaseCookieManager { entries: Vec::new() }
                }
            },
        }
    }

    /// Renders the two required cookies as `ltuid=U` and `ltoken=T`, in that
    /// order; fails recoverably when either credential is missing.
    pub fn forming_cookie(&self) -> (r: Result<(String, String), SdkError>)
        ensures
            r is Ok <==> has_session_pair(self@),
            r is Ok ==> r->Ok_0.0@ == "ltuid="@ + self@[ltuid_key()]@,
            r is Ok ==> r->Ok_0.1@ == "ltoken="@ + self@[ltoken_key()]@,
            r is Err ==> r->Err_0 == SdkError::MissingCredential,
    {
        let uid_value = match entry_get(&self.entries, "ltuid") {
            Some(v) => v,
            None => {
                return Err(SdkError::MissingCredential);
            },
        };
        let token_value = match entry_get(&self.entries, "ltoken") {
            Some(v) => v,
            None => {
                return Err(SdkError::MissingCredential);
            },
        };
        let mut uid_cookie = "ltuid=".to_owned();
        uid_cookie.append(uid_value.as_str());
        let mut token_cookie = "ltoken=".to_owned();
        token_cookie.append(token_value.as_str());
        Ok((uid_cookie, token_cookie))
    }
}

} // verus!
