//! The transport core and the community request layer. A request is built —
//! never sent — here: the layers below resolve endpoints to absolute URLs,
//! merge signing headers, render the session cookies and extract the
//! recognized query parameters, and hand back a complete request
//! description for the embedding application to execute.

use vstd::prelude::*;
use vstd::string::*;
use crate::cookies::AnyCookieOrHeader;
use crate::cookies::BaseCookieManager;
use crate::cookies::has_session_pair;
use crate::cookies::ltoken_key;
use crate::cookies::ltuid_key;
use crate::ds::ds_headers_spec;
use crate::ds::get_ds_headers;
use crate::errors::SdkError;
use crate::kwargs::KwargValue;
use crate::kwargs::Kwargs;
use crate::routes::lemma_routes_total;
use crate::routes::record_base;
use crate::routes::record_url;
use crate::routes::takumi_base;
use crate::routes::takumi_url;
use crate::text::i64_to_dec;
use crate::text::int_str;
use crate::text::is_absolute_url;
use crate::text::lemma_https_prefix_concat;
use crate::text::opt_str_view;
use crate::text::pair_views;
use crate::text::starts_with_https;
use crate::types::Game;
use crate::types::Region;
use crate::types::game_path;

verus! {

/// A complete description of one HTTP request: everything the transport
/// needs, and nothing it decides.
#[derive(Debug)]
pub struct RequestPlan {
    pub url: String,
    pub method: String,
    pub headers: Vec<(String, String)>,
    pub cookies: (String, String),
    pub query: Vec<(String, String)>,
}

/// The transport core: the session, routing defaults and per-request state
/// shared by every layer above it.
pub struct InnerClient {
    pub cookie_manager: Option<BaseCookieManager>,
    pub authkey: Option<String>,
    pub lang: String,
    pub region: Region,
    pub proxy: Option<String>,
    pub game: Option<Game>,
    pub uid: Option<Vec<(Game, u32)>>,
    pub hoyolab_id: Option<u32>,
    pub debug: bool,
}

/// Whether a client holds a complete session: a cookie manager that carries
/// both required credentials.
pub open spec fn cookie_ok(c: InnerClient) -> bool {
    c.cookie_manager is Some && has_session_pair(c.cookie_manager->0@)
}

/// Whether a plan carries exactly the client's two session cookies.
pub open spec fn session_cookies(p: RequestPlan, c: InnerClient) -> bool {
    &&& p.cookies.0@ == "ltuid="@ + c.cookie_manager->0@[ltuid_key()]@
    &&& p.cookies.1@ == "ltoken="@ + c.cookie_manager->0@[ltoken_key()]@
}

/// The rendering of one recognized integer parameter, if the bag binds it.
pub open spec fn int_param(m: Map<Seq<char>, KwargValue>, key: Seq<char>) -> Seq<
    (Seq<char>, Seq<char>),
> {
    if m.contains_key(key) && m[key] is Int {
        seq![(key, int_str(m[key]->Int_0 as int))]
    } else {
        Seq::empty()
    }
}

/// The rendering of one recognized text parameter, if the bag binds it.
pub open spec fn text_param(m: Map<Seq<char>, KwargValue>, key: Seq<char>) -> Seq<
    (Seq<char>, Seq<char>),
> {
    if m.contains_key(key) && m[key] is Text {
        seq![(key, m[key]->Text_0@)]
    } else {
        Seq::empty()
    }
}

/// The query parameters extracted from a parameter bag: the recognized keys
/// of the nested `params` group, rendered as strings, in a fixed order.
pub open spec fn forming_params_spec(m: Map<Seq<char>, KwargValue>) -> Seq<
    (Seq<char>, Seq<char>),
> {
    if m.contains_key("params"@) && m["params"@] is Bag {
        let p = m["params"@]->Bag_0@;
        int_param(p, "uid"@) + int_param(p, "role_id"@) + text_param(p, "server"@) + int_param(
            p,
            "schedule_type"@,
        ) + text_param(p, "need_all"@)
    } else {
        Seq::empty()
    }
}

/// Appends one recognized integer parameter when the bag binds it as one.
fn push_int_param(base: &mut Vec<(String, String)>, bag: &Kwargs, key: &str)
    ensures
        pair_views(final(base)@) == pair_views(old(base)@) + int_param(bag@, key@),
{
    match bag.get_pair_int(key) {
        Some(pr) => {
            let rendered = i64_to_dec(pr.1);
            base.push((pr.0, rendered));
            proof {
                assert(pair_views(base@) =~= pair_views(old(base)@) + int_param(bag@, key@));
            }
        },
        None => {
            proof {
                assert(pair_views(base@) =~= pair_views(old(base)@) + int_param(bag@, key@));
            }
        },
    }
}

/// Appends one recognized text parameter when the bag binds it as one.
fn push_text_param(base: &mut Vec<(String, String)>, bag: &Kwargs, key: &str)
    ensures
        pair_views(final(base)@) == pair_views(old(base)@) + text_param(bag@, key@),
{
    match bag.get_pair_text(key) {
        Some(pr) => {
            base.push((pr.0, pr.1));
            proof {
                assert(pair_views(base@) =~= pair_views(old(base)@) + text_param(bag@, key@));
            }
        },
        None => {
            proof {
                assert(pair_views(base@) =~= pair_views(old(base)@) + text_param(bag@, key@));
            }
        },
    }
}

/// The region a request is routed to: the caller's choice, or the default.
pub open spec fn region_or(o: Option<Region>, d: Region) -> Region {
    match o {
        Some(r) => r,
        None => d,
    }
}

/// The method of a request: the caller's choice, or GET.
pub open spec fn method_view(m: Option<&str>) -> Seq<char> {
    match m {
        Some(s) => s@,
        None => "GET"@,
    }
}

/// An endpoint resolved against a region: an already-absolute URL passes
/// through unchanged, a relative one is prefixed with the region's general
/// API base.
pub open spec fn resolved_url(endpoint: Seq<char>, region: Region) -> Seq<char> {
    if starts_with_https(endpoint) {
        endpoint
    } else {
        takumi_base(region) + endpoint
    }
}

/// The per-game API prefix of a record endpoint, when a game is given.
pub open spec fn game_api_prefix(g: Option<Game>) -> Seq<char> {
    match g {
        Some(game) => game_path(game) + "/api/"@,
        None => Seq::empty(),
    }
}

/// The absolute URL of a record-API endpoint.
pub open spec fn game_record_url(endpoint: Seq<char>, region: Option<Region>, g: Option<
    Game,
>) -> Seq<char> {
    record_base(region_or(region, Region::OVERSEAS)) + game_api_prefix(g) + endpoint
}

/// The account id a record-card request is issued for: the explicit one, or
/// the remembered one.
pub open spec fn resolved_account_id(given: Option<u32>, remembered: Option<u32>) -> Option<u32> {
    if given is Some {
        given
    } else {
        remembered
    }
}

/// The first UID remembered for a game, if any.
pub open spec fn game_uid_lookup(s: Seq<(Game, u32)>, g: Game) -> Option<u32>
    decreases s.len(),
{
    if s.len() == 0 {
        None
    } else if s[0].0 == g {
        Some(s[0].1)
    } else {
        game_uid_lookup(s.subrange(1, s.len() as int), g)
    }
}

/// When no entry before position `i` is for the game, the lookup over the
/// whole table is the lookup over the rest.
proof fn lemma_game_uid_skip(s: Seq<(Game, u32)>, i: int, g: Game)
    requires
        0 <= i <= s.len(),
        forall|j: int| 0 <= j < i ==> (#[trigger] s[j]).0 != g,
    ensures
        game_uid_lookup(s, g) == game_uid_lookup(s.subrange(i, s.len() as int), g),
    decreases i,
{
    if i > 0 {
        lemma_game_uid_skip(s, i - 1, g);
        let tail = s.subrange(i - 1, s.len() as int);
        assert(tail[0] == s[i - 1]);
        assert(tail.subrange(1, tail.len() as int) =~= s.subrange(i, s.len() as int));
    } else {
        assert(s.subrange(0, s.len() as int) =~= s);
    }
}

/// The fixed user agent every request is sent with.
pub open spec fn user_agent_spec() -> Seq<char> {
    "Mozilla/5.0 (X11; Linux x86_64) AppleWebKit/537.36 (KHTML, like Gecko) Chrome/114.0.0.0 Safari/537.36"@
}

/// The fixed user agent every request is sent with.
pub fn user_agent() -> (r: &'static str)
    ensures
        r@ == user_agent_spec(),
{
    "Mozilla/5.0 (X11; Linux x86_64) AppleWebKit/537.36 (KHTML, like Gecko) Chrome/114.0.0.0 Safari/537.36"
}

/// The state of a freshly built client: no session, English language,
/// overseas routing, debug reporting on.
pub open spec fn is_default_client(c: InnerClient) -> bool {
    &&& c.cookie_manager is None
    &&& c.authkey is None
    &&& c.lang@ == "en-us"@
    &&& c.region == Region::OVERSEAS
    &&& c.proxy is None
    &&& c.game is None
    &&& c.uid is None
    &&& c.hoyolab_id is None
    &&& c.debug == true
}

impl Default for InnerClient {
    /// A client with no session, English language, overseas routing and
    /// debug reporting on.
    fn default() -> (r: InnerClient)
        ensures
            is_default_client(r),
    {
        InnerClient {
            cookie_manager: None,
            authkey: None,
            lang: "en-us".to_owned(),
            region: Region::OVERSEAS,
            proxy: None,
            game: None,
            uid: None,
            hoyolab_id: None,
            debug: true,
        }
    }
}

impl InnerClient {
    /// Builds a client from explicit parts; the cookie input, when given,
    /// becomes the session.
    pub fn new(
        cookies: Option<AnyCookieOrHeader>,
        authkey: Option<String>,
        lang: String,
        region: Region,
        proxy: Option<String>,
        game: Option<Game>,
        uid: Option<Vec<(Game, u32)>>,
        hoyolab_id: Option<u32>,
        debug: bool,
    ) -> (r: InnerClient)
        ensures
            r.cookie_manager is Some,
            match cookies {
                Some(c) => r.cookie_manager->0@ == crate::cookies::cookie_input_map(c),
                None => r.cookie_manager->0@ == Map::<Seq<char>, String>::empty(),
            },
            r.authkey == authkey,
            r.lang == lang,
            r.region == region,
            r.proxy == proxy,
            r.game == game,
            r.uid == uid,
            r.hoyolab_id == hoyolab_id,
            r.debug == debug,
    {
        let cookie_manager = Some(BaseCookieManager::from_cookies(cookies));
        InnerClient { cookie_manager, authkey, lang, region, proxy, game, uid, hoyolab_id, debug }
    }

    /// The session manager, if a session was installed.
    pub fn get_cookies(&self) -> (r: Option<&BaseCookieManager>)
        ensures
            match r {
                Some(m) => self.cookie_manager is Some && *m == self.cookie_manager->0,
                None => self.cookie_manager is None,
            },
    {
        self.cookie_manager.as_ref()
    }

    /// The remembered community account id; missing recoverably when none
    /// was ever supplied.
    pub fn get_hoyolab_id(&self) -> (r: Result<u32, SdkError>)
        ensures
            r is Ok <==> self.hoyolab_id is Some,
            r is Ok ==> r->Ok_0 == self.hoyolab_id->0,
            r is Err ==> r->Err_0 == SdkError::MissingAccountId,
    {
        if let Some(id) = self.hoyolab_id {
            return Ok(id);
        }
        Err(SdkError::MissingAccountId)
    }

    /// The client's default region; always available.
    pub fn get_region(&self) -> (r: Result<Region, SdkError>)
        ensures
            r is Ok && r->Ok_0 == self.region,
    {
        Ok(self.region)
    }

    /// The remembered UID for a game; missing recoverably when no UID table
    /// was installed or the table has no entry for the game.
    pub fn get_uid(&self, game: &Game) -> (r: Result<u32, SdkError>)
        ensures
            self.uid is None ==> r is Err && r->Err_0 == SdkError::MissingUid,
            self.uid is Some ==> {
                &&& r is Ok <==> game_uid_lookup(self.uid->0@, *game) is Some
                &&& r is Ok ==> Some(r->Ok_0) == game_uid_lookup(self.uid->0@, *game)
                &&& r is Err ==> r->Err_0 == SdkError::MissingGameUid
            },
    {
        let table = match &self.uid {
            Some(t) => t,
            None => {
                return Err(SdkError::MissingUid);
            },
        };
        let n = table.len();
        let mut i: usize = 0;
        while i < n
            invariant
                i <= n,
                n == table@.len(),
                self.uid is Some,
                table@ == self.uid->0@,
                forall|j: int| 0 <= j < i ==> (#[trigger] table@[j]).0 != *game,
            decreases n - i,
        {
            let entry = &table[i];
            if entry.0 == *game {
                proof {
                    assert(self.uid is Some);
                    assert(table@ == self.uid->0@);
                    lemma_game_uid_skip(table@, i as int, *game);
                    let tail = table@.subrange(i as int, table@.len() as int);
                    assert(tail.len() > 0);
                    assert(tail[0] == table@[i as int]);
                    assert(tail[0].0 == *game);
                    assert(game_uid_lookup(tail, *game) == Some(tail[0].1));
                }
                return Ok(entry.1);
            }
            i = i + 1;
        }
        proof {
            lemma_game_uid_skip(table@, table@.len() as int, *game);
            assert(table@.subrange(table@.len() as int, table@.len() as int) =~= Seq::<
                (Game, u32),
            >::empty());
        }
        Err(SdkError::MissingGameUid)
    }

    /// Extracts the recognized query parameters from a parameter bag: the
    /// keys of its nested `params` group, rendered as strings.
    pub fn forming_params(&self, kwargs: &Kwargs) -> (r: Vec<(String, String)>)
        ensures
            pair_views(r@) == forming_params_spec(kwargs@),
    {
        let mut base: Vec<(String, String)> = Vec::new();
        match kwargs.get_pair_bag("params") {
            Some(pp) => {
                let bag = pp.1;
                push_int_param(&mut base, bag, "uid");
                push_int_param(&mut base, bag, "role_id");
                push_text_param(&mut base, bag, "server");
                push_int_param(&mut base, bag, "schedule_type");
                push_text_param(&mut base, bag, "need_all");
                proof {
                    assert(pair_views(base@) =~= forming_params_spec(kwargs@));
                }
                base
            },
            None => {
                proof {
                    assert(pair_views(base@) =~= forming_params_spec(kwargs@));
                }
                base
            },
        }
    }

    /// Assembles one request: the session cookies are rendered, the caller's
    /// headers are taken as they are, and the recognized parameters become
    /// the query. Fails recoverably when the session is absent or
    /// incomplete.
    pub fn build_request(
        &self,
        url: &str,
        method: &str,
        headers: Vec<(String, String)>,
        kwargs: &Kwargs,
    ) -> (r: Result<RequestPlan, SdkError>)
        ensures
            r is Ok <==> cookie_ok(*self),
            r is Err ==> r->Err_0 == SdkError::MissingCredential,
            r is Ok ==> (r->Ok_0).url@ == url@,
            r is Ok ==> (r->Ok_0).method@ == method@,
            r is Ok ==> (r->Ok_0).headers == headers,
            r is Ok ==> session_cookies(r->Ok_0, *self),
            r is Ok ==> pair_views((r->Ok_0).query@) == forming_params_spec(kwargs@),
    {
        let manager = match self.get_cookies() {
            Some(m) => m,
            None => {
                return Err(SdkError::MissingCredential);
            },
        };
        let pair = match manager.forming_cookie() {
            Ok(p) => p,
            Err(e) => {
                return Err(e);
            },
        };
        let query = self.forming_params(kwargs);
        Ok(
            RequestPlan {
                url: url.to_owned(),
                method: method.to_owned(),
                headers,
                cookies: pair,
                query,
            },
        )
    }

    /// Resolves a community endpoint to an absolute URL for the chosen
    /// region, merges the freshly computed signing headers after the
    /// caller's own, defaults the method to GET, and assembles the request.
    pub fn request_hoyolab_plan(
        &self,
        endpoint: &str,
        lang: Option<&str>,
        region: Option<Region>,
        method: Option<&str>,
        headers: Vec<(String, String)>,
        kwargs: &Kwargs,
        t: u64,
        s: u32,
    ) -> (r: Result<RequestPlan, SdkError>)
        ensures
            r is Ok <==> cookie_ok(*self),
            r is Err ==> r->Err_0 == SdkError::MissingCredential,
            r is Ok ==> (r->Ok_0).url@ == resolved_url(endpoint@, region_or(region, self.region)),
            r is Ok ==> (r->Ok_0).method@ == method_view(method),
            r is Ok ==> pair_views((r->Ok_0).headers@) == pair_views(headers@) + ds_headers_spec(
                region_or(region, self.region),
                opt_str_view(lang),
                t as nat,
                s as nat,
            ),
            r is Ok ==> session_cookies(r->Ok_0, *self),
            r is Ok ==> pair_views((r->Ok_0).query@) == forming_params_spec(kwargs@),
    {
        let region_val = match region {
            Some(r) => r,
            None => {
                match self.get_region() {
                    Ok(r) => r,
                    Err(_) => {
                        return Err(SdkError::MissingCredential);
                    },
                }
            },
        };
        let url = if is_absolute_url(endpoint) {
            endpoint.to_owned()
        } else {
            let mut u = takumi_url(region_val);
            u.append(endpoint);
            u
        };
        let mut new_headers = headers;
        let mut signing = get_ds_headers(&region_val, lang, t, s);
        proof {
            let ghost caller = new_headers@;
            let ghost extra = signing@;
            assert(pair_views(caller + extra) =~= pair_views(caller) + pair_views(extra));
        }
        new_headers.append(&mut signing);
        let method_str = match method {
            Some(m) => m,
            None => "GET",
        };
        self.build_request(url.as_str(), method_str, new_headers, kwargs)
    }

    /// Resolves a per-game record endpoint — the region's record base, then
    /// the game's path segment and `api/` when a game is given, then the
    /// endpoint — and issues it through the community layer.
    pub fn request_game_record_plan(
        &self,
        endpoint: &str,
        lang: Option<&str>,
        region: Option<Region>,
        game: Option<Game>,
        kwargs: &Kwargs,
        t: u64,
        s: u32,
    ) -> (r: Result<RequestPlan, SdkError>)
        ensures
            r is Ok <==> cookie_ok(*self),
            r is Err ==> r->Err_0 == SdkError::MissingCredential,
            r is Ok ==> (r->Ok_0).url@ == game_record_url(endpoint@, region, game),
            r is Ok ==> (r->Ok_0).method@ == "GET"@,
            r is Ok ==> pair_views((r->Ok_0).headers@) == ds_headers_spec(
                region_or(region, self.region),
                opt_str_view(lang),
                t as nat,
                s as nat,
            ),
            r is Ok ==> session_cookies(r->Ok_0, *self),
            r is Ok ==> pair_views((r->Ok_0).query@) == forming_params_spec(kwargs@),
    {
        let base_region = match region {
            Some(r) => r,
            None => Region::OVERSEAS,
        };
        let mut url = record_url(base_region);
        match game {
            Some(g) => {
                url.append(g.name());
                url.append("/api/");
            },
            None => {},
        }
        url.append(endpoint);
        proof {
            lemma_routes_total(base_region);
            assert(url@ =~= game_record_url(endpoint@, region, game));
            lemma_https_prefix_concat(
                record_base(base_region),
                game_api_prefix(game) + endpoint@,
            );
            assert(record_base(base_region) + (game_api_prefix(game) + endpoint@) =~= url@);
        }
        let plan = self.request_hoyolab_plan(
            url.as_str(),
            lang,
            region,
            None,
            Vec::new(),
            kwargs,
            t,
            s,
        );
        proof {
            assert(pair_views(Seq::<(String, String)>::empty()) =~= Seq::<
                (Seq<char>, Seq<char>),
            >::empty());
        }
        plan
    }

    /// Builds the record-card listing request for an account id: the
    /// explicit id, or the remembered one, nested as the `uid` parameter of
    /// the `params` group. Fails recoverably when no id is available or the
    /// session is absent.
    pub fn record_cards_plan(
        &self,
        hoyolab_id: Option<u32>,
        lang: Option<&str>,
        t: u64,
        s: u32,
    ) -> (r: Result<RequestPlan, SdkError>)
        ensures
            r is Ok <==> resolved_account_id(hoyolab_id, self.hoyolab_id) is Some && cookie_ok(
                *self,
            ),
            resolved_account_id(hoyolab_id, self.hoyolab_id) is None ==> r is Err && r->Err_0
                == SdkError::MissingAccountId,
            resolved_account_id(hoyolab_id, self.hoyolab_id) is Some && !cookie_ok(*self) ==> r
                is Err && r->Err_0 == SdkError::MissingCredential,
            r is Ok ==> (r->Ok_0).url@ == game_record_url(
                "card/wapi/getGameRecordCard"@,
                None,
                None,
            ),
            r is Ok ==> (r->Ok_0).method@ == "GET"@,
            r is Ok ==> pair_views((r->Ok_0).headers@) == ds_headers_spec(
                self.region,
                opt_str_view(lang),
                t as nat,
                s as nat,
            ),
            r is Ok ==> session_cookies(r->Ok_0, *self),
            r is Ok ==> pair_views((r->Ok_0).query@) == seq![
                ("uid"@, int_str(resolved_account_id(hoyolab_id, self.hoyolab_id)->0 as int)),
            ],
    {
        let id = match hoyolab_id {
            Some(i) => i,
            None => {
                match self.get_hoyolab_id() {
                    Ok(i) => i,
                    Err(e) => {
                        return Err(e);
                    },
                }
            },
        };
        let mut inner = Kwargs::new();
        inner.insert("uid", KwargValue::Int(id as i64));
        let mut kwargs = Kwargs::new();
        kwargs.insert("params", KwargValue::Bag(inner));
        let plan = self.request_game_record_plan(
            "card/wapi/getGameRecordCard",
            lang,
            None,
            None,
            &kwargs,
            t,
            s,
        );
        proof {
            lemma_query_key_lens();
            if cookie_ok(*self) {
                assert(forming_params_spec(kwargs@) =~= seq![
                    ("uid"@, int_str(id as int)),
                ]);
            }
        }
        plan
    }
}

/// The lengths of the recognized parameter keys and group names, and the one
/// same-length pair told apart by a character: enough to know all of them
/// distinct.
pub proof fn lemma_query_key_lens()
    ensures
        ("uid"@).len() == 3,
        ("role_id"@).len() == 7,
        ("server"@).len() == 6,
        ("schedule_type"@).len() == 13,
        ("need_all"@).len() == 8,
        ("need_detail"@).len() == 11,
        ("params"@).len() == 6,
        ("data"@).len() == 4,
        "params"@ != "server"@,
{
    reveal_strlit("uid");
    reveal_strlit("role_id");
    reveal_strlit("server");
    reveal_strlit("schedule_type");
    reveal_strlit("need_all");
    reveal_strlit("need_detail");
    reveal_strlit("params");
    reveal_strlit("data");
    assert(("params"@)[0] == 'p');
    assert(("server"@)[0] == 's');
}

} // verus!
