//! The client facade: one transport core and one chronicle client per
//! supported title. Installing a session propagates the same credentials
//! into every one of them.

use vstd::prelude::*;
use crate::chronicle::Chronicle;
use crate::chronicle::GenshinClient;
use crate::chronicle::HonkaiClient;
use crate::cookies::BaseCookieManager;
use crate::cookies::has_session_pair;
use crate::cookies::ltoken_key;
use crate::cookies::ltuid_key;
use crate::ds::ds_headers_spec;
use crate::entries::entry_map;
use crate::errors::SdkError;
use crate::kwargs::Kwargs;
use crate::request::InnerClient;
use crate::request::RequestPlan;
use crate::request::cookie_ok;
use crate::request::forming_params_spec;
use crate::request::is_default_client;
use crate::request::session_cookies;
use crate::routes::takumi_base;
use crate::starrail::StarRailClient;
use crate::text::opt_str_view;
use crate::text::pair_views;
use crate::text::starts_with_https;

verus! {

/// The facade over the whole SDK.
pub struct Client {
    pub client: InnerClient,
    pub genshin: Chronicle<GenshinClient>,
    pub honkai: Chronicle<HonkaiClient>,
    pub starrail: Chronicle<StarRailClient>,
}

/// Whether a credential mapping holds exactly the given session pair.
pub open spec fn session_map_ok(m: Map<Seq<char>, String>, u: Seq<char>, tk: Seq<char>) -> bool {
    &&& has_session_pair(m)
    &&& m[ltuid_key()]@ == u
    &&& m[ltoken_key()]@ == tk
}

/// Whether a client now carries the given session and is otherwise the
/// client it was before.
pub open spec fn session_installed(c: InnerClient, prev: InnerClient, u: Seq<char>, tk: Seq<
    char,
>) -> bool {
    &&& c.cookie_manager is Some
    &&& session_map_ok(c.cookie_manager->0@, u, tk)
    &&& c == (InnerClient { cookie_manager: c.cookie_manager, ..prev })
}

/// Builds a cookie manager holding exactly the two session credentials.
fn make_manager(ltuid: &str, ltoken: &str) -> (m: BaseCookieManager)
    ensures
        session_map_ok(m@, ltuid@, ltoken@),
{
    let mut dict: Vec<(String, String)> = Vec::new();
    dict.push(("ltuid".to_owned(), ltuid.to_owned()));
    dict.push(("ltoken".to_owned(), ltoken.to_owned()));
    proof {
        reveal_strlit("ltuid");
        reveal_strlit("ltoken");
        assert(("ltuid"@).len() == 5);
        assert(("ltoken"@).len() == 6);
        assert(ltuid_key() != ltoken_key());
        let d = dict@;
        assert(d.len() == 2);
        let first = seq![d[0]];
        assert(d.drop_last() =~= first);
        assert(first.drop_last() =~= Seq::<(String, String)>::empty());
        assert(entry_map(Seq::<(String, String)>::empty()) == Map::<Seq<char>, String>::empty());
        assert(first.last() == d[0]);
        assert(entry_map(first) == Map::<Seq<char>, String>::empty().insert(d[0].0@, d[0].1));
        assert(d.last() == d[1]);
        assert(entry_map(d) == entry_map(first).insert(d[1].0@, d[1].1));
        assert(d[0].0@ == ltuid_key());
        assert(d[1].0@ == ltoken_key());
    }
    BaseCookieManager::from_mapping(Some(dict))
}

impl Client {
    /// A facade whose transport core and chronicle clients are all freshly
    /// built, with no session installed yet.
    pub fn new() -> (r: Client)
        ensures
            is_default_client(r.client),
            is_default_client(r.genshin.0.0),
            is_default_client(r.honkai.0.0),
            is_default_client(r.starrail.0.0),
    {
        Client {
            client: InnerClient::default(),
            genshin: Chronicle::<GenshinClient>::new(),
            honkai: Chronicle::<HonkaiClient>::new(),
            starrail: Chronicle::<StarRailClient>::new(),
        }
    }

    /// Installs the session credentials into the transport core and into
    /// every chronicle client, so each of them sees the same pair.
    pub fn set_cookies(&mut self, ltuid: &str, ltoken: &str)
        ensures
            session_installed(final(self).client, old(self).client, ltuid@, ltoken@),
            session_installed(final(self).genshin.0.0, old(self).genshin.0.0, ltuid@, ltoken@),
            session_installed(final(self).honkai.0.0, old(self).honkai.0.0, ltuid@, ltoken@),
            session_installed(final(self).starrail.0.0, old(self).starrail.0.0, ltuid@, ltoken@),
            cookie_ok(final(self).client),
    {
        self.client.cookie_manager = Some(make_manager(ltuid, ltoken));
        self.genshin.0.0.cookie_manager = Some(make_manager(ltuid, ltoken));
        self.honkai.0.0.cookie_manager = Some(make_manager(ltuid, ltoken));
        self.starrail.0.0.cookie_manager = Some(make_manager(ltuid, ltoken));
    }

    /// Builds the account-listing request: the binding endpoint of the
    /// client's region, with no extra parameters.
    pub fn game_accounts_plan(&self, lang: Option<&str>, t: u64, s: u32) -> (r: Result<
        RequestPlan,
        SdkError,
    >)
        ensures
            r is Ok <==> cookie_ok(self.client),
            r is Err ==> r->Err_0 == SdkError::MissingCredential,
            r is Ok ==> (r->Ok_0).url@ == takumi_base(self.client.region)
                + "binding/api/getUserGameRolesByCookie"@,
            r is Ok ==> (r->Ok_0).method@ == "GET"@,
            r is Ok ==> pair_views((r->Ok_0).headers@) == ds_headers_spec(
                self.client.region,
                opt_str_view(lang),
                t as nat,
                s as nat,
            ),
            r is Ok ==> pair_views((r->Ok_0).query@) == Seq::<(Seq<char>, Seq<char>)>::empty(),
            r is Ok ==> session_cookies(r->Ok_0, self.client),
    {
        let kwargs = Kwargs::new();
        let r = self.client.request_hoyolab_plan(
            "binding/api/getUserGameRolesByCookie",
            lang,
            None,
            None,
            Vec::new(),
            &kwargs,
            t,
            s,
        );
        proof {
            reveal_strlit("binding/api/getUserGameRolesByCookie");
            reveal_strlit("https://");
            let endpoint = "binding/api/getUserGameRolesByCookie"@;
            assert(endpoint[0] == 'b');
            assert(("https://"@)[0] == 'h');
            assert(endpoint.subrange(0, 8)[0] == 'b');
            assert(!starts_with_https(endpoint));
            assert(forming_params_spec(kwargs@) =~= Seq::<(Seq<char>, Seq<char>)>::empty());
            assert(pair_views(Seq::<(String, String)>::empty()) =~= Seq::<
                (Seq<char>, Seq<char>),
            >::empty());
        }
        r
    }
}

} // verus!
