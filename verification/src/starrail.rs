//! The StarRail chronicle client: translates each feature call into a fully
//! described record-API request. The account's server and region are
//! inferred from the UID, the payload is placed in the `params` group for
//! GET requests and in the `data` group otherwise, and each feature sets its
//! own payload fields.

use vstd::prelude::*;
use crate::ds::ds_headers_spec;
use crate::errors::SdkError;
use crate::kwargs::KwargValue;
use crate::kwargs::Kwargs;
use crate::request::InnerClient;
use crate::request::RequestPlan;
use crate::request::cookie_ok;
use crate::request::forming_params_spec;
use crate::request::game_record_url;
use crate::request::int_param;
use crate::request::lemma_query_key_lens;
use crate::request::method_view;
use crate::request::session_cookies;
use crate::request::text_param;
use crate::text::int_str;
use crate::text::opt_str_view;
use crate::text::pair_views;
use crate::text::str_eq;
use crate::types::Game;
use crate::types::Region;
use crate::uid::leading_digit;
use crate::uid::lemma_server_implies_region;
use crate::uid::recognize_region;
use crate::uid::recognize_starrail_server;
use crate::uid::starrail_server;
use crate::uid::uid_region;

verus! {

/// The chronicle client of the StarRail title.
pub struct StarRailClient(pub InnerClient);

/// Whether a UID's prefix maps to a known server.
pub open spec fn uid_known(uid: u32) -> bool {
    starrail_server(leading_digit(uid as nat)) is Some
}

/// The server identifier of a recognized UID.
pub open spec fn server_of(uid: u32) -> Seq<char> {
    starrail_server(leading_digit(uid as nat))->0
}

/// The deployment region of a recognized UID.
pub open spec fn uid_region_of(uid: u32) -> Region {
    uid_region(leading_digit(uid as nat))->0
}

/// The absolute URL of a StarRail record endpoint for a recognized UID.
pub open spec fn starrail_url(endpoint: Seq<char>, uid: u32) -> Seq<char> {
    game_record_url(endpoint, Some(uid_region_of(uid)), Some(Game::STARRAIL))
}

/// The view of an optional payload bag: an absent payload reads as empty.
pub open spec fn payload_view(p: Option<Kwargs>) -> Map<Seq<char>, KwargValue> {
    match p {
        Some(k) => k@,
        None => Map::empty(),
    }
}

/// The query of a StarRail GET request built from payload `m0`: the
/// recognized payload fields around the injected account identification.
pub open spec fn starrail_query(m0: Map<Seq<char>, KwargValue>, uid: u32) -> Seq<
    (Seq<char>, Seq<char>),
> {
    int_param(m0, "uid"@) + seq![("role_id"@, int_str(uid as int))] + seq![
        ("server"@, server_of(uid)),
    ] + int_param(m0, "schedule_type"@) + text_param(m0, "need_all"@)
}

/// The account identification every feature request carries.
pub open spec fn base_query(uid: u32) -> Seq<(Seq<char>, Seq<char>)> {
    seq![("role_id"@, int_str(uid as int)), ("server"@, server_of(uid))]
}

/// The schedule selector of the challenge endpoint: 2 whenever a previous
/// period is mentioned — whether as true or as false — and 1 otherwise.
pub open spec fn challenge_schedule(previous: Option<bool>) -> int {
    if previous is Some {
        2
    } else {
        1
    }
}

/// The schedule selector of the roguelike endpoint: the caller's choice,
/// defaulting to 3.
pub open spec fn rogue_schedule(schedule_type: Option<i32>) -> int {
    match schedule_type {
        Some(v) => v as int,
        None => 3,
    }
}

impl StarRailClient {
    /// Builds one record request for this title: infers server and region
    /// from the UID, injects `role_id` and `server` into the payload, places
    /// the payload under `params` for GET and under `data` otherwise, and
    /// resolves the endpoint through the record layer.
    pub fn inner_get_record(
        &self,
        endpoint: &str,
        uid: u32,
        method: Option<&str>,
        lang: Option<&str>,
        payload: Option<Kwargs>,
        t: u64,
        s: u32,
    ) -> (r: Result<RequestPlan, SdkError>)
        ensures
            r is Ok <==> uid_known(uid) && cookie_ok(self.0),
            !uid_known(uid) ==> r is Err && r->Err_0 == SdkError::UnknownUidPrefix,
            uid_known(uid) && !cookie_ok(self.0) ==> r is Err && r->Err_0
                == SdkError::MissingCredential,
            r is Ok ==> (r->Ok_0).url@ == starrail_url(endpoint@, uid),
            r is Ok ==> (r->Ok_0).method@ == "GET"@,
            r is Ok ==> pair_views((r->Ok_0).headers@) == ds_headers_spec(
                uid_region_of(uid),
                opt_str_view(lang),
                t as nat,
                s as nat,
            ),
            r is Ok ==> session_cookies(r->Ok_0, self.0),
            r is Ok && method_view(method) == "GET"@ ==> pair_views((r->Ok_0).query@)
                == starrail_query(payload_view(payload), uid),
            r is Ok && method_view(method) != "GET"@ ==> pair_views((r->Ok_0).query@) == Seq::<
                (Seq<char>, Seq<char>),
            >::empty(),
    {
        let mut bag = match payload {
            Some(p) => p,
            None => Kwargs::new(),
        };
        let ghost m0 = bag@;
        let server = match recognize_starrail_server(uid) {
            Ok(sv) => sv,
            Err(e) => {
                return Err(e);
            },
        };
        bag.insert("role_id", KwargValue::Int(uid as i64));
        bag.insert("server", KwargValue::Text(server));
        let ghost filled = bag@;
        let use_params = match method {
            None => true,
            Some(m) => str_eq(m, "GET"),
        };
        let mut kwargs = Kwargs::new();
        if use_params {
            kwargs.insert("params", KwargValue::Bag(bag));
        } else {
            kwargs.insert("data", KwargValue::Bag(bag));
        }
        let region = recognize_region(uid, Game::STARRAIL);
        proof {
            lemma_server_implies_region(leading_digit(uid as nat));
            lemma_query_key_lens();
            if use_params {
                assert(forming_params_spec(kwargs@) =~= starrail_query(m0, uid));
            } else {
                assert(!kwargs@.contains_key("params"@));
                assert(forming_params_spec(kwargs@) =~= Seq::<(Seq<char>, Seq<char>)>::empty());
            }
        }
        self.0.request_game_record_plan(endpoint, lang, region, Some(Game::STARRAIL), &kwargs, t, s)
    }

    /// Builds the real-time notes request of an account.
    pub fn get_notes_plan(
        &self,
        uid: Option<u32>,
        lang: Option<&str>,
        _auto_auth: Option<bool>,
        t: u64,
        s: u32,
    ) -> (r: Result<RequestPlan, SdkError>)
        ensures
            uid is None ==> r is Err && r->Err_0 == SdkError::MissingUid,
            uid is Some ==> {
                &&& r is Ok <==> uid_known(uid->0) && cookie_ok(self.0)
                &&& !uid_known(uid->0) ==> r is Err && r->Err_0 == SdkError::UnknownUidPrefix
                &&& uid_known(uid->0) && !cookie_ok(self.0) ==> r is Err && r->Err_0
                    == SdkError::MissingCredential
                &&& r is Ok ==> (r->Ok_0).url@ == starrail_url("note"@, uid->0)
                &&& r is Ok ==> (r->Ok_0).method@ == "GET"@
                &&& r is Ok ==> pair_views((r->Ok_0).query@) == base_query(uid->0)
                &&& r is Ok ==> pair_views((r->Ok_0).headers@) == ds_headers_spec(
                    uid_region_of(uid->0),
                    opt_str_view(lang),
                    t as nat,
                    s as nat,
                )
                &&& r is Ok ==> session_cookies(r->Ok_0, self.0)
            },
    {
        let u = match uid {
            Some(u) => u,
            None => {
                return Err(SdkError::MissingUid);
            },
        };
        let r = self.inner_get_record("note", u, Some("GET"), lang, None, t, s);
        proof {
            reveal_strlit("GET");
            lemma_query_key_lens();
            assert(starrail_query(Map::empty(), u) =~= base_query(u));
        }
        r
    }

    /// Builds the two independent halves of the user-statistics record: the
    /// index request and the basic-info request. They share no state and may
    /// be executed concurrently.
    pub fn get_user_plans(&self, uid: Option<u32>, lang: Option<&str>, t: u64, s: u32) -> (r:
        Result<(RequestPlan, RequestPlan), SdkError>)
        ensures
            uid is None ==> r is Err && r->Err_0 == SdkError::MissingUid,
            uid is Some ==> {
                &&& r is Ok <==> uid_known(uid->0) && cookie_ok(self.0)
                &&& r is Ok ==> (r->Ok_0).0.url@ == starrail_url("index"@, uid->0)
                &&& r is Ok ==> (r->Ok_0).1.url@ == starrail_url("role/basicInfo"@, uid->0)
                &&& r is Ok ==> pair_views((r->Ok_0).0.query@) == base_query(uid->0)
                &&& r is Ok ==> pair_views((r->Ok_0).1.query@) == base_query(uid->0)
                &&& r is Ok ==> session_cookies((r->Ok_0).0, self.0) && session_cookies(
                    (r->Ok_0).1,
                    self.0,
                )
            },
    {
        let u = match uid {
            Some(u) => u,
            None => {
                return Err(SdkError::MissingUid);
            },
        };
        let index_plan = match self.inner_get_record("index", u, None, lang, None, t, s) {
            Ok(p) => p,
            Err(e) => {
                return Err(e);
            },
        };
        let basic_plan = match self.inner_get_record("role/basicInfo", u, None, lang, None, t, s) {
            Ok(p) => p,
            Err(e) => {
                return Err(e);
            },
        };
        proof {
            lemma_query_key_lens();
            assert(starrail_query(Map::empty(), u) =~= base_query(u));
        }
        Ok((index_plan, basic_plan))
    }

    /// Builds the character-roster request of an account.
    pub fn get_characters_plan(&self, uid: Option<u32>, lang: Option<&str>, t: u64, s: u32) -> (r:
        Result<RequestPlan, SdkError>)
        ensures
            uid is None ==> r is Err && r->Err_0 == SdkError::MissingUid,
            uid is Some ==> {
                &&& r is Ok <==> uid_known(uid->0) && cookie_ok(self.0)
                &&& r is Ok ==> (r->Ok_0).url@ == starrail_url("avatar/info"@, uid->0)
                &&& r is Ok ==> pair_views((r->Ok_0).query@) == base_query(uid->0)
                &&& r is Ok ==> session_cookies(r->Ok_0, self.0)
            },
    {
        let u = match uid {
            Some(u) => u,
            None => {
                return Err(SdkError::MissingUid);
            },
        };
        let r = self.inner_get_record("avatar/info", u, None, lang, None, t, s);
        proof {
            lemma_query_key_lens();
            assert(starrail_query(Map::empty(), u) =~= base_query(u));
        }
        r
    }

    /// Builds the challenge-mode request: the schedule selector is 2
    /// whenever a previous period is mentioned and 1 otherwise, and the full
    /// listing is always requested.
    pub fn get_challenge_plan(
        &self,
        uid: Option<u32>,
        previous: Option<bool>,
        lang: Option<&str>,
        t: u64,
        s: u32,
    ) -> (r: Result<RequestPlan, SdkError>)
        ensures
            uid is None ==> r is Err && r->Err_0 == SdkError::MissingUid,
            uid is Some ==> {
                &&& r is Ok <==> uid_known(uid->0) && cookie_ok(self.0)
                &&& r is Ok ==> (r->Ok_0).url@ == starrail_url("challenge"@, uid->0)
                &&& r is Ok ==> pair_views((r->Ok_0).query@) == base_query(uid->0) + seq![
                    ("schedule_type"@, int_str(challenge_schedule(previous))),
                    ("need_all"@, "true"@),
                ]
                &&& r is Ok ==> session_cookies(r->Ok_0, self.0)
            },
    {
        let u = match uid {
            Some(u) => u,
            None => {
                return Err(SdkError::MissingUid);
            },
        };
        let mut payload = Kwargs::new();
        let schedule: i64 = if previous.is_some() {
            2
        } else {
            1
        };
        payload.insert("schedule_type", KwargValue::Int(schedule));
        payload.insert("need_all", KwargValue::Text("true".to_owned()));
        let ghost m0 = payload@;
        let r = self.inner_get_record("challenge", u, None, lang, Some(payload), t, s);
        proof {
            lemma_query_key_lens();
            assert(starrail_query(m0, u) =~= base_query(u) + seq![
                ("schedule_type"@, int_str(challenge_schedule(previous))),
                ("need_all"@, "true"@),
            ]);
        }
        r
    }

    /// Builds the roguelike-mode request: the schedule selector defaults to
    /// 3 and the detailed record is always requested. The detail flag lives
    /// in the payload only; it is not among the recognized query keys.
    pub fn get_rouge_plan(
        &self,
        uid: Option<u32>,
        schedule_type: Option<i32>,
        lang: Option<&str>,
        t: u64,
        s: u32,
    ) -> (r: Result<RequestPlan, SdkError>)
        ensures
            uid is None ==> r is Err && r->Err_0 == SdkError::MissingUid,
            uid is Some ==> {
                &&& r is Ok <==> uid_known(uid->0) && cookie_ok(self.0)
                &&& r is Ok ==> (r->Ok_0).url@ == starrail_url("rogue"@, uid->0)
                &&& r is Ok ==> pair_views((r->Ok_0).query@) == base_query(uid->0) + seq![
                    ("schedule_type"@, int_str(rogue_schedule(schedule_type))),
                ]
                &&& r is Ok ==> session_cookies(r->Ok_0, self.0)
            },
    {
        let u = match uid {
            Some(u) => u,
            None => {
                return Err(SdkError::MissingUid);
            },
        };
        let mut payload = Kwargs::new();
        let schedule: i64 = match schedule_type {
            Some(v) => v as i64,
            None => 3,
        };
        payload.insert("schedule_type", KwargValue::Int(schedule));
        payload.insert("need_detail", KwargValue::Text("true".to_owned()));
        let ghost m0 = payload@;
        let r = self.inner_get_record("rogue", u, None, lang, Some(payload), t, s);
        proof {
            lemma_query_key_lens();
            assert(starrail_query(m0, u) =~= base_query(u) + seq![
                ("schedule_type"@, int_str(rogue_schedule(schedule_type))),
            ]);
        }
        r
    }
}

} // verus!
