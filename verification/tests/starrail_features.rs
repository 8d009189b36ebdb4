//! Exercises the StarRail feature requests and the response typing: the
//! per-feature payloads, the account filter, and the envelope handling.

use mihoyo_api::accounts::accounts_from;
use mihoyo_api::accounts::pick_account;
use mihoyo_api::accounts::record_cards_from;
use mihoyo_api::client::Client;
use mihoyo_api::envelope::Envelope;
use mihoyo_api::errors::SdkError;
use mihoyo_api::models::Account;
use mihoyo_api::models::AccountList;
use mihoyo_api::models::PartialUserStats;
use mihoyo_api::models::RecordCardList;
use mihoyo_api::models::StarRailNote;
use mihoyo_api::models::UserLittleInfo;
use mihoyo_api::models::UserStats;
use mihoyo_api::types::Game;

const T: u64 = 1700000000;
const S: u32 = 424242;
const UID: u32 = 612345678;

fn client_with_session() -> Client {
    let mut c = Client::new();
    c.set_cookies("111111", "token-value");
    c
}

#[test]
fn notes_plan_carries_the_account_identification() {
    let client = client_with_session();
    let plan = client.starrail.0.get_notes_plan(Some(UID), None, None, T, S).unwrap();
    assert_eq!(plan.url, "https://bbs-api-os.hoyolab.com/game_record/hkrpg/api/note");
    assert_eq!(plan.method, "GET");
    assert_eq!(
        plan.query,
        vec![
            ("role_id".to_string(), "612345678".to_string()),
            ("server".to_string(), "prod_official_usa".to_string()),
        ]
    );
    assert_eq!(plan.cookies.0, "ltuid=111111");
    assert_eq!(plan.cookies.1, "ltoken=token-value");
}

#[test]
fn missing_uid_is_a_typed_failure() {
    let client = client_with_session();
    let err = client.starrail.0.get_notes_plan(None, None, None, T, S).unwrap_err();
    assert_eq!(err, SdkError::MissingUid);
}

#[test]
fn unknown_uid_prefix_is_a_typed_failure() {
    let client = client_with_session();
    let err = client.starrail.0.get_notes_plan(Some(312345678), None, None, T, S).unwrap_err();
    assert_eq!(err, SdkError::UnknownUidPrefix);
}

#[test]
fn challenge_schedule_selector() {
    let client = client_with_session();
    let schedule_of = |previous: Option<bool>| {
        let plan = client
            .starrail
            .0
            .get_challenge_plan(Some(UID), previous, None, T, S)
            .unwrap();
        assert_eq!(plan.url, "https://bbs-api-os.hoyolab.com/game_record/hkrpg/api/challenge");
        assert_eq!(plan.query[3], ("need_all".to_string(), "true".to_string()));
        plan.query[2].clone()
    };
    assert_eq!(schedule_of(None), ("schedule_type".to_string(), "1".to_string()));
    assert_eq!(schedule_of(Some(true)), ("schedule_type".to_string(), "2".to_string()));
    assert_eq!(schedule_of(Some(false)), ("schedule_type".to_string(), "2".to_string()));
}

#[test]
fn rogue_plan_defaults_the_schedule_and_keeps_detail_out_of_the_query() {
    let client = client_with_session();
    let plan = client.starrail.0.get_rouge_plan(Some(UID), None, None, T, S).unwrap();
    assert_eq!(plan.url, "https://bbs-api-os.hoyolab.com/game_record/hkrpg/api/rogue");
    assert_eq!(
        plan.query,
        vec![
            ("role_id".to_string(), "612345678".to_string()),
            ("server".to_string(), "prod_official_usa".to_string()),
            ("schedule_type".to_string(), "3".to_string()),
        ]
    );
    let plan = client.starrail.0.get_rouge_plan(Some(UID), Some(7), None, T, S).unwrap();
    assert_eq!(plan.query[2], ("schedule_type".to_string(), "7".to_string()));
}

#[test]
fn characters_plan_targets_the_roster_endpoint() {
    let client = client_with_session();
    let plan = client.starrail.0.get_characters_plan(Some(UID), Some("ja-jp"), T, S).unwrap();
    assert_eq!(plan.url, "https://bbs-api-os.hoyolab.com/game_record/hkrpg/api/avatar/info");
    let lang = plan.headers.iter().find(|h| h.0 == "x-rpc-language").unwrap();
    assert_eq!(lang.1, "ja-jp");
}

#[test]
fn user_statistics_needs_two_independent_requests() {
    let client = client_with_session();
    let (index_plan, basic_plan) =
        client.starrail.0.get_user_plans(Some(UID), None, T, S).unwrap();
    assert_eq!(index_plan.url, "https://bbs-api-os.hoyolab.com/game_record/hkrpg/api/index");
    assert_eq!(
        basic_plan.url,
        "https://bbs-api-os.hoyolab.com/game_record/hkrpg/api/role/basicInfo"
    );
    assert_eq!(index_plan.query, basic_plan.query);
}

#[test]
fn user_statistics_merge_carries_both_halves() {
    let merged = UserStats::new(
        PartialUserStats { active_days: 30, avatar_num: 12, achievement_num: 80, chest_num: 40 },
        UserLittleInfo { nickname: "Trailblazer".to_string(), level: 60 },
    );
    assert_eq!(merged.active_days, 30);
    assert_eq!(merged.avatar_num, 12);
    assert_eq!(merged.achievement_num, 80);
    assert_eq!(merged.chest_num, 40);
    assert_eq!(merged.nickname, "Trailblazer");
    assert_eq!(merged.level, 60);
}

#[test]
fn account_filter_is_deterministic() {
    let accounts = vec![
        Account { game: Game::GENSHIN, uid: 700000001 },
        Account { game: Game::STARRAIL, uid: UID },
    ];
    let picked = pick_account(&accounts, Game::STARRAIL).unwrap();
    assert_eq!(picked, Account { game: Game::STARRAIL, uid: UID });
    assert_eq!(pick_account(&accounts, Game::HONKAI).unwrap_err(), SdkError::NotFound);
}

#[test]
fn account_filter_picks_the_first_match() {
    let accounts = vec![
        Account { game: Game::STARRAIL, uid: 1 },
        Account { game: Game::STARRAIL, uid: 2 },
    ];
    assert_eq!(pick_account(&accounts, Game::STARRAIL).unwrap().uid, 1);
}

#[test]
fn success_envelope_releases_the_payload() {
    let env = Envelope::new(
        0,
        "OK".to_string(),
        Some(StarRailNote { current_stamina: 120, max_stamina: 240 }),
    );
    let note = env.into_data().unwrap();
    assert_eq!(note.current_stamina, 120);
    assert_eq!(note.max_stamina, 240);
}

#[test]
fn failure_envelope_surfaces_the_upstream_error_without_touching_data() {
    let env: Envelope<StarRailNote> = Envelope::new(-100, "OK".to_string(), None);
    let err = env.into_data().unwrap_err();
    assert_eq!(err, SdkError::Upstream { retcode: -100, message: "OK".to_string() });

    // Even a failure envelope that does carry data must not release it.
    let env = Envelope::new(
        -100,
        "down".to_string(),
        Some(StarRailNote { current_stamina: 1, max_stamina: 2 }),
    );
    assert_eq!(
        env.into_data().unwrap_err(),
        SdkError::Upstream { retcode: -100, message: "down".to_string() }
    );
}

#[test]
fn success_envelope_without_payload_is_a_typed_failure() {
    let env: Envelope<StarRailNote> = Envelope::new(0, "OK".to_string(), None);
    assert_eq!(env.into_data().unwrap_err(), SdkError::MissingData);
}

#[test]
fn listing_envelopes_release_their_lists() {
    let env = Envelope::new(
        0,
        "OK".to_string(),
        Some(AccountList { list: vec![Account { game: Game::STARRAIL, uid: UID }] }),
    );
    let accounts = accounts_from(env).unwrap();
    assert_eq!(accounts.len(), 1);
    assert_eq!(accounts[0].uid, UID);

    let env: Envelope<RecordCardList> = Envelope::new(-1, "maintenance".to_string(), None);
    assert_eq!(
        record_cards_from(env).unwrap_err(),
        SdkError::Upstream { retcode: -1, message: "maintenance".to_string() }
    );
}

#[test]
fn session_propagates_into_every_chronicle_client() {
    let mut client = Client::new();
    assert_eq!(
        client.starrail.0.get_notes_plan(Some(UID), None, None, T, S).unwrap_err(),
        SdkError::MissingCredential
    );
    client.set_cookies("42", "tok");
    let plan = client.starrail.0.get_notes_plan(Some(UID), None, None, T, S).unwrap();
    assert_eq!(plan.cookies.0, "ltuid=42");
    let plan = client.game_accounts_plan(None, T, S).unwrap();
    assert_eq!(plan.cookies.1, "ltoken=tok");
}
