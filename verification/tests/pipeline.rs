//! Exercises the request-construction pipeline end to end on concrete
//! values: routing, cookies, parameter extraction, signing headers and the
//! per-feature request plans.

use mihoyo_api::client::Client;
use mihoyo_api::cookies::AnyCookieOrHeader;
use mihoyo_api::cookies::BaseCookieManager;
use mihoyo_api::cookies::CookieOrHeader;
use mihoyo_api::ds::ds_value;
use mihoyo_api::ds::get_ds_headers;
use mihoyo_api::errors::SdkError;
use mihoyo_api::kwargs::KwargValue;
use mihoyo_api::kwargs::Kwargs;
use mihoyo_api::request::InnerClient;
use mihoyo_api::types::Game;
use mihoyo_api::types::Region;

const T: u64 = 1700000000;
const S: u32 = 424242;

fn client_with_session() -> Client {
    let mut c = Client::new();
    c.set_cookies("111111", "token-value");
    c
}

#[test]
fn region_and_game_names() {
    assert_eq!(Region::OVERSEAS.name(), "os");
    assert_eq!(Region::CHINESE.name(), "cn");
    assert_eq!(Game::GENSHIN.name(), "genshin");
    assert_eq!(Game::HONKAI.name(), "honkai3rd");
    assert_eq!(Game::STARRAIL.name(), "hkrpg");
}

#[test]
fn routing_tables_are_total_and_nonempty() {
    for region in [Region::OVERSEAS, Region::CHINESE] {
        let takumi = mihoyo_api::routes::takumi_url(region);
        let record = mihoyo_api::routes::record_url(region);
        assert!(!takumi.is_empty());
        assert!(!record.is_empty());
        assert!(takumi.starts_with("https://"));
        assert!(record.starts_with("https://"));
    }
    assert_eq!(
        mihoyo_api::routes::record_url(Region::OVERSEAS),
        "https://bbs-api-os.hoyolab.com/game_record/"
    );
    assert_eq!(
        mihoyo_api::routes::takumi_url(Region::OVERSEAS),
        "https://api-os-takumi.mihoyo.com/"
    );
}

#[test]
fn cookie_rendering_yields_the_two_cookies_in_order() {
    let dict = vec![
        ("ltuid".to_string(), "98765".to_string()),
        ("ltoken".to_string(), "abcdef".to_string()),
    ];
    let manager = BaseCookieManager::from_mapping(Some(dict));
    let (uid_cookie, token_cookie) = manager.forming_cookie().unwrap();
    assert_eq!(uid_cookie, "ltuid=98765");
    assert_eq!(token_cookie, "ltoken=abcdef");
}

#[test]
fn cookie_rendering_fails_recoverably_without_credentials() {
    let manager = BaseCookieManager::from_mapping(None);
    assert_eq!(manager.forming_cookie().unwrap_err(), SdkError::MissingCredential);

    let only_uid = vec![("ltuid".to_string(), "98765".to_string())];
    let manager = BaseCookieManager::from_mapping(Some(only_uid));
    assert_eq!(manager.forming_cookie().unwrap_err(), SdkError::MissingCredential);
}

#[test]
fn cookie_manager_accepts_every_input_shape() {
    let dict = vec![
        ("ltuid".to_string(), "1".to_string()),
        ("ltoken".to_string(), "a".to_string()),
    ];
    let single = BaseCookieManager::from_cookies(Some(AnyCookieOrHeader::CookieOrHeader(
        CookieOrHeader::Dict(dict.clone()),
    )));
    assert_eq!(single.forming_cookie().unwrap(), ("ltuid=1".to_string(), "ltoken=a".to_string()));

    let sequence = BaseCookieManager::from_cookies(Some(AnyCookieOrHeader::SequenceCookieOrHeader(
        vec![
            CookieOrHeader::Dict(dict),
            CookieOrHeader::Dict(vec![("ltuid".to_string(), "2".to_string())]),
        ],
    )));
    assert_eq!(sequence.forming_cookie().unwrap().0, "ltuid=1");

    let empty = BaseCookieManager::from_cookies(Some(AnyCookieOrHeader::SequenceCookieOrHeader(
        Vec::new(),
    )));
    assert_eq!(empty.forming_cookie().unwrap_err(), SdkError::MissingCredential);

    assert_eq!(
        BaseCookieManager::from_cookies(None).forming_cookie().unwrap_err(),
        SdkError::MissingCredential
    );
}

#[test]
fn parameter_bag_typed_retrieval() {
    let mut bag = Kwargs::new();
    bag.insert("x", KwargValue::Int(5));
    let pair = bag.get_pair_int("x").unwrap();
    assert_eq!(pair.0, "x");
    assert_eq!(pair.1, 5);
    // A kind mismatch reads as absent, never as a coerced value.
    assert!(bag.get_pair_text("x").is_none());
    assert!(bag.get_pair_bag("x").is_none());
    // A later insertion overrides the earlier binding.
    bag.insert("x", KwargValue::Text("five".to_string()));
    assert!(bag.get_pair_int("x").is_none());
    assert_eq!(bag.get_pair_text("x").unwrap().1, "five");
    // An unbound key is absent.
    assert!(bag.get_pair_int("y").is_none());
}

#[test]
fn uid_inference_is_a_function_of_the_prefix() {
    let a = mihoyo_api::uid::recognize_starrail_server(612345678).unwrap();
    let b = mihoyo_api::uid::recognize_starrail_server(698765432).unwrap();
    assert_eq!(a, b);
    assert_eq!(a, "prod_official_usa");
    assert_eq!(
        mihoyo_api::uid::recognize_region(612345678, Game::STARRAIL),
        Some(Region::OVERSEAS)
    );
    assert_eq!(
        mihoyo_api::uid::recognize_region(123456789, Game::STARRAIL),
        Some(Region::CHINESE)
    );
    assert_eq!(
        mihoyo_api::uid::recognize_starrail_server(312345678).unwrap_err(),
        SdkError::UnknownUidPrefix
    );
    assert_eq!(mihoyo_api::uid::recognize_region(312345678, Game::STARRAIL), None);
}

#[test]
fn decimal_rendering() {
    assert_eq!(mihoyo_api::text::u64_to_dec(0), "0");
    assert_eq!(mihoyo_api::text::u64_to_dec(7), "7");
    assert_eq!(mihoyo_api::text::u64_to_dec(1700000000), "1700000000");
    assert_eq!(mihoyo_api::text::i64_to_dec(-42), "-42");
    assert_eq!(mihoyo_api::text::i64_to_dec(i64::MIN), "-9223372036854775808");
}

#[test]
fn signing_header_value_matches_the_digest_scheme() {
    let value = ds_value(Region::OVERSEAS, T, S);
    let check = format!("salt=6s25p5ox5y14umn1p61aqyyvbvvl3lrt&t={}&r={}", T, S);
    let expected = format!("{},{},{:x}", T, S, md5::compute(check.as_bytes()));
    assert_eq!(value, expected);
}

#[test]
fn signing_headers_default_the_language() {
    let headers = get_ds_headers(&Region::OVERSEAS, None, T, S);
    assert_eq!(headers.len(), 4);
    assert_eq!(headers[0].0, "DS");
    assert_eq!(headers[3], ("x-rpc-language".to_string(), "en-us".to_string()));

    let headers = get_ds_headers(&Region::OVERSEAS, Some("ja-jp"), T, S);
    assert_eq!(headers[3], ("x-rpc-language".to_string(), "ja-jp".to_string()));
}

#[test]
fn forming_params_extracts_recognized_keys_in_order() {
    let mut inner = Kwargs::new();
    inner.insert("need_all", KwargValue::Text("true".to_string()));
    inner.insert("uid", KwargValue::Int(42));
    inner.insert("server", KwargValue::Text("prod_official_usa".to_string()));
    inner.insert("role_id", KwargValue::Int(612345678));
    inner.insert("schedule_type", KwargValue::Int(1));
    inner.insert("need_detail", KwargValue::Text("true".to_string()));
    let mut kwargs = Kwargs::new();
    kwargs.insert("params", KwargValue::Bag(inner));
    let client = InnerClient::default();
    let query = client.forming_params(&kwargs);
    assert_eq!(
        query,
        vec![
            ("uid".to_string(), "42".to_string()),
            ("role_id".to_string(), "612345678".to_string()),
            ("server".to_string(), "prod_official_usa".to_string()),
            ("schedule_type".to_string(), "1".to_string()),
            ("need_all".to_string(), "true".to_string()),
        ]
    );
}

#[test]
fn forming_params_without_a_params_group_is_empty() {
    let client = InnerClient::default();
    assert!(client.forming_params(&Kwargs::new()).is_empty());
    let mut kwargs = Kwargs::new();
    let mut inner = Kwargs::new();
    inner.insert("role_id", KwargValue::Int(1));
    kwargs.insert("data", KwargValue::Bag(inner));
    assert!(client.forming_params(&kwargs).is_empty());
}

#[test]
fn record_url_round_trip() {
    let client = client_with_session();
    let plan = client
        .client
        .request_game_record_plan(
            "note",
            None,
            Some(Region::OVERSEAS),
            Some(Game::STARRAIL),
            &Kwargs::new(),
            T,
            S,
        )
        .unwrap();
    assert_eq!(plan.url, "https://bbs-api-os.hoyolab.com/game_record/hkrpg/api/note");
    assert_eq!(plan.method, "GET");
}

#[test]
fn hoyolab_resolution_passes_absolute_urls_through() {
    let client = client_with_session();
    let plan = client
        .client
        .request_hoyolab_plan(
            "https://example.invalid/x",
            None,
            None,
            None,
            Vec::new(),
            &Kwargs::new(),
            T,
            S,
        )
        .unwrap();
    assert_eq!(plan.url, "https://example.invalid/x");
    let plan = client
        .client
        .request_hoyolab_plan("x/y", None, None, Some("POST"), Vec::new(), &Kwargs::new(), T, S)
        .unwrap();
    assert_eq!(plan.url, "https://api-os-takumi.mihoyo.com/x/y");
    assert_eq!(plan.method, "POST");
}

#[test]
fn request_requires_a_session() {
    let client = Client::new();
    let err = client
        .client
        .request_game_record_plan("note", None, None, None, &Kwargs::new(), T, S)
        .unwrap_err();
    assert_eq!(err, SdkError::MissingCredential);
}

#[test]
fn game_accounts_plan_targets_the_binding_endpoint() {
    let client = client_with_session();
    let plan = client.game_accounts_plan(None, T, S).unwrap();
    assert_eq!(
        plan.url,
        "https://api-os-takumi.mihoyo.com/binding/api/getUserGameRolesByCookie"
    );
    assert_eq!(plan.method, "GET");
    assert!(plan.query.is_empty());
    assert_eq!(plan.cookies.0, "ltuid=111111");
    assert_eq!(plan.cookies.1, "ltoken=token-value");
}

#[test]
fn record_cards_plan_nests_the_account_id() {
    let client = client_with_session();
    let plan = client.client.record_cards_plan(Some(700001), None, T, S).unwrap();
    assert_eq!(
        plan.url,
        "https://bbs-api-os.hoyolab.com/game_record/card/wapi/getGameRecordCard"
    );
    assert_eq!(plan.query, vec![("uid".to_string(), "700001".to_string())]);
    // Without an explicit id and with none remembered, the failure is typed.
    let err = client.client.record_cards_plan(None, None, T, S).unwrap_err();
    assert_eq!(err, SdkError::MissingAccountId);
}

#[test]
fn error_labels_name_each_variant() {
    assert_eq!(SdkError::MissingCredential.describe(), "missing credential");
    assert_eq!(SdkError::NotFound.describe(), "not found");
    assert_eq!(
        SdkError::Upstream { retcode: -100, message: "OK".to_string() }.describe(),
        "upstream failure"
    );
    assert_eq!(SdkError::Transport("refused".to_string()).describe(), "transport failure");
    assert_eq!(SdkError::Deserialization("bad".to_string()).describe(), "deserialization failure");
}

#[test]
fn getters_report_missing_state_recoverably() {
    let client = InnerClient::default();
    assert_eq!(client.get_hoyolab_id().unwrap_err(), SdkError::MissingAccountId);
    assert_eq!(client.get_region().unwrap(), Region::OVERSEAS);
    assert_eq!(client.get_uid(&Game::STARRAIL).unwrap_err(), SdkError::MissingUid);
    assert!(client.get_cookies().is_none());

    let with_uid = InnerClient::new(
        None,
        None,
        "en-us".to_string(),
        Region::OVERSEAS,
        None,
        None,
        Some(vec![(Game::GENSHIN, 1), (Game::STARRAIL, 612345678)]),
        Some(31415),
        true,
    );
    assert_eq!(with_uid.get_hoyolab_id().unwrap(), 31415);
    assert_eq!(with_uid.get_uid(&Game::STARRAIL).unwrap(), 612345678);
    assert_eq!(with_uid.get_uid(&Game::HONKAI).unwrap_err(), SdkError::MissingGameUid);
    assert!(with_uid.get_cookies().is_some());
}
