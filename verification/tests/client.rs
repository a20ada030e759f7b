use oanda_rs::account;
use oanda_rs::account::accounts::accounts_path;
use oanda_rs::account::changes::account_changes_path;
use oanda_rs::account::configuration::{account_configuration_path, classify_configuration_status};
use oanda_rs::account::detail::account_path;
use oanda_rs::account::instruments::account_instruments_path;
use oanda_rs::account::summary::account_summary_path;
use oanda_rs::client::OandaClient;
use oanda_rs::error::APIError;
use oanda_rs::errors::{Errors, OandaError};
use oanda_rs::instrument::candles::{candles_path, CandleQuery, CandleQueryParam, Granularity};
use oanda_rs::utils::clonable_request::{HttpMethod, RequestBody};
use oanda_rs::utils::decimal::{bool_to_string, i32_to_string, u64_to_string};

fn client_with_account() -> OandaClient {
    OandaClient::new(Some("001-001-1234567-001"), "k3y", 10, 2, 5, 3).unwrap()
}

#[test]
fn test_clone_client() {
    let client = OandaClient::new(Some("acct"), "key", 5, 10, 3, 5).unwrap();
    let client_id = client.get_account_id().unwrap();
    let client_clone_id = client.get_account_id().unwrap();
    assert_eq!(client_id, client_clone_id);
}

#[test]
fn client_new_validates_limits() {
    assert!(OandaClient::new(None, "k", 10, 2, 0, 3).is_err());
    assert!(OandaClient::new(None, "k", 0, 2, 5, 3).is_err());
    assert!(OandaClient::new(None, "k", 10, 0, 5, 3).is_err());
    match OandaClient::new(None, "k", 10, 2, 0, 3) {
        Err(APIError::Other(m)) => assert_eq!(m, "Invalid rate limit value"),
        Err(other) => panic!("unexpected error: {:?}", other),
        Ok(_) => panic!("a zero rate limit must be rejected"),
    }
    assert!(OandaClient::new(None, "k", 1, 1, 1, 0).is_ok());
}

#[test]
fn account_id_can_be_set_later() {
    let mut client = OandaClient::new(None, "k", 10, 2, 5, 3).unwrap();
    assert!(client.get_account_id().is_none());
    client.set_account_id("acct-9");
    assert_eq!(client.get_account_id().unwrap(), "acct-9");
}

#[test]
fn prepare_get_builds_authorized_envelope() {
    let client = client_with_account();
    let env = client.prepare_get("/v3/accounts");
    assert_eq!(env.method, HttpMethod::Get);
    assert_eq!(env.url, "https://api-fxpractice.oanda.com/v3/accounts");
    assert_eq!(env.headers.len(), 1);
    assert_eq!(env.headers[0].0, "Authorization");
    assert_eq!(env.headers[0].1, "Bearer k3y");
    assert!(matches!(env.body, RequestBody::Empty));
}

#[test]
fn prepare_patch_carries_body() {
    let client = client_with_account();
    let env = client.prepare_patch("/v3/x", vec![1, 2]);
    assert_eq!(env.method, HttpMethod::Patch);
    assert_eq!(env.url, "https://api-fxpractice.oanda.com/v3/x");
    match env.body {
        RequestBody::Buffered(b) => assert_eq!(b, vec![1, 2]),
        other => panic!("wrong body: {:?}", other),
    }
}

#[test]
fn check_response_flags_error_payloads() {
    let with_error: serde_json::Value =
        serde_json::from_str("{\"errorMessage\":\"Insufficient authorization\"}").unwrap();
    match OandaClient::check_response(Ok(with_error)) {
        Err(APIError::Other(m)) => assert_eq!(m, "Insufficient authorization"),
        other => panic!("unexpected: {:?}", other),
    }

    let clean: serde_json::Value = serde_json::from_str("{\"accounts\":[]}").unwrap();
    let out = OandaClient::check_response(Ok(clean.clone())).unwrap();
    assert_eq!(out, clean);

    let err = APIError::Other("down".to_string());
    assert!(matches!(
        OandaClient::check_response(Err(err)),
        Err(APIError::Other(m)) if m == "down"
    ));
}

#[test]
fn classify_payload_is_exact() {
    let v: serde_json::Value = serde_json::from_str("{}").unwrap();
    assert!(OandaClient::classify_payload(v.clone(), None).is_ok());
    match OandaClient::classify_payload(v, Some("boom".to_string())) {
        Err(APIError::Other(m)) => assert_eq!(m, "boom"),
        other => panic!("unexpected: {:?}", other),
    }
}

#[test]
fn absolute_account_urls() {
    let client = client_with_account();
    assert_eq!(
        account::accounts_url(),
        "https://api-fxpractice.oanda.com/v3/accounts"
    );
    assert_eq!(
        account::account_url(&client).unwrap(),
        "https://api-fxpractice.oanda.com/v3/accounts/001-001-1234567-001"
    );
    assert_eq!(
        account::account_summary_url(&client).unwrap(),
        "https://api-fxpractice.oanda.com/v3/accounts/001-001-1234567-001/summary"
    );
    assert_eq!(
        account::account_instruments_url(&client).unwrap(),
        "https://api-fxpractice.oanda.com/v3/accounts/001-001-1234567-001/instruments"
    );
    assert_eq!(
        account::account_configuration_url(&client).unwrap(),
        "https://api-fxpractice.oanda.com/v3/accounts/001-001-1234567-001/configuration"
    );
    assert_eq!(
        account::account_changes_url(&client, Some("6357")).unwrap(),
        "https://api-fxpractice.oanda.com/v3/accounts/001-001-1234567-001/changes?sinceTransactionID=6357"
    );
    assert_eq!(
        account::account_changes_url(&client, None).unwrap(),
        "https://api-fxpractice.oanda.com/v3/accounts/001-001-1234567-001/changes"
    );
}

#[test]
fn absolute_urls_need_account() {
    let client = OandaClient::new(None, "k", 10, 2, 5, 3).unwrap();
    match account::account_url(&client) {
        Err(Errors::OandaError(e)) => {
            assert_eq!(e.to_string(), "OandaError: Account ID not set")
        }
        other => panic!("unexpected: {:?}", other),
    }
    assert!(account::account_summary_url(&client).is_err());
    assert!(account::account_changes_url(&client, None).is_err());
}

#[test]
fn relative_paths_under_base() {
    let client = client_with_account();
    assert_eq!(accounts_path(), "/v3/accounts");
    assert_eq!(
        account_path(&client).unwrap(),
        "/v3/accounts/001-001-1234567-001"
    );
    assert_eq!(
        account_summary_path(&client).unwrap(),
        "/v3/accounts/001-001-1234567-001/summary"
    );
    assert_eq!(
        account_instruments_path(&client).unwrap(),
        "/v3/accounts/001-001-1234567-001/instruments"
    );
    assert_eq!(
        account_configuration_path(&client).unwrap(),
        "/v3/accounts/001-001-1234567-001/configuration"
    );
    assert_eq!(
        account_changes_path(&client, &"6357".to_string()).unwrap(),
        "/v3/accounts/001-001-1234567-001/changes?sinceTransactionID=6357"
    );
}

#[test]
fn relative_paths_need_account() {
    let client = OandaClient::new(None, "k", 10, 2, 5, 3).unwrap();
    match account_path(&client) {
        Err(APIError::Other(m)) => assert_eq!(m, "Account ID Not Set"),
        other => panic!("unexpected: {:?}", other),
    }
}

#[test]
fn patch_status_classification() {
    assert!(account::classify_patch_status(200).is_ok());
    match account::classify_patch_status(400) {
        Err(Errors::OandaError(e)) => assert_eq!(
            e.to_string(),
            "OandaError: The configuration specification was invalid"
        ),
        other => panic!("unexpected: {:?}", other),
    }
    match account::classify_patch_status(403) {
        Err(Errors::OandaError(e)) => assert_eq!(
            e.to_string(),
            "OandaError: The configuration operation was forbidden on the Account"
        ),
        other => panic!("unexpected: {:?}", other),
    }
    match account::classify_patch_status(500) {
        Err(Errors::OandaError(e)) => assert_eq!(e.to_string(), "OandaError: Unknown error"),
        other => panic!("unexpected: {:?}", other),
    }
}

#[test]
fn configuration_status_classification() {
    assert!(classify_configuration_status(Some(200)).is_ok());
    match classify_configuration_status(Some(400)) {
        Err(APIError::Other(m)) => {
            assert_eq!(m, "The configuration specification was invalid")
        }
        other => panic!("unexpected: {:?}", other),
    }
    match classify_configuration_status(Some(403)) {
        Err(APIError::Other(m)) => {
            assert_eq!(m, "The configuration operation was forbidden on the Account")
        }
        other => panic!("unexpected: {:?}", other),
    }
    match classify_configuration_status(None) {
        Err(APIError::Other(m)) => assert_eq!(m, "Unknown error"),
        other => panic!("unexpected: {:?}", other),
    }
    match classify_configuration_status(Some(204)) {
        Err(APIError::Other(m)) => assert_eq!(m, "Unknown error"),
        other => panic!("unexpected: {:?}", other),
    }
}

#[test]
fn configuration_payload_gate() {
    let ok: serde_json::Value =
        serde_json::from_str("{\"status\":200,\"lastTransactionID\":\"1\"}").unwrap();
    let passed =
        oanda_rs::account::configuration::check_configuration_response(ok.clone()).unwrap();
    assert_eq!(passed, ok);
    let forbidden: serde_json::Value = serde_json::from_str("{\"status\":403}").unwrap();
    assert!(oanda_rs::account::configuration::check_configuration_response(forbidden).is_err());
    let silent: serde_json::Value = serde_json::from_str("{}").unwrap();
    assert!(oanda_rs::account::configuration::check_configuration_response(silent).is_err());
}

#[test]
fn client_owns_a_governor() {
    let mut client = client_with_account();
    let governor = client.governor();
    assert!(governor.try_start_attempt(0));
    governor.finish_attempt();
    assert_eq!(governor.in_flight(), 0);
}

#[test]
fn granularity_round_trips() {
    let codes = [
        "S5", "S10", "S15", "S30", "M1", "M2", "M4", "M5", "M10", "M15", "M30", "H1", "H2", "H3",
        "H4", "H6", "H8", "H12", "D", "W", "M",
    ];
    for code in codes {
        let g = Granularity::from_str(code).unwrap();
        assert_eq!(g.to_string(), code);
    }
    match Granularity::from_str("H5") {
        Err(APIError::Other(m)) => assert_eq!(m, "Invalid granularity"),
        other => panic!("unexpected: {:?}", other),
    }
    assert!(Granularity::from_str("s5").is_err());
}

#[test]
fn candle_query_renders_params() {
    let mut query = CandleQuery::new();
    query.add_param("count", CandleQueryParam::Count(5));
    query.add_param("granularity", CandleQueryParam::Granularity(Granularity::H1));
    query.add_param("smooth", CandleQueryParam::Smooth(true));
    query.add_param("dailyAlignment", CandleQueryParam::DailyAlignment(-7));
    let built = query.build();
    assert_eq!(
        built,
        vec![
            ("count".to_string(), "5".to_string()),
            ("granularity".to_string(), "H1".to_string()),
            ("smooth".to_string(), "true".to_string()),
            ("dailyAlignment".to_string(), "-7".to_string()),
        ]
    );
}

#[test]
fn candle_query_overwrites_in_place() {
    let mut query = CandleQuery::new();
    query.add_param("count", CandleQueryParam::Count(5));
    query.add_param("from", CandleQueryParam::From("2021-01-04T00:00:00Z".to_string()));
    query.add_param("count", CandleQueryParam::Count(9));
    let built = query.build();
    assert_eq!(
        built,
        vec![
            ("count".to_string(), "9".to_string()),
            ("from".to_string(), "2021-01-04T00:00:00Z".to_string()),
        ]
    );
}

#[test]
fn candles_path_renders_query_in_order() {
    let mut query = CandleQuery::new();
    query.add_param("from", CandleQueryParam::From("2021-01-04T00:00:00Z".to_string()));
    query.add_param("to", CandleQueryParam::To("2021-01-05T00:00:00Z".to_string()));
    query.add_param("granularity", CandleQueryParam::Granularity(Granularity::H1));
    let path = candles_path("EUR_USD", &query.build());
    assert_eq!(
        path,
        "/v3/instruments/EUR_USD/candles?from=2021-01-04T00:00:00Z&to=2021-01-05T00:00:00Z&granularity=H1&"
    );
    assert_eq!(
        candles_path("EUR_USD", &Vec::new()),
        "/v3/instruments/EUR_USD/candles?"
    );
}

#[test]
fn decimal_renderings() {
    assert_eq!(u64_to_string(0), "0");
    assert_eq!(u64_to_string(7), "7");
    assert_eq!(u64_to_string(105), "105");
    assert_eq!(u64_to_string(u64::MAX), "18446744073709551615");
    assert_eq!(i32_to_string(0), "0");
    assert_eq!(i32_to_string(42), "42");
    assert_eq!(i32_to_string(-123), "-123");
    assert_eq!(i32_to_string(i32::MIN), "-2147483648");
    assert_eq!(bool_to_string(true), "true");
    assert_eq!(bool_to_string(false), "false");
}

#[test]
fn error_renderings() {
    let e = OandaError::new("bad input");
    assert_eq!(e.to_string(), "OandaError: bad input");
    let wrapped: Errors = e.into();
    assert_eq!(wrapped.to_string(), "Oanda error: OandaError: bad input");
    let custom = Errors::CustomError("odd".to_string());
    assert_eq!(custom.to_string(), "Custom error: odd");

    let decode_err = serde_json::from_str::<serde_json::Value>("{").unwrap_err();
    let wrapped: Errors = decode_err.into();
    assert!(wrapped.to_string().starts_with("Serde error: "));

    let decode_err = serde_json::from_str::<serde_json::Value>("{").unwrap_err();
    let api: APIError = decode_err.into();
    assert!(matches!(api, APIError::Serde(_)));

    let transport = reqwest::Client::new();
    let bad_request = transport.get("not a url").build().unwrap_err();
    let api: APIError = bad_request.into();
    assert!(matches!(api, APIError::HTTP(_)));
    let bad_request = transport.get("not a url").build().unwrap_err();
    let wrapped: Errors = bad_request.into();
    assert!(wrapped.to_string().starts_with("Reqwest error: "));
}
