use solarman::api::{
    accept_response, bearer, current_data_url, historical_data_url, setting_flag, setting_u64,
    token_url, TokenFailure,
};
use solarman::backfill::backfill_days;
use solarman::models::{CurrentDataRequest, HistoricalDataRequest, TokenRequest, TokenResponse};

fn token_response(success: bool, token: Option<&str>, code: Option<&str>, msg: Option<&str>) -> TokenResponse {
    TokenResponse {
        code: code.map(|s| s.to_string()),
        msg: msg.map(|s| s.to_string()),
        success,
        request_id: "r".to_string(),
        access_token: token.map(|s| s.to_string()),
        token_type: None,
        refresh_token: None,
        expires_in: None,
        scope: None,
        uid: None,
    }
}

#[test]
fn urls_of_the_endpoints() {
    assert_eq!(
        token_url("https://globalapi.solarmanpv.com", 202312345),
        "https://globalapi.solarmanpv.com/account/v1.0/token?appId=202312345&language=en"
    );
    assert_eq!(token_url("h", 0), "h/account/v1.0/token?appId=0&language=en");
    assert_eq!(
        token_url("h", u64::MAX),
        "h/account/v1.0/token?appId=18446744073709551615&language=en"
    );
    assert_eq!(current_data_url("h", "en"), "h/device/v1.0/currentData?language=en");
    assert_eq!(historical_data_url("h", "fi"), "h/device/v1.0/historical?language=fi");
    assert_eq!(bearer("abc"), "Bearer abc");
}

#[test]
fn request_bodies() {
    let t = TokenRequest::new("s".to_string(), "e@x".to_string(), "p".to_string());
    assert_eq!((t.app_secret.as_str(), t.email.as_str(), t.password.as_str(), t.org_id), ("s", "e@x", "p", None));
    let c = CurrentDataRequest::new("sn".to_string(), "id".to_string());
    assert_eq!((c.device_sn.as_str(), c.device_id.as_str()), ("sn", "id"));
    let h = HistoricalDataRequest::new("sn".to_string(), "id".to_string(), "2024-01-01".to_string(), "2024-01-02".to_string());
    assert_eq!(h.time_type, 1);
    assert_eq!((h.start_time.as_str(), h.end_time.as_str()), ("2024-01-01", "2024-01-02"));
}

#[test]
fn only_ok_answers_are_accepted() {
    assert_eq!(accept_response(200, "{}".to_string()), Ok("{}".to_string()));
    assert_eq!(accept_response(401, "denied".to_string()), Err("denied".to_string()));
    assert_eq!(accept_response(204, "".to_string()), Err("".to_string()));
}

#[test]
fn token_outcomes() {
    assert_eq!(token_response(true, Some("tok"), None, None).token_outcome(), Ok("tok".to_string()));
    assert_eq!(token_response(true, None, None, None).token_outcome(), Err(TokenFailure::MissingToken));
    assert_eq!(
        token_response(false, Some("tok"), Some("2101019"), Some("bad password")).token_outcome(),
        Err(TokenFailure::Rejected { code: "2101019".to_string(), msg: "bad password".to_string() })
    );
    assert_eq!(
        token_response(false, None, None, None).token_outcome(),
        Err(TokenFailure::Rejected { code: String::new(), msg: String::new() })
    );
}

#[test]
fn numeric_settings() {
    assert_eq!(setting_u64(None, 60000), Some(60000));
    assert_eq!(setting_u64(Some("1000".to_string()), 60000), Some(1000));
    assert_eq!(setting_u64(Some("ten".to_string()), 60000), None);
    assert_eq!(setting_u64(Some("18446744073709551616".to_string()), 0), None);
}

#[test]
fn flag_settings() {
    assert_eq!(setting_flag(None, false), Some(false));
    assert_eq!(setting_flag(Some("true".to_string()), false), Some(true));
    assert_eq!(setting_flag(Some("false".to_string()), true), Some(false));
    assert_eq!(setting_flag(Some("TRUE".to_string()), false), None);
    assert_eq!(setting_flag(Some("1".to_string()), false), None);
}

#[test]
fn backfill_covers_every_day() {
    assert_eq!(
        backfill_days("2024-02-27", "2024-03-01"),
        Some(vec![
            "2024-02-27".to_string(),
            "2024-02-28".to_string(),
            "2024-02-29".to_string(),
            "2024-03-01".to_string(),
        ])
    );
    assert_eq!(backfill_days("2024-05-01", "2024-05-01"), Some(vec!["2024-05-01".to_string()]));
    assert_eq!(backfill_days("2024-05-02", "2024-05-01"), Some(vec![]));
    assert_eq!(backfill_days("2024-02-30", "2024-03-01"), None);
    assert_eq!(backfill_days("2024-02-01", "tomorrow"), None);
}
