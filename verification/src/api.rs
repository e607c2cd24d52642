//! The requests this library sends to the Solarman API and the decisions
//! taken on its answers.

use vstd::prelude::*;
use crate::text::{decimal_text, append_decimal, parse_unsigned, parse_decimal, text_eq};
use crate::models::{TokenRequest, CurrentDataRequest, HistoricalDataRequest, TokenResponse};

verus! {

/// The address that issues access tokens for application `app_id`.
pub fn token_url(host: &str, app_id: u64) -> (res: String)
    ensures
        res@ == host@ + "/account/v1.0/token?appId="@ + decimal_text(app_id as nat)
            + "&language=en"@,
{
    let mut url = String::from_str(host);
    url.append("/account/v1.0/token?appId=");
    append_decimal(&mut url, app_id);
    url.append("&language=en");
    url
}

/// The address of the current data of a device, in `language`.
pub fn current_data_url(host: &str, language: &str) -> (res: String)
    ensures
        res@ == host@ + "/device/v1.0/currentData?language="@ + language@,
{
    let mut url = String::from_str(host);
    url.append("/device/v1.0/currentData?language=");
    url.append(language);
    url
}

/// The address of the historical data of a device, in `language`.
pub fn historical_data_url(host: &str, language: &str) -> (res: String)
    ensures
        res@ == host@ + "/device/v1.0/historical?language="@ + language@,
{
    let mut url = String::from_str(host);
    url.append("/device/v1.0/historical?language=");
    url.append(language);
    url
}

/// The value of the `Authorization` header that carries `access_token`.
pub fn bearer(access_token: &str) -> (res: String)
    ensures
        res@ == "Bearer "@ + access_token@,
{
    let mut value = String::from_str("Bearer ");
    value.append(access_token);
    value
}

/// The body of an answer, kept when the status is `200 OK` and turned into
/// the error otherwise.
pub fn accept_response(status: u16, body: String) -> (res: Result<String, String>)
    ensures
        status == 200 ==> res == Ok::<String, String>(body),
        status != 200 ==> res == Err::<String, String>(body),
{
    if status == 200 {
        Ok(body)
    } else {
        Err(body)
    }
}

impl TokenRequest {
    /// A token request for an account; no organisation is named.
    pub fn new(app_secret: String, email: String, password: String) -> (res: TokenRequest)
        ensures
            res.app_secret == app_secret,
            res.email == email,
            res.password == password,
            res.org_id is None,
    {
        TokenRequest { app_secret, email, password, org_id: None }
    }
}

impl CurrentDataRequest {
    /// A request for the current data of a device.
    pub fn new(device_sn: String, device_id: String) -> (res: CurrentDataRequest)
        ensures
            res.device_sn == device_sn,
            res.device_id == device_id,
    {
        CurrentDataRequest { device_sn, device_id }
    }
}

impl HistoricalDataRequest {
    /// A request for the historical data of a device between two times, at
    /// the finest granularity the API offers (time type 1).
    pub fn new(device_sn: String, device_id: String, start_time: String, end_time: String) -> (res:
        HistoricalDataRequest)
        ensures
            res.device_sn == device_sn,
            res.device_id == device_id,
            res.start_time == start_time,
            res.end_time == end_time,
            res.time_type == 1,
    {
        HistoricalDataRequest { device_sn, device_id, start_time, end_time, time_type: 1 }
    }
}

/// Why a token answer yields no token.
#[derive(Debug, PartialEq, Eq)]
pub enum TokenFailure {
    /// The API refused: its code and message, empty where absent.
    Rejected { code: String, msg: String },
    /// The API reported success but sent no token.
    MissingToken,
}

/// The text of an optional string, empty where absent.
pub open spec fn text_or_empty(t: Option<String>) -> Seq<char> {
    match t {
        Some(s) => s@,
        None => Seq::<char>::empty(),
    }
}

/// Copies an optional string, an empty string where absent.
fn copy_or_empty(t: &Option<String>) -> (res: String)
    ensures
        res@ == text_or_empty(*t),
{
    match t {
        Some(s) => s.clone(),
        None => String::new(),
    }
}

impl TokenResponse {
    /// The access token of a successful answer.
    pub fn token_outcome(&self) -> (res: Result<String, TokenFailure>)
        ensures
            !self.success ==> (res matches Err(TokenFailure::Rejected { code, msg })
                && code@ == text_or_empty(self.code) && msg@ == text_or_empty(self.msg)),
            self.success ==> match self.access_token {
                Some(t) => res == Ok::<String, TokenFailure>(t),
                None => res == Err::<String, TokenFailure>(TokenFailure::MissingToken),
            },
    {
        if !self.success {
            return Err(TokenFailure::Rejected {
                code: copy_or_empty(&self.code),
                msg: copy_or_empty(&self.msg),
            });
        }
        match &self.access_token {
            Some(t) => Ok(t.clone()),
            None => Err(TokenFailure::MissingToken),
        }
    }
}

/// A numeric setting: `default` when it is not set, the number it spells
/// when set, and `None` when it is set to anything else.
pub fn setting_u64(value: Option<String>, default: u64) -> (res: Option<u64>)
    ensures
        value is None ==> res == Some(default),
        value matches Some(v) ==> match parse_unsigned(v@, u64::MAX as nat) {
            Some(n) => res == Some(n as u64),
            None => res is None,
        },
{
    match value {
        Some(v) => parse_decimal(v.as_str(), u64::MAX),
        None => Some(default),
    }
}

/// A yes/no setting: `default` when it is not set, and otherwise what
/// `bool::from_str` reads, which accepts exactly `true` and `false`.
pub fn setting_flag(value: Option<String>, default: bool) -> (res: Option<bool>)
    ensures
        value is None ==> res == Some(default),
        value matches Some(v) ==> res == (if v@ == "true"@ {
            Some(true)
        } else if v@ == "false"@ {
            Some(false)
        } else {
            None
        }),
{
    match value {
        Some(v) => {
            if text_eq(v.as_str(), "true") {
                Some(true)
            } else if text_eq(v.as_str(), "false") {
                Some(false)
            } else {
                None
            }
        },
        None => Some(default),
    }
}

} // verus!
