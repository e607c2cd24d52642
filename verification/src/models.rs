//! The request and response shapes of the Solarman API, and the readings
//! that one entry of a data list can be turned into.

use vstd::prelude::*;
use crate::text::{parse_unsigned, parse_decimal};
use crate::time::{naive_datetime, zone_local_to_utc, parse_naive_time, local_to_utc};

verus! {

/// Body of a request for the current data of one device.
#[derive(Debug)]
pub struct CurrentDataRequest {
    pub device_sn: String,
    pub device_id: String,
}

/// One reading reported by a device: a key with an optional value, unit and
/// display name, all as text.
#[derive(Debug, Clone, PartialEq, Eq)]
pub struct DataList {
    pub key: String,
    pub value: Option<String>,
    pub unit: Option<String>,
    pub name: Option<String>,
}

/// The current data of one device.
#[derive(Debug)]
pub struct CurrentDataResponse {
    pub code: Option<String>,
    pub msg: Option<String>,
    pub success: bool,
    pub request_id: String,
    pub device_sn: String,
    pub device_id: u32,
    pub device_type: String,
    pub device_state: u8,
    pub data_list: Vec<DataList>,
}

/// Body of a request for the historical data of one device.
#[derive(Debug)]
pub struct HistoricalDataRequest {
    pub device_sn: String,
    pub device_id: String,
    pub start_time: String,
    pub end_time: String,
    pub time_type: u8,
}

/// The historical data of one device: one data list per collection time.
#[derive(Debug)]
pub struct HistoricalDataResponse {
    pub code: Option<String>,
    pub msg: Option<String>,
    pub success: bool,
    pub request_id: String,
    pub device_sn: String,
    pub device_id: u32,
    pub device_type: String,
    pub time_type: u8,
    pub param_data_list: Vec<ParamDataList>,
}

/// The readings collected at one time.
#[derive(Debug, Clone)]
pub struct ParamDataList {
    pub collect_time: String,
    pub data_list: Vec<DataList>,
}

/// Body of a request for an access token.
#[derive(Debug)]
pub struct TokenRequest {
    pub app_secret: String,
    pub email: String,
    pub password: String,
    pub org_id: Option<u32>,
}

/// The answer to a token request.
#[derive(Debug)]
pub struct TokenResponse {
    pub code: Option<String>,
    pub msg: Option<String>,
    pub success: bool,
    pub request_id: String,
    pub access_token: Option<String>,
    pub token_type: Option<String>,
    pub refresh_token: Option<String>,
    pub expires_in: Option<String>,
    pub scope: Option<String>,
    pub uid: Option<u32>,
}

/// The number that an optional value spells, if it is at most `max`.
pub open spec fn unsigned_reading(value: Option<String>, max: nat) -> Option<nat> {
    match value {
        Some(v) => parse_unsigned(v@, max),
        None => None,
    }
}

/// The format of the inverter's system clock reading, such as
/// `24-05-17 13:45:02`.
pub open spec fn system_time_format() -> Seq<char> {
    "%y-%m-%d %H:%M:%S"@
}

/// The UTC time, as chrono's seconds and nanoseconds, that a system clock
/// reading `text` stands for when the clock runs in `zone`.
pub open spec fn utc_of_system_time(text: Seq<char>, zone: Seq<char>) -> Option<(i64, u32)> {
    match naive_datetime(text, system_time_format()) {
        Some(local) => zone_local_to_utc(zone, local),
        None => None,
    }
}

/// A system clock reading that parses names a local time that exists, once,
/// in `zone`.
pub open spec fn system_time_resolves(text: Seq<char>, zone: Seq<char>) -> bool {
    naive_datetime(text, system_time_format()) matches Some(local)
        ==> zone_local_to_utc(zone, local) is Some
}

/// Copies an optional string.
pub fn copy_text(t: &Option<String>) -> (res: Option<String>)
    ensures
        res == *t,
{
    match t {
        Some(s) => Some(s.clone()),
        None => None,
    }
}

impl DataList {
    /// The value read as a `u32`.
    pub open spec fn u32_reading(self) -> Option<u32> {
        match unsigned_reading(self.value, u32::MAX as nat) {
            Some(n) => Some(n as u32),
            None => None,
        }
    }

    /// The value read as a `u16`.
    pub open spec fn u16_reading(self) -> Option<u16> {
        match unsigned_reading(self.value, u16::MAX as nat) {
            Some(n) => Some(n as u16),
            None => None,
        }
    }

    /// The value read as a `u8`.
    pub open spec fn u8_reading(self) -> Option<u8> {
        match unsigned_reading(self.value, u8::MAX as nat) {
            Some(n) => Some(n as u8),
            None => None,
        }
    }

    /// An exact copy of this entry.
    pub fn duplicate(&self) -> (res: DataList)
        ensures
            res == *self,
    {
        DataList {
            key: self.key.clone(),
            value: copy_text(&self.value),
            unit: copy_text(&self.unit),
            name: copy_text(&self.name),
        }
    }

    /// The value as text; `None` when the entry has no value.
    pub fn to_string(&self) -> (res: Option<String>)
        ensures
            res == self.value,
    {
        copy_text(&self.value)
    }

    /// The value as a `u32`; `None` when there is no value or it is not an
    /// optional `+` followed by decimal digits of a number that fits.
    pub fn to_u32(&self) -> (res: Option<u32>)
        ensures
            res == self.u32_reading(),
    {
        match &self.value {
            Some(v) => match parse_decimal(v.as_str(), u32::MAX as u64) {
                Some(n) => Some(n as u32),
                None => None,
            },
            None => None,
        }
    }

    /// The value as a `u16`, under the same rules as [`DataList::to_u32`].
    pub fn to_u16(&self) -> (res: Option<u16>)
        ensures
            res == self.u16_reading(),
    {
        match &self.value {
            Some(v) => match parse_decimal(v.as_str(), u16::MAX as u64) {
                Some(n) => Some(n as u16),
                None => None,
            },
            None => None,
        }
    }

    /// The value as a `u8`, under the same rules as [`DataList::to_u32`].
    pub fn to_u8(&self) -> (res: Option<u8>)
        ensures
            res == self.u8_reading(),
    {
        match &self.value {
            Some(v) => match parse_decimal(v.as_str(), u8::MAX as u64) {
                Some(n) => Some(n as u8),
                None => None,
            },
            None => None,
        }
    }

    /// The value, a system clock reading of the form `yy-mm-dd HH:MM:SS`
    /// on a clock that runs in `zone`, as a UTC time in chrono's form: Unix
    /// seconds and the nanoseconds past them, 1_000_000_000 or more during a
    /// leap second (a seconds field of `60`); `None` when the value does not
    /// parse. The entry must have a value, and a value that parses must name
    /// a local time that exists once in `zone`.
    pub fn to_utc_datetime(&self, zone: &str) -> (res: Option<(i64, u32)>)
        requires
            self.value is Some,
            system_time_resolves(self.value.unwrap()@, zone@),
        ensures
            res == utc_of_system_time(self.value.unwrap()@, zone@),
            naive_datetime(self.value.unwrap()@, "%y-%m-%d %H:%M:%S"@) matches Some(local) ==> res
                == zone_local_to_utc(zone@, local),
            naive_datetime(self.value.unwrap()@, "%y-%m-%d %H:%M:%S"@) is None ==> res is None,
    {
        let text = match &self.value {
            Some(v) => v.as_str(),
            None => "",
        };
        let format = "%y-%m-%d %H:%M:%S";
        match parse_naive_time(text, format) {
            Some(local) => local_to_utc(zone, local),
            None => None,
        }
    }
}

} // verus!
