//! Turning one report of a device into a database record, and one
//! collection of historical readings into a report.

use vstd::prelude::*;
use crate::text::{occurs_in, text_eq, contains_text};
use crate::time::{parse_naive_time, local_to_utc, naive_datetime, zone_local_to_utc};
use crate::models::{
    DataList, CurrentDataResponse, HistoricalDataResponse, system_time_resolves,
    utc_of_system_time,
};

verus! {

/// Index of the first entry of `list` whose key is `key`.
pub open spec fn first_with_key(list: Seq<DataList>, key: Seq<char>) -> Option<int>
    decreases list.len(),
{
    if list.len() == 0 {
        None
    } else {
        match first_with_key(list.drop_last(), key) {
            Some(i) => Some(i),
            None => if list.last().key@ == key {
                Some(list.len() - 1)
            } else {
                None
            },
        }
    }
}

/// Index of the last entry of `list` whose key is `key`.
pub open spec fn last_with_key(list: Seq<DataList>, key: Seq<char>) -> Option<int>
    decreases list.len(),
{
    if list.len() == 0 {
        None
    } else if list.last().key@ == key {
        Some(list.len() - 1)
    } else {
        last_with_key(list.drop_last(), key)
    }
}

/// The text of the last entry keyed `key`.
pub open spec fn latest_text(list: Seq<DataList>, key: Seq<char>) -> Option<String> {
    match last_with_key(list, key) {
        Some(i) => list[i].value,
        None => None,
    }
}

/// The `u32` reading of the last entry keyed `key`.
pub open spec fn latest_u32(list: Seq<DataList>, key: Seq<char>) -> Option<u32> {
    match last_with_key(list, key) {
        Some(i) => list[i].u32_reading(),
        None => None,
    }
}

/// The `u16` reading of the last entry keyed `key`.
pub open spec fn latest_u16(list: Seq<DataList>, key: Seq<char>) -> Option<u16> {
    match last_with_key(list, key) {
        Some(i) => list[i].u16_reading(),
        None => None,
    }
}

/// The `u8` reading of the last entry keyed `key`.
pub open spec fn latest_u8(list: Seq<DataList>, key: Seq<char>) -> Option<u8> {
    match last_with_key(list, key) {
        Some(i) => list[i].u8_reading(),
        None => None,
    }
}

pub(crate) proof fn lemma_first_bounds(list: Seq<DataList>, key: Seq<char>)
    ensures
        first_with_key(list, key) matches Some(i) ==> 0 <= i < list.len() && list[i].key@ == key,
    decreases list.len(),
{
    if list.len() > 0 {
        lemma_first_bounds(list.drop_last(), key);
    }
}

pub(crate) proof fn lemma_last_bounds(list: Seq<DataList>, key: Seq<char>)
    ensures
        last_with_key(list, key) matches Some(i) ==> 0 <= i < list.len() && list[i].key@ == key,
    decreases list.len(),
{
    if list.len() > 0 {
        lemma_last_bounds(list.drop_last(), key);
    }
}

/// The position of the first entry keyed `key`, as `Iterator::find` meets it.
pub fn find_first(list: &Vec<DataList>, key: &str) -> (res: Option<usize>)
    ensures
        res matches Some(i) ==> first_with_key(list@, key@) == Some(i as int) && i < list.len()
            && list@[i as int].key@ == key@,
        res is None ==> first_with_key(list@, key@) is None,
{
    let n = list.len();
    let mut i: usize = 0;
    while i < n
        invariant
            n == list.len(),
            i <= n,
            first_with_key(list@.take(i as int), key@) is None,
        decreases n - i,
    {
        assert(list@.take(i + 1).drop_last() =~= list@.take(i as int));
        if text_eq(list[i].key.as_str(), key) {
            assert(first_with_key(list@.take(i + 1), key@) == Some(i as int));
            proof {
                lemma_first_prefix(list@, key@, i as int + 1);
                lemma_first_bounds(list@, key@);
            }
            return Some(i);
        }
        i += 1;
    }
    assert(list@.take(n as int) =~= list@);
    None
}

/// Prefixes that already hold a match agree with the whole list.
proof fn lemma_first_prefix(list: Seq<DataList>, key: Seq<char>, k: int)
    requires
        0 <= k <= list.len(),
        first_with_key(list.take(k), key) is Some,
    ensures
        first_with_key(list, key) == first_with_key(list.take(k), key),
    decreases list.len() - k,
{
    if k < list.len() {
        assert(list.take(k + 1).drop_last() =~= list.take(k));
        lemma_first_prefix(list, key, k + 1);
    } else {
        assert(list.take(k) =~= list);
    }
}

/// The position of the last entry keyed `key`.
pub fn find_last(list: &Vec<DataList>, key: &str) -> (res: Option<usize>)
    ensures
        res matches Some(i) ==> last_with_key(list@, key@) == Some(i as int) && i < list.len(),
        res is None ==> last_with_key(list@, key@) is None,
{
    let n = list.len();
    let mut found: Option<usize> = None;
    let mut i: usize = 0;
    while i < n
        invariant
            n == list.len(),
            i <= n,
            match last_with_key(list@.take(i as int), key@) {
                Some(j) => found == Some(j as usize),
                None => found is None,
            },
            found matches Some(j) ==> j < i,
        decreases n - i,
    {
        assert(list@.take(i + 1).drop_last() =~= list@.take(i as int));
        if text_eq(list[i].key.as_str(), key) {
            found = Some(i);
        }
        i += 1;
    }
    assert(list@.take(n as int) =~= list@);
    proof { lemma_last_bounds(list@, key@); }
    found
}

/// The text of the last entry keyed `key`.
pub fn read_text(list: &Vec<DataList>, key: &str) -> (res: Option<String>)
    ensures
        res == latest_text(list@, key@),
{
    match find_last(list, key) {
        Some(i) => list[i].to_string(),
        None => None,
    }
}

/// The `u32` reading of the last entry keyed `key`.
pub fn read_u32(list: &Vec<DataList>, key: &str) -> (res: Option<u32>)
    ensures
        res == latest_u32(list@, key@),
{
    match find_last(list, key) {
        Some(i) => list[i].to_u32(),
        None => None,
    }
}

/// The `u16` reading of the last entry keyed `key`.
pub fn read_u16(list: &Vec<DataList>, key: &str) -> (res: Option<u16>)
    ensures
        res == latest_u16(list@, key@),
{
    match find_last(list, key) {
        Some(i) => list[i].to_u16(),
        None => None,
    }
}

/// The `u8` reading of the last entry keyed `key`.
pub fn read_u8(list: &Vec<DataList>, key: &str) -> (res: Option<u8>)
    ensures
        res == latest_u8(list@, key@),
{
    match find_last(list, key) {
        Some(i) => list[i].to_u8(),
        None => None,
    }
}


/// One database row built from a report of current data: the UTC time of
/// the report (chrono's Unix seconds and nanoseconds past them, which exceed
/// 999_999_999 only during a leap second), the device, and one field per known reading key. A field
/// holds the reading of the last entry with its key, or nothing when no
/// entry has that key. Readings that the database stores as floating-point
/// numbers are kept as the reported text; the caller converts them.
#[allow(non_snake_case)]
#[derive(Debug, PartialEq, Eq)]
pub struct CurrentData {
    pub time: (i64, u32),
    pub device_sn: String,
    pub device_id: u32,
    pub SN1: Option<String>,
    pub SS_CY1: Option<u16>,
    pub MODEi1: Option<u8>,
    pub HWv1: Option<String>,
    pub SWmai_v1: Option<String>,
    pub DSPv1: Option<String>,
    pub DSPv2: Option<String>,
    pub FUSE_V: Option<String>,
    pub DV1: Option<String>,
    pub DV2: Option<String>,
    pub DC1: Option<String>,
    pub DC2: Option<String>,
    pub DP1: Option<String>,
    pub DP2: Option<String>,
    pub AV1: Option<String>,
    pub AV2: Option<String>,
    pub AV3: Option<String>,
    pub AC1: Option<String>,
    pub AC2: Option<String>,
    pub AC3: Option<String>,
    pub A_Fo1: Option<String>,
    pub APo_t1: Option<String>,
    pub Et_ge0: Option<String>,
    pub Etdy_ge1: Option<String>,
    pub ST_PG1: Option<String>,
    pub PG_Pt1: Option<String>,
    pub E_Puse_t1: Option<String>,
    pub INV_T0: Option<String>,
    pub T_MDU1: Option<String>,
    pub SYSTIM1: Option<String>,
    pub t_w_hou1: Option<u32>,
    pub CD_TIM1: Option<u32>,
    pub Bus_V1: Option<String>,
    pub Dcp1: Option<String>,
    pub Dcp2: Option<String>,
    pub Dcp3: Option<String>,
    pub EAR_N_Ineg1: Option<String>,
    pub CT_P1: Option<String>,
    pub INV_ST1: Option<String>,
    pub N_I1: Option<String>,
    pub N_I2: Option<String>,
}

/// The row that a report yields at UTC time `time`.
pub open spec fn record_of(data: CurrentDataResponse, time: (i64, u32)) -> CurrentData {
    let list = data.data_list@;
    CurrentData {
        time: time,
        device_sn: data.device_sn,
        device_id: data.device_id,
        SN1: latest_text(list, "SN1"@),
        SS_CY1: latest_u16(list, "SS_CY1"@),
        MODEi1: latest_u8(list, "MODEi1"@),
        HWv1: latest_text(list, "HWv1"@),
        SWmai_v1: latest_text(list, "SWmai_v1"@),
        DSPv1: latest_text(list, "DSPv1"@),
        DSPv2: latest_text(list, "DSPv2"@),
        FUSE_V: latest_text(list, "FUSE_V"@),
        DV1: latest_text(list, "DV1"@),
        DV2: latest_text(list, "DV2"@),
        DC1: latest_text(list, "DC1"@),
        DC2: latest_text(list, "DC2"@),
        DP1: latest_text(list, "DP1"@),
        DP2: latest_text(list, "DP2"@),
        AV1: latest_text(list, "AV1"@),
        AV2: latest_text(list, "AV2"@),
        AV3: latest_text(list, "AV3"@),
        AC1: latest_text(list, "AC1"@),
        AC2: latest_text(list, "AC2"@),
        AC3: latest_text(list, "AC3"@),
        A_Fo1: latest_text(list, "A_Fo1"@),
        APo_t1: latest_text(list, "APo_t1"@),
        Et_ge0: latest_text(list, "Et_ge0"@),
        Etdy_ge1: latest_text(list, "Etdy_ge1"@),
        ST_PG1: latest_text(list, "ST_PG1"@),
        PG_Pt1: latest_text(list, "PG_Pt1"@),
        E_Puse_t1: latest_text(list, "E_Puse_t1"@),
        INV_T0: latest_text(list, "INV_T0"@),
        T_MDU1: latest_text(list, "T_MDU1"@),
        SYSTIM1: latest_text(list, "SYSTIM1"@),
        t_w_hou1: latest_u32(list, "t_w_hou1"@),
        CD_TIM1: latest_u32(list, "CD_TIM1"@),
        Bus_V1: latest_text(list, "Bus_V1"@),
        Dcp1: latest_text(list, "Dcp1"@),
        Dcp2: latest_text(list, "Dcp2"@),
        Dcp3: latest_text(list, "Dcp3"@),
        EAR_N_Ineg1: latest_text(list, "EAR_N_Ineg1"@),
        CT_P1: latest_text(list, "CT_P1"@),
        INV_ST1: latest_text(list, "INV_ST1"@),
        N_I1: latest_text(list, "N_I1"@),
        N_I2: latest_text(list, "N_I2"@),
    }
}

/// Whether `k` is one of the keys that a row has a field for.
pub open spec fn is_record_key(k: Seq<char>) -> bool {
    ||| k == "SN1"@
    ||| k == "SS_CY1"@
    ||| k == "MODEi1"@
    ||| k == "HWv1"@
    ||| k == "SWmai_v1"@
    ||| k == "DSPv1"@
    ||| k == "DSPv2"@
    ||| k == "FUSE_V"@
    ||| k == "DV1"@
    ||| k == "DV2"@
    ||| k == "DC1"@
    ||| k == "DC2"@
    ||| k == "DP1"@
    ||| k == "DP2"@
    ||| k == "AV1"@
    ||| k == "AV2"@
    ||| k == "AV3"@
    ||| k == "AC1"@
    ||| k == "AC2"@
    ||| k == "AC3"@
    ||| k == "A_Fo1"@
    ||| k == "APo_t1"@
    ||| k == "Et_ge0"@
    ||| k == "Etdy_ge1"@
    ||| k == "ST_PG1"@
    ||| k == "PG_Pt1"@
    ||| k == "E_Puse_t1"@
    ||| k == "INV_T0"@
    ||| k == "T_MDU1"@
    ||| k == "SYSTIM1"@
    ||| k == "t_w_hou1"@
    ||| k == "CD_TIM1"@
    ||| k == "Bus_V1"@
    ||| k == "Dcp1"@
    ||| k == "Dcp2"@
    ||| k == "Dcp3"@
    ||| k == "EAR_N_Ineg1"@
    ||| k == "CT_P1"@
    ||| k == "INV_ST1"@
    ||| k == "N_I1"@
    ||| k == "N_I2"@
}

impl CurrentData {
    /// The row for `data` at UTC time `time`: every entry whose key names a
    /// field is read into that field, later entries replacing earlier ones;
    /// entries with other keys are ignored.
    pub fn from_report(data: &CurrentDataResponse, time: (i64, u32)) -> (res: CurrentData)
        ensures
            res == record_of(*data, time),
            res.time == time,
            res.device_sn == data.device_sn,
            res.device_id == data.device_id,
            res.SN1 == latest_text(data.data_list@, "SN1"@),
            res.SS_CY1 == latest_u16(data.data_list@, "SS_CY1"@),
            res.MODEi1 == latest_u8(data.data_list@, "MODEi1"@),
            res.HWv1 == latest_text(data.data_list@, "HWv1"@),
            res.SWmai_v1 == latest_text(data.data_list@, "SWmai_v1"@),
            res.DSPv1 == latest_text(data.data_list@, "DSPv1"@),
            res.DSPv2 == latest_text(data.data_list@, "DSPv2"@),
            res.FUSE_V == latest_text(data.data_list@, "FUSE_V"@),
            res.DV1 == latest_text(data.data_list@, "DV1"@),
            res.DV2 == latest_text(data.data_list@, "DV2"@),
            res.DC1 == latest_text(data.data_list@, "DC1"@),
            res.DC2 == latest_text(data.data_list@, "DC2"@),
            res.DP1 == latest_text(data.data_list@, "DP1"@),
            res.DP2 == latest_text(data.data_list@, "DP2"@),
            res.AV1 == latest_text(data.data_list@, "AV1"@),
            res.AV2 == latest_text(data.data_list@, "AV2"@),
            res.AV3 == latest_text(data.data_list@, "AV3"@),
            res.AC1 == latest_text(data.data_list@, "AC1"@),
            res.AC2 == latest_text(data.data_list@, "AC2"@),
            res.AC3 == latest_text(data.data_list@, "AC3"@),
            res.A_Fo1 == latest_text(data.data_list@, "A_Fo1"@),
            res.APo_t1 == latest_text(data.data_list@, "APo_t1"@),
            res.Et_ge0 == latest_text(data.data_list@, "Et_ge0"@),
            res.Etdy_ge1 == latest_text(data.data_list@, "Etdy_ge1"@),
            res.ST_PG1 == latest_text(data.data_list@, "ST_PG1"@),
            res.PG_Pt1 == latest_text(data.data_list@, "PG_Pt1"@),
            res.E_Puse_t1 == latest_text(data.data_list@, "E_Puse_t1"@),
            res.INV_T0 == latest_text(data.data_list@, "INV_T0"@),
            res.T_MDU1 == latest_text(data.data_list@, "T_MDU1"@),
            res.SYSTIM1 == latest_text(data.data_list@, "SYSTIM1"@),
            res.t_w_hou1 == latest_u32(data.data_list@, "t_w_hou1"@),
            res.CD_TIM1 == latest_u32(data.data_list@, "CD_TIM1"@),
            res.Bus_V1 == latest_text(data.data_list@, "Bus_V1"@),
            res.Dcp1 == latest_text(data.data_list@, "Dcp1"@),
            res.Dcp2 == latest_text(data.data_list@, "Dcp2"@),
            res.Dcp3 == latest_text(data.data_list@, "Dcp3"@),
            res.EAR_N_Ineg1 == latest_text(data.data_list@, "EAR_N_Ineg1"@),
            res.CT_P1 == latest_text(data.data_list@, "CT_P1"@),
            res.INV_ST1 == latest_text(data.data_list@, "INV_ST1"@),
            res.N_I1 == latest_text(data.data_list@, "N_I1"@),
            res.N_I2 == latest_text(data.data_list@, "N_I2"@),
    {
        let list = &data.data_list;
        CurrentData {
            time: time,
            device_sn: data.device_sn.clone(),
            device_id: data.device_id,
            SN1: read_text(list, "SN1"),
            SS_CY1: read_u16(list, "SS_CY1"),
            MODEi1: read_u8(list, "MODEi1"),
            HWv1: read_text(list, "HWv1"),
            SWmai_v1: read_text(list, "SWmai_v1"),
            DSPv1: read_text(list, "DSPv1"),
            DSPv2: read_text(list, "DSPv2"),
            FUSE_V: read_text(list, "FUSE_V"),
            DV1: read_text(list, "DV1"),
            DV2: read_text(list, "DV2"),
            DC1: read_text(list, "DC1"),
            DC2: read_text(list, "DC2"),
            DP1: read_text(list, "DP1"),
            DP2: read_text(list, "DP2"),
            AV1: read_text(list, "AV1"),
            AV2: read_text(list, "AV2"),
            AV3: read_text(list, "AV3"),
            AC1: read_text(list, "AC1"),
            AC2: read_text(list, "AC2"),
            AC3: read_text(list, "AC3"),
            A_Fo1: read_text(list, "A_Fo1"),
            APo_t1: read_text(list, "APo_t1"),
            Et_ge0: read_text(list, "Et_ge0"),
            Etdy_ge1: read_text(list, "Etdy_ge1"),
            ST_PG1: read_text(list, "ST_PG1"),
            PG_Pt1: read_text(list, "PG_Pt1"),
            E_Puse_t1: read_text(list, "E_Puse_t1"),
            INV_T0: read_text(list, "INV_T0"),
            T_MDU1: read_text(list, "T_MDU1"),
            SYSTIM1: read_text(list, "SYSTIM1"),
            t_w_hou1: read_u32(list, "t_w_hou1"),
            CD_TIM1: read_u32(list, "CD_TIM1"),
            Bus_V1: read_text(list, "Bus_V1"),
            Dcp1: read_text(list, "Dcp1"),
            Dcp2: read_text(list, "Dcp2"),
            Dcp3: read_text(list, "Dcp3"),
            EAR_N_Ineg1: read_text(list, "EAR_N_Ineg1"),
            CT_P1: read_text(list, "CT_P1"),
            INV_ST1: read_text(list, "INV_ST1"),
            N_I1: read_text(list, "N_I1"),
            N_I2: read_text(list, "N_I2"),
        }
    }
}

/// What to do with one report of current data.
#[derive(Debug, PartialEq, Eq)]
pub enum EntryPlan {
    /// No entry carries the system clock (`SYSTIM1`): nothing is written.
    MissingSystemTime,
    /// The system clock reading does not parse: nothing is written.
    UnreadableSystemTime,
    /// The row to write.
    Record(CurrentData),
}

/// The plan for a report whose clock runs in `zone`; `None` where the
/// report cannot be handled at all: the first `SYSTIM1` entry has no value,
/// or its time does not exist once in `zone`.
pub open spec fn entry_plan(data: CurrentDataResponse, zone: Seq<char>) -> Option<EntryPlan> {
    match first_with_key(data.data_list@, "SYSTIM1"@) {
        None => Some(EntryPlan::MissingSystemTime),
        Some(i) => match data.data_list@[i].value {
            None => None,
            Some(v) => if !system_time_resolves(v@, zone) {
                None
            } else {
                match utc_of_system_time(v@, zone) {
                    None => Some(EntryPlan::UnreadableSystemTime),
                    Some(t) => Some(EntryPlan::Record(record_of(data, t))),
                }
            },
        },
    }
}

/// Decides what one report of current data becomes: the time of the row is
/// the first `SYSTIM1` entry read on a clock running in `zone`.
pub fn plan_entry(data: &CurrentDataResponse, zone: &str) -> (res: Option<EntryPlan>)
    ensures
        res == entry_plan(*data, zone@),
        first_with_key(data.data_list@, "SYSTIM1"@) is None ==> res == Some(
            EntryPlan::MissingSystemTime,
        ),
        first_with_key(data.data_list@, "SYSTIM1"@) matches Some(i) ==> match data.data_list@[i].value {
            None => res is None,
            Some(v) => match naive_datetime(v@, "%y-%m-%d %H:%M:%S"@) {
                None => res == Some(EntryPlan::UnreadableSystemTime),
                Some(local) => match zone_local_to_utc(zone@, local) {
                    None => res is None,
                    Some(t) => res matches Some(EntryPlan::Record(r)) && r.time == t && r
                        == record_of(*data, t),
                },
            },
        },
{
    let list = &data.data_list;
    let i = match find_first(list, "SYSTIM1") {
        Some(i) => i,
        None => return Some(EntryPlan::MissingSystemTime),
    };
    let entry = &list[i];
    let text = match &entry.value {
        Some(v) => v.as_str(),
        None => return None,
    };
    let format = "%y-%m-%d %H:%M:%S";
    if let Some(local) = parse_naive_time(text, format) {
        if local_to_utc(zone, local).is_none() {
            return None;
        }
    }
    match entry.to_utc_datetime(zone) {
        Some(t) => Some(EntryPlan::Record(CurrentData::from_report(data, t))),
        None => Some(EntryPlan::UnreadableSystemTime),
    }
}

/// The device state that a collection of readings reports: 3 (standby) when
/// the first `INV_ST1` entry's text contains `Standby`, 1 otherwise; an entry
/// without a value counts as empty text.
pub open spec fn state_of(list: Seq<DataList>) -> u8 {
    let i = first_with_key(list, "INV_ST1"@).unwrap();
    let text = match list[i].value {
        Some(v) => v@,
        None => Seq::<char>::empty(),
    };
    if occurs_in(text, "Standby"@) {
        3
    } else {
        1
    }
}

/// The device state of a collection of readings that has an `INV_ST1` entry.
pub fn device_state(list: &Vec<DataList>) -> (res: u8)
    requires
        first_with_key(list@, "INV_ST1"@) is Some,
    ensures
        res == state_of(list@),
        res == 1 || res == 3,
        list@[first_with_key(list@, "INV_ST1"@)->0].value matches Some(v) ==> (res == 3
            <==> occurs_in(v@, "Standby"@)),
        list@[first_with_key(list@, "INV_ST1"@)->0].value is None ==> res == 1,
{
    let i = match find_first(list, "INV_ST1") {
        Some(i) => i,
        None => return 1,
    };
    let standby = match &list[i].value {
        Some(v) => contains_text(v.as_str(), "Standby"),
        None => {
            let empty = String::new();
            proof {
                reveal_strlit("Standby");
                assert(!occurs_in(empty@, "Standby"@));
            }
            contains_text(empty.as_str(), "Standby")
        },
    };
    if standby {
        3
    } else {
        1
    }
}

/// A copy of a list of readings.
pub fn copy_entries(list: &Vec<DataList>) -> (res: Vec<DataList>)
    ensures
        res@ == list@,
{
    let mut res: Vec<DataList> = Vec::new();
    let mut i: usize = 0;
    while i < list.len()
        invariant
            i <= list.len(),
            res@ == list@.take(i as int),
        decreases list.len() - i,
    {
        res.push(list[i].duplicate());
        i += 1;
        assert(res@ =~= list@.take(i as int));
    }
    assert(list@.take(list.len() as int) =~= list@);
    res
}

impl HistoricalDataResponse {
    /// The report of current data that the collection at `index` stands
    /// for: the response's device and request fields, no code or message,
    /// the collection's readings, and the device state they report.
    pub fn report_at(&self, index: usize) -> (res: CurrentDataResponse)
        requires
            index < self.param_data_list.len(),
            first_with_key(self.param_data_list@[index as int].data_list@, "INV_ST1"@) is Some,
        ensures
            res.code is None,
            res.msg is None,
            res.success == self.success,
            res.request_id == self.request_id,
            res.device_sn == self.device_sn,
            res.device_id == self.device_id,
            res.device_type == self.device_type,
            res.device_state == state_of(self.param_data_list@[index as int].data_list@),
            res.data_list@ == self.param_data_list@[index as int].data_list@,
    {
        let list = &self.param_data_list[index].data_list;
        CurrentDataResponse {
            code: None,
            msg: None,
            success: self.success,
            request_id: self.request_id.clone(),
            device_sn: self.device_sn.clone(),
            device_id: self.device_id,
            device_type: self.device_type.clone(),
            device_state: device_state(list),
            data_list: copy_entries(list),
        }
    }
}

} // verus!
