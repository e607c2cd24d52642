//! Properties that hold across the functions of the library.

use vstd::prelude::*;
use crate::text::{
    all_digits, decimal_text, digit_char, digit_value, digits_value, is_decimal_digit, occurs_in,
    parse_unsigned,
};
use crate::models::{
    DataList, CurrentDataResponse, utc_of_system_time, system_time_resolves,
};
use crate::record::{
    is_record_key, first_with_key, last_with_key, latest_text, latest_u32, latest_u16, latest_u8,
    record_of, entry_plan, state_of, EntryPlan, lemma_first_bounds, lemma_last_bounds,
};
use crate::time::{naive_datetime, zone_local_to_utc, day_text};
use crate::backfill::{day_count, all_days_written};

verus! {

/// A value reads as the same number whatever the width asked for, as long
/// as the number fits: a `u8` reading is also the `u16` and `u32` reading,
/// a `u16` reading is also the `u32` reading, and a value reads as a `u8`
/// exactly when it reads as a `u32` of at most 255 (and as a `u16` exactly
/// when it reads as a `u32` of at most 65535).
pub proof fn law_reading_widths(d: DataList)
    ensures
        d.u8_reading() matches Some(v) ==> d.u16_reading() == Some(v as u16) && d.u32_reading()
            == Some(v as u32),
        d.u16_reading() matches Some(v) ==> d.u32_reading() == Some(v as u32),
        d.u8_reading() is Some <==> (d.u32_reading() matches Some(v) && v <= 255),
        d.u16_reading() is Some <==> (d.u32_reading() matches Some(v) && v <= 65535),
{
}

/// A later entry with a key replaces what earlier entries with that key
/// gave, and leaves every other key as it was.
pub proof fn law_later_entry_wins(list: Seq<DataList>, e: DataList, key: Seq<char>)
    ensures
        last_with_key(list.push(e), key) == (if e.key@ == key {
            Some(list.len() as int)
        } else {
            last_with_key(list, key)
        }),
        latest_text(list.push(e), key) == (if e.key@ == key {
            e.value
        } else {
            latest_text(list, key)
        }),
        latest_u32(list.push(e), key) == (if e.key@ == key {
            e.u32_reading()
        } else {
            latest_u32(list, key)
        }),
        latest_u16(list.push(e), key) == (if e.key@ == key {
            e.u16_reading()
        } else {
            latest_u16(list, key)
        }),
        latest_u8(list.push(e), key) == (if e.key@ == key {
            e.u8_reading()
        } else {
            latest_u8(list, key)
        }),
{
    assert(list.push(e).drop_last() =~= list);
    lemma_last_in_range(list, key);
    if e.key@ != key {
        if let Some(i) = last_with_key(list, key) {
            assert(list.push(e)[i] == list[i]);
        }
    }
}

/// The entries of a list whose keys name a field of a row, in order.
pub open spec fn known_entries(list: Seq<DataList>) -> Seq<DataList> {
    list.filter(|e: DataList| is_record_key(e.key@))
}

/// The last entry keyed `key`.
pub open spec fn last_entry(list: Seq<DataList>, key: Seq<char>) -> Option<DataList> {
    match last_with_key(list, key) {
        Some(i) => Some(list[i]),
        None => None,
    }
}

/// The first entry keyed `key`.
pub open spec fn first_entry(list: Seq<DataList>, key: Seq<char>) -> Option<DataList> {
    match first_with_key(list, key) {
        Some(i) => Some(list[i]),
        None => None,
    }
}

/// Entries whose keys name no field of a row change neither the row nor
/// what becomes of a report, wherever and however many of them stand in the
/// report: two reports of one device whose entries with field keys are the
/// same, in the same order, give the same row and the same plan.
pub proof fn law_unknown_keys_ignored(
    a: CurrentDataResponse,
    b: CurrentDataResponse,
    zone: Seq<char>,
    time: (i64, u32),
)
    requires
        known_entries(a.data_list@) == known_entries(b.data_list@),
        a.device_sn == b.device_sn,
        a.device_id == b.device_id,
    ensures
        record_of(a, time) == record_of(b, time),
        entry_plan(a, zone) == entry_plan(b, zone),
{
    lemma_last_through_known(a.data_list@, "SN1"@);
    lemma_last_through_known(b.data_list@, "SN1"@);
    lemma_last_through_known(a.data_list@, "SS_CY1"@);
    lemma_last_through_known(b.data_list@, "SS_CY1"@);
    lemma_last_through_known(a.data_list@, "MODEi1"@);
    lemma_last_through_known(b.data_list@, "MODEi1"@);
    lemma_last_through_known(a.data_list@, "HWv1"@);
    lemma_last_through_known(b.data_list@, "HWv1"@);
    lemma_last_through_known(a.data_list@, "SWmai_v1"@);
    lemma_last_through_known(b.data_list@, "SWmai_v1"@);
    lemma_last_through_known(a.data_list@, "DSPv1"@);
    lemma_last_through_known(b.data_list@, "DSPv1"@);
    lemma_last_through_known(a.data_list@, "DSPv2"@);
    lemma_last_through_known(b.data_list@, "DSPv2"@);
    lemma_last_through_known(a.data_list@, "FUSE_V"@);
    lemma_last_through_known(b.data_list@, "FUSE_V"@);
    lemma_last_through_known(a.data_list@, "DV1"@);
    lemma_last_through_known(b.data_list@, "DV1"@);
    lemma_last_through_known(a.data_list@, "DV2"@);
    lemma_last_through_known(b.data_list@, "DV2"@);
    lemma_last_through_known(a.data_list@, "DC1"@);
    lemma_last_through_known(b.data_list@, "DC1"@);
    lemma_last_through_known(a.data_list@, "DC2"@);
    lemma_last_through_known(b.data_list@, "DC2"@);
    lemma_last_through_known(a.data_list@, "DP1"@);
    lemma_last_through_known(b.data_list@, "DP1"@);
    lemma_last_through_known(a.data_list@, "DP2"@);
    lemma_last_through_known(b.data_list@, "DP2"@);
    lemma_last_through_known(a.data_list@, "AV1"@);
    lemma_last_through_known(b.data_list@, "AV1"@);
    lemma_last_through_known(a.data_list@, "AV2"@);
    lemma_last_through_known(b.data_list@, "AV2"@);
    lemma_last_through_known(a.data_list@, "AV3"@);
    lemma_last_through_known(b.data_list@, "AV3"@);
    lemma_last_through_known(a.data_list@, "AC1"@);
    lemma_last_through_known(b.data_list@, "AC1"@);
    lemma_last_through_known(a.data_list@, "AC2"@);
    lemma_last_through_known(b.data_list@, "AC2"@);
    lemma_last_through_known(a.data_list@, "AC3"@);
    lemma_last_through_known(b.data_list@, "AC3"@);
    lemma_last_through_known(a.data_list@, "A_Fo1"@);
    lemma_last_through_known(b.data_list@, "A_Fo1"@);
    lemma_last_through_known(a.data_list@, "APo_t1"@);
    lemma_last_through_known(b.data_list@, "APo_t1"@);
    lemma_last_through_known(a.data_list@, "Et_ge0"@);
    lemma_last_through_known(b.data_list@, "Et_ge0"@);
    lemma_last_through_known(a.data_list@, "Etdy_ge1"@);
    lemma_last_through_known(b.data_list@, "Etdy_ge1"@);
    lemma_last_through_known(a.data_list@, "ST_PG1"@);
    lemma_last_through_known(b.data_list@, "ST_PG1"@);
    lemma_last_through_known(a.data_list@, "PG_Pt1"@);
    lemma_last_through_known(b.data_list@, "PG_Pt1"@);
    lemma_last_through_known(a.data_list@, "E_Puse_t1"@);
    lemma_last_through_known(b.data_list@, "E_Puse_t1"@);
    lemma_last_through_known(a.data_list@, "INV_T0"@);
    lemma_last_through_known(b.data_list@, "INV_T0"@);
    lemma_last_through_known(a.data_list@, "T_MDU1"@);
    lemma_last_through_known(b.data_list@, "T_MDU1"@);
    lemma_last_through_known(a.data_list@, "SYSTIM1"@);
    lemma_last_through_known(b.data_list@, "SYSTIM1"@);
    lemma_last_through_known(a.data_list@, "t_w_hou1"@);
    lemma_last_through_known(b.data_list@, "t_w_hou1"@);
    lemma_last_through_known(a.data_list@, "CD_TIM1"@);
    lemma_last_through_known(b.data_list@, "CD_TIM1"@);
    lemma_last_through_known(a.data_list@, "Bus_V1"@);
    lemma_last_through_known(b.data_list@, "Bus_V1"@);
    lemma_last_through_known(a.data_list@, "Dcp1"@);
    lemma_last_through_known(b.data_list@, "Dcp1"@);
    lemma_last_through_known(a.data_list@, "Dcp2"@);
    lemma_last_through_known(b.data_list@, "Dcp2"@);
    lemma_last_through_known(a.data_list@, "Dcp3"@);
    lemma_last_through_known(b.data_list@, "Dcp3"@);
    lemma_last_through_known(a.data_list@, "EAR_N_Ineg1"@);
    lemma_last_through_known(b.data_list@, "EAR_N_Ineg1"@);
    lemma_last_through_known(a.data_list@, "CT_P1"@);
    lemma_last_through_known(b.data_list@, "CT_P1"@);
    lemma_last_through_known(a.data_list@, "INV_ST1"@);
    lemma_last_through_known(b.data_list@, "INV_ST1"@);
    lemma_last_through_known(a.data_list@, "N_I1"@);
    lemma_last_through_known(b.data_list@, "N_I1"@);
    lemma_last_through_known(a.data_list@, "N_I2"@);
    lemma_last_through_known(b.data_list@, "N_I2"@);
    lemma_first_through_known(a.data_list@, "SYSTIM1"@);
    lemma_first_through_known(b.data_list@, "SYSTIM1"@);
    lemma_first_bounds(a.data_list@, "SYSTIM1"@);
    lemma_first_bounds(b.data_list@, "SYSTIM1"@);
}

/// The last entry with a field key is found alike in a list and in its
/// entries with field keys.
proof fn lemma_last_through_known(list: Seq<DataList>, key: Seq<char>)
    requires
        is_record_key(key),
    ensures
        last_entry(list, key) == last_entry(known_entries(list), key),
        latest_text(list, key) == latest_text(known_entries(list), key),
        latest_u32(list, key) == latest_u32(known_entries(list), key),
        latest_u16(list, key) == latest_u16(known_entries(list), key),
        latest_u8(list, key) == latest_u8(known_entries(list), key),
    decreases list.len(),
{
    reveal(Seq::filter);
    let known = known_entries(list);
    lemma_last_bounds(list, key);
    lemma_last_bounds(known, key);
    if list.len() > 0 {
        let rest = list.drop_last();
        let e = list.last();
        lemma_last_through_known(rest, key);
        lemma_last_bounds(rest, key);
        lemma_last_bounds(known_entries(rest), key);
        assert(known_entries(list) == (if is_record_key(e.key@) {
            known_entries(rest).push(e)
        } else {
            known_entries(rest)
        }));
        if is_record_key(e.key@) {
            assert(known.drop_last() =~= known_entries(rest));
        }
    }
}

/// The first entry with a field key is found alike in a list and in its
/// entries with field keys.
proof fn lemma_first_through_known(list: Seq<DataList>, key: Seq<char>)
    requires
        is_record_key(key),
    ensures
        first_entry(list, key) == first_entry(known_entries(list), key),
    decreases list.len(),
{
    reveal(Seq::filter);
    let known = known_entries(list);
    lemma_first_bounds(list, key);
    lemma_first_bounds(known, key);
    if list.len() > 0 {
        let rest = list.drop_last();
        let e = list.last();
        lemma_first_through_known(rest, key);
        lemma_first_bounds(rest, key);
        lemma_first_bounds(known_entries(rest), key);
        assert(known_entries(list) == (if is_record_key(e.key@) {
            known_entries(rest).push(e)
        } else {
            known_entries(rest)
        }));
        if is_record_key(e.key@) {
            assert(known.drop_last() =~= known_entries(rest));
        }
    }
}

/// A row depends only on the device and the readings of a report: its code,
/// message, request id, device type and state play no part.
pub proof fn law_row_depends_on_device_and_readings(
    a: CurrentDataResponse,
    b: CurrentDataResponse,
    time: (i64, u32),
)
    requires
        a.data_list@ == b.data_list@,
        a.device_sn == b.device_sn,
        a.device_id == b.device_id,
    ensures
        record_of(a, time) == record_of(b, time),
{
}

/// The decimal numeral of a number reads back as that number under the
/// syntax `to_u8`, `to_u16`, `to_u32` and the settings accept, whenever the
/// number fits the bound.
pub proof fn law_decimal_reads_back(n: nat, max: nat)
    requires
        n <= max,
    ensures
        parse_unsigned(decimal_text(n), max) == Some(n),
{
    lemma_decimal_digits(n);
    assert(is_decimal_digit(decimal_text(n)[0]));
}

proof fn lemma_digit_char(d: nat)
    requires
        d < 10,
    ensures
        is_decimal_digit(digit_char(d)),
        digits_value(seq![digit_char(d)]) == d,
{
    assert(seq![digit_char(d)].drop_last() =~= Seq::<char>::empty());
    assert(digits_value(Seq::<char>::empty()) == 0);
    assert(digit_char(d) as int == '0' as int + d);
    assert(digit_value(digit_char(d)) == d);
}

proof fn lemma_decimal_digits(n: nat)
    ensures
        decimal_text(n).len() > 0,
        all_digits(decimal_text(n)),
        digits_value(decimal_text(n)) == n,
    decreases n,
{
    if n < 10 {
        lemma_digit_char(n);
    } else {
        lemma_decimal_digits(n / 10);
        lemma_digit_char(n % 10);
        let s = decimal_text(n);
        assert(s.drop_last() =~= decimal_text(n / 10));
        assert(s.last() == digit_char(n % 10));
        assert(all_digits(s)) by {
            assert forall|i: int| 0 <= i < s.len() implies is_decimal_digit(#[trigger] s[i]) by {
                if i < s.len() - 1 {
                    assert(s[i] == decimal_text(n / 10)[i]);
                }
            }
        }
    }
}

/// A reading is read from its own text: a value that spells a number up to
/// 4294967295, 65535 or 255 reads as that number at width `u32`, `u16` or
/// `u8`; any other value, or none, reads as nothing.
pub proof fn law_readings_from_text(d: DataList)
    ensures
        d.value is None ==> d.u32_reading() is None && d.u16_reading() is None
            && d.u8_reading() is None,
        d.value matches Some(v) ==> match parse_unsigned(v@, 4294967295) {
            Some(n) => d.u32_reading() == Some(n as u32),
            None => d.u32_reading() is None,
        },
        d.value matches Some(v) ==> match parse_unsigned(v@, 65535) {
            Some(n) => d.u16_reading() == Some(n as u16),
            None => d.u16_reading() is None,
        },
        d.value matches Some(v) ==> match parse_unsigned(v@, 255) {
            Some(n) => d.u8_reading() == Some(n as u8),
            None => d.u8_reading() is None,
        },
{
}

/// The last entry keyed `key` is the one at the largest position whose key
/// is exactly `key`; there is none when no entry has that key. The first
/// entry is the one at the smallest such position.
pub proof fn law_first_and_last_entry(list: Seq<DataList>, key: Seq<char>)
    ensures
        last_with_key(list, key) matches Some(i) ==> 0 <= i < list.len() && list[i].key@ == key
            && forall|j: int| i < j < list.len() ==> #[trigger] list[j].key@ != key,
        last_with_key(list, key) is None ==> forall|j: int|
            0 <= j < list.len() ==> #[trigger] list[j].key@ != key,
        first_with_key(list, key) matches Some(i) ==> 0 <= i < list.len() && list[i].key@ == key
            && forall|j: int| 0 <= j < i ==> #[trigger] list[j].key@ != key,
        first_with_key(list, key) is None ==> forall|j: int|
            0 <= j < list.len() ==> #[trigger] list[j].key@ != key,
    decreases list.len(),
{
    if list.len() > 0 {
        let rest = list.drop_last();
        law_first_and_last_entry(rest, key);
        assert forall|j: int| 0 <= j < rest.len() implies #[trigger] rest[j] == list[j] by {}
        if list.last().key@ != key {
            if let Some(i) = last_with_key(rest, key) {
                assert forall|j: int| i < j < list.len() implies #[trigger] list[j].key@ != key by {
                    if j < rest.len() {
                        assert(rest[j].key@ != key);
                    }
                }
            } else {
                assert forall|j: int| 0 <= j < list.len() implies #[trigger] list[j].key@ != key by {
                    if j < rest.len() {
                        assert(rest[j].key@ != key);
                    }
                }
            }
        }
        match first_with_key(rest, key) {
            Some(i) => {
                assert forall|j: int| 0 <= j < i implies #[trigger] list[j].key@ != key by {
                    assert(rest[j].key@ != key);
                }
            },
            None => {
                assert forall|j: int| 0 <= j < rest.len() implies #[trigger] list[j].key@ != key by {
                    assert(rest[j].key@ != key);
                }
            },
        }
    }
}

/// The readings of a key are those of its last entry: when entry `i` has key
/// `key` and no later entry has, the text and number readings of the key are
/// entry `i`'s; with no entry of that key they are nothing.
pub proof fn law_latest_is_last_entry(list: Seq<DataList>, key: Seq<char>)
    ensures
        forall|i: int|
            0 <= i < list.len() && list[i].key@ == key && (forall|j: int|
                i < j < list.len() ==> #[trigger] list[j].key@ != key) ==> {
                &&& latest_text(list, key) == #[trigger] list[i].value
                &&& latest_u32(list, key) == list[i].u32_reading()
                &&& latest_u16(list, key) == list[i].u16_reading()
                &&& latest_u8(list, key) == list[i].u8_reading()
            },
        (forall|j: int| 0 <= j < list.len() ==> #[trigger] list[j].key@ != key) ==> {
            &&& latest_text(list, key) is None
            &&& latest_u32(list, key) is None
            &&& latest_u16(list, key) is None
            &&& latest_u8(list, key) is None
        },
{
    law_first_and_last_entry(list, key);
    assert forall|i: int|
        0 <= i < list.len() && list[i].key@ == key && (forall|j: int|
            i < j < list.len() ==> #[trigger] list[j].key@ != key) implies last_with_key(list, key)
        == Some(i) by {
        if let Some(l) = last_with_key(list, key) {
            if l < i {
                assert(list[i].key@ != key);
            } else if l > i {
                assert(list[l].key@ != key);
            }
        } else {
            assert(list[i].key@ != key);
        }
    }
}

/// Each field of a row is the reading of its own key, and the row carries
/// the time and device it was built for.
pub proof fn law_row_fields(data: CurrentDataResponse, time: (i64, u32))
    ensures
        record_of(data, time).time == time,
        record_of(data, time).device_sn == data.device_sn,
        record_of(data, time).device_id == data.device_id,
        record_of(data, time).SN1 == latest_text(data.data_list@, "SN1"@),
        record_of(data, time).SS_CY1 == latest_u16(data.data_list@, "SS_CY1"@),
        record_of(data, time).MODEi1 == latest_u8(data.data_list@, "MODEi1"@),
        record_of(data, time).HWv1 == latest_text(data.data_list@, "HWv1"@),
        record_of(data, time).SWmai_v1 == latest_text(data.data_list@, "SWmai_v1"@),
        record_of(data, time).DSPv1 == latest_text(data.data_list@, "DSPv1"@),
        record_of(data, time).DSPv2 == latest_text(data.data_list@, "DSPv2"@),
        record_of(data, time).FUSE_V == latest_text(data.data_list@, "FUSE_V"@),
        record_of(data, time).DV1 == latest_text(data.data_list@, "DV1"@),
        record_of(data, time).DV2 == latest_text(data.data_list@, "DV2"@),
        record_of(data, time).DC1 == latest_text(data.data_list@, "DC1"@),
        record_of(data, time).DC2 == latest_text(data.data_list@, "DC2"@),
        record_of(data, time).DP1 == latest_text(data.data_list@, "DP1"@),
        record_of(data, time).DP2 == latest_text(data.data_list@, "DP2"@),
        record_of(data, time).AV1 == latest_text(data.data_list@, "AV1"@),
        record_of(data, time).AV2 == latest_text(data.data_list@, "AV2"@),
        record_of(data, time).AV3 == latest_text(data.data_list@, "AV3"@),
        record_of(data, time).AC1 == latest_text(data.data_list@, "AC1"@),
        record_of(data, time).AC2 == latest_text(data.data_list@, "AC2"@),
        record_of(data, time).AC3 == latest_text(data.data_list@, "AC3"@),
        record_of(data, time).A_Fo1 == latest_text(data.data_list@, "A_Fo1"@),
        record_of(data, time).APo_t1 == latest_text(data.data_list@, "APo_t1"@),
        record_of(data, time).Et_ge0 == latest_text(data.data_list@, "Et_ge0"@),
        record_of(data, time).Etdy_ge1 == latest_text(data.data_list@, "Etdy_ge1"@),
        record_of(data, time).ST_PG1 == latest_text(data.data_list@, "ST_PG1"@),
        record_of(data, time).PG_Pt1 == latest_text(data.data_list@, "PG_Pt1"@),
        record_of(data, time).E_Puse_t1 == latest_text(data.data_list@, "E_Puse_t1"@),
        record_of(data, time).INV_T0 == latest_text(data.data_list@, "INV_T0"@),
        record_of(data, time).T_MDU1 == latest_text(data.data_list@, "T_MDU1"@),
        record_of(data, time).SYSTIM1 == latest_text(data.data_list@, "SYSTIM1"@),
        record_of(data, time).t_w_hou1 == latest_u32(data.data_list@, "t_w_hou1"@),
        record_of(data, time).CD_TIM1 == latest_u32(data.data_list@, "CD_TIM1"@),
        record_of(data, time).Bus_V1 == latest_text(data.data_list@, "Bus_V1"@),
        record_of(data, time).Dcp1 == latest_text(data.data_list@, "Dcp1"@),
        record_of(data, time).Dcp2 == latest_text(data.data_list@, "Dcp2"@),
        record_of(data, time).Dcp3 == latest_text(data.data_list@, "Dcp3"@),
        record_of(data, time).EAR_N_Ineg1 == latest_text(data.data_list@, "EAR_N_Ineg1"@),
        record_of(data, time).CT_P1 == latest_text(data.data_list@, "CT_P1"@),
        record_of(data, time).INV_ST1 == latest_text(data.data_list@, "INV_ST1"@),
        record_of(data, time).N_I1 == latest_text(data.data_list@, "N_I1"@),
        record_of(data, time).N_I2 == latest_text(data.data_list@, "N_I2"@),
{
}

/// The clock reading is read as `yy-mm-dd HH:MM:SS` (year, month, day, hour,
/// minute, second, in that order) and nothing else, and that local time is
/// placed in the zone: the UTC time is what the zone gives for it, and the
/// reading resolves exactly when the zone gives one.
pub proof fn law_system_time(text: Seq<char>, zone: Seq<char>)
    ensures
        naive_datetime(text, "%y-%m-%d %H:%M:%S"@) matches Some(local) ==> utc_of_system_time(
            text,
            zone,
        ) == zone_local_to_utc(zone, local) && (system_time_resolves(text, zone)
            <==> zone_local_to_utc(zone, local) is Some),
        naive_datetime(text, "%y-%m-%d %H:%M:%S"@) is None ==> utc_of_system_time(text, zone) is None
            && system_time_resolves(text, zone),
{
}

/// The device state of a collection with an `INV_ST1` entry is 3 exactly
/// when the first such entry's value contains `Standby`, and 1 otherwise.
pub proof fn law_device_state(list: Seq<DataList>)
    requires
        first_with_key(list, "INV_ST1"@) is Some,
    ensures
        state_of(list) == 1 || state_of(list) == 3,
        list[first_with_key(list, "INV_ST1"@)->0].value matches Some(v) ==> (state_of(list) == 3
            <==> occurs_in(v@, "Standby"@)),
        list[first_with_key(list, "INV_ST1"@)->0].value is None ==> state_of(list) == 1,
{
    reveal_strlit("Standby");
    assert(!occurs_in(Seq::<char>::empty(), "Standby"@));
}

/// The backfill range from day `s` to day `e` holds `e - s + 1` days when
/// `e` is not before `s` and none otherwise, and it can be written exactly
/// when chrono writes each of those days.
pub proof fn law_backfill_range(s: i32, e: i32)
    ensures
        s <= e ==> day_count(s, e) == e - s + 1,
        e < s ==> day_count(s, e) == 0,
        all_days_written(s, e) <==> forall|k: int|
            0 <= k < e - s + 1 ==> #[trigger] day_text((s + k) as i32, "%Y-%m-%d"@) is Some,
{
}

/// What becomes of a report: with no `SYSTIM1` entry, nothing is written;
/// when the first one has a value that reads as a local time the zone
/// places at UTC time `t`, the row of the report at `t` is written, whatever
/// else the report holds; a value that does not read gives no row; and a
/// missing value or a time the zone does not place cannot be handled.
pub proof fn law_plan(data: CurrentDataResponse, zone: Seq<char>)
    ensures
        first_with_key(data.data_list@, "SYSTIM1"@) is None ==> entry_plan(data, zone) == Some(
            EntryPlan::MissingSystemTime,
        ),
        first_with_key(data.data_list@, "SYSTIM1"@) matches Some(i) ==> match data.data_list@[i].value {
            None => entry_plan(data, zone) is None,
            Some(v) => match naive_datetime(v@, "%y-%m-%d %H:%M:%S"@) {
                None => entry_plan(data, zone) == Some(EntryPlan::UnreadableSystemTime),
                Some(local) => match zone_local_to_utc(zone, local) {
                    None => entry_plan(data, zone) is None,
                    Some(t) => entry_plan(data, zone) matches Some(EntryPlan::Record(r)) && r.time == t
                        && r == record_of(data, t),
                },
            },
        },
{
}

proof fn lemma_last_in_range(list: Seq<DataList>, key: Seq<char>)
    ensures
        last_with_key(list, key) matches Some(i) ==> 0 <= i < list.len(),
    decreases list.len(),
{
    if list.len() > 0 {
        lemma_last_in_range(list.drop_last(), key);
    }
}

} // verus!
