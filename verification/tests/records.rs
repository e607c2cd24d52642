use solarman::models::{CurrentDataResponse, DataList, HistoricalDataResponse, ParamDataList};
use solarman::record::{
    device_state, find_first, find_last, plan_entry, read_text, CurrentData, EntryPlan,
};

fn entry(key: &str, value: Option<&str>) -> DataList {
    DataList {
        key: key.to_string(),
        value: value.map(|v| v.to_string()),
        unit: Some("V".to_string()),
        name: Some(key.to_lowercase()),
    }
}

fn report(list: Vec<DataList>) -> CurrentDataResponse {
    CurrentDataResponse {
        code: None,
        msg: None,
        success: true,
        request_id: "req-1".to_string(),
        device_sn: "SN-42".to_string(),
        device_id: 4242,
        device_type: "INVERTER".to_string(),
        device_state: 1,
        data_list: list,
    }
}

#[test]
fn find_first_and_last_positions() {
    let list = vec![entry("A", Some("1")), entry("B", Some("2")), entry("A", Some("3"))];
    assert_eq!(find_first(&list, "A"), Some(0));
    assert_eq!(find_last(&list, "A"), Some(2));
    assert_eq!(find_first(&list, "B"), Some(1));
    assert_eq!(find_last(&list, "C"), None);
    assert_eq!(find_first(&list, "C"), None);
    assert_eq!(read_text(&list, "A"), Some("3".to_string()));
}

#[test]
fn record_takes_the_last_entry_of_each_key() {
    let data = report(vec![
        entry("SN1", Some("first")),
        entry("DV1", Some("231.5")),
        entry("SS_CY1", Some("44")),
        entry("MODEi1", Some("2")),
        entry("t_w_hou1", Some("1200")),
        entry("CD_TIM1", Some("oops")),
        entry("SN1", Some("second")),
        entry("Unknown_Key", Some("9")),
        entry("INV_ST1", None),
    ]);
    let r = CurrentData::from_report(&data, (1715942702, 0));
    assert_eq!(r.time, (1715942702, 0));
    assert_eq!(r.device_sn, "SN-42");
    assert_eq!(r.device_id, 4242);
    assert_eq!(r.SN1, Some("second".to_string()));
    assert_eq!(r.DV1, Some("231.5".to_string()));
    assert_eq!(r.SS_CY1, Some(44));
    assert_eq!(r.MODEi1, Some(2));
    assert_eq!(r.t_w_hou1, Some(1200));
    assert_eq!(r.CD_TIM1, None);
    assert_eq!(r.INV_ST1, None);
    assert_eq!(r.HWv1, None);
    assert_eq!(r.N_I2, None);
}

#[test]
fn a_later_unreadable_entry_clears_the_field() {
    let data = report(vec![entry("SS_CY1", Some("44")), entry("SS_CY1", Some("x"))]);
    let r = CurrentData::from_report(&data, (0, 0));
    assert_eq!(r.SS_CY1, None);
}

#[test]
fn unknown_keys_change_nothing() {
    let base = vec![entry("SN1", Some("a")), entry("AV1", Some("230"))];
    let mut extended = base.clone();
    extended.push(entry("Not_A_Field", Some("5")));
    assert_eq!(
        CurrentData::from_report(&report(base), (7, 0)),
        CurrentData::from_report(&report(extended), (7, 0))
    );
}

#[test]
fn plan_without_system_time() {
    let data = report(vec![entry("SN1", Some("a"))]);
    assert_eq!(plan_entry(&data, "Europe/Helsinki"), Some(EntryPlan::MissingSystemTime));
}

#[test]
fn plan_with_unreadable_system_time() {
    let data = report(vec![entry("SYSTIM1", Some("yesterday"))]);
    assert_eq!(plan_entry(&data, "Europe/Helsinki"), Some(EntryPlan::UnreadableSystemTime));
}

#[test]
fn plan_with_system_time_writes_a_row() {
    let data = report(vec![
        entry("SYSTIM1", Some("24-05-17 13:45:02")),
        entry("AC1", Some("5.1")),
        entry("SYSTIM1", Some("24-05-17 13:46:02")),
    ]);
    match plan_entry(&data, "Europe/Helsinki") {
        Some(EntryPlan::Record(r)) => {
            assert_eq!(r.time, (1715942702, 0));
            assert_eq!(r.AC1, Some("5.1".to_string()));
            assert_eq!(r.SYSTIM1, Some("24-05-17 13:46:02".to_string()));
        }
        other => panic!("unexpected plan {:?}", other),
    }
}

#[test]
fn plan_refuses_what_cannot_be_handled() {
    let no_value = report(vec![entry("SYSTIM1", None)]);
    assert_eq!(plan_entry(&no_value, "UTC"), None);
    let skipped_hour = report(vec![entry("SYSTIM1", Some("24-03-31 03:30:00"))]);
    assert_eq!(plan_entry(&skipped_hour, "Europe/Helsinki"), None);
    let repeated_hour = report(vec![entry("SYSTIM1", Some("24-10-27 03:30:00"))]);
    assert_eq!(plan_entry(&repeated_hour, "Europe/Helsinki"), None);
    let unknown_zone = report(vec![entry("SYSTIM1", Some("24-05-17 13:45:02"))]);
    assert_eq!(plan_entry(&unknown_zone, "Mars/Olympus"), None);
}

#[test]
fn device_state_follows_the_status_text() {
    assert_eq!(device_state(&vec![entry("INV_ST1", Some("Standby"))]), 3);
    assert_eq!(device_state(&vec![entry("INV_ST1", Some("In Standby now"))]), 3);
    assert_eq!(device_state(&vec![entry("INV_ST1", Some("Normal"))]), 1);
    assert_eq!(device_state(&vec![entry("INV_ST1", None)]), 1);
    assert_eq!(
        device_state(&vec![entry("INV_ST1", Some("Normal")), entry("INV_ST1", Some("Standby"))]),
        1
    );
}

#[test]
fn historical_collection_becomes_a_report() {
    let history = HistoricalDataResponse {
        code: Some("0".to_string()),
        msg: Some("ok".to_string()),
        success: true,
        request_id: "req-9".to_string(),
        device_sn: "SN-7".to_string(),
        device_id: 77,
        device_type: "INVERTER".to_string(),
        time_type: 1,
        param_data_list: vec![
            ParamDataList {
                collect_time: "1".to_string(),
                data_list: vec![entry("INV_ST1", Some("Normal"))],
            },
            ParamDataList {
                collect_time: "2".to_string(),
                data_list: vec![entry("AV1", Some("1")), entry("INV_ST1", Some("Standby"))],
            },
        ],
    };
    let r = history.report_at(1);
    assert_eq!(r.code, None);
    assert_eq!(r.msg, None);
    assert!(r.success);
    assert_eq!(r.request_id, "req-9");
    assert_eq!(r.device_sn, "SN-7");
    assert_eq!(r.device_id, 77);
    assert_eq!(r.device_type, "INVERTER");
    assert_eq!(r.device_state, 3);
    assert_eq!(r.data_list, history.param_data_list[1].data_list);
    assert_eq!(history.report_at(0).device_state, 1);
}

#[test]
fn rows_ignore_report_metadata() {
    let readings = vec![entry("SYSTIM1", Some("24-05-17 13:45:02")), entry("DP1", Some("812"))];
    let a = report(readings.clone());
    let mut b = report(readings);
    b.code = Some("1".to_string());
    b.msg = Some("warning".to_string());
    b.request_id = "other".to_string();
    b.device_type = "METER".to_string();
    b.device_state = 3;
    assert_eq!(CurrentData::from_report(&a, (5, 0)), CurrentData::from_report(&b, (5, 0)));
    assert_eq!(plan_entry(&a, "UTC"), plan_entry(&b, "UTC"));
}

#[test]
fn plan_keeps_a_leap_second() {
    let data = report(vec![entry("SYSTIM1", Some("24-05-17 13:45:60"))]);
    match plan_entry(&data, "Europe/Helsinki") {
        Some(EntryPlan::Record(r)) => assert_eq!(r.time, (1715942759, 1_000_000_000)),
        other => panic!("unexpected plan {:?}", other),
    }
}

#[test]
fn unknown_keys_anywhere_change_nothing() {
    let base = vec![entry("SYSTIM1", Some("24-05-17 13:45:02")), entry("SN1", Some("a")), entry("AV1", Some("230"))];
    let mixed = vec![
        entry("Extra_1", Some("x")),
        entry("SYSTIM1", Some("24-05-17 13:45:02")),
        entry("sn1", Some("lower case is another key")),
        entry("SN1", Some("a")),
        entry("Extra_2", None),
        entry("AV1", Some("230")),
        entry("Extra_3", Some("24-01-01 00:00:00")),
    ];
    assert_eq!(plan_entry(&report(base), "Europe/Helsinki"), plan_entry(&report(mixed), "Europe/Helsinki"));
}
