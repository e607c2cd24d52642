use solarman::models::DataList;

fn entry(key: &str, value: Option<&str>) -> DataList {
    DataList {
        key: key.to_string(),
        value: value.map(|v| v.to_string()),
        unit: None,
        name: None,
    }
}

#[test]
fn to_string_gives_the_value() {
    assert_eq!(entry("SN1", Some("2105123456")).to_string(), Some("2105123456".to_string()));
    assert_eq!(entry("SN1", Some("")).to_string(), Some(String::new()));
    assert_eq!(entry("SN1", None).to_string(), None);
}

#[test]
fn to_u32_reads_decimal_numbers() {
    assert_eq!(entry("t_w_hou1", Some("42")).to_u32(), Some(42));
    assert_eq!(entry("t_w_hou1", Some("+7")).to_u32(), Some(7));
    assert_eq!(entry("t_w_hou1", Some("007")).to_u32(), Some(7));
    assert_eq!(entry("t_w_hou1", Some("4294967295")).to_u32(), Some(u32::MAX));
    assert_eq!(entry("t_w_hou1", Some("0")).to_u32(), Some(0));
}

#[test]
fn to_u32_refuses_other_text() {
    for text in ["", "+", "-1", "-0", " 5", "5 ", "1.5", "1_000", "4294967296", "abc", "0x10"] {
        assert_eq!(entry("t_w_hou1", Some(text)).to_u32(), None, "text {:?}", text);
    }
    assert_eq!(entry("t_w_hou1", None).to_u32(), None);
}

#[test]
fn to_u16_bounds() {
    assert_eq!(entry("SS_CY1", Some("65535")).to_u16(), Some(65535));
    assert_eq!(entry("SS_CY1", Some("65536")).to_u16(), None);
    assert_eq!(entry("SS_CY1", Some("+12")).to_u16(), Some(12));
    assert_eq!(entry("SS_CY1", None).to_u16(), None);
}

#[test]
fn to_u8_bounds() {
    assert_eq!(entry("MODEi1", Some("255")).to_u8(), Some(255));
    assert_eq!(entry("MODEi1", Some("256")).to_u8(), None);
    assert_eq!(entry("MODEi1", Some("3")).to_u8(), Some(3));
    assert_eq!(entry("MODEi1", Some("x")).to_u8(), None);
    assert_eq!(entry("MODEi1", None).to_u8(), None);
}

#[test]
fn narrow_readings_agree_with_wide_ones() {
    for text in ["0", "17", "255", "256", "65535", "65536", "+9", "x", "-3"] {
        let d = entry("k", Some(text));
        let wide = d.to_u32();
        match d.to_u8() {
            Some(v) => {
                assert_eq!(d.to_u16(), Some(v as u16));
                assert_eq!(wide, Some(v as u32));
            }
            None => assert!(wide.map_or(true, |w| w > 255)),
        }
        match d.to_u16() {
            Some(v) => assert_eq!(wide, Some(v as u32)),
            None => assert!(wide.map_or(true, |w| w > 65535)),
        }
    }
}

#[test]
fn system_time_in_summer_helsinki() {
    let d = entry("SYSTIM1", Some("24-05-17 13:45:02"));
    assert_eq!(d.to_utc_datetime("Europe/Helsinki"), Some((1715942702, 0)));
}

#[test]
fn system_time_in_winter_helsinki() {
    let d = entry("SYSTIM1", Some("24-01-17 13:45:02"));
    assert_eq!(d.to_utc_datetime("Europe/Helsinki"), Some((1705491902, 0)));
}

#[test]
fn system_time_in_utc() {
    let d = entry("SYSTIM1", Some("24-05-17 10:45:02"));
    assert_eq!(d.to_utc_datetime("UTC"), Some((1715942702, 0)));
}

#[test]
fn system_time_that_does_not_parse() {
    assert_eq!(entry("SYSTIM1", Some("garbage")).to_utc_datetime("UTC"), None);
    assert_eq!(entry("SYSTIM1", Some("2024-05-17 10:45:02")).to_utc_datetime("UTC"), None);
    assert_eq!(entry("SYSTIM1", Some("24-13-17 10:45:02")).to_utc_datetime("UTC"), None);
}

#[test]
fn system_time_with_a_leap_second() {
    let d = entry("SYSTIM1", Some("24-05-17 13:45:60"));
    let t = d.to_utc_datetime("Europe/Helsinki");
    assert_eq!(t, Some((1715942759, 1_000_000_000)));
    let (secs, nanos) = t.unwrap();
    let utc = chrono::DateTime::from_timestamp(secs, nanos).unwrap();
    assert_eq!(utc.timestamp_nanos_opt(), Some(1_715_942_760_000_000_000));
}
