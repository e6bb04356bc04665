//! Tests of the string helpers.

use rannikkoasemat::strutil::{str_eq, trim_xml_ws};

#[test]
fn str_eq_decides_equality() {
    assert!(str_eq("", ""));
    assert!(str_eq("BsWfs:Time", "BsWfs:Time"));
    assert!(!str_eq("BsWfs:Time", "BsWfs:time"));
    assert!(!str_eq("abc", "abcd"));
    assert!(str_eq("tuuli \u{e4}", "tuuli \u{e4}"));
    assert!(!str_eq("tuuli \u{e4}", "tuuli a"));
}

#[test]
fn trim_removes_surrounding_xml_whitespace() {
    assert_eq!(trim_xml_ws("  WindSpeedMS\n"), "WindSpeedMS");
    assert_eq!(trim_xml_ws("\t\r\n "), "");
    assert_eq!(trim_xml_ws(""), "");
    assert_eq!(trim_xml_ws("no padding"), "no padding");
    assert_eq!(trim_xml_ws(" inner  space "), "inner  space");
}
