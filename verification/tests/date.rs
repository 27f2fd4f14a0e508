use citum_schema_data::conversion::{
    annotated_issued_from_legacy, apply_csl_circa_marker, copyright_year_from_legacy,
    estimated_issued_from_legacy, legacy_dates, printing_year_from_legacy, render_date_part,
    LegacyDate,
};
use citum_schema_data::date::{DateValue, EdtfReading};

fn reading(year: i64) -> Option<EdtfReading> {
    Some(EdtfReading { year, day: None, range: false, open_range: false, time: false })
}

#[test]
fn note_is_ignored_by_value_oriented_accessors() {
    let annotated = DateValue {
        value: "1947".to_string(),
        note: Some("民国三十六年".to_string()),
    };
    let plain = DateValue::new("1947");
    let parsed = reading(1947);
    assert_eq!(annotated.value, plain.value);
    assert_eq!(annotated.year(&parsed), plain.year(&parsed));
    assert_eq!(annotated.is_empty(), plain.is_empty());
}

#[test]
fn year_of_a_literal_is_empty_and_negative_years_keep_their_sign() {
    let d = DateValue::new("around then");
    assert_eq!(d.year(&None), "");
    assert_eq!(d.year(&reading(-44)), "-44");
    assert_eq!(d.year(&reading(2024)), "2024");
}

#[test]
fn day_zero_counts_as_no_day() {
    let d = DateValue::new("2024-05");
    let p = Some(EdtfReading { year: 2024, day: Some(0), range: false, open_range: false, time: false });
    assert_eq!(d.day(&p), None);
    let p = Some(EdtfReading { year: 2024, day: Some(9), range: true, open_range: true, time: true });
    assert_eq!(d.day(&p), Some(9));
    assert!(d.is_range(&p) && d.is_open_range(&p) && d.has_time(&p));
    assert!(!d.is_range(&None));
}

#[test]
fn qualifiers_are_read_from_the_value() {
    assert!(DateValue::new("2024?").is_uncertain());
    assert!(DateValue::new("2024~").is_approximate());
    assert!(!DateValue::new("2024").is_uncertain());
    assert!(DateValue::new("").is_empty());
    assert!(DateValue::default().is_empty());
    assert_eq!(DateValue::from("1999").value, "1999");
}

#[test]
fn date_parts_render_zero_padded() {
    assert_eq!(render_date_part(&[2024, 3, 7]), "2024-03-07");
    assert_eq!(render_date_part(&[33]), "0033");
    assert_eq!(render_date_part(&[-44, 3]), "-0044-03");
    assert_eq!(render_date_part(&[2024, -1]), "2024--1");
    assert_eq!(render_date_part(&[12345, 10, 31]), "12345-10-31");
    assert_eq!(render_date_part(&[]), "");
}

#[test]
fn circa_marker_is_added_once() {
    assert_eq!(apply_csl_circa_marker("1990".to_string(), Some(true)), "1990~");
    assert_eq!(apply_csl_circa_marker("1990~".to_string(), Some(true)), "1990~");
    assert_eq!(apply_csl_circa_marker("1990%".to_string(), Some(true)), "1990%");
    assert_eq!(apply_csl_circa_marker("1990".to_string(), Some(false)), "1990");
    assert_eq!(apply_csl_circa_marker("1990".to_string(), None), "1990");
}

#[test]
fn legacy_dates_prefer_literal_then_parts_then_raw() {
    let lit = LegacyDate { literal: Some("Spring 1990".to_string()), date_parts: None, circa: None, raw: Some("x".to_string()) };
    assert_eq!(DateValue::from_legacy(&lit).value, "Spring 1990");
    let range = LegacyDate { literal: None, date_parts: Some(vec![vec![1990, 1], vec![1991]]), circa: Some(true), raw: None };
    assert_eq!(DateValue::from_legacy(&range).value, "1990-01/1991~");
    let raw = LegacyDate { literal: None, date_parts: Some(vec![]), circa: None, raw: Some("c. 1900".to_string()) };
    assert_eq!(DateValue::from_legacy(&raw).value, "c. 1900");
    let none = LegacyDate { literal: None, date_parts: None, circa: None, raw: None };
    assert_eq!(DateValue::from_legacy(&none).value, "");
}

#[test]
fn year_substitutes_from_literals() {
    assert_eq!(copyright_year_from_legacy(Some("c1988")).unwrap().value, "1988");
    assert_eq!(copyright_year_from_legacy(Some("c 1988 ")).unwrap().value, "1988");
    assert!(copyright_year_from_legacy(Some("1988")).is_none());
    assert!(copyright_year_from_legacy(Some("c88")).is_none());
    assert!(copyright_year_from_legacy(None).is_none());
    assert_eq!(printing_year_from_legacy(Some("1987印刷")).unwrap().value, "1987");
    assert!(printing_year_from_legacy(Some("印刷")).is_none());
    assert_eq!(estimated_issued_from_legacy(Some("1950~")).unwrap().value, "1950~");
    assert!(estimated_issued_from_legacy(Some("195~")).is_none());
    let annotated = annotated_issued_from_legacy(Some("1947（民国三十六年）")).unwrap();
    assert_eq!(annotated.value, "1947");
    assert_eq!(annotated.note.as_deref(), Some("民国三十六年"));
    assert!(annotated_issued_from_legacy(Some("1947(民国三十六年)")).is_none());
    assert!(annotated_issued_from_legacy(Some("1947（ ）")).is_none());
}

#[test]
fn legacy_dates_route_substitutes() {
    let issued = LegacyDate { literal: Some("c1988".to_string()), date_parts: None, circa: None, raw: None };
    let d = legacy_dates("book", Some(&issued), None);
    assert_eq!(d.issued.value, "");
    assert_eq!(d.copyright.unwrap().value, "1988");
    assert_eq!(d.created.value, "");

    let issued = LegacyDate { literal: None, date_parts: Some(vec![vec![2001, 5]]), circa: None, raw: None };
    let d = legacy_dates("manuscript", Some(&issued), Some("1947（民国三十六年）"));
    assert_eq!(d.created.value, "2001-05");
    assert_eq!(d.issued.value, "1947");
    assert_eq!(d.issued.note.as_deref(), Some("民国三十六年"));

    let d = legacy_dates("book", Some(&issued), Some("1950~"));
    assert_eq!(d.issued.value, "1950~");
    let d = legacy_dates("book", Some(&issued), Some("1987印刷"));
    assert_eq!(d.issued.value, "");
    assert_eq!(d.printing.unwrap().value, "1987");
}
