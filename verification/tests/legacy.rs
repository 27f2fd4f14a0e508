use citum_schema_data::accessors::{
    class_ref_type, collection_component_ref_type, monograph_ref_type,
};
use citum_schema_data::conversion::{legacy_converter, legacy_dates, LegacyConverter, LegacyDate};
use citum_schema_data::date::DateValue;
use citum_schema_data::types::{MonographComponentType, MonographType};

fn legacy_year(year: i32) -> LegacyDate {
    LegacyDate { literal: None, date_parts: Some(vec![vec![year]]), circa: None, raw: None }
}

#[test]
fn structured_circa_csl_dates_convert_to_approximate_edtf() {
    let structured = DateValue::from_legacy(&LegacyDate {
        literal: None,
        date_parts: Some(vec![vec![1988]]),
        circa: Some(true),
        raw: None,
    });
    assert_eq!(structured.value, "1988~");
}

#[test]
fn legacy_copyright_year_literal_routes_to_copyright_not_issued() {
    let issued = LegacyDate { literal: Some("c1988".to_string()), date_parts: None, circa: None, raw: None };
    assert_eq!(legacy_converter("book", false, false, false), LegacyConverter::Monograph);
    let dates = legacy_dates("book", Some(&issued), None);
    assert_eq!(dates.copyright, Some(DateValue::new("1988".to_string())));
    assert_eq!(dates.issued, DateValue::new(String::new()));
}

#[test]
fn legacy_printing_year_note_override_routes_to_printing_not_issued() {
    let dates = legacy_dates("book", Some(&legacy_year(1995)), Some("1995印刷"));
    assert_eq!(dates.printing, Some(DateValue::new("1995".to_string())));
    assert_eq!(dates.issued, DateValue::new(String::new()));
}

#[test]
fn legacy_estimated_year_note_override_folds_into_approximate_issued() {
    let dates = legacy_dates("book", Some(&legacy_year(1936)), Some("1936~"));
    assert_eq!(dates.issued, DateValue::new("1936~".to_string()));
    assert_eq!(dates.copyright, None);
    assert_eq!(dates.printing, None);
}

#[test]
fn legacy_annotated_year_note_override_folds_into_annotated_issued() {
    let dates = legacy_dates("book", Some(&legacy_year(1947)), Some("1947（民国三十六年）"));
    assert_eq!(
        dates.issued,
        DateValue { value: "1947".to_string(), note: Some("民国三十六年".to_string()) }
    );
    assert_eq!(dates.copyright, None);
    assert_eq!(dates.printing, None);
}

#[test]
fn legacy_half_width_parens_note_override_does_not_annotate_issued() {
    let dates = legacy_dates("book", Some(&legacy_year(1947)), Some("1947 (reprint)"));
    assert_eq!(dates.issued, DateValue::new("1947".to_string()));
}

#[test]
fn unpublished_legacy_records_promote_issued_to_created() {
    let issued = LegacyDate { literal: None, date_parts: Some(vec![vec![1973, 1, 1]]), circa: None, raw: None };
    let dates = legacy_dates("personal_communication", Some(&issued), None);
    assert_eq!(dates.created.value, "1973-01-01");
    assert_eq!(dates.issued.value, "1973-01-01");
}

#[test]
fn ref_type_document_with_conference_paper_genre_returns_paper_conference() {
    assert_eq!(
        monograph_ref_type(MonographType::Document, None, Some("conference-paper")),
        "paper-conference"
    );
}

#[test]
fn collection_component_entry_encyclopedia_genre_preserves_ref_type() {
    assert_eq!(
        collection_component_ref_type(MonographComponentType::Chapter, Some("entry-encyclopedia")),
        "entry-encyclopedia"
    );
}

#[test]
fn routing_covers_archival_and_legal_types() {
    assert_eq!(legacy_converter("map", false, false, false), LegacyConverter::Document);
    assert_eq!(legacy_converter("legislation", false, false, false), LegacyConverter::Statute);
    assert_eq!(legacy_converter("speech", false, false, false), LegacyConverter::Event);
    assert_eq!(legacy_converter("motion_picture", false, false, false), LegacyConverter::AudioVisual);
    assert_eq!(legacy_converter("broadcast", false, false, false), LegacyConverter::SerialComponent);
    assert_eq!(class_ref_type(&citum_schema_data::classes::ReferenceClass::Treaty), Some("treaty".to_string()));
}
