use citum_schema_data::accessors::{
    class_ref_type, collection_component_ref_type, collection_ref_type, event_ref_type,
    monograph_ref_type, serial_component_ref_type, serial_ref_type,
};
use citum_schema_data::classes::ReferenceClass;
use citum_schema_data::types::{CollectionType, MonographComponentType, MonographType, SerialType};

#[test]
fn event_types_follow_the_genre() {
    assert_eq!(event_ref_type(Some("Academic Conference")), "paper-conference");
    assert_eq!(event_ref_type(Some("Paper session")), "paper-conference");
    assert_eq!(event_ref_type(Some("Radio BROADCAST")), "broadcast");
    assert_eq!(event_ref_type(Some("Keynote talk")), "speech");
    assert_eq!(event_ref_type(Some("festival")), "event");
    assert_eq!(event_ref_type(None), "event");
}

#[test]
fn component_types_follow_subtype_and_genre() {
    assert_eq!(collection_component_ref_type(MonographComponentType::Chapter, Some("entry-dictionary")), "entry-dictionary");
    assert_eq!(collection_component_ref_type(MonographComponentType::Chapter, Some("entry-encyclopedia")), "entry-encyclopedia");
    assert_eq!(collection_component_ref_type(MonographComponentType::Chapter, None), "chapter");
    assert_eq!(collection_component_ref_type(MonographComponentType::Document, None), "paper-conference");
    assert_eq!(serial_component_ref_type(Some("entry-encyclopedia"), Some("article-magazine")), "entry-encyclopedia");
    assert_eq!(serial_component_ref_type(None, Some("article-newspaper")), "article-newspaper");
    assert_eq!(serial_component_ref_type(Some("Short FILM"), Some("broadcast")), "motion-picture");
    assert_eq!(serial_component_ref_type(Some("episode"), Some("broadcast")), "broadcast");
    assert_eq!(serial_component_ref_type(None, None), "article-journal");
}

#[test]
fn collection_and_serial_types() {
    assert_eq!(collection_ref_type(CollectionType::EditedBook), "book");
    assert_eq!(collection_ref_type(CollectionType::Proceedings), "collection");
    assert_eq!(serial_ref_type(SerialType::AcademicJournal), "article-journal");
    assert_eq!(serial_ref_type(SerialType::BroadcastProgram), "broadcast");
    assert_eq!(serial_ref_type(SerialType::Podcast), "serial");
}

#[test]
fn monograph_types() {
    assert_eq!(monograph_ref_type(MonographType::Book, None, None), "book");
    assert_eq!(monograph_ref_type(MonographType::Book, Some("Video Interview"), None), "interview");
    assert_eq!(monograph_ref_type(MonographType::PersonalCommunication, None, None), "personal-communication");
    assert_eq!(monograph_ref_type(MonographType::Document, None, Some("bill-record")), "bill-record");
    assert_eq!(monograph_ref_type(MonographType::Document, None, Some("Conference paper")), "paper-conference");
    assert_eq!(monograph_ref_type(MonographType::Document, Some("interview"), Some("memo")), "interview");
    assert_eq!(monograph_ref_type(MonographType::Document, None, None), "document");
}

#[test]
fn class_decided_types() {
    assert_eq!(class_ref_type(&ReferenceClass::LegalCase), Some("legal-case".to_string()));
    assert_eq!(class_ref_type(&ReferenceClass::Unknown("zine".to_string())), Some("zine".to_string()));
    assert_eq!(class_ref_type(&ReferenceClass::Monograph), None);
}
