use std::fmt;

use citum_schema_data::accessors::class_ref_type;
use citum_schema_data::classes::ReferenceClass;
use citum_schema_data::reference::{
    dispatch_flat_entries, normalize_genre_medium, FlatDispatch, FlatEntry, ReferenceError,
};
use serde::de::{Deserializer, MapAccess, Visitor};

/// Reads the top-level object of `json` entry by entry, keeping repeated keys.
struct EntriesVisitor;

impl<'de> Visitor<'de> for EntriesVisitor {
    type Value = Vec<FlatEntry>;

    fn expecting(&self, formatter: &mut fmt::Formatter<'_>) -> fmt::Result {
        formatter.write_str("a flat reference object")
    }

    fn visit_map<M: MapAccess<'de>>(self, mut map: M) -> Result<Self::Value, M::Error> {
        let mut entries = Vec::new();
        while let Some(key) = map.next_key::<String>()? {
            let value: serde_json::Value = map.next_value()?;
            let text = value.as_str().map(str::to_string);
            let found = found_of(&value);
            entries.push(FlatEntry { key, text, found });
        }
        Ok(entries)
    }
}

fn parse_reference(json: &str) -> Result<FlatDispatch, String> {
    let mut de = serde_json::Deserializer::from_str(json);
    let entries = (&mut de).deserialize_map(EntriesVisitor).map_err(|e| e.to_string())?;
    dispatch_flat_entries(&entries).map_err(|e| e.message())
}

fn entry(key: &str, text: Option<&str>) -> FlatEntry {
    let found = match text {
        Some(t) => format!("string {t:?}"),
        None => "integer `5`".to_string(),
    };
    FlatEntry { key: key.to_string(), text: text.map(str::to_string), found }
}

/// How serde_json names a value that is not the type it expected.
fn found_of(value: &serde_json::Value) -> String {
    match value {
        serde_json::Value::Null => "null".to_string(),
        serde_json::Value::Bool(b) => format!("boolean `{b}`"),
        serde_json::Value::Number(n) => match n.as_f64() {
            Some(f) if n.is_f64() => {
                if f.fract() == 0.0 && f.is_finite() {
                    format!("floating point `{f:.1}`")
                } else {
                    format!("floating point `{f}`")
                }
            }
            _ => format!("integer `{n}`"),
        },
        serde_json::Value::String(s) => format!("string {s:?}"),
        serde_json::Value::Array(_) => "sequence".to_string(),
        serde_json::Value::Object(_) => "map".to_string(),
    }
}


#[test]
fn duplicate_class_field_is_rejected_with_canonical_serde_shape() {
    let err = parse_reference(
        r#"{
                "class": "monograph",
                "class": "legal-case",
                "title": "X",
                "issued": "2024"
            }"#,
    )
    .unwrap_err();

    assert!(
        err.contains("duplicate field `class`"),
        "must produce serde-canonical duplicate-field message, got: {err}"
    );
}

#[test]
fn duplicate_non_class_field_is_rejected_with_canonical_serde_shape() {
    let err = parse_reference(
        r#"{
                "class": "monograph",
                "title": "First",
                "title": "Second",
                "issued": "2024"
            }"#,
    )
    .unwrap_err();

    assert!(
        err.contains("duplicate field `title`"),
        "non-class duplicate must mirror the serde-canonical shape, got: {err}"
    );
}

#[test]
fn missing_class_field_is_rejected() {
    let err = parse_reference(r#"{ "title": "Untyped", "issued": "2024" }"#).unwrap_err();
    assert!(
        err.contains("missing field `class`"),
        "absence of the discriminator must produce a canonical missing-field error, got: {err}"
    );
}

#[test]
fn test_normalize_genre_medium() {
    assert_eq!(normalize_genre_medium("Technical report"), "technical-report");
    assert_eq!(normalize_genre_medium("PhD thesis"), "phd-thesis");
    assert_eq!(normalize_genre_medium("Short film"), "short-film");
    assert_eq!(normalize_genre_medium("video-interview"), "video-interview");
    assert_eq!(normalize_genre_medium("film"), "film");
    assert_eq!(normalize_genre_medium("Annual report"), "annual-report");
}

#[test]
fn genre_normalisation_collapses_separators_and_is_idempotent() {
    let once = normalize_genre_medium("  Radio__Broadcast \t Series ");
    assert_eq!(once, "radio-broadcast-series");
    assert_eq!(normalize_genre_medium(&once), once);
    assert_eq!(normalize_genre_medium(" _ "), "");
    assert_eq!(normalize_genre_medium("ÉCOLE Film"), "École-film");
}

#[test]
fn known_class_dispatches_with_body_positions() {
    let d = parse_reference(r#"{ "title": "B", "class": "monograph", "issued": "2024" }"#).unwrap();
    assert_eq!(d.class, "monograph");
    assert_eq!(d.known, Some(ReferenceClass::Monograph));
    assert_eq!(d.body, vec![0, 2]);
}

#[test]
fn unknown_class_keeps_its_string() {
    let d = parse_reference(r#"{ "class": "future-thing", "x": 1 }"#).unwrap();
    assert_eq!(d.class, "future-thing");
    assert_eq!(d.known, None);
    assert_eq!(d.body, vec![1]);
}

#[test]
fn class_that_is_not_a_string_is_rejected() {
    let entries = vec![entry("title", Some("T")), entry("class", None)];
    let err = dispatch_flat_entries(&entries).unwrap_err();
    assert_eq!(err, ReferenceError::ClassNotText("integer `5`".to_string()));
    assert_eq!(err.message(), "invalid type: integer `5`, expected a string");
}

#[test]
fn class_type_error_names_the_value_as_serde_does() {
    let err = parse_reference(r#"{ "class": null, "title": "T" }"#).unwrap_err();
    assert_eq!(err, "invalid type: null, expected a string");
    let err = parse_reference(r#"{ "class": ["monograph"] }"#).unwrap_err();
    assert_eq!(err, "invalid type: sequence, expected a string");
}

#[test]
fn first_problem_in_wire_order_wins() {
    let entries = vec![
        entry("title", Some("A")),
        entry("title", Some("B")),
        entry("class", None),
    ];
    assert_eq!(
        dispatch_flat_entries(&entries).unwrap_err(),
        ReferenceError::DuplicateField("title".to_string())
    );
}

#[test]
fn class_names_round_trip() {
    for name in ReferenceClass::known_names() {
        let class = ReferenceClass::from_known_name(name).unwrap();
        assert_eq!(class.name(), name);
    }
    assert_eq!(ReferenceClass::from_known_name("Monograph"), None);
    assert_eq!(ReferenceClass::known_names().len(), 18);
}

/// The class of a dispatched reference: the known class, or the raw string.
fn class_of(d: &FlatDispatch) -> ReferenceClass {
    d.known.clone().unwrap_or_else(|| ReferenceClass::Unknown(d.class.clone()))
}

#[test]
fn public_discriminator_parses_representative_known_classes() {
    let cases: &[(&str, ReferenceClass)] = &[
        (
            r#"{ "class": "monograph", "type": "book", "title": "B", "issued": "2024" }"#,
            ReferenceClass::Monograph,
        ),
        (
            r#"{
                    "class": "legal-case",
                    "title": "Smith v. Jones",
                    "authority": "Supreme Court",
                    "issued": "2024"
                }"#,
            ReferenceClass::LegalCase,
        ),
        (
            r#"{ "class": "audio-visual", "type": "film", "title": "F", "issued": "2024" }"#,
            ReferenceClass::AudioVisual,
        ),
    ];

    for (json, expected_class) in cases {
        let reference = parse_reference(json).unwrap_or_else(|err| {
            panic!("expected `{expected_class:?}` to parse, got error: {err}\nJSON: {json}")
        });
        assert_eq!(&class_of(&reference), expected_class);
    }
}

#[test]
fn public_discriminator_captures_unknown_class_fields() {
    let json = r#"{
                "class": "dance-performance",
                "id": "pina2011",
                "title": "Pina",
                "venue": "Berlin",
                "duration-minutes": 103
            }"#;
    let reference = parse_reference(json).unwrap();
    assert_eq!(class_of(&reference), ReferenceClass::Unknown("dance-performance".into()));
    assert_eq!(reference.body, vec![1, 2, 3, 4]);
    let v: serde_json::Value = serde_json::from_str(json).unwrap();
    assert_eq!(v["venue"].as_str(), Some("Berlin"));
    assert_eq!(v["duration-minutes"].as_u64(), Some(103));
    let ref_type = class_ref_type(&class_of(&reference)).unwrap();
    assert_eq!(ref_type, "dance-performance");
    assert!(!ReferenceClass::known_names().contains(&ref_type.as_str()));
}

#[test]
fn unknown_class_ref_type_does_not_collide_with_known_classes() {
    for unknown in ["dance-performance", "happening", "frobnicate", "x-future-class"] {
        let json = format!(r#"{{ "class": "{unknown}", "id": "a", "title": "T", "issued": "2024" }}"#);
        let reference = parse_reference(&json).unwrap();
        assert!(
            matches!(class_of(&reference), ReferenceClass::Unknown(ref s) if s == unknown),
            "{unknown} must classify as Unknown",
        );
        let ref_type = class_ref_type(&class_of(&reference)).unwrap();
        assert!(!ReferenceClass::known_names().contains(&ref_type.as_str()));
    }
}
