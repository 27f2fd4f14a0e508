use citum_schema_data::conversion::{
    audio_visual_ref_type, audio_visual_type, build_title, csl_type_map, legacy_converter,
    legacy_type_uses_created, normalize_broadcast_issue, normalized_identity_part,
    LegacyConverter,
};
use citum_schema_data::identifier::{IdentifierName, SupplementaryIdentifiers};
use citum_schema_data::types::{
    AudioVisualType, MultilingualString, NumOrStr, StructuredTitle, Subtitle, Title,
};

#[test]
fn num_or_str_displays_numbers_in_decimal() {
    assert_eq!(NumOrStr::Number(42).to_display_string(), "42");
    assert_eq!(NumOrStr::Number(-7).to_display_string(), "-7");
    assert_eq!(NumOrStr::Number(i64::MIN).to_display_string(), "-9223372036854775808");
    assert_eq!(NumOrStr::Str("xii".to_string()).to_display_string(), "xii");
}

#[test]
fn multilingual_string_defaults_and_displays() {
    assert_eq!(MultilingualString::default(), MultilingualString::Simple(String::new()));
    assert_eq!(MultilingualString::from("a").to_display_string(), "a");
}

#[test]
fn titles_display_by_kind() {
    let structured = Title::Structured(StructuredTitle {
        full: None,
        main: "Main".to_string(),
        sub: Subtitle::Vector(vec!["One".to_string(), "Two".to_string()]),
    });
    assert_eq!(structured.to_display_string(), "Main: One, Two");
    assert_eq!(Title::Shorthand("S".to_string(), "Full".to_string()).to_display_string(), "S (Full)");
    assert_eq!(Title::Multi(vec![]).to_display_string(), "[multilingual title]");
    assert_eq!(Title::Single("T".to_string()).to_display_string(), "T");
}

#[test]
fn build_title_structures_on_matching_short_title() {
    let t = build_title(Some("Dune: The Novel".to_string()), Some("dune".to_string())).unwrap();
    assert_eq!(
        t,
        Title::Structured(StructuredTitle {
            full: None,
            main: "dune".to_string(),
            sub: Subtitle::String("The Novel".to_string()),
        })
    );
    let t = build_title(Some("Great Dune Book: Part".to_string()), Some("Dune".to_string())).unwrap();
    assert!(matches!(t, Title::Structured(_)));
    let t = build_title(Some("Other: Part".to_string()), Some("Dune".to_string())).unwrap();
    assert_eq!(t, Title::Single("Other: Part".to_string()));
    let t = build_title(Some("No colon".to_string()), Some("No".to_string())).unwrap();
    assert_eq!(t, Title::Single("No colon".to_string()));
    assert_eq!(build_title(Some("X".to_string()), None), Some(Title::Single("X".to_string())));
    assert_eq!(build_title(None, Some("X".to_string())), None);
}

#[test]
fn legacy_type_routes() {
    assert!(legacy_type_uses_created("manuscript"));
    assert!(!legacy_type_uses_created("book"));
    assert_eq!(legacy_converter("book", false, false, false), LegacyConverter::Monograph);
    assert_eq!(legacy_converter("report", true, true, false), LegacyConverter::CollectionComponent);
    assert_eq!(legacy_converter("report", true, false, false), LegacyConverter::Monograph);
    assert_eq!(legacy_converter("article", false, false, false), LegacyConverter::Preprint);
    assert_eq!(legacy_converter("article", false, false, true), LegacyConverter::SerialComponent);
    assert_eq!(legacy_converter("collection", false, false, false), LegacyConverter::Document);
    assert_eq!(legacy_converter("legal_case", false, false, false), LegacyConverter::LegalCase);
    assert_eq!(legacy_converter("no-such-type", false, false, false), LegacyConverter::Document);
}

#[test]
fn audio_visual_types_round_trip() {
    assert_eq!(audio_visual_type("motion_picture"), AudioVisualType::Film);
    assert_eq!(audio_visual_ref_type(&audio_visual_type("motion_picture")), "motion-picture");
    assert_eq!(audio_visual_ref_type(&audio_visual_type("song")), "song");
    assert_eq!(audio_visual_ref_type(&audio_visual_type("broadcast")), "broadcast");
    assert_eq!(audio_visual_ref_type(&AudioVisualType::Episode), "broadcast");
}

#[test]
fn podcast_issue_numbers_get_a_prefix() {
    assert_eq!(normalize_broadcast_issue("broadcast", Some("Audio PODCAST"), "12"), "No. 12");
    assert_eq!(normalize_broadcast_issue("broadcast", Some("radio"), "12"), "12");
    assert_eq!(normalize_broadcast_issue("broadcast", Some("podcast"), "12a"), "12a");
    assert_eq!(normalize_broadcast_issue("song", Some("podcast"), "12"), "12");
    assert_eq!(normalize_broadcast_issue("motion_picture", None, "12"), "12");
}

#[test]
fn identity_parts_are_trimmed_and_composed() {
    assert_eq!(normalized_identity_part(Some("  e\u{301}mile ")), Some("\u{e9}mile".to_string()));
    assert_eq!(normalized_identity_part(Some("   ")), None);
    assert_eq!(normalized_identity_part(None), None);
}

#[test]
fn csl_type_map_unnoted_rows_are_identity() {
    let map = csl_type_map();
    assert_eq!(map.len(), 45);
    for row in &map {
        if row.note.is_none() {
            assert_eq!(row.csl_type, row.citum_ref_type);
        }
    }
    assert_eq!(map[0].csl_type, "article");
    assert_eq!(map[0].citum_ref_type, "preprint");
}

#[test]
fn identifier_names_validate() {
    assert!(IdentifierName::new("cstr").is_ok());
    assert!(IdentifierName::new("doi").is_err());
    assert!(IdentifierName::new("Bad Name").is_err());
    let mut ids = SupplementaryIdentifiers::new();
    assert!(ids.is_empty());
    assert_eq!(ids.insert(IdentifierName::new("cstr").unwrap(), "1".to_string()), None);
    assert_eq!(ids.insert(IdentifierName::new("cstr").unwrap(), "2".to_string()), Some("1".to_string()));
    assert_eq!(ids.get("cstr"), Some("2"));
    assert_eq!(ids.get("ark"), None);
    assert!(!ids.is_empty());
}

#[test]
fn identifier_names_parse_and_maps_default_empty() {
    let name: IdentifierName = "ark".parse().unwrap();
    assert_eq!(name.as_str(), "ark");
    assert!("isbn".parse::<IdentifierName>().is_err());
    assert!(SupplementaryIdentifiers::default().is_empty());
    assert_eq!(
        IdentifierName::new("isbn").unwrap_err(),
        "identifier name `isbn` is reserved for a first-class reference field"
    );
    assert_eq!(
        IdentifierName::new("1abc").unwrap_err(),
        "identifier name must be lowercase kebab-case and begin with a letter"
    );
}
