use citum_schema_data::citation::{
    normalize_kind_key, normalize_locator_text, try_normalize_locator_text, Citation, CitationItem, CitationLocator,
    CitationMode, LocatorSegment, LocatorType, LocatorValue,
};

#[test]
fn test_citation_simple_constructor_defaults() {
    let citation = Citation::simple("kuhn1962");

    assert_eq!(citation.items.len(), 1);
    assert_eq!(citation.items[0].id, "kuhn1962");
    assert_eq!(citation.mode, CitationMode::NonIntegral);
    assert_eq!(citation.position, None);
    assert!(!citation.suppress_author);
    assert_eq!(citation.note_number, None);
    assert_eq!(citation.prefix, None);
    assert_eq!(citation.suffix, None);
}

#[test]
fn test_compound_locator_rejects_single_segment() {
    let err = CitationLocator::compound(vec![LocatorSegment::new(LocatorType::Page, "42")])
        .expect_err("single-segment compound locator must be rejected");
    assert!(err.contains("at least two"));
}

#[test]
fn test_citation_locator_canonical_string_is_stable() {
    let locator = CitationLocator::compound(vec![
        LocatorSegment::new(LocatorType::Page, "23"),
        LocatorSegment::new(LocatorType::Line, "13"),
    ])
    .unwrap();

    assert_eq!(locator.canonical_string(), "page:23,line:13");
}

#[test]
fn test_locator_segments_single() {
    let item = CitationItem {
        id: "test".to_string(),
        locator: Some(CitationLocator::single(LocatorType::Page, "42")),
        ..Default::default()
    };
    let segments = item.locator_segments().unwrap();
    assert_eq!(segments.len(), 1);
    assert_eq!(segments[0].label, LocatorType::Page);
}

#[test]
fn test_locator_segments_none() {
    let item = CitationItem {
        id: "test".to_string(),
        ..Default::default()
    };
    assert!(item.locator_segments().is_none());
}

#[test]
fn test_locator_value_heuristic_plural() {
    let lv_range = LocatorValue::from("42-45");
    assert!(lv_range.is_plural());

    let lv_single = LocatorValue::from("42");
    assert!(!lv_single.is_plural());

    let lv_en_dash = LocatorValue::from("42–45");
    assert!(lv_en_dash.is_plural());

    let lv_comma = LocatorValue::from("1, 3, 5");
    assert!(lv_comma.is_plural());

    let lv_ampersand = LocatorValue::from("A & B");
    assert!(lv_ampersand.is_plural());
}

#[test]
fn test_normalize_locator_text_with_explicit_aliases() {
    let aliases = vec![
        ("page".to_string(), LocatorType::Page),
        ("p.".to_string(), LocatorType::Page),
        ("chapter".to_string(), LocatorType::Chapter),
        ("ch.".to_string(), LocatorType::Chapter),
        ("section".to_string(), LocatorType::Section),
        ("§".to_string(), LocatorType::Section),
    ];

    assert_eq!(
        normalize_locator_text("45", &aliases),
        Some(CitationLocator::single(LocatorType::Page, "45"))
    );
    assert_eq!(
        normalize_locator_text("chapter 2", &aliases),
        Some(CitationLocator::single(LocatorType::Chapter, "2"))
    );
    assert_eq!(
        normalize_locator_text("ch. 3", &aliases),
        Some(CitationLocator::single(LocatorType::Chapter, "3"))
    );
    assert_eq!(
        normalize_locator_text("§ 4", &aliases),
        Some(CitationLocator::single(LocatorType::Section, "4"))
    );

    let compound = normalize_locator_text("chapter 2, page 10", &aliases).unwrap();
    assert!(compound.is_compound());
    let segs = compound.segments();
    assert_eq!(segs[0].label, LocatorType::Chapter);
    assert_eq!(segs[1].label, LocatorType::Page);

    assert_eq!(normalize_locator_text("", &aliases), None);
    assert_eq!(normalize_locator_text("   ", &aliases), None);
    assert_eq!(normalize_locator_text("chapter:", &aliases), None);
}

#[test]
fn test_normalize_locator_text_with_abbreviated_aliases() {
    let aliases = vec![
        ("page".to_string(), LocatorType::Page),
        ("pp.".to_string(), LocatorType::Page),
        ("vol.".to_string(), LocatorType::Volume),
    ];

    assert_eq!(
        normalize_locator_text("page 45", &aliases),
        Some(CitationLocator::single(LocatorType::Page, "45"))
    );
    assert_eq!(
        normalize_locator_text("pp. 10-12", &aliases),
        Some(CitationLocator::single(LocatorType::Page, "10-12"))
    );
    assert_eq!(
        normalize_locator_text("vol. 1", &aliases),
        Some(CitationLocator::single(LocatorType::Volume, "1"))
    );
}

#[test]
fn test_custom_locator_type_normalizes_manual_construction() {
    let locator = LocatorType::Custom("Reel Label".to_string());

    assert_eq!(locator.as_key(), "reel-label");
    assert_eq!(
        locator,
        LocatorType::from_key("reel-label").expect("known custom key should parse")
    );
    assert_eq!(
        serde_json::to_string(&locator.as_key()).expect("custom locator should serialize"),
        "\"reel-label\""
    );
}

/// Reads a locator segment from its JSON form through the library's key rules.
fn segment_from_json(v: &serde_json::Value) -> LocatorSegment {
    let label = LocatorType::from_key(v["label"].as_str().unwrap()).unwrap();
    let value = match &v["value"] {
        serde_json::Value::String(s) => LocatorValue::Text(s.clone()),
        other => LocatorValue::Explicit {
            value: other["value"].as_str().unwrap().to_string(),
            plural: other["plural"].as_bool().unwrap(),
        },
    };
    LocatorSegment { label, value }
}

/// Reads a citation item from its JSON form through the library's locator rules.
fn item_from_json(json: &str) -> CitationItem {
    let v: serde_json::Value = serde_json::from_str(json).unwrap();
    let locator = v.get("locator").map(|l| match l.get("segments") {
        Some(segs) => CitationLocator::compound(
            segs.as_array().unwrap().iter().map(segment_from_json).collect(),
        )
        .unwrap(),
        None => CitationLocator::Single(segment_from_json(l)),
    });
    CitationItem { id: v["id"].as_str().unwrap().to_string(), locator, ..Default::default() }
}

#[test]
fn test_citation_item_with_locator() {
    let json = r#"
    {
        "id": "kuhn1962",
        "locator": {
            "label": "page",
            "value": "42-45"
        }
    }
    "#;
    let item = item_from_json(json);
    assert_eq!(item.id, "kuhn1962");
    assert_eq!(item.locator, Some(CitationLocator::single(LocatorType::Page, "42-45")));
}

#[test]
fn test_compound_locator_deserialization() {
    let json = r#"
    {
        "id": "smith2020",
        "locator": {
            "segments": [
                { "label": "page", "value": "23" },
                { "label": "line", "value": "13" }
            ]
        }
    }
    "#;
    let item = item_from_json(json);
    let segs = item.locator.as_ref().unwrap().segments();
    assert_eq!(segs.len(), 2);
    assert_eq!(segs[0].label, LocatorType::Page);
    assert_eq!(segs[0].value.value_str(), "23");
    assert_eq!(segs[1].label, LocatorType::Line);
    assert_eq!(segs[1].value.value_str(), "13");
}

#[test]
fn test_locator_value_explicit_plural_override() {
    let json = r#"
    {
        "id": "test",
        "locator": {
            "label": "figure",
            "value": {
                "value": "A-3",
                "plural": false
            }
        }
    }
    "#;
    let item = item_from_json(json);
    let segs = item.locator.as_ref().unwrap().segments();
    assert_eq!(segs[0].value.value_str(), "A-3");
    assert!(!segs[0].value.is_plural());
}

#[test]
fn locator_key_round_trips_for_known_types() {
    for t in [LocatorType::Page, LocatorType::Chapter, LocatorType::Line, LocatorType::Section] {
        let key = t.as_key();
        assert_eq!(LocatorType::from_key(&key).unwrap(), t);
    }
    assert_eq!(LocatorType::Page.as_key(), "page");
    assert_eq!(LocatorType::from_key("Sub Verbo").unwrap().as_key(), "sub-verbo");
}

#[test]
fn locator_from_key_rejects_blank_labels() {
    assert!(LocatorType::from_key("   ").is_err());
    assert!(LocatorType::from_key("--").is_err());
}

#[test]
fn normalize_kind_key_is_idempotent_on_examples() {
    let once = normalize_kind_key("  Reel__Label 2 ").unwrap();
    assert_eq!(once, "reel-label-2");
    assert_eq!(normalize_kind_key(&once).unwrap(), once);
    assert_eq!(normalize_kind_key("!!"), None);
}

#[test]
fn explicit_plural_overrides_the_heuristic() {
    let v = LocatorValue::Explicit { value: "A-3".to_string(), plural: false };
    assert_eq!(v.value_str(), "A-3");
    assert!(!v.is_plural());
}

#[test]
fn compound_locator_keeps_segment_order() {
    let locator = CitationLocator::compound(vec![
        LocatorSegment::new(LocatorType::Chapter, "3"),
        LocatorSegment::new(LocatorType::Section, "42"),
    ])
    .unwrap();
    assert!(locator.is_compound());
    let segs = locator.segments();
    assert_eq!(segs.len(), 2);
    assert_eq!(segs[0].value.value_str(), "3");
    assert_eq!(segs[1].value.value_str(), "42");
    assert_eq!(locator.canonical_string(), "chapter:3,section:42");
}

#[test]
fn single_locator_is_not_compound() {
    let locator = CitationLocator::single(LocatorType::Page, "7");
    assert!(!locator.is_compound());
    assert_eq!(locator.canonical_string(), "page:7");
}

#[test]
fn labels_that_cannot_be_cut_are_reported() {
    let aliases = vec![("i\u{307}é".to_string(), LocatorType::Page)];
    assert_eq!(try_normalize_locator_text("İé", &aliases), None);
    let plain = vec![("page".to_string(), LocatorType::Page)];
    assert_eq!(
        try_normalize_locator_text("page 3", &plain),
        Some(Some(CitationLocator::single(LocatorType::Page, "3")))
    );
    assert_eq!(try_normalize_locator_text("  ", &plain), Some(None));
}

#[test]
fn equal_locator_labels_hash_alike() {
    let mut labels = std::collections::HashSet::new();
    labels.insert(LocatorType::Page);
    labels.insert(LocatorType::Custom("page".to_string()));
    labels.insert(LocatorType::Custom("Reel Label".to_string()));
    labels.insert(LocatorType::Custom("reel-label".to_string()));
    assert_eq!(labels.len(), 2);
    assert_eq!(LocatorType::Custom("page".to_string()), LocatorType::Page);
}
