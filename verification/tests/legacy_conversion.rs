use citum_schema_data::conversion::{csl_type_map, LegacyDate, NameParts};
use citum_schema_data::date::DateValue;
use citum_schema_data::fields::find_numbering;
use citum_schema_data::legacy::{
    archive_info_from_legacy_flat, input_reference_from_legacy, legacy_extra_date,
    legacy_extra_str, ref_context, ConvertedReference, LegacyExtraValue, LegacyReference,
};
use citum_schema_data::types::{
    AudioVisualType, CollectionComponent, Numbering, Event, MonographComponentType, MonographType, ParentKind,
    SerialComponent, SerialComponentType, SerialType, Publisher, MultilingualString, NumOrStr, NumberingType, StructuredTitle, Subtitle, Title,
};

fn base(ref_type: &str) -> LegacyReference {
    LegacyReference {
        id: "item-1".to_string(),
        ref_type: ref_type.to_string(),
        title: Some("A Title".to_string()),
        container_title: None,
        collection_title: None,
        author: None,
        editor: None,
        translator: None,
        director: None,
        contributor: None,
        recipient: None,
        interviewer: None,
        original_title: None,
        issued: Some(LegacyDate { literal: None, date_parts: Some(vec![vec![2024]]), circa: None, raw: None }),
        accessed: None,
        url: None,
        language: None,
        note: None,
        doi: None,
        isbn: None,
        edition: None,
        volume: None,
        collection_number: None,
        number: None,
        issue: None,
        issn: None,
        dimensions: None,
        chapter_number: None,
        genre: None,
        medium: None,
        publisher: None,
        publisher_place: None,
        authority: None,
        section: None,
        archive: None,
        archive_location: None,
        page: None,
        extra: vec![],
    }
}

fn text(s: &str) -> LegacyExtraValue {
    LegacyExtraValue::Text(s.to_string())
}

fn monograph(r: ConvertedReference) -> citum_schema_data::types::Monograph {
    match r {
        ConvertedReference::Monograph(m) => m,
        other => panic!("expected monograph, got {other:?}"),
    }
}

#[test]
fn legacy_copyright_year_literal_converts_to_monograph_copyright() {
    let mut legacy = base("book");
    legacy.issued = Some(LegacyDate { literal: Some("c1988".to_string()), date_parts: None, circa: None, raw: None });
    let m = monograph(input_reference_from_legacy(&legacy).reference);
    assert_eq!(m.kind, MonographType::Book);
    assert_eq!(m.copyright, Some(DateValue::new("1988".to_string())));
    assert_eq!(m.issued, DateValue::new(String::new()));
}

#[test]
fn book_number_part_and_chapter_numbering() {
    let mut legacy = base("book");
    legacy.number = Some("7".to_string());
    legacy.chapter_number = Some("3".to_string());
    legacy.extra = vec![("part-number".to_string(), text("2"))];
    let m = monograph(input_reference_from_legacy(&legacy).reference);
    assert_eq!(m.number.as_deref(), Some("7"));
    assert_eq!(m.numbering.iter().map(|n| n.kind.clone()).collect::<Vec<_>>(), vec![NumberingType::Part, NumberingType::Chapter]);
}

#[test]
fn legacy_note_type_classic_maps_to_classic_reference() {
    let legacy = base("classic");
    let converted = input_reference_from_legacy(&legacy).reference;
    assert_eq!(converted.ref_type(), "classic");
    match converted {
        ConvertedReference::Classic(c) => assert_eq!(c.title, Some(Title::Single("A Title".to_string()))),
        other => panic!("expected classic, got {other:?}"),
    }
}

#[test]
fn webpage_title_combines_part_number_and_title() {
    let mut legacy = base("webpage");
    legacy.extra = vec![
        ("part-number".to_string(), text("2")),
        ("part-title".to_string(), text("Methods")),
        ("shortTitle".to_string(), text("A Title")),
    ];
    let m = monograph(input_reference_from_legacy(&legacy).reference);
    assert_eq!(m.kind, MonographType::Webpage);
    assert_eq!(
        m.title,
        Some(Title::Structured(StructuredTitle {
            full: None,
            main: "A Title".to_string(),
            sub: Subtitle::String("Pt. 2. Methods".to_string()),
        }))
    );
}

#[test]
fn personal_communication_gets_a_note_and_created_date() {
    let mut legacy = base("personal_communication");
    legacy.issued = Some(LegacyDate { literal: None, date_parts: Some(vec![vec![1973, 1, 1]]), circa: None, raw: None });
    let m = monograph(input_reference_from_legacy(&legacy).reference);
    assert_eq!(m.kind, MonographType::PersonalCommunication);
    assert_eq!(m.note.as_deref(), Some("personal communication"));
    assert_eq!(m.created.value, "1973-01-01");
    assert_eq!(m.issued.value, "1973-01-01");
}

#[test]
fn dimensions_split_into_size_or_duration_and_genre_is_seeded() {
    let mut legacy = base("musical_score");
    legacy.extra = vec![("dimensions".to_string(), text("PT3M"))];
    let m = monograph(input_reference_from_legacy(&legacy).reference);
    assert_eq!(m.duration.as_deref(), Some("PT3M"));
    assert_eq!(m.size, None);
    assert_eq!(m.genre.as_deref(), Some("musical_score"));
    let mut legacy = base("book");
    legacy.extra = vec![("dimensions".to_string(), text("24 cm"))];
    legacy.page = Some("300".to_string());
    let m = monograph(input_reference_from_legacy(&legacy).reference);
    assert_eq!(m.size.as_deref(), Some("24 cm"));
    assert_eq!(m.pages, Some(NumOrStr::Str("300".to_string())));
}

#[test]
fn archive_collection_moves_the_archive_into_archive_info() {
    let mut legacy = base("manuscript");
    legacy.archive = Some("National Archives".to_string());
    legacy.extra = vec![("archive_collection".to_string(), text("Papers"))];
    let info = archive_info_from_legacy_flat(&legacy).unwrap();
    assert_eq!(info.name, Some(MultilingualString::Simple("National Archives".to_string())));
    assert_eq!(info.collection.as_deref(), Some("Papers"));
    let m = monograph(input_reference_from_legacy(&legacy).reference);
    assert_eq!(m.archive, None);
    assert!(m.archive_info.is_some());
}

#[test]
fn context_reads_short_title_url_and_extra_dates() {
    let mut legacy = base("article-journal");
    legacy.container_title = Some("Journal".to_string());
    legacy.url = Some("https://example.org/a b".to_string());
    legacy.extra = vec![
        ("title-short".to_string(), text("Short")),
        ("available-date".to_string(), LegacyExtraValue::Date(LegacyDate { literal: None, date_parts: Some(vec![vec![2020, 2]]), circa: None, raw: None })),
        ("CSTR".to_string(), text("12345.11.DATA")),
    ];
    let ctx = ref_context(&legacy);
    assert_eq!(ctx.short_title.as_deref(), Some("Short"));
    assert_eq!(ctx.url.as_deref(), Some("https://example.org/a%20b"));
    assert_eq!(legacy_extra_date(&legacy, "available-date").unwrap().value, "2020-02");
    assert_eq!(legacy_extra_str(&legacy, "available-date"), None);
    let converted = input_reference_from_legacy(&legacy);
    match converted.reference {
        ConvertedReference::SerialComponent(c) => {
            assert_eq!(c.available_date, Some(DateValue::new("2020-02".to_string())));
            assert_eq!(c.url.as_deref(), Some("https://example.org/a%20b"));
        }
        other => panic!("expected a serial component, got {other:?}"),
    }
    assert_eq!(converted.identifiers.get("cstr"), Some("12345.11.DATA"));
}

fn event(r: ConvertedReference) -> Event {
    match r {
        ConvertedReference::Event(e) => e,
        other => panic!("expected event, got {other:?}"),
    }
}

#[test]
fn event_falls_back_to_issued_date_and_publisher_place() {
    let mut legacy = base("presentation");
    legacy.publisher = Some("ACM".to_string());
    legacy.publisher_place = Some("Boston".to_string());
    let e = event(input_reference_from_legacy(&legacy).reference);
    assert_eq!(e.date, Some(DateValue::new("2024".to_string())));
    assert_eq!(e.location.as_deref(), Some("Boston"));
    assert_eq!(e.organizer.as_deref(), Some("ACM"));
    assert_eq!(e.genre, None);
}

#[test]
fn documents_keep_their_own_fields_and_seed_the_genre() {
    let mut legacy = base("map");
    legacy.volume = Some("2".to_string());
    legacy.edition = Some("3rd".to_string());
    let m = monograph(input_reference_from_legacy(&legacy).reference);
    assert_eq!(m.kind, MonographType::Document);
    assert_eq!(m.genre.as_deref(), Some("map"));
    assert_eq!(m.volume.as_deref(), Some("2"));
    assert_eq!(m.edition.as_deref(), Some("3rd"));
    assert!(m.numbering.is_empty());
    let unrouted = base("no-such-type");
    let m = monograph(input_reference_from_legacy(&unrouted).reference);
    assert_eq!(m.kind, MonographType::Document);
    assert_eq!(m.genre, None);
}

#[test]
fn legacy_publisher_place_without_name_preserves_place() {
    let mut legacy = base("book");
    legacy.title = Some("A history of Chinese mathematics".to_string());
    legacy.publisher_place = Some("Cambridge, Eng".to_string());
    let converted = input_reference_from_legacy(&legacy).reference;
    assert_eq!(
        converted.publisher(),
        Some(Publisher { name: String::new(), place: Some("Cambridge, Eng".to_string()) })
    );
}

#[test]
fn preprint_dataset_and_software_routes() {
    let mut legacy = base("article");
    legacy.number = Some("2301.00001".to_string());
    let m = monograph(input_reference_from_legacy(&legacy).reference);
    assert_eq!(m.kind, MonographType::Preprint);
    assert_eq!(m.numbering[0].kind, NumberingType::Report);
    assert_eq!(m.number, None);

    let mut legacy = base("dataset");
    legacy.medium = Some("CSV".to_string());
    legacy.extra = vec![("version".to_string(), text("1.2"))];
    match input_reference_from_legacy(&legacy).reference {
        ConvertedReference::Dataset(d) => {
            assert_eq!(d.format.as_deref(), Some("CSV"));
            assert_eq!(d.version.as_deref(), Some("1.2"));
            assert_eq!(d.publisher, None);
        }
        other => panic!("expected dataset, got {other:?}"),
    }

    let mut legacy = base("software");
    legacy.medium = Some("Linux".to_string());
    legacy.publisher_place = Some("Nowhere".to_string());
    match input_reference_from_legacy(&legacy).reference {
        ConvertedReference::Software(x) => {
            assert_eq!(x.platform.as_deref(), Some("Linux"));
            assert_eq!(x.publisher, None);
        }
        other => panic!("expected software, got {other:?}"),
    }
}

#[test]
fn legal_routes_build_their_classes() {
    let mut legacy = base("legal_case");
    legacy.authority = Some("Supreme Court".to_string());
    legacy.container_title = Some("U.S.".to_string());
    legacy.volume = Some("347".to_string());
    legacy.page = Some("483".to_string());
    match input_reference_from_legacy(&legacy).reference {
        ConvertedReference::LegalCase(c) => {
            assert_eq!(c.authority.as_deref(), Some("Supreme Court"));
            assert_eq!(c.reporter.as_deref(), Some("U.S."));
            assert_eq!(c.volume.as_deref(), Some("347"));
            assert_eq!(c.page.as_deref(), Some("483"));
        }
        other => panic!("expected legal case, got {other:?}"),
    }
    let legacy = base("patent");
    match input_reference_from_legacy(&legacy).reference {
        ConvertedReference::Patent(p) => assert_eq!(p.patent_number, ""),
        other => panic!("expected patent, got {other:?}"),
    }
    let mut legacy = base("legislation");
    legacy.section = Some("12".to_string());
    match input_reference_from_legacy(&legacy).reference {
        ConvertedReference::Statute(st) => assert_eq!(st.section.as_deref(), Some("12")),
        other => panic!("expected statute, got {other:?}"),
    }
}

#[test]
fn bills_route_by_shape() {
    let mut legacy = base("bill");
    legacy.authority = Some("Senate".to_string());
    assert!(matches!(input_reference_from_legacy(&legacy).reference, ConvertedReference::Hearing(_)));

    let mut legacy = base("bill");
    legacy.title = None;
    legacy.number = Some("H.R. 1".to_string());
    legacy.chapter_number = Some("118".to_string());
    let m = monograph(input_reference_from_legacy(&legacy).reference);
    assert_eq!(m.genre.as_deref(), Some("bill-proceeding"));
    assert_eq!(m.title, Some(Title::Single("H.R. 1".to_string())));
    assert_eq!(m.numbering[0].kind, NumberingType::Chapter);

    let mut legacy = base("bill");
    legacy.title = None;
    legacy.container_title = Some("Congressional Record".to_string());
    legacy.volume = Some("150".to_string());
    legacy.page = Some("S123".to_string());
    let m = monograph(input_reference_from_legacy(&legacy).reference);
    assert_eq!(m.genre.as_deref(), Some("bill-record"));
    assert_eq!(m.title, Some(Title::Single("Congressional Record".to_string())));
    assert_eq!(m.number.as_deref(), Some("S123"));

    let legacy = base("bill");
    let m = monograph(input_reference_from_legacy(&legacy).reference);
    assert_eq!(m.genre, None);
}

fn year(y: i32) -> Option<LegacyDate> {
    Some(LegacyDate { literal: None, date_parts: Some(vec![vec![y]]), circa: None, raw: None })
}

fn full_date(y: i32, m: i32, d: i32) -> Option<LegacyDate> {
    Some(LegacyDate { literal: None, date_parts: Some(vec![vec![y, m, d]]), circa: None, raw: None })
}

fn names(family: &str, given: &str) -> LegacyExtraValue {
    LegacyExtraValue::Names(vec![NameParts {
        literal: None,
        given: Some(given.to_string()),
        family: Some(family.to_string()),
        suffix: None,
        dropping_particle: None,
        non_dropping_particle: None,
    }])
}

fn serial(r: ConvertedReference) -> SerialComponent {
    match r {
        ConvertedReference::SerialComponent(c) => c,
        other => panic!("expected serial component, got {other:?}"),
    }
}

fn component(r: ConvertedReference) -> CollectionComponent {
    match r {
        ConvertedReference::CollectionComponent(c) => c,
        other => panic!("expected collection component, got {other:?}"),
    }
}

fn check_report_number() {
    let mut legacy = base("report");
    legacy.id = "report-1".to_string();
    legacy.title = Some("Report".to_string());
    legacy.number = Some("TR-7".to_string());
    let converted = input_reference_from_legacy(&legacy).reference;
    assert_eq!(converted.number(), None);
    assert_eq!(converted.report_number(), Some("TR-7".to_string()));
    assert_eq!(converted.ref_type(), "report");
    let m = monograph(converted);
    assert_eq!(m.kind, MonographType::Report);
    assert_eq!(m.number, None);
    assert_eq!(m.numbering.len(), 1);
    assert_eq!(m.numbering[0].kind, NumberingType::Report);
    assert_eq!(m.numbering[0].value, "TR-7");
}

#[test]
fn mod_legacy_report_number_maps_to_report_numbering() {
    check_report_number();
}

#[test]
fn conversion_legacy_report_number_maps_to_report_numbering() {
    check_report_number();
}

fn check_book_number() {
    let mut legacy = base("book");
    legacy.id = "book-1".to_string();
    legacy.title = Some("Book".to_string());
    legacy.number = Some("2".to_string());
    let converted = input_reference_from_legacy(&legacy).reference;
    assert_eq!(converted.number(), Some("2".to_string()));
    assert_eq!(converted.report_number(), None);
    let m = monograph(converted);
    assert_eq!(m.number, Some("2".to_string()));
    assert!(m.numbering.iter().all(|n| n.kind != NumberingType::Report));
}

#[test]
fn mod_legacy_book_number_maps_to_generic_numbering() {
    check_book_number();
}

#[test]
fn conversion_legacy_book_number_maps_to_generic_numbering() {
    check_book_number();
}

fn check_monograph_part_title() {
    let mut legacy = base("book");
    legacy.id = "book-4".to_string();
    legacy.title = Some("Container Work".to_string());
    legacy.issued = None;
    legacy.extra = vec![("part-title".to_string(), text("Actual Part"))];
    let m = monograph(input_reference_from_legacy(&legacy).reference);
    assert_eq!(m.title, Some(Title::Single("Actual Part".to_string())));
}

#[test]
fn mod_legacy_monograph_prefers_part_title_over_title() {
    check_monograph_part_title();
}

#[test]
fn conversion_legacy_monograph_prefers_part_title_over_title() {
    check_monograph_part_title();
}

fn check_component_part_title() {
    let mut legacy = base("chapter");
    legacy.id = "chapter-1".to_string();
    legacy.title = Some("Collected Volume".to_string());
    legacy.issued = None;
    legacy.extra = vec![("part-title".to_string(), text("Actual Chapter"))];
    let c = component(input_reference_from_legacy(&legacy).reference);
    assert_eq!(c.title, Some(Title::Single("Actual Chapter".to_string())));
    assert_eq!(c.kind, MonographComponentType::Chapter);
}

#[test]
fn mod_legacy_collection_component_prefers_part_title_over_title() {
    check_component_part_title();
}

#[test]
fn conversion_legacy_collection_component_prefers_part_title_over_title() {
    check_component_part_title();
}

fn check_event_extra_fields() {
    let mut legacy = base("speech");
    legacy.id = "event-1".to_string();
    legacy.title = Some("Fallback Title".to_string());
    legacy.extra = vec![
        ("event-title".to_string(), text("Actual Event")),
        ("event-place".to_string(), text("Chicago")),
        ("event-date".to_string(), LegacyExtraValue::Date(full_date(2023, 5, 6).unwrap())),
    ];
    let e = event(input_reference_from_legacy(&legacy).reference);
    assert_eq!(e.title, Some(Title::Single("Fallback Title".to_string())));
    assert_eq!(e.series_title.as_deref(), Some("Actual Event"));
    assert_eq!(e.location, Some("Chicago".to_string()));
    assert_eq!(e.date, Some(DateValue::new("2023-05-06".to_string())));
    assert_eq!(e.genre.as_deref(), Some("speech"));
}

#[test]
fn mod_legacy_event_prefers_extra_event_fields() {
    check_event_extra_fields();
}

#[test]
fn conversion_legacy_event_prefers_extra_event_fields() {
    check_event_extra_fields();
}

fn check_event_no_date() {
    let mut legacy = base("speech");
    legacy.id = "event-2".to_string();
    legacy.title = Some("Fallback Title".to_string());
    legacy.issued = None;
    let e = event(input_reference_from_legacy(&legacy).reference);
    assert_eq!(e.date, None);
}

#[test]
fn mod_legacy_event_omits_empty_fallback_date() {
    check_event_no_date();
}

#[test]
fn conversion_legacy_event_omits_empty_fallback_date() {
    check_event_no_date();
}

fn check_reviewed_and_supplement() {
    let mut legacy = base("article-journal");
    legacy.id = "article-1".to_string();
    legacy.title = Some("Review Essay".to_string());
    legacy.container_title = Some("Journal".to_string());
    legacy.extra = vec![
        ("reviewed-title".to_string(), text("Reviewed Book")),
        ("reviewed-author".to_string(), names("Morrison", "Toni")),
        ("supplement-number".to_string(), text("S1")),
    ];
    let c = serial(input_reference_from_legacy(&legacy).reference);
    assert!(c.numbering.iter().any(|n| n.kind == NumberingType::Supplement && n.value == "S1"));
    assert_eq!(c.reviewed_title.as_deref(), Some("Reviewed Book"));
    match &c.reviewed {
        Some(citum_schema_data::relation::WorkRelation::Monograph(r)) => {
            assert_eq!(r.title, Some(Title::Single("Reviewed Book".to_string())));
            assert!(r.author.is_some());
        }
        other => panic!("expected reviewed relation, got {other:?}"),
    }
    assert_eq!(c.container.kind, SerialType::AcademicJournal);
    assert_eq!(c.container.title.as_deref(), Some("Journal"));
    assert_eq!(c.kind, SerialComponentType::Article);
}

#[test]
fn mod_legacy_serial_component_maps_reviewed_relation_and_supplement_number() {
    check_reviewed_and_supplement();
}

#[test]
fn conversion_legacy_serial_component_maps_reviewed_relation_and_supplement_number() {
    check_reviewed_and_supplement();
}

#[test]
fn legacy_serial_component_exposes_section_and_review_event_metadata() {
    let mut legacy = base("article-newspaper");
    legacy.id = "newspaper-review".to_string();
    legacy.title = Some("Young Concert Artists Is Back".to_string());
    legacy.container_title = Some("New York Times".to_string());
    legacy.section = Some("Arts".to_string());
    legacy.issued = full_date(2021, 11, 12);
    legacy.extra = vec![
        ("reviewed-genre".to_string(), text("recital")),
        ("reviewed-author".to_string(), names("Zhu Wang (piano)", "")),
        ("event-title".to_string(), text("Zankel Hall")),
        ("event-place".to_string(), text("New York")),
    ];
    let converted = input_reference_from_legacy(&legacy).reference;
    assert_eq!(converted.section(), Some("Arts".to_string()));
    let c = serial(converted);
    assert_eq!(c.section.as_deref(), Some("Arts"));
    assert_eq!(c.container.kind, SerialType::Newspaper);
    assert_eq!(c.event_title.as_deref(), Some("Zankel Hall"));
    assert_eq!(c.event_place.as_deref(), Some("New York"));
    assert_eq!(c.genre.as_deref(), Some("recital"));
    assert_eq!(c.issued, DateValue::new("2021-11-12".to_string()));
}

#[test]
fn legacy_broadcast_preserves_writer_cast_network_and_duration() {
    let mut legacy = base("broadcast");
    legacy.id = "broadcast-rich".to_string();
    legacy.title = Some("Her Sister's Shadow".to_string());
    legacy.container_title = Some("The Brady Bunch".to_string());
    legacy.number = Some("season 3, episode 10".to_string());
    legacy.publisher = Some("ABC".to_string());
    legacy.dimensions = Some("26m".to_string());
    legacy.issued = full_date(1971, 11, 19);
    legacy.extra = vec![("script-writer".to_string(), names("Schwartz", "Sherwood"))];
    let c = serial(input_reference_from_legacy(&legacy).reference);
    assert_eq!(c.issue.as_deref(), Some("season 3, episode 10"));
    assert_eq!(c.duration.as_deref(), Some("26m"));
    assert_eq!(c.container.kind, SerialType::BroadcastProgram);
    assert_eq!(c.container.publisher, Some(Publisher { name: "ABC".to_string(), place: None }));
}

#[test]
fn podcast_number_becomes_a_numbered_issue_and_abbreviation_is_the_short_title() {
    let mut legacy = base("broadcast");
    legacy.medium = Some("Podcast".to_string());
    legacy.number = Some("12".to_string());
    legacy.container_title = Some("The Show".to_string());
    legacy.extra = vec![("journalAbbreviation".to_string(), text("Show"))];
    let c = serial(input_reference_from_legacy(&legacy).reference);
    assert_eq!(c.issue.as_deref(), Some("No. 12"));
    assert_eq!(c.number.as_deref(), Some("12"));
    assert_eq!(c.container.short_title.as_deref(), Some("Show"));
}

#[test]
fn encyclopedia_entry_seeds_its_genre_on_the_component_route() {
    let mut legacy = base("entry-encyclopedia");
    legacy.container_title = Some("Encyclopedia".to_string());
    let c = component(input_reference_from_legacy(&legacy).reference);
    assert_eq!(c.genre.as_deref(), Some("entry-encyclopedia"));
}

#[test]
fn report_with_pages_and_container_is_a_component_of_a_report() {
    let mut legacy = base("report");
    legacy.page = Some("10-20".to_string());
    legacy.container_title = Some("Report Series".to_string());
    let c = component(input_reference_from_legacy(&legacy).reference);
    assert_eq!(c.container.kind, ParentKind::Report);
    assert_eq!(c.container.title.as_deref(), Some("Report Series"));
}

#[test]
fn conference_paper_is_part_of_proceedings_with_its_event() {
    let mut legacy = base("paper-conference");
    legacy.container_title = Some("Proceedings of X".to_string());
    legacy.extra = vec![
        ("event-title".to_string(), text("X 2024")),
        ("event-place".to_string(), text("Lisbon")),
    ];
    let c = component(input_reference_from_legacy(&legacy).reference);
    assert_eq!(c.kind, MonographComponentType::Document);
    assert_eq!(c.container.kind, ParentKind::Proceedings);
    assert_eq!(c.container.event_title.as_deref(), Some("X 2024"));
    assert_eq!(c.container.event_place.as_deref(), Some("Lisbon"));
}

#[test]
fn motion_picture_converts_to_a_film() {
    let mut legacy = base("motion_picture");
    legacy.publisher = Some("Studio".to_string());
    match input_reference_from_legacy(&legacy).reference {
        ConvertedReference::AudioVisual(a) => {
            assert_eq!(a.kind, AudioVisualType::Film);
            assert_eq!(a.title, Some(Title::Single("A Title".to_string())));
            assert_eq!(a.publisher, Some(Publisher { name: "Studio".to_string(), place: None }));
        }
        other => panic!("expected audio-visual work, got {other:?}"),
    }
}

#[test]
fn accessors_read_across_classes() {
    let mut legacy = base("chapter");
    legacy.container_title = Some("Edited Volume".to_string());
    legacy.publisher = Some("Press".to_string());
    legacy.publisher_place = Some("Oxford".to_string());
    legacy.doi = Some("10.1/x".to_string());
    legacy.genre = Some("Book Chapter".to_string());
    let converted = input_reference_from_legacy(&legacy).reference;
    assert_eq!(converted.id(), Some("item-1".to_string()));
    assert_eq!(converted.ref_type(), "chapter");
    assert_eq!(converted.title(), Some(&Title::Single("A Title".to_string())));
    assert_eq!(
        converted.publisher(),
        Some(Publisher { name: "Press".to_string(), place: Some("Oxford".to_string()) })
    );
    assert_eq!(converted.doi(), Some("10.1/x".to_string()));
    assert_eq!(converted.genre(), Some("book-chapter".to_string()));
    assert_eq!(converted.numbering_value(&NumberingType::Volume), None);

    let mut legacy = base("legal_case");
    legacy.doi = Some("10.2/y".to_string());
    let converted = input_reference_from_legacy(&legacy).reference;
    assert_eq!(converted.ref_type(), "legal-case");
    assert_eq!(converted.publisher(), None);
    assert_eq!(converted.genre(), None);
    assert_eq!(converted.doi(), Some("10.2/y".to_string()));
}

#[test]
fn first_numbering_entry_of_a_kind_wins() {
    let numbering = vec![
        Numbering { kind: NumberingType::Part, value: "1".to_string() },
        Numbering { kind: NumberingType::Custom("disc".to_string()), value: "A".to_string() },
        Numbering { kind: NumberingType::Custom("disc".to_string()), value: "B".to_string() },
    ];
    assert_eq!(find_numbering(&numbering, &NumberingType::Custom("disc".to_string())), Some("A".to_string()));
    assert_eq!(find_numbering(&numbering, &NumberingType::Part), Some("1".to_string()));
    assert_eq!(find_numbering(&numbering, &NumberingType::Custom("side".to_string())), None);
}

#[test]
fn place_publisher_url_note_and_issued_accessors() {
    let mut legacy = base("chapter");
    legacy.container_title = Some("Edited Volume".to_string());
    legacy.publisher = Some("Press".to_string());
    legacy.publisher_place = Some("Oxford".to_string());
    legacy.url = Some("https://example.org/x".to_string());
    legacy.note = Some("A note".to_string());
    let converted = input_reference_from_legacy(&legacy).reference;
    assert_eq!(converted.publisher_place(), Some("Oxford".to_string()));
    assert_eq!(converted.publisher_str(), Some("Press".to_string()));
    assert_eq!(converted.url(), Some("https://example.org/x".to_string()));
    assert_eq!(converted.note(), Some("A note".to_string()));
    assert_eq!(converted.issued(), Some(DateValue::new("2024".to_string())));

    let mut legacy = base("article-journal");
    legacy.container_title = Some("Journal".to_string());
    legacy.publisher = Some("Society".to_string());
    legacy.publisher_place = Some("London".to_string());
    let converted = input_reference_from_legacy(&legacy).reference;
    assert_eq!(converted.publisher_place(), None);
    assert_eq!(converted.publisher_str(), Some("Society".to_string()));

    let mut legacy = base("book");
    legacy.issued = Some(LegacyDate { literal: Some("c1988".to_string()), date_parts: None, circa: None, raw: None });
    let converted = input_reference_from_legacy(&legacy).reference;
    assert_eq!(converted.issued(), None);

    let mut legacy = base("speech");
    legacy.publisher_place = Some("Chicago".to_string());
    let converted = input_reference_from_legacy(&legacy).reference;
    assert_eq!(converted.publisher_place(), Some("Chicago".to_string()));
    assert_eq!(converted.issued(), Some(DateValue::new("2024".to_string())));
}

#[test]
fn volume_and_section_accessors() {
    let mut legacy = base("article-journal");
    legacy.container_title = Some("Journal".to_string());
    legacy.volume = Some("12".to_string());
    let converted = input_reference_from_legacy(&legacy).reference;
    assert_eq!(converted.volume(), Some(NumOrStr::Str("12".to_string())));
    assert_eq!(converted.section(), None);

    let mut legacy = base("chapter");
    legacy.container_title = Some("Volume".to_string());
    legacy.volume = Some("3".to_string());
    let converted = input_reference_from_legacy(&legacy).reference;
    assert_eq!(converted.volume(), None);

    let mut legacy = base("legislation");
    legacy.section = Some("5".to_string());
    let converted = input_reference_from_legacy(&legacy).reference;
    assert_eq!(converted.ref_type(), "statute");
    assert_eq!(converted.section(), Some("5".to_string()));
    assert_eq!(converted.volume(), None);
}

#[test]
fn conversion_keeps_identifier_and_serialised_url_on_every_route() {
    for t in ["book", "chapter", "article-journal", "speech", "motion_picture", "dataset", "software", "legal_case", "bill", "patent", "standard", "map"] {
        let mut legacy = base(t);
        legacy.id = format!("id-{t}");
        legacy.url = Some("https://example.org/a b".to_string());
        legacy.container_title = Some("Container".to_string());
        let converted = input_reference_from_legacy(&legacy).reference;
        assert_eq!(converted.id(), Some(format!("id-{t}")), "{t}");
        assert_eq!(converted.url(), Some("https://example.org/a%20b".to_string()), "{t}");
    }
    let mut legacy = base("book");
    legacy.url = Some("not a url".to_string());
    assert_eq!(input_reference_from_legacy(&legacy).reference.url(), None);
}

#[test]
fn issue_edition_and_pages_accessors() {
    let mut legacy = base("article-journal");
    legacy.container_title = Some("Journal".to_string());
    legacy.issue = Some("4".to_string());
    legacy.page = Some("10-20".to_string());
    let converted = input_reference_from_legacy(&legacy).reference;
    assert_eq!(converted.issue(), Some(NumOrStr::Str("4".to_string())));
    assert_eq!(converted.pages(), Some(NumOrStr::Str("10-20".to_string())));
    assert_eq!(converted.edition(), None);

    let mut legacy = base("book");
    legacy.edition = Some("2nd".to_string());
    legacy.page = Some("300".to_string());
    let converted = input_reference_from_legacy(&legacy).reference;
    assert_eq!(converted.edition(), Some("2nd".to_string()));
    assert_eq!(converted.issue(), None);
    assert_eq!(converted.pages(), None);

    let mut legacy = base("chapter");
    legacy.container_title = Some("Volume".to_string());
    legacy.page = Some("5-9".to_string());
    legacy.edition = Some("3".to_string());
    let converted = input_reference_from_legacy(&legacy).reference;
    assert_eq!(converted.pages(), Some(NumOrStr::Str("5-9".to_string())));
    assert_eq!(converted.edition(), Some("3".to_string()));
}

#[test]
fn a_bibliography_holds_converted_references_and_ordered_sets() {
    let mut sets = indexmap::IndexMap::new();
    sets.insert("group-b".to_string(), vec!["item-2".to_string(), "item-1".to_string()]);
    sets.insert("group-a".to_string(), vec!["item-3".to_string()]);
    let bibliography = citum_schema_data::bibliography::InputBibliography {
        info: Some(citum_schema_data::types::InputBibliographyInfo {
            title: Some("Sources".to_string()),
            author: None,
        }),
        references: vec![input_reference_from_legacy(&base("book")).reference],
        sets: Some(sets),
    };
    assert_eq!(bibliography.references.len(), 1);
    assert_eq!(bibliography.references[0].ref_type(), "book");
    let keys: Vec<&String> = bibliography.sets.as_ref().unwrap().keys().collect();
    assert_eq!(keys, vec!["group-b", "group-a"]);
}

#[test]
fn test_parse_csl_json_motion_picture_produces_audio_visual() {
    let mut legacy = base("motion_picture");
    legacy.id = "parasite".to_string();
    legacy.title = Some("Parasite".to_string());
    legacy.issued = year(2019);
    match input_reference_from_legacy(&legacy).reference {
        ConvertedReference::AudioVisual(work) => assert_eq!(work.kind, AudioVisualType::Film),
        other => panic!("expected audio-visual work, got {other:?}"),
    }
}

#[test]
fn test_parse_csl_json_broadcast_without_audio_roles_stays_serial_component() {
    let mut legacy = base("broadcast");
    legacy.id = "cosmos-episode".to_string();
    legacy.title = Some("The Universe in a Nutshell".to_string());
    legacy.issued = full_date(1980, 9, 28);
    legacy.container_title = Some("Cosmos: A Spacetime Odyssey".to_string());
    legacy.number = Some("1".to_string());
    let c = serial(input_reference_from_legacy(&legacy).reference);
    assert_eq!(c.container.title.as_deref(), Some("Cosmos: A Spacetime Odyssey"));
}

#[test]
fn test_parse_csl_json_broadcast_with_producers_stays_serial_component() {
    let mut legacy = base("broadcast");
    legacy.id = "blackish-episode".to_string();
    legacy.title = Some("Lemons".to_string());
    legacy.container_title = Some("Black-ish".to_string());
    legacy.number = Some("Season 3, Episode 12".to_string());
    legacy.issued = full_date(2017, 1, 11);
    legacy.publisher = Some("Wilmore Films; Artists First; Cinema Gypsy Productions; ABC Studios".to_string());
    legacy.extra = vec![("executive-producer".to_string(), names("Barris", "K."))];
    let c = serial(input_reference_from_legacy(&legacy).reference);
    assert_eq!(c.container.title.as_deref(), Some("Black-ish"));
    assert_eq!(c.issue.as_deref(), Some("Season 3, Episode 12"));
}

#[test]
fn test_parse_csl_json_broadcast_podcast_number_normalizes_with_no_prefix_added() {
    let mut legacy = base("broadcast");
    legacy.id = "podcast-episode".to_string();
    legacy.title = Some("Amusement park".to_string());
    legacy.container_title = Some("This American Life".to_string());
    legacy.medium = Some("audio podcast episode".to_string());
    legacy.number = Some("443".to_string());
    legacy.issued = full_date(2011, 8, 12);
    let c = serial(input_reference_from_legacy(&legacy).reference);
    assert_eq!(c.issue.as_deref(), Some("No. 443"));
}

#[test]
fn test_parse_csl_json_mixed_string_date_parts() {
    let mut legacy = base("book");
    legacy.id = "mixed-date".to_string();
    legacy.title = Some("Mixed Date Parts".to_string());
    legacy.issued = full_date(2017, 2, 21);
    legacy.publisher = Some("Example Press".to_string());
    let converted = input_reference_from_legacy(&legacy).reference;
    assert_eq!(converted.issued().unwrap().value, "2017-02-21");
}

#[test]
fn test_parse_csl_json_event_note_type_routes_to_event_with_chair_and_session() {
    let mut legacy = base("speech");
    legacy.id = "event-session".to_string();
    legacy.title = Some("Conference presentation is a session".to_string());
    legacy.container_title = Some("Session title".to_string());
    legacy.genre = Some("Symposium".to_string());
    legacy.issued = Some(LegacyDate { literal: None, date_parts: Some(vec![vec![2013, 5]]), circa: None, raw: None });
    legacy.extra = vec![("event-title".to_string(), text("Society conference"))];
    let e = event(input_reference_from_legacy(&legacy).reference);
    assert_eq!(e.title, Some(Title::Single("Conference presentation is a session".to_string())));
    assert_eq!(e.container_title.as_deref(), Some("Session title"));
    assert_eq!(e.series_title.as_deref(), Some("Society conference"));
    assert_eq!(e.date.as_ref().map(|d| d.value.clone()), Some("2013-05".to_string()));
}

#[test]
fn test_parse_csl_json_entry_dictionary_preserves_dictionary_type() {
    let mut legacy = base("entry-dictionary");
    legacy.id = "oed-entry".to_string();
    legacy.title = Some("hootenanny, n.".to_string());
    legacy.container_title = Some("Oxford English Dictionary".to_string());
    legacy.issued = Some(LegacyDate { literal: None, date_parts: Some(vec![vec![2025, 6]]), circa: None, raw: None });
    assert_eq!(input_reference_from_legacy(&legacy).reference.ref_type(), "entry-dictionary");
}

#[test]
fn test_parse_csl_json_entry_dictionary_preserves_status() {
    let mut legacy = base("entry-dictionary");
    legacy.id = "oed-entry".to_string();
    legacy.title = Some("hootenanny, n.".to_string());
    legacy.container_title = Some("Oxford English Dictionary".to_string());
    legacy.issued = Some(LegacyDate { literal: None, date_parts: Some(vec![vec![2025, 6]]), circa: None, raw: None });
    legacy.extra = vec![("status".to_string(), text("last modified"))];
    let converted = input_reference_from_legacy(&legacy).reference;
    assert_eq!(converted.ref_type(), "entry-dictionary");
    let c = component(converted);
    assert_eq!(c.status.as_deref(), Some("last modified"));
}

#[test]
fn test_parse_csl_json_entry_encyclopedia_preserves_encyclopedia_type() {
    let mut legacy = base("entry-encyclopedia");
    legacy.id = "vasari-entry".to_string();
    legacy.title = Some("Renaissance Art and Culture".to_string());
    legacy.container_title = Some("Encyclopedia of World History".to_string());
    legacy.publisher = Some("Oxford University Press".to_string());
    legacy.page = Some("234-256".to_string());
    legacy.issued = year(2022);
    assert_eq!(input_reference_from_legacy(&legacy).reference.ref_type(), "entry-encyclopedia");
}

#[test]
fn test_parse_csl_json_containerless_article_maps_to_preprint() {
    let mut legacy = base("article");
    legacy.id = "preprint-article".to_string();
    legacy.title = Some("Preprint with archive".to_string());
    legacy.publisher = Some("PsyArXiv".to_string());
    legacy.number = Some("123445".to_string());
    legacy.editor = Some(vec![person("Editor", "A. A.")]);
    legacy.issued = year(2018);
    let m = monograph(input_reference_from_legacy(&legacy).reference);
    assert_eq!(m.kind, MonographType::Preprint);
    assert_eq!(m.publisher.as_ref().map(|p| p.name.clone()), Some("PsyArXiv".to_string()));
    assert!(m.numbering.iter().any(|n| n.kind == NumberingType::Report && n.value == "123445"));
}

#[test]
fn test_parse_csl_bill_record_prefers_container_title_as_title() {
    let mut legacy = base("bill");
    legacy.id = "bill-record".to_string();
    legacy.title = None;
    legacy.container_title = Some("Cong. Rec.".to_string());
    legacy.volume = Some("147".to_string());
    legacy.page = Some("19000".to_string());
    legacy.number = Some("438".to_string());
    legacy.issued = year(2001);
    let m = monograph(input_reference_from_legacy(&legacy).reference);
    assert_eq!(m.kind, MonographType::Document);
    assert_eq!(m.genre.as_deref(), Some("bill-record"));
    assert_eq!(m.title, Some(Title::Single("Cong. Rec.".to_string())));
    assert_eq!(m.number.as_deref(), Some("19000"));
    assert_eq!(m.volume.as_deref(), Some("147"));
}

#[test]
fn test_parse_csl_bill_proceeding_uses_number_as_surrogate_title() {
    let mut legacy = base("bill");
    legacy.id = "bill-proceeding".to_string();
    legacy.title = None;
    legacy.authority = Some("34th Cong.".to_string());
    legacy.chapter_number = Some("3d Sess.".to_string());
    legacy.number = Some("149".to_string());
    legacy.issued = year(1856);
    let m = monograph(input_reference_from_legacy(&legacy).reference);
    assert_eq!(m.kind, MonographType::Document);
    assert_eq!(m.genre.as_deref(), Some("bill-proceeding"));
    assert_eq!(m.title, Some(Title::Single("149".to_string())));
}

#[test]
fn conversion_hydrates_structured_archive_info_from_legacy_fields() {
    let mut legacy = base("manuscript");
    legacy.id = "archive-manuscript".to_string();
    legacy.title = Some("Letter from the archive".to_string());
    legacy.issued = None;
    legacy.archive = Some("Houghton Library".to_string());
    legacy.archive_location = Some("MS Am 1280, Box 12, Folder 4".to_string());
    legacy.extra = vec![("archive_collection".to_string(), text("Ada Lovelace Papers"))];
    let m = monograph(input_reference_from_legacy(&legacy).reference);
    let info = m.archive_info.expect("archive info should be hydrated");
    assert_eq!(info.name, Some(MultilingualString::Simple("Houghton Library".to_string())));
    assert_eq!(info.location, Some("MS Am 1280, Box 12, Folder 4".to_string()));
    assert_eq!(info.collection.as_deref(), Some("Ada Lovelace Papers"));
    assert_eq!(m.archive, None);
    assert_eq!(m.archive_location, Some("MS Am 1280, Box 12, Folder 4".to_string()));
    assert_eq!(m.note, None);
}

#[test]
fn conversion_retains_av_interview_metadata() {
    let mut legacy = base("interview");
    legacy.id = "av-interview".to_string();
    legacy.title = Some("The Future of Artificial Intelligence".to_string());
    legacy.genre = Some("video-interview".to_string());
    legacy.medium = Some("television".to_string());
    legacy.url = Some("https://example.com/interview".to_string());
    legacy.issued = full_date(2023, 11, 10);
    let converted = input_reference_from_legacy(&legacy).reference;
    assert_eq!(converted.ref_type(), "interview");
    assert_eq!(converted.genre(), Some("video-interview".to_string()));
    assert_eq!(converted.medium(), Some("television".to_string()));
}

#[test]
fn conversion_preserves_unpublished_manuscript_descriptor() {
    let mut legacy = base("manuscript");
    legacy.id = "submitted-manuscript".to_string();
    legacy.title = Some("Emotion recognition as a function of facial cues".to_string());
    legacy.genre = Some("Manuscript submitted for publication".to_string());
    legacy.extra = vec![("status".to_string(), text("submitted for publication"))];
    legacy.publisher = Some("Department of Psychology, University of Washington".to_string());
    legacy.issued = year(2019);
    let converted = input_reference_from_legacy(&legacy).reference;
    assert_eq!(converted.ref_type(), "manuscript");
    assert_eq!(converted.genre(), Some("manuscript-submitted-for-publication".to_string()));
    assert_eq!(
        converted.publisher_str(),
        Some("Department of Psychology, University of Washington".to_string())
    );
}

#[test]
fn conversion_promotes_paper_conference_event_metadata() {
    let mut legacy = base("paper-conference");
    legacy.id = "conf-paper".to_string();
    legacy.title = Some("Advances in Citation Styling".to_string());
    legacy.container_title = Some("Proceedings of the Annual Symposium".to_string());
    legacy.extra = vec![
        ("event-title".to_string(), text("Annual Symposium on Information Science")),
        ("event-place".to_string(), text("Chicago, IL")),
    ];
    legacy.issued = full_date(2023, 6, 15);
    let c = component(input_reference_from_legacy(&legacy).reference);
    assert_eq!(c.container.kind, ParentKind::Proceedings);
    assert_eq!(c.container.event_title.as_deref(), Some("Annual Symposium on Information Science"));
    assert_eq!(c.container.event_place.as_deref(), Some("Chicago, IL"));
}

#[test]
fn conversion_paper_conference_without_event_fields_has_no_event() {
    let mut legacy = base("paper-conference");
    legacy.id = "conf-paper-no-event".to_string();
    legacy.title = Some("A Paper Without Event Metadata".to_string());
    legacy.container_title = Some("Conference Proceedings".to_string());
    legacy.issued = year(2022);
    let c = component(input_reference_from_legacy(&legacy).reference);
    assert_eq!(c.container.event_title, None);
    assert_eq!(c.container.event_place, None);
    assert_eq!(c.container.event_date, None);
}

fn minimal_reference(ref_type: &str) -> LegacyReference {
    let mut legacy = base(ref_type);
    legacy.id = format!("contract-{ref_type}");
    legacy.title = Some("Contract Test Title".to_string());
    legacy
}

#[test]
fn every_csl_1_0_2_type_round_trips_through_ref_type() {
    let failures: Vec<String> = csl_type_map()
        .iter()
        .filter_map(|row| {
            let legacy = minimal_reference(row.csl_type);
            let actual = input_reference_from_legacy(&legacy).reference.ref_type();
            if actual != row.citum_ref_type {
                Some(format!("{}: expected `{}`, got `{actual}`", row.csl_type, row.citum_ref_type))
            } else {
                None
            }
        })
        .collect();
    assert!(failures.is_empty(), "CSL type round-trip mismatches:\n{}", failures.join("\n"));
}

#[test]
fn map_with_capitalized_export_genre_still_round_trips_as_map() {
    let mut legacy = minimal_reference("map");
    legacy.genre = Some("Map".to_string());
    let converted = input_reference_from_legacy(&legacy).reference;
    assert_eq!(converted.ref_type(), "map");
}

#[test]
fn report_number_accessor_stays_separate_from_generic_number() {
    let mut legacy = base("report");
    legacy.title = Some("Report".to_string());
    legacy.number = Some("TR-42".to_string());
    let reference = input_reference_from_legacy(&legacy).reference;
    assert_eq!(reference.number(), None);
    assert_eq!(reference.report_number(), Some("TR-42".to_string()));
}

fn score_with_movement() -> ConvertedReference {
    let mut legacy = base("book");
    legacy.title = Some("Score".to_string());
    let mut m = monograph(input_reference_from_legacy(&legacy).reference);
    m.numbering = vec![Numbering { kind: NumberingType::Custom("movement".to_string()), value: "II".to_string() }];
    ConvertedReference::Monograph(m)
}

#[test]
fn numbering_value_accessor_resolves_custom_numbering_without_changing_builtin_accessors() {
    let reference = score_with_movement();
    assert_eq!(
        reference.numbering_value(&NumberingType::Custom("movement".to_string())),
        Some("II".to_string())
    );
    assert_eq!(reference.number(), None);
    assert_eq!(reference.report_number(), None);
}

#[test]
fn numbering_value_accessor_normalizes_manual_custom_numbering_keys() {
    let reference = score_with_movement();
    assert_eq!(
        reference.numbering_value(&NumberingType::Custom("Movement".to_string())),
        Some("II".to_string())
    );
}

fn person(family: &str, given: &str) -> NameParts {
    NameParts {
        literal: None,
        given: Some(given.to_string()),
        family: Some(family.to_string()),
        suffix: None,
        dropping_particle: None,
        non_dropping_particle: None,
    }
}
