use citum_schema_data::contributor::{
    collect_contributors_by_role, contributor_from_names, fold_contributors,
    merge_legacy_contributor_role, push_legacy_contributor, Contributor, ContributorEntry,
    ContributorRole, StructuredName,
};
use citum_schema_data::conversion::{LegacyDate, NameParts};
use citum_schema_data::date::DateValue;
use citum_schema_data::legacy::{input_reference_from_legacy, ConvertedReference, LegacyExtraValue, LegacyReference};
use citum_schema_data::relation::{
    relation_collection_title, relation_event, relation_monograph, CollectionRelation, EventRelation,
    MonographRelation, WorkRelation,
};
use citum_schema_data::types::{AudioVisualType, Publisher, Title};

fn person(family: &str, given: &str) -> NameParts {
    NameParts {
        literal: None,
        given: Some(given.to_string()),
        family: Some(family.to_string()),
        suffix: None,
        dropping_particle: None,
        non_dropping_particle: None,
    }
}

fn structured(family: &str, given: &str) -> Contributor {
    Contributor::StructuredName(StructuredName {
        given: given.to_string(),
        family: family.to_string(),
        suffix: None,
        dropping_particle: None,
        non_dropping_particle: None,
    })
}

fn names(v: &[(&str, &str)]) -> LegacyExtraValue {
    LegacyExtraValue::Names(v.iter().map(|(f, g)| person(f, g)).collect())
}

fn base(ref_type: &str) -> LegacyReference {
    LegacyReference {
        id: "item-1".to_string(),
        ref_type: ref_type.to_string(),
        title: Some("A Title".to_string()),
        container_title: None,
        collection_title: None,
        author: None,
        editor: None,
        translator: None,
        director: None,
        contributor: None,
        recipient: None,
        interviewer: None,
        original_title: None,
        issued: Some(LegacyDate { literal: None, date_parts: Some(vec![vec![2024]]), circa: None, raw: None }),
        accessed: None,
        url: None,
        language: None,
        note: None,
        doi: None,
        isbn: None,
        edition: None,
        volume: None,
        collection_number: None,
        number: None,
        issue: None,
        issn: None,
        dimensions: None,
        chapter_number: None,
        genre: None,
        medium: None,
        publisher: None,
        publisher_place: None,
        authority: None,
        section: None,
        archive: None,
        archive_location: None,
        page: None,
        extra: vec![],
    }
}

fn entry(role: ContributorRole, c: Contributor) -> ContributorEntry {
    ContributorEntry { roles: vec![role], contributor: c }
}

fn role_count(entries: &[ContributorEntry], role: &ContributorRole) -> usize {
    entries.iter().filter(|e| e.roles.contains(role)).count()
}

#[test]
fn legacy_names_become_a_contributor_list() {
    let c = contributor_from_names(&vec![
        NameParts { literal: Some("ACME Corp".to_string()), ..person("", "") },
        NameParts { given: Some("  ".to_string()), ..person("Plato", "") },
        person("Le Guin", " Ursula "),
    ]);
    assert_eq!(
        c,
        Contributor::ContributorList(vec![
            Contributor::SimpleName("ACME Corp".to_string()),
            Contributor::SimpleName("Plato".to_string()),
            structured("Le Guin", "Ursula"),
        ])
    );
}

#[test]
fn collecting_by_role_gives_none_one_or_a_list() {
    let entries = vec![
        entry(ContributorRole::Author, structured("A", "B")),
        entry(ContributorRole::Editor, structured("C", "D")),
        entry(ContributorRole::Author, structured("E", "F")),
    ];
    assert_eq!(collect_contributors_by_role(&entries, &ContributorRole::Translator), None);
    assert_eq!(collect_contributors_by_role(&entries, &ContributorRole::Editor), Some(structured("C", "D")));
    assert_eq!(
        collect_contributors_by_role(&entries, &ContributorRole::Author),
        Some(Contributor::ContributorList(vec![structured("A", "B"), structured("E", "F")]))
    );
}

#[test]
fn merging_a_role_into_a_list_member_splits_the_list() {
    let mut entries = vec![
        entry(ContributorRole::Recipient, structured("Solo", "S")),
        entry(
            ContributorRole::Author,
            Contributor::ContributorList(vec![structured("A", "B"), structured("C", "D"), structured("E", "F")]),
        ),
    ];
    assert!(merge_legacy_contributor_role(&mut entries, 1, Some(1), &ContributorRole::Editor));
    assert_eq!(entries.len(), 4);
    assert_eq!(entries[1].contributor, Contributor::ContributorList(vec![structured("A", "B")]));
    assert_eq!(entries[1].roles, vec![ContributorRole::Author]);
    assert_eq!(entries[2].contributor, structured("C", "D"));
    assert_eq!(entries[2].roles, vec![ContributorRole::Author, ContributorRole::Editor]);
    assert_eq!(entries[3].contributor, Contributor::ContributorList(vec![structured("E", "F")]));
    assert!(merge_legacy_contributor_role(&mut entries, 0, None, &ContributorRole::Author));
    assert_eq!(entries[0].roles, vec![ContributorRole::Recipient, ContributorRole::Author]);
    assert!(!merge_legacy_contributor_role(&mut entries, 9, None, &ContributorRole::Author));
    assert!(!merge_legacy_contributor_role(&mut entries, 0, Some(0), &ContributorRole::Author));
    assert_eq!(entries.len(), 4);
}

#[test]
fn pushing_names_merges_the_known_and_groups_the_rest() {
    let mut entries = Vec::new();
    push_legacy_contributor(&mut entries, &ContributorRole::Author, &Some(vec![person("Smith", "Alice"), person("Jones", "Bob")]));
    assert_eq!(entries.len(), 1);
    push_legacy_contributor(&mut entries, &ContributorRole::Editor, &Some(vec![person(" Jones ", "Bob"), person("New", "Nina")]));
    assert_eq!(entries.len(), 3);
    assert_eq!(entries[0].contributor, Contributor::ContributorList(vec![structured("Smith", "Alice")]));
    assert_eq!(entries[1].roles, vec![ContributorRole::Author, ContributorRole::Editor]);
    assert_eq!(entries[1].contributor, structured("Jones", "Bob"));
    assert_eq!(entries[2].roles, vec![ContributorRole::Editor]);
    assert_eq!(entries[2].contributor, structured("New", "Nina"));
    push_legacy_contributor(&mut entries, &ContributorRole::Translator, &None);
    assert_eq!(entries.len(), 3);
}

#[test]
fn test_monograph_fold_author_shorthand() {
    let folded = fold_contributors(Vec::new(), &vec![(ContributorRole::Author, Some(structured("Kuhn", "Thomas")))]);
    assert_eq!(role_count(&folded, &ContributorRole::Author), 1);
}

#[test]
fn test_monograph_fold_dedup() {
    let existing = vec![entry(ContributorRole::Author, structured("Smith", "Alice"))];
    let folded = fold_contributors(existing, &vec![(ContributorRole::Author, Some(structured("Smith", "Alice")))]);
    assert_eq!(role_count(&folded, &ContributorRole::Author), 1);
}

#[test]
fn test_monograph_contributor_shorthand_folding() {
    let existing = vec![entry(ContributorRole::Interviewer, structured("Young-Bruehl", "Elisabeth"))];
    let folded = fold_contributors(
        existing,
        &vec![(ContributorRole::Author, Some(structured("Arendt", "Hannah"))), (ContributorRole::Editor, None)],
    );
    assert_eq!(folded.len(), 2);
    assert_eq!(collect_contributors_by_role(&folded, &ContributorRole::Author), Some(structured("Arendt", "Hannah")));
    assert_eq!(
        collect_contributors_by_role(&folded, &ContributorRole::Interviewer),
        Some(structured("Young-Bruehl", "Elisabeth"))
    );
}

#[test]
fn test_parse_csl_json_structural_author_populates_canonical_contributors() {
    let mut legacy = base("book");
    legacy.id = "legacy-book".to_string();
    legacy.title = Some("The Left Hand of Darkness".to_string());
    legacy.author = Some(vec![person("Le Guin", "Ursula")]);
    let reference = input_reference_from_legacy(&legacy).reference;
    assert!(reference.contributor(&ContributorRole::Author).is_some());
    match reference {
        ConvertedReference::Monograph(m) => assert!(m.contributors.iter().any(|e| e.roles.contains(&ContributorRole::Author))),
        other => panic!("expected monograph, got {other:?}"),
    }
}

#[test]
fn test_monograph_author_accessor_reads_canonical_contributors() {
    let mut legacy = base("book");
    legacy.author = Some(vec![person("Le Guin", "Ursula")]);
    let reference = input_reference_from_legacy(&legacy).reference;
    assert_eq!(reference.author(), Some(structured("Le Guin", "Ursula")));
}

fn check_dedupes_extra_role_pushes() {
    let mut legacy = base("book");
    legacy.id = "book-3".to_string();
    legacy.title = Some("Role Dedup".to_string());
    legacy.extra = vec![
        ("composer".to_string(), names(&[("Glass", "Philip")])),
        ("producer".to_string(), names(&[("Jones", "Quincy")])),
        ("executive-producer".to_string(), names(&[("Jones", "Quincy")])),
    ];
    match input_reference_from_legacy(&legacy).reference {
        ConvertedReference::Monograph(m) => {
            assert_eq!(role_count(&m.contributors, &ContributorRole::Composer), 1);
            assert_eq!(role_count(&m.contributors, &ContributorRole::Producer), 1);
        }
        other => panic!("expected monograph, got {other:?}"),
    }
}

#[test]
fn mod_legacy_monograph_dedupes_extra_role_pushes() {
    check_dedupes_extra_role_pushes();
}

#[test]
fn conversion_legacy_monograph_dedupes_extra_role_pushes() {
    check_dedupes_extra_role_pushes();
}

fn check_executive_producer() {
    let mut legacy = base("broadcast");
    legacy.id = "broadcast-1".to_string();
    legacy.title = Some("Episode".to_string());
    legacy.extra = vec![("executive-producer".to_string(), names(&[("Rhimes", "Shonda")]))];
    match input_reference_from_legacy(&legacy).reference {
        ConvertedReference::SerialComponent(c) => {
            assert!(c.contributors.iter().any(|e| e.roles.contains(&ContributorRole::Producer)))
        }
        other => panic!("expected serial component, got {other:?}"),
    }
}

#[test]
fn mod_legacy_broadcast_maps_executive_producer_to_producer() {
    check_executive_producer();
}

#[test]
fn conversion_legacy_broadcast_maps_executive_producer_to_producer() {
    check_executive_producer();
}

#[test]
fn test_serial_component_author_falls_back_to_producer_for_av_like_broadcasts() {
    let mut legacy = base("broadcast");
    legacy.id = "the-wire".to_string();
    legacy.title = Some("The wire".to_string());
    legacy.issued = None;
    legacy.medium = Some("TV series".to_string());
    legacy.extra = vec![("executive-producer".to_string(), names(&[("Simon", "D."), ("Colesberry", "R.F.")]))];
    let reference = input_reference_from_legacy(&legacy).reference;
    match reference.author() {
        Some(Contributor::ContributorList(list)) => assert_eq!(list.len(), 2),
        other => panic!("expected contributor list fallback, got {other:?}"),
    }
    let mut legacy = base("broadcast");
    legacy.extra = vec![("executive-producer".to_string(), names(&[("Simon", "D.")]))];
    assert_eq!(input_reference_from_legacy(&legacy).reference.author(), None);
}

#[test]
fn test_audio_visual_broadcast_author_falls_back_to_author_contributor() {
    let mut legacy = base("motion_picture");
    legacy.title = Some("Who shot Mr. Burns? (Part one)".to_string());
    legacy.author = Some(vec![person("Lynch", "J.")]);
    legacy.extra = vec![("producer".to_string(), names(&[("Mirkin", "David")]))];
    match input_reference_from_legacy(&legacy).reference {
        ConvertedReference::AudioVisual(mut w) => {
            w.kind = AudioVisualType::Broadcast;
            let r = ConvertedReference::AudioVisual(w);
            assert_eq!(r.author(), Some(structured("Lynch", "J.")));
        }
        other => panic!("expected audio-visual work, got {other:?}"),
    }
}

#[test]
fn film_author_falls_back_to_its_director_and_song_authors_are_performers() {
    let mut legacy = base("motion_picture");
    legacy.director = Some(vec![person("Bong", "Joon-ho")]);
    let r = input_reference_from_legacy(&legacy).reference;
    assert_eq!(r.author(), Some(structured("Bong", "Joon-ho")));
    let mut legacy = base("song");
    legacy.author = Some(vec![person("Simone", "Nina")]);
    let r = input_reference_from_legacy(&legacy).reference;
    assert!(r.contributor(&ContributorRole::Performer).is_some());
    assert_eq!(r.contributor(&ContributorRole::Author), None);
}

fn check_original_relation() {
    let mut legacy = base("book");
    legacy.id = "book-2".to_string();
    legacy.title = Some("Translated Book".to_string());
    legacy.original_title = Some("Original Book".to_string());
    legacy.extra = vec![
        ("original-author".to_string(), names(&[("Woolf", "Virginia")])),
        (
            "original-date".to_string(),
            LegacyExtraValue::Date(LegacyDate { literal: None, date_parts: Some(vec![vec![1925]]), circa: None, raw: None }),
        ),
    ];
    match input_reference_from_legacy(&legacy).reference {
        ConvertedReference::Monograph(m) => match m.original {
            Some(WorkRelation::Monograph(o)) => {
                assert_eq!(o.title, Some(Title::Single("Original Book".to_string())));
                assert_eq!(o.issued, DateValue::new("1925".to_string()));
                assert!(o.author.is_some());
            }
            other => panic!("expected embedded original, got {other:?}"),
        },
        other => panic!("expected monograph, got {other:?}"),
    }
}

#[test]
fn mod_legacy_monograph_original_relation_uses_original_author_and_date() {
    check_original_relation();
}

#[test]
fn conversion_legacy_monograph_original_relation_uses_original_author_and_date() {
    check_original_relation();
}

#[test]
fn relations_are_absent_without_fields_and_carry_what_they_are_given() {
    assert_eq!(relation_monograph(None, None, None, None, None, None), None);
    assert_eq!(
        relation_monograph(None, None, None, None, None, Some("Paris".to_string())),
        Some(WorkRelation::Monograph(MonographRelation {
            title: None,
            author: None,
            issued: DateValue::new(String::new()),
            genre: None,
            publisher: Some(Publisher { name: String::new(), place: Some("Paris".to_string()) }),
            series: None,
        }))
    );
    assert_eq!(relation_event(None, None, None), None);
    assert_eq!(
        relation_event(Some("Symposium".to_string()), None, None),
        Some(WorkRelation::Event(EventRelation {
            title: Some(Title::Single("Symposium".to_string())),
            location: None,
            date: None,
        }))
    );
    assert_eq!(relation_collection_title(None), None);
    assert_eq!(
        relation_collection_title(Some("Series".to_string())),
        Some(WorkRelation::Collection(CollectionRelation { title: Title::Single("Series".to_string()) }))
    );
}

#[test]
fn monograph_event_relation_comes_from_extra_fields() {
    let mut legacy = base("book");
    legacy.extra = vec![("event-title".to_string(), LegacyExtraValue::Text("Congress".to_string()))];
    match input_reference_from_legacy(&legacy).reference {
        ConvertedReference::Monograph(m) => assert_eq!(
            m.event,
            Some(WorkRelation::Event(EventRelation {
                title: Some(Title::Single("Congress".to_string())),
                location: None,
                date: None,
            }))
        ),
        other => panic!("expected monograph, got {other:?}"),
    }
}

#[test]
fn chapter_editor_belongs_to_a_named_parent() {
    let mut legacy = base("chapter");
    legacy.container_title = Some("Edited Volume".to_string());
    legacy.editor = Some(vec![person("Editor", "S. S.")]);
    legacy.translator = Some(vec![person("Editor", "S. S.")]);
    legacy.author = Some(vec![person("Author", "First A.")]);
    let r = input_reference_from_legacy(&legacy).reference;
    assert_eq!(r.editor(), Some(structured("Editor", "S. S.")));
    assert!(r.translator().is_some());
    match r {
        ConvertedReference::CollectionComponent(c) => {
            assert_eq!(role_count(&c.contributors, &ContributorRole::Editor), 0);
            assert_eq!(role_count(&c.container.contributors, &ContributorRole::Editor), 1);
        }
        other => panic!("expected collection component, got {other:?}"),
    }
    let mut legacy = base("chapter");
    legacy.editor = Some(vec![person("Editor", "S. S.")]);
    legacy.page = Some("1-2".to_string());
    match input_reference_from_legacy(&legacy).reference {
        ConvertedReference::CollectionComponent(c) => {
            assert_eq!(role_count(&c.contributors, &ContributorRole::Editor), 1);
            assert_eq!(c.container.editor, None);
        }
        other => panic!("expected collection component, got {other:?}"),
    }
}

#[test]
fn event_performers_and_organizer() {
    let mut legacy = base("speech");
    legacy.author = Some(vec![person("Speaker", "S.")]);
    legacy.publisher = Some("Society".to_string());
    legacy.extra = vec![("chair".to_string(), names(&[("Chair", "First"), ("Chair", "Second")]))];
    let r = input_reference_from_legacy(&legacy).reference;
    assert_eq!(r.author(), Some(structured("Speaker", "S.")));
    assert!(r.contributor(&ContributorRole::Unknown("chair".to_string())).is_some());
    assert_eq!(
        r.contributor(&ContributorRole::Unknown("organizer".to_string())),
        Some(Contributor::SimpleName("Society".to_string()))
    );
}

#[test]
fn conversion_chapter_without_named_parent_keeps_volume_but_avoids_empty_container_editor_group() {
    let mut legacy = base("chapter");
    legacy.id = "6188419/4JYXEPMY".to_string();
    legacy.title = Some("27a Book chapter".to_string());
    legacy.doi = Some("10.1234/5678".to_string());
    legacy.edition = Some("2".to_string());
    legacy.language = Some("en".to_string());
    legacy.page = Some("123-128".to_string());
    legacy.publisher = Some("Publisher".to_string());
    legacy.publisher_place = Some("Place, ST".to_string());
    legacy.url = Some("http://example.com".to_string());
    legacy.volume = Some("2".to_string());
    legacy.translator = Some(vec![person("Editor", "S. S.")]);
    legacy.editor = Some(vec![person("Editor", "S. S.")]);
    legacy.author = Some(vec![person("Author", "First A.")]);
    legacy.original_title = Some("Original title".to_string());
    legacy.extra = vec![
        ("container-title-short".to_string(), LegacyExtraValue::Text("Title of book".to_string())),
        (
            "original-date".to_string(),
            LegacyExtraValue::Date(LegacyDate { literal: None, date_parts: Some(vec![vec![1901]]), circa: None, raw: None }),
        ),
    ];
    match input_reference_from_legacy(&legacy).reference {
        ConvertedReference::CollectionComponent(c) => {
            assert!(c.translator.is_some());
            assert_eq!(c.edition.as_deref(), Some("2"));
            assert!(c.original.is_some());
            assert!(c.contributors.iter().any(|e| e.roles.contains(&ContributorRole::Editor)));
            assert!(c.container.title.is_none());
            assert!(c.container.editor.is_none());
            assert!(c.container.contributors.iter().all(|e| !e.roles.contains(&ContributorRole::Editor)));
            assert!(c
                .container
                .numbering
                .iter()
                .any(|n| n.kind == citum_schema_data::types::NumberingType::Volume && n.value == "2"));
        }
        other => panic!("expected collection component, got {other:?}"),
    }
}

#[test]
fn serial_editor_is_the_serials_and_a_container_author_marks_a_reviewed_work() {
    let mut legacy = base("article-journal");
    legacy.container_title = Some("Journal".to_string());
    legacy.editor = Some(vec![person("Gladwell", "Malcolm")]);
    legacy.extra = vec![("container-author".to_string(), names(&[("Holder", "Ann")]))];
    let r = input_reference_from_legacy(&legacy).reference;
    assert_eq!(r.editor(), Some(structured("Gladwell", "Malcolm")));
    match r {
        ConvertedReference::SerialComponent(c) => {
            assert!(c.container.contributors.iter().all(|e| !e.roles.contains(&ContributorRole::Author)));
            assert!(c.container.contributors.iter().any(|e| e.roles.contains(&ContributorRole::Editor)));
        }
        other => panic!("expected serial component, got {other:?}"),
    }
}

#[test]
fn a_book_sits_in_its_volume_and_series() {
    let mut legacy = base("book");
    legacy.container_title = Some("Collected Works".to_string());
    legacy.collection_title = Some("Library Series".to_string());
    legacy.extra = vec![("volume-title".to_string(), LegacyExtraValue::Text("Volume Two".to_string()))];
    match input_reference_from_legacy(&legacy).reference {
        ConvertedReference::Monograph(m) => match m.container {
            Some(WorkRelation::Monograph(p)) => {
                assert_eq!(p.title, Some(Title::Single("Volume Two".to_string())));
                assert_eq!(p.series, Some(CollectionRelation { title: Title::Single("Library Series".to_string()) }));
            }
            other => panic!("expected a parent monograph, got {other:?}"),
        },
        other => panic!("expected monograph, got {other:?}"),
    }
    let mut legacy = base("book");
    legacy.collection_title = Some("Library Series".to_string());
    match input_reference_from_legacy(&legacy).reference {
        ConvertedReference::Monograph(m) => match m.container {
            Some(WorkRelation::Monograph(p)) => {
                assert_eq!(p.title, None);
                assert!(p.series.is_some());
            }
            other => panic!("expected a title-less parent, got {other:?}"),
        },
        other => panic!("expected monograph, got {other:?}"),
    }
    match input_reference_from_legacy(&base("book")).reference {
        ConvertedReference::Monograph(m) => assert_eq!(m.container, None),
        other => panic!("expected monograph, got {other:?}"),
    }
}

#[test]
fn contributor_entries_are_those_playing_the_role() {
    let mut legacy = base("book");
    legacy.author = Some(vec![person("Smith", "Alice")]);
    legacy.editor = Some(vec![person("Smith", "Alice"), person("Other", "Oscar")]);
    let r = input_reference_from_legacy(&legacy).reference;
    let editors = r.contributor_entries(&ContributorRole::Editor);
    assert_eq!(editors.len(), 2);
    assert_eq!(editors[0].roles, vec![ContributorRole::Author, ContributorRole::Editor]);
    assert_eq!(editors[1].contributor, structured("Other", "Oscar"));
    assert_eq!(
        r.contributor(&ContributorRole::Editor),
        Some(Contributor::ContributorList(vec![
            structured("Smith", "Alice"),
            structured("Other", "Oscar"),
        ]))
    );
    assert_eq!(r.editor(), r.contributor(&ContributorRole::Editor));
    assert!(r.contributor_entries(&ContributorRole::Translator).is_empty());
}
