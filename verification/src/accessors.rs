//! The CSL item type (`ref_type`) that a reference renders as.
//!
//! Each class decides its type from its subtype and, where the subtype leaves
//! it open, from its genre, medium or container.

use vstd::prelude::*;

use crate::classes::ReferenceClass;
use crate::conversion::{ascii_lowercase, contains_seq, lowercase_contains};
use crate::reference::{genre_key, normalize_genre_medium};
use crate::text::{owned, str_eq};
use crate::types::{CollectionType, MonographComponentType, MonographType, SerialType};

verus! {

/// Whether `s` mentions `needle` in any ASCII case.
pub open spec fn mentions(s: Option<Seq<char>>, needle: Seq<char>) -> bool {
    s matches Some(t) && contains_seq(ascii_lowercase(t), needle)
}

/// The optional text of an optional string slice.
pub open spec fn opt_str(s: Option<&str>) -> Option<Seq<char>> {
    match s {
        Some(t) => Some(t@),
        None => None,
    }
}

/// Whether an optional string mentions `needle` in any ASCII case.
pub fn mentions_exec(s: Option<&str>, needle: &str) -> (r: bool)
    ensures
        r == mentions(opt_str(s), needle@),
{
    match s {
        Some(t) => lowercase_contains(t, needle),
        None => false,
    }
}

/// The type of an event: from its genre, a conference or paper is a
/// `paper-conference`, a broadcast a `broadcast`, a talk or speech a `speech`,
/// and anything else an `event`.
pub open spec fn event_type_name(genre: Option<Seq<char>>) -> Seq<char> {
    if mentions(genre, "conference"@) || mentions(genre, "paper"@) {
        "paper-conference"@
    } else if mentions(genre, "broadcast"@) {
        "broadcast"@
    } else if mentions(genre, "talk"@) || mentions(genre, "speech"@) {
        "speech"@
    } else {
        "event"@
    }
}

/// An event's type follows its genre, read in any ASCII case: a genre that
/// mentions a conference or a paper makes a `paper-conference`; else one
/// that mentions a broadcast, a `broadcast`; else one that mentions a talk
/// or a speech, a `speech`; any other genre, or none, an `event`.
pub proof fn lemma_event_type_from_genre(genre: Option<Seq<char>>)
    ensures
        genre matches Some(g) && (contains_seq(ascii_lowercase(g), "conference"@) || contains_seq(ascii_lowercase(g), "paper"@))
            ==> event_type_name(genre) == "paper-conference"@,
        genre matches Some(g) && !contains_seq(ascii_lowercase(g), "conference"@) && !contains_seq(ascii_lowercase(g), "paper"@)
            && contains_seq(ascii_lowercase(g), "broadcast"@) ==> event_type_name(genre) == "broadcast"@,
        genre matches Some(g) && !contains_seq(ascii_lowercase(g), "conference"@) && !contains_seq(ascii_lowercase(g), "paper"@)
            && !contains_seq(ascii_lowercase(g), "broadcast"@)
            && (contains_seq(ascii_lowercase(g), "talk"@) || contains_seq(ascii_lowercase(g), "speech"@))
            ==> event_type_name(genre) == "speech"@,
        genre matches Some(g) && !contains_seq(ascii_lowercase(g), "conference"@) && !contains_seq(ascii_lowercase(g), "paper"@)
            && !contains_seq(ascii_lowercase(g), "broadcast"@) && !contains_seq(ascii_lowercase(g), "talk"@)
            && !contains_seq(ascii_lowercase(g), "speech"@) ==> event_type_name(genre) == "event"@,
        genre is None ==> event_type_name(genre) == "event"@,
{
}

/// The type of an event with the given genre.
pub fn event_ref_type(genre: Option<&str>) -> (r: &'static str)
    ensures
        r@ == event_type_name(opt_str(genre)),
{
    if mentions_exec(genre, "conference") || mentions_exec(genre, "paper") {
        "paper-conference"
    } else if mentions_exec(genre, "broadcast") {
        "broadcast"
    } else if mentions_exec(genre, "talk") || mentions_exec(genre, "speech") {
        "speech"
    } else {
        "event"
    }
}

/// The type of a component of a monographic collection: a chapter is a
/// dictionary or encyclopedia entry when its genre says so, and a document
/// component is a conference paper.
pub open spec fn collection_component_type_name(kind: MonographComponentType, genre: Option<Seq<char>>) -> Seq<char> {
    match kind {
        MonographComponentType::Chapter => if genre == Some("entry-dictionary"@) {
            "entry-dictionary"@
        } else if genre == Some("entry-encyclopedia"@) {
            "entry-encyclopedia"@
        } else {
            "chapter"@
        },
        MonographComponentType::Document => "paper-conference"@,
    }
}

/// Whether an optional string is exactly `t`.
fn is_exactly(s: Option<&str>, t: &str) -> (r: bool)
    ensures
        r == (opt_str(s) == Some(t@)),
{
    match s {
        Some(v) => str_eq(v, t),
        None => false,
    }
}

/// The type of a component of a monographic collection.
pub fn collection_component_ref_type(kind: MonographComponentType, genre: Option<&str>) -> (r: String)
    ensures
        r@ == collection_component_type_name(kind, opt_str(genre)),
{
    match kind {
        MonographComponentType::Chapter => if is_exactly(genre, "entry-dictionary") {
            owned("entry-dictionary")
        } else if is_exactly(genre, "entry-encyclopedia") {
            owned("entry-encyclopedia")
        } else {
            owned("chapter")
        },
        MonographComponentType::Document => owned("paper-conference"),
    }
}

/// The type of a component of a serial: an encyclopedia entry when its genre
/// says so; else by its embedded container's type, a magazine or newspaper
/// article, a broadcast (a motion picture when its genre mentions film), and a
/// journal article otherwise.
pub open spec fn serial_component_type_name(genre: Option<Seq<char>>, container_type: Option<Seq<char>>) -> Seq<char> {
    if genre == Some("entry-encyclopedia"@) {
        "entry-encyclopedia"@
    } else if container_type == Some("article-magazine"@) {
        "article-magazine"@
    } else if container_type == Some("article-newspaper"@) {
        "article-newspaper"@
    } else if container_type == Some("broadcast"@) {
        if mentions(genre, "film"@) { "motion-picture"@ } else { "broadcast"@ }
    } else {
        "article-journal"@
    }
}

/// The type of a component of a serial, given its genre and the type of its
/// embedded container (when the container is embedded rather than referenced).
pub fn serial_component_ref_type(genre: Option<&str>, container_type: Option<&str>) -> (r: String)
    ensures
        r@ == serial_component_type_name(opt_str(genre), opt_str(container_type)),
{
    if is_exactly(genre, "entry-encyclopedia") {
        owned("entry-encyclopedia")
    } else if is_exactly(container_type, "article-magazine") {
        owned("article-magazine")
    } else if is_exactly(container_type, "article-newspaper") {
        owned("article-newspaper")
    } else if is_exactly(container_type, "broadcast") {
        if mentions_exec(genre, "film") { owned("motion-picture") } else { owned("broadcast") }
    } else {
        owned("article-journal")
    }
}

/// The type of a collection: an edited book is a `book`, any other a `collection`.
pub open spec fn collection_type_name(kind: CollectionType) -> Seq<char> {
    match kind {
        CollectionType::EditedBook => "book"@,
        _ => "collection"@,
    }
}

/// The type of a collection.
pub fn collection_ref_type(kind: CollectionType) -> (r: &'static str)
    ensures
        r@ == collection_type_name(kind),
{
    match kind {
        CollectionType::EditedBook => "book",
        _ => "collection",
    }
}

/// The type of a serial: a journal, magazine or newspaper gives its article
/// type, a broadcast program `broadcast`, any other `serial`.
pub open spec fn serial_type_name(kind: SerialType) -> Seq<char> {
    match kind {
        SerialType::AcademicJournal => "article-journal"@,
        SerialType::Magazine => "article-magazine"@,
        SerialType::Newspaper => "article-newspaper"@,
        SerialType::BroadcastProgram => "broadcast"@,
        _ => "serial"@,
    }
}

/// The type of a serial.
pub fn serial_ref_type(kind: SerialType) -> (r: &'static str)
    ensures
        r@ == serial_type_name(kind),
{
    match kind {
        SerialType::AcademicJournal => "article-journal",
        SerialType::Magazine => "article-magazine",
        SerialType::Newspaper => "article-newspaper",
        SerialType::BroadcastProgram => "broadcast",
        _ => "serial",
    }
}

/// The type of a monograph. A book whose medium mentions an interview is an
/// `interview`. A generic document keeps a `bill-proceeding` or `bill-record`
/// genre as its type, is a `paper-conference` when its normalised genre is
/// `conference-paper`, an `interview` when its medium mentions one, and a
/// `document` otherwise. Every other subtype names its own type.
pub open spec fn monograph_type_name(kind: MonographType, medium: Option<Seq<char>>, genre: Option<Seq<char>>) -> Seq<char> {
    match kind {
        MonographType::Book => if mentions(medium, "interview"@) { "interview"@ } else { "book"@ },
        MonographType::Manual => "manual"@,
        MonographType::Report => "report"@,
        MonographType::Thesis => "thesis"@,
        MonographType::Webpage => "webpage"@,
        MonographType::Post => "post"@,
        MonographType::Interview => "interview"@,
        MonographType::Manuscript => "manuscript"@,
        MonographType::Preprint => "preprint"@,
        MonographType::PersonalCommunication => "personal-communication"@,
        MonographType::Document => {
            if genre == Some("bill-proceeding"@) || genre == Some("bill-record"@) {
                genre->0
            } else if genre is Some && genre_key(genre->0) == "conference-paper"@ {
                "paper-conference"@
            } else if mentions(medium, "interview"@) {
                "interview"@
            } else {
                "document"@
            }
        },
    }
}

/// The type of a monograph with the given subtype, medium and genre.
pub fn monograph_ref_type(kind: MonographType, medium: Option<&str>, genre: Option<&str>) -> (r: String)
    ensures
        r@ == monograph_type_name(kind, opt_str(medium), opt_str(genre)),
{
    match kind {
        MonographType::Book => if mentions_exec(medium, "interview") { owned("interview") } else { owned("book") },
        MonographType::Manual => owned("manual"),
        MonographType::Report => owned("report"),
        MonographType::Thesis => owned("thesis"),
        MonographType::Webpage => owned("webpage"),
        MonographType::Post => owned("post"),
        MonographType::Interview => owned("interview"),
        MonographType::Manuscript => owned("manuscript"),
        MonographType::Preprint => owned("preprint"),
        MonographType::PersonalCommunication => owned("personal-communication"),
        MonographType::Document => {
            if let Some(g) = genre {
                if str_eq(g, "bill-proceeding") || str_eq(g, "bill-record") {
                    return owned(g);
                }
                let normalized = normalize_genre_medium(g);
                if str_eq(normalized.as_str(), "conference-paper") {
                    return owned("paper-conference");
                }
            }
            if mentions_exec(medium, "interview") { owned("interview") } else { owned("document") }
        },
    }
}

/// The type of a reference whose class alone decides it; `None` for the
/// classes whose type depends on their subtype (monographs, components,
/// collections, serials, audio-visual works) or genre (events). An unknown
/// class names itself.
pub open spec fn class_type_name(class: ReferenceClass) -> Option<Seq<char>> {
    match class {
        ReferenceClass::LegalCase => Some("legal-case"@),
        ReferenceClass::Statute => Some("statute"@),
        ReferenceClass::Treaty => Some("treaty"@),
        ReferenceClass::Hearing => Some("hearing"@),
        ReferenceClass::Regulation => Some("regulation"@),
        ReferenceClass::Brief => Some("brief"@),
        ReferenceClass::Classic => Some("classic"@),
        ReferenceClass::Patent => Some("patent"@),
        ReferenceClass::Dataset => Some("dataset"@),
        ReferenceClass::Standard => Some("standard"@),
        ReferenceClass::Software => Some("software"@),
        ReferenceClass::Unknown(s) => Some(s@),
        _ => None,
    }
}

/// The type of a reference that its class alone decides.
pub fn class_ref_type(class: &ReferenceClass) -> (r: Option<String>)
    ensures
        match class_type_name(*class) {
            None => r is None,
            Some(t) => r is Some && r->0@ == t,
        },
{
    match class {
        ReferenceClass::LegalCase => Some(owned("legal-case")),
        ReferenceClass::Statute => Some(owned("statute")),
        ReferenceClass::Treaty => Some(owned("treaty")),
        ReferenceClass::Hearing => Some(owned("hearing")),
        ReferenceClass::Regulation => Some(owned("regulation")),
        ReferenceClass::Brief => Some(owned("brief")),
        ReferenceClass::Classic => Some(owned("classic")),
        ReferenceClass::Patent => Some(owned("patent")),
        ReferenceClass::Dataset => Some(owned("dataset")),
        ReferenceClass::Standard => Some(owned("standard")),
        ReferenceClass::Software => Some(owned("software")),
        ReferenceClass::Unknown(s) => Some(owned(s.as_str())),
        _ => None,
    }
}

/// The CSL type of a monograph: a book is a `book`, or an `interview` when its
/// medium mentions an interview (in any ASCII case); a document is its genre
/// when that is `bill-proceeding` or `bill-record`, a `paper-conference` when
/// its genre's key is `conference-paper`, an `interview` when its medium
/// mentions one, and a `document` otherwise; every other subtype is the
/// kebab-case name of the subtype.
pub proof fn lemma_monograph_type_names(kind: MonographType, medium: Option<Seq<char>>, genre: Option<Seq<char>>)
    ensures
        kind == MonographType::Book ==> monograph_type_name(kind, medium, genre)
            == (if medium matches Some(m) && contains_seq(ascii_lowercase(m), "interview"@) { "interview"@ } else { "book"@ }),
        kind == MonographType::Manual ==> monograph_type_name(kind, medium, genre) == "manual"@,
        kind == MonographType::Report ==> monograph_type_name(kind, medium, genre) == "report"@,
        kind == MonographType::Thesis ==> monograph_type_name(kind, medium, genre) == "thesis"@,
        kind == MonographType::Webpage ==> monograph_type_name(kind, medium, genre) == "webpage"@,
        kind == MonographType::Post ==> monograph_type_name(kind, medium, genre) == "post"@,
        kind == MonographType::Interview ==> monograph_type_name(kind, medium, genre) == "interview"@,
        kind == MonographType::Manuscript ==> monograph_type_name(kind, medium, genre) == "manuscript"@,
        kind == MonographType::Preprint ==> monograph_type_name(kind, medium, genre) == "preprint"@,
        kind == MonographType::PersonalCommunication ==> monograph_type_name(kind, medium, genre) == "personal-communication"@,
        kind == MonographType::Document && (genre == Some("bill-proceeding"@) || genre == Some("bill-record"@))
            ==> Some(monograph_type_name(kind, medium, genre)) == genre,
        kind == MonographType::Document && genre != Some("bill-proceeding"@) && genre != Some("bill-record"@)
            && (genre matches Some(g) && genre_key(g) == "conference-paper"@)
            ==> monograph_type_name(kind, medium, genre) == "paper-conference"@,
        kind == MonographType::Document && genre != Some("bill-proceeding"@) && genre != Some("bill-record"@)
            && !(genre matches Some(g) && genre_key(g) == "conference-paper"@)
            ==> monograph_type_name(kind, medium, genre)
                == (if medium matches Some(m) && contains_seq(ascii_lowercase(m), "interview"@) { "interview"@ } else { "document"@ }),
{
}

/// The CSL type of a component: a chapter is an `entry-dictionary` or
/// `entry-encyclopedia` when its genre is exactly that, else a `chapter`; a
/// document component is a `paper-conference`. A serial component is an
/// `entry-encyclopedia` when its genre is exactly that; else a magazine or
/// newspaper article, or a broadcast (a `motion-picture` when its genre
/// mentions film), when its container is of that type; else a journal
/// article. A serial's type is its article type, `broadcast` for a broadcast
/// program, and `serial` otherwise.
pub proof fn lemma_component_type_names(kind: MonographComponentType, genre: Option<Seq<char>>, container: Option<Seq<char>>, serial: SerialType)
    ensures
        kind == MonographComponentType::Document ==> collection_component_type_name(kind, genre) == "paper-conference"@,
        kind == MonographComponentType::Chapter ==> collection_component_type_name(kind, genre)
            == (if genre == Some("entry-dictionary"@) { "entry-dictionary"@ } else if genre == Some("entry-encyclopedia"@) {
                "entry-encyclopedia"@ } else { "chapter"@ }),
        genre == Some("entry-encyclopedia"@) ==> serial_component_type_name(genre, container) == "entry-encyclopedia"@,
        genre != Some("entry-encyclopedia"@) && container == Some("article-magazine"@)
            ==> serial_component_type_name(genre, container) == "article-magazine"@,
        genre != Some("entry-encyclopedia"@) && container == Some("article-newspaper"@)
            ==> serial_component_type_name(genre, container) == "article-newspaper"@,
        genre != Some("entry-encyclopedia"@) && container == Some("broadcast"@)
            ==> serial_component_type_name(genre, container)
                == (if genre matches Some(g) && contains_seq(ascii_lowercase(g), "film"@) { "motion-picture"@ } else { "broadcast"@ }),
        genre != Some("entry-encyclopedia"@) && container != Some("article-magazine"@) && container != Some("article-newspaper"@)
            && container != Some("broadcast"@) ==> serial_component_type_name(genre, container) == "article-journal"@,
        serial_type_name(serial) == match serial {
            SerialType::AcademicJournal => "article-journal"@,
            SerialType::Magazine => "article-magazine"@,
            SerialType::Newspaper => "article-newspaper"@,
            SerialType::BroadcastProgram => "broadcast"@,
            _ => "serial"@,
        },
{
    reveal_strlit("broadcast");
    reveal_strlit("article-magazine");
    reveal_strlit("article-newspaper");
}

/// The classes that decide their type alone give the class's CSL name (an
/// unknown class its own name); monographs, components, collections,
/// serials, events and audio-visual works give none.
pub proof fn lemma_class_type_names(class: ReferenceClass)
    ensures
        class == ReferenceClass::LegalCase ==> class_type_name(class) == Some("legal-case"@),
        class == ReferenceClass::Statute ==> class_type_name(class) == Some("statute"@),
        class == ReferenceClass::Treaty ==> class_type_name(class) == Some("treaty"@),
        class == ReferenceClass::Hearing ==> class_type_name(class) == Some("hearing"@),
        class == ReferenceClass::Regulation ==> class_type_name(class) == Some("regulation"@),
        class == ReferenceClass::Brief ==> class_type_name(class) == Some("brief"@),
        class == ReferenceClass::Classic ==> class_type_name(class) == Some("classic"@),
        class == ReferenceClass::Patent ==> class_type_name(class) == Some("patent"@),
        class == ReferenceClass::Dataset ==> class_type_name(class) == Some("dataset"@),
        class == ReferenceClass::Standard ==> class_type_name(class) == Some("standard"@),
        class == ReferenceClass::Software ==> class_type_name(class) == Some("software"@),
        class matches ReferenceClass::Unknown(s) ==> class_type_name(class) == Some(s@),
        (class == ReferenceClass::Monograph || class == ReferenceClass::CollectionComponent
            || class == ReferenceClass::SerialComponent || class == ReferenceClass::Collection
            || class == ReferenceClass::Serial || class == ReferenceClass::Event
            || class == ReferenceClass::AudioVisual) ==> class_type_name(class) is None,
{
}

} // verus!
