//! Legacy CSL-JSON records and their conversion into Citum references.
//!
//! A [`LegacyReference`] holds, as plain values, the fields of a CSL-JSON item
//! that the conversion reads. [`input_reference_from_legacy`] routes the record
//! to its converter, builds the shared context (identifier, titles, dates, URL,
//! ...) and then the typed reference of the route's class.

use vstd::prelude::*;

use crate::conversion::{
    audio_visual_kind, audio_visual_type, broadcast_issue_text, build_title, normalize_broadcast_issue, title_built, contains_seq, issued_literal_of, legacy_converter, legacy_date_renderable,
    legacy_date_text, legacy_dates, legacy_dates_hold, legacy_route, opt_view,
    optional_date_renderable, structured_subtitle, LegacyConverter, LegacyDate, LegacyDates, NameParts,
};
use crate::contributor::{
    contributor_from_names, contributor_from_opt_names, copy_name_list, push_legacy_contributor, pushed, copy_names, entries_view, entry_view, names_view, opt_contributor_view,
    opt_list, opt_names, push_steps, pushed_all, role_view, step_view, Contributor, ContributorEntry,
    ContributorRole, NameView,
};
use crate::date::DateValue;
use crate::relation::{
    event_link, monograph_link, parent_link, relation_event, relation_monograph, relation_parent, WorkRelation,
};
use crate::identifier::{IdentifierName, SupplementaryIdentifiers};
use crate::text::{chars_of, is_ascii_digit, owned, push_str, str_eq};
use crate::types::{
    ArchiveInfo, AudioVisualWork, Classic, CollectionComponent, Dataset, MonographComponentType,
    ParentKind, ParentWork, SerialComponent, SerialComponentType, SerialParent, SerialType, Event, Hearing, LegalCase, Monograph, Patent, Publisher,
    Regulation, Software, Standard, Statute, Treaty, MonographType, MultilingualString, NumOrStr, Numbering,
    NumberingType, StructuredTitle, Subtitle, Title,
};

verus! {

/// The value of an entry of a legacy record's `extra` map, as the conversion
/// reads it.
#[derive(Debug, Clone)]
pub enum LegacyExtraValue {
    /// A string.
    Text(String),
    /// A CSL date variable.
    Date(LegacyDate),
    /// A list of names.
    Names(Vec<crate::conversion::NameParts>),
    /// Any other value (names, numbers, objects).
    Other,
}

/// A legacy CSL-JSON item: the fields the conversion reads, as plain values.
/// Number-or-string fields hold their text.
#[derive(Debug, Clone)]
pub struct LegacyReference {
    /// Item identifier.
    pub id: String,
    /// CSL item type.
    pub ref_type: String,
    /// Title.
    pub title: Option<String>,
    /// Container title.
    pub container_title: Option<String>,
    /// Title of the collection (series) the container belongs to.
    pub collection_title: Option<String>,
    /// Authors.
    pub author: Option<Vec<NameParts>>,
    /// Editors.
    pub editor: Option<Vec<NameParts>>,
    /// Translators.
    pub translator: Option<Vec<NameParts>>,
    /// Directors.
    pub director: Option<Vec<NameParts>>,
    /// Other contributors (performers, for audio-visual works).
    pub contributor: Option<Vec<NameParts>>,
    /// Recipients.
    pub recipient: Option<Vec<NameParts>>,
    /// Interviewers.
    pub interviewer: Option<Vec<NameParts>>,
    /// Title of the original work.
    pub original_title: Option<String>,
    /// Issued date.
    pub issued: Option<LegacyDate>,
    /// Accessed date.
    pub accessed: Option<LegacyDate>,
    /// URL, as written.
    pub url: Option<String>,
    /// Language.
    pub language: Option<String>,
    /// Note.
    pub note: Option<String>,
    /// DOI.
    pub doi: Option<String>,
    /// ISBN.
    pub isbn: Option<String>,
    /// Edition.
    pub edition: Option<String>,
    /// Volume.
    pub volume: Option<String>,
    /// Number within a collection.
    pub collection_number: Option<String>,
    /// Document number.
    pub number: Option<String>,
    /// Issue.
    pub issue: Option<String>,
    /// ISSN.
    pub issn: Option<String>,
    /// Dimensions (size or running time).
    pub dimensions: Option<String>,
    /// Chapter number.
    pub chapter_number: Option<String>,
    /// Genre.
    pub genre: Option<String>,
    /// Medium.
    pub medium: Option<String>,
    /// Publisher name.
    pub publisher: Option<String>,
    /// Publisher place.
    pub publisher_place: Option<String>,
    /// Issuing authority (court, legislature, agency).
    pub authority: Option<String>,
    /// Section.
    pub section: Option<String>,
    /// Archive name.
    pub archive: Option<String>,
    /// Location within the archive.
    pub archive_location: Option<String>,
    /// Pages.
    pub page: Option<String>,
    /// Further fields by name (each name once), such as those a note field supplies.
    pub extra: Vec<(String, LegacyExtraValue)>,
}

/// The value of the first `extra` entry named `key`.
pub open spec fn extra_lookup(extra: Seq<(String, LegacyExtraValue)>, key: Seq<char>) -> Option<LegacyExtraValue>
    decreases extra.len(),
{
    if extra.len() == 0 {
        None
    } else if extra[0].0@ == key {
        Some(extra[0].1)
    } else {
        extra_lookup(extra.drop_first(), key)
    }
}

/// The string under `key` in `extra`, if the entry is a string.
pub open spec fn extra_text(extra: Seq<(String, LegacyExtraValue)>, key: Seq<char>) -> Option<Seq<char>> {
    match extra_lookup(extra, key) {
        Some(LegacyExtraValue::Text(s)) => Some(s@),
        _ => None,
    }
}

/// The date under `key` in `extra`: a date variable converted, or a string as is.
pub open spec fn extra_date_text(extra: Seq<(String, LegacyExtraValue)>, key: Seq<char>) -> Option<Seq<char>> {
    match extra_lookup(extra, key) {
        Some(LegacyExtraValue::Date(d)) => Some(legacy_date_text(d)),
        Some(LegacyExtraValue::Text(s)) => Some(s@),
        _ => None,
    }
}

/// Whether every date variable among the `extra` entries can be rendered.
pub open spec fn extra_dates_renderable(extra: Seq<(String, LegacyExtraValue)>) -> bool {
    forall|i: int| 0 <= i < extra.len() ==> ((#[trigger] extra[i]).1 matches LegacyExtraValue::Date(d) ==> legacy_date_renderable(d))
}

/// Whether every date of a legacy record can be rendered: an `i32::MIN` year
/// has no absolute value in `i32`.
pub open spec fn legacy_renderable(legacy: LegacyReference) -> bool {
    &&& optional_date_renderable(legacy.issued)
    &&& optional_date_renderable(legacy.accessed)
    &&& extra_dates_renderable(legacy.extra@)
}

/// Whether the first year of a list of date parts can be rendered.
fn part_renderable(part: &Vec<i32>) -> (b: bool)
    ensures
        b == crate::conversion::renderable_part(part@),
{
    part.len() == 0 || part[0] != i32::MIN
}

/// Whether a legacy date can be rendered.
fn date_renderable(d: &LegacyDate) -> (b: bool)
    ensures
        b == legacy_date_renderable(*d),
{
    if d.literal.is_some() {
        return true;
    }
    match &d.date_parts {
        None => true,
        Some(parts) => {
            (parts.len() == 0 || part_renderable(&parts[0])) && (parts.len() <= 1 || part_renderable(&parts[1]))
        },
    }
}

/// Whether every date of a legacy record can be rendered (see [`legacy_renderable`]).
pub fn legacy_renderable_exec(legacy: &LegacyReference) -> (b: bool)
    ensures
        b == legacy_renderable(*legacy),
{
    let issued_ok = match &legacy.issued {
        Some(d) => date_renderable(d),
        None => true,
    };
    let accessed_ok = match &legacy.accessed {
        Some(d) => date_renderable(d),
        None => true,
    };
    if !issued_ok || !accessed_ok {
        return false;
    }
    let mut i: usize = 0;
    while i < legacy.extra.len()
        invariant
            i <= legacy.extra@.len(),
            forall|k: int| 0 <= k < i ==> ((#[trigger] legacy.extra@[k]).1 matches LegacyExtraValue::Date(d) ==> legacy_date_renderable(d)),
        decreases legacy.extra.len() - i,
    {
        if let LegacyExtraValue::Date(d) = &legacy.extra[i].1 {
            if !date_renderable(d) {
                return false;
            }
        }
        i = i + 1;
    }
    true
}

/// Where in `extra` the first entry named `key` is, if any.
fn extra_index(extra: &Vec<(String, LegacyExtraValue)>, key: &str) -> (r: Option<usize>)
    ensures
        match r {
            None => extra_lookup(extra@, key@) is None,
            Some(i) => i < extra@.len() && extra_lookup(extra@, key@) == Some(extra@[i as int].1),
        },
{
    let mut i: usize = 0;
    proof {
        assert(extra@.skip(0) =~= extra@);
    }
    while i < extra.len()
        invariant
            i <= extra@.len(),
            extra_lookup(extra@, key@) == extra_lookup(extra@.skip(i as int), key@),
        decreases extra.len() - i,
    {
        proof {
            assert(extra@.skip(i as int)[0] == extra@[i as int]);
            assert(extra@.skip(i as int).drop_first() =~= extra@.skip(i + 1));
        }
        if str_eq(extra[i].0.as_str(), key) {
            return Some(i);
        }
        i = i + 1;
    }
    proof {
        assert(extra@.skip(i as int).len() == 0);
    }
    None
}

/// The string under `key` in a legacy record's `extra` map.
pub fn legacy_extra_str(legacy: &LegacyReference, key: &str) -> (r: Option<String>)
    ensures
        opt_view(r) == extra_text(legacy.extra@, key@),
{
    match extra_index(&legacy.extra, key) {
        Some(i) => match &legacy.extra[i].1 {
            LegacyExtraValue::Text(s) => Some(owned(s.as_str())),
            _ => None,
        },
        None => None,
    }
}

/// The date under `key` in a legacy record's `extra` map.
pub fn legacy_extra_date(legacy: &LegacyReference, key: &str) -> (r: Option<DateValue>)
    requires
        extra_dates_renderable(legacy.extra@),
    ensures
        match extra_date_text(legacy.extra@, key@) {
            None => r is None,
            Some(t) => r is Some && r->0.value@ == t && r->0.note is None,
        },
{
    match extra_index(&legacy.extra, key) {
        Some(i) => match &legacy.extra[i].1 {
            LegacyExtraValue::Date(d) => {
                proof {
                    assert(legacy_date_renderable(*d));
                }
                Some(DateValue::from_legacy(d))
            },
            LegacyExtraValue::Text(s) => Some(DateValue { value: owned(s.as_str()), note: None }),
            _ => None,
        },
        None => None,
    }
}

/// The serialised form of the URL that `s` parses to, as the `url` crate
/// parses and serialises it; `None` when it does not parse.
pub uninterp spec fn url_parse(s: Seq<char>) -> Option<Seq<char>>;

/// `url::Url::parse`, then the parsed URL's serialisation (`to_string`).
/// Claimed: the result is [`url_parse`] of the input, which depends on the
/// input alone; nothing more is said of what the parser accepts.
#[verifier::external_body]
fn parse_url(s: &str) -> (r: Option<String>)
    ensures
        opt_view(r) == url_parse(s@),
{
    url::Url::parse(s).ok().map(|u| u.to_string())
}

/// The fields every converter shares, read off a legacy record once.
#[derive(Debug, Clone)]
pub struct RefContext {
    /// Reference identifier.
    pub id: Option<String>,
    /// Title.
    pub title: Option<String>,
    /// Short title.
    pub short_title: Option<String>,
    /// Creation and publication dates, and the years that stand in for one.
    pub dates: LegacyDates,
    /// URL, when it parses.
    pub url: Option<String>,
    /// Accessed date.
    pub accessed: Option<DateValue>,
    /// Language.
    pub language: Option<String>,
    /// Note.
    pub note: Option<String>,
    /// DOI.
    pub doi: Option<String>,
    /// ISBN.
    pub isbn: Option<String>,
    /// Edition.
    pub edition: Option<String>,
    /// Short container title.
    pub container_title_short: Option<String>,
    /// Journal abbreviation.
    pub journal_abbreviation: Option<String>,
}

/// A copy of an optional string.
pub fn copy_opt(s: &Option<String>) -> (r: Option<String>)
    ensures
        opt_view(r) == opt_view(*s),
{
    match s {
        Some(t) => Some(owned(t.as_str())),
        None => None,
    }
}

/// The optional text of an optional string slice.
pub open spec fn opt_str_view(s: Option<&str>) -> Option<Seq<char>> {
    match s {
        Some(t) => Some(t@),
        None => None,
    }
}

/// The date a legacy accessed date gives.
pub open spec fn accessed_text(d: Option<LegacyDate>) -> Option<Seq<char>> {
    match d {
        Some(d) => Some(legacy_date_text(d)),
        None => None,
    }
}

/// `r` is the shared context of `legacy`: its id; its title; its short title
/// (`shortTitle`, else `title-short`, from `extra`); its dates (see
/// [`legacy_dates_hold`], with the `issued-note-literal` override from `extra`);
/// its URL when it parses; its accessed date; its language, note, DOI, ISBN and
/// edition; and the short container title and journal abbreviation from `extra`.
pub open spec fn context_of(r: RefContext, legacy: LegacyReference) -> bool {
    let extra = legacy.extra@;
    &&& opt_view(r.id) == Some(legacy.id@)
    &&& opt_view(r.title) == opt_view(legacy.title)
    &&& opt_view(r.short_title) == (if extra_text(extra, "shortTitle"@) is Some {
        extra_text(extra, "shortTitle"@)
    } else {
        extra_text(extra, "title-short"@)
    })
    &&& legacy_dates_hold(r.dates, legacy.ref_type@, legacy.issued, extra_text(extra, "issued-note-literal"@))
    &&& opt_view(r.url) == match legacy.url { Some(u) => url_parse(u@), None => None }
    &&& (r.accessed is Some) == (legacy.accessed is Some)
    &&& (r.accessed matches Some(a) ==> a.value@ == accessed_text(legacy.accessed)->0 && a.note is None)
    &&& opt_view(r.language) == opt_view(legacy.language)
    &&& opt_view(r.note) == opt_view(legacy.note)
    &&& opt_view(r.doi) == opt_view(legacy.doi)
    &&& opt_view(r.isbn) == opt_view(legacy.isbn)
    &&& opt_view(r.edition) == opt_view(legacy.edition)
    &&& opt_view(r.container_title_short) == extra_text(extra, "container-title-short"@)
    &&& opt_view(r.journal_abbreviation) == extra_text(extra, "journalAbbreviation"@)
}

/// Read the shared context off a legacy record.
pub fn ref_context(legacy: &LegacyReference) -> (r: RefContext)
    requires
        legacy_renderable(*legacy),
    ensures
        context_of(r, *legacy),
{
    let short_title = match legacy_extra_str(legacy, "shortTitle") {
        Some(s) => Some(s),
        None => legacy_extra_str(legacy, "title-short"),
    };
    let note_literal = legacy_extra_str(legacy, "issued-note-literal");
    let note_ref: Option<&str> = match &note_literal {
        Some(n) => Some(n.as_str()),
        None => None,
    };
    let issued: Option<&LegacyDate> = match &legacy.issued {
        Some(d) => Some(d),
        None => None,
    };
    let dates = legacy_dates(legacy.ref_type.as_str(), issued, note_ref);
    let url = match &legacy.url {
        Some(u) => parse_url(u.as_str()),
        None => None,
    };
    let accessed = match &legacy.accessed {
        Some(d) => Some(DateValue::from_legacy(d)),
        None => None,
    };
    RefContext {
        id: Some(owned(legacy.id.as_str())),
        title: copy_opt(&legacy.title),
        short_title,
        dates,
        url,
        accessed,
        language: copy_opt(&legacy.language),
        note: copy_opt(&legacy.note),
        doi: copy_opt(&legacy.doi),
        isbn: copy_opt(&legacy.isbn),
        edition: copy_opt(&legacy.edition),
        container_title_short: legacy_extra_str(legacy, "container-title-short"),
        journal_abbreviation: legacy_extra_str(legacy, "journalAbbreviation"),
    }
}

/// The monograph subtype of a legacy type.
pub open spec fn monograph_kind_of(t: Seq<char>) -> MonographType {
    if t == "report"@ {
        MonographType::Report
    } else if t == "thesis"@ {
        MonographType::Thesis
    } else if t == "manual"@ {
        MonographType::Manual
    } else if t == "manuscript"@ {
        MonographType::Manuscript
    } else if t == "webpage"@ {
        MonographType::Webpage
    } else if contains_seq(t, "post"@) {
        MonographType::Post
    } else if t == "interview"@ {
        MonographType::Interview
    } else if t == "personal_communication"@ || t == "personal-communication"@ {
        MonographType::PersonalCommunication
    } else {
        MonographType::Book
    }
}

/// The monograph subtype of each legacy type: a report, thesis, manual,
/// manuscript or web page is that subtype; any other type that mentions
/// `post` (a post, a blog post) is a post; an interview is an interview; a
/// personal communication, in either spelling, is one; everything else is a
/// book.
pub proof fn lemma_monograph_kinds(t: Seq<char>)
    ensures
        t == "report"@ ==> monograph_kind_of(t) == MonographType::Report,
        t == "thesis"@ ==> monograph_kind_of(t) == MonographType::Thesis,
        t == "manual"@ ==> monograph_kind_of(t) == MonographType::Manual,
        t == "manuscript"@ ==> monograph_kind_of(t) == MonographType::Manuscript,
        t == "webpage"@ ==> monograph_kind_of(t) == MonographType::Webpage,
        t == "post"@ || t == "post-weblog"@ ==> monograph_kind_of(t) == MonographType::Post,
        t != "report"@ && t != "thesis"@ && t != "manual"@ && t != "manuscript"@ && t != "webpage"@
            && contains_seq(t, "post"@) ==> monograph_kind_of(t) == MonographType::Post,
        t == "interview"@ ==> monograph_kind_of(t) == MonographType::Interview,
        t == "personal_communication"@ || t == "personal-communication"@
            ==> monograph_kind_of(t) == MonographType::PersonalCommunication,
        t != "report"@ && t != "thesis"@ && t != "manual"@ && t != "manuscript"@ && t != "webpage"@
            && !contains_seq(t, "post"@) && t != "interview"@ && t != "personal_communication"@
            && t != "personal-communication"@ ==> monograph_kind_of(t) == MonographType::Book,
{
    reveal_strlit("report");
    assert("report"@.len() == 6);
    reveal_strlit("thesis");
    assert("thesis"@.len() == 6);
    reveal_strlit("manual");
    assert("manual"@.len() == 6);
    reveal_strlit("manuscript");
    assert("manuscript"@.len() == 10);
    reveal_strlit("webpage");
    assert("webpage"@.len() == 7);
    reveal_strlit("post");
    assert("post"@.len() == 4);
    reveal_strlit("post-weblog");
    assert("post-weblog"@.len() == 11);
    reveal_strlit("interview");
    assert("interview"@.len() == 9);
    reveal_strlit("personal_communication");
    assert("personal_communication"@.len() == 22);
    reveal_strlit("personal-communication");
    assert("personal-communication"@.len() == 22);
    assert("report"@[0] != "thesis"@[0]);
    assert("report"@[0] != "manual"@[0]);
    assert("thesis"@[0] != "manual"@[0]);
    assert("post"@.subrange(0, 4) =~= "post"@);
    assert("post-weblog"@.subrange(0, 4) =~= "post"@);
    let start: int = 0;
    assert("post"@.subrange(start, start + "post"@.len()) =~= "post"@);
    assert("post-weblog"@.subrange(start, start + "post"@.len()) =~= "post"@);
    lemma_interview_lacks_post();
    lemma_personal_communication_lacks_post();
    lemma_personal_hyphen_communication_lacks_post();
}

proof fn lemma_interview_lacks_post()
    ensures
        !contains_seq("interview"@, "post"@),
{
    reveal_strlit("interview");
    reveal_strlit("post");
    assert forall|i: int| 0 <= i && i + 4 <= 9 implies #[trigger] "interview"@.subrange(i, i + 4) != "post"@ by {
        assert("interview"@.subrange(i, i + 4)[0] == "interview"@[i]);
        assert("interview"@.subrange(i, i + 4)[1] == "interview"@[i + 1]);
        assert(i == 0 || i == 1 || i == 2 || i == 3 || i == 4 || i == 5);
    }
}

proof fn lemma_personal_communication_lacks_post()
    ensures
        !contains_seq("personal_communication"@, "post"@),
{
    reveal_strlit("personal_communication");
    reveal_strlit("post");
    assert forall|i: int| 0 <= i && i + 4 <= 22 implies #[trigger] "personal_communication"@.subrange(i, i + 4) != "post"@ by {
        assert("personal_communication"@.subrange(i, i + 4)[0] == "personal_communication"@[i]);
        assert("personal_communication"@.subrange(i, i + 4)[1] == "personal_communication"@[i + 1]);
        assert(i == 0 || i == 1 || i == 2 || i == 3 || i == 4 || i == 5 || i == 6 || i == 7 || i == 8 || i == 9 || i == 10 || i == 11 || i == 12 || i == 13 || i == 14 || i == 15 || i == 16 || i == 17 || i == 18);
    }
}

proof fn lemma_personal_hyphen_communication_lacks_post()
    ensures
        !contains_seq("personal-communication"@, "post"@),
{
    reveal_strlit("personal-communication");
    reveal_strlit("post");
    assert forall|i: int| 0 <= i && i + 4 <= 22 implies #[trigger] "personal-communication"@.subrange(i, i + 4) != "post"@ by {
        assert("personal-communication"@.subrange(i, i + 4)[0] == "personal-communication"@[i]);
        assert("personal-communication"@.subrange(i, i + 4)[1] == "personal-communication"@[i + 1]);
        assert(i == 0 || i == 1 || i == 2 || i == 3 || i == 4 || i == 5 || i == 6 || i == 7 || i == 8 || i == 9 || i == 10 || i == 11 || i == 12 || i == 13 || i == 14 || i == 15 || i == 16 || i == 17 || i == 18);
    }
}

/// The monograph subtype of a legacy type.
pub fn monograph_kind(ref_type: &str) -> (r: MonographType)
    ensures
        r == monograph_kind_of(ref_type@),
{
    if str_eq(ref_type, "report") {
        MonographType::Report
    } else if str_eq(ref_type, "thesis") {
        MonographType::Thesis
    } else if str_eq(ref_type, "manual") {
        MonographType::Manual
    } else if str_eq(ref_type, "manuscript") {
        MonographType::Manuscript
    } else if str_eq(ref_type, "webpage") {
        MonographType::Webpage
    } else if crate::conversion::str_contains(ref_type, "post") {
        MonographType::Post
    } else if str_eq(ref_type, "interview") {
        MonographType::Interview
    } else if str_eq(ref_type, "personal_communication") || str_eq(ref_type, "personal-communication") {
        MonographType::PersonalCommunication
    } else {
        MonographType::Book
    }
}

/// The title text of a web page: the base title, then `: Pt. ` and the part
/// number when there is one, then the part title after `: ` (or after `. `
/// when a part number came first).
pub open spec fn webpage_title_text(base: Seq<char>, part_number: Option<Seq<char>>, part_title: Option<Seq<char>>) -> Seq<char> {
    let a = match part_number {
        Some(p) => base + ": Pt. "@ + p,
        None => base,
    };
    match part_title {
        Some(q) => a + (if part_number is None { ": "@ } else { ". "@ }) + q,
        None => a,
    }
}

/// The title text a monograph is built from: a web page's base title with its
/// part number and part title; otherwise the part title, else the title.
pub open spec fn monograph_title_text(kind: MonographType, title: Option<Seq<char>>, part_number: Option<Seq<char>>, part_title: Option<Seq<char>>) -> Option<Seq<char>> {
    if kind == MonographType::Webpage {
        match title {
            Some(b) => Some(webpage_title_text(b, part_number, part_title)),
            None => None,
        }
    } else if part_title is Some {
        part_title
    } else {
        title
    }
}

/// Numbering entries as plain values.
pub open spec fn numbering_view(v: Seq<Numbering>) -> Seq<(NumberingType, Seq<char>)> {
    v.map_values(|n: Numbering| (n.kind, n.value@))
}

/// The numbering of a converted monograph: a report's number, then the part
/// number, then the chapter number.
pub open spec fn monograph_numbering(kind: MonographType, number: Option<Seq<char>>, part_number: Option<Seq<char>>, chapter: Option<Seq<char>>) -> Seq<(NumberingType, Seq<char>)> {
    let a: Seq<(NumberingType, Seq<char>)> = if kind == MonographType::Report && number is Some { seq![(NumberingType::Report, number->0)] } else { Seq::empty() };
    let b = match part_number { Some(p) => a.push((NumberingType::Part, p)), None => a };
    match chapter { Some(c) => b.push((NumberingType::Chapter, c)), None => b }
}

/// Whether a `dimensions` value is a running time: an ISO 8601 duration
/// (leading `P`) or a clock time (a leading digit and a `:`).
pub open spec fn is_duration(d: Seq<char>) -> bool {
    d.len() > 0 && (d[0] == 'P' || (is_ascii_digit(d[0]) && d.contains(':')))
}

/// The genre of a converted monograph: its own, else the legacy type for the
/// types whose `ref_type` round trip depends on it.
pub open spec fn monograph_genre(t: Seq<char>, genre: Option<Seq<char>>) -> Option<Seq<char>> {
    if genre is Some {
        genre
    } else if t == "musical_score"@ || t == "pamphlet"@ || t == "post-weblog"@ {
        Some(t)
    } else {
        None
    }
}

/// The string under `a` in `extra`, or under `b` when there is no entry `a`.
pub open spec fn extra_text_either(extra: Seq<(String, LegacyExtraValue)>, a: Seq<char>, b: Seq<char>) -> Option<Seq<char>> {
    if extra_lookup(extra, a) is Some { extra_text(extra, a) } else { extra_text(extra, b) }
}

/// `r` is the archival location of a legacy record: none without an archive
/// name or location; else the name, the location, and the place and collection
/// from `extra`.
pub open spec fn archive_info_of(r: Option<ArchiveInfo>, legacy: LegacyReference) -> bool {
    if legacy.archive is None && legacy.archive_location is None {
        r is None
    } else {
        r matches Some(ai) && {
            &&& match legacy.archive {
                Some(a) => ai.name matches Some(MultilingualString::Simple(n)) && n@ == a@,
                None => ai.name is None,
            }
            &&& opt_view(ai.location) == opt_view(legacy.archive_location)
            &&& opt_view(ai.place) == extra_text_either(legacy.extra@, "archive-place"@, "archive_place"@)
            &&& opt_view(ai.collection) == extra_text_either(legacy.extra@, "archive-collection"@, "archive_collection"@)
            &&& ai.collection_id is None && ai.series is None && ai.box_number is None
            &&& ai.folder is None && ai.item is None && ai.url is None
        }
    }
}

/// The string under `a` in a record's `extra`, or under `b` without an entry `a`.
fn legacy_extra_str_either(legacy: &LegacyReference, a: &str, b: &str) -> (r: Option<String>)
    ensures
        opt_view(r) == extra_text_either(legacy.extra@, a@, b@),
{
    match extra_index(&legacy.extra, a) {
        Some(_) => legacy_extra_str(legacy, a),
        None => legacy_extra_str(legacy, b),
    }
}

/// The structured archival location of a legacy record.
pub fn archive_info_from_legacy_flat(legacy: &LegacyReference) -> (r: Option<ArchiveInfo>)
    ensures
        archive_info_of(r, *legacy),
{
    if legacy.archive.is_none() && legacy.archive_location.is_none() {
        return None;
    }
    let collection = legacy_extra_str_either(legacy, "archive-collection", "archive_collection");
    let place = legacy_extra_str_either(legacy, "archive-place", "archive_place");
    let name = match &legacy.archive {
        Some(a) => Some(MultilingualString::Simple(owned(a.as_str()))),
        None => None,
    };
    Some(ArchiveInfo {
        name,
        place,
        collection,
        collection_id: None,
        series: None,
        box_number: None,
        folder: None,
        item: None,
        location: copy_opt(&legacy.archive_location),
        url: None,
    })
}

/// `p` is the publisher built from a legacy name and place: the name with its
/// place; a place-only imprint (empty name) when there is only a place; none
/// without either.
pub open spec fn publisher_of(p: Option<Publisher>, name: Option<Seq<char>>, place: Option<Seq<char>>) -> bool {
    match name {
        Some(n) => p matches Some(q) && q.name@ == n && opt_view(q.place) == place,
        None => match place {
            Some(pl) => p matches Some(q) && q.name@.len() == 0 && opt_view(q.place) == Some(pl),
            None => p is None,
        },
    }
}

/// Build a publisher from a legacy name and place, keeping a place-only imprint.
pub fn publisher_from_parts(name: Option<String>, place: Option<String>) -> (r: Option<Publisher>)
    ensures
        publisher_of(r, opt_view(name), opt_view(place)),
{
    match name {
        Some(n) => Some(Publisher { name: n, place }),
        None => match place {
            Some(pl) => Some(Publisher { name: String::new(), place: Some(pl) }),
            None => None,
        },
    }
}

/// The contributors the names under `key` in `extra` become, if the entry
/// is a list of names.
pub open spec fn extra_names(extra: Seq<(String, LegacyExtraValue)>, key: Seq<char>) -> Option<Seq<NameView>> {
    match extra_lookup(extra, key) {
        Some(LegacyExtraValue::Names(v)) => Some(names_view(v@)),
        _ => None,
    }
}

/// The names under `key` in a legacy record's `extra` map.
pub fn legacy_extra_names(legacy: &LegacyReference, key: &str) -> (r: Option<Vec<NameParts>>)
    ensures
        opt_names(r) == extra_names(legacy.extra@, key@),
{
    match extra_index(&legacy.extra, key) {
        Some(i) => match &legacy.extra[i].1 {
            LegacyExtraValue::Names(v) => Some(copy_name_list(v)),
            _ => None,
        },
        None => None,
    }
}

/// The names under `a` in `extra`, else those under `b`.
pub open spec fn extra_names_either(extra: Seq<(String, LegacyExtraValue)>, a: Seq<char>, b: Seq<char>) -> Option<Seq<NameView>> {
    if extra_names(extra, a) is Some { extra_names(extra, a) } else { extra_names(extra, b) }
}

fn legacy_extra_names_either(legacy: &LegacyReference, a: &str, b: &str) -> (r: Option<Vec<NameParts>>)
    ensures
        opt_names(r) == extra_names_either(legacy.extra@, a@, b@),
{
    match legacy_extra_names(legacy, a) {
        Some(v) => Some(v),
        None => legacy_extra_names(legacy, b),
    }
}

/// The role an unknown-role name stands for, as plain values.
pub open spec fn unknown_role(name: Seq<char>) -> (int, Seq<char>) {
    (15, name)
}

/// The author, editor and translator of a record, each as the contributor
/// list its names become.
pub open spec fn people_hold(author: Option<Contributor>, editor: Option<Contributor>, translator: Option<Contributor>, legacy: LegacyReference) -> bool {
    &&& opt_contributor_view(author) == opt_list(opt_names(legacy.author))
    &&& opt_contributor_view(editor) == opt_list(opt_names(legacy.editor))
    &&& opt_contributor_view(translator) == opt_list(opt_names(legacy.translator))
}

/// Contributor entries built by pushing `steps` in turn from none.
pub open spec fn entries_from(contributors: Vec<ContributorEntry>, steps: Seq<((int, Seq<char>), Option<Seq<NameView>>)>) -> bool {
    entries_view(contributors@) == pushed_all(Seq::empty(), steps)
}

/// The roles a monograph's contributors are read under, in order: the
/// recipients and interviewers, the authors, editors and translators, then
/// hosts, narrators, illustrators, other contributors, compilers, collection
/// editors, composers, performers, and producers (else executive producers)
/// from `extra`.
pub open spec fn monograph_steps(legacy: LegacyReference) -> Seq<((int, Seq<char>), Option<Seq<NameView>>)> {
    let extra = legacy.extra@;
    seq![
        (role_view(ContributorRole::Recipient), opt_names(legacy.recipient)),
        (role_view(ContributorRole::Interviewer), opt_names(legacy.interviewer)),
        (role_view(ContributorRole::Author), opt_names(legacy.author)),
        (role_view(ContributorRole::Editor), opt_names(legacy.editor)),
        (role_view(ContributorRole::Translator), opt_names(legacy.translator)),
        (role_view(ContributorRole::Host), extra_names(extra, "host"@)),
        (role_view(ContributorRole::Narrator), extra_names(extra, "narrator"@)),
        (role_view(ContributorRole::Illustrator), extra_names(extra, "illustrator"@)),
        (unknown_role("contributor"@), extra_names(extra, "contributor"@)),
        (role_view(ContributorRole::Compiler), extra_names(extra, "compiler"@)),
        (unknown_role("collection-editor"@), extra_names(extra, "collection-editor"@)),
        (role_view(ContributorRole::Composer), extra_names(extra, "composer"@)),
        (role_view(ContributorRole::Performer), extra_names(extra, "performer"@)),
        (role_view(ContributorRole::Producer), extra_names_either(extra, "producer"@, "executive-producer"@))
    ]
}

/// The authors, editors and translators, in that order.
pub open spec fn basic_steps(legacy: LegacyReference) -> Seq<((int, Seq<char>), Option<Seq<NameView>>)> {
    seq![
        (role_view(ContributorRole::Author), opt_names(legacy.author)),
        (role_view(ContributorRole::Editor), opt_names(legacy.editor)),
        (role_view(ContributorRole::Translator), opt_names(legacy.translator))
    ]
}

fn step(role: ContributorRole, names: Option<Vec<NameParts>>) -> (r: (ContributorRole, Option<Vec<NameParts>>))
    ensures
        step_view(r) == (role_view(role), opt_names(names)),
{
    (role, names)
}

fn unknown(name: &str) -> (r: ContributorRole)
    ensures
        role_view(r) == unknown_role(name@),
{
    ContributorRole::Unknown(owned(name))
}

/// The contributor entries of a record read under [`monograph_steps`].
fn monograph_contributors(legacy: &LegacyReference) -> (r: Vec<ContributorEntry>)
    ensures
        entries_from(r, monograph_steps(*legacy)),
{
    let mut steps: Vec<(ContributorRole, Option<Vec<NameParts>>)> = Vec::new();
    steps.push(step(ContributorRole::Recipient, copy_names(&legacy.recipient)));
    steps.push(step(ContributorRole::Interviewer, copy_names(&legacy.interviewer)));
    steps.push(step(ContributorRole::Author, copy_names(&legacy.author)));
    steps.push(step(ContributorRole::Editor, copy_names(&legacy.editor)));
    steps.push(step(ContributorRole::Translator, copy_names(&legacy.translator)));
    steps.push(step(ContributorRole::Host, legacy_extra_names(legacy, "host")));
    steps.push(step(ContributorRole::Narrator, legacy_extra_names(legacy, "narrator")));
    steps.push(step(ContributorRole::Illustrator, legacy_extra_names(legacy, "illustrator")));
    steps.push(step(unknown("contributor"), legacy_extra_names(legacy, "contributor")));
    steps.push(step(ContributorRole::Compiler, legacy_extra_names(legacy, "compiler")));
    steps.push(step(unknown("collection-editor"), legacy_extra_names(legacy, "collection-editor")));
    steps.push(step(ContributorRole::Composer, legacy_extra_names(legacy, "composer")));
    steps.push(step(ContributorRole::Performer, legacy_extra_names(legacy, "performer")));
    steps.push(step(ContributorRole::Producer, legacy_extra_names_either(legacy, "producer", "executive-producer")));
    proof {
        assert(steps@.map_values(|s: (ContributorRole, Option<Vec<NameParts>>)| step_view(s)) =~= monograph_steps(*legacy));
    }
    let mut entries: Vec<ContributorEntry> = Vec::new();
    push_steps(&mut entries, &steps);
    proof {
        assert(entries_view(Seq::<ContributorEntry>::empty()) =~= Seq::empty());
    }
    entries
}

/// The contributor entries of a record read under [`basic_steps`].
fn basic_contributors(legacy: &LegacyReference) -> (r: Vec<ContributorEntry>)
    ensures
        entries_from(r, basic_steps(*legacy)),
{
    let mut steps: Vec<(ContributorRole, Option<Vec<NameParts>>)> = Vec::new();
    steps.push(step(ContributorRole::Author, copy_names(&legacy.author)));
    steps.push(step(ContributorRole::Editor, copy_names(&legacy.editor)));
    steps.push(step(ContributorRole::Translator, copy_names(&legacy.translator)));
    proof {
        assert(steps@.map_values(|s: (ContributorRole, Option<Vec<NameParts>>)| step_view(s)) =~= basic_steps(*legacy));
    }
    let mut entries: Vec<ContributorEntry> = Vec::new();
    push_steps(&mut entries, &steps);
    proof {
        assert(entries_view(Seq::<ContributorEntry>::empty()) =~= Seq::empty());
    }
    entries
}

/// `r` links a record to its original: the original title, the original
/// author, date, publisher and publisher place from `extra`.
pub open spec fn original_link(r: Option<WorkRelation>, legacy: LegacyReference) -> bool {
    let extra = legacy.extra@;
    monograph_link(r, opt_view(legacy.original_title), opt_list(extra_names(extra, "original-author"@)),
        extra_date_text(extra, "original-date"@), None, extra_text(extra, "original-publisher"@),
        extra_text(extra, "original-publisher-place"@))
}

/// The link from a record to its original, as [`original_link`] says.
pub fn legacy_original_relation(legacy: &LegacyReference) -> (r: Option<WorkRelation>)
    requires
        legacy_renderable(*legacy),
    ensures
        original_link(r, *legacy),
{
    let title = match &legacy.original_title {
        Some(t) => Some(Title::Single(owned(t.as_str()))),
        None => None,
    };
    let author = contributor_from_opt_names(&legacy_extra_names(legacy, "original-author"));
    let issued = legacy_extra_date(legacy, "original-date");
    let publisher = legacy_extra_str(legacy, "original-publisher");
    let place = legacy_extra_str(legacy, "original-publisher-place");
    let ghost t0 = title;
    let ghost a0 = author;
    let ghost i0 = issued;
    let ghost p0 = publisher;
    let ghost q0 = place;
    let r = relation_monograph(title, author, issued, None, publisher, place);
    proof {
        let extra = legacy.extra@;
        assert(opt_contributor_view(a0) == opt_list(extra_names(extra, "original-author"@)));
        assert((a0 is None) == (opt_list(extra_names(extra, "original-author"@)) is None));
        assert((i0 is None) == (extra_date_text(extra, "original-date"@) is None));
        assert((t0 is None) == (legacy.original_title is None));
        if r is Some {
            let m = r->0->Monograph_0;
            assert(m.issued.value@ == (match extra_date_text(extra, "original-date"@) { Some(d) => d, None => Seq::empty() }));
        }
    }
    r
}

/// `r` links a record to the event in its `extra` fields.
pub open spec fn event_link_of(r: Option<WorkRelation>, legacy: LegacyReference) -> bool {
    let extra = legacy.extra@;
    event_link(r, extra_text(extra, "event-title"@), extra_text(extra, "event-place"@), extra_date_text(extra, "event-date"@))
}

/// The link from a record to the event in its `extra` fields.
pub fn legacy_event_relation(legacy: &LegacyReference) -> (r: Option<WorkRelation>)
    requires
        legacy_renderable(*legacy),
    ensures
        event_link_of(r, *legacy),
{
    relation_event(
        legacy_extra_str(legacy, "event-title"),
        legacy_extra_str(legacy, "event-place"),
        legacy_extra_date(legacy, "event-date"),
    )
}

/// `r` is a monograph's parent: titled by the `volume-title` in `extra`, else
/// the container title; in the collection of the record's collection title.
pub open spec fn container_link(r: Option<WorkRelation>, legacy: LegacyReference) -> bool {
    let volume_title = extra_text(legacy.extra@, "volume-title"@);
    parent_link(r, if volume_title is Some { volume_title } else { opt_view(legacy.container_title) }, opt_view(legacy.collection_title))
}

fn legacy_container_relation(legacy: &LegacyReference) -> (r: Option<WorkRelation>)
    ensures
        container_link(r, *legacy),
{
    let title = match legacy_extra_str(legacy, "volume-title") {
        Some(t) => Some(t),
        None => copy_opt(&legacy.container_title),
    };
    relation_parent(title, copy_opt(&legacy.collection_title))
}

/// The fields a converted monograph and a converted classic share with the
/// context and the record.
pub open spec fn common_monograph_fields(legacy: LegacyReference, ctx: RefContext, kind: MonographType,
    title: Option<Title>, volume: Option<String>, number: Option<String>, numbering: Seq<Numbering>) -> bool {
    let extra = legacy.extra@;
    let part_number = extra_text(extra, "part-number"@);
    let part_title = extra_text(extra, "part-title"@);
    &&& kind == monograph_kind_of(legacy.ref_type@)
    &&& title_built(title, monograph_title_text(kind, opt_view(ctx.title), part_number, part_title), opt_view(ctx.short_title))
    &&& opt_view(volume) == (if legacy.volume is Some { opt_view(legacy.volume) } else { opt_view(legacy.collection_number) })
    &&& opt_view(number) == (if kind == MonographType::Report { None } else { opt_view(legacy.number) })
    &&& numbering_view(numbering) == monograph_numbering(kind, opt_view(legacy.number), part_number, opt_view(legacy.chapter_number))
}

/// `m` is the monograph converted from `legacy` with context `ctx`.
pub open spec fn monograph_of(m: Monograph, legacy: LegacyReference, ctx: RefContext) -> bool {
    let extra = legacy.extra@;
    let t = legacy.ref_type@;
    let dimensions = extra_text(extra, "dimensions"@);
    &&& common_monograph_fields(legacy, ctx, m.kind, m.title, m.volume, m.number, m.numbering@)
    &&& m.id == ctx.id
    &&& m.created == ctx.dates.created
    &&& m.issued == ctx.dates.issued
    &&& m.copyright == ctx.dates.copyright
    &&& m.printing == ctx.dates.printing
    &&& m.url == ctx.url
    &&& m.accessed == ctx.accessed
    &&& m.language == ctx.language
    &&& opt_view(m.note) == (if (t == "personal_communication"@ || t == "personal-communication"@) && ctx.note is None {
        Some("personal communication"@)
    } else {
        opt_view(ctx.note)
    })
    &&& m.isbn == ctx.isbn
    &&& m.doi == ctx.doi
    &&& m.issue is None
    &&& m.edition == ctx.edition
    &&& opt_view(m.genre) == monograph_genre(t, opt_view(legacy.genre))
    &&& opt_view(m.medium) == opt_view(legacy.medium)
    &&& archive_info_of(m.archive_info, legacy)
    &&& opt_view(m.archive) == (if m.archive_info matches Some(ai) && ai.collection is Some { None } else { opt_view(legacy.archive) })
    &&& opt_view(m.archive_location) == opt_view(legacy.archive_location)
    &&& opt_view(m.status) == extra_text(extra, "status"@)
    &&& (m.available_date is Some) == (extra_date_text(extra, "available-date"@) is Some)
    &&& (m.available_date matches Some(d) ==> d.value@ == extra_date_text(extra, "available-date"@)->0 && d.note is None)
    &&& opt_view(m.size) == (if dimensions matches Some(d) && !is_duration(d) { dimensions } else { None })
    &&& opt_view(m.duration) == (if dimensions matches Some(d) && is_duration(d) { dimensions } else { None })
    &&& opt_view(m.references) == extra_text(extra, "references"@)
    &&& opt_view(m.scale) == extra_text(extra, "scale"@)
    &&& match legacy.page {
        Some(p) => m.pages matches Some(NumOrStr::Str(q)) && q@ == p@,
        None => m.pages is None,
    }
    &&& publisher_of(m.publisher, opt_view(legacy.publisher), opt_view(legacy.publisher_place))
    &&& people_hold(m.author, m.editor, m.translator, legacy)
    &&& container_link(m.container, legacy)
    &&& entries_from(m.contributors, monograph_steps(legacy))
    &&& original_link(m.original, legacy)
    &&& event_link_of(m.event, legacy)
}

/// `c` is the classic converted from `legacy` with context `ctx`.
pub open spec fn classic_of(c: Classic, legacy: LegacyReference, ctx: RefContext) -> bool {
    &&& common_monograph_fields(legacy, ctx, monograph_kind_of(legacy.ref_type@), c.title, c.volume, c.number, c.numbering@)
    &&& c.id == ctx.id
    &&& c.created == ctx.dates.created
    &&& c.issued == ctx.dates.issued
    &&& c.url == ctx.url
    &&& c.accessed == ctx.accessed
    &&& c.language == ctx.language
    &&& c.note == ctx.note
    &&& c.issue is None
    &&& c.edition == ctx.edition
    &&& publisher_of(c.publisher, opt_view(legacy.publisher), opt_view(legacy.publisher_place))
    &&& people_hold(c.author, c.editor, c.translator, legacy)
    &&& container_link(c.container, legacy)
    &&& original_link(c.original, legacy)
}

/// What a legacy record converts to.
#[derive(Debug, Clone)]
pub enum ConvertedReference {
    /// A monograph.
    Monograph(Monograph),
    /// A classic work.
    Classic(Classic),
    /// An event.
    Event(Event),
    /// A dataset.
    Dataset(Dataset),
    /// Software.
    Software(Software),
    /// A legal case.
    LegalCase(LegalCase),
    /// A statute.
    Statute(Statute),
    /// A regulation.
    Regulation(Regulation),
    /// A treaty.
    Treaty(Treaty),
    /// A hearing.
    Hearing(Hearing),
    /// A patent.
    Patent(Patent),
    /// A standard.
    Standard(Standard),
    /// An audio-visual work.
    AudioVisual(AudioVisualWork),
    /// A component of a monographic collection.
    CollectionComponent(CollectionComponent),
    /// A component of a serial.
    SerialComponent(SerialComponent),
}

/// Appends `s` to `r`.
fn append(r: &mut String, s: &str)
    ensures
        final(r)@ == old(r)@ + s@,
{
    push_str(r, s);
}

/// The title text of a monograph, built as [`monograph_title_text`] says.
fn monograph_title(kind: MonographType, title: &Option<String>, part_number: &Option<String>, part_title: &Option<String>) -> (r: Option<String>)
    ensures
        opt_view(r) == monograph_title_text(kind, opt_view(*title), opt_view(*part_number), opt_view(*part_title)),
{
    if kind == MonographType::Webpage {
        match title {
            Some(base) => {
                let mut combined = owned(base.as_str());
                if let Some(p) = part_number {
                    append(&mut combined, ": Pt. ");
                    append(&mut combined, p.as_str());
                }
                if let Some(q) = part_title {
                    if part_number.is_none() {
                        append(&mut combined, ": ");
                    } else {
                        append(&mut combined, ". ");
                    }
                    append(&mut combined, q.as_str());
                }
                Some(combined)
            },
            None => None,
        }
    } else if part_title.is_some() {
        copy_opt(part_title)
    } else {
        copy_opt(title)
    }
}

/// Whether a `dimensions` value is a running time.
fn dimensions_is_duration(d: &str) -> (b: bool)
    ensures
        b == is_duration(d@),
{
    let v = chars_of(d);
    if v.len() == 0 {
        return false;
    }
    if v[0] == 'P' {
        return true;
    }
    if '0' <= v[0] && v[0] <= '9' {
        crate::text::contains_char(&v, ':')
    } else {
        false
    }
}

/// The numbering of a converted monograph.
fn monograph_numbering_of(kind: MonographType, number: &Option<String>, part_number: &Option<String>, chapter: &Option<String>) -> (r: Vec<Numbering>)
    ensures
        numbering_view(r@) == monograph_numbering(kind, opt_view(*number), opt_view(*part_number), opt_view(*chapter)),
{
    let mut v: Vec<Numbering> = Vec::new();
    if kind == MonographType::Report {
        if let Some(n) = number {
            v.push(Numbering { kind: NumberingType::Report, value: owned(n.as_str()) });
        }
    }
    proof {
        let a: Seq<(NumberingType, Seq<char>)> = if kind == MonographType::Report && number is Some { seq![(NumberingType::Report, number->0@)] } else { Seq::empty() };
        assert(numbering_view(v@) =~= a);
    }
    let ghost before = v@;
    if let Some(p) = part_number {
        v.push(Numbering { kind: NumberingType::Part, value: owned(p.as_str()) });
        proof {
            assert(numbering_view(v@) =~= numbering_view(before).push((NumberingType::Part, p@)));
        }
    }
    let ghost middle = v@;
    if let Some(c) = chapter {
        v.push(Numbering { kind: NumberingType::Chapter, value: owned(c.as_str()) });
        proof {
            assert(numbering_view(v@) =~= numbering_view(middle).push((NumberingType::Chapter, c@)));
        }
    }
    v
}

/// Convert a legacy record on the monographic route: a `classic` becomes a
/// classic work, every other type a monograph of the subtype its type names.
pub fn monograph_from_legacy(legacy: &LegacyReference, ctx: RefContext) -> (r: ConvertedReference)
    requires
        legacy_renderable(*legacy),
    ensures
        legacy.ref_type@ == "classic"@ ==> (r matches ConvertedReference::Classic(c) && classic_of(c, *legacy, ctx)),
        legacy.ref_type@ != "classic"@ ==> (r matches ConvertedReference::Monograph(m) && monograph_of(m, *legacy, ctx)),
{
    let ghost ctx0 = ctx;
    let kind = monograph_kind(legacy.ref_type.as_str());
    let part_number = legacy_extra_str(legacy, "part-number");
    let part_title = legacy_extra_str(legacy, "part-title");
    let title_text = monograph_title(kind, &ctx.title, &part_number, &part_title);
    let short = copy_opt(&ctx.short_title);
    let title = build_title(title_text, short);
    let volume = match &legacy.volume {
        Some(v) => Some(owned(v.as_str())),
        None => copy_opt(&legacy.collection_number),
    };
    let number = if kind == MonographType::Report { None } else { copy_opt(&legacy.number) };
    let numbering = monograph_numbering_of(kind, &legacy.number, &part_number, &legacy.chapter_number);
    if str_eq(legacy.ref_type.as_str(), "classic") {
        proof {
            reveal_strlit("classic");
        }
        return ConvertedReference::Classic(Classic {
            id: ctx.id,
            title,
            volume,
            issue: None,
            edition: ctx.edition,
            number,
            numbering,
            created: ctx.dates.created,
            issued: ctx.dates.issued,
            url: ctx.url,
            accessed: ctx.accessed,
            language: ctx.language,
            note: ctx.note,
            publisher: publisher_from_parts(copy_opt(&legacy.publisher), copy_opt(&legacy.publisher_place)),
            author: contributor_from_opt_names(&legacy.author),
            editor: contributor_from_opt_names(&legacy.editor),
            translator: contributor_from_opt_names(&legacy.translator),
            container: legacy_container_relation(legacy),
            original: legacy_original_relation(legacy),
        });
    }
    let t = legacy.ref_type.as_str();
    let personal = str_eq(t, "personal_communication") || str_eq(t, "personal-communication");
    let note = if personal && ctx.note.is_none() {
        Some(owned("personal communication"))
    } else {
        ctx.note
    };
    let archive_info = archive_info_from_legacy_flat(legacy);
    let archive = match &archive_info {
        Some(ai) => if ai.collection.is_some() { None } else { copy_opt(&legacy.archive) },
        None => copy_opt(&legacy.archive),
    };
    let dimensions = legacy_extra_str(legacy, "dimensions");
    let (size, duration) = match dimensions {
        Some(d) => if dimensions_is_duration(d.as_str()) { (None, Some(d)) } else { (Some(d), None) },
        None => (None, None),
    };
    let genre = match &legacy.genre {
        Some(g) => Some(owned(g.as_str())),
        None => if str_eq(t, "musical_score") || str_eq(t, "pamphlet") || str_eq(t, "post-weblog") {
            Some(owned(t))
        } else {
            None
        },
    };
    let pages = match &legacy.page {
        Some(p) => Some(NumOrStr::Str(owned(p.as_str()))),
        None => None,
    };
    let m = Monograph {
        id: ctx.id,
        kind,
        title,
        created: ctx.dates.created,
        issued: ctx.dates.issued,
        copyright: ctx.dates.copyright,
        printing: ctx.dates.printing,
        url: ctx.url,
        accessed: ctx.accessed,
        language: ctx.language,
        note,
        isbn: ctx.isbn,
        doi: ctx.doi,
        volume,
        issue: None,
        edition: ctx.edition,
        number,
        numbering,
        genre,
        medium: copy_opt(&legacy.medium),
        archive,
        archive_location: copy_opt(&legacy.archive_location),
        archive_info,
        status: legacy_extra_str(legacy, "status"),
        available_date: legacy_extra_date(legacy, "available-date"),
        size,
        duration,
        references: legacy_extra_str(legacy, "references"),
        scale: legacy_extra_str(legacy, "scale"),
        pages,
        publisher: publisher_from_parts(copy_opt(&legacy.publisher), copy_opt(&legacy.publisher_place)),
        author: contributor_from_opt_names(&legacy.author),
        editor: contributor_from_opt_names(&legacy.editor),
        translator: contributor_from_opt_names(&legacy.translator),
        contributors: monograph_contributors(legacy),
        container: legacy_container_relation(legacy),
        original: legacy_original_relation(legacy),
        event: legacy_event_relation(legacy),
    };
    ConvertedReference::Monograph(m)
}

/// The genre of a converted document: its own, else the legacy type for the
/// archival and graphic types whose `ref_type` round trip depends on it.
pub open spec fn document_genre(t: Seq<char>, genre: Option<Seq<char>>) -> Option<Seq<char>> {
    if genre is Some {
        genre
    } else if t == "map"@ || t == "figure"@ || t == "graphic"@ || t == "periodical"@ || t == "collection"@ {
        Some(t)
    } else {
        None
    }
}

/// `m` is the generic document converted from `legacy` with context `ctx`:
/// a monograph of subtype `Document` with the record's own title, volume,
/// number, medium, pages and archival location, and no numbering, year
/// substitutes or further metadata.
pub open spec fn document_of(m: Monograph, legacy: LegacyReference, ctx: RefContext) -> bool {
    &&& m.kind == MonographType::Document
    &&& title_built(m.title, opt_view(ctx.title), opt_view(ctx.short_title))
    &&& m.id == ctx.id
    &&& m.created == ctx.dates.created
    &&& m.issued == ctx.dates.issued
    &&& m.copyright is None && m.printing is None
    &&& m.url == ctx.url
    &&& m.accessed == ctx.accessed
    &&& m.language == ctx.language
    &&& m.note == ctx.note
    &&& m.isbn == ctx.isbn
    &&& m.doi == ctx.doi
    &&& opt_view(m.volume) == opt_view(legacy.volume)
    &&& m.issue is None
    &&& opt_view(m.edition) == opt_view(legacy.edition)
    &&& opt_view(m.number) == opt_view(legacy.number)
    &&& m.numbering@.len() == 0
    &&& opt_view(m.genre) == document_genre(legacy.ref_type@, opt_view(legacy.genre))
    &&& opt_view(m.medium) == opt_view(legacy.medium)
    &&& archive_info_of(m.archive_info, legacy)
    &&& opt_view(m.archive) == (if m.archive_info matches Some(ai) && ai.collection is Some { None } else { opt_view(legacy.archive) })
    &&& opt_view(m.archive_location) == opt_view(legacy.archive_location)
    &&& m.status is None && m.available_date is None && m.size is None && m.duration is None
    &&& m.references is None && m.scale is None
    &&& match legacy.page {
        Some(p) => m.pages matches Some(NumOrStr::Str(q)) && q@ == p@,
        None => m.pages is None,
    }
    &&& publisher_of(m.publisher, opt_view(legacy.publisher), opt_view(legacy.publisher_place))
    &&& people_hold(m.author, m.editor, m.translator, legacy)
    &&& entries_from(m.contributors, basic_steps(legacy))
    &&& parent_link(m.container, opt_view(legacy.container_title), None)
    &&& original_link(m.original, legacy)
    &&& m.event is None
}

/// Convert a legacy record on the document route (documents, maps, figures,
/// graphics, periodicals, archival collections, and unrouted types).
pub fn document_from_legacy(legacy: &LegacyReference, ctx: RefContext) -> (r: Monograph)
    requires
        legacy_renderable(*legacy),
    ensures
        document_of(r, *legacy, ctx),
{
    let title = build_title(copy_opt(&ctx.title), copy_opt(&ctx.short_title));
    let archive_info = archive_info_from_legacy_flat(legacy);
    let archive = match &archive_info {
        Some(ai) => if ai.collection.is_some() { None } else { copy_opt(&legacy.archive) },
        None => copy_opt(&legacy.archive),
    };
    let t = legacy.ref_type.as_str();
    let genre = match &legacy.genre {
        Some(g) => Some(owned(g.as_str())),
        None => if str_eq(t, "map") || str_eq(t, "figure") || str_eq(t, "graphic") || str_eq(t, "periodical")
            || str_eq(t, "collection") {
            Some(owned(t))
        } else {
            None
        },
    };
    let pages = match &legacy.page {
        Some(p) => Some(NumOrStr::Str(owned(p.as_str()))),
        None => None,
    };
    Monograph {
        id: ctx.id,
        kind: MonographType::Document,
        title,
        created: ctx.dates.created,
        issued: ctx.dates.issued,
        copyright: None,
        printing: None,
        url: ctx.url,
        accessed: ctx.accessed,
        language: ctx.language,
        note: ctx.note,
        isbn: ctx.isbn,
        doi: ctx.doi,
        volume: copy_opt(&legacy.volume),
        issue: None,
        edition: copy_opt(&legacy.edition),
        number: copy_opt(&legacy.number),
        numbering: Vec::new(),
        genre,
        medium: copy_opt(&legacy.medium),
        archive,
        archive_location: copy_opt(&legacy.archive_location),
        archive_info,
        status: None,
        available_date: None,
        size: None,
        duration: None,
        references: None,
        scale: None,
        pages,
        publisher: publisher_from_parts(copy_opt(&legacy.publisher), copy_opt(&legacy.publisher_place)),
        author: contributor_from_opt_names(&legacy.author),
        editor: contributor_from_opt_names(&legacy.editor),
        translator: contributor_from_opt_names(&legacy.translator),
        contributors: basic_contributors(legacy),
        container: relation_parent(copy_opt(&legacy.container_title), None),
        original: legacy_original_relation(legacy),
        event: None,
    }
}

/// `m` is the preprint converted from `legacy` with context `ctx`: a
/// monograph of subtype `Preprint` whose number becomes a report numbering,
/// with the record's genre, medium and archival location, and no volume,
/// edition, pages or further metadata.
pub open spec fn preprint_of(m: Monograph, legacy: LegacyReference, ctx: RefContext) -> bool {
    &&& m.kind == MonographType::Preprint
    &&& title_built(m.title, opt_view(ctx.title), opt_view(ctx.short_title))
    &&& m.id == ctx.id
    &&& m.created == ctx.dates.created
    &&& m.issued == ctx.dates.issued
    &&& m.copyright is None && m.printing is None
    &&& m.url == ctx.url
    &&& m.accessed == ctx.accessed
    &&& m.language == ctx.language
    &&& m.note == ctx.note
    &&& m.isbn == ctx.isbn
    &&& m.doi == ctx.doi
    &&& m.volume is None && m.issue is None && m.edition is None && m.number is None
    &&& numbering_view(m.numbering@) == (match legacy.number {
        Some(n) => seq![(NumberingType::Report, n@)],
        None => Seq::empty(),
    })
    &&& opt_view(m.genre) == opt_view(legacy.genre)
    &&& opt_view(m.medium) == opt_view(legacy.medium)
    &&& archive_info_of(m.archive_info, legacy)
    &&& opt_view(m.archive) == (if m.archive_info matches Some(ai) && ai.collection is Some { None } else { opt_view(legacy.archive) })
    &&& opt_view(m.archive_location) == opt_view(legacy.archive_location)
    &&& m.status is None && m.available_date is None && m.size is None && m.duration is None
    &&& m.references is None && m.scale is None && m.pages is None
    &&& publisher_of(m.publisher, opt_view(legacy.publisher), opt_view(legacy.publisher_place))
    &&& people_hold(m.author, m.editor, m.translator, legacy)
    &&& entries_from(m.contributors, basic_steps(legacy))
    &&& m.container is None && m.original is None && m.event is None
}

/// Convert a legacy record on the preprint route (an `article` without a
/// container title).
pub fn preprint_from_legacy(legacy: &LegacyReference, ctx: RefContext) -> (r: Monograph)
    ensures
        preprint_of(r, *legacy, ctx),
{
    let title = build_title(copy_opt(&ctx.title), copy_opt(&ctx.short_title));
    let archive_info = archive_info_from_legacy_flat(legacy);
    let archive = match &archive_info {
        Some(ai) => if ai.collection.is_some() { None } else { copy_opt(&legacy.archive) },
        None => copy_opt(&legacy.archive),
    };
    let mut numbering: Vec<Numbering> = Vec::new();
    if let Some(n) = &legacy.number {
        numbering.push(Numbering { kind: NumberingType::Report, value: owned(n.as_str()) });
    }
    proof {
        assert(numbering_view(numbering@) =~= match legacy.number {
            Some(n) => seq![(NumberingType::Report, n@)],
            None => Seq::empty(),
        });
    }
    Monograph {
        id: ctx.id,
        kind: MonographType::Preprint,
        title,
        created: ctx.dates.created,
        issued: ctx.dates.issued,
        copyright: None,
        printing: None,
        url: ctx.url,
        accessed: ctx.accessed,
        language: ctx.language,
        note: ctx.note,
        isbn: ctx.isbn,
        doi: ctx.doi,
        volume: None,
        issue: None,
        edition: None,
        number: None,
        numbering,
        genre: copy_opt(&legacy.genre),
        medium: copy_opt(&legacy.medium),
        archive,
        archive_location: copy_opt(&legacy.archive_location),
        archive_info,
        status: None,
        available_date: None,
        size: None,
        duration: None,
        references: None,
        scale: None,
        pages: None,
        publisher: publisher_from_parts(copy_opt(&legacy.publisher), copy_opt(&legacy.publisher_place)),
        author: contributor_from_opt_names(&legacy.author),
        editor: contributor_from_opt_names(&legacy.editor),
        translator: contributor_from_opt_names(&legacy.translator),
        contributors: basic_contributors(legacy),
        container: None,
        original: None,
        event: None,
    }
}

/// The roles an event's contributors are read under, in order: the authors
/// as performers, narrators, chairs, producers (else executive producers)
/// and hosts.
pub open spec fn event_steps(legacy: LegacyReference) -> Seq<((int, Seq<char>), Option<Seq<NameView>>)> {
    let extra = legacy.extra@;
    seq![
        (role_view(ContributorRole::Performer), opt_names(legacy.author)),
        (role_view(ContributorRole::Narrator), extra_names(extra, "narrator"@)),
        (unknown_role("chair"@), extra_names(extra, "chair"@)),
        (role_view(ContributorRole::Producer), extra_names_either(extra, "producer"@, "executive-producer"@)),
        (role_view(ContributorRole::Host), extra_names(extra, "host"@))
    ]
}

/// An event's contributor entries: those of [`event_steps`], then the
/// publisher as organizer (a name used whole), when there is one.
pub open spec fn event_entries(legacy: LegacyReference) -> Seq<(Seq<(int, Seq<char>)>, NameView)> {
    let base = pushed_all(Seq::empty(), event_steps(legacy));
    match legacy.publisher {
        Some(p) => base.push((seq![unknown_role("organizer"@)], NameView::Simple(p@))),
        None => base,
    }
}

fn event_contributors(legacy: &LegacyReference) -> (r: Vec<ContributorEntry>)
    ensures
        entries_view(r@) == event_entries(*legacy),
{
    let mut steps: Vec<(ContributorRole, Option<Vec<NameParts>>)> = Vec::new();
    steps.push(step(ContributorRole::Performer, copy_names(&legacy.author)));
    steps.push(step(ContributorRole::Narrator, legacy_extra_names(legacy, "narrator")));
    steps.push(step(unknown("chair"), legacy_extra_names(legacy, "chair")));
    steps.push(step(ContributorRole::Producer, legacy_extra_names_either(legacy, "producer", "executive-producer")));
    steps.push(step(ContributorRole::Host, legacy_extra_names(legacy, "host")));
    proof {
        assert(steps@.map_values(|s: (ContributorRole, Option<Vec<NameParts>>)| step_view(s)) =~= event_steps(*legacy));
    }
    let mut entries: Vec<ContributorEntry> = Vec::new();
    proof {
        assert(entries_view(entries@) =~= Seq::empty());
    }
    push_steps(&mut entries, &steps);
    if let Some(p) = &legacy.publisher {
        let mut roles: Vec<ContributorRole> = Vec::new();
        roles.push(unknown("organizer"));
        let ghost before = entries@;
        entries.push(ContributorEntry { roles, contributor: Contributor::SimpleName(owned(p.as_str())) });
        proof {
            assert(roles@.map_values(|x: ContributorRole| role_view(x)) =~= seq![unknown_role("organizer"@)]);
            assert(entries_view(entries@) =~= entries_view(before).push(entry_view(entries@[before.len() as int])));
        }
    }
    entries
}

/// `e` is the event converted from `legacy` with context `ctx`: its title;
/// the container and series titles (the series from `event-title`); the place
/// (`event-place`, else the publisher place); the date (`event-date`, else the
/// issued date when it is not empty); the available date; the genre (seeded
/// with the type for speeches and performances); the publisher as organizer;
/// and the shared URL, accessed date, language and note.
pub open spec fn event_of(e: Event, legacy: LegacyReference, ctx: RefContext) -> bool {
    let extra = legacy.extra@;
    let t = legacy.ref_type@;
    &&& e.id == ctx.id
    &&& original_link(e.original, legacy)
    &&& title_built(e.title, opt_view(ctx.title), opt_view(ctx.short_title))
    &&& opt_view(e.container_title) == opt_view(legacy.container_title)
    &&& opt_view(e.series_title) == extra_text(extra, "event-title"@)
    &&& opt_view(e.location) == (if extra_text(extra, "event-place"@) is Some {
        extra_text(extra, "event-place"@)
    } else {
        opt_view(legacy.publisher_place)
    })
    &&& (if extra_date_text(extra, "event-date"@) is Some {
        e.date matches Some(d) && d.value@ == extra_date_text(extra, "event-date"@)->0 && d.note is None
    } else if ctx.dates.issued.value@.len() > 0 {
        e.date == Some(ctx.dates.issued)
    } else {
        e.date is None
    })
    &&& (e.available_date is Some) == (extra_date_text(extra, "available-date"@) is Some)
    &&& (e.available_date matches Some(d) ==> d.value@ == extra_date_text(extra, "available-date"@)->0 && d.note is None)
    &&& opt_view(e.genre) == (if legacy.genre is Some {
        opt_view(legacy.genre)
    } else if t == "speech"@ || t == "performance"@ {
        Some(t)
    } else {
        None
    })
    &&& e.network is None
    &&& opt_view(e.organizer) == opt_view(legacy.publisher)
    &&& e.url == ctx.url
    &&& e.accessed == ctx.accessed
    &&& e.language == ctx.language
    &&& e.note == ctx.note
    &&& entries_view(e.contributors@) == event_entries(legacy)
}

/// Convert a legacy record on the event route (speeches, presentations,
/// performances, events).
pub fn event_from_legacy(legacy: &LegacyReference, ctx: RefContext) -> (r: Event)
    requires
        legacy_renderable(*legacy),
    ensures
        event_of(r, *legacy, ctx),
{
    let title = build_title(copy_opt(&ctx.title), copy_opt(&ctx.short_title));
    let location = match legacy_extra_str(legacy, "event-place") {
        Some(p) => Some(p),
        None => copy_opt(&legacy.publisher_place),
    };
    let date = match legacy_extra_date(legacy, "event-date") {
        Some(d) => Some(d),
        None => if ctx.dates.issued.is_empty() { None } else { Some(ctx.dates.issued) },
    };
    let t = legacy.ref_type.as_str();
    let genre = match &legacy.genre {
        Some(g) => Some(owned(g.as_str())),
        None => if str_eq(t, "speech") || str_eq(t, "performance") { Some(owned(t)) } else { None },
    };
    Event {
        original: legacy_original_relation(legacy),
        id: ctx.id,
        title,
        container_title: copy_opt(&legacy.container_title),
        series_title: legacy_extra_str(legacy, "event-title"),
        location,
        date,
        available_date: legacy_extra_date(legacy, "available-date"),
        genre,
        network: None,
        organizer: copy_opt(&legacy.publisher),
        url: ctx.url,
        accessed: ctx.accessed,
        language: ctx.language,
        note: ctx.note,
        contributors: event_contributors(legacy),
    }
}

/// `d` is the dataset converted from `legacy` with context `ctx`: its title,
/// dates, publisher, the `version` from `extra`, its genre, its medium as the
/// format, and the shared DOI, URL, accessed date, language and note.
pub open spec fn dataset_of(d: Dataset, legacy: LegacyReference, ctx: RefContext) -> bool {
    &&& d.id == ctx.id
    &&& opt_contributor_view(d.author) == opt_list(opt_names(legacy.author))
    &&& title_built(d.title, opt_view(ctx.title), opt_view(ctx.short_title))
    &&& d.created == ctx.dates.created
    &&& d.issued == ctx.dates.issued
    &&& publisher_of(d.publisher, opt_view(legacy.publisher), opt_view(legacy.publisher_place))
    &&& opt_view(d.version) == extra_text(legacy.extra@, "version"@)
    &&& opt_view(d.genre) == opt_view(legacy.genre)
    &&& opt_view(d.format) == opt_view(legacy.medium)
    &&& d.size is None && d.repository is None
    &&& d.doi == ctx.doi
    &&& d.url == ctx.url
    &&& d.accessed == ctx.accessed
    &&& d.language == ctx.language
    &&& d.note == ctx.note
}

/// Convert a legacy record on the dataset route.
pub fn dataset_from_legacy(legacy: &LegacyReference, ctx: RefContext) -> (r: Dataset)
    ensures
        dataset_of(r, *legacy, ctx),
{
    Dataset {
        author: contributor_from_opt_names(&legacy.author),
        id: ctx.id,
        title: build_title(copy_opt(&ctx.title), copy_opt(&ctx.short_title)),
        created: ctx.dates.created,
        issued: ctx.dates.issued,
        publisher: publisher_from_parts(copy_opt(&legacy.publisher), copy_opt(&legacy.publisher_place)),
        version: legacy_extra_str(legacy, "version"),
        genre: copy_opt(&legacy.genre),
        format: copy_opt(&legacy.medium),
        size: None,
        repository: None,
        doi: ctx.doi,
        url: ctx.url,
        accessed: ctx.accessed,
        language: ctx.language,
        note: ctx.note,
    }
}

/// `s` is the software converted from `legacy` with context `ctx`: its title,
/// dates, publisher (only with a publisher name), the `version` from `extra`,
/// its medium as the platform, and the shared DOI, URL, accessed date,
/// language and note.
pub open spec fn software_of(s: Software, legacy: LegacyReference, ctx: RefContext) -> bool {
    &&& s.id == ctx.id
    &&& original_link(s.original, legacy)
    &&& opt_contributor_view(s.author) == opt_list(opt_names(legacy.author))
    &&& title_built(s.title, opt_view(ctx.title), opt_view(ctx.short_title))
    &&& s.created == ctx.dates.created
    &&& s.issued == ctx.dates.issued
    &&& match legacy.publisher {
        Some(n) => s.publisher matches Some(p) && p.name@ == n@ && opt_view(p.place) == opt_view(legacy.publisher_place),
        None => s.publisher is None,
    }
    &&& opt_view(s.version) == extra_text(legacy.extra@, "version"@)
    &&& s.repository is None && s.license is None
    &&& opt_view(s.platform) == opt_view(legacy.medium)
    &&& s.doi == ctx.doi
    &&& s.url == ctx.url
    &&& s.accessed == ctx.accessed
    &&& s.language == ctx.language
    &&& s.note == ctx.note
}

/// Convert a legacy record on the software route.
pub fn software_from_legacy(legacy: &LegacyReference, ctx: RefContext) -> (r: Software)
    requires
        legacy_renderable(*legacy),
    ensures
        software_of(r, *legacy, ctx),
{
    let publisher = match &legacy.publisher {
        Some(n) => Some(Publisher { name: owned(n.as_str()), place: copy_opt(&legacy.publisher_place) }),
        None => None,
    };
    Software {
        original: legacy_original_relation(legacy),
        author: contributor_from_opt_names(&legacy.author),
        id: ctx.id,
        title: build_title(copy_opt(&ctx.title), copy_opt(&ctx.short_title)),
        created: ctx.dates.created,
        issued: ctx.dates.issued,
        publisher,
        version: legacy_extra_str(legacy, "version"),
        repository: None,
        license: None,
        platform: copy_opt(&legacy.medium),
        doi: ctx.doi,
        url: ctx.url,
        accessed: ctx.accessed,
        language: ctx.language,
        note: ctx.note,
    }
}

/// `r` is the legal case converted from `legacy` with context `ctx`.
pub open spec fn legal_case_of(r: LegalCase, legacy: LegacyReference, ctx: RefContext) -> bool {
    &&& r.id == ctx.id
    &&& original_link(r.original, legacy)
    &&& title_built(r.title, opt_view(ctx.title), opt_view(ctx.short_title))
    &&& opt_view(r.authority) == opt_view(legacy.authority)
    &&& opt_view(r.volume) == opt_view(legacy.volume)
    &&& opt_view(r.reporter) == opt_view(legacy.container_title)
    &&& opt_view(r.page) == opt_view(legacy.page)
    &&& r.created == ctx.dates.created
    &&& r.issued == ctx.dates.issued
    &&& r.doi == ctx.doi
    &&& r.url == ctx.url
    &&& r.accessed == ctx.accessed
    &&& r.language == ctx.language
    &&& r.note == ctx.note
}

/// Convert a legacy record on the legal case route.
pub fn legal_case_from_legacy(legacy: &LegacyReference, ctx: RefContext) -> (r: LegalCase)
    requires
        legacy_renderable(*legacy),
    ensures
        legal_case_of(r, *legacy, ctx),
{
    LegalCase {
        original: legacy_original_relation(legacy),
        id: ctx.id,
        title: build_title(copy_opt(&ctx.title), copy_opt(&ctx.short_title)),
        authority: copy_opt(&legacy.authority),
        volume: copy_opt(&legacy.volume),
        reporter: copy_opt(&legacy.container_title),
        page: copy_opt(&legacy.page),
        created: ctx.dates.created,
        issued: ctx.dates.issued,
        doi: ctx.doi,
        url: ctx.url,
        accessed: ctx.accessed,
        language: ctx.language,
        note: ctx.note,
    }
}

/// `r` is the statute converted from `legacy` with context `ctx`.
pub open spec fn statute_of(r: Statute, legacy: LegacyReference, ctx: RefContext) -> bool {
    &&& r.id == ctx.id
    &&& original_link(r.original, legacy)
    &&& title_built(r.title, opt_view(ctx.title), opt_view(ctx.short_title))
    &&& opt_view(r.authority) == opt_view(legacy.authority)
    &&& opt_view(r.volume) == opt_view(legacy.volume)
    &&& opt_view(r.code) == opt_view(legacy.container_title)
    &&& opt_view(r.number) == opt_view(legacy.number)
    &&& opt_view(r.page) == opt_view(legacy.page)
    &&& opt_view(r.section) == opt_view(legacy.section)
    &&& opt_view(r.chapter_number) == opt_view(legacy.chapter_number)
    &&& r.created == ctx.dates.created
    &&& r.issued == ctx.dates.issued
    &&& r.url == ctx.url
    &&& r.accessed == ctx.accessed
    &&& r.language == ctx.language
    &&& r.note == ctx.note
}

/// Convert a legacy record on the statute route.
pub fn statute_from_legacy(legacy: &LegacyReference, ctx: RefContext) -> (r: Statute)
    requires
        legacy_renderable(*legacy),
    ensures
        statute_of(r, *legacy, ctx),
{
    Statute {
        original: legacy_original_relation(legacy),
        id: ctx.id,
        title: build_title(copy_opt(&ctx.title), copy_opt(&ctx.short_title)),
        authority: copy_opt(&legacy.authority),
        volume: copy_opt(&legacy.volume),
        code: copy_opt(&legacy.container_title),
        number: copy_opt(&legacy.number),
        page: copy_opt(&legacy.page),
        section: copy_opt(&legacy.section),
        chapter_number: copy_opt(&legacy.chapter_number),
        created: ctx.dates.created,
        issued: ctx.dates.issued,
        url: ctx.url,
        accessed: ctx.accessed,
        language: ctx.language,
        note: ctx.note,
    }
}

/// `r` is the regulation converted from `legacy` with context `ctx`.
pub open spec fn regulation_of(r: Regulation, legacy: LegacyReference, ctx: RefContext) -> bool {
    &&& r.id == ctx.id
    &&& original_link(r.original, legacy)
    &&& title_built(r.title, opt_view(ctx.title), opt_view(ctx.short_title))
    &&& opt_view(r.authority) == opt_view(legacy.authority)
    &&& opt_view(r.volume) == opt_view(legacy.volume)
    &&& opt_view(r.code) == opt_view(legacy.container_title)
    &&& opt_view(r.section) == opt_view(legacy.section)
    &&& r.created == ctx.dates.created
    &&& r.issued == ctx.dates.issued
    &&& r.url == ctx.url
    &&& r.accessed == ctx.accessed
    &&& r.language == ctx.language
    &&& r.note == ctx.note
}

/// Convert a legacy record on the regulation route.
pub fn regulation_from_legacy(legacy: &LegacyReference, ctx: RefContext) -> (r: Regulation)
    requires
        legacy_renderable(*legacy),
    ensures
        regulation_of(r, *legacy, ctx),
{
    Regulation {
        original: legacy_original_relation(legacy),
        id: ctx.id,
        title: build_title(copy_opt(&ctx.title), copy_opt(&ctx.short_title)),
        authority: copy_opt(&legacy.authority),
        volume: copy_opt(&legacy.volume),
        code: copy_opt(&legacy.container_title),
        section: copy_opt(&legacy.section),
        created: ctx.dates.created,
        issued: ctx.dates.issued,
        url: ctx.url,
        accessed: ctx.accessed,
        language: ctx.language,
        note: ctx.note,
    }
}

/// `r` is the treaty converted from `legacy` with context `ctx`.
pub open spec fn treaty_of(r: Treaty, legacy: LegacyReference, ctx: RefContext) -> bool {
    &&& r.id == ctx.id
    &&& original_link(r.original, legacy)
    &&& opt_contributor_view(r.author) == opt_list(opt_names(legacy.author))
    &&& title_built(r.title, opt_view(ctx.title), opt_view(ctx.short_title))
    &&& opt_view(r.volume) == opt_view(legacy.volume)
    &&& opt_view(r.reporter) == opt_view(legacy.container_title)
    &&& opt_view(r.page) == opt_view(legacy.page)
    &&& r.created == ctx.dates.created
    &&& r.issued == ctx.dates.issued
    &&& r.url == ctx.url
    &&& r.accessed == ctx.accessed
    &&& r.language == ctx.language
    &&& r.note == ctx.note
}

/// Convert a legacy record on the treaty route.
pub fn treaty_from_legacy(legacy: &LegacyReference, ctx: RefContext) -> (r: Treaty)
    requires
        legacy_renderable(*legacy),
    ensures
        treaty_of(r, *legacy, ctx),
{
    Treaty {
        original: legacy_original_relation(legacy),
        author: contributor_from_opt_names(&legacy.author),
        id: ctx.id,
        title: build_title(copy_opt(&ctx.title), copy_opt(&ctx.short_title)),
        volume: copy_opt(&legacy.volume),
        reporter: copy_opt(&legacy.container_title),
        page: copy_opt(&legacy.page),
        created: ctx.dates.created,
        issued: ctx.dates.issued,
        url: ctx.url,
        accessed: ctx.accessed,
        language: ctx.language,
        note: ctx.note,
    }
}

/// `r` is the hearing converted from `legacy` with context `ctx`.
pub open spec fn hearing_of(r: Hearing, legacy: LegacyReference, ctx: RefContext) -> bool {
    &&& r.id == ctx.id
    &&& title_built(r.title, opt_view(ctx.title), opt_view(ctx.short_title))
    &&& opt_view(r.authority) == opt_view(legacy.authority)
    &&& opt_view(r.session_number) == opt_view(legacy.chapter_number)
    &&& r.created == ctx.dates.created
    &&& r.issued == ctx.dates.issued
    &&& r.url == ctx.url
    &&& r.accessed == ctx.accessed
    &&& r.language == ctx.language
    &&& r.note == ctx.note
}

/// Convert a legacy record on the hearing route.
pub fn hearing_from_legacy(legacy: &LegacyReference, ctx: RefContext) -> (r: Hearing)
    ensures
        hearing_of(r, *legacy, ctx),
{
    Hearing {
        id: ctx.id,
        title: build_title(copy_opt(&ctx.title), copy_opt(&ctx.short_title)),
        authority: copy_opt(&legacy.authority),
        session_number: copy_opt(&legacy.chapter_number),
        created: ctx.dates.created,
        issued: ctx.dates.issued,
        url: ctx.url,
        accessed: ctx.accessed,
        language: ctx.language,
        note: ctx.note,
    }
}

/// `r` is the patent converted from `legacy` with context `ctx`.
pub open spec fn patent_of(r: Patent, legacy: LegacyReference, ctx: RefContext) -> bool {
    &&& r.id == ctx.id
    &&& original_link(r.original, legacy)
    &&& opt_contributor_view(r.author) == opt_list(opt_names(legacy.author))
    &&& title_built(r.title, opt_view(ctx.title), opt_view(ctx.short_title))
    &&& r.patent_number@ == (match legacy.number { Some(x) => x@, None => Seq::empty() })
    &&& opt_view(r.authority) == opt_view(legacy.authority)
    &&& r.assignee is None
    &&& r.application_number is None
    &&& r.filing_date is None
    &&& r.jurisdiction is None
    &&& r.created == ctx.dates.created
    &&& r.issued == ctx.dates.issued
    &&& r.url == ctx.url
    &&& r.accessed == ctx.accessed
    &&& r.language == ctx.language
    &&& r.note == ctx.note
}

/// Convert a legacy record on the patent route.
pub fn patent_from_legacy(legacy: &LegacyReference, ctx: RefContext) -> (r: Patent)
    requires
        legacy_renderable(*legacy),
    ensures
        patent_of(r, *legacy, ctx),
{
    let patent_number = match &legacy.number { Some(x) => owned(x.as_str()), None => String::new() };
    Patent {
        original: legacy_original_relation(legacy),
        author: contributor_from_opt_names(&legacy.author),
        id: ctx.id,
        title: build_title(copy_opt(&ctx.title), copy_opt(&ctx.short_title)),
        patent_number,
        authority: copy_opt(&legacy.authority),
        assignee: None,
        application_number: None,
        filing_date: None,
        jurisdiction: None,
        created: ctx.dates.created,
        issued: ctx.dates.issued,
        url: ctx.url,
        accessed: ctx.accessed,
        language: ctx.language,
        note: ctx.note,
    }
}

/// `r` is the standard converted from `legacy` with context `ctx`.
pub open spec fn standard_of(r: Standard, legacy: LegacyReference, ctx: RefContext) -> bool {
    &&& r.id == ctx.id
    &&& original_link(r.original, legacy)
    &&& title_built(r.title, opt_view(ctx.title), opt_view(ctx.short_title))
    &&& opt_view(r.authority) == opt_view(legacy.authority)
    &&& r.standard_number@ == (match legacy.number { Some(x) => x@, None => Seq::empty() })
    &&& r.status is None
    &&& match legacy.publisher {
        Some(x) => r.publisher matches Some(p) && p.name@ == x@ && opt_view(p.place) == opt_view(legacy.publisher_place),
        None => r.publisher is None,
    }
    &&& r.created == ctx.dates.created
    &&& r.issued == ctx.dates.issued
    &&& r.url == ctx.url
    &&& r.accessed == ctx.accessed
    &&& r.language == ctx.language
    &&& r.note == ctx.note
}

/// Convert a legacy record on the standard route.
pub fn standard_from_legacy(legacy: &LegacyReference, ctx: RefContext) -> (r: Standard)
    requires
        legacy_renderable(*legacy),
    ensures
        standard_of(r, *legacy, ctx),
{
    let standard_number = match &legacy.number { Some(x) => owned(x.as_str()), None => String::new() };
    let publisher = match &legacy.publisher {
        Some(x) => Some(Publisher { name: owned(x.as_str()), place: copy_opt(&legacy.publisher_place) }),
        None => None,
    };
    Standard {
        original: legacy_original_relation(legacy),
        id: ctx.id,
        title: build_title(copy_opt(&ctx.title), copy_opt(&ctx.short_title)),
        authority: copy_opt(&legacy.authority),
        standard_number,
        status: None,
        publisher,
        created: ctx.dates.created,
        issued: ctx.dates.issued,
        url: ctx.url,
        accessed: ctx.accessed,
        language: ctx.language,
        note: ctx.note,
    }
}

/// Whether a bill without a title is the record of a proceeding: it has an
/// authority or a chapter number.
pub open spec fn bill_proceeding(legacy: LegacyReference) -> bool {
    legacy.title is None && (legacy.authority is Some || legacy.chapter_number is Some)
}

/// Whether a bill without a title is a published record: it has a container
/// title, a volume and pages.
pub open spec fn bill_record(legacy: LegacyReference) -> bool {
    legacy.title is None && legacy.container_title is Some && legacy.volume is Some && legacy.page is Some
}

/// The title a titleless bill falls back to: a record's container title; a
/// proceeding's number, else its container title.
pub open spec fn bill_fallback_title(legacy: LegacyReference) -> Option<Seq<char>> {
    if bill_record(legacy) {
        opt_view(legacy.container_title)
    } else if legacy.number is Some {
        opt_view(legacy.number)
    } else {
        opt_view(legacy.container_title)
    }
}

/// `m` is the bill proceeding or record converted from `legacy` with context
/// `ctx`: a document titled from the context (else by [`bill_fallback_title`]),
/// published by its authority, numbered by its pages, with its chapter number
/// as numbering and `bill-proceeding` or `bill-record` as genre.
pub open spec fn bill_document_of(m: Monograph, legacy: LegacyReference, ctx: RefContext) -> bool {
    &&& m.kind == MonographType::Document
    &&& (if opt_view(ctx.title) is Some {
        title_built(m.title, opt_view(ctx.title), opt_view(ctx.short_title))
    } else {
        match bill_fallback_title(legacy) {
            Some(x) => m.title matches Some(Title::Single(y)) && y@ == x,
            None => m.title is None,
        }
    })
    &&& m.id == ctx.id
    &&& m.created == ctx.dates.created
    &&& m.issued == ctx.dates.issued
    &&& m.copyright is None && m.printing is None
    &&& m.url == ctx.url
    &&& m.accessed == ctx.accessed
    &&& m.language == ctx.language
    &&& m.note == ctx.note
    &&& m.isbn == ctx.isbn
    &&& m.doi == ctx.doi
    &&& match legacy.authority {
        Some(a) => m.publisher matches Some(p) && p.name@ == a@ && p.place is None,
        None => m.publisher is None,
    }
    &&& opt_view(m.volume) == opt_view(legacy.volume)
    &&& opt_view(m.number) == opt_view(legacy.page)
    &&& m.issue is None && m.edition is None
    &&& numbering_view(m.numbering@) == (match legacy.chapter_number {
        Some(c) => seq![(NumberingType::Chapter, c@)],
        None => Seq::empty(),
    })
    &&& opt_view(m.genre) == Some(if bill_proceeding(legacy) { "bill-proceeding"@ } else { "bill-record"@ })
    &&& opt_view(m.medium) == opt_view(legacy.medium)
    &&& opt_view(m.archive) == opt_view(legacy.archive)
    &&& opt_view(m.archive_location) == opt_view(legacy.archive_location)
    &&& m.archive_info is None
    &&& m.status is None && m.available_date is None && m.size is None && m.duration is None
    &&& m.references is None && m.scale is None && m.pages is None
    &&& m.author is None && m.editor is None && m.translator is None && m.contributors@.len() == 0
    &&& m.container is None && m.original is None && m.event is None
}

/// What a legacy bill converts to: a hearing when it has a title and an
/// authority; a bill proceeding or record document when it is titleless and
/// has the shape of one; a generic document otherwise.
pub open spec fn bill_of(r: ConvertedReference, legacy: LegacyReference, ctx: RefContext) -> bool {
    if legacy.title is Some && legacy.authority is Some {
        r matches ConvertedReference::Hearing(h) && hearing_of(h, legacy, ctx)
    } else if !(bill_proceeding(legacy) || bill_record(legacy)) {
        r matches ConvertedReference::Monograph(m) && document_of(m, legacy, ctx)
    } else {
        r matches ConvertedReference::Monograph(m) && bill_document_of(m, legacy, ctx)
    }
}

/// Convert a legacy record on the bill route.
pub fn bill_from_legacy(legacy: &LegacyReference, ctx: RefContext) -> (r: ConvertedReference)
    requires
        legacy_renderable(*legacy),
    ensures
        bill_of(r, *legacy, ctx),
{
    if legacy.title.is_some() && legacy.authority.is_some() {
        return ConvertedReference::Hearing(hearing_from_legacy(legacy, ctx));
    }
    let proceeding = legacy.title.is_none() && (legacy.authority.is_some() || legacy.chapter_number.is_some());
    let record = legacy.title.is_none() && legacy.container_title.is_some() && legacy.volume.is_some()
        && legacy.page.is_some();
    if !(proceeding || record) {
        return ConvertedReference::Monograph(document_from_legacy(legacy, ctx));
    }
    let mut numbering: Vec<Numbering> = Vec::new();
    if let Some(c) = &legacy.chapter_number {
        numbering.push(Numbering { kind: NumberingType::Chapter, value: owned(c.as_str()) });
    }
    proof {
        assert(numbering_view(numbering@) =~= match legacy.chapter_number {
            Some(c) => seq![(NumberingType::Chapter, c@)],
            None => Seq::empty(),
        });
    }
    let genre = if proceeding { owned("bill-proceeding") } else { owned("bill-record") };
    let built = build_title(copy_opt(&ctx.title), copy_opt(&ctx.short_title));
    let title = match built {
        Some(t) => Some(t),
        None => {
            let fallback = if record {
                copy_opt(&legacy.container_title)
            } else if legacy.number.is_some() {
                copy_opt(&legacy.number)
            } else {
                copy_opt(&legacy.container_title)
            };
            match fallback {
                Some(f) => Some(Title::Single(f)),
                None => None,
            }
        },
    };
    let publisher = match &legacy.authority {
        Some(a) => Some(Publisher { name: owned(a.as_str()), place: None }),
        None => None,
    };
    ConvertedReference::Monograph(Monograph {
        id: ctx.id,
        kind: MonographType::Document,
        title,
        created: ctx.dates.created,
        issued: ctx.dates.issued,
        copyright: None,
        printing: None,
        url: ctx.url,
        accessed: ctx.accessed,
        language: ctx.language,
        note: ctx.note,
        isbn: ctx.isbn,
        doi: ctx.doi,
        volume: copy_opt(&legacy.volume),
        issue: None,
        edition: None,
        number: copy_opt(&legacy.page),
        numbering,
        genre: Some(genre),
        medium: copy_opt(&legacy.medium),
        archive: copy_opt(&legacy.archive),
        archive_location: copy_opt(&legacy.archive_location),
        archive_info: None,
        status: None,
        available_date: None,
        size: None,
        duration: None,
        references: None,
        scale: None,
        pages: None,
        publisher,
        author: None,
        editor: None,
        translator: None,
        contributors: Vec::new(),
        container: None,
        original: None,
        event: None,
    })
}

/// The numbering of a converted audio-visual work: its number, volume and
/// chapter number, in that order.
pub open spec fn audio_visual_numbering_of(legacy: LegacyReference) -> Seq<(NumberingType, Seq<char>)> {
    let a: Seq<(NumberingType, Seq<char>)> = match legacy.number { Some(n) => seq![(NumberingType::Number, n@)], None => Seq::empty() };
    let b = match legacy.volume { Some(v) => a.push((NumberingType::Volume, v@)), None => a };
    match legacy.chapter_number { Some(c) => b.push((NumberingType::Chapter, c@)), None => b }
}

/// The names of a record's directors: its own list, else the one in `extra`.
pub open spec fn director_names(legacy: LegacyReference) -> Option<Seq<NameView>> {
    if legacy.director is Some { opt_names(legacy.director) } else { extra_names(legacy.extra@, "director"@) }
}

/// The roles an audio-visual work's contributors are read under, in order:
/// directors, composers, performers, narrators, other contributors,
/// producers (else executive producers), script writers, the authors (as
/// performers for a song), and translators.
pub open spec fn audio_visual_steps(legacy: LegacyReference) -> Seq<((int, Seq<char>), Option<Seq<NameView>>)> {
    let extra = legacy.extra@;
    seq![
        (role_view(ContributorRole::Director), director_names(legacy)),
        (role_view(ContributorRole::Composer), extra_names(extra, "composer"@)),
        (role_view(ContributorRole::Performer), extra_names(extra, "performer"@)),
        (role_view(ContributorRole::Narrator), extra_names(extra, "narrator"@)),
        (unknown_role("contributor"@), extra_names(extra, "contributor"@)),
        (role_view(ContributorRole::Producer), extra_names_either(extra, "producer"@, "executive-producer"@)),
        (role_view(ContributorRole::Writer), extra_names(extra, "script-writer"@)),
        (role_view(if legacy.ref_type@ == "song"@ { ContributorRole::Performer } else { ContributorRole::Author }), opt_names(legacy.author)),
        (role_view(ContributorRole::Translator), opt_names(legacy.translator))
    ]
}

fn audio_visual_contributors(legacy: &LegacyReference) -> (r: Vec<ContributorEntry>)
    ensures
        entries_from(r, audio_visual_steps(*legacy)),
{
    let directors = match &legacy.director {
        Some(v) => Some(copy_name_list(v)),
        None => legacy_extra_names(legacy, "director"),
    };
    let author_role = if str_eq(legacy.ref_type.as_str(), "song") { ContributorRole::Performer } else { ContributorRole::Author };
    let mut steps: Vec<(ContributorRole, Option<Vec<NameParts>>)> = Vec::new();
    steps.push(step(ContributorRole::Director, directors));
    steps.push(step(ContributorRole::Composer, legacy_extra_names(legacy, "composer")));
    steps.push(step(ContributorRole::Performer, legacy_extra_names(legacy, "performer")));
    steps.push(step(ContributorRole::Narrator, legacy_extra_names(legacy, "narrator")));
    steps.push(step(unknown("contributor"), legacy_extra_names(legacy, "contributor")));
    steps.push(step(ContributorRole::Producer, legacy_extra_names_either(legacy, "producer", "executive-producer")));
    steps.push(step(ContributorRole::Writer, legacy_extra_names(legacy, "script-writer")));
    steps.push(step(author_role, copy_names(&legacy.author)));
    steps.push(step(ContributorRole::Translator, copy_names(&legacy.translator)));
    proof {
        reveal_strlit("song");
        assert(steps@.map_values(|s: (ContributorRole, Option<Vec<NameParts>>)| step_view(s)) =~= audio_visual_steps(*legacy));
    }
    let mut entries: Vec<ContributorEntry> = Vec::new();
    proof {
        assert(entries_view(entries@) =~= Seq::empty());
    }
    push_steps(&mut entries, &steps);
    entries
}

/// `w` is the audio-visual work converted from `legacy` with context `ctx`:
/// its subtype from the legacy type; its title, dates, language and genre; the
/// container title; the event from `event-title`, `event-place` and
/// `event-date`; its numbering; its publisher (only with a publisher name);
/// its medium; `dimensions` from `extra`; and the shared URL, accessed date
/// and note.
pub open spec fn audio_visual_of(w: AudioVisualWork, legacy: LegacyReference, ctx: RefContext) -> bool {
    let extra = legacy.extra@;
    &&& w.id == ctx.id
    &&& entries_from(w.contributors, audio_visual_steps(legacy))
    &&& original_link(w.original, legacy)
    &&& w.kind == audio_visual_kind(legacy.ref_type@)
    &&& title_built(w.title, opt_view(ctx.title), opt_view(ctx.short_title))
    &&& w.created == ctx.dates.created
    &&& w.issued == ctx.dates.issued
    &&& w.language == ctx.language
    &&& opt_view(w.genre) == opt_view(legacy.genre)
    &&& opt_view(w.container_title) == opt_view(legacy.container_title)
    &&& opt_view(w.event_title) == extra_text(extra, "event-title"@)
    &&& opt_view(w.event_place) == extra_text(extra, "event-place"@)
    &&& (w.event_date is Some) == (extra_date_text(extra, "event-date"@) is Some)
    &&& (w.event_date matches Some(d) ==> d.value@ == extra_date_text(extra, "event-date"@)->0 && d.note is None)
    &&& numbering_view(w.numbering@) == audio_visual_numbering_of(legacy)
    &&& match legacy.publisher {
        Some(n) => w.publisher matches Some(p) && p.name@ == n@ && opt_view(p.place) == opt_view(legacy.publisher_place),
        None => w.publisher is None,
    }
    &&& opt_view(w.medium) == opt_view(legacy.medium)
    &&& opt_view(w.dimensions) == extra_text(extra, "dimensions"@)
    &&& w.platform is None
    &&& w.url == ctx.url
    &&& w.accessed == ctx.accessed
    &&& w.note == ctx.note
}

/// Convert a legacy record on the audio-visual route (motion pictures and songs).
pub fn audio_visual_from_legacy(legacy: &LegacyReference, ctx: RefContext) -> (r: AudioVisualWork)
    requires
        legacy_renderable(*legacy),
    ensures
        audio_visual_of(r, *legacy, ctx),
{
    let mut numbering: Vec<Numbering> = Vec::new();
    if let Some(n) = &legacy.number {
        numbering.push(Numbering { kind: NumberingType::Number, value: owned(n.as_str()) });
    }
    let ghost a = numbering_view(numbering@);
    proof {
        assert(a =~= match legacy.number { Some(n) => seq![(NumberingType::Number, n@)], None => Seq::<(NumberingType, Seq<char>)>::empty() });
    }
    if let Some(v) = &legacy.volume {
        numbering.push(Numbering { kind: NumberingType::Volume, value: owned(v.as_str()) });
        proof {
            assert(numbering_view(numbering@) =~= a.push((NumberingType::Volume, v@)));
        }
    }
    let ghost b = numbering_view(numbering@);
    if let Some(c) = &legacy.chapter_number {
        numbering.push(Numbering { kind: NumberingType::Chapter, value: owned(c.as_str()) });
        proof {
            assert(numbering_view(numbering@) =~= b.push((NumberingType::Chapter, c@)));
        }
    }
    let publisher = match &legacy.publisher {
        Some(n) => Some(Publisher { name: owned(n.as_str()), place: copy_opt(&legacy.publisher_place) }),
        None => None,
    };
    AudioVisualWork {
        id: ctx.id,
        kind: audio_visual_type(legacy.ref_type.as_str()),
        title: build_title(copy_opt(&ctx.title), copy_opt(&ctx.short_title)),
        created: ctx.dates.created,
        issued: ctx.dates.issued,
        language: ctx.language,
        genre: copy_opt(&legacy.genre),
        container_title: copy_opt(&legacy.container_title),
        event_title: legacy_extra_str(legacy, "event-title"),
        event_place: legacy_extra_str(legacy, "event-place"),
        event_date: legacy_extra_date(legacy, "event-date"),
        numbering,
        publisher,
        medium: copy_opt(&legacy.medium),
        dimensions: legacy_extra_str(legacy, "dimensions"),
        platform: None,
        url: ctx.url,
        accessed: ctx.accessed,
        note: ctx.note,
        contributors: audio_visual_contributors(legacy),
        original: legacy_original_relation(legacy),
    }
}

/// The genre of a converted collection component: its own, else the entry
/// type for dictionary, encyclopedia and plain entries.
pub open spec fn component_genre(t: Seq<char>, genre: Option<Seq<char>>) -> Option<Seq<char>> {
    if genre is Some {
        genre
    } else if t == "entry-dictionary"@ || t == "entry-encyclopedia"@ || t == "entry"@ {
        Some(t)
    } else {
        None
    }
}

/// The numbering of a converted collection component: its part number, its
/// chapter number, and a report's number.
pub open spec fn component_numbering(legacy: LegacyReference) -> Seq<(NumberingType, Seq<char>)> {
    let a: Seq<(NumberingType, Seq<char>)> = match extra_text(legacy.extra@, "part-number"@) {
        Some(p) => seq![(NumberingType::Part, p)],
        None => Seq::empty(),
    };
    let b = match legacy.chapter_number { Some(c) => a.push((NumberingType::Chapter, c@)), None => a };
    if legacy.ref_type@ == "report"@ && legacy.number is Some { b.push((NumberingType::Report, legacy.number->0@)) } else { b }
}

/// Whether a collection component names its parent: by a container title or
/// a container author.
pub open spec fn named_parent(legacy: LegacyReference) -> bool {
    legacy.container_title is Some || extra_names(legacy.extra@, "container-author"@) is Some
}

/// The editor and contributors of a component's parent: the record's editors,
/// when the parent is named; none otherwise.
pub open spec fn parent_people(editor: Option<Contributor>, contributors: Vec<ContributorEntry>, legacy: LegacyReference) -> bool {
    if named_parent(legacy) {
        &&& opt_contributor_view(editor) == opt_list(opt_names(legacy.editor))
        &&& entries_view(contributors@) == pushed(Seq::empty(), role_view(ContributorRole::Editor), opt_names(legacy.editor))
    } else {
        editor is None && contributors@.len() == 0
    }
}

fn parent_people_from(legacy: &LegacyReference, named: bool) -> (r: (Option<Contributor>, Vec<ContributorEntry>))
    requires
        named == named_parent(*legacy),
    ensures
        parent_people(r.0, r.1, *legacy),
{
    let mut entries: Vec<ContributorEntry> = Vec::new();
    if named {
        proof {
            assert(entries_view(entries@) =~= Seq::empty());
        }
        push_legacy_contributor(&mut entries, &ContributorRole::Editor, &legacy.editor);
        (contributor_from_opt_names(&legacy.editor), entries)
    } else {
        (None, entries)
    }
}

/// The roles a collection component's own contributors are read under: the
/// authors, the translators, and the editors when the parent is not named.
pub open spec fn component_steps(legacy: LegacyReference) -> Seq<((int, Seq<char>), Option<Seq<NameView>>)> {
    let base = seq![
        (role_view(ContributorRole::Author), opt_names(legacy.author)),
        (role_view(ContributorRole::Translator), opt_names(legacy.translator))
    ];
    if named_parent(legacy) { base } else { base.push((role_view(ContributorRole::Editor), opt_names(legacy.editor))) }
}

/// A collection component's contributor entries: those of
/// [`component_steps`], then the container authors as one entry.
pub open spec fn component_entries(legacy: LegacyReference) -> Seq<(Seq<(int, Seq<char>)>, NameView)> {
    let base = pushed_all(Seq::empty(), component_steps(legacy));
    match extra_names(legacy.extra@, "container-author"@) {
        Some(ms) => base.push((seq![unknown_role("container-author"@)], NameView::List(ms))),
        None => base,
    }
}

fn component_contributors(legacy: &LegacyReference, named: bool) -> (r: Vec<ContributorEntry>)
    requires
        named == named_parent(*legacy),
    ensures
        entries_view(r@) == component_entries(*legacy),
{
    let mut steps: Vec<(ContributorRole, Option<Vec<NameParts>>)> = Vec::new();
    steps.push(step(ContributorRole::Author, copy_names(&legacy.author)));
    steps.push(step(ContributorRole::Translator, copy_names(&legacy.translator)));
    if !named {
        steps.push(step(ContributorRole::Editor, copy_names(&legacy.editor)));
    }
    proof {
        assert(steps@.map_values(|s: (ContributorRole, Option<Vec<NameParts>>)| step_view(s)) =~= component_steps(*legacy));
    }
    let mut entries: Vec<ContributorEntry> = Vec::new();
    proof {
        assert(entries_view(entries@) =~= Seq::empty());
    }
    push_steps(&mut entries, &steps);
    if let Some(v) = legacy_extra_names(legacy, "container-author") {
        let mut roles: Vec<ContributorRole> = Vec::new();
        roles.push(unknown("container-author"));
        let ghost before = entries@;
        entries.push(ContributorEntry { roles, contributor: contributor_from_names(&v) });
        proof {
            assert(roles@.map_values(|x: ContributorRole| role_view(x)) =~= seq![unknown_role("container-author"@)]);
            assert(entries_view(entries@) =~= entries_view(before).push(entry_view(entries@[before.len() as int])));
        }
    }
    entries
}

/// `p` is the work that contains the collection component `legacy`: a report
/// monograph for a report (with the report number and genre); otherwise the
/// proceedings of a conference paper or an edited book, with the short
/// container title, the series, the volume (`collection-number`, else
/// `volume`) and, for a conference paper, the event.
pub open spec fn parent_of(p: ParentWork, legacy: LegacyReference, ctx: RefContext) -> bool {
    let extra = legacy.extra@;
    let paper = legacy.ref_type@ == "paper-conference"@;
    &&& parent_people(p.editor, p.contributors, legacy)
    &&& opt_view(p.title) == opt_view(legacy.container_title)
    &&& publisher_of(p.publisher, opt_view(legacy.publisher), opt_view(legacy.publisher_place))
    &&& p.edition == ctx.edition
    &&& if legacy.ref_type@ == "report"@ {
        &&& p.kind == ParentKind::Report
        &&& p.short_title is None && p.series_title is None
        &&& numbering_view(p.numbering@) == (match legacy.number { Some(n) => seq![(NumberingType::Report, n@)], None => Seq::empty() })
        &&& opt_view(p.genre) == opt_view(legacy.genre)
        &&& p.event_title is None && p.event_place is None && p.event_date is None
    } else {
        let volume = if legacy.collection_number is Some { opt_view(legacy.collection_number) } else { opt_view(legacy.volume) };
        &&& p.kind == (if paper { ParentKind::Proceedings } else { ParentKind::EditedBook })
        &&& p.short_title == ctx.container_title_short
        &&& opt_view(p.series_title) == opt_view(legacy.collection_title)
        &&& numbering_view(p.numbering@) == (match volume { Some(v) => seq![(NumberingType::Volume, v)], None => Seq::empty() })
        &&& p.genre is None
        &&& opt_view(p.event_title) == (if paper { extra_text(extra, "event-title"@) } else { None })
        &&& opt_view(p.event_place) == (if !paper { None } else if extra_text(extra, "event-place"@) is Some {
            extra_text(extra, "event-place"@)
        } else {
            extra_text(extra, "event-location"@)
        })
        &&& (p.event_date is Some) == (paper && extra_date_text(extra, "event-date"@) is Some)
        &&& (p.event_date matches Some(d) ==> d.value@ == extra_date_text(extra, "event-date"@)->0 && d.note is None)
    }
}

/// `c` is the collection component converted from `legacy` with context `ctx`.
pub open spec fn collection_component_of(c: CollectionComponent, legacy: LegacyReference, ctx: RefContext) -> bool {
    let extra = legacy.extra@;
    let part_title = extra_text(extra, "part-title"@);
    &&& c.id == ctx.id
    &&& c.kind == (if legacy.ref_type@ == "paper-conference"@ { MonographComponentType::Document } else { MonographComponentType::Chapter })
    &&& title_built(c.title, if part_title is Some { part_title } else { opt_view(ctx.title) }, opt_view(ctx.short_title))
    &&& c.issued == ctx.dates.issued
    &&& parent_of(c.container, legacy, ctx)
    &&& c.edition == ctx.edition
    &&& match legacy.page {
        Some(p) => c.pages matches Some(NumOrStr::Str(q)) && q@ == p@,
        None => c.pages is None,
    }
    &&& c.url == ctx.url
    &&& c.accessed == ctx.accessed
    &&& c.language == ctx.language
    &&& c.note == ctx.note
    &&& c.doi == ctx.doi
    &&& opt_view(c.genre) == component_genre(legacy.ref_type@, opt_view(legacy.genre))
    &&& opt_view(c.medium) == opt_view(legacy.medium)
    &&& opt_view(c.status) == extra_text(extra, "status"@)
    &&& numbering_view(c.numbering@) == component_numbering(legacy)
    &&& opt_contributor_view(c.author) == opt_list(opt_names(legacy.author))
    &&& opt_contributor_view(c.translator) == opt_list(opt_names(legacy.translator))
    &&& entries_view(c.contributors@) == component_entries(legacy)
    &&& original_link(c.original, legacy)
}

/// Build the work that contains a collection component.
fn parent_from_legacy(legacy: &LegacyReference, ctx: &RefContext) -> (r: ParentWork)
    requires
        legacy_renderable(*legacy),
    ensures
        parent_of(r, *legacy, *ctx),
{
    let publisher = publisher_from_parts(copy_opt(&legacy.publisher), copy_opt(&legacy.publisher_place));
    if str_eq(legacy.ref_type.as_str(), "report") {
        let mut numbering: Vec<Numbering> = Vec::new();
        if let Some(n) = &legacy.number {
            numbering.push(Numbering { kind: NumberingType::Report, value: owned(n.as_str()) });
        }
        proof {
            assert(numbering_view(numbering@) =~= match legacy.number { Some(n) => seq![(NumberingType::Report, n@)], None => Seq::empty() });
        }
        let (editor, contributors) = parent_people_from(legacy, legacy.container_title.is_some() || legacy_extra_names(legacy, "container-author").is_some());
        return ParentWork {
            editor,
            contributors,
            kind: ParentKind::Report,
            title: copy_opt(&legacy.container_title),
            short_title: None,
            series_title: None,
            publisher,
            edition: ctx.edition.clone(),
            numbering,
            genre: copy_opt(&legacy.genre),
            event_title: None,
            event_place: None,
            event_date: None,
        };
    }
    let paper = str_eq(legacy.ref_type.as_str(), "paper-conference");
    let volume = match &legacy.collection_number {
        Some(v) => Some(owned(v.as_str())),
        None => copy_opt(&legacy.volume),
    };
    let mut numbering: Vec<Numbering> = Vec::new();
    if let Some(v) = volume {
        let ghost vv = v@;
        numbering.push(Numbering { kind: NumberingType::Volume, value: v });
        proof {
            assert(numbering_view(numbering@) =~= seq![(NumberingType::Volume, vv)]);
        }
    } else {
        proof {
            assert(numbering_view(numbering@) =~= Seq::<(NumberingType, Seq<char>)>::empty());
        }
    }
    let (event_title, event_place, event_date) = if paper {
        let place = match legacy_extra_str(legacy, "event-place") {
            Some(p) => Some(p),
            None => legacy_extra_str(legacy, "event-location"),
        };
        (legacy_extra_str(legacy, "event-title"), place, legacy_extra_date(legacy, "event-date"))
    } else {
        (None, None, None)
    };
    let (editor, contributors) = parent_people_from(legacy, legacy.container_title.is_some() || legacy_extra_names(legacy, "container-author").is_some());
    ParentWork {
        editor,
        contributors,
        kind: if paper { ParentKind::Proceedings } else { ParentKind::EditedBook },
        title: copy_opt(&legacy.container_title),
        short_title: ctx.container_title_short.clone(),
        series_title: copy_opt(&legacy.collection_title),
        publisher,
        edition: ctx.edition.clone(),
        numbering,
        genre: None,
        event_title,
        event_place,
        event_date,
    }
}

/// Convert a legacy record on the collection-component route (chapters,
/// conference papers, entries, and reports inside a collection).
pub fn collection_component_from_legacy(legacy: &LegacyReference, ctx: RefContext) -> (r: CollectionComponent)
    requires
        legacy_renderable(*legacy),
    ensures
        collection_component_of(r, *legacy, ctx),
{
    let container = parent_from_legacy(legacy, &ctx);
    let t = legacy.ref_type.as_str();
    let genre = match &legacy.genre {
        Some(g) => Some(owned(g.as_str())),
        None => if str_eq(t, "entry-dictionary") || str_eq(t, "entry-encyclopedia") || str_eq(t, "entry") {
            Some(owned(t))
        } else {
            None
        },
    };
    let part_title = legacy_extra_str(legacy, "part-title");
    let part_number = legacy_extra_str(legacy, "part-number");
    let title_text = match part_title {
        Some(p) => Some(p),
        None => copy_opt(&ctx.title),
    };
    let title = build_title(title_text, copy_opt(&ctx.short_title));
    let mut numbering: Vec<Numbering> = Vec::new();
    if let Some(p) = part_number {
        let ghost pv = p@;
        numbering.push(Numbering { kind: NumberingType::Part, value: p });
        proof {
            assert(numbering_view(numbering@) =~= seq![(NumberingType::Part, pv)]);
        }
    } else {
        proof {
            assert(numbering_view(numbering@) =~= Seq::<(NumberingType, Seq<char>)>::empty());
        }
    }
    let ghost a = numbering_view(numbering@);
    if let Some(c) = &legacy.chapter_number {
        numbering.push(Numbering { kind: NumberingType::Chapter, value: owned(c.as_str()) });
        proof {
            assert(numbering_view(numbering@) =~= a.push((NumberingType::Chapter, c@)));
        }
    }
    let ghost b = numbering_view(numbering@);
    if str_eq(t, "report") {
        if let Some(n) = &legacy.number {
            numbering.push(Numbering { kind: NumberingType::Report, value: owned(n.as_str()) });
            proof {
                assert(numbering_view(numbering@) =~= b.push((NumberingType::Report, n@)));
            }
        }
    }
    let pages = match &legacy.page {
        Some(p) => Some(NumOrStr::Str(owned(p.as_str()))),
        None => None,
    };
    CollectionComponent {
        id: ctx.id,
        kind: if str_eq(t, "paper-conference") { MonographComponentType::Document } else { MonographComponentType::Chapter },
        title,
        issued: ctx.dates.issued,
        container,
        edition: ctx.edition,
        pages,
        url: ctx.url,
        accessed: ctx.accessed,
        language: ctx.language,
        note: ctx.note,
        doi: ctx.doi,
        genre,
        medium: copy_opt(&legacy.medium),
        status: legacy_extra_str(legacy, "status"),
        numbering,
        author: contributor_from_opt_names(&legacy.author),
        translator: contributor_from_opt_names(&legacy.translator),
        contributors: component_contributors(legacy, legacy.container_title.is_some() || legacy_extra_names(legacy, "container-author").is_some()),
        original: legacy_original_relation(legacy),
    }
}

/// The genre of a converted serial component: its own; else the entry type
/// of an encyclopedia entry, or the review type of a review; else the genre of
/// the reviewed work.
pub open spec fn serial_component_genre(t: Seq<char>, genre: Option<Seq<char>>, reviewed_genre: Option<Seq<char>>) -> Option<Seq<char>> {
    if genre is Some {
        genre
    } else if t == "entry-encyclopedia"@ || t == "review"@ || t == "review-book"@ {
        Some(t)
    } else {
        reviewed_genre
    }
}

/// The serial type a legacy type's container has.
pub open spec fn serial_kind_of(t: Seq<char>) -> SerialType {
    if t == "article-magazine"@ {
        SerialType::Magazine
    } else if t == "article-newspaper"@ {
        SerialType::Newspaper
    } else if t == "broadcast"@ || t == "motion_picture"@ {
        SerialType::BroadcastProgram
    } else {
        SerialType::AcademicJournal
    }
}

/// The issue of a converted serial component: its own; else, for a broadcast
/// or motion picture, its number (with `No. ` before a bare podcast number).
pub open spec fn serial_issue(legacy: LegacyReference) -> Option<Seq<char>> {
    let t = legacy.ref_type@;
    if legacy.issue is Some {
        opt_view(legacy.issue)
    } else if (t == "broadcast"@ || t == "motion_picture"@) && legacy.number is Some {
        Some(broadcast_issue_text(t, opt_view(legacy.medium), legacy.number->0@))
    } else {
        None
    }
}

/// The roles a serial component's contributors are read under, in order:
/// authors, translators, hosts, narrators, producers (else executive
/// producers), script writers, directors, performers (the record's other
/// contributors) and reviewed authors.
pub open spec fn serial_steps(legacy: LegacyReference) -> Seq<((int, Seq<char>), Option<Seq<NameView>>)> {
    let extra = legacy.extra@;
    seq![
        (role_view(ContributorRole::Author), opt_names(legacy.author)),
        (role_view(ContributorRole::Translator), opt_names(legacy.translator)),
        (role_view(ContributorRole::Host), extra_names(extra, "host"@)),
        (role_view(ContributorRole::Narrator), extra_names(extra, "narrator"@)),
        (role_view(ContributorRole::Producer), extra_names_either(extra, "producer"@, "executive-producer"@)),
        (role_view(ContributorRole::Writer), extra_names(extra, "script-writer"@)),
        (role_view(ContributorRole::Director), director_names(legacy)),
        (role_view(ContributorRole::Performer), opt_names(legacy.contributor)),
        (unknown_role("reviewed-author"@), extra_names(extra, "reviewed-author"@))
    ]
}

/// Whether a serial component reviews a work: it names a reviewed title,
/// genre or author, or a container author.
pub open spec fn reviews_work(legacy: LegacyReference) -> bool {
    let extra = legacy.extra@;
    extra_text(extra, "reviewed-title"@) is Some || extra_text(extra, "reviewed-genre"@) is Some
        || extra_names(extra, "reviewed-author"@) is Some || extra_names(extra, "container-author"@) is Some
}

/// The roles the serial's contributors are read under: its editors, then
/// the container authors when the component reviews no work.
pub open spec fn serial_parent_steps(legacy: LegacyReference) -> Seq<((int, Seq<char>), Option<Seq<NameView>>)> {
    let base = seq![(role_view(ContributorRole::Editor), opt_names(legacy.editor))];
    if reviews_work(legacy) {
        base
    } else {
        base.push((role_view(ContributorRole::Author), extra_names(legacy.extra@, "container-author"@)))
    }
}

fn serial_contributors(legacy: &LegacyReference) -> (r: Vec<ContributorEntry>)
    requires
        legacy_renderable(*legacy),
    ensures
        entries_from(r, serial_steps(*legacy)),
{
    let directors = match &legacy.director {
        Some(v) => Some(copy_name_list(v)),
        None => legacy_extra_names(legacy, "director"),
    };
    let mut steps: Vec<(ContributorRole, Option<Vec<NameParts>>)> = Vec::new();
    steps.push(step(ContributorRole::Author, copy_names(&legacy.author)));
    steps.push(step(ContributorRole::Translator, copy_names(&legacy.translator)));
    steps.push(step(ContributorRole::Host, legacy_extra_names(legacy, "host")));
    steps.push(step(ContributorRole::Narrator, legacy_extra_names(legacy, "narrator")));
    steps.push(step(ContributorRole::Producer, legacy_extra_names_either(legacy, "producer", "executive-producer")));
    steps.push(step(ContributorRole::Writer, legacy_extra_names(legacy, "script-writer")));
    steps.push(step(ContributorRole::Director, directors));
    steps.push(step(ContributorRole::Performer, copy_names(&legacy.contributor)));
    steps.push(step(unknown("reviewed-author"), legacy_extra_names(legacy, "reviewed-author")));
    proof {
        assert(steps@.map_values(|s: (ContributorRole, Option<Vec<NameParts>>)| step_view(s)) =~= serial_steps(*legacy));
    }
    let mut entries: Vec<ContributorEntry> = Vec::new();
    proof {
        assert(entries_view(entries@) =~= Seq::empty());
    }
    push_steps(&mut entries, &steps);
    entries
}

fn serial_parent_contributors(legacy: &LegacyReference) -> (r: Vec<ContributorEntry>)
    ensures
        entries_from(r, serial_parent_steps(*legacy)),
{
    let reviews = legacy_extra_str(legacy, "reviewed-title").is_some() || legacy_extra_str(legacy, "reviewed-genre").is_some()
        || legacy_extra_names(legacy, "reviewed-author").is_some() || legacy_extra_names(legacy, "container-author").is_some();
    let mut steps: Vec<(ContributorRole, Option<Vec<NameParts>>)> = Vec::new();
    steps.push(step(ContributorRole::Editor, copy_names(&legacy.editor)));
    if !reviews {
        steps.push(step(ContributorRole::Author, legacy_extra_names(legacy, "container-author")));
    }
    proof {
        assert(steps@.map_values(|s: (ContributorRole, Option<Vec<NameParts>>)| step_view(s)) =~= serial_parent_steps(*legacy));
    }
    let mut entries: Vec<ContributorEntry> = Vec::new();
    proof {
        assert(entries_view(entries@) =~= Seq::empty());
    }
    push_steps(&mut entries, &steps);
    entries
}

/// `r` links a review to the reviewed work: its title, its author (the
/// reviewed authors, else the container authors) and its genre, from `extra`.
pub open spec fn reviewed_link(r: Option<WorkRelation>, legacy: LegacyReference) -> bool {
    let extra = legacy.extra@;
    monograph_link(r, extra_text(extra, "reviewed-title"@), opt_list(extra_names_either(extra, "reviewed-author"@, "container-author"@)),
        None, extra_text(extra, "reviewed-genre"@), None, None)
}

fn legacy_reviewed_relation(legacy: &LegacyReference) -> (r: Option<WorkRelation>)
    ensures
        reviewed_link(r, *legacy),
{
    let title = match legacy_extra_str(legacy, "reviewed-title") {
        Some(t) => Some(Title::Single(t)),
        None => None,
    };
    let author = contributor_from_opt_names(&legacy_extra_names_either(legacy, "reviewed-author", "container-author"));
    let genre = legacy_extra_str(legacy, "reviewed-genre");
    let ghost a0 = author;
    let ghost t0 = title;
    let ghost g0 = genre;
    let r = relation_monograph(title, author, None, genre, None, None);
    proof {
        let extra = legacy.extra@;
        assert((a0 is None) == (opt_list(extra_names_either(extra, "reviewed-author"@, "container-author"@)) is None));
        assert((t0 is None) == (extra_text(extra, "reviewed-title"@) is None));
        assert(t0 matches Some(Title::Single(x)) ==> x@ == extra_text(extra, "reviewed-title"@)->0);
        assert(opt_view(g0) == extra_text(extra, "reviewed-genre"@));
        if r is Some {
            let m = r->0->Monograph_0;
            assert(m.issued.value@ =~= Seq::<char>::empty());
        }
    }
    r
}

/// `c` is the serial component converted from `legacy` with context `ctx`.
pub open spec fn serial_component_of(c: SerialComponent, legacy: LegacyReference, ctx: RefContext) -> bool {
    let extra = legacy.extra@;
    let t = legacy.ref_type@;
    &&& c.id == ctx.id
    &&& opt_contributor_view(c.author) == opt_list(opt_names(legacy.author))
    &&& opt_contributor_view(c.translator) == opt_list(opt_names(legacy.translator))
    &&& entries_from(c.contributors, serial_steps(legacy))
    &&& original_link(c.original, legacy)
    &&& reviewed_link(c.reviewed, legacy)
    &&& opt_contributor_view(c.container.editor) == opt_list(opt_names(legacy.editor))
    &&& entries_from(c.container.contributors, serial_parent_steps(legacy))
    &&& c.kind == SerialComponentType::Article
    &&& title_built(c.title, opt_view(ctx.title), opt_view(ctx.short_title))
    &&& c.created == ctx.dates.created
    &&& c.issued == ctx.dates.issued
    &&& c.container.kind == serial_kind_of(t)
    &&& opt_view(c.container.title) == opt_view(legacy.container_title)
    &&& c.container.short_title == (if ctx.container_title_short is Some { ctx.container_title_short } else { ctx.journal_abbreviation })
    &&& opt_view(c.container.series_title) == opt_view(legacy.collection_title)
    &&& publisher_of(c.container.publisher, opt_view(legacy.publisher), opt_view(legacy.publisher_place))
    &&& opt_view(c.container.issn) == opt_view(legacy.issn)
    &&& opt_view(c.volume) == opt_view(legacy.volume)
    &&& opt_view(c.issue) == serial_issue(legacy)
    &&& opt_view(c.number) == opt_view(legacy.number)
    &&& numbering_view(c.numbering@) == (match extra_text(extra, "supplement-number"@) {
        Some(n) => seq![(NumberingType::Supplement, n)],
        None => Seq::empty(),
    })
    &&& c.url == ctx.url
    &&& c.accessed == ctx.accessed
    &&& c.language == ctx.language
    &&& c.note == ctx.note
    &&& c.doi == ctx.doi
    &&& opt_view(c.pages) == opt_view(legacy.page)
    &&& opt_view(c.genre) == serial_component_genre(t, opt_view(legacy.genre), extra_text(extra, "reviewed-genre"@))
    &&& opt_view(c.medium) == opt_view(legacy.medium)
    &&& opt_view(c.section) == opt_view(legacy.section)
    &&& opt_view(c.status) == extra_text(extra, "status"@)
    &&& (c.available_date is Some) == (extra_date_text(extra, "available-date"@) is Some)
    &&& (c.available_date matches Some(d) ==> d.value@ == extra_date_text(extra, "available-date"@)->0 && d.note is None)
    &&& opt_view(c.reviewed_title) == extra_text(extra, "reviewed-title"@)
    &&& opt_view(c.reviewed_genre) == extra_text(extra, "reviewed-genre"@)
    &&& opt_view(c.event_title) == extra_text(extra, "event-title"@)
    &&& opt_view(c.event_place) == (if extra_text(extra, "event-place"@) is Some {
        extra_text(extra, "event-place"@)
    } else {
        extra_text(extra, "event-location"@)
    })
    &&& (c.event_date is Some) == (extra_date_text(extra, "event-date"@) is Some)
    &&& (c.event_date matches Some(d) ==> d.value@ == extra_date_text(extra, "event-date"@)->0 && d.note is None)
    &&& opt_view(c.duration) == (if extra_text(extra, "dimensions"@) is Some {
        extra_text(extra, "dimensions"@)
    } else {
        opt_view(legacy.dimensions)
    })
}

/// Convert a legacy record on the serial-component route (journal, magazine
/// and newspaper articles, reviews, broadcasts, articles with a container).
pub fn serial_component_from_legacy(legacy: &LegacyReference, ctx: RefContext) -> (r: SerialComponent)
    requires
        legacy_renderable(*legacy),
    ensures
        serial_component_of(r, *legacy, ctx),
{
    let t = legacy.ref_type.as_str();
    let reviewed_genre = legacy_extra_str(legacy, "reviewed-genre");
    let genre = match &legacy.genre {
        Some(g) => Some(owned(g.as_str())),
        None => if str_eq(t, "entry-encyclopedia") || str_eq(t, "review") || str_eq(t, "review-book") {
            Some(owned(t))
        } else {
            copy_opt(&reviewed_genre)
        },
    };
    let kind = if str_eq(t, "article-magazine") {
        SerialType::Magazine
    } else if str_eq(t, "article-newspaper") {
        SerialType::Newspaper
    } else if str_eq(t, "broadcast") || str_eq(t, "motion_picture") {
        SerialType::BroadcastProgram
    } else {
        SerialType::AcademicJournal
    };
    let issue = match &legacy.issue {
        Some(i) => Some(owned(i.as_str())),
        None => if (str_eq(t, "broadcast") || str_eq(t, "motion_picture")) && legacy.number.is_some() {
            let medium: Option<&str> = match &legacy.medium {
                Some(m) => Some(m.as_str()),
                None => None,
            };
            match &legacy.number {
                Some(n) => Some(normalize_broadcast_issue(t, medium, n.as_str())),
                None => None,
            }
        } else {
            None
        },
    };
    let short_title = match &ctx.container_title_short {
        Some(s) => Some(s.clone()),
        None => ctx.journal_abbreviation.clone(),
    };
    let container = SerialParent {
        kind,
        title: copy_opt(&legacy.container_title),
        short_title,
        series_title: copy_opt(&legacy.collection_title),
        publisher: publisher_from_parts(copy_opt(&legacy.publisher), copy_opt(&legacy.publisher_place)),
        issn: copy_opt(&legacy.issn),
        editor: contributor_from_opt_names(&legacy.editor),
        contributors: serial_parent_contributors(legacy),
    };
    let mut numbering: Vec<Numbering> = Vec::new();
    if let Some(n) = legacy_extra_str(legacy, "supplement-number") {
        let ghost nv = n@;
        numbering.push(Numbering { kind: NumberingType::Supplement, value: n });
        proof {
            assert(numbering_view(numbering@) =~= seq![(NumberingType::Supplement, nv)]);
        }
    } else {
        proof {
            assert(numbering_view(numbering@) =~= Seq::<(NumberingType, Seq<char>)>::empty());
        }
    }
    let event_place = match legacy_extra_str(legacy, "event-place") {
        Some(p) => Some(p),
        None => legacy_extra_str(legacy, "event-location"),
    };
    let duration = match legacy_extra_str(legacy, "dimensions") {
        Some(d) => Some(d),
        None => copy_opt(&legacy.dimensions),
    };
    SerialComponent {
        id: ctx.id,
        kind: SerialComponentType::Article,
        title: build_title(copy_opt(&ctx.title), copy_opt(&ctx.short_title)),
        created: ctx.dates.created,
        issued: ctx.dates.issued,
        container,
        volume: copy_opt(&legacy.volume),
        issue,
        number: copy_opt(&legacy.number),
        numbering,
        url: ctx.url,
        accessed: ctx.accessed,
        language: ctx.language,
        note: ctx.note,
        doi: ctx.doi,
        pages: copy_opt(&legacy.page),
        genre,
        medium: copy_opt(&legacy.medium),
        section: copy_opt(&legacy.section),
        status: legacy_extra_str(legacy, "status"),
        available_date: legacy_extra_date(legacy, "available-date"),
        reviewed_title: legacy_extra_str(legacy, "reviewed-title"),
        reviewed_genre,
        event_title: legacy_extra_str(legacy, "event-title"),
        event_place,
        event_date: legacy_extra_date(legacy, "event-date"),
        duration,
        author: contributor_from_opt_names(&legacy.author),
        translator: contributor_from_opt_names(&legacy.translator),
        contributors: serial_contributors(legacy),
        original: legacy_original_relation(legacy),
        reviewed: legacy_reviewed_relation(legacy),
    }
}

/// A converted legacy record: the reference, and its supplementary identifiers.
#[derive(Debug)]
pub struct LegacyConversion {
    /// The converted reference.
    pub reference: ConvertedReference,
    /// Supplementary identifiers (a `CSTR` from `extra` becomes `cstr`).
    pub identifiers: SupplementaryIdentifiers,
}

/// The route a legacy record takes.
pub open spec fn route_of(legacy: LegacyReference) -> LegacyConverter {
    legacy_route(legacy.ref_type@, legacy.page is Some, legacy.editor is Some, legacy.container_title is Some)
}

/// `r` is what `legacy` converts to on its route, with context `ctx`.
pub open spec fn converted_with(r: ConvertedReference, legacy: LegacyReference, ctx: RefContext) -> bool {
    if route_of(legacy) == LegacyConverter::Monograph {
        if legacy.ref_type@ == "classic"@ {
            r matches ConvertedReference::Classic(c) && classic_of(c, legacy, ctx)
        } else {
            r matches ConvertedReference::Monograph(m) && monograph_of(m, legacy, ctx)
        }
    } else if route_of(legacy) == LegacyConverter::LegalCase {
        r matches ConvertedReference::LegalCase(x) && legal_case_of(x, legacy, ctx)
    } else if route_of(legacy) == LegacyConverter::Statute {
        r matches ConvertedReference::Statute(x) && statute_of(x, legacy, ctx)
    } else if route_of(legacy) == LegacyConverter::Regulation {
        r matches ConvertedReference::Regulation(x) && regulation_of(x, legacy, ctx)
    } else if route_of(legacy) == LegacyConverter::Treaty {
        r matches ConvertedReference::Treaty(x) && treaty_of(x, legacy, ctx)
    } else if route_of(legacy) == LegacyConverter::Hearing {
        r matches ConvertedReference::Hearing(x) && hearing_of(x, legacy, ctx)
    } else if route_of(legacy) == LegacyConverter::Patent {
        r matches ConvertedReference::Patent(x) && patent_of(x, legacy, ctx)
    } else if route_of(legacy) == LegacyConverter::Standard {
        r matches ConvertedReference::Standard(x) && standard_of(x, legacy, ctx)
    } else if route_of(legacy) == LegacyConverter::SerialComponent {
        r matches ConvertedReference::SerialComponent(c) && serial_component_of(c, legacy, ctx)
    } else if route_of(legacy) == LegacyConverter::CollectionComponent {
        r matches ConvertedReference::CollectionComponent(c) && collection_component_of(c, legacy, ctx)
    } else if route_of(legacy) == LegacyConverter::AudioVisual {
        r matches ConvertedReference::AudioVisual(w) && audio_visual_of(w, legacy, ctx)
    } else if route_of(legacy) == LegacyConverter::Bill {
        bill_of(r, legacy, ctx)
    } else if route_of(legacy) == LegacyConverter::Dataset {
        r matches ConvertedReference::Dataset(d) && dataset_of(d, legacy, ctx)
    } else if route_of(legacy) == LegacyConverter::Software {
        r matches ConvertedReference::Software(x) && software_of(x, legacy, ctx)
    } else if route_of(legacy) == LegacyConverter::Preprint {
        r matches ConvertedReference::Monograph(m) && preprint_of(m, legacy, ctx)
    } else if route_of(legacy) == LegacyConverter::Event {
        r matches ConvertedReference::Event(e) && event_of(e, legacy, ctx)
    } else {
        r matches ConvertedReference::Monograph(m) && document_of(m, legacy, ctx)
    }
}

/// `r` is what `legacy` converts to, for some context that [`context_of`] fixes.
pub open spec fn converted_from(r: ConvertedReference, legacy: LegacyReference) -> bool {
    exists|ctx: RefContext| #[trigger] context_of(ctx, legacy) && converted_with(r, legacy, ctx)
}

/// Convert a legacy CSL-JSON record: read its shared context, route it by its
/// type (see [`legacy_route`]), build the reference of the route's class,
/// and keep a `CSTR` entry of `extra` as the supplementary identifier `cstr`.
pub fn input_reference_from_legacy(legacy: &LegacyReference) -> (r: LegacyConversion)
    requires
        legacy_renderable(*legacy),
    ensures
        converted_from(r.reference, *legacy),
        match extra_text(legacy.extra@, "CSTR"@) {
            Some(c) => r.identifiers@ == Map::<Seq<char>, Seq<char>>::empty().insert("cstr"@, c),
            None => r.identifiers@ == Map::<Seq<char>, Seq<char>>::empty(),
        },
{
    let cstr = legacy_extra_str(legacy, "CSTR");
    let ctx = ref_context(legacy);
    let ghost ctx0 = ctx;
    let route = legacy_converter(
        legacy.ref_type.as_str(),
        legacy.page.is_some(),
        legacy.editor.is_some(),
        legacy.container_title.is_some(),
    );
    let reference = if route == LegacyConverter::Monograph {
        let c = monograph_from_legacy(legacy, ctx);
        proof {
            assert(context_of(ctx0, *legacy));
        }
        c
    } else if route == LegacyConverter::LegalCase {
        let x = legal_case_from_legacy(legacy, ctx);
        proof {
            assert(context_of(ctx0, *legacy));
        }
        ConvertedReference::LegalCase(x)
    } else if route == LegacyConverter::Statute {
        let x = statute_from_legacy(legacy, ctx);
        proof {
            assert(context_of(ctx0, *legacy));
        }
        ConvertedReference::Statute(x)
    } else if route == LegacyConverter::Regulation {
        let x = regulation_from_legacy(legacy, ctx);
        proof {
            assert(context_of(ctx0, *legacy));
        }
        ConvertedReference::Regulation(x)
    } else if route == LegacyConverter::Treaty {
        let x = treaty_from_legacy(legacy, ctx);
        proof {
            assert(context_of(ctx0, *legacy));
        }
        ConvertedReference::Treaty(x)
    } else if route == LegacyConverter::Hearing {
        let x = hearing_from_legacy(legacy, ctx);
        proof {
            assert(context_of(ctx0, *legacy));
        }
        ConvertedReference::Hearing(x)
    } else if route == LegacyConverter::Patent {
        let x = patent_from_legacy(legacy, ctx);
        proof {
            assert(context_of(ctx0, *legacy));
        }
        ConvertedReference::Patent(x)
    } else if route == LegacyConverter::Standard {
        let x = standard_from_legacy(legacy, ctx);
        proof {
            assert(context_of(ctx0, *legacy));
        }
        ConvertedReference::Standard(x)
    } else if route == LegacyConverter::SerialComponent {
        let c = serial_component_from_legacy(legacy, ctx);
        proof {
            assert(context_of(ctx0, *legacy));
        }
        ConvertedReference::SerialComponent(c)
    } else if route == LegacyConverter::CollectionComponent {
        let c = collection_component_from_legacy(legacy, ctx);
        proof {
            assert(context_of(ctx0, *legacy));
        }
        ConvertedReference::CollectionComponent(c)
    } else if route == LegacyConverter::AudioVisual {
        let w = audio_visual_from_legacy(legacy, ctx);
        proof {
            assert(context_of(ctx0, *legacy));
        }
        ConvertedReference::AudioVisual(w)
    } else if route == LegacyConverter::Bill {
        let x = bill_from_legacy(legacy, ctx);
        proof {
            assert(context_of(ctx0, *legacy));
        }
        x
    } else if route == LegacyConverter::Dataset {
        let d = dataset_from_legacy(legacy, ctx);
        proof {
            assert(context_of(ctx0, *legacy));
        }
        ConvertedReference::Dataset(d)
    } else if route == LegacyConverter::Software {
        let x = software_from_legacy(legacy, ctx);
        proof {
            assert(context_of(ctx0, *legacy));
        }
        ConvertedReference::Software(x)
    } else if route == LegacyConverter::Preprint {
        let m = preprint_from_legacy(legacy, ctx);
        proof {
            assert(context_of(ctx0, *legacy));
        }
        ConvertedReference::Monograph(m)
    } else if route == LegacyConverter::Event {
        let e = event_from_legacy(legacy, ctx);
        proof {
            assert(context_of(ctx0, *legacy));
        }
        ConvertedReference::Event(e)
    } else {
        let m = document_from_legacy(legacy, ctx);
        proof {
            assert(context_of(ctx0, *legacy));
        }
        ConvertedReference::Monograph(m)
    };
    let mut identifiers = SupplementaryIdentifiers::new();
    if let Some(value) = cstr {
        match IdentifierName::new("cstr") {
            Ok(name) => {
                identifiers.insert(name, value);
            },
            Err(_) => {
                proof {
                    lemma_cstr_valid();
                }
            },
        }
    }
    LegacyConversion { reference, identifiers }
}

/// `cstr` is a valid supplementary identifier name.
proof fn lemma_cstr_valid()
    ensures
        crate::identifier::identifier_name_valid("cstr"@),
{
    reveal_strlit("cstr");
    reveal_strlit("ads-bibcode");
    reveal_strlit("doi");
    reveal_strlit("docket-number");
    reveal_strlit("eprint-id");
    reveal_strlit("isbn");
    reveal_strlit("issn");
    reveal_strlit("patent-number");
    reveal_strlit("pmcid");
    reveal_strlit("pmid");
    reveal_strlit("report-number");
    reveal_strlit("standard-number");
    reveal_strlit("url");
    let c = "cstr"@;
    assert(c.len() == 4 && c[0] == 'c' && c[1] == 's' && c[2] == 't' && c[3] == 'r');
    assert(c != "ads-bibcode"@);
    assert(c != "doi"@);
    assert(c != "docket-number"@);
    assert(c != "eprint-id"@);
    assert(c != "isbn"@);
    assert(c != "issn"@);
    assert(c != "patent-number"@);
    assert(c != "pmcid"@);
    assert(c != "pmid"@);
    assert(c != "report-number"@);
    assert(c != "standard-number"@);
    assert(c != "url"@);
    assert(crate::identifier::kebab_name(c));
}

} // verus!
