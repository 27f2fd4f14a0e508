//! Shared value types of references: numbers-or-strings, multilingual strings,
//! titles, eprints, the subtype vocabularies of structural works, and the
//! bibliography metadata and abbreviation map.

use vstd::prelude::*;
use vstd::std_specs::convert::FromSpecImpl;
use std::collections::HashMap;

use crate::contributor::{Contributor, ContributorEntry};
use crate::date::DateValue;
use crate::relation::WorkRelation;
use crate::text::{i64_decimal, int_decimal, join_strings, join_with, owned, push_str};

verus! {

/// Unique identifier for a reference item.
pub type RefID = String;

/// BCP 47 language tag (e.g., `"en"`, `"de"`, `"ja"`).
pub type LangID = String;

/// A value that could be either a number or a string, such as an issue or
/// volume number.
#[derive(Clone, Debug, PartialEq, Eq)]
pub enum NumOrStr {
    /// A numeric value.
    Number(i64),
    /// A string value.
    Str(String),
}

/// The text a `NumOrStr` displays as.
pub open spec fn num_or_str_text(v: NumOrStr) -> Seq<char> {
    match v {
        NumOrStr::Number(i) => int_decimal(i as int),
        NumOrStr::Str(s) => s@,
    }
}

impl NumOrStr {
    /// The value in its display form: the number in decimal, or the string.
    pub fn to_display_string(&self) -> (r: String)
        ensures
            r@ == num_or_str_text(*self),
    {
        match self {
            NumOrStr::Number(i) => i64_decimal(*i),
            NumOrStr::Str(s) => owned(s.as_str()),
        }
    }
}

/// A string that can be represented in multiple languages and scripts.
#[derive(Debug, Clone, PartialEq)]
pub enum MultilingualString {
    /// A simple string in a single language.
    Simple(String),
    /// A complex multilingual string with original, transliterations, and translations.
    Complex(MultilingualComplex),
}

/// Complex multilingual representation with original, transliterations, and translations.
#[derive(Debug, Clone, PartialEq)]
pub struct MultilingualComplex {
    /// The text in its original script and language.
    pub original: String,
    /// ISO 639/BCP 47 language code for the original text.
    pub lang: Option<LangID>,
    /// Transliterations of the original text, keyed by script code or BCP 47 tag.
    pub transliterations: HashMap<String, String>,
    /// Translations of the text, keyed by language code.
    pub translations: HashMap<LangID, String>,
}

/// The text a multilingual string displays as: the simple string, or the original.
pub open spec fn multilingual_text(m: MultilingualString) -> Seq<char> {
    match m {
        MultilingualString::Simple(s) => s@,
        MultilingualString::Complex(c) => c.original@,
    }
}

impl MultilingualString {
    /// The string in its display form.
    pub fn to_display_string(&self) -> (r: String)
        ensures
            r@ == multilingual_text(*self),
    {
        match self {
            MultilingualString::Simple(s) => owned(s.as_str()),
            MultilingualString::Complex(c) => owned(c.original.as_str()),
        }
    }
}

impl From<String> for MultilingualString {
    fn from(s: String) -> (r: Self)
        ensures
            r == MultilingualString::Simple(s),
    {
        MultilingualString::Simple(s)
    }
}

impl FromSpecImpl<String> for MultilingualString {
    open spec fn obeys_from_spec() -> bool {
        true
    }

    open spec fn from_spec(s: String) -> Self {
        MultilingualString::Simple(s)
    }
}

impl<'a> From<&'a str> for MultilingualString {
    fn from(s: &'a str) -> (r: Self)
        ensures
            r matches MultilingualString::Simple(t) && t@ == s@,
    {
        MultilingualString::Simple(owned(s))
    }
}

impl<'a> FromSpecImpl<&'a str> for MultilingualString {
    open spec fn obeys_from_spec() -> bool {
        false
    }

    open spec fn from_spec(s: &'a str) -> Self {
        arbitrary()
    }
}

impl Default for MultilingualString {
    fn default() -> (r: Self)
        ensures
            r matches MultilingualString::Simple(s) && s@.len() == 0,
    {
        MultilingualString::Simple(String::new())
    }
}

/// Preprint server identifier following the biblatex eprint model.
#[derive(Debug, Clone, PartialEq)]
pub struct EprintInfo {
    /// The identifier on the preprint server (e.g. "2301.00001").
    pub id: String,
    /// The preprint server name in canonical lowercase form.
    pub server: String,
    /// Subject class or category used by the server (e.g. "cs.CL").
    pub class: Option<String>,
}

impl Default for EprintInfo {
    fn default() -> (r: Self)
        ensures
            r.id@.len() == 0 && r.server@.len() == 0 && r.class is None,
    {
        EprintInfo { id: String::new(), server: String::new(), class: None }
    }
}

/// A title can be a single string, a structured title, or a multilingual title.
#[derive(Debug, Clone, PartialEq)]
pub enum Title {
    /// A title in a single language.
    Single(String),
    /// A structured title.
    Structured(StructuredTitle),
    /// A complex multilingual title.
    Multilingual(MultilingualComplex),
    /// A title in multiple languages.
    Multi(Vec<(LangID, String)>),
    /// A structured title in multiple languages.
    MultiStructured(Vec<(LangID, StructuredTitle)>),
    /// An abbreviated title (shorthand, full).
    Shorthand(String, String),
}

/// Where title parts are meaningful, use this struct; titles are never parsed
/// out of strings.
#[derive(Debug, Clone, PartialEq)]
pub struct StructuredTitle {
    /// Full rendered title string (optional override).
    pub full: Option<String>,
    /// Main title component.
    pub main: String,
    /// Subtitle component.
    pub sub: Subtitle,
}

/// The subtitle can either be a string, as is the common case, or a vector of strings.
#[derive(Debug, Clone, PartialEq)]
pub enum Subtitle {
    /// A single subtitle string.
    String(String),
    /// Multiple subtitle strings.
    Vector(Vec<String>),
}

/// The text a subtitle displays as: the string, or the strings joined by `", "`.
pub open spec fn subtitle_text(s: Subtitle) -> Seq<char> {
    match s {
        Subtitle::String(t) => t@,
        Subtitle::Vector(v) => join_with(v@.map_values(|x: String| x@), ", "@),
    }
}

/// The text a title displays as.
pub open spec fn title_text(t: Title) -> Seq<char> {
    match t {
        Title::Single(s) => s@,
        Title::Multi(_) => "[multilingual title]"@,
        Title::Multilingual(m) => m.original@,
        Title::Structured(s) => s.main@ + ": "@ + subtitle_text(s.sub),
        Title::MultiStructured(_) => "[multilingual structured title]"@,
        Title::Shorthand(s, f) => s@ + " ("@ + f@ + ")"@,
    }
}

impl Subtitle {
    /// The subtitle in its display form.
    pub fn to_display_string(&self) -> (r: String)
        ensures
            r@ == subtitle_text(*self),
    {
        match self {
            Subtitle::String(t) => owned(t.as_str()),
            Subtitle::Vector(v) => join_strings(v, ", "),
        }
    }
}

impl Title {
    /// The title in its display form: a structured title as `main: subtitle`,
    /// a shorthand as `short (full)`, a multilingual one by its original, and
    /// placeholders for the per-language forms.
    pub fn to_display_string(&self) -> (r: String)
        ensures
            r@ == title_text(*self),
    {
        match self {
            Title::Single(s) => owned(s.as_str()),
            Title::Multi(_) => owned("[multilingual title]"),
            Title::Multilingual(m) => owned(m.original.as_str()),
            Title::Structured(s) => {
                let mut r = owned(s.main.as_str());
                push_str(&mut r, ": ");
                let sub = s.sub.to_display_string();
                push_str(&mut r, sub.as_str());
                r
            },
            Title::MultiStructured(_) => owned("[multilingual structured title]"),
            Title::Shorthand(short, full) => {
                let mut r = owned(short.as_str());
                push_str(&mut r, " (");
                push_str(&mut r, full.as_str());
                push_str(&mut r, ")");
                r
            },
        }
    }
}

/// Monograph subtypes.
#[derive(Debug, Clone, Copy, PartialEq, Eq, Structural)]
pub enum MonographType {
    /// A book or monograph (default).
    Book,
    /// A technical manual or user guide.
    Manual,
    /// A technical or institutional report.
    Report,
    /// An academic thesis or dissertation.
    Thesis,
    /// A webpage or standalone web document.
    Webpage,
    /// A standalone post (e.g., social media, forum).
    Post,
    /// An interview treated as a standalone monographic source.
    Interview,
    /// An unpublished manuscript or archival document.
    Manuscript,
    /// A preprint hosted on a preprint server.
    Preprint,
    /// A letter, email, or other personal communication.
    PersonalCommunication,
    /// A generic standalone document that does not fit a more specific subtype.
    Document,
}

impl Default for MonographType {
    fn default() -> (r: Self)
        ensures
            r == MonographType::Book,
    {
        MonographType::Book
    }
}

/// Collection subtypes.
#[derive(Debug, Clone, Copy, PartialEq, Eq, Structural)]
pub enum CollectionType {
    /// A curated anthology of independent works (default).
    Anthology,
    /// Published proceedings of a conference or symposium.
    Proceedings,
    /// A book assembled from contributions by multiple authors under an editor.
    EditedBook,
    /// An edited volume that may span multiple books or a series.
    EditedVolume,
}

impl Default for CollectionType {
    fn default() -> (r: Self)
        ensures
            r == CollectionType::Anthology,
    {
        CollectionType::Anthology
    }
}

/// Monograph-component subtypes.
#[derive(Debug, Clone, Copy, PartialEq, Eq, Structural)]
pub enum MonographComponentType {
    /// A chapter within a book or edited volume (default).
    Chapter,
    /// A document component that does not fit a more specific subtype.
    Document,
}

impl Default for MonographComponentType {
    fn default() -> (r: Self)
        ensures
            r == MonographComponentType::Chapter,
    {
        MonographComponentType::Chapter
    }
}

/// Serial-component subtypes.
#[derive(Debug, Clone, Copy, PartialEq, Eq, Structural)]
pub enum SerialComponentType {
    /// An article in a journal, magazine, or newspaper (default).
    Article,
    /// A post within an online serial.
    Post,
    /// A review published in a serial.
    Review,
}

impl Default for SerialComponentType {
    fn default() -> (r: Self)
        ensures
            r == SerialComponentType::Article,
    {
        SerialComponentType::Article
    }
}

/// Types of serial publications.
#[derive(Debug, Clone, Copy, PartialEq, Eq, Structural)]
pub enum SerialType {
    /// An academic peer-reviewed journal (default).
    AcademicJournal,
    /// A blog or personal website updated periodically.
    Blog,
    /// A general-interest magazine.
    Magazine,
    /// A newspaper.
    Newspaper,
    /// A newsletter.
    Newsletter,
    /// A conference proceedings serial.
    Proceedings,
    /// A podcast.
    Podcast,
    /// A broadcast program (radio, television).
    BroadcastProgram,
}

impl Default for SerialType {
    fn default() -> (r: Self)
        ensures
            r == SerialType::AcademicJournal,
    {
        SerialType::AcademicJournal
    }
}

/// Audio-visual work subtypes.
#[derive(Debug, Clone, Copy, PartialEq, Eq, Structural)]
pub enum AudioVisualType {
    /// A film.
    Film,
    /// An episode of a series.
    Episode,
    /// A broadcast.
    Broadcast,
    /// An audio recording.
    Recording,
}

/// A parent reference, either embedded or by ID.
#[derive(Debug, Clone, PartialEq)]
pub enum Parent<T> {
    /// The parent embedded inline.
    Embedded(T),
    /// The parent referenced by its ID.
    Id(RefID),
}

/// Metadata for an input bibliography.
#[derive(Debug, Clone)]
pub struct InputBibliographyInfo {
    /// Human-readable title for the bibliography dataset.
    pub title: Option<String>,
    /// Creator or maintainer of the bibliography dataset.
    pub author: Option<String>,
}

impl Default for InputBibliographyInfo {
    fn default() -> (r: Self)
        ensures
            r.title is None && r.author is None,
    {
        InputBibliographyInfo { title: None, author: None }
    }
}

/// Document-level map from full rendered strings to their abbreviations.
///
/// Keys are the full rendered string (exact, case-sensitive); values are the
/// replacement abbreviation.
#[derive(Debug, Clone)]
pub struct AbbreviationMap(pub HashMap<String, String>);

impl Default for AbbreviationMap {
    fn default() -> (r: Self)
        ensures
            r.0@ == Map::<String, String>::empty(),
    {
        AbbreviationMap(HashMap::new())
    }
}

/// Kinds of numbering identifiers.
#[derive(Debug, Clone, PartialEq, Eq)]
pub enum NumberingType {
    /// A volume number.
    Volume,
    /// An issue number.
    Issue,
    /// An edition.
    Edition,
    /// A generic document number.
    Number,
    /// A part number.
    Part,
    /// A chapter number.
    Chapter,
    /// A report number.
    Report,
    /// A section number.
    Section,
    /// A supplement number.
    Supplement,
    /// Any other kind, by its kebab-case name.
    Custom(String),
}

/// One numbering identifier: its kind and its value.
#[derive(Debug, Clone, PartialEq)]
pub struct Numbering {
    /// What is numbered.
    pub kind: NumberingType,
    /// The number.
    pub value: String,
}

/// Structured archival location metadata for unpublished and archival material.
#[derive(Debug, Clone, PartialEq)]
pub struct ArchiveInfo {
    /// Name of the archive or repository holding the material.
    pub name: Option<MultilingualString>,
    /// Geographic location (city/country) of the archive.
    pub place: Option<String>,
    /// Name of the collection within the archive.
    pub collection: Option<String>,
    /// Identifier for the collection (call number, accession number, etc.).
    pub collection_id: Option<String>,
    /// Name of the series within the collection.
    pub series: Option<String>,
    /// Box number within the collection.
    pub box_number: Option<String>,
    /// Folder number within the box.
    pub folder: Option<String>,
    /// Item identifier within the folder.
    pub item: Option<String>,
    /// Display override for the archival location (shelfmark, call number).
    pub location: Option<String>,
    /// URL for the archival item, in its serialised form.
    pub url: Option<String>,
}

/// A monograph, such as a book or a report: the bibliographic fields it holds
/// as plain values.
#[derive(Debug, Clone, PartialEq)]
pub struct Monograph {
    /// Unique identifier for this reference.
    pub id: Option<RefID>,
    /// Subtype for style-directed formatting.
    pub kind: MonographType,
    /// Title of the monographic work.
    pub title: Option<Title>,
    /// Creation or origination date.
    pub created: DateValue,
    /// Publication date.
    pub issued: DateValue,
    /// Copyright year standing in for a publication date.
    pub copyright: Option<DateValue>,
    /// Printing year standing in for a publication date.
    pub printing: Option<DateValue>,
    /// URL for the work, in its serialised form.
    pub url: Option<String>,
    /// Date the URL was accessed.
    pub accessed: Option<DateValue>,
    /// BCP 47 language of the work.
    pub language: Option<LangID>,
    /// Freeform note.
    pub note: Option<String>,
    /// ISBN identifier.
    pub isbn: Option<String>,
    /// DOI identifier.
    pub doi: Option<String>,
    /// Volume number.
    pub volume: Option<String>,
    /// Issue number.
    pub issue: Option<String>,
    /// Edition.
    pub edition: Option<String>,
    /// Generic document number.
    pub number: Option<String>,
    /// Numbering identifiers.
    pub numbering: Vec<Numbering>,
    /// Free-text genre descriptor.
    pub genre: Option<String>,
    /// Free-text medium descriptor.
    pub medium: Option<String>,
    /// Archive or repository name for unpublished material.
    pub archive: Option<String>,
    /// Location within the archive.
    pub archive_location: Option<String>,
    /// Structured archival location.
    pub archive_info: Option<ArchiveInfo>,
    /// Publication status.
    pub status: Option<String>,
    /// Date the work became available.
    pub available_date: Option<DateValue>,
    /// Physical size.
    pub size: Option<String>,
    /// Running time.
    pub duration: Option<String>,
    /// References held by the work.
    pub references: Option<String>,
    /// Map scale.
    pub scale: Option<String>,
    /// Page count or range.
    pub pages: Option<NumOrStr>,
    /// Publisher.
    pub publisher: Option<Publisher>,
    /// Author.
    pub author: Option<Contributor>,
    /// Editor.
    pub editor: Option<Contributor>,
    /// Translator.
    pub translator: Option<Contributor>,
    /// Contributors with their roles.
    pub contributors: Vec<ContributorEntry>,
    /// The work it is part of (a volume or a book in a series).
    pub container: Option<WorkRelation>,
    /// The original work this one translates or reissues.
    pub original: Option<WorkRelation>,
    /// The event the work records.
    pub event: Option<WorkRelation>,
}

/// A classic work with standard citation forms: the fields it holds as plain values.
#[derive(Debug, Clone, PartialEq)]
pub struct Classic {
    /// Unique identifier for this reference.
    pub id: Option<RefID>,
    /// Title of the work.
    pub title: Option<Title>,
    /// Volume number.
    pub volume: Option<String>,
    /// Issue number.
    pub issue: Option<String>,
    /// Edition.
    pub edition: Option<String>,
    /// Generic document number.
    pub number: Option<String>,
    /// Numbering identifiers.
    pub numbering: Vec<Numbering>,
    /// Creation or origination date.
    pub created: DateValue,
    /// Publication date.
    pub issued: DateValue,
    /// URL for the work, in its serialised form.
    pub url: Option<String>,
    /// Date the URL was accessed.
    pub accessed: Option<DateValue>,
    /// BCP 47 language of the work.
    pub language: Option<LangID>,
    /// Freeform note.
    pub note: Option<String>,
    /// Publisher.
    pub publisher: Option<Publisher>,
    /// Author.
    pub author: Option<Contributor>,
    /// Editor.
    pub editor: Option<Contributor>,
    /// Translator.
    pub translator: Option<Contributor>,
    /// The work it is part of.
    pub container: Option<WorkRelation>,
    /// The original work this one translates or reissues.
    pub original: Option<WorkRelation>,
}

/// An event such as a conference, performance, or broadcast: the fields it
/// holds as plain values.
#[derive(Debug, Clone, PartialEq)]
pub struct Event {
    /// Unique identifier for this reference.
    pub id: Option<RefID>,
    /// Title of the event.
    pub title: Option<Title>,
    /// Title of the work that contains it.
    pub container_title: Option<String>,
    /// Title of the event series it belongs to.
    pub series_title: Option<String>,
    /// Where it took place.
    pub location: Option<String>,
    /// When it took place.
    pub date: Option<DateValue>,
    /// Date it became available.
    pub available_date: Option<DateValue>,
    /// Free-text genre descriptor.
    pub genre: Option<String>,
    /// Broadcast network.
    pub network: Option<String>,
    /// Name of the organizer.
    pub organizer: Option<String>,
    /// URL, in its serialised form.
    pub url: Option<String>,
    /// Date the URL was accessed.
    pub accessed: Option<DateValue>,
    /// BCP 47 language.
    pub language: Option<LangID>,
    /// Freeform note.
    pub note: Option<String>,
    /// Contributors with their roles.
    pub contributors: Vec<ContributorEntry>,
    /// The original work this one translates or reissues.
    pub original: Option<WorkRelation>,
}

/// A publisher: its name and place.
#[derive(Debug, Clone, PartialEq)]
pub struct Publisher {
    /// Publisher name (empty for a place-only imprint).
    pub name: String,
    /// Place of publication.
    pub place: Option<String>,
}

/// A research dataset: the fields it holds as plain values.
#[derive(Debug, Clone, PartialEq)]
pub struct Dataset {
    /// Unique identifier for this reference.
    pub id: Option<RefID>,
    /// Title of the dataset.
    pub title: Option<Title>,
    /// Creation date.
    pub created: DateValue,
    /// Publication date.
    pub issued: DateValue,
    /// Publisher.
    pub publisher: Option<Publisher>,
    /// Version.
    pub version: Option<String>,
    /// Free-text genre descriptor.
    pub genre: Option<String>,
    /// Data format.
    pub format: Option<String>,
    /// Size.
    pub size: Option<String>,
    /// Repository.
    pub repository: Option<String>,
    /// DOI identifier.
    pub doi: Option<String>,
    /// URL, in its serialised form.
    pub url: Option<String>,
    /// Date the URL was accessed.
    pub accessed: Option<DateValue>,
    /// BCP 47 language.
    pub language: Option<LangID>,
    /// Freeform note.
    pub note: Option<String>,
    /// Author.
    pub author: Option<Contributor>,
}

/// Software or source code: the fields it holds as plain values.
#[derive(Debug, Clone, PartialEq)]
pub struct Software {
    /// Unique identifier for this reference.
    pub id: Option<RefID>,
    /// Title of the software.
    pub title: Option<Title>,
    /// Creation date.
    pub created: DateValue,
    /// Publication date.
    pub issued: DateValue,
    /// Publisher.
    pub publisher: Option<Publisher>,
    /// Version.
    pub version: Option<String>,
    /// Source repository.
    pub repository: Option<String>,
    /// License.
    pub license: Option<String>,
    /// Platform.
    pub platform: Option<String>,
    /// DOI identifier.
    pub doi: Option<String>,
    /// URL, in its serialised form.
    pub url: Option<String>,
    /// Date the URL was accessed.
    pub accessed: Option<DateValue>,
    /// BCP 47 language.
    pub language: Option<LangID>,
    /// Freeform note.
    pub note: Option<String>,
    /// Author.
    pub author: Option<Contributor>,
    /// The original work this one translates or reissues.
    pub original: Option<WorkRelation>,
}

/// A legal case: the fields it holds as plain values.
#[derive(Debug, Clone, PartialEq)]
pub struct LegalCase {
    /// Unique identifier for this reference.
    pub id: Option<RefID>,
    /// Title.
    pub title: Option<Title>,
    /// Court or authority.
    pub authority: Option<String>,
    /// Reporter volume.
    pub volume: Option<String>,
    /// Reporter series.
    pub reporter: Option<String>,
    /// First page.
    pub page: Option<String>,
    /// Creation date.
    pub created: DateValue,
    /// Publication or decision date.
    pub issued: DateValue,
    /// DOI identifier.
    pub doi: Option<String>,
    /// URL, in its serialised form.
    pub url: Option<String>,
    /// Date the URL was accessed.
    pub accessed: Option<DateValue>,
    /// BCP 47 language.
    pub language: Option<LangID>,
    /// Freeform note.
    pub note: Option<String>,
    /// The original work this one translates or reissues.
    pub original: Option<WorkRelation>,
}

/// A statute or legislative act: the fields it holds as plain values.
#[derive(Debug, Clone, PartialEq)]
pub struct Statute {
    /// Unique identifier for this reference.
    pub id: Option<RefID>,
    /// Title.
    pub title: Option<Title>,
    /// Enacting authority.
    pub authority: Option<String>,
    /// Volume of the code.
    pub volume: Option<String>,
    /// Code the statute is published in.
    pub code: Option<String>,
    /// Statute number.
    pub number: Option<String>,
    /// Page.
    pub page: Option<String>,
    /// Section.
    pub section: Option<String>,
    /// Chapter number.
    pub chapter_number: Option<String>,
    /// Creation date.
    pub created: DateValue,
    /// Publication or decision date.
    pub issued: DateValue,
    /// URL, in its serialised form.
    pub url: Option<String>,
    /// Date the URL was accessed.
    pub accessed: Option<DateValue>,
    /// BCP 47 language.
    pub language: Option<LangID>,
    /// Freeform note.
    pub note: Option<String>,
    /// The original work this one translates or reissues.
    pub original: Option<WorkRelation>,
}

/// An administrative regulation: the fields it holds as plain values.
#[derive(Debug, Clone, PartialEq)]
pub struct Regulation {
    /// Unique identifier for this reference.
    pub id: Option<RefID>,
    /// Title.
    pub title: Option<Title>,
    /// Issuing authority.
    pub authority: Option<String>,
    /// Volume of the code.
    pub volume: Option<String>,
    /// Code the regulation is published in.
    pub code: Option<String>,
    /// Section.
    pub section: Option<String>,
    /// Creation date.
    pub created: DateValue,
    /// Publication or decision date.
    pub issued: DateValue,
    /// URL, in its serialised form.
    pub url: Option<String>,
    /// Date the URL was accessed.
    pub accessed: Option<DateValue>,
    /// BCP 47 language.
    pub language: Option<LangID>,
    /// Freeform note.
    pub note: Option<String>,
    /// The original work this one translates or reissues.
    pub original: Option<WorkRelation>,
}

/// An international treaty or agreement: the fields it holds as plain values.
#[derive(Debug, Clone, PartialEq)]
pub struct Treaty {
    /// Unique identifier for this reference.
    pub id: Option<RefID>,
    /// Title.
    pub title: Option<Title>,
    /// Treaty series volume.
    pub volume: Option<String>,
    /// Treaty series.
    pub reporter: Option<String>,
    /// Page.
    pub page: Option<String>,
    /// Creation date.
    pub created: DateValue,
    /// Publication or decision date.
    pub issued: DateValue,
    /// URL, in its serialised form.
    pub url: Option<String>,
    /// Date the URL was accessed.
    pub accessed: Option<DateValue>,
    /// BCP 47 language.
    pub language: Option<LangID>,
    /// Freeform note.
    pub note: Option<String>,
    /// Author.
    pub author: Option<Contributor>,
    /// The original work this one translates or reissues.
    pub original: Option<WorkRelation>,
}

/// A legislative or administrative hearing: the fields it holds as plain values.
#[derive(Debug, Clone, PartialEq)]
pub struct Hearing {
    /// Unique identifier for this reference.
    pub id: Option<RefID>,
    /// Title.
    pub title: Option<Title>,
    /// Body holding the hearing.
    pub authority: Option<String>,
    /// Session or congress number (the legacy chapter number).
    pub session_number: Option<String>,
    /// Creation date.
    pub created: DateValue,
    /// Publication or decision date.
    pub issued: DateValue,
    /// URL, in its serialised form.
    pub url: Option<String>,
    /// Date the URL was accessed.
    pub accessed: Option<DateValue>,
    /// BCP 47 language.
    pub language: Option<LangID>,
    /// Freeform note.
    pub note: Option<String>,
}

/// A patent: the fields it holds as plain values.
#[derive(Debug, Clone, PartialEq)]
pub struct Patent {
    /// Unique identifier for this reference.
    pub id: Option<RefID>,
    /// Title.
    pub title: Option<Title>,
    /// Patent number (empty when unknown).
    pub patent_number: String,
    /// Issuing authority.
    pub authority: Option<String>,
    /// Assignee.
    pub assignee: Option<String>,
    /// Application number.
    pub application_number: Option<String>,
    /// Filing date.
    pub filing_date: Option<DateValue>,
    /// Jurisdiction.
    pub jurisdiction: Option<String>,
    /// Creation date.
    pub created: DateValue,
    /// Publication or decision date.
    pub issued: DateValue,
    /// URL, in its serialised form.
    pub url: Option<String>,
    /// Date the URL was accessed.
    pub accessed: Option<DateValue>,
    /// BCP 47 language.
    pub language: Option<LangID>,
    /// Freeform note.
    pub note: Option<String>,
    /// Author.
    pub author: Option<Contributor>,
    /// The original work this one translates or reissues.
    pub original: Option<WorkRelation>,
}

/// A technical standard or specification: the fields it holds as plain values.
#[derive(Debug, Clone, PartialEq)]
pub struct Standard {
    /// Unique identifier for this reference.
    pub id: Option<RefID>,
    /// Title.
    pub title: Option<Title>,
    /// Standards body.
    pub authority: Option<String>,
    /// Standard number (empty when unknown).
    pub standard_number: String,
    /// Status.
    pub status: Option<String>,
    /// Publisher (only with a publisher name).
    pub publisher: Option<Publisher>,
    /// Creation date.
    pub created: DateValue,
    /// Publication or decision date.
    pub issued: DateValue,
    /// URL, in its serialised form.
    pub url: Option<String>,
    /// Date the URL was accessed.
    pub accessed: Option<DateValue>,
    /// BCP 47 language.
    pub language: Option<LangID>,
    /// Freeform note.
    pub note: Option<String>,
    /// The original work this one translates or reissues.
    pub original: Option<WorkRelation>,
}

/// An audio-visual work (film, recording, broadcast): the fields it holds as
/// plain values.
#[derive(Debug, Clone, PartialEq)]
pub struct AudioVisualWork {
    /// Unique identifier for this reference.
    pub id: Option<RefID>,
    /// Subtype.
    pub kind: AudioVisualType,
    /// Title.
    pub title: Option<Title>,
    /// Creation date.
    pub created: DateValue,
    /// Release date.
    pub issued: DateValue,
    /// BCP 47 language.
    pub language: Option<LangID>,
    /// Free-text genre descriptor.
    pub genre: Option<String>,
    /// Title of the work that contains it (an album, a series).
    pub container_title: Option<String>,
    /// Title of the event it was presented at.
    pub event_title: Option<String>,
    /// Place of that event.
    pub event_place: Option<String>,
    /// Date of that event.
    pub event_date: Option<DateValue>,
    /// Numbering identifiers.
    pub numbering: Vec<Numbering>,
    /// Publisher or distributor.
    pub publisher: Option<Publisher>,
    /// Medium descriptor.
    pub medium: Option<String>,
    /// Running time or size.
    pub dimensions: Option<String>,
    /// Platform.
    pub platform: Option<String>,
    /// URL, in its serialised form.
    pub url: Option<String>,
    /// Date the URL was accessed.
    pub accessed: Option<DateValue>,
    /// Freeform note.
    pub note: Option<String>,
    /// Contributors with their roles.
    pub contributors: Vec<ContributorEntry>,
    /// The original work this one adapts or reissues.
    pub original: Option<WorkRelation>,
}

/// What kind of work contains a collection component.
#[derive(Debug, Clone, Copy, PartialEq, Eq, Structural)]
pub enum ParentKind {
    /// A report series monograph.
    Report,
    /// Conference proceedings.
    Proceedings,
    /// An edited book.
    EditedBook,
}

/// The work that contains a collection component, as plain values.
#[derive(Debug, Clone, PartialEq)]
pub struct ParentWork {
    /// What kind of work it is.
    pub kind: ParentKind,
    /// Its title.
    pub title: Option<String>,
    /// Its short title.
    pub short_title: Option<String>,
    /// Title of the series it belongs to.
    pub series_title: Option<String>,
    /// Its publisher.
    pub publisher: Option<Publisher>,
    /// Its edition.
    pub edition: Option<String>,
    /// Its numbering.
    pub numbering: Vec<Numbering>,
    /// Its genre.
    pub genre: Option<String>,
    /// Title of the event it records.
    pub event_title: Option<String>,
    /// Place of that event.
    pub event_place: Option<String>,
    /// Date of that event.
    pub event_date: Option<DateValue>,
    /// Its editor, when the parent is named.
    pub editor: Option<Contributor>,
    /// Its contributors with their roles.
    pub contributors: Vec<ContributorEntry>,
}

/// A component of a larger monograph, such as a chapter in a book or a paper
/// in proceedings: the fields it holds as plain values.
#[derive(Debug, Clone, PartialEq)]
pub struct CollectionComponent {
    /// Unique identifier for this reference.
    pub id: Option<RefID>,
    /// Subtype.
    pub kind: MonographComponentType,
    /// Title.
    pub title: Option<Title>,
    /// Publication date.
    pub issued: DateValue,
    /// The containing work.
    pub container: ParentWork,
    /// Edition.
    pub edition: Option<String>,
    /// Pages.
    pub pages: Option<NumOrStr>,
    /// URL, in its serialised form.
    pub url: Option<String>,
    /// Date the URL was accessed.
    pub accessed: Option<DateValue>,
    /// BCP 47 language.
    pub language: Option<LangID>,
    /// Freeform note.
    pub note: Option<String>,
    /// DOI identifier.
    pub doi: Option<String>,
    /// Free-text genre descriptor.
    pub genre: Option<String>,
    /// Medium descriptor.
    pub medium: Option<String>,
    /// Publication status.
    pub status: Option<String>,
    /// Numbering identifiers.
    pub numbering: Vec<Numbering>,
    /// Author.
    pub author: Option<Contributor>,
    /// Translator.
    pub translator: Option<Contributor>,
    /// Contributors with their roles.
    pub contributors: Vec<ContributorEntry>,
    /// The original work this one translates or reissues.
    pub original: Option<WorkRelation>,
}

/// The serial that contains a serial component, as plain values.
#[derive(Debug, Clone, PartialEq)]
pub struct SerialParent {
    /// Type of serial.
    pub kind: SerialType,
    /// Its title.
    pub title: Option<String>,
    /// Its short title or abbreviation.
    pub short_title: Option<String>,
    /// Title of the series it belongs to.
    pub series_title: Option<String>,
    /// Its publisher.
    pub publisher: Option<Publisher>,
    /// Its ISSN.
    pub issn: Option<String>,
    /// Its editor.
    pub editor: Option<Contributor>,
    /// Its contributors with their roles.
    pub contributors: Vec<ContributorEntry>,
}

/// A component of a serial, such as a journal or newspaper article: the
/// fields it holds as plain values.
#[derive(Debug, Clone, PartialEq)]
pub struct SerialComponent {
    /// Unique identifier for this reference.
    pub id: Option<RefID>,
    /// Subtype.
    pub kind: SerialComponentType,
    /// Title.
    pub title: Option<Title>,
    /// Creation date.
    pub created: DateValue,
    /// Publication date.
    pub issued: DateValue,
    /// The containing serial.
    pub container: SerialParent,
    /// Volume.
    pub volume: Option<String>,
    /// Issue.
    pub issue: Option<String>,
    /// Generic number.
    pub number: Option<String>,
    /// Numbering identifiers.
    pub numbering: Vec<Numbering>,
    /// URL, in its serialised form.
    pub url: Option<String>,
    /// Date the URL was accessed.
    pub accessed: Option<DateValue>,
    /// BCP 47 language.
    pub language: Option<LangID>,
    /// Freeform note.
    pub note: Option<String>,
    /// DOI identifier.
    pub doi: Option<String>,
    /// Pages.
    pub pages: Option<String>,
    /// Free-text genre descriptor.
    pub genre: Option<String>,
    /// Medium descriptor.
    pub medium: Option<String>,
    /// Section of the serial.
    pub section: Option<String>,
    /// Publication status.
    pub status: Option<String>,
    /// Date it became available.
    pub available_date: Option<DateValue>,
    /// Title of the reviewed work, for a review.
    pub reviewed_title: Option<String>,
    /// Genre of the reviewed work, for a review.
    pub reviewed_genre: Option<String>,
    /// Title of the event it reports on.
    pub event_title: Option<String>,
    /// Place of that event.
    pub event_place: Option<String>,
    /// Date of that event.
    pub event_date: Option<DateValue>,
    /// Running time.
    pub duration: Option<String>,
    /// Author.
    pub author: Option<Contributor>,
    /// Translator.
    pub translator: Option<Contributor>,
    /// Contributors with their roles.
    pub contributors: Vec<ContributorEntry>,
    /// The original work this one translates or reissues.
    pub original: Option<WorkRelation>,
    /// The work a review reviews.
    pub reviewed: Option<WorkRelation>,
}

} // verus!
