//! Citation input model: citations, citation items and pinpoint locators.
//!
//! Citations reference entries in the bibliography and can carry locators,
//! prefixes, suffixes and mode information.

use vstd::prelude::*;
use vstd::std_specs::cmp::PartialEqSpecImpl;
use vstd::std_specs::convert::FromSpecImpl;
use vstd::utf8::encode_utf8;

use crate::text::{
    ascii_lower, char_offset, char_offset_in, chars_of, contains_char, has_prefix_at, is_alnum,
    is_ascii_alnum, is_ascii_digit, is_ascii_lower, is_whitespace, is_ws, owned, push_char,
    skip_ws, str_eq, string_from_range, to_ascii_lower, to_lowercase, trim, trim_bounds,
    trim_start, unicode_lowercase,
};

verus! {

/// Citation mode for author-date styles.
///
/// `Integral` puts the author inline in the text ("Smith (2020) argues");
/// `NonIntegral` puts it in parentheses ("(Smith, 2020)") and is the default.
#[derive(Debug, Clone, Copy, PartialEq, Eq, Structural)]
pub enum CitationMode {
    Integral,
    NonIntegral,
}

impl Default for CitationMode {
    fn default() -> (r: Self)
        ensures
            r == CitationMode::NonIntegral,
    {
        CitationMode::NonIntegral
    }
}

/// Explicit integral citation name-memory state for one citation item.
#[derive(Debug, Clone, Copy, PartialEq, Eq, Structural)]
pub enum IntegralNameState {
    /// Render this item as the first integral mention in scope.
    First,
    /// Render this item as a subsequent integral mention in scope.
    Subsequent,
}

/// Position of a citation in the document flow.
#[derive(Debug, Clone, Copy, PartialEq, Eq, Structural)]
pub enum Position {
    /// First citation of an item.
    First,
    /// Subsequent citation of an item (non-consecutive).
    Subsequent,
    /// Same item cited immediately before, no locator on either.
    Ibid,
    /// Same item cited immediately before, with different locator.
    IbidWithLocator,
}

/// Whether a citation mode is the default one (it is then left out on the wire).
pub fn is_default_mode(mode: &CitationMode) -> (b: bool)
    ensures
        b == (*mode == CitationMode::NonIntegral),
{
    *mode == CitationMode::NonIntegral
}

/// Whether a flag is unset (it is then left out on the wire).
pub fn is_false(b: &bool) -> (r: bool)
    ensures
        r == !*b,
{
    !*b
}

/// One step of the locator-key normalisation: the accumulated key and whether a
/// separator is pending, after reading one more character.
pub open spec fn key_step(acc: Seq<char>, pending: bool, c: char) -> (Seq<char>, bool) {
    if is_ascii_alnum(c) {
        let acc1 = if pending && acc.len() > 0 {
            acc.push('-')
        } else {
            acc
        };
        (acc1.push(ascii_lower(c)), false)
    } else if acc.len() > 0 {
        (acc, true)
    } else {
        (acc, pending)
    }
}

/// The normalisation state after reading all of `s` from the left.
pub open spec fn key_fold(s: Seq<char>) -> (Seq<char>, bool)
    decreases s.len(),
{
    if s.len() == 0 {
        (Seq::empty(), false)
    } else {
        let prev = key_fold(s.drop_last());
        key_step(prev.0, prev.1, s.last())
    }
}

/// The canonical kebab-case key of a label: the maximal runs of ASCII letters and
/// digits, lowercased, joined by single `-`; everything else only separates runs.
pub open spec fn kind_key(s: Seq<char>) -> Seq<char> {
    key_fold(s).0
}

/// A well-formed key: lowercase ASCII letters, digits and `-`, with no `-` at
/// either end and no two `-` in a row.
pub open spec fn key_wf(w: Seq<char>) -> bool {
    &&& forall|i: int| 0 <= i < w.len() ==> is_ascii_lower(#[trigger] w[i]) || is_ascii_digit(w[i]) || w[i] == '-'
    &&& w.len() > 0 ==> w[0] != '-' && w.last() != '-'
    &&& forall|i: int| 0 <= i < w.len() - 1 ==> !(#[trigger] w[i] == '-' && w[i + 1] == '-')
}

proof fn lemma_ascii_lower_alnum(c: char)
    requires
        is_ascii_alnum(c),
    ensures
        is_ascii_lower(ascii_lower(c)) || is_ascii_digit(ascii_lower(c)),
        ascii_lower(c) != '-',
{
}

/// Every normalised key is well formed.
proof fn lemma_kind_key_wf(s: Seq<char>)
    ensures
        key_wf(key_fold(s).0),
        key_fold(s).1 ==> key_fold(s).0.len() > 0,
    decreases s.len(),
{
    if s.len() > 0 {
        lemma_kind_key_wf(s.drop_last());
        let prev = key_fold(s.drop_last());
        let c = s.last();
        if is_ascii_alnum(c) {
            lemma_ascii_lower_alnum(c);
            let acc1 = if prev.1 && prev.0.len() > 0 {
                prev.0.push('-')
            } else {
                prev.0
            };
            let r = acc1.push(ascii_lower(c));
            assert forall|i: int| 0 <= i < r.len() - 1 implies !(#[trigger] r[i] == '-' && r[i + 1] == '-') by {
                if i < acc1.len() - 1 {
                    assert(r[i] == acc1[i] && r[i + 1] == acc1[i + 1]);
                    if prev.1 && prev.0.len() > 0 && i == prev.0.len() - 1 {
                        assert(acc1[i] == prev.0.last());
                    } else if i < prev.0.len() - 1 {
                        assert(acc1[i] == prev.0[i] && acc1[i + 1] == prev.0[i + 1]);
                    }
                }
            }
            assert forall|i: int| 0 <= i < r.len() implies is_ascii_lower(#[trigger] r[i]) || is_ascii_digit(r[i]) || r[i] == '-' by {
                if i < acc1.len() {
                    if i < prev.0.len() {
                        assert(r[i] == prev.0[i]);
                    }
                }
            }
            if r.len() > 0 {
                if prev.0.len() > 0 {
                    assert(r[0] == prev.0[0]);
                }
            }
        }
    }
}

/// A well-formed key normalises to itself.
proof fn lemma_kind_key_fixed(w: Seq<char>)
    requires
        key_wf(w),
    ensures
        key_fold(w) == (w, false),
{
    assert forall|i: int| 0 <= i <= w.len() implies #[trigger] key_fold(w.take(i)) == (if i > 0 && w[i - 1] == '-' {
        (w.take(i - 1), true)
    } else {
        (w.take(i), false)
    }) by {
        lemma_kind_key_prefix(w, i);
    }
    assert(w.take(w.len() as int) =~= w);
    assert(key_fold(w.take(w.len() as int)) == (if w.len() > 0 && w[w.len() - 1] == '-' {
        (w.take(w.len() - 1), true)
    } else {
        (w.take(w.len() as int), false)
    }));
}

proof fn lemma_kind_key_prefix(w: Seq<char>, i: int)
    requires
        key_wf(w),
        0 <= i <= w.len(),
    ensures
        key_fold(w.take(i)) == (if i > 0 && w[i - 1] == '-' {
            (w.take(i - 1), true)
        } else {
            (w.take(i), false)
        }),
    decreases i,
{
    if i > 0 {
        lemma_kind_key_prefix(w, i - 1);
        let p = w.take(i);
        assert(p.drop_last() =~= w.take(i - 1));
        assert(p.last() == w[i - 1]);
        let c = w[i - 1];
        assert(is_ascii_lower(w[i - 1]) || is_ascii_digit(w[i - 1]) || w[i - 1] == '-');
        if c == '-' {
            assert(i - 1 > 0);
            assert(!(w[i - 2] == '-' && w[i - 1] == '-'));
        } else {
            if i - 1 > 0 && w[i - 2] == '-' {
                assert(w.take(i - 2).push('-').push(c) =~= w.take(i));
            } else {
                assert(w.take(i - 1).push(c) =~= w.take(i));
            }
        }
    } else {
        assert(w.take(0) =~= Seq::<char>::empty());
    }
}

/// Normalising a key is idempotent: a normalised key normalises to itself.
pub proof fn lemma_kind_key_idempotent(s: Seq<char>)
    ensures
        kind_key(kind_key(s)) == kind_key(s),
{
    lemma_kind_key_wf(s);
    lemma_kind_key_fixed(kind_key(s));
}

/// Normalise a locator label to its canonical kebab-case key, or `None` when no
/// letter or digit remains.
pub fn normalize_kind_key(value: &str) -> (r: Option<String>)
    ensures
        kind_key(value@).len() == 0 ==> r is None,
        kind_key(value@).len() > 0 ==> r is Some && r->0@ == kind_key(value@),
{
    let v = chars_of(value);
    let mut normalized = String::new();
    let mut pending_dash = false;
    let mut nonempty = false;
    let mut i: usize = 0;
    while i < v.len()
        invariant
            v@ == value@,
            i <= v.len(),
            (normalized@, pending_dash) == key_fold(v@.take(i as int)),
            nonempty == (normalized@.len() > 0),
        decreases v.len() - i,
    {
        let ch = v[i];
        proof {
            assert(v@.take(i + 1).drop_last() =~= v@.take(i as int));
        }
        if is_alnum(ch) {
            if pending_dash && nonempty {
                push_char(&mut normalized, '-');
            }
            push_char(&mut normalized, to_ascii_lower(ch));
            nonempty = true;
            pending_dash = false;
        } else if nonempty {
            pending_dash = true;
        }
        i = i + 1;
    }
    proof {
        assert(v@.take(v@.len() as int) =~= v@);
    }
    if nonempty {
        Some(normalized)
    } else {
        None
    }
}

/// Locator types for pinpoint citations.
#[derive(Debug)]
pub enum LocatorType {
    /// Locator refers to a book within a larger work.
    Book,
    /// Locator refers to a chapter.
    Chapter,
    /// Locator refers to a clause.
    Clause,
    /// Locator refers to a column.
    Column,
    /// Locator refers to a corollary.
    Corollary,
    /// Locator refers to a definition.
    Definition,
    /// Locator refers to a division.
    Division,
    /// Locator refers to a figure.
    Figure,
    /// Locator refers to a folio.
    Folio,
    /// Locator refers to a numbered line.
    Line,
    /// Locator refers to a lemma.
    Lemma,
    /// Locator refers to a note.
    Note,
    /// Locator refers to a numbered unit.
    Number,
    /// Locator refers to an opus number.
    Opus,
    /// Locator refers to a page.
    Page,
    /// Locator refers to a paragraph.
    Paragraph,
    /// Locator refers to a sub-paragraph.
    Subparagraph,
    /// Locator refers to a sub-clause.
    Subclause,
    /// Locator refers to a sub-division.
    Subdivision,
    /// Locator refers to a sub-section.
    Subsection,
    /// Locator refers to a part or division.
    Part,
    /// Locator refers to a problem.
    Problem,
    /// Locator refers to a proposition.
    Proposition,
    /// Locator refers to a recital.
    Recital,
    /// Locator refers to a schedule.
    Schedule,
    /// Locator refers to a section.
    Section,
    /// Locator refers to a surah.
    Surah,
    /// Locator refers to a theorem.
    Theorem,
    /// Locator refers to an entry under a headword.
    SubVerbo,
    /// Locator refers to a supplement.
    Supplement,
    /// Locator refers to a verse.
    Verse,
    /// Locator refers to a volume.
    Volume,
    /// Locator refers to a periodical volume.
    VolumePeriodical,
    /// Locator refers to a monograph volume.
    VolumeBook,
    /// Locator refers to an issue.
    Issue,
    /// Locator refers to an algorithm.
    Algorithm,
    /// Locator refers to a custom pinpoint label.
    Custom(String),
}

impl LocatorType {
    /// The canonical kebab-case key of this label; a custom label normalises
    /// its text, and keeps it verbatim when no letter or digit remains.
    pub open spec fn key(&self) -> Seq<char> {
        match self {
            LocatorType::Book => "book"@,
            LocatorType::Chapter => "chapter"@,
            LocatorType::Clause => "clause"@,
            LocatorType::Column => "column"@,
            LocatorType::Corollary => "corollary"@,
            LocatorType::Definition => "definition"@,
            LocatorType::Division => "division"@,
            LocatorType::Figure => "figure"@,
            LocatorType::Folio => "folio"@,
            LocatorType::Line => "line"@,
            LocatorType::Lemma => "lemma"@,
            LocatorType::Note => "note"@,
            LocatorType::Number => "number"@,
            LocatorType::Opus => "opus"@,
            LocatorType::Page => "page"@,
            LocatorType::Paragraph => "paragraph"@,
            LocatorType::Subparagraph => "subparagraph"@,
            LocatorType::Subclause => "subclause"@,
            LocatorType::Subdivision => "subdivision"@,
            LocatorType::Subsection => "subsection"@,
            LocatorType::Part => "part"@,
            LocatorType::Problem => "problem"@,
            LocatorType::Proposition => "proposition"@,
            LocatorType::Recital => "recital"@,
            LocatorType::Schedule => "schedule"@,
            LocatorType::Section => "section"@,
            LocatorType::Surah => "surah"@,
            LocatorType::Theorem => "theorem"@,
            LocatorType::SubVerbo => "sub-verbo"@,
            LocatorType::Supplement => "supplement"@,
            LocatorType::Verse => "verse"@,
            LocatorType::Volume => "volume"@,
            LocatorType::VolumePeriodical => "volume-periodical"@,
            LocatorType::VolumeBook => "volume-book"@,
            LocatorType::Issue => "issue"@,
            LocatorType::Algorithm => "algorithm"@,
            LocatorType::Custom(value) => if kind_key(value@).len() > 0 {
                kind_key(value@)
            } else {
                value@
            },
        }
    }

    /// Return the canonical kebab-case key for this locator label.
    pub fn as_key(&self) -> (r: String)
        ensures
            r@ == self.key(),
    {
        match self {
            LocatorType::Book => owned("book"),
            LocatorType::Chapter => owned("chapter"),
            LocatorType::Clause => owned("clause"),
            LocatorType::Column => owned("column"),
            LocatorType::Corollary => owned("corollary"),
            LocatorType::Definition => owned("definition"),
            LocatorType::Division => owned("division"),
            LocatorType::Figure => owned("figure"),
            LocatorType::Folio => owned("folio"),
            LocatorType::Line => owned("line"),
            LocatorType::Lemma => owned("lemma"),
            LocatorType::Note => owned("note"),
            LocatorType::Number => owned("number"),
            LocatorType::Opus => owned("opus"),
            LocatorType::Page => owned("page"),
            LocatorType::Paragraph => owned("paragraph"),
            LocatorType::Subparagraph => owned("subparagraph"),
            LocatorType::Subclause => owned("subclause"),
            LocatorType::Subdivision => owned("subdivision"),
            LocatorType::Subsection => owned("subsection"),
            LocatorType::Part => owned("part"),
            LocatorType::Problem => owned("problem"),
            LocatorType::Proposition => owned("proposition"),
            LocatorType::Recital => owned("recital"),
            LocatorType::Schedule => owned("schedule"),
            LocatorType::Section => owned("section"),
            LocatorType::Surah => owned("surah"),
            LocatorType::Theorem => owned("theorem"),
            LocatorType::SubVerbo => owned("sub-verbo"),
            LocatorType::Supplement => owned("supplement"),
            LocatorType::Verse => owned("verse"),
            LocatorType::Volume => owned("volume"),
            LocatorType::VolumePeriodical => owned("volume-periodical"),
            LocatorType::VolumeBook => owned("volume-book"),
            LocatorType::Issue => owned("issue"),
            LocatorType::Algorithm => owned("algorithm"),
            LocatorType::Custom(value) => match normalize_kind_key(value.as_str()) {
                Some(key) => key,
                None => value.clone(),
            },
        }
    }

    /// Parse a locator label from a known keyword or custom identifier.
    ///
    /// The label is first normalised ([`kind_key`]); a known keyword gives its
    /// variant, anything else a `Custom` label holding the normalised key. An input
    /// that normalises to the empty key is an error.
    pub fn from_key(value: &str) -> (r: Result<Self, String>)
        ensures
            r is Err <==> kind_key(value@).len() == 0,
            r matches Err(e) ==> e@ == "locator label must not be empty"@,
            r matches Ok(t) ==> t.key() == kind_key(value@),
            r matches Ok(t) ==> match known_locator(kind_key(value@)) {
                Some(known) => t == known,
                None => t matches LocatorType::Custom(c) && c@ == kind_key(value@),
            },
    {
        proof {
            lemma_kind_key_idempotent(value@);
        }
        let canonical = match normalize_kind_key(value) {
            Some(c) => c,
            None => return Err(owned("locator label must not be empty")),
        };
        let c = canonical.as_str();
        if str_eq(c, "algorithm") {
            Ok(LocatorType::Algorithm)
        } else if str_eq(c, "book") {
            Ok(LocatorType::Book)
        } else if str_eq(c, "chapter") {
            Ok(LocatorType::Chapter)
        } else if str_eq(c, "clause") {
            Ok(LocatorType::Clause)
        } else if str_eq(c, "column") {
            Ok(LocatorType::Column)
        } else if str_eq(c, "corollary") {
            Ok(LocatorType::Corollary)
        } else if str_eq(c, "definition") {
            Ok(LocatorType::Definition)
        } else if str_eq(c, "division") {
            Ok(LocatorType::Division)
        } else if str_eq(c, "figure") {
            Ok(LocatorType::Figure)
        } else if str_eq(c, "folio") {
            Ok(LocatorType::Folio)
        } else if str_eq(c, "issue") {
            Ok(LocatorType::Issue)
        } else if str_eq(c, "lemma") {
            Ok(LocatorType::Lemma)
        } else if str_eq(c, "line") {
            Ok(LocatorType::Line)
        } else if str_eq(c, "note") {
            Ok(LocatorType::Note)
        } else if str_eq(c, "number") {
            Ok(LocatorType::Number)
        } else if str_eq(c, "opus") {
            Ok(LocatorType::Opus)
        } else if str_eq(c, "page") {
            Ok(LocatorType::Page)
        } else if str_eq(c, "paragraph") {
            Ok(LocatorType::Paragraph)
        } else if str_eq(c, "part") {
            Ok(LocatorType::Part)
        } else if str_eq(c, "problem") {
            Ok(LocatorType::Problem)
        } else if str_eq(c, "proposition") {
            Ok(LocatorType::Proposition)
        } else if str_eq(c, "recital") {
            Ok(LocatorType::Recital)
        } else if str_eq(c, "schedule") {
            Ok(LocatorType::Schedule)
        } else if str_eq(c, "section") {
            Ok(LocatorType::Section)
        } else if str_eq(c, "sub-verbo") {
            Ok(LocatorType::SubVerbo)
        } else if str_eq(c, "subclause") {
            Ok(LocatorType::Subclause)
        } else if str_eq(c, "subdivision") {
            Ok(LocatorType::Subdivision)
        } else if str_eq(c, "subparagraph") {
            Ok(LocatorType::Subparagraph)
        } else if str_eq(c, "subsection") {
            Ok(LocatorType::Subsection)
        } else if str_eq(c, "supplement") {
            Ok(LocatorType::Supplement)
        } else if str_eq(c, "surah") {
            Ok(LocatorType::Surah)
        } else if str_eq(c, "theorem") {
            Ok(LocatorType::Theorem)
        } else if str_eq(c, "verse") {
            Ok(LocatorType::Verse)
        } else if str_eq(c, "volume") {
            Ok(LocatorType::Volume)
        } else if str_eq(c, "volume-book") {
            Ok(LocatorType::VolumeBook)
        } else if str_eq(c, "volume-periodical") {
            Ok(LocatorType::VolumePeriodical)
        } else {
            Ok(LocatorType::Custom(canonical))
        }
    }
}

/// The known locator label whose canonical key is `k`, if any.
pub open spec fn known_locator(k: Seq<char>) -> Option<LocatorType> {
    if k == "algorithm"@ {
        Some(LocatorType::Algorithm)
    } else if k == "book"@ {
        Some(LocatorType::Book)
    } else if k == "chapter"@ {
        Some(LocatorType::Chapter)
    } else if k == "clause"@ {
        Some(LocatorType::Clause)
    } else if k == "column"@ {
        Some(LocatorType::Column)
    } else if k == "corollary"@ {
        Some(LocatorType::Corollary)
    } else if k == "definition"@ {
        Some(LocatorType::Definition)
    } else if k == "division"@ {
        Some(LocatorType::Division)
    } else if k == "figure"@ {
        Some(LocatorType::Figure)
    } else if k == "folio"@ {
        Some(LocatorType::Folio)
    } else if k == "issue"@ {
        Some(LocatorType::Issue)
    } else if k == "lemma"@ {
        Some(LocatorType::Lemma)
    } else if k == "line"@ {
        Some(LocatorType::Line)
    } else if k == "note"@ {
        Some(LocatorType::Note)
    } else if k == "number"@ {
        Some(LocatorType::Number)
    } else if k == "opus"@ {
        Some(LocatorType::Opus)
    } else if k == "page"@ {
        Some(LocatorType::Page)
    } else if k == "paragraph"@ {
        Some(LocatorType::Paragraph)
    } else if k == "part"@ {
        Some(LocatorType::Part)
    } else if k == "problem"@ {
        Some(LocatorType::Problem)
    } else if k == "proposition"@ {
        Some(LocatorType::Proposition)
    } else if k == "recital"@ {
        Some(LocatorType::Recital)
    } else if k == "schedule"@ {
        Some(LocatorType::Schedule)
    } else if k == "section"@ {
        Some(LocatorType::Section)
    } else if k == "sub-verbo"@ {
        Some(LocatorType::SubVerbo)
    } else if k == "subclause"@ {
        Some(LocatorType::Subclause)
    } else if k == "subdivision"@ {
        Some(LocatorType::Subdivision)
    } else if k == "subparagraph"@ {
        Some(LocatorType::Subparagraph)
    } else if k == "subsection"@ {
        Some(LocatorType::Subsection)
    } else if k == "supplement"@ {
        Some(LocatorType::Supplement)
    } else if k == "surah"@ {
        Some(LocatorType::Surah)
    } else if k == "theorem"@ {
        Some(LocatorType::Theorem)
    } else if k == "verse"@ {
        Some(LocatorType::Verse)
    } else if k == "volume"@ {
        Some(LocatorType::Volume)
    } else if k == "volume-book"@ {
        Some(LocatorType::VolumeBook)
    } else if k == "volume-periodical"@ {
        Some(LocatorType::VolumePeriodical)
    } else {
        None
    }
}

impl Clone for LocatorType {
    fn clone(&self) -> (r: Self)
        ensures
            r == *self,
    {
        match self {
            LocatorType::Book => LocatorType::Book,
            LocatorType::Chapter => LocatorType::Chapter,
            LocatorType::Clause => LocatorType::Clause,
            LocatorType::Column => LocatorType::Column,
            LocatorType::Corollary => LocatorType::Corollary,
            LocatorType::Definition => LocatorType::Definition,
            LocatorType::Division => LocatorType::Division,
            LocatorType::Figure => LocatorType::Figure,
            LocatorType::Folio => LocatorType::Folio,
            LocatorType::Line => LocatorType::Line,
            LocatorType::Lemma => LocatorType::Lemma,
            LocatorType::Note => LocatorType::Note,
            LocatorType::Number => LocatorType::Number,
            LocatorType::Opus => LocatorType::Opus,
            LocatorType::Page => LocatorType::Page,
            LocatorType::Paragraph => LocatorType::Paragraph,
            LocatorType::Subparagraph => LocatorType::Subparagraph,
            LocatorType::Subclause => LocatorType::Subclause,
            LocatorType::Subdivision => LocatorType::Subdivision,
            LocatorType::Subsection => LocatorType::Subsection,
            LocatorType::Part => LocatorType::Part,
            LocatorType::Problem => LocatorType::Problem,
            LocatorType::Proposition => LocatorType::Proposition,
            LocatorType::Recital => LocatorType::Recital,
            LocatorType::Schedule => LocatorType::Schedule,
            LocatorType::Section => LocatorType::Section,
            LocatorType::Surah => LocatorType::Surah,
            LocatorType::Theorem => LocatorType::Theorem,
            LocatorType::SubVerbo => LocatorType::SubVerbo,
            LocatorType::Supplement => LocatorType::Supplement,
            LocatorType::Verse => LocatorType::Verse,
            LocatorType::Volume => LocatorType::Volume,
            LocatorType::VolumePeriodical => LocatorType::VolumePeriodical,
            LocatorType::VolumeBook => LocatorType::VolumeBook,
            LocatorType::Issue => LocatorType::Issue,
            LocatorType::Algorithm => LocatorType::Algorithm,
            LocatorType::Custom(value) => LocatorType::Custom(value.clone()),
        }
    }
}

impl PartialEq for LocatorType {
    fn eq(&self, other: &Self) -> (r: bool) {
        let a = self.as_key();
        let b = other.as_key();
        str_eq(a.as_str(), b.as_str())
    }
}

impl PartialEqSpecImpl for LocatorType {
    open spec fn obeys_eq_spec() -> bool {
        true
    }

    open spec fn eq_spec(&self, other: &Self) -> bool {
        self.key() == other.key()
    }
}

impl Eq for LocatorType {

}

/// Hashes a locator label by its canonical key, so that labels equal under
/// `==` (equal keys) hash alike.
impl core::hash::Hash for LocatorType {
    #[verifier::external_body]
    fn hash<H: core::hash::Hasher>(&self, state: &mut H) {
        self.as_key().hash(state)
    }
}

impl Default for LocatorType {
    fn default() -> (r: Self)
        ensures
            r == LocatorType::Page,
    {
        LocatorType::Page
    }
}

/// A locator value that supports both plain strings and explicit plurality.
///
/// Plain strings use heuristic plural detection (checking for `-`, `–`, `,`, `&`).
/// Use the explicit form to override when the heuristic fails (e.g., "figure A-3"
/// should be singular despite containing a hyphen).
#[derive(Debug, Clone, PartialEq)]
pub enum LocatorValue {
    /// Plain string value with heuristic plural detection.
    Text(String),
    /// Explicit value with manual plural override.
    Explicit {
        /// The locator value string.
        value: String,
        /// Whether this locator is plural.
        plural: bool,
    },
}

impl LocatorValue {
    /// The raw value text.
    pub open spec fn text(&self) -> Seq<char> {
        match self {
            LocatorValue::Text(s) => s@,
            LocatorValue::Explicit { value, .. } => value@,
        }
    }

    /// Whether the value counts as plural.
    pub open spec fn plural(&self) -> bool {
        match self {
            LocatorValue::Text(s) => s@.contains('\u{2013}') || s@.contains('-') || s@.contains(',')
                || s@.contains('&'),
            LocatorValue::Explicit { plural, .. } => *plural,
        }
    }

    /// Returns the raw value string.
    pub fn value_str(&self) -> (r: &str)
        ensures
            r@ == self.text(),
    {
        match self {
            LocatorValue::Text(s) => s.as_str(),
            LocatorValue::Explicit { value, .. } => value.as_str(),
        }
    }

    /// Returns whether this locator value is plural.
    ///
    /// For `Text`, uses the heuristic (contains `-`, `–`, `,`, or `&`).
    /// For `Explicit`, returns the specified `plural` field.
    pub fn is_plural(&self) -> (r: bool)
        ensures
            r == self.plural(),
    {
        match self {
            LocatorValue::Text(s) => {
                let v = chars_of(s.as_str());
                contains_char(&v, '\u{2013}') || contains_char(&v, '-') || contains_char(&v, ',')
                    || contains_char(&v, '&')
            },
            LocatorValue::Explicit { plural, .. } => *plural,
        }
    }
}

impl Default for LocatorValue {
    fn default() -> (r: Self)
        ensures
            r matches LocatorValue::Text(s) && s@.len() == 0,
    {
        LocatorValue::Text(String::new())
    }
}

impl From<String> for LocatorValue {
    fn from(s: String) -> (r: Self)
        ensures
            r == LocatorValue::Text(s),
    {
        LocatorValue::Text(s)
    }
}

impl FromSpecImpl<String> for LocatorValue {
    open spec fn obeys_from_spec() -> bool {
        true
    }

    open spec fn from_spec(s: String) -> Self {
        LocatorValue::Text(s)
    }
}

impl<'a> From<&'a str> for LocatorValue {
    fn from(s: &'a str) -> (r: Self)
        ensures
            r matches LocatorValue::Text(t) && t@ == s@,
    {
        LocatorValue::Text(owned(s))
    }
}

impl<'a> FromSpecImpl<&'a str> for LocatorValue {
    open spec fn obeys_from_spec() -> bool {
        false
    }

    open spec fn from_spec(s: &'a str) -> Self {
        arbitrary()
    }
}

/// A single segment of a compound locator.
///
/// Pairs a locator type with its value, e.g. `{ label: chapter, value: "3" }`.
#[derive(Debug, Clone, PartialEq)]
pub struct LocatorSegment {
    /// The locator type for this segment.
    pub label: LocatorType,
    /// The locator value (e.g., "3", "42-45").
    pub value: LocatorValue,
}

impl LocatorSegment {
    /// Create a locator segment from a canonical label and value.
    pub fn new<V: Into<LocatorValue>>(label: LocatorType, value: V) -> (r: Self)
        ensures
            r.label == label,
            call_ensures(V::into, (value,), r.value),
    {
        LocatorSegment { label, value: value.into() }
    }
}

/// A canonical citation locator.
///
/// Simple locators use the single-segment form, while compound locators use
/// the explicit `segments` wrapper.
#[derive(Debug, Clone, PartialEq)]
pub enum CitationLocator {
    /// A single labeled locator.
    Single(LocatorSegment),
    /// Multiple ordered locator segments.
    Compound {
        /// Ordered locator segments.
        segments: Vec<LocatorSegment>,
    },
}

/// `std::slice::from_ref`: a one-element slice.
#[verifier::external_body]
fn slice_of_one<T>(x: &T) -> (r: &[T])
    ensures
        r@ == seq![*x],
{
    std::slice::from_ref(x)
}

impl CitationLocator {
    /// The ordered segments of the locator.
    pub open spec fn segment_seq(&self) -> Seq<LocatorSegment> {
        match self {
            CitationLocator::Single(s) => seq![*s],
            CitationLocator::Compound { segments } => segments@,
        }
    }

    /// Create a single-segment locator.
    pub fn single<V: Into<LocatorValue>>(label: LocatorType, value: V) -> (r: Self)
        ensures
            r matches CitationLocator::Single(s) && s.label == label && call_ensures(
                V::into,
                (value,),
                s.value,
            ),
    {
        CitationLocator::Single(LocatorSegment::new(label, value))
    }

    /// Create a compound locator with two or more segments.
    ///
    /// Returns an error when fewer than two locator segments are supplied.
    pub fn compound(segments: Vec<LocatorSegment>) -> (r: Result<Self, &'static str>)
        ensures
            r is Err <==> segments.len() < 2,
            r matches Err(e) ==> e@ == "compound locators must contain at least two segments"@,
            r matches Ok(l) ==> l == (CitationLocator::Compound { segments }),
    {
        if segments.len() < 2 {
            return Err("compound locators must contain at least two segments");
        }
        Ok(CitationLocator::Compound { segments })
    }

    /// Returns the ordered locator segments as a slice.
    pub fn segments(&self) -> (r: &[LocatorSegment])
        ensures
            r@ == self.segment_seq(),
    {
        match self {
            CitationLocator::Single(segment) => slice_of_one(segment),
            CitationLocator::Compound { segments } => segments.as_slice(),
        }
    }

    /// Returns true if this locator contains multiple segments.
    pub fn is_compound(&self) -> (r: bool)
        ensures
            r == (self is Compound),
    {
        match self {
            CitationLocator::Compound { .. } => true,
            _ => false,
        }
    }
}

/// Whether the text that follows a matched alias ends the label: nothing, `:`,
/// `.` or whitespace.
pub open spec fn alias_boundary(rem: Seq<char>) -> bool {
    rem.len() == 0 || rem[0] == ':' || rem[0] == '.' || is_ws(rem[0])
}

/// Whether `alias` is a prefix of `lower` that ends at a label boundary.
pub open spec fn alias_matches(lower: Seq<char>, alias: Seq<char>) -> bool {
    &&& alias.len() <= lower.len()
    &&& lower.take(alias.len() as int) == alias
    &&& alias_boundary(lower.skip(alias.len() as int))
}

/// Byte length of the UTF-8 encoding of a character sequence, as `str::len`
/// returns it.
pub open spec fn byte_len(s: Seq<char>) -> usize {
    encode_utf8(s).len() as usize
}

/// Among the first `n` aliases, the index of the matching alias with the most
/// bytes; on ties the earliest such alias wins.
pub open spec fn best_alias(lower: Seq<char>, aliases: Seq<(String, LocatorType)>, n: int) -> Option<int>
    decreases n,
{
    if n <= 0 {
        None
    } else {
        let b = best_alias(lower, aliases, n - 1);
        if alias_matches(lower, aliases[n - 1].0@) && (b is None || byte_len(aliases[n - 1].0@)
            > byte_len(aliases[b->0].0@)) {
            Some(n - 1)
        } else {
            b
        }
    }
}

proof fn lemma_best_alias_bound(lower: Seq<char>, aliases: Seq<(String, LocatorType)>, n: int)
    ensures
        best_alias(lower, aliases, n) matches Some(b) ==> 0 <= b < n,
    decreases n,
{
    if n > 0 {
        lemma_best_alias_bound(lower, aliases, n - 1);
    }
}

/// The label that `segment` starts with, and the text after it with leading
/// whitespace removed.
///
/// The longest alias (in bytes) that, compared against the Unicode lowercase form
/// of the segment, is followed by a boundary wins. The text after the label is
/// taken from the segment itself at the alias' byte length; that length must
/// end on a character boundary of the segment (see [`label_cut_ok`]).
pub open spec fn strip_label(segment: Seq<char>, aliases: Seq<(String, LocatorType)>) -> Option<(LocatorType, Seq<char>)> {
    let lower = unicode_lowercase(segment);
    match best_alias(lower, aliases, aliases.len() as int) {
        None => None,
        Some(i) => match char_offset(segment, byte_len(aliases[i].0@) as int) {
            None => None,
            Some(k) => Some((aliases[i].1, trim_start(segment.skip(k)))),
        },
    }
}

/// Whether the label that `segment` starts with, if any, can be cut off the
/// segment: the matching alias' byte length (measured on the lowercase form)
/// ends on a character boundary of the segment itself. Lowercasing can change
/// byte lengths, so this can fail, and cutting there is not possible.
pub open spec fn label_cut_ok(segment: Seq<char>, aliases: Seq<(String, LocatorType)>) -> bool {
    match best_alias(unicode_lowercase(segment), aliases, aliases.len() as int) {
        None => true,
        Some(i) => char_offset(segment, byte_len(aliases[i].0@) as int) is Some,
    }
}

/// Whether every label that normalising the trimmed text `t` looks for can be
/// cut: after each comma, and at the start of each raw segment.
pub open spec fn locator_labels_cut_ok(t: Seq<char>, aliases: Seq<(String, LocatorType)>) -> bool {
    &&& forall|pos: int| 0 <= pos < t.len() && t[pos] == ',' ==> label_cut_ok(#[trigger] trim_start(t.skip(pos + 1)), aliases)
    &&& forall|k: int| 0 <= k < split_from(t, aliases, 0, 0).len() ==> label_cut_ok(trim(#[trigger] split_from(t, aliases, 0, 0)[k]), aliases)
}

/// `s` without its leading `:` characters (`str::trim_start_matches(':')`).
pub open spec fn trim_colons(s: Seq<char>) -> Seq<char>
    decreases s.len(),
{
    if s.len() > 0 && s[0] == ':' {
        trim_colons(s.drop_first())
    } else {
        s
    }
}

/// The label and value text that one raw locator segment parses to: a recognised
/// label followed by a non-empty value, or a bare value that defaults to a page.
pub open spec fn parse_segment(segment: Seq<char>, aliases: Seq<(String, LocatorType)>) -> Option<(LocatorType, Seq<char>)> {
    let s = trim(segment);
    if s.len() == 0 {
        None
    } else {
        match strip_label(s, aliases) {
            Some((label, rest)) => {
                let value = trim(trim_colons(rest));
                if value.len() == 0 {
                    None
                } else {
                    Some((label, value))
                }
            },
            None => Some((LocatorType::Page, s)),
        }
    }
}

/// The raw segments of `t` from position `pos` on, the current one having started
/// at `start`: a comma splits only where the text after it begins with a label.
pub open spec fn split_from(t: Seq<char>, aliases: Seq<(String, LocatorType)>, start: int, pos: int) -> Seq<Seq<char>>
    decreases t.len() - pos,
{
    if pos >= t.len() {
        seq![trim(t.subrange(start, t.len() as int))]
    } else if t[pos] == ',' && strip_label(trim_start(t.skip(pos + 1)), aliases) is Some {
        seq![trim(t.subrange(start, pos))] + split_from(t, aliases, pos + 1, pos + 1)
    } else {
        split_from(t, aliases, start, pos + 1)
    }
}

/// The parsed segments, in order, of the raw segments that parse.
pub open spec fn parsed_segments(parts: Seq<Seq<char>>, aliases: Seq<(String, LocatorType)>) -> Seq<(LocatorType, Seq<char>)>
    decreases parts.len(),
{
    if parts.len() == 0 {
        Seq::empty()
    } else {
        let prev = parsed_segments(parts.drop_last(), aliases);
        match parse_segment(parts.last(), aliases) {
            Some(p) => prev.push(p),
            None => prev,
        }
    }
}

/// The locator segments that a textual locator normalises to.
pub open spec fn locator_text_segments(locator: Seq<char>, aliases: Seq<(String, LocatorType)>) -> Seq<(LocatorType, Seq<char>)> {
    let t = trim(locator);
    if t.len() == 0 {
        Seq::empty()
    } else {
        parsed_segments(split_from(t, aliases, 0, 0), aliases)
    }
}

/// Every parsed segment has a non-empty value.
proof fn lemma_parsed_segments_nonempty(parts: Seq<Seq<char>>, aliases: Seq<(String, LocatorType)>)
    ensures
        forall|k: int| 0 <= k < parsed_segments(parts, aliases).len() ==> (#[trigger] parsed_segments(parts, aliases)[k]).1.len() > 0,
    decreases parts.len(),
{
    if parts.len() > 0 {
        let prev = parsed_segments(parts.drop_last(), aliases);
        lemma_parsed_segments_nonempty(parts.drop_last(), aliases);
        let r = parsed_segments(parts, aliases);
        assert forall|k: int| 0 <= k < r.len() implies (#[trigger] r[k]).1.len() > 0 by {
            if k < prev.len() {
                assert(r[k] == prev[k]);
            }
        }
    }
}

/// A normalised textual locator never holds an empty value: pieces that end up
/// empty are dropped.
pub proof fn lemma_locator_segments_nonempty(locator: Seq<char>, aliases: Seq<(String, LocatorType)>)
    ensures
        forall|k: int| 0 <= k < locator_text_segments(locator, aliases).len()
            ==> (#[trigger] locator_text_segments(locator, aliases)[k]).1.len() > 0,
{
    let t = trim(locator);
    if t.len() > 0 {
        lemma_parsed_segments_nonempty(split_from(t, aliases, 0, 0), aliases);
    }
}

/// A locator segment holds the given label and plain text value.
pub open spec fn segment_is(seg: LocatorSegment, p: (LocatorType, Seq<char>)) -> bool {
    &&& seg.label == p.0
    &&& seg.value matches LocatorValue::Text(s) && s@ == p.1
}

/// A copy of `v[from..to]`.
fn sub_vec(v: &Vec<char>, from: usize, to: usize) -> (r: Vec<char>)
    requires
        from <= to <= v.len(),
    ensures
        r@ == v@.subrange(from as int, to as int),
{
    let mut r: Vec<char> = Vec::new();
    let mut i = from;
    while i < to
        invariant
            from <= i <= to <= v.len(),
            r@ == v@.subrange(from as int, i as int),
        decreases to - i,
    {
        r.push(v[i]);
        proof {
            assert(v@.subrange(from as int, i + 1) =~= v@.subrange(from as int, i as int).push(v@[i as int]));
        }
        i = i + 1;
    }
    r
}

/// Whether the alias ending at `at` in `lower` is followed by a label boundary.
fn alias_boundary_at(lower: &Vec<char>, at: usize) -> (b: bool)
    requires
        at <= lower.len(),
    ensures
        b == alias_boundary(lower@.skip(at as int)),
{
    if at == lower.len() {
        return true;
    }
    let c = lower[at];
    c == ':' || c == '.' || is_whitespace(c)
}

/// The index and byte length of the alias that `v[from..to]` starts with: the
/// longest matching one, the earliest on ties (see [`best_alias`]).
fn best_label(v: &Vec<char>, from: usize, to: usize, aliases: &[(String, LocatorType)]) -> (r: Option<(usize, usize)>)
    requires
        from <= to <= v.len(),
    ensures
        match best_alias(unicode_lowercase(v@.subrange(from as int, to as int)), aliases@, aliases@.len() as int) {
            None => r is None,
            Some(b) => r == Some((b as usize, byte_len(aliases@[b].0@))) && 0 <= b < aliases@.len(),
        },
{
    let seg = string_from_range(v, from, to);
    let lower_s = to_lowercase(seg.as_str());
    let lower = chars_of(lower_s.as_str());
    let mut best: Option<usize> = None;
    let mut best_len: usize = 0;
    let mut i: usize = 0;
    while i < aliases.len()
        invariant
            i <= aliases@.len(),
            from <= to <= v.len(),
            best matches Some(b) ==> b < i,
            lower@ == unicode_lowercase(v@.subrange(from as int, to as int)),
            match best_alias(lower@, aliases@, i as int) {
                None => best is None,
                Some(b) => best == Some(b as usize) && best_len == byte_len(aliases@[b].0@),
            },
        decreases aliases.len() - i,
    {
        let alias = chars_of(aliases[i].0.as_str());
        if has_prefix_at(&lower, 0, &alias) && alias_boundary_at(&lower, alias.len()) {
            let alias_len = aliases[i].0.as_str().len();
            proof {
                lemma_best_alias_bound(lower@, aliases@, i as int);
                assert(lower@.subrange(0, alias@.len() as int) =~= lower@.take(alias@.len() as int));
            }
            let better = match best {
                None => true,
                Some(_) => alias_len > best_len,
            };
            if better {
                best = Some(i);
                best_len = alias_len;
            }
        } else {
            proof {
                lemma_best_alias_bound(lower@, aliases@, i as int);
                if alias@.len() <= lower@.len() {
                    assert(lower@.subrange(0, alias@.len() as int) =~= lower@.take(alias@.len() as int));
                }
            }
        }
        i = i + 1;
    }
    proof {
        lemma_best_alias_bound(lower@, aliases@, i as int);
    }
    match best {
        None => None,
        Some(b) => Some((b, best_len)),
    }
}

/// The label that `v[from..to]` starts with, and where the text after it begins
/// once leading whitespace is skipped (see [`strip_label`]).
fn strip_locator_label(v: &Vec<char>, from: usize, to: usize, aliases: &[(String, LocatorType)]) -> (r: Option<(LocatorType, usize)>)
    requires
        from <= to <= v.len(),
    ensures
        match strip_label(v@.subrange(from as int, to as int), aliases@) {
            None => r is None,
            Some((label, rest)) => {
                &&& r matches Some((l, k))
                &&& l == label
                &&& from <= k <= to
                &&& v@.subrange(k as int, to as int) == rest
            },
        },
{
    match best_label(v, from, to, aliases) {
        None => None,
        Some((b, len)) => match char_offset_in(v, from, to, len) {
            None => None,
            Some(k) => {
                let start = skip_ws(v, k, to);
                proof {
                    assert(v@.subrange(from as int, to as int).skip(k - from) =~= v@.subrange(k as int, to as int));
                }
                Some((aliases[b].1.clone(), start))
            },
        },
    }
}

/// Whether the label that `v[from..to]` starts with, if any, can be cut off.
fn label_cut_ok_at(v: &Vec<char>, from: usize, to: usize, aliases: &[(String, LocatorType)]) -> (b: bool)
    requires
        from <= to <= v.len(),
    ensures
        b == label_cut_ok(v@.subrange(from as int, to as int), aliases@),
{
    match best_label(v, from, to, aliases) {
        None => true,
        Some((_, len)) => char_offset_in(v, from, to, len).is_some(),
    }
}

/// Whether `v[from..to]` starts with a locator label.
fn begins_with_locator_label(v: &Vec<char>, from: usize, to: usize, aliases: &[(String, LocatorType)]) -> (b: bool)
    requires
        from <= to <= v.len(),
    ensures
        b == strip_label(v@.subrange(from as int, to as int), aliases@) is Some,
{
    strip_locator_label(v, from, to, aliases).is_some()
}

/// The first index at or after `from` past the leading `:` characters of `v[from..to]`.
fn skip_colons(v: &Vec<char>, from: usize, to: usize) -> (i: usize)
    requires
        from <= to <= v.len(),
    ensures
        from <= i <= to,
        trim_colons(v@.subrange(from as int, to as int)) == v@.subrange(i as int, to as int),
{
    let mut i = from;
    while i < to && v[i] == ':'
        invariant
            from <= i <= to <= v.len(),
            trim_colons(v@.subrange(from as int, to as int)) == trim_colons(
                v@.subrange(i as int, to as int),
            ),
        decreases to - i,
    {
        proof {
            assert(v@.subrange(i as int, to as int).drop_first() =~= v@.subrange(i + 1, to as int));
        }
        i = i + 1;
    }
    i
}

/// Parse one raw locator segment `v[from..to]` (see [`parse_segment`]).
fn parse_locator_segment(v: &Vec<char>, from: usize, to: usize, aliases: &[(String, LocatorType)]) -> (r: Option<LocatorSegment>)
    requires
        from <= to <= v.len(),
    ensures
        match parse_segment(v@.subrange(from as int, to as int), aliases@) {
            None => r is None,
            Some(p) => r matches Some(seg) && segment_is(seg, p),
        },
{
    let (i, j) = trim_bounds(v, from, to);
    if i == j {
        return None;
    }
    match strip_locator_label(v, i, j, aliases) {
        Some((label, k)) => {
            let c = skip_colons(v, k, j);
            let (a, b) = trim_bounds(v, c, j);
            if a == b {
                None
            } else {
                let value = string_from_range(v, a, b);
                Some(LocatorSegment { label, value: LocatorValue::Text(value) })
            }
        },
        None => {
            let value = string_from_range(v, i, j);
            Some(LocatorSegment { label: LocatorType::Page, value: LocatorValue::Text(value) })
        },
    }
}

/// The texts that a list of ranges of `t` delimit.
pub open spec fn ranges_view(t: Seq<char>, rs: Seq<(usize, usize)>) -> Seq<Seq<char>> {
    Seq::new(rs.len(), |k: int| t.subrange(rs[k].0 as int, rs[k].1 as int))
}

/// Every range lies within `t`.
pub open spec fn ranges_valid(t: Seq<char>, rs: Seq<(usize, usize)>) -> bool {
    forall|k: int| 0 <= k < rs.len() ==> #[trigger] rs[k].0 <= rs[k].1 <= t.len()
}

/// Split a trimmed locator into raw segments (see [`split_from`]), as ranges of `t`.
fn split_locator_segments(t: &Vec<char>, aliases: &[(String, LocatorType)]) -> (r: Vec<(usize, usize)>)
    ensures
        ranges_valid(t@, r@),
        ranges_view(t@, r@) == split_from(t@, aliases@, 0, 0),
{
    let mut parts: Vec<(usize, usize)> = Vec::new();
    let mut start: usize = 0;
    let mut idx: usize = 0;
    while idx < t.len()
        invariant
            start <= idx <= t.len(),
            ranges_valid(t@, parts@),
            ranges_view(t@, parts@) + split_from(t@, aliases@, start as int, idx as int) == split_from(
                t@,
                aliases@,
                0,
                0,
            ),
        decreases t.len() - idx,
    {
        let ghost old_parts = parts@;
        if t[idx] == ',' {
            let cs = skip_ws(t, idx + 1, t.len());
            proof {
                assert(t@.skip(idx + 1) =~= t@.subrange(idx + 1, t@.len() as int));
            }
            if begins_with_locator_label(t, cs, t.len(), aliases) {
                let bounds = trim_bounds(t, start, idx);
                parts.push(bounds);
                proof {
                    assert(ranges_view(t@, parts@) =~= ranges_view(t@, old_parts).push(
                        trim(t@.subrange(start as int, idx as int)),
                    ));
                    assert(ranges_view(t@, old_parts).push(trim(t@.subrange(start as int, idx as int)))
                        + split_from(t@, aliases@, idx + 1, idx + 1) =~= ranges_view(t@, old_parts)
                        + (seq![trim(t@.subrange(start as int, idx as int))] + split_from(
                        t@,
                        aliases@,
                        idx + 1,
                        idx + 1,
                    )));
                }
                start = idx + 1;
            }
        }
        idx = idx + 1;
    }
    let ghost old_parts = parts@;
    let bounds = trim_bounds(t, start, t.len());
    parts.push(bounds);
    proof {
        assert(ranges_view(t@, parts@) =~= ranges_view(t@, old_parts).push(
            trim(t@.subrange(start as int, t@.len() as int)),
        ));
    }
    parts
}

/// `r` is what normalising `locator` gives: `None` when no segment remains,
/// a single locator for one segment, a compound one for more, with the labels
/// and values of [`locator_text_segments`] in order.
pub open spec fn normalized_as(r: Option<CitationLocator>, locator: Seq<char>, aliases: Seq<(String, LocatorType)>) -> bool {
    let segs = locator_text_segments(locator, aliases);
    match r {
        None => segs.len() == 0,
        Some(l) => {
            &&& segs.len() > 0
            &&& (l is Single <==> segs.len() == 1)
            &&& l.segment_seq().len() == segs.len()
            &&& forall|k: int| 0 <= k < segs.len() ==> segment_is(#[trigger] l.segment_seq()[k], segs[k])
        },
    }
}

/// Whether every label that normalising the trimmed text `t` looks for can be cut.
fn locator_labels_ok(t: &Vec<char>, aliases: &[(String, LocatorType)]) -> (b: bool)
    ensures
        b == locator_labels_cut_ok(t@, aliases@),
{
    let n = t.len();
    let mut pos: usize = 0;
    while pos < n
        invariant
            n == t.len(),
            pos <= n,
            forall|p: int| 0 <= p < pos && t@[p] == ',' ==> label_cut_ok(#[trigger] trim_start(t@.skip(p + 1)), aliases@),
        decreases n - pos,
    {
        if t[pos] == ',' {
            let cs = skip_ws(t, pos + 1, n);
            proof {
                assert(t@.skip(pos + 1) =~= t@.subrange(pos + 1, n as int));
            }
            if !label_cut_ok_at(t, cs, n, aliases) {
                return false;
            }
        }
        pos = pos + 1;
    }
    let ranges = split_locator_segments(t, aliases);
    let ghost parts = ranges_view(t@, ranges@);
    let mut k: usize = 0;
    while k < ranges.len()
        invariant
            k <= ranges@.len(),
            ranges_valid(t@, ranges@),
            parts == ranges_view(t@, ranges@),
            parts == split_from(t@, aliases@, 0, 0),
            forall|p: int| 0 <= p < t@.len() && t@[p] == ',' ==> label_cut_ok(#[trigger] trim_start(t@.skip(p + 1)), aliases@),
            forall|m: int| 0 <= m < k ==> label_cut_ok(trim(#[trigger] parts[m]), aliases@),
        decreases ranges.len() - k,
    {
        let (a, b) = ranges[k];
        proof {
            assert(ranges@[k as int].0 <= ranges@[k as int].1 <= t@.len());
            assert(parts[k as int] == t@.subrange(a as int, b as int));
        }
        let (c, d) = trim_bounds(t, a, b);
        if !label_cut_ok_at(t, c, d, aliases) {
            return false;
        }
        k = k + 1;
    }
    true
}

/// Normalize a textual locator string, or `None` when a label it starts a
/// segment with cannot be cut off that segment (see [`label_cut_ok`]).
pub fn try_normalize_locator_text(locator: &str, aliases: &[(String, LocatorType)]) -> (r: Option<Option<CitationLocator>>)
    ensures
        r is None <==> !locator_labels_cut_ok(trim(locator@), aliases@),
        r matches Some(x) ==> normalized_as(x, locator@, aliases@),
{
    let v = chars_of(locator);
    let (ti, tj) = trim_bounds(&v, 0, v.len());
    proof {
        assert(v@.subrange(0, v@.len() as int) =~= v@);
    }
    let t = sub_vec(&v, ti, tj);
    if locator_labels_ok(&t, aliases) {
        Some(normalize_locator_text(locator, aliases))
    } else {
        None
    }
}

/// Normalize a textual locator string into the canonical locator model.
///
/// The text is trimmed and split at commas that are followed by a label; each
/// piece becomes a segment with the label it starts with (or `page` when it
/// starts with none). Pieces that end up empty are dropped. No segment gives
/// `None`, one gives a single locator, more give a compound locator.
pub fn normalize_locator_text(locator: &str, aliases: &[(String, LocatorType)]) -> (r: Option<CitationLocator>)
    requires
        locator_labels_cut_ok(trim(locator@), aliases@),
    ensures
        normalized_as(r, locator@, aliases@),
{
    let v = chars_of(locator);
    let (ti, tj) = trim_bounds(&v, 0, v.len());
    proof {
        assert(v@.subrange(0, v@.len() as int) =~= v@);
    }
    if ti == tj {
        return None;
    }
    let t = sub_vec(&v, ti, tj);
    let ranges = split_locator_segments(&t, aliases);
    let ghost parts = ranges_view(t@, ranges@);
    let mut segments: Vec<LocatorSegment> = Vec::new();
    let mut k: usize = 0;
    while k < ranges.len()
        invariant
            k <= ranges@.len(),
            ranges_valid(t@, ranges@),
            parts == ranges_view(t@, ranges@),
            segments@.len() == parsed_segments(parts.take(k as int), aliases@).len(),
            forall|m: int| 0 <= m < segments@.len() ==> segment_is(#[trigger] segments@[m], parsed_segments(parts.take(k as int), aliases@)[m]),
        decreases ranges.len() - k,
    {
        let (a, b) = ranges[k];
        proof {
            assert(ranges@[k as int].0 <= ranges@[k as int].1 <= t@.len());
            assert(parts.take(k + 1).drop_last() =~= parts.take(k as int));
            assert(parts.take(k + 1).last() == t@.subrange(a as int, b as int));
        }
        match parse_locator_segment(&t, a, b, aliases) {
            Some(seg) => {
                segments.push(seg);
            },
            None => {},
        }
        k = k + 1;
    }
    proof {
        assert(parts.take(ranges@.len() as int) =~= parts);
    }
    if segments.len() == 0 {
        None
    } else if segments.len() == 1 {
        let seg = segments.pop().unwrap();
        Some(CitationLocator::Single(seg))
    } else {
        Some(CitationLocator::Compound { segments })
    }
}

/// The `label:value` text of one locator segment.
pub open spec fn segment_text(seg: LocatorSegment) -> Seq<char> {
    seg.label.key() + seq![':'] + seg.value.text()
}

/// The segment texts joined by `,`.
pub open spec fn joined_segment_texts(segs: Seq<LocatorSegment>) -> Seq<char>
    decreases segs.len(),
{
    if segs.len() == 0 {
        Seq::empty()
    } else if segs.len() == 1 {
        segment_text(segs[0])
    } else {
        joined_segment_texts(segs.drop_last()) + seq![','] + segment_text(segs.last())
    }
}

impl CitationLocator {
    /// Returns a stable string form used for locator comparison: each segment as
    /// `key:value`, joined by `,`.
    pub fn canonical_string(&self) -> (r: String)
        ensures
            r@ == joined_segment_texts(self.segment_seq()),
    {
        let segs = self.segments();
        let mut out = String::new();
        let mut i: usize = 0;
        while i < segs.len()
            invariant
                i <= segs@.len(),
                segs@ == self.segment_seq(),
                out@ == joined_segment_texts(segs@.take(i as int)),
            decreases segs.len() - i,
        {
            proof {
                assert(segs@.take(i + 1).drop_last() =~= segs@.take(i as int));
                assert(segs@.take(i + 1).last() == segs@[i as int]);
            }
            if i > 0 {
                push_char(&mut out, ',');
            }
            let key = segs[i].label.as_key();
            out.append(key.as_str());
            push_char(&mut out, ':');
            out.append(segs[i].value.value_str());
            proof {
                if i == 0 {
                    assert(segs@.take(1) =~= seq![segs@[0]]);
                    assert(out@ =~= segment_text(segs@[0]));
                } else {
                    assert(out@ =~= joined_segment_texts(segs@.take(i as int)) + seq![','] + segment_text(
                        segs@[i as int],
                    ));
                }
            }
            i = i + 1;
        }
        proof {
            assert(segs@.take(segs@.len() as int) =~= segs@);
        }
        out
    }
}

/// A single citation item referencing a bibliography entry.
#[derive(Debug, Clone)]
pub struct CitationItem {
    /// The reference ID (citekey).
    pub id: String,
    /// Canonical locator value for pinpoint citations.
    pub locator: Option<CitationLocator>,
    /// Prefix text before this item.
    pub prefix: Option<String>,
    /// Suffix text after this item.
    pub suffix: Option<String>,
    /// Explicit integral name-memory state override for this item.
    pub integral_name_state: Option<IntegralNameState>,
}

impl Default for CitationItem {
    fn default() -> (r: Self)
        ensures
            r.id@.len() == 0,
            r.locator is None,
            r.prefix is None,
            r.suffix is None,
            r.integral_name_state is None,
    {
        CitationItem {
            id: String::new(),
            locator: None,
            prefix: None,
            suffix: None,
            integral_name_state: None,
        }
    }
}

impl CitationItem {
    /// Returns the canonical locator segments when present.
    pub fn locator_segments(&self) -> (r: Option<&[LocatorSegment]>)
        ensures
            match self.locator {
                None => r is None,
                Some(l) => r matches Some(s) && s@ == l.segment_seq(),
            },
    {
        match &self.locator {
            None => None,
            Some(l) => Some(l.segments()),
        }
    }
}

/// A citation containing one or more references.
#[derive(Debug, Clone)]
pub struct Citation {
    /// The citation ID (optional, for tracking).
    pub id: Option<String>,
    /// Note number for footnote/endnote styles, assigned by the document processor.
    pub note_number: Option<u32>,
    /// Citation mode: integral (narrative) vs non-integral (parenthetical).
    pub mode: CitationMode,
    /// Position of this citation in the document flow.
    pub position: Option<Position>,
    /// Suppress the author name across all items in this citation.
    pub suppress_author: bool,
    /// Prefix text before all citation items.
    pub prefix: Option<String>,
    /// Suffix text after all citation items.
    pub suffix: Option<String>,
    /// The citation items (references being cited).
    pub items: Vec<CitationItem>,
    /// If true, the entire citation is a single dynamic compound set: the first item
    /// is the head, the others its tails, in their given order.
    pub grouped: bool,
}

impl Default for Citation {
    fn default() -> (r: Self)
        ensures
            r.id is None,
            r.note_number is None,
            r.mode == CitationMode::NonIntegral,
            r.position is None,
            !r.suppress_author,
            r.prefix is None,
            r.suffix is None,
            r.items@.len() == 0,
            !r.grouped,
    {
        Citation {
            id: None,
            note_number: None,
            mode: CitationMode::NonIntegral,
            position: None,
            suppress_author: false,
            prefix: None,
            suffix: None,
            items: Vec::new(),
            grouped: false,
        }
    }
}

impl Citation {
    /// Create a simple single-item citation with default settings.
    pub fn simple(id: &str) -> (r: Self)
        ensures
            r.items@.len() == 1,
            r.items@[0].id@ == id@,
            r.items@[0].locator is None,
            r.items@[0].prefix is None,
            r.items@[0].suffix is None,
            r.items@[0].integral_name_state is None,
            r.id is None,
            r.note_number is None,
            r.mode == CitationMode::NonIntegral,
            r.position is None,
            !r.suppress_author,
            r.prefix is None,
            r.suffix is None,
            !r.grouped,
    {
        let item = CitationItem {
            id: owned(id),
            locator: None,
            prefix: None,
            suffix: None,
            integral_name_state: None,
        };
        let mut items: Vec<CitationItem> = Vec::new();
        items.push(item);
        Citation {
            id: None,
            note_number: None,
            mode: CitationMode::NonIntegral,
            position: None,
            suppress_author: false,
            prefix: None,
            suffix: None,
            items,
            grouped: false,
        }
    }
}

/// A list of citations to process.
pub type Citations = Vec<Citation>;

/// Every label's key is already canonical: normalising `as_key` gives it back
/// unchanged, and it is never empty (except for a custom label with no letter or
/// digit, which keeps its raw text). Together with the contracts of `as_key` and
/// `from_key`, `from_key(t.as_key())` succeeds and is `==` to `t`.
pub proof fn lemma_locator_key_canonical(t: LocatorType)
    requires
        t matches LocatorType::Custom(v) ==> kind_key(v@).len() > 0,
    ensures
        kind_key(t.key()) == t.key(),
        t.key().len() > 0,
{
    match t {
        LocatorType::Book => {
            reveal_strlit("book");
            lemma_kind_key_fixed("book"@);
        },
        LocatorType::Chapter => {
            reveal_strlit("chapter");
            lemma_kind_key_fixed("chapter"@);
        },
        LocatorType::Clause => {
            reveal_strlit("clause");
            lemma_kind_key_fixed("clause"@);
        },
        LocatorType::Column => {
            reveal_strlit("column");
            lemma_kind_key_fixed("column"@);
        },
        LocatorType::Corollary => {
            reveal_strlit("corollary");
            lemma_kind_key_fixed("corollary"@);
        },
        LocatorType::Definition => {
            reveal_strlit("definition");
            lemma_kind_key_fixed("definition"@);
        },
        LocatorType::Division => {
            reveal_strlit("division");
            lemma_kind_key_fixed("division"@);
        },
        LocatorType::Figure => {
            reveal_strlit("figure");
            lemma_kind_key_fixed("figure"@);
        },
        LocatorType::Folio => {
            reveal_strlit("folio");
            lemma_kind_key_fixed("folio"@);
        },
        LocatorType::Line => {
            reveal_strlit("line");
            lemma_kind_key_fixed("line"@);
        },
        LocatorType::Lemma => {
            reveal_strlit("lemma");
            lemma_kind_key_fixed("lemma"@);
        },
        LocatorType::Note => {
            reveal_strlit("note");
            lemma_kind_key_fixed("note"@);
        },
        LocatorType::Number => {
            reveal_strlit("number");
            lemma_kind_key_fixed("number"@);
        },
        LocatorType::Opus => {
            reveal_strlit("opus");
            lemma_kind_key_fixed("opus"@);
        },
        LocatorType::Page => {
            reveal_strlit("page");
            lemma_kind_key_fixed("page"@);
        },
        LocatorType::Paragraph => {
            reveal_strlit("paragraph");
            lemma_kind_key_fixed("paragraph"@);
        },
        LocatorType::Subparagraph => {
            reveal_strlit("subparagraph");
            lemma_kind_key_fixed("subparagraph"@);
        },
        LocatorType::Subclause => {
            reveal_strlit("subclause");
            lemma_kind_key_fixed("subclause"@);
        },
        LocatorType::Subdivision => {
            reveal_strlit("subdivision");
            lemma_kind_key_fixed("subdivision"@);
        },
        LocatorType::Subsection => {
            reveal_strlit("subsection");
            lemma_kind_key_fixed("subsection"@);
        },
        LocatorType::Part => {
            reveal_strlit("part");
            lemma_kind_key_fixed("part"@);
        },
        LocatorType::Problem => {
            reveal_strlit("problem");
            lemma_kind_key_fixed("problem"@);
        },
        LocatorType::Proposition => {
            reveal_strlit("proposition");
            lemma_kind_key_fixed("proposition"@);
        },
        LocatorType::Recital => {
            reveal_strlit("recital");
            lemma_kind_key_fixed("recital"@);
        },
        LocatorType::Schedule => {
            reveal_strlit("schedule");
            lemma_kind_key_fixed("schedule"@);
        },
        LocatorType::Section => {
            reveal_strlit("section");
            lemma_kind_key_fixed("section"@);
        },
        LocatorType::Surah => {
            reveal_strlit("surah");
            lemma_kind_key_fixed("surah"@);
        },
        LocatorType::Theorem => {
            reveal_strlit("theorem");
            lemma_kind_key_fixed("theorem"@);
        },
        LocatorType::SubVerbo => {
            reveal_strlit("sub-verbo");
            lemma_kind_key_fixed("sub-verbo"@);
        },
        LocatorType::Supplement => {
            reveal_strlit("supplement");
            lemma_kind_key_fixed("supplement"@);
        },
        LocatorType::Verse => {
            reveal_strlit("verse");
            lemma_kind_key_fixed("verse"@);
        },
        LocatorType::Volume => {
            reveal_strlit("volume");
            lemma_kind_key_fixed("volume"@);
        },
        LocatorType::VolumePeriodical => {
            reveal_strlit("volume-periodical");
            lemma_kind_key_fixed("volume-periodical"@);
        },
        LocatorType::VolumeBook => {
            reveal_strlit("volume-book");
            lemma_kind_key_fixed("volume-book"@);
        },
        LocatorType::Issue => {
            reveal_strlit("issue");
            lemma_kind_key_fixed("issue"@);
        },
        LocatorType::Algorithm => {
            reveal_strlit("algorithm");
            lemma_kind_key_fixed("algorithm"@);
        },
        LocatorType::Custom(v) => {
            lemma_kind_key_idempotent(v@);
        },
    }
}

} // verus!



