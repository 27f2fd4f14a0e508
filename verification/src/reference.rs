//! The flat-with-discriminator wire format of a reference, and the genre and
//! medium vocabulary normalisation.
//!
//! A reference arrives as one flat mapping whose `class` entry names the kind
//! of work. The dispatcher reads the entries in wire order, rejects duplicate
//! keys, requires the `class` entry, and splits the rest off as the body that
//! the class-specific reader receives.

use vstd::prelude::*;

use crate::classes::{known_class, ReferenceClass};
use crate::text::{
    ascii_lower, chars_of, is_whitespace, is_ws, owned, push_char, push_str, str_eq,
    to_ascii_lower,
};

verus! {

/// One entry of a flat reference mapping, as read off the wire: its key, and
/// the entry's value as text when that value is a string.
#[derive(Debug, Clone)]
pub struct FlatEntry {
    /// The entry's key.
    pub key: String,
    /// The value when it is a string; `None` for any other kind of value.
    pub text: Option<String>,
    /// How the value reads in a type error when it is not a string, in
    /// serde's words (`integer \`5\``, `null`, `map`, ...).
    pub found: String,
}

/// A dispatched reference: its class and the positions of its body entries.
#[derive(Debug, Clone)]
pub struct FlatDispatch {
    /// The raw class string.
    pub class: String,
    /// The typed class when the string is in the known vocabulary.
    pub known: Option<ReferenceClass>,
    /// Positions, in wire order, of every entry other than `class`.
    pub body: Vec<usize>,
}

/// Why a flat reference mapping was rejected.
#[derive(Debug, Clone, PartialEq)]
pub enum ReferenceError {
    /// A key occurred twice.
    DuplicateField(String),
    /// A required key is absent.
    MissingField(String),
    /// The `class` entry holds something other than a string: how that value
    /// reads in serde's words.
    ClassNotText(String),
}

/// The keys of the entries, in order.
pub open spec fn entry_keys(entries: Seq<FlatEntry>) -> Seq<Seq<char>> {
    entries.map_values(|e: FlatEntry| e.key@)
}

/// Whether the key at `i` already occurred before `i`.
pub open spec fn seen_before(entries: Seq<FlatEntry>, i: int) -> bool {
    exists|j: int| 0 <= j < i && #[trigger] entries[j].key@ == entries[i].key@
}

/// Whether reading stops at entry `i`: its key is a repeat, or it is the
/// `class` entry and its value is not a string.
pub open spec fn stops_at(entries: Seq<FlatEntry>, i: int) -> bool {
    seen_before(entries, i) || (entries[i].key@ == "class"@ && entries[i].text is None)
}

/// Whether reading gets past the first `n` entries.
pub open spec fn reads_past(entries: Seq<FlatEntry>, n: int) -> bool {
    forall|i: int| 0 <= i < n ==> !#[trigger] stops_at(entries, i)
}

/// Whether `i` is the entry at which reading stops.
pub open spec fn first_stop(entries: Seq<FlatEntry>, i: int) -> bool {
    0 <= i < entries.len() && stops_at(entries, i) && reads_past(entries, i)
}

/// Whether some entry has the key `class`.
pub open spec fn has_class(entries: Seq<FlatEntry>) -> bool {
    exists|i: int| 0 <= i < entries.len() && #[trigger] entries[i].key@ == "class"@
}

/// The positions below `n` of entries other than `class`, in order.
pub open spec fn body_positions(entries: Seq<FlatEntry>, n: int) -> Seq<usize>
    decreases n,
{
    if n <= 0 {
        Seq::empty()
    } else if entries[n - 1].key@ == "class"@ {
        body_positions(entries, n - 1)
    } else {
        body_positions(entries, n - 1).push((n - 1) as usize)
    }
}

impl ReferenceError {
    /// The error's message in serde's canonical wording.
    pub fn message(&self) -> (r: String)
        ensures
            match self {
                ReferenceError::DuplicateField(k) => r@ == "duplicate field `"@ + k@ + "`"@,
                ReferenceError::MissingField(k) => r@ == "missing field `"@ + k@ + "`"@,
                ReferenceError::ClassNotText(f) => r@ == "invalid type: "@ + f@ + ", expected a string"@,
            },
    {
        match self {
            ReferenceError::DuplicateField(k) => quoted_field("duplicate field `", k.as_str()),
            ReferenceError::MissingField(k) => quoted_field("missing field `", k.as_str()),
            ReferenceError::ClassNotText(f) => {
                let mut r = owned("invalid type: ");
                push_str(&mut r, f.as_str());
                push_str(&mut r, ", expected a string");
                r
            },
        }
    }
}

/// `head`, then `name`, then a closing backtick.
fn quoted_field(head: &str, name: &str) -> (r: String)
    ensures
        r@ == head@ + name@ + "`"@,
{
    let mut r = owned(head);
    let v = chars_of(name);
    let mut i: usize = 0;
    while i < v.len()
        invariant
            v@ == name@,
            i <= v.len(),
            r@ == head@ + v@.take(i as int),
        decreases v.len() - i,
    {
        push_char(&mut r, v[i]);
        proof {
            assert(v@.take(i + 1) =~= v@.take(i as int).push(v@[i as int]));
            assert(head@ + v@.take(i + 1) =~= (head@ + v@.take(i as int)).push(v@[i as int]));
        }
        i = i + 1;
    }
    push_char(&mut r, '`');
    proof {
        reveal_strlit("`");
        assert(v@.take(v@.len() as int) =~= v@);
        assert(r@ =~= head@ + name@ + "`"@);
    }
    r
}

/// Whether the key at `i` occurs among the first `i` entries.
fn key_seen_before(entries: &Vec<FlatEntry>, i: usize) -> (r: bool)
    requires
        i < entries.len(),
    ensures
        r == seen_before(entries@, i as int),
{
    let key = entries[i].key.as_str();
    let mut j: usize = 0;
    while j < i
        invariant
            i < entries.len(),
            key@ == entries@[i as int].key@,
            j <= i,
            forall|k: int| 0 <= k < j ==> entries@[k].key@ != entries@[i as int].key@,
        decreases i - j,
    {
        if str_eq(entries[j].key.as_str(), key) {
            return true;
        }
        j = j + 1;
    }
    false
}

/// Dispatch a flat reference mapping read off the wire.
///
/// Entries are read in order. Reading stops with `DuplicateField` at the first
/// key that repeats an earlier one (the `class` key included), and with
/// `ClassNotText` (with how the value reads) at a first `class` entry whose
/// value is not a string. When
/// every entry is read and none is `class`, the mapping is rejected with
/// `MissingField("class")`. Otherwise the class string, its typed class, and the
/// positions of the remaining entries come back.
pub fn dispatch_flat_entries(entries: &Vec<FlatEntry>) -> (r: Result<FlatDispatch, ReferenceError>)
    ensures
        match r {
            Err(ReferenceError::DuplicateField(k)) => exists|i: int|
                first_stop(entries@, i) && seen_before(entries@, i) && k@ == #[trigger] entries@[i].key@,
            Err(ReferenceError::ClassNotText(f)) => exists|i: int|
                #[trigger] first_stop(entries@, i) && !seen_before(entries@, i) && f@ == entries@[i].found@,
            Err(ReferenceError::MissingField(k)) => reads_past(entries@, entries@.len() as int)
                && !has_class(entries@) && k@ == "class"@,
            Ok(d) => reads_past(entries@, entries@.len() as int) && exists|c: int|
                0 <= c < entries@.len() && #[trigger] entries@[c].key@ == "class"@
                && entries@[c].text is Some && d.class@ == entries@[c].text->0@
                && d.known == known_class(d.class@)
                && d.body@ == body_positions(entries@, entries@.len() as int),
        },
{
    let mut class: Option<String> = None;
    let mut body: Vec<usize> = Vec::new();
    let ghost mut class_at: int = -1;
    let mut i: usize = 0;
    while i < entries.len()
        invariant
            i <= entries.len(),
            reads_past(entries@, i as int),
            body@ == body_positions(entries@, i as int),
            class is None ==> forall|k: int| 0 <= k < i ==> #[trigger] entries@[k].key@ != "class"@,
            class is Some ==> 0 <= class_at < i && entries@[class_at].key@ == "class"@
                && entries@[class_at].text is Some && class->0@ == entries@[class_at].text->0@,
        decreases entries.len() - i,
    {
        if key_seen_before(entries, i) {
            let k = owned(entries[i].key.as_str());
            return Err(ReferenceError::DuplicateField(k));
        }
        let is_class = str_eq(entries[i].key.as_str(), "class");
        if is_class {
            proof {
                reveal_strlit("class");
            }
            match &entries[i].text {
                Some(t) => {
                    class = Some(owned(t.as_str()));
                    proof {
                        class_at = i as int;
                    }
                },
                None => {
                    proof {
                        assert(first_stop(entries@, i as int));
                    }
                    return Err(ReferenceError::ClassNotText(owned(entries[i].found.as_str())));
                },
            }
        } else {
            body.push(i);
        }
        proof {
            assert(!stops_at(entries@, i as int));
        }
        i = i + 1;
    }
    match class {
        Some(c) => {
            let known = ReferenceClass::from_known_name(c.as_str());
            Ok(FlatDispatch { class: c, known, body })
        },
        None => {
            proof {
                reveal_strlit("class");
            }
            Err(ReferenceError::MissingField(owned("class")))
        },
    }
}

/// Whether `c` separates words of a genre or medium value: whitespace or `_`.
pub open spec fn genre_separator(c: char) -> bool {
    is_ws(c) || c == '_'
}

/// One step of genre normalisation: the text so far, whether a `-` is due
/// before the next word, and the next character.
pub open spec fn genre_step(acc: Seq<char>, pending: bool, c: char) -> (Seq<char>, bool) {
    if genre_separator(c) {
        (acc, pending || acc.len() > 0)
    } else {
        let acc1 = if pending && acc.len() > 0 { acc.push('-') } else { acc };
        (acc1.push(ascii_lower(c)), false)
    }
}

/// The normalisation state after reading all of `s` from the left.
pub open spec fn genre_fold(s: Seq<char>) -> (Seq<char>, bool)
    decreases s.len(),
{
    if s.len() == 0 {
        (Seq::empty(), false)
    } else {
        let prev = genre_fold(s.drop_last());
        genre_step(prev.0, prev.1, s.last())
    }
}

/// The canonical kebab-case form of a genre or medium value: the value in ASCII
/// lowercase, split at whitespace and underscores, with the non-empty words
/// joined by `-`.
pub open spec fn genre_key(s: Seq<char>) -> Seq<char> {
    genre_fold(s).0
}

/// Normalize genre/medium values to canonical kebab-case (defensive fallback
/// for legacy producers): ASCII lowercase, with whitespace and underscores
/// replaced by single dashes between words.
pub fn normalize_genre_medium(s: &str) -> (r: String)
    ensures
        r@ == genre_key(s@),
{
    let v = chars_of(s);
    let mut out = String::new();
    let mut pending = false;
    let mut nonempty = false;
    let mut i: usize = 0;
    while i < v.len()
        invariant
            v@ == s@,
            i <= v.len(),
            (out@, pending) == genre_fold(v@.take(i as int)),
            nonempty == (out@.len() > 0),
        decreases v.len() - i,
    {
        let c = v[i];
        proof {
            assert(v@.take(i + 1).drop_last() =~= v@.take(i as int));
        }
        if is_whitespace(c) || c == '_' {
            pending = pending || nonempty;
        } else {
            if pending && nonempty {
                push_char(&mut out, '-');
            }
            push_char(&mut out, to_ascii_lower(c));
            nonempty = true;
            pending = false;
        }
        i = i + 1;
    }
    proof {
        assert(v@.take(v@.len() as int) =~= v@);
    }
    out
}

/// Lowercasing keeps a word character a word character, and is settled after once.
proof fn lemma_ascii_lower_word(c: char)
    requires
        !genre_separator(c),
    ensures
        !genre_separator(ascii_lower(c)),
        ascii_lower(ascii_lower(c)) == ascii_lower(c),
{
    if 'A' <= c && c <= 'Z' {
        let l = ascii_lower(c);
        assert('a' as u32 <= l as u32 <= 'z' as u32);
    }
}

/// Every character of a normalised value is a word character that ASCII
/// lowercasing leaves alone.
proof fn lemma_genre_key_chars(s: Seq<char>)
    ensures
        forall|i: int| 0 <= i < genre_key(s).len() ==> !genre_separator(#[trigger] genre_key(s)[i])
            && ascii_lower(genre_key(s)[i]) == genre_key(s)[i],
        genre_fold(s).1 ==> genre_key(s).len() > 0,
    decreases s.len(),
{
    if s.len() > 0 {
        lemma_genre_key_chars(s.drop_last());
        let prev = genre_fold(s.drop_last());
        let c = s.last();
        if !genre_separator(c) {
            let acc1 = if prev.1 && prev.0.len() > 0 { prev.0.push('-') } else { prev.0 };
            let r = acc1.push(ascii_lower(c));
            lemma_ascii_lower_word(c);
            assert forall|i: int| 0 <= i < r.len() implies !genre_separator(#[trigger] r[i])
                && ascii_lower(r[i]) == r[i] by {
                if i < prev.0.len() {
                    assert(r[i] == prev.0[i]);
                    assert(prev.0[i] == genre_key(s.drop_last())[i]);
                } else if i < acc1.len() {
                    assert(r[i] == '-');
                } else {
                    assert(r[i] == ascii_lower(c));
                }
            }
        }
    }
}

/// A value made of word characters in lowercase normalises to itself.
proof fn lemma_genre_key_fixed(w: Seq<char>)
    requires
        forall|i: int| 0 <= i < w.len() ==> !genre_separator(#[trigger] w[i]) && ascii_lower(w[i]) == w[i],
    ensures
        genre_fold(w) == (w, false),
    decreases w.len(),
{
    if w.len() > 0 {
        let p = w.drop_last();
        assert forall|i: int| 0 <= i < p.len() implies !genre_separator(#[trigger] p[i]) && ascii_lower(p[i]) == p[i] by {
            assert(p[i] == w[i]);
        }
        lemma_genre_key_fixed(p);
        assert(p.push(w.last()) =~= w);
    }
}

/// Normalising a genre or medium value is idempotent.
pub proof fn lemma_genre_key_idempotent(s: Seq<char>)
    ensures
        genre_key(genre_key(s)) == genre_key(s),
{
    lemma_genre_key_chars(s);
    lemma_genre_key_fixed(genre_key(s));
}

/// Monograph-specific fields of a class-tagged reference.
#[derive(Debug, Clone, PartialEq)]
pub struct MonographFields {
    /// Monograph subtype (book, report, thesis, ...).
    pub monograph_type: Option<String>,
    /// Edition designation.
    pub edition: Option<String>,
    /// Volume number.
    pub volume: Option<String>,
    /// ISBN identifier.
    pub isbn: Option<String>,
}

/// Legal-case-specific fields of a class-tagged reference.
#[derive(Debug, Clone, PartialEq)]
pub struct LegalCaseFields {
    /// Court name.
    pub court: Option<String>,
    /// Docket or case number.
    pub docket_number: Option<String>,
    /// Legal reporter series.
    pub reporter: Option<String>,
}

/// Audio-visual-specific fields of a class-tagged reference.
#[derive(Debug, Clone, PartialEq)]
pub struct AudioVisualFields {
    /// Runtime in minutes.
    pub runtime_minutes: Option<u32>,
    /// Medium descriptor (film, television, recording, ...).
    pub medium: Option<String>,
}

impl Default for MonographFields {
    fn default() -> (r: Self)
        ensures
            r.monograph_type is None && r.edition is None && r.volume is None && r.isbn is None,
    {
        MonographFields { monograph_type: None, edition: None, volume: None, isbn: None }
    }
}

impl Default for LegalCaseFields {
    fn default() -> (r: Self)
        ensures
            r.court is None && r.docket_number is None && r.reporter is None,
    {
        LegalCaseFields { court: None, docket_number: None, reporter: None }
    }
}

impl Default for AudioVisualFields {
    fn default() -> (r: Self)
        ensures
            r.runtime_minutes is None && r.medium is None,
    {
        AudioVisualFields { runtime_minutes: None, medium: None }
    }
}

} // verus!
