//! Reading fields off a converted reference, whatever its class.
//!
//! Each accessor says, class by class, where a field lives and what a class
//! without it gives back.

use vstd::prelude::*;

use crate::accessors::{
    collection_component_ref_type, collection_component_type_name, event_ref_type, mentions,
    mentions_exec,
    event_type_name, monograph_ref_type, monograph_type_name, serial_component_ref_type,
    serial_component_type_name, serial_ref_type, serial_type_name,
};
use crate::conversion::{
    ascii_lowercase, audio_visual_ref_name, audio_visual_ref_type, csl_type_map, csl_type_pairs,
    lemma_legacy_routes, opt_view, CslTypeMapping, LegacyConverter,
};
use crate::contributor::{
    collect_contributors_by_role, collected, copy_contributor, entries_by_role, entries_view, entries_with, matching, opt_contributor_view,
    role_view, Contributor, ContributorEntry, ContributorRole, NameView,
};
use crate::date::DateValue;
use crate::legacy::{
    context_of, converted_from, converted_with, copy_opt, lemma_monograph_kinds, monograph_numbering, monograph_of,
    numbering_view, route_of, url_parse, ConvertedReference, LegacyReference, RefContext,
};
use crate::reference::{genre_key, normalize_genre_medium};
use crate::text::{ascii_lower, chars_eq, chars_of, owned, to_ascii_lower};
use crate::types::{AudioVisualType, MonographType, NumOrStr, Numbering, NumberingType, Publisher, Title};

verus! {

/// Whether two numbering kinds are the same kind; two custom kinds are the
/// same when their names have the same kebab-case key.
pub open spec fn same_kind(a: NumberingType, b: NumberingType) -> bool {
    match a {
        NumberingType::Custom(x) => b matches NumberingType::Custom(y) && genre_key(x@) == genre_key(y@),
        _ => a == b,
    }
}

/// The value of the first numbering entry of kind `k`.
pub open spec fn first_numbering(s: Seq<(NumberingType, Seq<char>)>, k: NumberingType) -> Option<Seq<char>>
    decreases s.len(),
{
    if s.len() == 0 {
        None
    } else if same_kind(s[0].0, k) {
        Some(s[0].1)
    } else {
        first_numbering(s.drop_first(), k)
    }
}

fn kind_matches(a: &NumberingType, b: &NumberingType) -> (r: bool)
    ensures
        r == same_kind(*a, *b),
{
    match a {
        NumberingType::Volume => matches!(b, NumberingType::Volume),
        NumberingType::Issue => matches!(b, NumberingType::Issue),
        NumberingType::Edition => matches!(b, NumberingType::Edition),
        NumberingType::Number => matches!(b, NumberingType::Number),
        NumberingType::Part => matches!(b, NumberingType::Part),
        NumberingType::Chapter => matches!(b, NumberingType::Chapter),
        NumberingType::Report => matches!(b, NumberingType::Report),
        NumberingType::Section => matches!(b, NumberingType::Section),
        NumberingType::Supplement => matches!(b, NumberingType::Supplement),
        NumberingType::Custom(x) => match b {
            NumberingType::Custom(y) => {
                let kx = normalize_genre_medium(x.as_str());
                let ky = normalize_genre_medium(y.as_str());
                crate::text::str_eq(kx.as_str(), ky.as_str())
            },
            _ => false,
        },
    }
}

/// The value of the first entry of `numbering` of kind `k`.
pub fn find_numbering(numbering: &Vec<Numbering>, k: &NumberingType) -> (r: Option<String>)
    ensures
        opt_view(r) == first_numbering(numbering_view(numbering@), *k),
{
    let ghost s = numbering_view(numbering@);
    let mut i: usize = 0;
    assert(s.subrange(0, s.len() as int) =~= s);
    while i < numbering.len()
        invariant
            i <= numbering.len(),
            s == numbering_view(numbering@),
            first_numbering(s, *k) == first_numbering(s.subrange(i as int, s.len() as int), *k),
        decreases numbering.len() - i,
    {
        let ghost rest = s.subrange(i as int, s.len() as int);
        assert(rest[0] == s[i as int]);
        if kind_matches(&numbering[i].kind, k) {
            return Some(owned(numbering[i].value.as_str()));
        }
        assert(rest.drop_first() =~= s.subrange(i + 1, s.len() as int));
        i = i + 1;
    }
    assert(s.subrange(i as int, s.len() as int) =~= Seq::<(NumberingType, Seq<char>)>::empty());
    None
}

/// The numbering entries a class carries; empty for a class without them.
pub open spec fn numbering_of(r: ConvertedReference) -> Seq<(NumberingType, Seq<char>)> {
    match r {
        ConvertedReference::Monograph(m) => numbering_view(m.numbering@),
        ConvertedReference::Classic(c) => numbering_view(c.numbering@),
        ConvertedReference::CollectionComponent(c) => numbering_view(c.numbering@),
        ConvertedReference::SerialComponent(c) => numbering_view(c.numbering@),
        ConvertedReference::AudioVisual(a) => numbering_view(a.numbering@),
        _ => Seq::empty(),
    }
}

/// The CSL item type a converted reference's class, subtype and fields give.
pub open spec fn class_type_name(r: ConvertedReference) -> Seq<char> {
    match r {
        ConvertedReference::Monograph(m) => monograph_type_name(m.kind, opt_view(m.medium), opt_view(m.genre)),
        ConvertedReference::CollectionComponent(c) => collection_component_type_name(c.kind, opt_view(c.genre)),
        ConvertedReference::SerialComponent(c) => serial_component_type_name(opt_view(c.genre), Some(serial_type_name(c.container.kind))),
        ConvertedReference::LegalCase(_) => "legal-case"@,
        ConvertedReference::Statute(_) => "statute"@,
        ConvertedReference::Treaty(_) => "treaty"@,
        ConvertedReference::Hearing(_) => "hearing"@,
        ConvertedReference::Regulation(_) => "regulation"@,
        ConvertedReference::Classic(_) => "classic"@,
        ConvertedReference::Patent(_) => "patent"@,
        ConvertedReference::Dataset(_) => "dataset"@,
        ConvertedReference::Standard(_) => "standard"@,
        ConvertedReference::Software(_) => "software"@,
        ConvertedReference::Event(e) => event_type_name(opt_view(e.genre)),
        ConvertedReference::AudioVisual(a) => audio_visual_ref_name(a.kind),
    }
}

/// The Citum type of the first row of `pairs` whose CSL type is `t`.
pub open spec fn type_row(pairs: Seq<(Seq<char>, Seq<char>)>, t: Seq<char>) -> Option<Seq<char>>
    decreases pairs.len(),
{
    if pairs.len() == 0 {
        None
    } else if pairs[0].0 == t {
        Some(pairs[0].1)
    } else {
        type_row(pairs.drop_first(), t)
    }
}

/// The type a genre names: the Citum type of the CSL type that the genre
/// spells, in any ASCII case.
pub open spec fn genre_type(g: Seq<char>) -> Option<Seq<char>> {
    type_row(csl_type_pairs(), ascii_lowercase(g))
}

/// The CSL item type a converted reference renders as: the type its genre
/// names when the genre spells a CSL type (the converters seed the genre
/// with the legacy type for the types a class does not tell apart), else the
/// type its class gives.
pub open spec fn converted_type_name(r: ConvertedReference) -> Seq<char> {
    match raw_genre(r) {
        Some(g) => match genre_type(g) {
            Some(t) => t,
            None => class_type_name(r),
        },
        None => class_type_name(r),
    }
}

fn lowercase_chars(s: &str) -> (v: Vec<char>)
    ensures
        v@ == ascii_lowercase(s@),
{
    let c = chars_of(s);
    let mut v: Vec<char> = Vec::new();
    let mut i: usize = 0;
    while i < c.len()
        invariant
            c@ == s@,
            i <= c.len(),
            v@ == ascii_lowercase(c@.take(i as int)),
        decreases c.len() - i,
    {
        let ghost before = v@;
        v.push(to_ascii_lower(c[i]));
        proof {
            assert(c@.take(i + 1) =~= c@.take(i as int).push(c@[i as int]));
            assert(ascii_lowercase(c@.take(i + 1)) =~= before.push(ascii_lower(c@[i as int])));
        }
        i = i + 1;
    }
    assert(c@.take(c@.len() as int) =~= c@);
    v
}

/// The type a genre names, as [`genre_type`] says.
pub fn genre_ref_type(g: &str) -> (r: Option<String>)
    ensures
        opt_view(r) == genre_type(g@),
{
    let low = lowercase_chars(g);
    let rows = csl_type_map();
    let ghost pairs = csl_type_pairs();
    assert(pairs.subrange(0, pairs.len() as int) =~= pairs);
    let mut i: usize = 0;
    while i < rows.len()
        invariant
            rows@.map_values(|m: CslTypeMapping| (m.csl_type@, m.citum_ref_type@)) == pairs,
            pairs == csl_type_pairs(),
            low@ == ascii_lowercase(g@),
            i <= rows.len(),
            type_row(pairs, low@) == type_row(pairs.subrange(i as int, pairs.len() as int), low@),
        decreases rows.len() - i,
    {
        let ghost rest = pairs.subrange(i as int, pairs.len() as int);
        assert(rest[0] == pairs[i as int]);
        assert(pairs[i as int] == (rows@[i as int].csl_type@, rows@[i as int].citum_ref_type@));
        let row_chars = chars_of(rows[i].csl_type);
        if chars_eq(&row_chars, &low) {
            return Some(owned(rows[i].citum_ref_type));
        }
        assert(rest.drop_first() =~= pairs.subrange(i + 1, pairs.len() as int));
        i = i + 1;
    }
    assert(pairs.subrange(i as int, pairs.len() as int) =~= Seq::<(Seq<char>, Seq<char>)>::empty());
    None
}

/// The identifier of a converted reference.
pub open spec fn converted_id(r: ConvertedReference) -> Option<Seq<char>> {
    match r {
        ConvertedReference::Monograph(x) => opt_view(x.id),
        ConvertedReference::Classic(x) => opt_view(x.id),
        ConvertedReference::Event(x) => opt_view(x.id),
        ConvertedReference::Dataset(x) => opt_view(x.id),
        ConvertedReference::Software(x) => opt_view(x.id),
        ConvertedReference::LegalCase(x) => opt_view(x.id),
        ConvertedReference::Statute(x) => opt_view(x.id),
        ConvertedReference::Regulation(x) => opt_view(x.id),
        ConvertedReference::Treaty(x) => opt_view(x.id),
        ConvertedReference::Hearing(x) => opt_view(x.id),
        ConvertedReference::Patent(x) => opt_view(x.id),
        ConvertedReference::Standard(x) => opt_view(x.id),
        ConvertedReference::AudioVisual(x) => opt_view(x.id),
        ConvertedReference::CollectionComponent(x) => opt_view(x.id),
        ConvertedReference::SerialComponent(x) => opt_view(x.id),
    }
}

/// The title of a converted reference.
pub open spec fn converted_title(r: ConvertedReference) -> Option<Title> {
    match r {
        ConvertedReference::Monograph(x) => x.title,
        ConvertedReference::Classic(x) => x.title,
        ConvertedReference::Event(x) => x.title,
        ConvertedReference::Dataset(x) => x.title,
        ConvertedReference::Software(x) => x.title,
        ConvertedReference::LegalCase(x) => x.title,
        ConvertedReference::Statute(x) => x.title,
        ConvertedReference::Regulation(x) => x.title,
        ConvertedReference::Treaty(x) => x.title,
        ConvertedReference::Hearing(x) => x.title,
        ConvertedReference::Patent(x) => x.title,
        ConvertedReference::Standard(x) => x.title,
        ConvertedReference::AudioVisual(x) => x.title,
        ConvertedReference::CollectionComponent(x) => x.title,
        ConvertedReference::SerialComponent(x) => x.title,
    }
}

/// The publisher of a converted reference: its own, or for a component the
/// publisher of its container.
pub open spec fn converted_publisher(r: ConvertedReference) -> Option<Publisher> {
    match r {
        ConvertedReference::Monograph(x) => x.publisher,
        ConvertedReference::Classic(x) => x.publisher,
        ConvertedReference::Dataset(x) => x.publisher,
        ConvertedReference::Software(x) => x.publisher,
        ConvertedReference::Standard(x) => x.publisher,
        ConvertedReference::AudioVisual(x) => x.publisher,
        ConvertedReference::CollectionComponent(x) => x.container.publisher,
        ConvertedReference::SerialComponent(x) => x.container.publisher,
        _ => None,
    }
}

/// The DOI of a converted reference.
pub open spec fn converted_doi(r: ConvertedReference) -> Option<Seq<char>> {
    match r {
        ConvertedReference::Monograph(x) => opt_view(x.doi),
        ConvertedReference::CollectionComponent(x) => opt_view(x.doi),
        ConvertedReference::SerialComponent(x) => opt_view(x.doi),
        ConvertedReference::LegalCase(x) => opt_view(x.doi),
        ConvertedReference::Dataset(x) => opt_view(x.doi),
        ConvertedReference::Software(x) => opt_view(x.doi),
        _ => None,
    }
}

/// The genre a class records as written.
pub open spec fn raw_genre(r: ConvertedReference) -> Option<Seq<char>> {
    match r {
        ConvertedReference::Monograph(x) => opt_view(x.genre),
        ConvertedReference::CollectionComponent(x) => opt_view(x.genre),
        ConvertedReference::SerialComponent(x) => opt_view(x.genre),
        ConvertedReference::Event(x) => opt_view(x.genre),
        ConvertedReference::AudioVisual(x) => opt_view(x.genre),
        _ => None,
    }
}

/// The genre of a converted reference, in its kebab-case key form.
pub open spec fn converted_genre(r: ConvertedReference) -> Option<Seq<char>> {
    match raw_genre(r) {
        Some(g) => Some(genre_key(g)),
        None => None,
    }
}

/// The generic number of a converted reference: its own number field where
/// the class has one and it is set, else its first `number` numbering entry.
pub open spec fn converted_number(r: ConvertedReference) -> Option<Seq<char>> {
    let own = match r {
        ConvertedReference::Monograph(x) => opt_view(x.number),
        ConvertedReference::Classic(x) => opt_view(x.number),
        ConvertedReference::SerialComponent(x) => opt_view(x.number),
        ConvertedReference::Statute(x) => opt_view(x.number),
        _ => None,
    };
    if own is Some {
        own
    } else if r is Statute {
        None
    } else {
        first_numbering(numbering_of(r), NumberingType::Number)
    }
}

/// The report number of a converted reference: a monograph's first `report`
/// numbering entry.
pub open spec fn converted_report_number(r: ConvertedReference) -> Option<Seq<char>> {
    match r {
        ConvertedReference::Monograph(m) => first_numbering(numbering_view(m.numbering@), NumberingType::Report),
        _ => None,
    }
}

/// The URL of a converted reference.
pub open spec fn converted_url(r: ConvertedReference) -> Option<Seq<char>> {
    match r {
        ConvertedReference::Monograph(x) => opt_view(x.url),
        ConvertedReference::Classic(x) => opt_view(x.url),
        ConvertedReference::Event(x) => opt_view(x.url),
        ConvertedReference::Dataset(x) => opt_view(x.url),
        ConvertedReference::Software(x) => opt_view(x.url),
        ConvertedReference::LegalCase(x) => opt_view(x.url),
        ConvertedReference::Statute(x) => opt_view(x.url),
        ConvertedReference::Regulation(x) => opt_view(x.url),
        ConvertedReference::Treaty(x) => opt_view(x.url),
        ConvertedReference::Hearing(x) => opt_view(x.url),
        ConvertedReference::Patent(x) => opt_view(x.url),
        ConvertedReference::Standard(x) => opt_view(x.url),
        ConvertedReference::AudioVisual(x) => opt_view(x.url),
        ConvertedReference::CollectionComponent(x) => opt_view(x.url),
        ConvertedReference::SerialComponent(x) => opt_view(x.url),
    }
}

/// The note of a converted reference, for the classes that show one.
pub open spec fn converted_note(r: ConvertedReference) -> Option<Seq<char>> {
    match r {
        ConvertedReference::Monograph(x) => opt_view(x.note),
        ConvertedReference::CollectionComponent(x) => opt_view(x.note),
        ConvertedReference::SerialComponent(x) => opt_view(x.note),
        ConvertedReference::LegalCase(x) => opt_view(x.note),
        ConvertedReference::Statute(x) => opt_view(x.note),
        ConvertedReference::Treaty(x) => opt_view(x.note),
        ConvertedReference::Standard(x) => opt_view(x.note),
        ConvertedReference::Event(x) => opt_view(x.note),
        ConvertedReference::AudioVisual(x) => opt_view(x.note),
        _ => None,
    }
}

/// A date unless its value is empty.
pub open spec fn non_empty_date(d: DateValue) -> Option<DateValue> {
    if d.value@.len() == 0 { None } else { Some(d) }
}

/// The publication date of a converted reference: its issued date unless that
/// is empty, or an event's date.
pub open spec fn converted_issued(r: ConvertedReference) -> Option<DateValue> {
    match r {
        ConvertedReference::Monograph(x) => non_empty_date(x.issued),
        ConvertedReference::Classic(x) => non_empty_date(x.issued),
        ConvertedReference::Event(x) => x.date,
        ConvertedReference::Dataset(x) => non_empty_date(x.issued),
        ConvertedReference::Software(x) => non_empty_date(x.issued),
        ConvertedReference::LegalCase(x) => non_empty_date(x.issued),
        ConvertedReference::Statute(x) => non_empty_date(x.issued),
        ConvertedReference::Regulation(x) => non_empty_date(x.issued),
        ConvertedReference::Treaty(x) => non_empty_date(x.issued),
        ConvertedReference::Hearing(x) => non_empty_date(x.issued),
        ConvertedReference::Patent(x) => non_empty_date(x.issued),
        ConvertedReference::Standard(x) => non_empty_date(x.issued),
        ConvertedReference::AudioVisual(x) => non_empty_date(x.issued),
        ConvertedReference::CollectionComponent(x) => non_empty_date(x.issued),
        ConvertedReference::SerialComponent(x) => non_empty_date(x.issued),
    }
}

/// The place of a publisher, if there is a publisher.
pub open spec fn place_of(p: Option<Publisher>) -> Option<Seq<char>> {
    match p {
        Some(q) => opt_view(q.place),
        None => None,
    }
}

/// The name of a publisher, if there is a publisher.
pub open spec fn name_of(p: Option<Publisher>) -> Option<Seq<char>> {
    match p {
        Some(q) => Some(q.name@),
        None => None,
    }
}

/// The publisher place of a converted reference: its publisher's place; a
/// collection component's container's; an event's location. A serial has no
/// publisher place, so neither does a serial component.
pub open spec fn converted_publisher_place(r: ConvertedReference) -> Option<Seq<char>> {
    match r {
        ConvertedReference::Monograph(x) => place_of(x.publisher),
        ConvertedReference::Classic(x) => place_of(x.publisher),
        ConvertedReference::Dataset(x) => place_of(x.publisher),
        ConvertedReference::Software(x) => place_of(x.publisher),
        ConvertedReference::Standard(x) => place_of(x.publisher),
        ConvertedReference::AudioVisual(x) => place_of(x.publisher),
        ConvertedReference::CollectionComponent(x) => place_of(x.container.publisher),
        ConvertedReference::Event(x) => opt_view(x.location),
        _ => None,
    }
}

/// The publisher of a converted reference as text: its publisher's name (a
/// component's container's); an event's network.
pub open spec fn converted_publisher_str(r: ConvertedReference) -> Option<Seq<char>> {
    match r {
        ConvertedReference::Monograph(x) => name_of(x.publisher),
        ConvertedReference::Classic(x) => name_of(x.publisher),
        ConvertedReference::Dataset(x) => name_of(x.publisher),
        ConvertedReference::Software(x) => name_of(x.publisher),
        ConvertedReference::Standard(x) => name_of(x.publisher),
        ConvertedReference::AudioVisual(x) => name_of(x.publisher),
        ConvertedReference::CollectionComponent(x) => name_of(x.container.publisher),
        ConvertedReference::SerialComponent(x) => name_of(x.container.publisher),
        ConvertedReference::Event(x) => opt_view(x.network),
        _ => None,
    }
}

/// The volume of a converted reference: its own volume field where the class
/// has one and it is set, else (outside the legal classes) its first
/// `volume` numbering entry.
pub open spec fn converted_volume(r: ConvertedReference) -> Option<Seq<char>> {
    let own = match r {
        ConvertedReference::Monograph(x) => opt_view(x.volume),
        ConvertedReference::Classic(x) => opt_view(x.volume),
        ConvertedReference::SerialComponent(x) => opt_view(x.volume),
        ConvertedReference::LegalCase(x) => opt_view(x.volume),
        ConvertedReference::Statute(x) => opt_view(x.volume),
        ConvertedReference::Treaty(x) => opt_view(x.volume),
        ConvertedReference::Regulation(x) => opt_view(x.volume),
        _ => None,
    };
    if own is Some {
        own
    } else if r is LegalCase || r is Statute || r is Treaty || r is Regulation {
        None
    } else {
        first_numbering(numbering_of(r), NumberingType::Volume)
    }
}

/// The section of a converted reference: a statute's, a regulation's or a
/// serial component's own; a classic's first `section` numbering entry.
pub open spec fn converted_section(r: ConvertedReference) -> Option<Seq<char>> {
    match r {
        ConvertedReference::Statute(x) => opt_view(x.section),
        ConvertedReference::Regulation(x) => opt_view(x.section),
        ConvertedReference::SerialComponent(x) => opt_view(x.section),
        ConvertedReference::Classic(x) => first_numbering(numbering_view(x.numbering@), NumberingType::Section),
        _ => None,
    }
}

/// A class's own value when set, else its first numbering entry of kind `k`.
pub open spec fn own_or_numbering(own: Option<Seq<char>>, r: ConvertedReference, k: NumberingType) -> Option<Seq<char>> {
    if own is Some { own } else { first_numbering(numbering_of(r), k) }
}

/// The issue of a converted reference: its own issue field where the class
/// has one and it is set, else its first `issue` numbering entry.
pub open spec fn converted_issue(r: ConvertedReference) -> Option<Seq<char>> {
    let own = match r {
        ConvertedReference::Monograph(x) => opt_view(x.issue),
        ConvertedReference::Classic(x) => opt_view(x.issue),
        ConvertedReference::SerialComponent(x) => opt_view(x.issue),
        _ => None,
    };
    own_or_numbering(own, r, NumberingType::Issue)
}

/// The edition of a converted reference: its own edition field where the
/// class has one and it is set, else its first `edition` numbering entry.
pub open spec fn converted_edition(r: ConvertedReference) -> Option<Seq<char>> {
    let own = match r {
        ConvertedReference::Monograph(x) => opt_view(x.edition),
        ConvertedReference::Classic(x) => opt_view(x.edition),
        ConvertedReference::CollectionComponent(x) => opt_view(x.edition),
        _ => None,
    };
    own_or_numbering(own, r, NumberingType::Edition)
}

/// The page text of a converted reference, for the classes that show pages:
/// components of collections and serials, and the legal classes that carry
/// a page.
pub open spec fn converted_pages(r: ConvertedReference) -> Option<NumOrStr> {
    match r {
        ConvertedReference::CollectionComponent(x) => x.pages,
        ConvertedReference::SerialComponent(x) => match x.pages {
            Some(p) => Some(NumOrStr::Str(p)),
            None => None,
        },
        ConvertedReference::LegalCase(x) => match x.page {
            Some(p) => Some(NumOrStr::Str(p)),
            None => None,
        },
        ConvertedReference::Statute(x) => match x.page {
            Some(p) => Some(NumOrStr::Str(p)),
            None => None,
        },
        ConvertedReference::Treaty(x) => match x.page {
            Some(p) => Some(NumOrStr::Str(p)),
            None => None,
        },
        _ => None,
    }
}

/// Two optional number-or-string values hold the same number or the same text.
pub open spec fn same_num_or_str(a: Option<NumOrStr>, b: Option<NumOrStr>) -> bool {
    match (a, b) {
        (Some(NumOrStr::Number(x)), Some(NumOrStr::Number(y))) => x == y,
        (Some(NumOrStr::Str(x)), Some(NumOrStr::Str(y))) => x@ == y@,
        (None, None) => true,
        _ => false,
    }
}

fn str_num(s: &Option<String>) -> (r: Option<NumOrStr>)
    ensures
        match (r, *s) {
            (Some(NumOrStr::Str(a)), Some(b)) => a@ == b@,
            (None, None) => true,
            _ => false,
        },
{
    match s {
        Some(t) => Some(NumOrStr::Str(owned(t.as_str()))),
        None => None,
    }
}

/// The medium of a converted reference, in its kebab-case key form.
pub open spec fn converted_medium(r: ConvertedReference) -> Option<Seq<char>> {
    let raw = match r {
        ConvertedReference::Monograph(x) => opt_view(x.medium),
        ConvertedReference::CollectionComponent(x) => opt_view(x.medium),
        ConvertedReference::SerialComponent(x) => opt_view(x.medium),
        ConvertedReference::AudioVisual(x) => opt_view(x.medium),
        _ => None,
    };
    match raw {
        Some(m) => Some(genre_key(m)),
        None => None,
    }
}

/// `a`, else `b`.
pub open spec fn or_else(a: Option<NameView>, b: Option<NameView>) -> Option<NameView> {
    if a is Some { a } else { b }
}

/// The contributors of `entries` playing `role`, as [`collected`] says.
pub open spec fn by_role(entries: Vec<ContributorEntry>, role: ContributorRole) -> Option<NameView> {
    collected(entries_view(entries@), role_view(role))
}

/// Whether a serial component is audio-visual in kind: its medium mentions a
/// podcast, TV, film or video, or its genre a broadcast or film.
pub open spec fn av_like(medium: Option<Seq<char>>, genre: Option<Seq<char>>) -> bool {
    mentions(medium, "podcast"@) || mentions(medium, "tv"@) || mentions(medium, "film"@) || mentions(medium, "video"@)
        || mentions(genre, "broadcast"@) || mentions(genre, "film"@)
}

/// The author of a converted reference. Monographs and components take their
/// author entries, else their author; a serial component that is
/// audio-visual in kind falls back to its producers, then its hosts. Events
/// take their performers, else organisers, else authors. Audio-visual works
/// take their authors, else (films and episodes) directors, (recordings)
/// composers then performers, (broadcasts) directors then producers.
pub open spec fn converted_author(r: ConvertedReference) -> Option<NameView> {
    match r {
        ConvertedReference::Monograph(x) => or_else(by_role(x.contributors, ContributorRole::Author), opt_contributor_view(x.author)),
        ConvertedReference::CollectionComponent(x) => or_else(by_role(x.contributors, ContributorRole::Author), opt_contributor_view(x.author)),
        ConvertedReference::SerialComponent(x) => {
            let explicit = or_else(by_role(x.contributors, ContributorRole::Author), opt_contributor_view(x.author));
            if explicit is Some {
                explicit
            } else if av_like(opt_view(x.medium), opt_view(x.genre)) {
                or_else(by_role(x.contributors, ContributorRole::Producer), by_role(x.contributors, ContributorRole::Host))
            } else {
                None
            }
        },
        ConvertedReference::Treaty(x) => opt_contributor_view(x.author),
        ConvertedReference::Classic(x) => opt_contributor_view(x.author),
        ConvertedReference::Patent(x) => opt_contributor_view(x.author),
        ConvertedReference::Dataset(x) => opt_contributor_view(x.author),
        ConvertedReference::Software(x) => opt_contributor_view(x.author),
        ConvertedReference::Event(x) => or_else(by_role(x.contributors, ContributorRole::Performer),
            or_else(collected(entries_view(x.contributors@), (15, "organizer"@)), by_role(x.contributors, ContributorRole::Author))),
        ConvertedReference::AudioVisual(x) => {
            let explicit = by_role(x.contributors, ContributorRole::Author);
            match x.kind {
                AudioVisualType::Film | AudioVisualType::Episode => or_else(explicit, by_role(x.contributors, ContributorRole::Director)),
                AudioVisualType::Recording => or_else(explicit, or_else(by_role(x.contributors, ContributorRole::Composer),
                    by_role(x.contributors, ContributorRole::Performer))),
                AudioVisualType::Broadcast => or_else(or_else(explicit, by_role(x.contributors, ContributorRole::Director)),
                    by_role(x.contributors, ContributorRole::Producer)),
            }
        },
        _ => None,
    }
}

/// The editor of a converted reference: a monograph's editor entries, else
/// its editor; a collection component's parent editor (its entries, else
/// its editor), else its own editor entries; a serial component's serial
/// editor (likewise); a classic's editor.
pub open spec fn converted_editor(r: ConvertedReference) -> Option<NameView> {
    match r {
        ConvertedReference::Monograph(x) => or_else(by_role(x.contributors, ContributorRole::Editor), opt_contributor_view(x.editor)),
        ConvertedReference::CollectionComponent(x) => or_else(
            or_else(by_role(x.container.contributors, ContributorRole::Editor), opt_contributor_view(x.container.editor)),
            by_role(x.contributors, ContributorRole::Editor)),
        ConvertedReference::SerialComponent(x) => or_else(by_role(x.container.contributors, ContributorRole::Editor),
            opt_contributor_view(x.container.editor)),
        ConvertedReference::Classic(x) => opt_contributor_view(x.editor),
        _ => None,
    }
}

/// The translator of a converted reference: its translator entries, else
/// its translator (monographs and components); a classic's translator; an
/// audio-visual work's translator entries.
pub open spec fn converted_translator(r: ConvertedReference) -> Option<NameView> {
    match r {
        ConvertedReference::Monograph(x) => or_else(by_role(x.contributors, ContributorRole::Translator), opt_contributor_view(x.translator)),
        ConvertedReference::CollectionComponent(x) => or_else(by_role(x.contributors, ContributorRole::Translator), opt_contributor_view(x.translator)),
        ConvertedReference::SerialComponent(x) => or_else(by_role(x.contributors, ContributorRole::Translator), opt_contributor_view(x.translator)),
        ConvertedReference::Classic(x) => opt_contributor_view(x.translator),
        ConvertedReference::AudioVisual(x) => by_role(x.contributors, ContributorRole::Translator),
        _ => None,
    }
}

/// The contributor entries a converted reference carries; none for the
/// classes without them.
pub open spec fn converted_entries(r: ConvertedReference) -> Seq<(Seq<(int, Seq<char>)>, NameView)> {
    match r {
        ConvertedReference::Monograph(x) => entries_view(x.contributors@),
        ConvertedReference::CollectionComponent(x) => entries_view(x.contributors@),
        ConvertedReference::SerialComponent(x) => entries_view(x.contributors@),
        ConvertedReference::Event(x) => entries_view(x.contributors@),
        ConvertedReference::AudioVisual(x) => entries_view(x.contributors@),
        _ => Seq::empty(),
    }
}

fn copy_opt_contributor(c: &Option<Contributor>) -> (r: Option<Contributor>)
    ensures
        opt_contributor_view(r) == opt_contributor_view(*c),
{
    match c {
        Some(x) => Some(copy_contributor(x)),
        None => None,
    }
}

fn first_of(a: Option<Contributor>, b: Option<Contributor>) -> (r: Option<Contributor>)
    ensures
        opt_contributor_view(r) == or_else(opt_contributor_view(a), opt_contributor_view(b)),
{
    if a.is_some() { a } else { b }
}

fn entries_of(r: &ConvertedReference) -> (e: Option<&Vec<ContributorEntry>>)
    ensures
        match e {
            Some(v) => entries_view(v@) == converted_entries(*r),
            None => converted_entries(*r) == Seq::<(Seq<(int, Seq<char>)>, NameView)>::empty(),
        },
{
    match r {
        ConvertedReference::Monograph(x) => Some(&x.contributors),
        ConvertedReference::CollectionComponent(x) => Some(&x.contributors),
        ConvertedReference::SerialComponent(x) => Some(&x.contributors),
        ConvertedReference::Event(x) => Some(&x.contributors),
        ConvertedReference::AudioVisual(x) => Some(&x.contributors),
        _ => None,
    }
}

fn copy_date(d: &DateValue) -> (r: DateValue)
    ensures
        r.value@ == d.value@ && opt_view(r.note) == opt_view(d.note),
{
    DateValue { value: owned(d.value.as_str()), note: copy_opt(&d.note) }
}

fn non_empty_copy(d: &DateValue) -> (r: Option<DateValue>)
    ensures
        match (r, non_empty_date(*d)) {
            (Some(a), Some(b)) => a.value@ == b.value@ && opt_view(a.note) == opt_view(b.note),
            (None, None) => true,
            _ => false,
        },
{
    if d.is_empty() { None } else { Some(copy_date(d)) }
}

fn place_copy(p: &Option<Publisher>) -> (r: Option<String>)
    ensures
        opt_view(r) == place_of(*p),
{
    match p {
        Some(q) => copy_opt(&q.place),
        None => None,
    }
}

fn name_copy(p: &Option<Publisher>) -> (r: Option<String>)
    ensures
        opt_view(r) == name_of(*p),
{
    match p {
        Some(q) => Some(owned(q.name.as_str())),
        None => None,
    }
}

fn copy_publisher(p: &Option<Publisher>) -> (r: Option<Publisher>)
    ensures
        match (r, *p) {
            (Some(a), Some(b)) => a.name@ == b.name@ && opt_view(a.place) == opt_view(b.place),
            (None, None) => true,
            _ => false,
        },
{
    match p {
        Some(x) => Some(Publisher { name: owned(x.name.as_str()), place: copy_opt(&x.place) }),
        None => None,
    }
}

fn numbering_ref(r: &ConvertedReference) -> (v: Option<&Vec<Numbering>>)
    ensures
        match v {
            Some(n) => numbering_view(n@) == numbering_of(*r),
            None => numbering_of(*r) == Seq::<(NumberingType, Seq<char>)>::empty(),
        },
{
    match r {
        ConvertedReference::Monograph(m) => Some(&m.numbering),
        ConvertedReference::Classic(c) => Some(&c.numbering),
        ConvertedReference::CollectionComponent(c) => Some(&c.numbering),
        ConvertedReference::SerialComponent(c) => Some(&c.numbering),
        ConvertedReference::AudioVisual(a) => Some(&a.numbering),
        _ => None,
    }
}

impl ConvertedReference {
    /// The reference's identifier.
    pub fn id(&self) -> (r: Option<String>)
        ensures
            opt_view(r) == converted_id(*self),
    {
        match self {
            ConvertedReference::Monograph(x) => copy_opt(&x.id),
            ConvertedReference::Classic(x) => copy_opt(&x.id),
            ConvertedReference::Event(x) => copy_opt(&x.id),
            ConvertedReference::Dataset(x) => copy_opt(&x.id),
            ConvertedReference::Software(x) => copy_opt(&x.id),
            ConvertedReference::LegalCase(x) => copy_opt(&x.id),
            ConvertedReference::Statute(x) => copy_opt(&x.id),
            ConvertedReference::Regulation(x) => copy_opt(&x.id),
            ConvertedReference::Treaty(x) => copy_opt(&x.id),
            ConvertedReference::Hearing(x) => copy_opt(&x.id),
            ConvertedReference::Patent(x) => copy_opt(&x.id),
            ConvertedReference::Standard(x) => copy_opt(&x.id),
            ConvertedReference::AudioVisual(x) => copy_opt(&x.id),
            ConvertedReference::CollectionComponent(x) => copy_opt(&x.id),
            ConvertedReference::SerialComponent(x) => copy_opt(&x.id),
        }
    }

    /// The CSL item type the reference renders as: the type its genre names
    /// when the genre spells a CSL type, else the type its class gives.
    pub fn ref_type(&self) -> (r: String)
        ensures
            r@ == converted_type_name(*self),
    {
        let g = match self {
            ConvertedReference::Monograph(x) => &x.genre,
            ConvertedReference::CollectionComponent(x) => &x.genre,
            ConvertedReference::SerialComponent(x) => &x.genre,
            ConvertedReference::Event(x) => &x.genre,
            ConvertedReference::AudioVisual(x) => &x.genre,
            _ => return self.class_ref_type(),
        };
        match g {
            Some(text) => match genre_ref_type(text.as_str()) {
                Some(t) => t,
                None => self.class_ref_type(),
            },
            None => self.class_ref_type(),
        }
    }

    fn class_ref_type(&self) -> (r: String)
        ensures
            r@ == class_type_name(*self),
    {
        match self {
            ConvertedReference::Monograph(m) => {
                let medium: Option<&str> = match &m.medium { Some(s) => Some(s.as_str()), None => None };
                let genre: Option<&str> = match &m.genre { Some(s) => Some(s.as_str()), None => None };
                monograph_ref_type(m.kind, medium, genre)
            },
            ConvertedReference::CollectionComponent(c) => {
                let genre: Option<&str> = match &c.genre { Some(s) => Some(s.as_str()), None => None };
                collection_component_ref_type(c.kind, genre)
            },
            ConvertedReference::SerialComponent(c) => {
                let genre: Option<&str> = match &c.genre { Some(s) => Some(s.as_str()), None => None };
                serial_component_ref_type(genre, Some(serial_ref_type(c.container.kind)))
            },
            ConvertedReference::LegalCase(_) => owned("legal-case"),
            ConvertedReference::Statute(_) => owned("statute"),
            ConvertedReference::Treaty(_) => owned("treaty"),
            ConvertedReference::Hearing(_) => owned("hearing"),
            ConvertedReference::Regulation(_) => owned("regulation"),
            ConvertedReference::Classic(_) => owned("classic"),
            ConvertedReference::Patent(_) => owned("patent"),
            ConvertedReference::Dataset(_) => owned("dataset"),
            ConvertedReference::Standard(_) => owned("standard"),
            ConvertedReference::Software(_) => owned("software"),
            ConvertedReference::Event(e) => {
                let genre: Option<&str> = match &e.genre { Some(s) => Some(s.as_str()), None => None };
                owned(event_ref_type(genre))
            },
            ConvertedReference::AudioVisual(a) => owned(audio_visual_ref_type(&a.kind)),
        }
    }

    /// The reference's title.
    pub fn title(&self) -> (r: Option<&Title>)
        ensures
            match (r, converted_title(*self)) {
                (Some(a), Some(b)) => *a == b,
                (None, None) => true,
                _ => false,
            },
    {
        let t = match self {
            ConvertedReference::Monograph(x) => &x.title,
            ConvertedReference::Classic(x) => &x.title,
            ConvertedReference::Event(x) => &x.title,
            ConvertedReference::Dataset(x) => &x.title,
            ConvertedReference::Software(x) => &x.title,
            ConvertedReference::LegalCase(x) => &x.title,
            ConvertedReference::Statute(x) => &x.title,
            ConvertedReference::Regulation(x) => &x.title,
            ConvertedReference::Treaty(x) => &x.title,
            ConvertedReference::Hearing(x) => &x.title,
            ConvertedReference::Patent(x) => &x.title,
            ConvertedReference::Standard(x) => &x.title,
            ConvertedReference::AudioVisual(x) => &x.title,
            ConvertedReference::CollectionComponent(x) => &x.title,
            ConvertedReference::SerialComponent(x) => &x.title,
        };
        match t {
            Some(x) => Some(x),
            None => None,
        }
    }

    /// The reference's publisher (for a component, its container's).
    pub fn publisher(&self) -> (r: Option<Publisher>)
        ensures
            match (r, converted_publisher(*self)) {
                (Some(a), Some(b)) => a.name@ == b.name@ && opt_view(a.place) == opt_view(b.place),
                (None, None) => true,
                _ => false,
            },
    {
        match self {
            ConvertedReference::Monograph(x) => copy_publisher(&x.publisher),
            ConvertedReference::Classic(x) => copy_publisher(&x.publisher),
            ConvertedReference::Dataset(x) => copy_publisher(&x.publisher),
            ConvertedReference::Software(x) => copy_publisher(&x.publisher),
            ConvertedReference::Standard(x) => copy_publisher(&x.publisher),
            ConvertedReference::AudioVisual(x) => copy_publisher(&x.publisher),
            ConvertedReference::CollectionComponent(x) => copy_publisher(&x.container.publisher),
            ConvertedReference::SerialComponent(x) => copy_publisher(&x.container.publisher),
            _ => None,
        }
    }

    /// The reference's URL, in its serialised form.
    pub fn url(&self) -> (r: Option<String>)
        ensures
            opt_view(r) == converted_url(*self),
    {
        match self {
            ConvertedReference::Monograph(x) => copy_opt(&x.url),
            ConvertedReference::Classic(x) => copy_opt(&x.url),
            ConvertedReference::Event(x) => copy_opt(&x.url),
            ConvertedReference::Dataset(x) => copy_opt(&x.url),
            ConvertedReference::Software(x) => copy_opt(&x.url),
            ConvertedReference::LegalCase(x) => copy_opt(&x.url),
            ConvertedReference::Statute(x) => copy_opt(&x.url),
            ConvertedReference::Regulation(x) => copy_opt(&x.url),
            ConvertedReference::Treaty(x) => copy_opt(&x.url),
            ConvertedReference::Hearing(x) => copy_opt(&x.url),
            ConvertedReference::Patent(x) => copy_opt(&x.url),
            ConvertedReference::Standard(x) => copy_opt(&x.url),
            ConvertedReference::AudioVisual(x) => copy_opt(&x.url),
            ConvertedReference::CollectionComponent(x) => copy_opt(&x.url),
            ConvertedReference::SerialComponent(x) => copy_opt(&x.url),
        }
    }

    /// The reference's note.
    pub fn note(&self) -> (r: Option<String>)
        ensures
            opt_view(r) == converted_note(*self),
    {
        match self {
            ConvertedReference::Monograph(x) => copy_opt(&x.note),
            ConvertedReference::CollectionComponent(x) => copy_opt(&x.note),
            ConvertedReference::SerialComponent(x) => copy_opt(&x.note),
            ConvertedReference::LegalCase(x) => copy_opt(&x.note),
            ConvertedReference::Statute(x) => copy_opt(&x.note),
            ConvertedReference::Treaty(x) => copy_opt(&x.note),
            ConvertedReference::Standard(x) => copy_opt(&x.note),
            ConvertedReference::Event(x) => copy_opt(&x.note),
            ConvertedReference::AudioVisual(x) => copy_opt(&x.note),
            _ => None,
        }
    }

    /// The reference's publication date, when it has a non-empty one.
    pub fn issued(&self) -> (r: Option<DateValue>)
        ensures
            match (r, converted_issued(*self)) {
                (Some(a), Some(b)) => a.value@ == b.value@ && opt_view(a.note) == opt_view(b.note),
                (None, None) => true,
                _ => false,
            },
    {
        match self {
            ConvertedReference::Monograph(x) => non_empty_copy(&x.issued),
            ConvertedReference::Classic(x) => non_empty_copy(&x.issued),
            ConvertedReference::Event(x) => match &x.date {
                Some(d) => Some(copy_date(d)),
                None => None,
            },
            ConvertedReference::Dataset(x) => non_empty_copy(&x.issued),
            ConvertedReference::Software(x) => non_empty_copy(&x.issued),
            ConvertedReference::LegalCase(x) => non_empty_copy(&x.issued),
            ConvertedReference::Statute(x) => non_empty_copy(&x.issued),
            ConvertedReference::Regulation(x) => non_empty_copy(&x.issued),
            ConvertedReference::Treaty(x) => non_empty_copy(&x.issued),
            ConvertedReference::Hearing(x) => non_empty_copy(&x.issued),
            ConvertedReference::Patent(x) => non_empty_copy(&x.issued),
            ConvertedReference::Standard(x) => non_empty_copy(&x.issued),
            ConvertedReference::AudioVisual(x) => non_empty_copy(&x.issued),
            ConvertedReference::CollectionComponent(x) => non_empty_copy(&x.issued),
            ConvertedReference::SerialComponent(x) => non_empty_copy(&x.issued),
        }
    }

    /// The reference's publisher place.
    pub fn publisher_place(&self) -> (r: Option<String>)
        ensures
            opt_view(r) == converted_publisher_place(*self),
    {
        match self {
            ConvertedReference::Monograph(x) => place_copy(&x.publisher),
            ConvertedReference::Classic(x) => place_copy(&x.publisher),
            ConvertedReference::Dataset(x) => place_copy(&x.publisher),
            ConvertedReference::Software(x) => place_copy(&x.publisher),
            ConvertedReference::Standard(x) => place_copy(&x.publisher),
            ConvertedReference::AudioVisual(x) => place_copy(&x.publisher),
            ConvertedReference::CollectionComponent(x) => place_copy(&x.container.publisher),
            ConvertedReference::Event(x) => copy_opt(&x.location),
            _ => None,
        }
    }

    /// The reference's publisher, as text.
    pub fn publisher_str(&self) -> (r: Option<String>)
        ensures
            opt_view(r) == converted_publisher_str(*self),
    {
        match self {
            ConvertedReference::Monograph(x) => name_copy(&x.publisher),
            ConvertedReference::Classic(x) => name_copy(&x.publisher),
            ConvertedReference::Dataset(x) => name_copy(&x.publisher),
            ConvertedReference::Software(x) => name_copy(&x.publisher),
            ConvertedReference::Standard(x) => name_copy(&x.publisher),
            ConvertedReference::AudioVisual(x) => name_copy(&x.publisher),
            ConvertedReference::CollectionComponent(x) => name_copy(&x.container.publisher),
            ConvertedReference::SerialComponent(x) => name_copy(&x.container.publisher),
            ConvertedReference::Event(x) => copy_opt(&x.network),
            _ => None,
        }
    }

    /// The reference's volume.
    pub fn volume(&self) -> (r: Option<NumOrStr>)
        ensures
            match r {
                Some(NumOrStr::Str(v)) => converted_volume(*self) == Some(v@),
                Some(_) => false,
                None => converted_volume(*self) is None,
            },
    {
        let own = match self {
            ConvertedReference::Monograph(x) => copy_opt(&x.volume),
            ConvertedReference::Classic(x) => copy_opt(&x.volume),
            ConvertedReference::SerialComponent(x) => copy_opt(&x.volume),
            ConvertedReference::LegalCase(x) => copy_opt(&x.volume),
            ConvertedReference::Statute(x) => copy_opt(&x.volume),
            ConvertedReference::Treaty(x) => copy_opt(&x.volume),
            ConvertedReference::Regulation(x) => copy_opt(&x.volume),
            _ => None,
        };
        let legal = match self {
            ConvertedReference::LegalCase(_) | ConvertedReference::Statute(_)
            | ConvertedReference::Treaty(_) | ConvertedReference::Regulation(_) => true,
            _ => false,
        };
        let v = if own.is_some() || legal { own } else { self.numbering_value(&NumberingType::Volume) };
        match v {
            Some(t) => Some(NumOrStr::Str(t)),
            None => None,
        }
    }

    /// The reference's section.
    pub fn section(&self) -> (r: Option<String>)
        ensures
            opt_view(r) == converted_section(*self),
    {
        match self {
            ConvertedReference::Statute(x) => copy_opt(&x.section),
            ConvertedReference::Regulation(x) => copy_opt(&x.section),
            ConvertedReference::SerialComponent(x) => copy_opt(&x.section),
            ConvertedReference::Classic(x) => find_numbering(&x.numbering, &NumberingType::Section),
            _ => None,
        }
    }

    /// The reference's issue.
    pub fn issue(&self) -> (r: Option<NumOrStr>)
        ensures
            match r {
                Some(NumOrStr::Str(v)) => converted_issue(*self) == Some(v@),
                Some(_) => false,
                None => converted_issue(*self) is None,
            },
    {
        let own = match self {
            ConvertedReference::Monograph(x) => copy_opt(&x.issue),
            ConvertedReference::Classic(x) => copy_opt(&x.issue),
            ConvertedReference::SerialComponent(x) => copy_opt(&x.issue),
            _ => None,
        };
        let v = if own.is_some() { own } else { self.numbering_value(&NumberingType::Issue) };
        match v {
            Some(t) => Some(NumOrStr::Str(t)),
            None => None,
        }
    }

    /// The reference's edition.
    pub fn edition(&self) -> (r: Option<String>)
        ensures
            opt_view(r) == converted_edition(*self),
    {
        let own = match self {
            ConvertedReference::Monograph(x) => copy_opt(&x.edition),
            ConvertedReference::Classic(x) => copy_opt(&x.edition),
            ConvertedReference::CollectionComponent(x) => copy_opt(&x.edition),
            _ => None,
        };
        if own.is_some() { own } else { self.numbering_value(&NumberingType::Edition) }
    }

    /// The reference's pages.
    pub fn pages(&self) -> (r: Option<NumOrStr>)
        ensures
            same_num_or_str(r, converted_pages(*self)),
    {
        match self {
            ConvertedReference::CollectionComponent(x) => match &x.pages {
                Some(NumOrStr::Number(n)) => Some(NumOrStr::Number(*n)),
                Some(NumOrStr::Str(t)) => Some(NumOrStr::Str(owned(t.as_str()))),
                None => None,
            },
            ConvertedReference::SerialComponent(x) => str_num(&x.pages),
            ConvertedReference::LegalCase(x) => str_num(&x.page),
            ConvertedReference::Statute(x) => str_num(&x.page),
            ConvertedReference::Treaty(x) => str_num(&x.page),
            _ => None,
        }
    }

    /// The reference's medium, normalised to its kebab-case key.
    pub fn medium(&self) -> (r: Option<String>)
        ensures
            opt_view(r) == converted_medium(*self),
    {
        let m = match self {
            ConvertedReference::Monograph(x) => &x.medium,
            ConvertedReference::CollectionComponent(x) => &x.medium,
            ConvertedReference::SerialComponent(x) => &x.medium,
            ConvertedReference::AudioVisual(x) => &x.medium,
            _ => return None,
        };
        match m {
            Some(s) => Some(normalize_genre_medium(s.as_str())),
            None => None,
        }
    }

    /// The reference's DOI.
    pub fn doi(&self) -> (r: Option<String>)
        ensures
            opt_view(r) == converted_doi(*self),
    {
        match self {
            ConvertedReference::Monograph(x) => copy_opt(&x.doi),
            ConvertedReference::CollectionComponent(x) => copy_opt(&x.doi),
            ConvertedReference::SerialComponent(x) => copy_opt(&x.doi),
            ConvertedReference::LegalCase(x) => copy_opt(&x.doi),
            ConvertedReference::Dataset(x) => copy_opt(&x.doi),
            ConvertedReference::Software(x) => copy_opt(&x.doi),
            _ => None,
        }
    }

    /// The reference's genre, normalised to its kebab-case key.
    pub fn genre(&self) -> (r: Option<String>)
        ensures
            opt_view(r) == converted_genre(*self),
    {
        let g = match self {
            ConvertedReference::Monograph(x) => &x.genre,
            ConvertedReference::CollectionComponent(x) => &x.genre,
            ConvertedReference::SerialComponent(x) => &x.genre,
            ConvertedReference::Event(x) => &x.genre,
            ConvertedReference::AudioVisual(x) => &x.genre,
            _ => return None,
        };
        match g {
            Some(s) => Some(normalize_genre_medium(s.as_str())),
            None => None,
        }
    }

    /// The value of the reference's first numbering entry of kind `k`.
    pub fn numbering_value(&self, k: &NumberingType) -> (r: Option<String>)
        ensures
            opt_view(r) == first_numbering(numbering_of(*self), *k),
    {
        match numbering_ref(self) {
            Some(n) => find_numbering(n, k),
            None => None,
        }
    }

    /// The reference's generic number.
    pub fn number(&self) -> (r: Option<String>)
        ensures
            opt_view(r) == converted_number(*self),
    {
        let own = match self {
            ConvertedReference::Monograph(x) => copy_opt(&x.number),
            ConvertedReference::Classic(x) => copy_opt(&x.number),
            ConvertedReference::SerialComponent(x) => copy_opt(&x.number),
            ConvertedReference::Statute(x) => return copy_opt(&x.number),
            _ => None,
        };
        if own.is_some() {
            own
        } else {
            self.numbering_value(&NumberingType::Number)
        }
    }

    /// The reference's report number.
    pub fn report_number(&self) -> (r: Option<String>)
        ensures
            opt_view(r) == converted_report_number(*self),
    {
        match self {
            ConvertedReference::Monograph(m) => find_numbering(&m.numbering, &NumberingType::Report),
            _ => None,
        }
    }

    /// The reference's author, with the fallbacks [`converted_author`] states.
    pub fn author(&self) -> (r: Option<Contributor>)
        ensures
            opt_contributor_view(r) == converted_author(*self),
    {
        match self {
            ConvertedReference::Monograph(x) => first_of(collect_contributors_by_role(&x.contributors, &ContributorRole::Author), copy_opt_contributor(&x.author)),
            ConvertedReference::CollectionComponent(x) => first_of(collect_contributors_by_role(&x.contributors, &ContributorRole::Author), copy_opt_contributor(&x.author)),
            ConvertedReference::SerialComponent(x) => {
                let explicit = first_of(collect_contributors_by_role(&x.contributors, &ContributorRole::Author), copy_opt_contributor(&x.author));
                if explicit.is_some() {
                    return explicit;
                }
                let medium: Option<&str> = match &x.medium { Some(m) => Some(m.as_str()), None => None };
                let genre: Option<&str> = match &x.genre { Some(g) => Some(g.as_str()), None => None };
                let av = mentions_exec(medium, "podcast") || mentions_exec(medium, "tv") || mentions_exec(medium, "film")
                    || mentions_exec(medium, "video") || mentions_exec(genre, "broadcast") || mentions_exec(genre, "film");
                if av {
                    first_of(collect_contributors_by_role(&x.contributors, &ContributorRole::Producer),
                        collect_contributors_by_role(&x.contributors, &ContributorRole::Host))
                } else {
                    None
                }
            },
            ConvertedReference::Treaty(x) => copy_opt_contributor(&x.author),
            ConvertedReference::Classic(x) => copy_opt_contributor(&x.author),
            ConvertedReference::Patent(x) => copy_opt_contributor(&x.author),
            ConvertedReference::Dataset(x) => copy_opt_contributor(&x.author),
            ConvertedReference::Software(x) => copy_opt_contributor(&x.author),
            ConvertedReference::Event(x) => {
                let organizer = ContributorRole::Unknown(owned("organizer"));
                first_of(collect_contributors_by_role(&x.contributors, &ContributorRole::Performer),
                    first_of(collect_contributors_by_role(&x.contributors, &organizer),
                        collect_contributors_by_role(&x.contributors, &ContributorRole::Author)))
            },
            ConvertedReference::AudioVisual(x) => {
                let explicit = collect_contributors_by_role(&x.contributors, &ContributorRole::Author);
                match x.kind {
                    AudioVisualType::Film | AudioVisualType::Episode => first_of(explicit,
                        collect_contributors_by_role(&x.contributors, &ContributorRole::Director)),
                    AudioVisualType::Recording => first_of(explicit, first_of(
                        collect_contributors_by_role(&x.contributors, &ContributorRole::Composer),
                        collect_contributors_by_role(&x.contributors, &ContributorRole::Performer))),
                    AudioVisualType::Broadcast => first_of(first_of(explicit,
                        collect_contributors_by_role(&x.contributors, &ContributorRole::Director)),
                        collect_contributors_by_role(&x.contributors, &ContributorRole::Producer)),
                }
            },
            _ => None,
        }
    }

    /// The reference's editor, as [`converted_editor`] says.
    pub fn editor(&self) -> (r: Option<Contributor>)
        ensures
            opt_contributor_view(r) == converted_editor(*self),
    {
        match self {
            ConvertedReference::Monograph(x) => first_of(collect_contributors_by_role(&x.contributors, &ContributorRole::Editor), copy_opt_contributor(&x.editor)),
            ConvertedReference::CollectionComponent(x) => first_of(
                first_of(collect_contributors_by_role(&x.container.contributors, &ContributorRole::Editor), copy_opt_contributor(&x.container.editor)),
                collect_contributors_by_role(&x.contributors, &ContributorRole::Editor)),
            ConvertedReference::SerialComponent(x) => first_of(collect_contributors_by_role(&x.container.contributors, &ContributorRole::Editor),
                copy_opt_contributor(&x.container.editor)),
            ConvertedReference::Classic(x) => copy_opt_contributor(&x.editor),
            _ => None,
        }
    }

    /// The reference's translator, as [`converted_translator`] says.
    pub fn translator(&self) -> (r: Option<Contributor>)
        ensures
            opt_contributor_view(r) == converted_translator(*self),
    {
        match self {
            ConvertedReference::Monograph(x) => first_of(collect_contributors_by_role(&x.contributors, &ContributorRole::Translator), copy_opt_contributor(&x.translator)),
            ConvertedReference::CollectionComponent(x) => first_of(collect_contributors_by_role(&x.contributors, &ContributorRole::Translator), copy_opt_contributor(&x.translator)),
            ConvertedReference::SerialComponent(x) => first_of(collect_contributors_by_role(&x.contributors, &ContributorRole::Translator), copy_opt_contributor(&x.translator)),
            ConvertedReference::Classic(x) => copy_opt_contributor(&x.translator),
            ConvertedReference::AudioVisual(x) => collect_contributors_by_role(&x.contributors, &ContributorRole::Translator),
            _ => None,
        }
    }

    /// The reference's contributor entries that play `role`, in order.
    pub fn contributor_entries(&self, role: &ContributorRole) -> (r: Vec<ContributorEntry>)
        ensures
            entries_view(r@) == entries_with(converted_entries(*self), role_view(*role)),
    {
        match entries_of(self) {
            Some(v) => entries_by_role(v, role),
            None => {
                proof {
                    assert(entries_view(Seq::<ContributorEntry>::empty()) =~= Seq::empty());
                }
                Vec::new()
            },
        }
    }

    /// The contributors playing `role`: none, the one, or a list of them.
    pub fn contributor(&self, role: &ContributorRole) -> (r: Option<Contributor>)
        ensures
            opt_contributor_view(r) == collected(converted_entries(*self), role_view(*role)),
    {
        match entries_of(self) {
            Some(v) => collect_contributors_by_role(v, role),
            None => {
                proof {
                    reveal_with_fuel(matching, 1);
                }
                None
            },
        }
    }

}

/// The numbering a converted monograph carries holds no generic `number`
/// entry, and its first `report` entry is the report's number.
proof fn lemma_monograph_numbering_kinds(kind: MonographType, number: Option<Seq<char>>, part: Option<Seq<char>>, chapter: Option<Seq<char>>)
    ensures
        first_numbering(monograph_numbering(kind, number, part, chapter), NumberingType::Number) is None,
        first_numbering(monograph_numbering(kind, number, part, chapter), NumberingType::Report)
            == (if kind == MonographType::Report { number } else { None }),
{
    reveal_with_fuel(first_numbering, 4);
    let s = monograph_numbering(kind, number, part, chapter);
    let a: Seq<(NumberingType, Seq<char>)> = if kind == MonographType::Report && number is Some { seq![(NumberingType::Report, number->0)] } else { Seq::empty() };
    let b = match part { Some(p) => a.push((NumberingType::Part, p)), None => a };
    assert(s == match chapter { Some(c) => b.push((NumberingType::Chapter, c)), None => b });
    if s.len() > 0 {
        assert(s.drop_first().len() == s.len() - 1);
        if s.len() > 1 {
            assert(s.drop_first().drop_first().len() == s.len() - 2);
        }
    }
}

/// A legacy report converted on the monographic route keeps its number as its
/// report number: its generic number is empty and its report number is the
/// record's number.
pub proof fn lemma_report_number_is_report_numbering(legacy: LegacyReference, r: ConvertedReference)
    requires
        converted_from(r, legacy),
        legacy.ref_type@ == "report"@,
        route_of(legacy) == LegacyConverter::Monograph,
    ensures
        converted_number(r) is None,
        converted_report_number(r) == opt_view(legacy.number),
{
    assert(legacy.ref_type@ != "classic"@) by {
        reveal_strlit("report");
        reveal_strlit("classic");
        assert("report"@.len() != "classic"@.len());
    }
    let ctx = choose|ctx: RefContext| #[trigger] context_of(ctx, legacy) && converted_with(r, legacy, ctx);
    assert(context_of(ctx, legacy));
    lemma_numbering_facts(legacy, r, ctx);
}

/// A legacy record of any other monographic type keeps its number as its
/// generic number and has no report number.
pub proof fn lemma_monograph_number_stays_generic(legacy: LegacyReference, r: ConvertedReference)
    requires
        converted_from(r, legacy),
        legacy.ref_type@ != "report"@,
        legacy.ref_type@ != "classic"@,
        route_of(legacy) == LegacyConverter::Monograph,
    ensures
        converted_number(r) == opt_view(legacy.number),
        converted_report_number(r) is None,
{
    let ctx = choose|ctx: RefContext| #[trigger] context_of(ctx, legacy) && converted_with(r, legacy, ctx);
    assert(context_of(ctx, legacy));
    lemma_numbering_facts(legacy, r, ctx);
}

proof fn lemma_numbering_facts(legacy: LegacyReference, r: ConvertedReference, ctx: RefContext)
    requires
        r matches ConvertedReference::Monograph(m) && monograph_of(m, legacy, ctx),
    ensures
        r matches ConvertedReference::Monograph(m) && {
            &&& converted_number(r) == (if m.kind == MonographType::Report { None } else { opt_view(legacy.number) })
            &&& converted_report_number(r) == (if m.kind == MonographType::Report { opt_view(legacy.number) } else { None })
            &&& (m.kind == MonographType::Report <==> legacy.ref_type@ == "report"@)
        },
{
    let m = r->Monograph_0;
    let extra = legacy.extra@;
    lemma_monograph_numbering_kinds(m.kind, opt_view(legacy.number), crate::legacy::extra_text(extra, "part-number"@), opt_view(legacy.chapter_number));
}

/// Converting a legacy record keeps its identifier, whatever class it becomes.
pub proof fn lemma_conversion_keeps_id(legacy: LegacyReference, r: ConvertedReference)
    requires
        converted_from(r, legacy),
    ensures
        converted_id(r) == Some(legacy.id@),
{
    let ctx = choose|ctx: RefContext| #[trigger] context_of(ctx, legacy) && converted_with(r, legacy, ctx);
    assert(context_of(ctx, legacy));
}

/// Converting a legacy record keeps its URL in serialised form (what the
/// `url` crate makes of it; none when it does not parse), whatever class it
/// becomes.
pub proof fn lemma_conversion_keeps_url(legacy: LegacyReference, r: ConvertedReference)
    requires
        converted_from(r, legacy),
    ensures
        converted_url(r) == match legacy.url {
            Some(u) => url_parse(u@),
            None => None,
        },
{
    let ctx = choose|ctx: RefContext| #[trigger] context_of(ctx, legacy) && converted_with(r, legacy, ctx);
    assert(context_of(ctx, legacy));
}

/// The pages of a converted reference are its page field, for every class
/// that carries one: a legal case's, a statute's, a treaty's or a serial
/// component's page text, and a collection component's pages as they are.
/// The other classes have none.
pub proof fn lemma_pages_read_the_page_field(r: ConvertedReference)
    ensures
        r matches ConvertedReference::LegalCase(x) ==> match x.page {
            Some(p) => converted_pages(r) matches Some(NumOrStr::Str(q)) && q@ == p@,
            None => converted_pages(r) is None,
        },
        r matches ConvertedReference::Statute(x) ==> match x.page {
            Some(p) => converted_pages(r) matches Some(NumOrStr::Str(q)) && q@ == p@,
            None => converted_pages(r) is None,
        },
        r matches ConvertedReference::Treaty(x) ==> match x.page {
            Some(p) => converted_pages(r) matches Some(NumOrStr::Str(q)) && q@ == p@,
            None => converted_pages(r) is None,
        },
        r matches ConvertedReference::SerialComponent(x) ==> match x.pages {
            Some(p) => converted_pages(r) matches Some(NumOrStr::Str(q)) && q@ == p@,
            None => converted_pages(r) is None,
        },
        r matches ConvertedReference::CollectionComponent(x) ==> converted_pages(r) == x.pages,
        (r is Monograph || r is Classic || r is Event || r is Dataset || r is Software || r is Regulation
            || r is Hearing || r is Patent || r is Standard || r is AudioVisual) ==> converted_pages(r) is None,
{
}


/// The DOI of a converted reference is its DOI field, for every class that
/// carries one: monographs, components of collections and serials, legal
/// cases, datasets and software. The other classes have none.
pub proof fn lemma_doi_reads_the_doi_field(r: ConvertedReference)
    ensures
        r matches ConvertedReference::Monograph(x) ==> converted_doi(r) == opt_view(x.doi),
        r matches ConvertedReference::CollectionComponent(x) ==> converted_doi(r) == opt_view(x.doi),
        r matches ConvertedReference::SerialComponent(x) ==> converted_doi(r) == opt_view(x.doi),
        r matches ConvertedReference::LegalCase(x) ==> converted_doi(r) == opt_view(x.doi),
        r matches ConvertedReference::Dataset(x) ==> converted_doi(r) == opt_view(x.doi),
        r matches ConvertedReference::Software(x) ==> converted_doi(r) == opt_view(x.doi),
        (r is Classic || r is Event || r is Statute || r is Regulation || r is Treaty || r is Hearing
            || r is Patent || r is Standard || r is AudioVisual) ==> converted_doi(r) is None,
{
}

/// The note of a converted reference is its note field, for every class that
/// shows one: monographs, components, legal cases, statutes, treaties,
/// standards, events and audio-visual works. The other classes show none.
pub proof fn lemma_note_reads_the_note_field(r: ConvertedReference)
    ensures
        r matches ConvertedReference::Monograph(x) ==> converted_note(r) == opt_view(x.note),
        r matches ConvertedReference::CollectionComponent(x) ==> converted_note(r) == opt_view(x.note),
        r matches ConvertedReference::SerialComponent(x) ==> converted_note(r) == opt_view(x.note),
        r matches ConvertedReference::LegalCase(x) ==> converted_note(r) == opt_view(x.note),
        r matches ConvertedReference::Statute(x) ==> converted_note(r) == opt_view(x.note),
        r matches ConvertedReference::Treaty(x) ==> converted_note(r) == opt_view(x.note),
        r matches ConvertedReference::Standard(x) ==> converted_note(r) == opt_view(x.note),
        r matches ConvertedReference::Event(x) ==> converted_note(r) == opt_view(x.note),
        r matches ConvertedReference::AudioVisual(x) ==> converted_note(r) == opt_view(x.note),
        (r is Classic || r is Dataset || r is Software || r is Regulation || r is Hearing || r is Patent)
            ==> converted_note(r) is None,
{
}

/// The publisher place of a converted reference is where its publisher is (a
/// collection component's container's publisher), or an event's location;
/// the name is its publisher's name (a component's container's), or an
/// event's network. Legal classes, hearings and patents have neither.
pub proof fn lemma_publisher_fields(r: ConvertedReference)
    ensures
        r matches ConvertedReference::Monograph(x) ==> converted_publisher_place(r) == place_of(x.publisher)
            && converted_publisher_str(r) == name_of(x.publisher),
        r matches ConvertedReference::Classic(x) ==> converted_publisher_place(r) == place_of(x.publisher)
            && converted_publisher_str(r) == name_of(x.publisher),
        r matches ConvertedReference::Dataset(x) ==> converted_publisher_place(r) == place_of(x.publisher)
            && converted_publisher_str(r) == name_of(x.publisher),
        r matches ConvertedReference::Software(x) ==> converted_publisher_place(r) == place_of(x.publisher)
            && converted_publisher_str(r) == name_of(x.publisher),
        r matches ConvertedReference::Standard(x) ==> converted_publisher_place(r) == place_of(x.publisher)
            && converted_publisher_str(r) == name_of(x.publisher),
        r matches ConvertedReference::AudioVisual(x) ==> converted_publisher_place(r) == place_of(x.publisher)
            && converted_publisher_str(r) == name_of(x.publisher),
        r matches ConvertedReference::CollectionComponent(x) ==> converted_publisher_place(r) == place_of(x.container.publisher)
            && converted_publisher_str(r) == name_of(x.container.publisher),
        r matches ConvertedReference::SerialComponent(x) ==> converted_publisher_place(r) is None
            && converted_publisher_str(r) == name_of(x.container.publisher),
        r matches ConvertedReference::Event(x) ==> converted_publisher_place(r) == opt_view(x.location)
            && converted_publisher_str(r) == opt_view(x.network),
        (r is LegalCase || r is Statute || r is Regulation || r is Treaty || r is Hearing || r is Patent)
            ==> converted_publisher_place(r) is None && converted_publisher_str(r) is None,
{
}


/// The volume of a converted reference: a monograph's, a classic's or a
/// serial component's own volume when set, else its first `volume`
/// numbering entry; a legal case's, statute's, treaty's or regulation's own
/// volume alone; a collection component's or an audio-visual work's first
/// `volume` numbering entry. The other classes have none.
pub proof fn lemma_volume_reads_volume_then_numbering(r: ConvertedReference)
    ensures
        r matches ConvertedReference::Monograph(x) ==> converted_volume(r)
            == (if x.volume is Some { opt_view(x.volume) } else { first_numbering(numbering_view(x.numbering@), NumberingType::Volume) }),
        r matches ConvertedReference::Classic(x) ==> converted_volume(r)
            == (if x.volume is Some { opt_view(x.volume) } else { first_numbering(numbering_view(x.numbering@), NumberingType::Volume) }),
        r matches ConvertedReference::SerialComponent(x) ==> converted_volume(r)
            == (if x.volume is Some { opt_view(x.volume) } else { first_numbering(numbering_view(x.numbering@), NumberingType::Volume) }),
        r matches ConvertedReference::LegalCase(x) ==> converted_volume(r) == opt_view(x.volume),
        r matches ConvertedReference::Statute(x) ==> converted_volume(r) == opt_view(x.volume),
        r matches ConvertedReference::Treaty(x) ==> converted_volume(r) == opt_view(x.volume),
        r matches ConvertedReference::Regulation(x) ==> converted_volume(r) == opt_view(x.volume),
        r matches ConvertedReference::CollectionComponent(x) ==> converted_volume(r) == first_numbering(numbering_view(x.numbering@), NumberingType::Volume),
        r matches ConvertedReference::AudioVisual(x) ==> converted_volume(r) == first_numbering(numbering_view(x.numbering@), NumberingType::Volume),
        (r is Event || r is Dataset || r is Software || r is Hearing || r is Patent || r is Standard)
            ==> converted_volume(r) is None,
{
}

/// The issue of a converted reference: a monograph's, a classic's or a serial
/// component's own issue when set, else its first `issue` numbering entry; a
/// collection component's or an audio-visual work's first `issue` numbering
/// entry. The other classes have none.
pub proof fn lemma_issue_reads_issue_then_numbering(r: ConvertedReference)
    ensures
        r matches ConvertedReference::Monograph(x) ==> converted_issue(r)
            == (if x.issue is Some { opt_view(x.issue) } else { first_numbering(numbering_view(x.numbering@), NumberingType::Issue) }),
        r matches ConvertedReference::Classic(x) ==> converted_issue(r)
            == (if x.issue is Some { opt_view(x.issue) } else { first_numbering(numbering_view(x.numbering@), NumberingType::Issue) }),
        r matches ConvertedReference::SerialComponent(x) ==> converted_issue(r)
            == (if x.issue is Some { opt_view(x.issue) } else { first_numbering(numbering_view(x.numbering@), NumberingType::Issue) }),
        r matches ConvertedReference::CollectionComponent(x) ==> converted_issue(r) == first_numbering(numbering_view(x.numbering@), NumberingType::Issue),
        r matches ConvertedReference::AudioVisual(x) ==> converted_issue(r) == first_numbering(numbering_view(x.numbering@), NumberingType::Issue),
        (r is Event || r is Dataset || r is Software || r is LegalCase || r is Statute || r is Treaty
            || r is Regulation || r is Hearing || r is Patent || r is Standard) ==> converted_issue(r) is None,
{
}

/// The edition of a converted reference: a monograph's, a classic's or a
/// collection component's own edition when set, else its first `edition`
/// numbering entry; a serial component's or an audio-visual work's first
/// `edition` numbering entry. The other classes have none.
pub proof fn lemma_edition_reads_edition_then_numbering(r: ConvertedReference)
    ensures
        r matches ConvertedReference::Monograph(x) ==> converted_edition(r)
            == (if x.edition is Some { opt_view(x.edition) } else { first_numbering(numbering_view(x.numbering@), NumberingType::Edition) }),
        r matches ConvertedReference::Classic(x) ==> converted_edition(r)
            == (if x.edition is Some { opt_view(x.edition) } else { first_numbering(numbering_view(x.numbering@), NumberingType::Edition) }),
        r matches ConvertedReference::CollectionComponent(x) ==> converted_edition(r)
            == (if x.edition is Some { opt_view(x.edition) } else { first_numbering(numbering_view(x.numbering@), NumberingType::Edition) }),
        r matches ConvertedReference::SerialComponent(x) ==> converted_edition(r) == first_numbering(numbering_view(x.numbering@), NumberingType::Edition),
        r matches ConvertedReference::AudioVisual(x) ==> converted_edition(r) == first_numbering(numbering_view(x.numbering@), NumberingType::Edition),
        (r is Event || r is Dataset || r is Software || r is LegalCase || r is Statute || r is Treaty
            || r is Regulation || r is Hearing || r is Patent || r is Standard) ==> converted_edition(r) is None,
{
}

/// The section of a converted reference: a statute's, a regulation's or a
/// serial component's own section; a classic's first `section` numbering
/// entry. The other classes have none.
pub proof fn lemma_section_reads_the_section_field(r: ConvertedReference)
    ensures
        r matches ConvertedReference::Statute(x) ==> converted_section(r) == opt_view(x.section),
        r matches ConvertedReference::Regulation(x) ==> converted_section(r) == opt_view(x.section),
        r matches ConvertedReference::SerialComponent(x) ==> converted_section(r) == opt_view(x.section),
        r matches ConvertedReference::Classic(x) ==> converted_section(r)
            == first_numbering(numbering_view(x.numbering@), NumberingType::Section),
        (r is Monograph || r is CollectionComponent || r is Event || r is Dataset || r is Software
            || r is LegalCase || r is Treaty || r is Hearing || r is Patent || r is Standard || r is AudioVisual)
            ==> converted_section(r) is None,
{
}

/// The medium of a converted reference is the key of its medium field, for
/// monographs, components and audio-visual works; the other classes have
/// none.
pub proof fn lemma_medium_reads_the_medium_field(r: ConvertedReference)
    ensures
        r matches ConvertedReference::Monograph(x) ==> converted_medium(r) == (if let Some(m) = x.medium { Some(genre_key(m@)) } else { None }),
        r matches ConvertedReference::CollectionComponent(x) ==> converted_medium(r) == (if let Some(m) = x.medium { Some(genre_key(m@)) } else { None }),
        r matches ConvertedReference::SerialComponent(x) ==> converted_medium(r) == (if let Some(m) = x.medium { Some(genre_key(m@)) } else { None }),
        r matches ConvertedReference::AudioVisual(x) ==> converted_medium(r) == (if let Some(m) = x.medium { Some(genre_key(m@)) } else { None }),
        (r is Classic || r is Event || r is Dataset || r is Software || r is LegalCase || r is Statute
            || r is Treaty || r is Regulation || r is Hearing || r is Patent || r is Standard) ==> converted_medium(r) is None,
{
}


/// The publication date of a converted reference is its issued date, unless
/// that date's text is empty, for every class but an event; an event's is
/// its date.
pub proof fn lemma_issued_reads_the_issued_date(r: ConvertedReference)
    ensures
        r matches ConvertedReference::Monograph(x) ==> converted_issued(r) == (if x.issued.value@.len() == 0 { None } else { Some(x.issued) }),
        r matches ConvertedReference::Classic(x) ==> converted_issued(r) == (if x.issued.value@.len() == 0 { None } else { Some(x.issued) }),
        r matches ConvertedReference::Dataset(x) ==> converted_issued(r) == (if x.issued.value@.len() == 0 { None } else { Some(x.issued) }),
        r matches ConvertedReference::Software(x) ==> converted_issued(r) == (if x.issued.value@.len() == 0 { None } else { Some(x.issued) }),
        r matches ConvertedReference::LegalCase(x) ==> converted_issued(r) == (if x.issued.value@.len() == 0 { None } else { Some(x.issued) }),
        r matches ConvertedReference::Statute(x) ==> converted_issued(r) == (if x.issued.value@.len() == 0 { None } else { Some(x.issued) }),
        r matches ConvertedReference::Regulation(x) ==> converted_issued(r) == (if x.issued.value@.len() == 0 { None } else { Some(x.issued) }),
        r matches ConvertedReference::Treaty(x) ==> converted_issued(r) == (if x.issued.value@.len() == 0 { None } else { Some(x.issued) }),
        r matches ConvertedReference::Hearing(x) ==> converted_issued(r) == (if x.issued.value@.len() == 0 { None } else { Some(x.issued) }),
        r matches ConvertedReference::Patent(x) ==> converted_issued(r) == (if x.issued.value@.len() == 0 { None } else { Some(x.issued) }),
        r matches ConvertedReference::Standard(x) ==> converted_issued(r) == (if x.issued.value@.len() == 0 { None } else { Some(x.issued) }),
        r matches ConvertedReference::AudioVisual(x) ==> converted_issued(r) == (if x.issued.value@.len() == 0 { None } else { Some(x.issued) }),
        r matches ConvertedReference::CollectionComponent(x) ==> converted_issued(r) == (if x.issued.value@.len() == 0 { None } else { Some(x.issued) }),
        r matches ConvertedReference::SerialComponent(x) ==> converted_issued(r) == (if x.issued.value@.len() == 0 { None } else { Some(x.issued) }),
        r matches ConvertedReference::Event(x) ==> converted_issued(r) == x.date,
{
}


/// A legacy record of a legal, standard, patent, dataset or software type
/// renders as its own type again (a `legal_case` as `legal-case`,
/// `legislation` as `statute`); one of a plain monographic type (a book,
/// thesis, manual, manuscript, web page, interview or personal
/// communication, a post, or a report without pages) and one of an
/// audio-visual type (a motion picture, a song), a chapter, a conference
/// paper or an event render as their own type too
/// when they carry no genre and no medium; a journal, magazine or newspaper
/// article or a broadcast renders as its own type when it carries no genre
/// and no reviewed genre.
pub proof fn lemma_type_round_trip(legacy: LegacyReference, r: ConvertedReference)
    requires
        converted_from(r, legacy),
    ensures
        legacy.ref_type@ == "legal_case"@ || legacy.ref_type@ == "legal-case"@ ==> converted_type_name(r) == "legal-case"@,
        legacy.ref_type@ == "legislation"@ || legacy.ref_type@ == "statute"@ ==> converted_type_name(r) == "statute"@,
        legacy.ref_type@ == "regulation"@ ==> converted_type_name(r) == "regulation"@,
        legacy.ref_type@ == "treaty"@ ==> converted_type_name(r) == "treaty"@,
        legacy.ref_type@ == "hearing"@ ==> converted_type_name(r) == "hearing"@,
        legacy.ref_type@ == "patent"@ ==> converted_type_name(r) == "patent"@,
        legacy.ref_type@ == "standard"@ ==> converted_type_name(r) == "standard"@,
        legacy.ref_type@ == "dataset"@ ==> converted_type_name(r) == "dataset"@,
        legacy.ref_type@ == "software"@ ==> converted_type_name(r) == "software"@,
        legacy.genre is None && legacy.medium is None ==> {
            &&& legacy.ref_type@ == "book"@ ==> converted_type_name(r) == "book"@
            &&& legacy.ref_type@ == "thesis"@ ==> converted_type_name(r) == "thesis"@
            &&& legacy.ref_type@ == "manual"@ ==> converted_type_name(r) == "manual"@
            &&& legacy.ref_type@ == "manuscript"@ ==> converted_type_name(r) == "manuscript"@
            &&& legacy.ref_type@ == "webpage"@ ==> converted_type_name(r) == "webpage"@
            &&& legacy.ref_type@ == "interview"@ ==> converted_type_name(r) == "interview"@
            &&& legacy.ref_type@ == "personal_communication"@ || legacy.ref_type@ == "personal-communication"@
                ==> converted_type_name(r) == "personal-communication"@
            &&& legacy.ref_type@ == "report"@ && legacy.page is None ==> converted_type_name(r) == "report"@
            &&& legacy.ref_type@ == "post"@ ==> converted_type_name(r) == "post"@
            &&& legacy.ref_type@ == "motion_picture"@ ==> converted_type_name(r) == "motion-picture"@
            &&& legacy.ref_type@ == "song"@ ==> converted_type_name(r) == "song"@
            &&& legacy.ref_type@ == "chapter"@ ==> converted_type_name(r) == "chapter"@
            &&& legacy.ref_type@ == "paper-conference"@ ==> converted_type_name(r) == "paper-conference"@
            &&& legacy.ref_type@ == "event"@ ==> converted_type_name(r) == "event"@
        },
        legacy.genre is None && crate::legacy::extra_text(legacy.extra@, "reviewed-genre"@) is None ==> {
            &&& legacy.ref_type@ == "article-journal"@ ==> converted_type_name(r) == "article-journal"@
            &&& legacy.ref_type@ == "article-magazine"@ ==> converted_type_name(r) == "article-magazine"@
            &&& legacy.ref_type@ == "article-newspaper"@ ==> converted_type_name(r) == "article-newspaper"@
            &&& legacy.ref_type@ == "broadcast"@ ==> converted_type_name(r) == "broadcast"@
        },
{
    reveal_strlit("motion_picture");
    reveal_strlit("song");
    reveal_strlit("article-journal");
    reveal_strlit("article-magazine");
    reveal_strlit("article-newspaper");
    reveal_strlit("broadcast");
    reveal_strlit("entry-encyclopedia");
    reveal_strlit("review");
    reveal_strlit("review-book");
    reveal_strlit("chapter");
    reveal_strlit("paper-conference");
    reveal_strlit("event");
    reveal_strlit("entry");
    reveal_strlit("entry-dictionary");
    reveal_strlit("speech");
    reveal_strlit("performance");
    reveal_strlit("legal_case");
    reveal_strlit("legal-case");
    reveal_strlit("legislation");
    reveal_strlit("statute");
    reveal_strlit("regulation");
    reveal_strlit("treaty");
    reveal_strlit("hearing");
    reveal_strlit("patent");
    reveal_strlit("standard");
    reveal_strlit("dataset");
    reveal_strlit("software");
    reveal_strlit("book");
    reveal_strlit("thesis");
    reveal_strlit("manual");
    reveal_strlit("manuscript");
    reveal_strlit("webpage");
    reveal_strlit("interview");
    reveal_strlit("personal_communication");
    reveal_strlit("personal-communication");
    reveal_strlit("report");
    reveal_strlit("classic");
    reveal_strlit("musical_score");
    reveal_strlit("pamphlet");
    reveal_strlit("post-weblog");
    reveal_strlit("post");
    let t = legacy.ref_type@;
    lemma_legacy_routes(t, legacy.page is Some, legacy.editor is Some, legacy.container_title is Some);
    lemma_monograph_kinds(t);
    let ctx = choose|ctx: RefContext| #[trigger] context_of(ctx, legacy) && converted_with(r, legacy, ctx);
    assert(converted_with(r, legacy, ctx));
}

} // verus!
