//! Conversion rules from legacy CSL-JSON data into Citum values.
//!
//! The rules here take the plain values a legacy record carries (date parts,
//! literals, type names, titles) and say exactly what each becomes; the
//! `legacy` module holds the record itself and assembles the rules.

use vstd::prelude::*;
use unicode_normalization::UnicodeNormalization;

use crate::date::{date_is_approximate, DateValue};
use crate::types::{AudioVisualType, StructuredTitle, Subtitle, Title};
use crate::text::{
    ascii_lower, chars_of, has_prefix_at, str_eq, to_ascii_lower, int_zero_padded, is_ascii_digit, nat_digits, owned, push_char, push_str,
    push_zero_padded, string_from_range, trim, trim_bounds, trimmed, zero_pad,
};

verus! {

/// A legacy CSL-JSON date variable: a literal, structured date parts, a circa
/// flag, or a raw string.
#[derive(Debug, Clone)]
pub struct LegacyDate {
    /// A literal date string, used as is.
    pub literal: Option<String>,
    /// Date parts: one or two `[year, month, day]` lists (a second one ends a range).
    pub date_parts: Option<Vec<Vec<i32>>>,
    /// Whether the date is approximate.
    pub circa: Option<bool>,
    /// A raw, unparsed date string.
    pub raw: Option<String>,
}

/// The EDTF text of one list of date parts: the year padded to four digits
/// (after its sign), then `-` and the month, then `-` and the day, each padded
/// to two characters.
pub open spec fn date_part_text(part: Seq<i32>) -> Seq<char> {
    let year = if part.len() > 0 {
        if part[0] < 0 {
            seq!['-'] + zero_pad(nat_digits((-part[0]) as nat), 4)
        } else {
            zero_pad(nat_digits(part[0] as nat), 4)
        }
    } else {
        Seq::empty()
    };
    let month = if part.len() > 1 { seq!['-'] + int_zero_padded(part[1] as int, 2) } else { Seq::empty() };
    let day = if part.len() > 2 { seq!['-'] + int_zero_padded(part[2] as int, 2) } else { Seq::empty() };
    year + month + day
}

/// Whether a list of date parts can be rendered: a year of `i32::MIN` has no
/// absolute value in `i32`.
pub open spec fn renderable_part(part: Seq<i32>) -> bool {
    part.len() > 0 ==> part[0] != i32::MIN
}

/// `value` with the EDTF approximation qualifier `~` added when the circa flag
/// is set and the value ends in neither `~` nor `%`.
pub open spec fn circa_text(value: Seq<char>, circa: Option<bool>) -> Seq<char> {
    if circa == Some(true) && !(value.len() > 0 && (value.last() == '~' || value.last() == '%')) {
        value.push('~')
    } else {
        value
    }
}

/// The EDTF value of a legacy date: its literal; else its first one or two
/// lists of date parts (joined by `/`), with the circa flag applied; else its
/// raw string; else the empty string.
pub open spec fn legacy_date_text(date: LegacyDate) -> Seq<char> {
    match date.literal {
        Some(l) => l@,
        None => {
            if date.date_parts is Some && date.date_parts->0@.len() > 0 {
                let parts = date.date_parts->0@;
                if parts.len() >= 2 {
                    circa_text(date_part_text(parts[0]@) + seq!['/'] + date_part_text(parts[1]@), date.circa)
                } else {
                    circa_text(date_part_text(parts[0]@), date.circa)
                }
            } else {
                match date.raw {
                    Some(r) => r@,
                    None => Seq::empty(),
                }
            }
        },
    }
}

/// Whether the date parts that `legacy_date_text` renders can be rendered.
pub open spec fn legacy_date_renderable(date: LegacyDate) -> bool {
    date.literal is None && date.date_parts is Some ==> {
        let parts = date.date_parts->0@;
        &&& parts.len() > 0 ==> renderable_part(parts[0]@)
        &&& parts.len() > 1 ==> renderable_part(parts[1]@)
    }
}

/// Appends `-` and then `v` as `{:02}` prints it.
fn push_dash_two(s: &mut String, v: i32)
    ensures
        final(s)@ == old(s)@ + seq!['-'] + int_zero_padded(v as int, 2),
{
    push_char(s, '-');
    if v < 0 {
        push_char(s, '-');
        let m: u64 = (-(v as i64)) as u64;
        push_zero_padded(s, m, 1);
        proof {
            assert(final(s)@ =~= old(s)@ + seq!['-'] + (seq!['-'] + zero_pad(nat_digits((-v) as nat), 1)));
        }
    } else {
        push_zero_padded(s, v as u64, 2);
        proof {
            assert(final(s)@ =~= old(s)@ + seq!['-'] + zero_pad(nat_digits(v as nat), 2));
        }
    }
}

/// Render one list of CSL date parts as EDTF text.
pub fn render_date_part(part: &[i32]) -> (r: String)
    requires
        renderable_part(part@),
    ensures
        r@ == date_part_text(part@),
{
    let mut s = String::new();
    if part.len() > 0 {
        let y = part[0];
        if y < 0 {
            push_char(&mut s, '-');
            push_zero_padded(&mut s, (-y) as u64, 4);
        } else {
            push_zero_padded(&mut s, y as u64, 4);
        }
    }
    if part.len() > 1 {
        push_dash_two(&mut s, part[1]);
    }
    if part.len() > 2 {
        push_dash_two(&mut s, part[2]);
    }
    proof {
        assert(s@ =~= date_part_text(part@));
    }
    s
}

/// The circa flag adds the approximation qualifier `~` exactly when it is
/// set and the value does not already end in a qualifier (`~` or `%`);
/// applying it twice gives what applying it once gives.
pub proof fn lemma_circa_marker(value: Seq<char>, circa: Option<bool>)
    ensures
        circa != Some(true) ==> circa_text(value, circa) == value,
        circa == Some(true) && value.len() > 0 && (value.last() == '~' || value.last() == '%')
            ==> circa_text(value, circa) == value,
        circa == Some(true) && (value.len() == 0 || (value.last() != '~' && value.last() != '%'))
            ==> circa_text(value, circa) == value + seq!['~'],
        circa_text(circa_text(value, circa), circa) == circa_text(value, circa),
{
    assert(value.push('~') =~= value + seq!['~']);
    assert(value.push('~').last() == '~');
}

proof fn lemma_digits_unqualified(n: nat)
    ensures
        nat_digits(n).len() > 0,
        nat_digits(n).last() != '~',
        nat_digits(n).last() != '%',
    decreases n,
{
    if n >= 10 {
        lemma_digits_unqualified(n / 10);
    }
}

proof fn lemma_padded_unqualified(v: int, width: nat)
    ensures
        int_zero_padded(v, width).len() > 0,
        int_zero_padded(v, width).last() != '~',
        int_zero_padded(v, width).last() != '%',
{
    let d = if v < 0 { nat_digits((-v) as nat) } else { nat_digits(v as nat) };
    lemma_digits_unqualified(if v < 0 { (-v) as nat } else { v as nat });
    let w: nat = if v < 0 { if width > 0 { (width - 1) as nat } else { 0 } } else { width };
    let z = zero_pad(d, w);
    assert(z.len() > 0 && z.last() == d.last());
}

proof fn lemma_part_unqualified(part: Seq<i32>)
    ensures
        date_part_text(part).len() > 0 ==> date_part_text(part).last() != '~' && date_part_text(part).last() != '%',
{
    let year = if part.len() > 0 {
        if part[0] < 0 {
            seq!['-'] + zero_pad(nat_digits((-part[0]) as nat), 4)
        } else {
            zero_pad(nat_digits(part[0] as nat), 4)
        }
    } else {
        Seq::empty()
    };
    let month = if part.len() > 1 { seq!['-'] + int_zero_padded(part[1] as int, 2) } else { Seq::empty() };
    let day = if part.len() > 2 { seq!['-'] + int_zero_padded(part[2] as int, 2) } else { Seq::empty() };
    assert(date_part_text(part) == year + month + day);
    if part.len() > 2 {
        lemma_padded_unqualified(part[2] as int, 2);
        assert((year + month + day).last() == day.last());
    } else if part.len() > 1 {
        lemma_padded_unqualified(part[1] as int, 2);
        assert(day =~= Seq::<char>::empty());
        assert((year + month + day).last() == month.last());
    } else if part.len() > 0 {
        assert(day =~= Seq::<char>::empty());
        assert(month =~= Seq::<char>::empty());
        if part[0] < 0 {
            lemma_digits_unqualified((-part[0]) as nat);
            let z = zero_pad(nat_digits((-part[0]) as nat), 4);
            assert(z.last() == nat_digits((-part[0]) as nat).last());
        } else {
            lemma_digits_unqualified(part[0] as nat);
            let z = zero_pad(nat_digits(part[0] as nat), 4);
            assert(z.last() == nat_digits(part[0] as nat).last());
        }
        assert((year + month + day) =~= year);
    } else {
        assert((year + month + day) =~= Seq::<char>::empty());
    }
}

/// A legacy date given by date parts with the circa flag set converts to an
/// approximate date, a single date and a range alike.
pub proof fn lemma_circa_parts_are_approximate(date: LegacyDate, d: DateValue)
    requires
        d.value@ == legacy_date_text(date),
        date.literal is None,
        date.date_parts matches Some(ps) && ps@.len() > 0,
    ensures
        date.circa == Some(true) ==> date_is_approximate(d),
{
    let parts = date.date_parts->0@;
    lemma_part_unqualified(parts[0]@);
    let v = if parts.len() >= 2 {
        lemma_part_unqualified(parts[1]@);
        let a = date_part_text(parts[0]@) + seq!['/'] + date_part_text(parts[1]@);
        if date_part_text(parts[1]@).len() > 0 {
            assert(a.last() == date_part_text(parts[1]@).last());
        } else {
            assert(a.last() == '/');
        }
        a
    } else {
        date_part_text(parts[0]@)
    };
    if date.circa == Some(true) {
        assert(d.value@ == v.push('~'));
        assert(v.push('~')[v.len() as int] == '~');
    }
}

/// Apply CSL's structured circa flag to an EDTF date that lacks a qualifier.
pub fn apply_csl_circa_marker(value: String, circa: Option<bool>) -> (r: String)
    ensures
        r@ == circa_text(value@, circa),
{
    let v = chars_of(value.as_str());
    let n = v.len();
    let qualified = n > 0 && (v[n - 1] == '~' || v[n - 1] == '%');
    if circa == Some(true) && !qualified {
        let mut r = value;
        push_char(&mut r, '~');
        r
    } else {
        value
    }
}

impl DateValue {
    /// Convert a legacy CSL-JSON date variable into an EDTF date value.
    pub fn from_legacy(date: &LegacyDate) -> (r: DateValue)
        requires
            legacy_date_renderable(*date),
        ensures
            r.value@ == legacy_date_text(*date),
            r.note is None,
    {
        if let Some(literal) = &date.literal {
            return DateValue { value: owned(literal.as_str()), note: None };
        }
        if let Some(parts) = &date.date_parts {
            if parts.len() > 0 {
                let first = render_date_part(parts[0].as_slice());
                if parts.len() > 1 {
                    let second = render_date_part(parts[1].as_slice());
                    let mut joined = first;
                    push_char(&mut joined, '/');
                    push_str(&mut joined, second.as_str());
                    proof {
                        assert(joined@ =~= date_part_text(parts@[0]@) + seq!['/'] + date_part_text(parts@[1]@));
                    }
                    return DateValue { value: apply_csl_circa_marker(joined, date.circa), note: None };
                }
                return DateValue { value: apply_csl_circa_marker(first, date.circa), note: None };
            }
        }
        match &date.raw {
            Some(raw) => DateValue { value: owned(raw.as_str()), note: None },
            None => DateValue { value: String::new(), note: None },
        }
    }
}

/// Whether `y` is a four-digit year: exactly four ASCII digits.
pub open spec fn is_year4(y: Seq<char>) -> bool {
    y.len() == 4 && forall|i: int| 0 <= i < 4 ==> is_ascii_digit(#[trigger] y[i])
}

/// Whether `v[from..to]` is a four-digit year.
fn year4_at(v: &Vec<char>, from: usize, to: usize) -> (b: bool)
    requires
        from <= to <= v.len(),
    ensures
        b == is_year4(v@.subrange(from as int, to as int)),
{
    if to - from != 4 {
        return false;
    }
    let mut i = from;
    while i < to
        invariant
            from <= i <= to <= v.len(),
            to - from == 4,
            forall|k: int| from <= k < i ==> is_ascii_digit(#[trigger] v@[k]),
        decreases to - i,
    {
        let c = v[i];
        if !('0' <= c && c <= '9') {
            proof {
                assert(v@.subrange(from as int, to as int)[i - from] == c);
            }
            return false;
        }
        i = i + 1;
    }
    proof {
        assert forall|k: int| 0 <= k < 4 implies is_ascii_digit(#[trigger] v@.subrange(from as int, to as int)[k]) by {
            assert(v@.subrange(from as int, to as int)[k] == v@[from + k]);
        }
    }
    true
}

/// The copyright year of a GB/T-style `c<year>` literal issued date (such as
/// `"c1988"`): the rest after the leading `c`, trimmed, when it is a four-digit year.
pub open spec fn copyright_year_text(literal: Seq<char>) -> Option<Seq<char>> {
    if literal.len() > 0 && literal[0] == 'c' && is_year4(trim(literal.drop_first())) {
        Some(trim(literal.drop_first()))
    } else {
        None
    }
}

/// The printing year of an `issued` note override ending in `印刷`: the text
/// before that suffix, trimmed, when it is a four-digit year.
pub open spec fn printing_year_text(literal: Seq<char>) -> Option<Seq<char>> {
    let n = literal.len();
    if n >= 2 && literal[n - 2] == '印' && literal[n - 1] == '刷' && is_year4(trim(literal.take(n - 2))) {
        Some(trim(literal.take(n - 2)))
    } else {
        None
    }
}

/// The estimated year of an `issued` note override ending in `~`: the text
/// before the `~`, trimmed, when it is a four-digit year.
pub open spec fn estimated_year_text(literal: Seq<char>) -> Option<Seq<char>> {
    if literal.len() > 0 && literal.last() == '~' && is_year4(trim(literal.drop_last())) {
        Some(trim(literal.drop_last()))
    } else {
        None
    }
}

/// Whether `i` is the first position of `c` in `s`.
pub open spec fn first_index_of(s: Seq<char>, c: char, i: int) -> bool {
    0 <= i < s.len() && s[i] == c && forall|k: int| 0 <= k < i ==> s[k] != c
}

/// The year and note of a source-calendar override `<year>（<note>）`, with
/// full-width parentheses: the trimmed text before the first `（` must be a
/// four-digit year, and the rest must end in `）` around a non-empty trimmed note.
pub open spec fn annotated_year_text(literal: Seq<char>) -> Option<(Seq<char>, Seq<char>)> {
    if exists|i: int| first_index_of(literal, '（', i) {
        let i = choose|i: int| first_index_of(literal, '（', i);
        let year = trim(literal.take(i));
        let rest = literal.skip(i + 1);
        if rest.len() > 0 && rest.last() == '）' && is_year4(year) && trim(rest.drop_last()).len() > 0 {
            Some((year, trim(rest.drop_last())))
        } else {
            None
        }
    } else {
        None
    }
}

/// The date a year substitute gives: `year` with no note.
fn year_date(v: &Vec<char>, from: usize, to: usize) -> (r: DateValue)
    requires
        from <= to <= v.len(),
    ensures
        r.value@ == v@.subrange(from as int, to as int),
        r.note is None,
{
    DateValue { value: string_from_range(v, from, to), note: None }
}

/// Extract a GB/T-style copyright year from a CSL `c<year>` literal issued date.
pub fn copyright_year_from_legacy(issued_literal: Option<&str>) -> (r: Option<DateValue>)
    ensures
        match issued_literal {
            None => r is None,
            Some(l) => match copyright_year_text(l@) {
                None => r is None,
                Some(y) => r is Some && r->0.value@ == y && r->0.note is None,
            },
        },
{
    let literal = match issued_literal {
        Some(l) => l,
        None => return None,
    };
    let v = chars_of(literal);
    if v.len() == 0 || v[0] != 'c' {
        return None;
    }
    let (i, j) = trim_bounds(&v, 1, v.len());
    proof {
        assert(v@.subrange(1, v@.len() as int) =~= v@.drop_first());
    }
    if year4_at(&v, i, j) {
        Some(year_date(&v, i, j))
    } else {
        None
    }
}

/// Interpret a printing-year `issued` note override (suffix `印刷`).
pub fn printing_year_from_legacy(note_literal: Option<&str>) -> (r: Option<DateValue>)
    ensures
        match note_literal {
            None => r is None,
            Some(l) => match printing_year_text(l@) {
                None => r is None,
                Some(y) => r is Some && r->0.value@ == y && r->0.note is None,
            },
        },
{
    let literal = match note_literal {
        Some(l) => l,
        None => return None,
    };
    let v = chars_of(literal);
    let n = v.len();
    if n < 2 || v[n - 2] != '印' || v[n - 1] != '刷' {
        return None;
    }
    let (i, j) = trim_bounds(&v, 0, n - 2);
    proof {
        assert(v@.subrange(0, n - 2) =~= v@.take(n - 2));
    }
    if year4_at(&v, i, j) {
        Some(year_date(&v, i, j))
    } else {
        None
    }
}

/// Interpret an estimated-year `issued` note override (trailing `~`) as an
/// EDTF approximate date.
pub fn estimated_issued_from_legacy(note_literal: Option<&str>) -> (r: Option<DateValue>)
    ensures
        match note_literal {
            None => r is None,
            Some(l) => match estimated_year_text(l@) {
                None => r is None,
                Some(y) => r is Some && r->0.value@ == y.push('~') && r->0.note is None,
            },
        },
{
    let literal = match note_literal {
        Some(l) => l,
        None => return None,
    };
    let v = chars_of(literal);
    let n = v.len();
    if n == 0 || v[n - 1] != '~' {
        return None;
    }
    let (i, j) = trim_bounds(&v, 0, n - 1);
    proof {
        assert(v@.subrange(0, n - 1) =~= v@.drop_last());
    }
    if year4_at(&v, i, j) {
        let mut value = string_from_range(&v, i, j);
        push_char(&mut value, '~');
        Some(DateValue { value, note: None })
    } else {
        None
    }
}

/// Interpret a source-calendar `issued` note override `<year>（<note>）` as an
/// annotated date.
pub fn annotated_issued_from_legacy(note_literal: Option<&str>) -> (r: Option<DateValue>)
    ensures
        match note_literal {
            None => r is None,
            Some(l) => match annotated_year_text(l@) {
                None => r is None,
                Some((y, note)) => r is Some && r->0.value@ == y && r->0.note is Some
                    && r->0.note->0@ == note,
            },
        },
{
    let literal = match note_literal {
        Some(l) => l,
        None => return None,
    };
    let v = chars_of(literal);
    let n = v.len();
    let mut p: usize = 0;
    while p < n && v[p] != '（'
        invariant
            n == v.len(),
            p <= n,
            forall|k: int| 0 <= k < p ==> v@[k] != '（',
        decreases n - p,
    {
        p = p + 1;
    }
    if p == n {
        proof {
            assert forall|i: int| !first_index_of(v@, '（', i) by {
                if 0 <= i < v@.len() && v@[i] == '（' {
                    assert(v@[i] != '（');
                }
            }
        }
        return None;
    }
    proof {
        assert(first_index_of(v@, '（', p as int));
        assert forall|i: int| #[trigger] first_index_of(v@, '（', i) implies i == p by {
            if i < p {
                assert(v@[i] != '（');
            } else if i > p {
                assert(v@[p as int] == '（');
            }
        }
        assert(v@.subrange(0, p as int) =~= v@.take(p as int));
        assert(v@.subrange(p + 1, n as int) =~= v@.skip(p + 1));
    }
    if n - p < 2 || v[n - 1] != '）' {
        return None;
    }
    let (ni, nj) = trim_bounds(&v, p + 1, n - 1);
    let (yi, yj) = trim_bounds(&v, 0, p);
    proof {
        assert(v@.skip(p + 1).drop_last() =~= v@.subrange(p + 1, n - 1));
    }
    if year4_at(&v, yi, yj) && ni < nj {
        let value = string_from_range(&v, yi, yj);
        let note = string_from_range(&v, ni, nj);
        Some(DateValue { value, note: Some(note) })
    } else {
        None
    }
}

/// Whether `a` and `b` are equal up to ASCII case (`str::eq_ignore_ascii_case`).
pub open spec fn eq_ignore_ascii_case(a: Seq<char>, b: Seq<char>) -> bool {
    a.len() == b.len() && forall|i: int| 0 <= i < a.len() ==> ascii_lower(#[trigger] a[i]) == ascii_lower(b[i])
}

/// Whether `needle` occurs in `hay` as a contiguous run (`str::contains`).
pub open spec fn contains_seq(hay: Seq<char>, needle: Seq<char>) -> bool {
    exists|i: int| 0 <= i && i + needle.len() <= hay.len() && #[trigger] hay.subrange(i, i + needle.len()) == needle
}

/// When a full title and a short title make a structured title: the full
/// title has a `:`, and the text before the first one, trimmed, equals the
/// short title up to ASCII case or contains it. The result is the subtitle,
/// the trimmed text after that `:`.
pub open spec fn structured_subtitle(full: Seq<char>, short: Seq<char>) -> Option<Seq<char>> {
    if exists|i: int| first_index_of(full, ':', i) {
        let i = choose|i: int| first_index_of(full, ':', i);
        let main = trim(full.take(i));
        if eq_ignore_ascii_case(main, short) || contains_seq(main, short) {
            Some(trim(full.skip(i + 1)))
        } else {
            None
        }
    } else {
        None
    }
}

/// Whether `v[from..to]` equals `w` up to ASCII case.
fn eq_ignore_ascii_case_at(v: &Vec<char>, from: usize, to: usize, w: &Vec<char>) -> (b: bool)
    requires
        from <= to <= v.len(),
    ensures
        b == eq_ignore_ascii_case(v@.subrange(from as int, to as int), w@),
{
    if to - from != w.len() {
        return false;
    }
    let mut k: usize = 0;
    while k < w.len()
        invariant
            from <= to <= v.len(),
            to - from == w.len(),
            k <= w.len(),
            forall|m: int| 0 <= m < k ==> ascii_lower(#[trigger] v@[from + m]) == ascii_lower(w@[m]),
        decreases w.len() - k,
    {
        if to_ascii_lower(v[from + k]) != to_ascii_lower(w[k]) {
            proof {
                assert(v@.subrange(from as int, to as int)[k as int] == v@[from + k]);
            }
            return false;
        }
        k = k + 1;
    }
    proof {
        assert forall|m: int| 0 <= m < w.len() implies ascii_lower(#[trigger] v@.subrange(from as int, to as int)[m]) == ascii_lower(w@[m]) by {
            assert(v@.subrange(from as int, to as int)[m] == v@[from + m]);
        }
    }
    true
}

/// Whether `w` occurs within `v[from..to]`.
fn contains_at(v: &Vec<char>, from: usize, to: usize, w: &Vec<char>) -> (b: bool)
    requires
        from <= to <= v.len(),
    ensures
        b == contains_seq(v@.subrange(from as int, to as int), w@),
{
    let ghost h = v@.subrange(from as int, to as int);
    if w.len() > to - from {
        return false;
    }
    let last = to - w.len();
    let mut k = from;
    while k < last
        invariant
            from <= k <= last,
            last + w.len() == to,
            to <= v.len(),
            h == v@.subrange(from as int, to as int),
            forall|m: int| 0 <= m && m < k - from ==> #[trigger] h.subrange(m, m + w.len()) != w@,
        decreases last - k,
    {
        proof {
            assert(h.subrange(k - from, k - from + w.len()) =~= v@.subrange(k as int, k + w.len()));
        }
        if has_prefix_at(v, k, w) {
            return true;
        }
        k = k + 1;
    }
    proof {
        assert(h.subrange(k - from, k - from + w.len()) =~= v@.subrange(k as int, k + w.len()));
    }
    if has_prefix_at(v, k, w) {
        return true;
    }
    proof {
        assert forall|m: int| 0 <= m && m + w.len() <= h.len() implies #[trigger] h.subrange(m, m + w.len()) != w@ by {
            if m < k - from {
            } else {
                assert(m == k - from);
            }
        }
    }
    false
}

/// `r` is the title built from a full title `t` and short title `s`, as texts:
/// none without a full title; structured (the short title as main title) when
/// [`structured_subtitle`] gives a subtitle; else the full title alone.
pub open spec fn title_built(r: Option<Title>, t: Option<Seq<char>>, s: Option<Seq<char>>) -> bool {
    match t {
        None => r is None,
        Some(t) => {
            let sub = match s { Some(s) => structured_subtitle(t, s), None => None };
            match sub {
                None => r matches Some(Title::Single(x)) && x@ == t,
                Some(sub) => r matches Some(Title::Structured(st)) && {
                    &&& st.full is None
                    &&& st.main@ == s->0
                    &&& st.sub matches Subtitle::String(p) && p@ == sub
                },
            }
        },
    }
}

/// Build a title, structured when a short title is present and matches the
/// part of the full title before its first colon.
///
/// The title strings come in with their rich-text markup already in Djot form.
pub fn build_title(title: Option<String>, short_title: Option<String>) -> (r: Option<Title>)
    ensures
        match title {
            None => r is None,
            Some(t) => match short_title {
                None => r == Some(Title::Single(t)),
                Some(s) => match structured_subtitle(t@, s@) {
                    None => r == Some(Title::Single(t)),
                    Some(sub) => r matches Some(Title::Structured(st)) && {
                        &&& st.full is None
                        &&& st.main == s
                        &&& st.sub matches Subtitle::String(p) && p@ == sub
                    },
                },
            },
        },
        title_built(r, opt_view(title), opt_view(short_title)),
{
    let full = match title {
        Some(t) => t,
        None => return None,
    };
    let short = match short_title {
        Some(s) => s,
        None => return Some(Title::Single(full)),
    };
    let v = chars_of(full.as_str());
    let w = chars_of(short.as_str());
    let n = v.len();
    let mut p: usize = 0;
    while p < n && v[p] != ':'
        invariant
            n == v.len(),
            p <= n,
            forall|k: int| 0 <= k < p ==> v@[k] != ':',
        decreases n - p,
    {
        p = p + 1;
    }
    if p == n {
        proof {
            assert forall|i: int| !first_index_of(v@, ':', i) by {
                if 0 <= i < v@.len() && v@[i] == ':' {
                    assert(v@[i] != ':');
                }
            }
        }
        return Some(Title::Single(full));
    }
    proof {
        assert(first_index_of(v@, ':', p as int));
        assert forall|i: int| #[trigger] first_index_of(v@, ':', i) implies i == p by {
            if i < p {
                assert(v@[i] != ':');
            } else if i > p {
                assert(v@[p as int] == ':');
            }
        }
        assert(v@.subrange(0, p as int) =~= v@.take(p as int));
        assert(v@.subrange(p + 1, n as int) =~= v@.skip(p + 1));
    }
    let (a, b) = trim_bounds(&v, 0, p);
    if eq_ignore_ascii_case_at(&v, a, b, &w) || contains_at(&v, a, b, &w) {
        let (c, d) = trim_bounds(&v, p + 1, n);
        let post = string_from_range(&v, c, d);
        Some(Title::Structured(StructuredTitle { full: None, main: short, sub: Subtitle::String(post) }))
    } else {
        Some(Title::Single(full))
    }
}

/// Whether a legacy type records its date as a creation date rather than an
/// issue date.
pub open spec fn uses_created(ref_type: Seq<char>) -> bool {
    ref_type == "manuscript"@ || ref_type == "interview"@ || ref_type == "personal_communication"@
        || ref_type == "personal-communication"@ || ref_type == "speech"@ || ref_type == "presentation"@
}

/// The legacy types that record their date as a creation date are exactly
/// manuscripts, interviews, personal communications (in either spelling),
/// speeches and presentations: for those the converted creation date is the
/// issued date's text, and for every other type it is empty.
pub proof fn lemma_created_date_types(r: LegacyDates, t: Seq<char>, iss: Option<LegacyDate>, note: Option<Seq<char>>)
    requires
        legacy_dates_hold(r, t, iss, note),
    ensures
        uses_created(t) <==> (t == "manuscript"@ || t == "interview"@ || t == "personal_communication"@
            || t == "personal-communication"@ || t == "speech"@ || t == "presentation"@),
        (t == "manuscript"@ || t == "interview"@ || t == "personal_communication"@
            || t == "personal-communication"@ || t == "speech"@ || t == "presentation"@)
            ==> r.created.value@ == optional_date_text(iss),
        !(t == "manuscript"@ || t == "interview"@ || t == "personal_communication"@
            || t == "personal-communication"@ || t == "speech"@ || t == "presentation"@)
            ==> r.created.value@.len() == 0,
        r.created.note is None,
{
}

/// Whether a legacy type records its date as a creation date.
pub fn legacy_type_uses_created(ref_type: &str) -> (r: bool)
    ensures
        r == uses_created(ref_type@),
{
    str_eq(ref_type, "manuscript") || str_eq(ref_type, "interview") || str_eq(ref_type, "personal_communication")
        || str_eq(ref_type, "personal-communication") || str_eq(ref_type, "speech") || str_eq(ref_type, "presentation")
}

/// The audio-visual subtype of a legacy type: a motion picture is a film, a
/// song a recording, and anything else a broadcast.
pub open spec fn audio_visual_kind(ref_type: Seq<char>) -> AudioVisualType {
    if ref_type == "motion_picture"@ {
        AudioVisualType::Film
    } else if ref_type == "song"@ {
        AudioVisualType::Recording
    } else {
        AudioVisualType::Broadcast
    }
}

/// The `ref_type()` name of an audio-visual subtype.
pub open spec fn audio_visual_ref_name(kind: AudioVisualType) -> Seq<char> {
    match kind {
        AudioVisualType::Film => "motion-picture"@,
        AudioVisualType::Episode => "broadcast"@,
        AudioVisualType::Broadcast => "broadcast"@,
        AudioVisualType::Recording => "song"@,
    }
}

/// Map a legacy audio-visual type to its subtype.
pub fn audio_visual_type(ref_type: &str) -> (r: AudioVisualType)
    ensures
        r == audio_visual_kind(ref_type@),
{
    if str_eq(ref_type, "motion_picture") {
        AudioVisualType::Film
    } else if str_eq(ref_type, "song") {
        AudioVisualType::Recording
    } else {
        AudioVisualType::Broadcast
    }
}

/// The `ref_type()` name of an audio-visual subtype.
pub fn audio_visual_ref_type(kind: &AudioVisualType) -> (r: &'static str)
    ensures
        r@ == audio_visual_ref_name(*kind),
{
    match kind {
        AudioVisualType::Film => "motion-picture",
        AudioVisualType::Episode => "broadcast",
        AudioVisualType::Broadcast => "broadcast",
        AudioVisualType::Recording => "song",
    }
}

/// A legacy audio-visual work keeps its type through conversion: a motion
/// picture comes back as `motion-picture`, a song as `song`, and every other
/// type as `broadcast`.
pub proof fn lemma_audio_visual_type_round_trip(ref_type: Seq<char>)
    ensures
        audio_visual_ref_name(audio_visual_kind(ref_type)) == (if ref_type == "motion_picture"@ {
            "motion-picture"@
        } else if ref_type == "song"@ {
            "song"@
        } else {
            "broadcast"@
        }),
{
}

/// `s` with every ASCII letter lowercased (`str::to_ascii_lowercase`).
pub open spec fn ascii_lowercase(s: Seq<char>) -> Seq<char> {
    s.map_values(|c: char| ascii_lower(c))
}

/// Whether every character of `s` is an ASCII digit (true of the empty string).
pub open spec fn all_ascii_digits(s: Seq<char>) -> bool {
    forall|i: int| 0 <= i < s.len() ==> is_ascii_digit(#[trigger] s[i])
}

/// Whether `needle` occurs in `s` (`str::contains`).
pub fn str_contains(s: &str, needle: &str) -> (r: bool)
    ensures
        r == contains_seq(s@, needle@),
{
    let sv = chars_of(s);
    let nv = chars_of(needle);
    proof {
        assert(sv@.subrange(0, sv@.len() as int) =~= sv@);
    }
    contains_at(&sv, 0, sv.len(), &nv)
}

/// Whether `needle` occurs in `s` once `s` is ASCII-lowercased.
pub fn lowercase_contains(s: &str, needle: &str) -> (r: bool)
    ensures
        r == contains_seq(ascii_lowercase(s@), needle@),
{
    let sv = chars_of(s);
    let mut lower: Vec<char> = Vec::new();
    let mut i: usize = 0;
    while i < sv.len()
        invariant
            sv@ == s@,
            i <= sv.len(),
            lower@ == ascii_lowercase(sv@.take(i as int)),
        decreases sv.len() - i,
    {
        lower.push(to_ascii_lower(sv[i]));
        proof {
            assert(ascii_lowercase(sv@.take(i + 1)) =~= ascii_lowercase(sv@.take(i as int)).push(ascii_lower(sv@[i as int])));
        }
        i = i + 1;
    }
    proof {
        assert(sv@.take(sv@.len() as int) =~= sv@);
        assert(lower@.subrange(0, lower@.len() as int) =~= lower@);
    }
    let nv = chars_of(needle);
    contains_at(&lower, 0, lower.len(), &nv)
}

/// The issue text of a legacy broadcast or motion picture: a bare number of a
/// podcast (its medium mentions `podcast` in any ASCII case) gets the prefix
/// `No. `; every other issue is kept as is.
pub open spec fn broadcast_issue_text(ref_type: Seq<char>, medium: Option<Seq<char>>, number: Seq<char>) -> Seq<char> {
    if (ref_type == "broadcast"@ || ref_type == "motion_picture"@)
        && (medium matches Some(m) && contains_seq(ascii_lowercase(m), "podcast"@))
        && all_ascii_digits(number) {
        "No. "@ + number
    } else {
        number
    }
}

/// A podcast's bare issue number gets the prefix `No. `, once: the issue of
/// a broadcast or motion picture whose medium mentions a podcast (in any
/// ASCII case) and whose number is all ASCII digits is `No. ` and the
/// number, every other issue is kept, and normalising a normalised issue
/// changes nothing.
pub proof fn lemma_broadcast_issue(ref_type: Seq<char>, medium: Option<Seq<char>>, number: Seq<char>)
    ensures
        (ref_type == "broadcast"@ || ref_type == "motion_picture"@)
            && (medium matches Some(m) && contains_seq(ascii_lowercase(m), "podcast"@))
            && all_ascii_digits(number) ==> broadcast_issue_text(ref_type, medium, number) == "No. "@ + number,
        !(ref_type == "broadcast"@ || ref_type == "motion_picture"@) ==> broadcast_issue_text(ref_type, medium, number) == number,
        !(medium matches Some(m) && contains_seq(ascii_lowercase(m), "podcast"@))
            ==> broadcast_issue_text(ref_type, medium, number) == number,
        !all_ascii_digits(number) ==> broadcast_issue_text(ref_type, medium, number) == number,
        broadcast_issue_text(ref_type, medium, broadcast_issue_text(ref_type, medium, number))
            == broadcast_issue_text(ref_type, medium, number),
{
    reveal_strlit("No. ");
    let n = "No. "@ + number;
    assert(n[0] == 'N');
    assert(!is_ascii_digit(n[0]));
}

/// Normalise the issue number of a legacy broadcast or motion picture.
pub fn normalize_broadcast_issue(ref_type: &str, medium: Option<&str>, number: &str) -> (r: String)
    ensures
        r@ == broadcast_issue_text(ref_type@, match medium { Some(m) => Some(m@), None => None }, number@),
{
    let kind_matches = str_eq(ref_type, "broadcast") || str_eq(ref_type, "motion_picture");
    let podcast = match medium {
        Some(m) => lowercase_contains(m, "podcast"),
        None => false,
    };
    let nv = chars_of(number);
    let mut digits = true;
    let mut i: usize = 0;
    while i < nv.len()
        invariant
            nv@ == number@,
            i <= nv.len(),
            digits == all_ascii_digits(nv@.take(i as int)),
        decreases nv.len() - i,
    {
        let c = nv[i];
        digits = digits && '0' <= c && c <= '9';
        proof {
            if digits {
                assert forall|k: int| 0 <= k < i + 1 implies is_ascii_digit(#[trigger] nv@.take(i + 1)[k]) by {
                    if k < i {
                        assert(nv@.take(i + 1)[k] == nv@.take(i as int)[k]);
                    }
                }
            } else if !('0' <= c && c <= '9') {
                assert(nv@.take(i + 1)[i as int] == c);
            } else {
                let k = choose|k: int| 0 <= k < i && !is_ascii_digit(#[trigger] nv@.take(i as int)[k]);
                assert(nv@.take(i + 1)[k] == nv@.take(i as int)[k]);
            }
        }
        i = i + 1;
    }
    proof {
        assert(nv@.take(nv@.len() as int) =~= nv@);
    }
    if kind_matches && podcast && digits {
        let mut r = owned("No. ");
        push_str(&mut r, number);
        r
    } else {
        owned(number)
    }
}

/// The Unicode canonical composition (NFC) of a character sequence, as
/// computed by the `unicode-normalization` crate.
pub uninterp spec fn unicode_nfc(s: Seq<char>) -> Seq<char>;

/// `UnicodeNormalization::nfc` collected into a string: the NFC form of `s`.
#[verifier::external_body]
fn nfc(s: &str) -> (r: String)
    ensures
        r@ == unicode_nfc(s@),
{
    s.nfc().collect()
}

/// The identity key of one part of a contributor's name: the trimmed text in
/// NFC, or nothing when it is absent or blank.
pub open spec fn identity_part(value: Option<Seq<char>>) -> Option<Seq<char>> {
    match value {
        Some(v) => if trim(v).len() > 0 { Some(unicode_nfc(trim(v))) } else { None },
        None => None,
    }
}

/// Normalise one part of a contributor's name for identity comparison.
pub fn normalized_identity_part(value: Option<&str>) -> (r: Option<String>)
    ensures
        r matches Some(s) ==> identity_part(match value { Some(v) => Some(v@), None => None }) == Some(s@),
        r is None ==> identity_part(match value { Some(v) => Some(v@), None => None }) is None,
{
    let v = match value {
        Some(v) => v,
        None => return None,
    };
    let t = trimmed(v);
    if chars_of(t.as_str()).len() == 0 {
        None
    } else {
        Some(nfc(t.as_str()))
    }
}

/// One row of the CSL 1.0.2 to Citum `ref_type()` conversion contract.
#[derive(Debug, Clone, Copy)]
pub struct CslTypeMapping {
    /// The CSL 1.0.2 item type (or accepted extension spelling).
    pub csl_type: &'static str,
    /// The `ref_type()` this type round-trips to, for a minimal reference of
    /// that type (an id, the type, a title, and an issued year).
    pub citum_ref_type: &'static str,
    /// Rationale for divergences from the identity mapping; `None` when the
    /// mapping is unremarkable.
    pub note: Option<&'static str>,
}

/// The `(csl_type, citum_ref_type)` pairs of the conversion contract, in order.
pub open spec fn csl_type_pairs() -> Seq<(Seq<char>, Seq<char>)> {
    seq![
        ("article"@, "preprint"@),
        ("article-journal"@, "article-journal"@),
        ("article-magazine"@, "article-magazine"@),
        ("article-newspaper"@, "article-newspaper"@),
        ("bill"@, "document"@),
        ("book"@, "book"@),
        ("broadcast"@, "broadcast"@),
        ("chapter"@, "chapter"@),
        ("classic"@, "classic"@),
        ("collection"@, "collection"@),
        ("dataset"@, "dataset"@),
        ("document"@, "document"@),
        ("entry"@, "entry"@),
        ("entry-dictionary"@, "entry-dictionary"@),
        ("entry-encyclopedia"@, "entry-encyclopedia"@),
        ("event"@, "event"@),
        ("figure"@, "figure"@),
        ("graphic"@, "graphic"@),
        ("hearing"@, "hearing"@),
        ("interview"@, "interview"@),
        ("legal_case"@, "legal-case"@),
        ("legislation"@, "statute"@),
        ("manuscript"@, "manuscript"@),
        ("map"@, "map"@),
        ("motion_picture"@, "motion-picture"@),
        ("musical_score"@, "musical-score"@),
        ("pamphlet"@, "pamphlet"@),
        ("paper-conference"@, "paper-conference"@),
        ("patent"@, "patent"@),
        ("performance"@, "performance"@),
        ("periodical"@, "periodical"@),
        ("personal_communication"@, "personal-communication"@),
        ("post"@, "post"@),
        ("post-weblog"@, "post-weblog"@),
        ("regulation"@, "regulation"@),
        ("report"@, "report"@),
        ("review"@, "review"@),
        ("review-book"@, "review-book"@),
        ("software"@, "software"@),
        ("song"@, "song"@),
        ("speech"@, "speech"@),
        ("standard"@, "standard"@),
        ("thesis"@, "thesis"@),
        ("treaty"@, "treaty"@),
        ("webpage"@, "webpage"@)
    ]
}

/// Which rows of the conversion contract carry a note.
pub open spec fn csl_type_noted() -> Seq<bool> {
    seq![
        true,
        false,
        false,
        false,
        true,
        false,
        false,
        false,
        false,
        false,
        false,
        false,
        false,
        false,
        false,
        false,
        false,
        false,
        false,
        false,
        true,
        true,
        false,
        false,
        true,
        true,
        false,
        false,
        false,
        false,
        false,
        true,
        false,
        false,
        false,
        false,
        false,
        false,
        false,
        false,
        false,
        false,
        false,
        false,
        false
    ]
}

/// The expected `ref_type()` for every CSL 1.0.2 type. Most entries are the
/// identity mapping; the ones that are not carry a note saying why.
pub fn csl_type_map() -> (r: Vec<CslTypeMapping>)
    ensures
        r@.map_values(|m: CslTypeMapping| (m.csl_type@, m.citum_ref_type@)) == csl_type_pairs(),
        r@.map_values(|m: CslTypeMapping| m.note is Some) == csl_type_noted(),
{
    let mut r: Vec<CslTypeMapping> = Vec::new();
    r.push(CslTypeMapping { csl_type: "article", citum_ref_type: "preprint", note: Some("Bare `article` carries no container-title, so the converter treats it as a standalone preprint rather than a truncated journal article — this mirrors real-world CSL-JSON exports where a container-less `article` is an arXiv/SSRN-style preprint.") });
    r.push(CslTypeMapping { csl_type: "article-journal", citum_ref_type: "article-journal", note: None });
    r.push(CslTypeMapping { csl_type: "article-magazine", citum_ref_type: "article-magazine", note: None });
    r.push(CslTypeMapping { csl_type: "article-newspaper", citum_ref_type: "article-newspaper", note: None });
    r.push(CslTypeMapping { csl_type: "bill", citum_ref_type: "document", note: Some("A minimal `bill` (no `authority`, `chapter-number`, or `container-title`/`volume`/`page` combination) carries none of the shape signals the bill converter uses to distinguish a hearing, bill-proceeding, or bill-record from a generic government document.") });
    r.push(CslTypeMapping { csl_type: "book", citum_ref_type: "book", note: None });
    r.push(CslTypeMapping { csl_type: "broadcast", citum_ref_type: "broadcast", note: None });
    r.push(CslTypeMapping { csl_type: "chapter", citum_ref_type: "chapter", note: None });
    r.push(CslTypeMapping { csl_type: "classic", citum_ref_type: "classic", note: None });
    r.push(CslTypeMapping { csl_type: "collection", citum_ref_type: "collection", note: None });
    r.push(CslTypeMapping { csl_type: "dataset", citum_ref_type: "dataset", note: None });
    r.push(CslTypeMapping { csl_type: "document", citum_ref_type: "document", note: None });
    r.push(CslTypeMapping { csl_type: "entry", citum_ref_type: "entry", note: None });
    r.push(CslTypeMapping { csl_type: "entry-dictionary", citum_ref_type: "entry-dictionary", note: None });
    r.push(CslTypeMapping { csl_type: "entry-encyclopedia", citum_ref_type: "entry-encyclopedia", note: None });
    r.push(CslTypeMapping { csl_type: "event", citum_ref_type: "event", note: None });
    r.push(CslTypeMapping { csl_type: "figure", citum_ref_type: "figure", note: None });
    r.push(CslTypeMapping { csl_type: "graphic", citum_ref_type: "graphic", note: None });
    r.push(CslTypeMapping { csl_type: "hearing", citum_ref_type: "hearing", note: None });
    r.push(CslTypeMapping { csl_type: "interview", citum_ref_type: "interview", note: None });
    r.push(CslTypeMapping { csl_type: "legal_case", citum_ref_type: "legal-case", note: Some("The CSL 1.0.2 spelling uses an underscore; it canonicalizes to the hyphenated `legal-case` on output, matching the convention of canonicalizing underscore CSL spellings to hyphens (see also `motion_picture`, `musical_score`, `personal_communication`).") });
    r.push(CslTypeMapping { csl_type: "legislation", citum_ref_type: "statute", note: Some("`legislation` is the CSL 1.0.2 closed-vocabulary type; it routes to the same converter as the `statute` extension spelling and shares its canonical output.") });
    r.push(CslTypeMapping { csl_type: "manuscript", citum_ref_type: "manuscript", note: None });
    r.push(CslTypeMapping { csl_type: "map", citum_ref_type: "map", note: None });
    r.push(CslTypeMapping { csl_type: "motion_picture", citum_ref_type: "motion-picture", note: Some("Underscore CSL spelling canonicalizes to hyphenated output; see `legal_case`.") });
    r.push(CslTypeMapping { csl_type: "musical_score", citum_ref_type: "musical-score", note: Some("Underscore CSL spelling canonicalizes to hyphenated output; see `legal_case`.") });
    r.push(CslTypeMapping { csl_type: "pamphlet", citum_ref_type: "pamphlet", note: None });
    r.push(CslTypeMapping { csl_type: "paper-conference", citum_ref_type: "paper-conference", note: None });
    r.push(CslTypeMapping { csl_type: "patent", citum_ref_type: "patent", note: None });
    r.push(CslTypeMapping { csl_type: "performance", citum_ref_type: "performance", note: None });
    r.push(CslTypeMapping { csl_type: "periodical", citum_ref_type: "periodical", note: None });
    r.push(CslTypeMapping { csl_type: "personal_communication", citum_ref_type: "personal-communication", note: Some("Underscore CSL spelling canonicalizes to hyphenated output; see `legal_case`.") });
    r.push(CslTypeMapping { csl_type: "post", citum_ref_type: "post", note: None });
    r.push(CslTypeMapping { csl_type: "post-weblog", citum_ref_type: "post-weblog", note: None });
    r.push(CslTypeMapping { csl_type: "regulation", citum_ref_type: "regulation", note: None });
    r.push(CslTypeMapping { csl_type: "report", citum_ref_type: "report", note: None });
    r.push(CslTypeMapping { csl_type: "review", citum_ref_type: "review", note: None });
    r.push(CslTypeMapping { csl_type: "review-book", citum_ref_type: "review-book", note: None });
    r.push(CslTypeMapping { csl_type: "software", citum_ref_type: "software", note: None });
    r.push(CslTypeMapping { csl_type: "song", citum_ref_type: "song", note: None });
    r.push(CslTypeMapping { csl_type: "speech", citum_ref_type: "speech", note: None });
    r.push(CslTypeMapping { csl_type: "standard", citum_ref_type: "standard", note: None });
    r.push(CslTypeMapping { csl_type: "thesis", citum_ref_type: "thesis", note: None });
    r.push(CslTypeMapping { csl_type: "treaty", citum_ref_type: "treaty", note: None });
    r.push(CslTypeMapping { csl_type: "webpage", citum_ref_type: "webpage", note: None });
    proof {
        assert(r@.map_values(|m: CslTypeMapping| (m.csl_type@, m.citum_ref_type@)) =~= csl_type_pairs());
        assert(r@.map_values(|m: CslTypeMapping| m.note is Some) =~= csl_type_noted());
    }
    r
}

/// Every row of the conversion contract without a note is the identity mapping.
pub proof fn lemma_unnoted_rows_are_identity()
    ensures
        csl_type_pairs().len() == csl_type_noted().len(),
        forall|i: int| 0 <= i < csl_type_pairs().len() && !#[trigger] csl_type_noted()[i]
            ==> csl_type_pairs()[i].0 == csl_type_pairs()[i].1,
{
}

/// Which converter builds a reference from a legacy CSL-JSON record.
#[derive(Debug, Clone, Copy, PartialEq, Eq, Structural)]
pub enum LegacyConverter {
    /// Software.
    Software,
    /// A monograph.
    Monograph,
    /// A component of a monographic collection.
    CollectionComponent,
    /// A component of a serial.
    SerialComponent,
    /// A standalone preprint.
    Preprint,
    /// An audio-visual work.
    AudioVisual,
    /// An event.
    Event,
    /// A bill.
    Bill,
    /// A hearing.
    Hearing,
    /// A legal case.
    LegalCase,
    /// A statute.
    Statute,
    /// A regulation.
    Regulation,
    /// A treaty.
    Treaty,
    /// A standard.
    Standard,
    /// A patent.
    Patent,
    /// A dataset.
    Dataset,
    /// A generic or archival document.
    Document,
}

/// The converter for a legacy type. A report with pages and an editor or a
/// container title is a component of a collection; an `article` without a
/// container title is a preprint; every type without a route of its own is a
/// document.
pub open spec fn legacy_route(ref_type: Seq<char>, has_page: bool, has_editor: bool, has_container_title: bool) -> LegacyConverter {
    let t = ref_type;
    if t == "software"@ {
        LegacyConverter::Software
    } else if t == "book"@ || t == "thesis"@ || t == "manual"@ || t == "manuscript"@ || t == "classic"@
        || t == "webpage"@ || t == "post"@ || t == "post-weblog"@ || t == "interview"@
        || t == "personal_communication"@ || t == "personal-communication"@ || t == "musical_score"@
        || t == "pamphlet"@ {
        LegacyConverter::Monograph
    } else if t == "report"@ {
        if has_page && (has_editor || has_container_title) {
            LegacyConverter::CollectionComponent
        } else {
            LegacyConverter::Monograph
        }
    } else if t == "chapter"@ || t == "paper-conference"@ || t == "entry"@ || t == "entry-dictionary"@
        || t == "entry-encyclopedia"@ {
        LegacyConverter::CollectionComponent
    } else if t == "article-journal"@ || t == "article-magazine"@ || t == "article-newspaper"@
        || t == "review"@ || t == "review-book"@ {
        LegacyConverter::SerialComponent
    } else if t == "article"@ {
        if has_container_title { LegacyConverter::SerialComponent } else { LegacyConverter::Preprint }
    } else if t == "motion_picture"@ || t == "song"@ {
        LegacyConverter::AudioVisual
    } else if t == "broadcast"@ {
        LegacyConverter::SerialComponent
    } else if t == "speech"@ || t == "presentation"@ || t == "performance"@ || t == "event"@ {
        LegacyConverter::Event
    } else if t == "bill"@ {
        LegacyConverter::Bill
    } else if t == "hearing"@ {
        LegacyConverter::Hearing
    } else if t == "legal-case"@ || t == "legal_case"@ {
        LegacyConverter::LegalCase
    } else if t == "statute"@ || t == "legislation"@ {
        LegacyConverter::Statute
    } else if t == "regulation"@ {
        LegacyConverter::Regulation
    } else if t == "treaty"@ {
        LegacyConverter::Treaty
    } else if t == "standard"@ {
        LegacyConverter::Standard
    } else if t == "patent"@ {
        LegacyConverter::Patent
    } else if t == "dataset"@ {
        LegacyConverter::Dataset
    } else {
        LegacyConverter::Document
    }
}

/// The converter of each legacy type: software; monographs (books, theses,
/// manuals, manuscripts, classics, web pages, posts, blog posts, interviews,
/// personal communications, musical scores, pamphlets); reports, which are
/// components of a collection when they have pages and an editor or a
/// container title; collection components (chapters, conference papers,
/// entries); serial components (articles, reviews, broadcasts); an `article`,
/// which is a preprint without a container title; audio-visual works (motion
/// pictures, songs); events (speeches, presentations, performances, events);
/// the legal classes, standards, patents and datasets; and a document for
/// every other type.
pub proof fn lemma_legacy_routes(t: Seq<char>, has_page: bool, has_editor: bool, has_container_title: bool)
    ensures
        t == "software"@
            ==> legacy_route(t, has_page, has_editor, has_container_title) == LegacyConverter::Software,
        (t == "book"@ || t == "thesis"@ || t == "manual"@ || t == "manuscript"@ || t == "classic"@ || t == "webpage"@ || t == "post"@ || t == "post-weblog"@ || t == "interview"@ || t == "personal_communication"@ || t == "personal-communication"@ || t == "musical_score"@ || t == "pamphlet"@)
            ==> legacy_route(t, has_page, has_editor, has_container_title) == LegacyConverter::Monograph,
        t == "report"@ ==> legacy_route(t, has_page, has_editor, has_container_title) == (if has_page && (has_editor || has_container_title) {
            LegacyConverter::CollectionComponent } else { LegacyConverter::Monograph }),
        (t == "chapter"@ || t == "paper-conference"@ || t == "entry"@ || t == "entry-dictionary"@ || t == "entry-encyclopedia"@)
            ==> legacy_route(t, has_page, has_editor, has_container_title) == LegacyConverter::CollectionComponent,
        (t == "article-journal"@ || t == "article-magazine"@ || t == "article-newspaper"@ || t == "review"@ || t == "review-book"@ || t == "broadcast"@)
            ==> legacy_route(t, has_page, has_editor, has_container_title) == LegacyConverter::SerialComponent,
        (t == "motion_picture"@ || t == "song"@)
            ==> legacy_route(t, has_page, has_editor, has_container_title) == LegacyConverter::AudioVisual,
        (t == "speech"@ || t == "presentation"@ || t == "performance"@ || t == "event"@)
            ==> legacy_route(t, has_page, has_editor, has_container_title) == LegacyConverter::Event,
        t == "bill"@
            ==> legacy_route(t, has_page, has_editor, has_container_title) == LegacyConverter::Bill,
        t == "hearing"@
            ==> legacy_route(t, has_page, has_editor, has_container_title) == LegacyConverter::Hearing,
        (t == "legal-case"@ || t == "legal_case"@)
            ==> legacy_route(t, has_page, has_editor, has_container_title) == LegacyConverter::LegalCase,
        (t == "statute"@ || t == "legislation"@)
            ==> legacy_route(t, has_page, has_editor, has_container_title) == LegacyConverter::Statute,
        t == "regulation"@
            ==> legacy_route(t, has_page, has_editor, has_container_title) == LegacyConverter::Regulation,
        t == "treaty"@
            ==> legacy_route(t, has_page, has_editor, has_container_title) == LegacyConverter::Treaty,
        t == "standard"@
            ==> legacy_route(t, has_page, has_editor, has_container_title) == LegacyConverter::Standard,
        t == "patent"@
            ==> legacy_route(t, has_page, has_editor, has_container_title) == LegacyConverter::Patent,
        t == "dataset"@
            ==> legacy_route(t, has_page, has_editor, has_container_title) == LegacyConverter::Dataset,
        t == "article"@ ==> legacy_route(t, has_page, has_editor, has_container_title)
            == (if has_container_title { LegacyConverter::SerialComponent } else { LegacyConverter::Preprint }),
        t != "software"@ && t != "book"@ && t != "thesis"@ && t != "manual"@ && t != "manuscript"@ &&
            t != "classic"@ && t != "webpage"@ && t != "post"@ && t != "post-weblog"@ && t != "interview"@ &&
            t != "personal_communication"@ && t != "personal-communication"@ && t != "musical_score"@ &&
            t != "pamphlet"@ && t != "chapter"@ && t != "paper-conference"@ && t != "entry"@ &&
            t != "entry-dictionary"@ && t != "entry-encyclopedia"@ && t != "article-journal"@ &&
            t != "article-magazine"@ && t != "article-newspaper"@ && t != "review"@ && t != "review-book"@ &&
            t != "broadcast"@ && t != "motion_picture"@ && t != "song"@ && t != "speech"@ &&
            t != "presentation"@ && t != "performance"@ && t != "event"@ && t != "bill"@ &&
            t != "hearing"@ && t != "legal-case"@ && t != "legal_case"@ && t != "statute"@ &&
            t != "legislation"@ && t != "regulation"@ && t != "treaty"@ && t != "standard"@ &&
            t != "patent"@ && t != "dataset"@ && t != "report"@ && t != "article"@
            ==> legacy_route(t, has_page, has_editor, has_container_title) == LegacyConverter::Document,
{
    reveal_strlit("software");
    reveal_strlit("book");
    reveal_strlit("thesis");
    reveal_strlit("manual");
    reveal_strlit("manuscript");
    reveal_strlit("classic");
    reveal_strlit("webpage");
    reveal_strlit("post");
    reveal_strlit("post-weblog");
    reveal_strlit("interview");
    reveal_strlit("personal_communication");
    reveal_strlit("personal-communication");
    reveal_strlit("musical_score");
    reveal_strlit("pamphlet");
    reveal_strlit("chapter");
    reveal_strlit("paper-conference");
    reveal_strlit("entry");
    reveal_strlit("entry-dictionary");
    reveal_strlit("entry-encyclopedia");
    reveal_strlit("article-journal");
    reveal_strlit("article-magazine");
    reveal_strlit("article-newspaper");
    reveal_strlit("review");
    reveal_strlit("review-book");
    reveal_strlit("broadcast");
    reveal_strlit("motion_picture");
    reveal_strlit("song");
    reveal_strlit("speech");
    reveal_strlit("presentation");
    reveal_strlit("performance");
    reveal_strlit("event");
    reveal_strlit("bill");
    reveal_strlit("hearing");
    reveal_strlit("legal-case");
    reveal_strlit("legal_case");
    reveal_strlit("statute");
    reveal_strlit("legislation");
    reveal_strlit("regulation");
    reveal_strlit("treaty");
    reveal_strlit("standard");
    reveal_strlit("patent");
    reveal_strlit("dataset");
    reveal_strlit("report");
    reveal_strlit("article");
    assert("software"@[0] != "pamphlet"@[0]);
    assert("software"@[1] != "standard"@[1]);
    assert("book"@[0] != "post"@[0]);
    assert("book"@[0] != "song"@[0]);
    assert("book"@[1] != "bill"@[1]);
    assert("thesis"@[0] != "manual"@[0]);
    assert("thesis"@[0] != "review"@[0]);
    assert("thesis"@[0] != "speech"@[0]);
    assert("thesis"@[1] != "treaty"@[1]);
    assert("thesis"@[0] != "patent"@[0]);
    assert("thesis"@[0] != "report"@[0]);
    assert("manual"@[0] != "review"@[0]);
    assert("manual"@[0] != "speech"@[0]);
    assert("manual"@[0] != "treaty"@[0]);
    assert("manual"@[0] != "patent"@[0]);
    assert("manual"@[0] != "report"@[0]);
    assert("manuscript"@[0] != "legal-case"@[0]);
    assert("manuscript"@[0] != "legal_case"@[0]);
    assert("manuscript"@[0] != "regulation"@[0]);
    assert("classic"@[0] != "webpage"@[0]);
    assert("classic"@[1] != "chapter"@[1]);
    assert("classic"@[0] != "hearing"@[0]);
    assert("classic"@[0] != "statute"@[0]);
    assert("classic"@[0] != "dataset"@[0]);
    assert("classic"@[0] != "article"@[0]);
    assert("webpage"@[0] != "chapter"@[0]);
    assert("webpage"@[0] != "hearing"@[0]);
    assert("webpage"@[0] != "statute"@[0]);
    assert("webpage"@[0] != "dataset"@[0]);
    assert("webpage"@[0] != "article"@[0]);
    assert("post"@[0] != "song"@[0]);
    assert("post"@[0] != "bill"@[0]);
    assert("post-weblog"@[0] != "review-book"@[0]);
    assert("post-weblog"@[1] != "performance"@[1]);
    assert("post-weblog"@[0] != "legislation"@[0]);
    assert("interview"@[0] != "broadcast"@[0]);
    assert("personal_communication"@[8] != "personal-communication"@[8]);
    assert("pamphlet"@[0] != "standard"@[0]);
    assert("chapter"@[0] != "hearing"@[0]);
    assert("chapter"@[0] != "statute"@[0]);
    assert("chapter"@[0] != "dataset"@[0]);
    assert("chapter"@[0] != "article"@[0]);
    assert("paper-conference"@[0] != "entry-dictionary"@[0]);
    assert("paper-conference"@[0] != "article-magazine"@[0]);
    assert("entry"@[1] != "event"@[1]);
    assert("entry-dictionary"@[0] != "article-magazine"@[0]);
    assert("review"@[0] != "speech"@[0]);
    assert("review"@[0] != "treaty"@[0]);
    assert("review"@[0] != "patent"@[0]);
    assert("review"@[2] != "report"@[2]);
    assert("review-book"@[0] != "performance"@[0]);
    assert("review-book"@[0] != "legislation"@[0]);
    assert("song"@[0] != "bill"@[0]);
    assert("speech"@[0] != "treaty"@[0]);
    assert("speech"@[0] != "patent"@[0]);
    assert("speech"@[0] != "report"@[0]);
    assert("performance"@[0] != "legislation"@[0]);
    assert("hearing"@[0] != "statute"@[0]);
    assert("hearing"@[0] != "dataset"@[0]);
    assert("hearing"@[0] != "article"@[0]);
    assert("legal-case"@[5] != "legal_case"@[5]);
    assert("legal-case"@[0] != "regulation"@[0]);
    assert("legal_case"@[0] != "regulation"@[0]);
    assert("statute"@[0] != "dataset"@[0]);
    assert("statute"@[0] != "article"@[0]);
    assert("treaty"@[0] != "patent"@[0]);
    assert("treaty"@[0] != "report"@[0]);
    assert("patent"@[0] != "report"@[0]);
    assert("dataset"@[0] != "article"@[0]);
    assert("software"@.len() == 8);
    assert("book"@.len() == 4);
    assert("thesis"@.len() == 6);
    assert("manual"@.len() == 6);
    assert("manuscript"@.len() == 10);
    assert("classic"@.len() == 7);
    assert("webpage"@.len() == 7);
    assert("post"@.len() == 4);
    assert("post-weblog"@.len() == 11);
    assert("interview"@.len() == 9);
    assert("personal_communication"@.len() == 22);
    assert("personal-communication"@.len() == 22);
    assert("musical_score"@.len() == 13);
    assert("pamphlet"@.len() == 8);
    assert("chapter"@.len() == 7);
    assert("paper-conference"@.len() == 16);
    assert("entry"@.len() == 5);
    assert("entry-dictionary"@.len() == 16);
    assert("entry-encyclopedia"@.len() == 18);
    assert("article-journal"@.len() == 15);
    assert("article-magazine"@.len() == 16);
    assert("article-newspaper"@.len() == 17);
    assert("review"@.len() == 6);
    assert("review-book"@.len() == 11);
    assert("broadcast"@.len() == 9);
    assert("motion_picture"@.len() == 14);
    assert("song"@.len() == 4);
    assert("speech"@.len() == 6);
    assert("presentation"@.len() == 12);
    assert("performance"@.len() == 11);
    assert("event"@.len() == 5);
    assert("bill"@.len() == 4);
    assert("hearing"@.len() == 7);
    assert("legal-case"@.len() == 10);
    assert("legal_case"@.len() == 10);
    assert("statute"@.len() == 7);
    assert("legislation"@.len() == 11);
    assert("regulation"@.len() == 10);
    assert("treaty"@.len() == 6);
    assert("standard"@.len() == 8);
    assert("patent"@.len() == 6);
    assert("dataset"@.len() == 7);
    assert("report"@.len() == 6);
    assert("article"@.len() == 7);
}

/// Choose the converter for a legacy record from its type and whether it has
/// pages, an editor, and a container title.
pub fn legacy_converter(ref_type: &str, has_page: bool, has_editor: bool, has_container_title: bool) -> (r: LegacyConverter)
    ensures
        r == legacy_route(ref_type@, has_page, has_editor, has_container_title),
{
    let t = ref_type;
    if str_eq(t, "software") {
        LegacyConverter::Software
    } else if str_eq(t, "book") || str_eq(t, "thesis") || str_eq(t, "manual") || str_eq(t, "manuscript")
        || str_eq(t, "classic") || str_eq(t, "webpage") || str_eq(t, "post") || str_eq(t, "post-weblog")
        || str_eq(t, "interview") || str_eq(t, "personal_communication")
        || str_eq(t, "personal-communication") || str_eq(t, "musical_score") || str_eq(t, "pamphlet") {
        LegacyConverter::Monograph
    } else if str_eq(t, "report") {
        if has_page && (has_editor || has_container_title) {
            LegacyConverter::CollectionComponent
        } else {
            LegacyConverter::Monograph
        }
    } else if str_eq(t, "chapter") || str_eq(t, "paper-conference") || str_eq(t, "entry")
        || str_eq(t, "entry-dictionary") || str_eq(t, "entry-encyclopedia") {
        LegacyConverter::CollectionComponent
    } else if str_eq(t, "article-journal") || str_eq(t, "article-magazine") || str_eq(t, "article-newspaper")
        || str_eq(t, "review") || str_eq(t, "review-book") {
        LegacyConverter::SerialComponent
    } else if str_eq(t, "article") {
        if has_container_title { LegacyConverter::SerialComponent } else { LegacyConverter::Preprint }
    } else if str_eq(t, "motion_picture") || str_eq(t, "song") {
        LegacyConverter::AudioVisual
    } else if str_eq(t, "broadcast") {
        LegacyConverter::SerialComponent
    } else if str_eq(t, "speech") || str_eq(t, "presentation") || str_eq(t, "performance") || str_eq(t, "event") {
        LegacyConverter::Event
    } else if str_eq(t, "bill") {
        LegacyConverter::Bill
    } else if str_eq(t, "hearing") {
        LegacyConverter::Hearing
    } else if str_eq(t, "legal-case") || str_eq(t, "legal_case") {
        LegacyConverter::LegalCase
    } else if str_eq(t, "statute") || str_eq(t, "legislation") {
        LegacyConverter::Statute
    } else if str_eq(t, "regulation") {
        LegacyConverter::Regulation
    } else if str_eq(t, "treaty") {
        LegacyConverter::Treaty
    } else if str_eq(t, "standard") {
        LegacyConverter::Standard
    } else if str_eq(t, "patent") {
        LegacyConverter::Patent
    } else if str_eq(t, "dataset") {
        LegacyConverter::Dataset
    } else {
        LegacyConverter::Document
    }
}

/// The dates of a converted legacy record.
#[derive(Debug, Clone)]
pub struct LegacyDates {
    /// Creation date (empty unless the type records one).
    pub created: DateValue,
    /// Publication date (empty when a copyright or printing year stands in for it).
    pub issued: DateValue,
    /// GB/T copyright year, from a `c<year>` issued literal.
    pub copyright: Option<DateValue>,
    /// GB/T printing year, from a `<year>印刷` note override.
    pub printing: Option<DateValue>,
}

/// The EDTF value of an optional legacy date; empty when absent.
pub open spec fn optional_date_text(date: Option<LegacyDate>) -> Seq<char> {
    match date {
        Some(d) => legacy_date_text(d),
        None => Seq::empty(),
    }
}

/// The literal of an optional legacy date.
pub open spec fn issued_literal_of(date: Option<LegacyDate>) -> Option<Seq<char>> {
    match date {
        Some(d) => match d.literal {
            Some(l) => Some(l@),
            None => None,
        },
        None => None,
    }
}

/// The value the converted record's `issued` date has: empty when a copyright
/// or printing year stands in; else the estimated year with `~`; else the
/// annotated year; else the legacy issued date.
pub open spec fn issued_text(issued: Option<LegacyDate>, note: Option<Seq<char>>) -> Seq<char> {
    let copyright = match issued_literal_of(issued) { Some(l) => copyright_year_text(l), None => None };
    let printing = match note { Some(n) => printing_year_text(n), None => None };
    let estimated = match note { Some(n) => estimated_year_text(n), None => None };
    let annotated = match note { Some(n) => annotated_year_text(n), None => None };
    if copyright is Some || printing is Some {
        Seq::empty()
    } else if estimated is Some {
        estimated->0.push('~')
    } else if let Some((year, _)) = annotated {
        year
    } else {
        optional_date_text(issued)
    }
}

/// Whether an optional legacy date can be rendered.
pub open spec fn optional_date_renderable(date: Option<LegacyDate>) -> bool {
    date matches Some(d) ==> legacy_date_renderable(d)
}

/// `r` holds the dates of a legacy record of type `ref_type` with issued date
/// `iss` and `issued` note override `note`: the creation date (the issued date
/// for a type that records one), the publication date (see [`issued_text`]),
/// and the GB/T copyright and printing years, each without a note.
pub open spec fn legacy_dates_hold(r: LegacyDates, ref_type: Seq<char>, iss: Option<LegacyDate>, note: Option<Seq<char>>) -> bool {
    let copyright = match issued_literal_of(iss) { Some(l) => copyright_year_text(l), None => None };
    let printing = match note { Some(n) => printing_year_text(n), None => None };
    &&& r.created.value@ == (if uses_created(ref_type) { optional_date_text(iss) } else { Seq::empty() })
    &&& r.created.note is None
    &&& r.issued.value@ == issued_text(iss, note)
    &&& (r.issued.note is Some) == (issued_text_note(iss, note) is Some)
    &&& (r.issued.note is Some ==> r.issued.note->0@ == issued_text_note(iss, note)->0)
    &&& (r.copyright is Some) == (copyright is Some)
    &&& (r.copyright matches Some(c) ==> c.value@ == copyright->0 && c.note is None)
    &&& (r.printing is Some) == (printing is Some)
    &&& (r.printing matches Some(p) ==> p.value@ == printing->0 && p.note is None)
}

/// The dates of a legacy record of type `ref_type`, from its issued date and
/// its `issued` note override: the creation date, the publication date, and the
/// GB/T copyright and printing years that stand in for a publication date.
pub fn legacy_dates(ref_type: &str, issued: Option<&LegacyDate>, note_literal: Option<&str>) -> (r: LegacyDates)
    requires
        optional_date_renderable(match issued { Some(d) => Some(*d), None => None }),
    ensures
        legacy_dates_hold(
            r,
            ref_type@,
            match issued { Some(d) => Some(*d), None => None },
            match note_literal { Some(n) => Some(n@), None => None },
        ),
{
    let literal: Option<&str> = match issued {
        Some(d) => match &d.literal {
            Some(l) => Some(l.as_str()),
            None => None,
        },
        None => None,
    };
    let copyright = copyright_year_from_legacy(literal);
    let printing = printing_year_from_legacy(note_literal);
    let estimated = estimated_issued_from_legacy(note_literal);
    let annotated = annotated_issued_from_legacy(note_literal);
    let created = if legacy_type_uses_created(ref_type) {
        match issued {
            Some(d) => DateValue::from_legacy(d),
            None => DateValue { value: String::new(), note: None },
        }
    } else {
        DateValue { value: String::new(), note: None }
    };
    let issued_date = if copyright.is_some() || printing.is_some() {
        DateValue { value: String::new(), note: None }
    } else if let Some(e) = estimated {
        e
    } else if let Some(a) = annotated {
        a
    } else {
        match issued {
            Some(d) => DateValue::from_legacy(d),
            None => DateValue { value: String::new(), note: None },
        }
    };
    LegacyDates { created, issued: issued_date, copyright, printing }
}

/// The note the converted record's `issued` date carries: the annotation of an
/// annotated year, when that is what `issued` holds.
pub open spec fn issued_text_note(issued: Option<LegacyDate>, note: Option<Seq<char>>) -> Option<Seq<char>> {
    let copyright = match issued_literal_of(issued) { Some(l) => copyright_year_text(l), None => None };
    let printing = match note { Some(n) => printing_year_text(n), None => None };
    let estimated = match note { Some(n) => estimated_year_text(n), None => None };
    let annotated = match note { Some(n) => annotated_year_text(n), None => None };
    if copyright is None && printing is None && estimated is None {
        match annotated {
            Some((_, text)) => Some(text),
            None => None,
        }
    } else {
        None
    }
}

/// The parts of a contributor's (first) name that identify it.
#[derive(Debug, Clone)]
pub struct NameParts {
    /// A literal name, used whole.
    pub literal: Option<String>,
    /// Given name.
    pub given: Option<String>,
    /// Family name.
    pub family: Option<String>,
    /// Name suffix.
    pub suffix: Option<String>,
    /// Dropping particle.
    pub dropping_particle: Option<String>,
    /// Non-dropping particle.
    pub non_dropping_particle: Option<String>,
}

/// How a legacy contributor is recognised again: by its literal name, or by
/// its structured name parts.
#[derive(Debug, Clone, PartialEq, Eq)]
pub enum LegacyContributorIdentity {
    /// Given, family, suffix, dropping and non-dropping particle, each
    /// normalised (empty when absent).
    Structured(Vec<String>),
    /// The normalised literal name.
    Literal(String),
}

/// An identity as plain values: whether it is literal, and its parts.
pub open spec fn identity_view(i: LegacyContributorIdentity) -> (bool, Seq<Seq<char>>) {
    match i {
        LegacyContributorIdentity::Literal(s) => (true, seq![s@]),
        LegacyContributorIdentity::Structured(v) => (false, v@.map_values(|x: String| x@)),
    }
}

/// The optional text of an optional string.
pub open spec fn opt_view(s: Option<String>) -> Option<Seq<char>> {
    match s {
        Some(t) => Some(t@),
        None => None,
    }
}

/// A normalised name part, or empty when absent or blank.
pub open spec fn part_or_empty(s: Option<String>) -> Seq<char> {
    match identity_part(opt_view(s)) {
        Some(p) => p,
        None => Seq::empty(),
    }
}

/// The identity of a name: its normalised literal when it has a non-blank
/// one; else its five normalised structured parts, when any is non-empty.
pub open spec fn name_identity(n: NameParts) -> Option<(bool, Seq<Seq<char>>)> {
    match identity_part(opt_view(n.literal)) {
        Some(l) => Some((true, seq![l])),
        None => {
            let parts = seq![
                part_or_empty(n.given),
                part_or_empty(n.family),
                part_or_empty(n.suffix),
                part_or_empty(n.dropping_particle),
                part_or_empty(n.non_dropping_particle)
            ];
            if exists|i: int| 0 <= i < 5 && #[trigger] parts[i].len() > 0 {
                Some((false, parts))
            } else {
                None
            }
        },
    }
}

/// One normalised name part, empty when absent or blank.
fn part_key(s: &Option<String>) -> (r: String)
    ensures
        r@ == part_or_empty(*s),
{
    let v = match s {
        Some(t) => Some(t.as_str()),
        None => None,
    };
    match normalized_identity_part(v) {
        Some(p) => p,
        None => String::new(),
    }
}

/// The identity of a contributor's first name, if it has one; `None` for a
/// contributor without names.
pub fn legacy_contributor_identity(name: Option<&NameParts>) -> (r: Option<LegacyContributorIdentity>)
    ensures
        match name {
            None => r is None,
            Some(n) => match name_identity(*n) {
                None => r is None,
                Some(v) => r is Some && identity_view(r->0) == v,
            },
        },
{
    let n = match name {
        Some(n) => n,
        None => return None,
    };
    let lit = match &n.literal {
        Some(t) => Some(t.as_str()),
        None => None,
    };
    if let Some(literal) = normalized_identity_part(lit) {
        return Some(LegacyContributorIdentity::Literal(literal));
    }
    let mut parts: Vec<String> = Vec::new();
    parts.push(part_key(&n.given));
    parts.push(part_key(&n.family));
    parts.push(part_key(&n.suffix));
    parts.push(part_key(&n.dropping_particle));
    parts.push(part_key(&n.non_dropping_particle));
    let ghost view = parts@.map_values(|x: String| x@);
    proof {
        assert(view =~= seq![
            part_or_empty(n.given),
            part_or_empty(n.family),
            part_or_empty(n.suffix),
            part_or_empty(n.dropping_particle),
            part_or_empty(n.non_dropping_particle)
        ]);
    }
    let mut any = false;
    let mut i: usize = 0;
    while i < parts.len()
        invariant
            parts@.len() == 5,
            view == parts@.map_values(|x: String| x@),
            i <= 5,
            any == exists|k: int| 0 <= k < i && #[trigger] view[k].len() > 0,
        decreases 5 - i,
    {
        if chars_of(parts[i].as_str()).len() > 0 {
            proof {
                assert(view[i as int].len() > 0);
            }
            any = true;
        }
        i = i + 1;
    }
    if any {
        Some(LegacyContributorIdentity::Structured(parts))
    } else {
        None
    }
}

/// Whether two identities are the same.
pub fn same_identity(a: &LegacyContributorIdentity, b: &LegacyContributorIdentity) -> (r: bool)
    ensures
        r == (identity_view(*a) == identity_view(*b)),
{
    match a {
        LegacyContributorIdentity::Literal(x) => match b {
            LegacyContributorIdentity::Literal(y) => {
                let r = str_eq(x.as_str(), y.as_str());
                proof {
                    if !r {
                        assert(identity_view(*a).1[0] != identity_view(*b).1[0]);
                    }
                }
                r
            },
            LegacyContributorIdentity::Structured(_) => false,
        },
        LegacyContributorIdentity::Structured(x) => match b {
            LegacyContributorIdentity::Literal(_) => false,
            LegacyContributorIdentity::Structured(y) => {
                let ghost xv = x@.map_values(|s: String| s@);
                let ghost yv = y@.map_values(|s: String| s@);
                proof {
                    assert(identity_view(*a).1 == xv);
                    assert(identity_view(*b).1 == yv);
                }
                if x.len() != y.len() {
                    proof {
                        assert(xv.len() != yv.len());
                    }
                    return false;
                }
                let mut i: usize = 0;
                while i < x.len()
                    invariant
                        x.len() == y.len(),
                        xv == x@.map_values(|s: String| s@),
                        yv == y@.map_values(|s: String| s@),
                        identity_view(*a).1 == xv,
                        identity_view(*b).1 == yv,
                        i <= x.len(),
                        forall|k: int| 0 <= k < i ==> #[trigger] xv[k] == yv[k],
                    decreases x.len() - i,
                {
                    if !str_eq(x[i].as_str(), y[i].as_str()) {
                        proof {
                            assert(xv[i as int] != yv[i as int]);
                        }
                        return false;
                    }
                    i = i + 1;
                }
                proof {
                    assert(xv =~= yv);
                }
                true
            },
        },
    }
}

/// The contributor of an existing entry as the search sees it: one contributor
/// or a list of them, each with its identity if it has one.
#[derive(Debug, Clone)]
pub enum LegacyMembers {
    /// A single contributor.
    Single(Option<LegacyContributorIdentity>),
    /// A list of contributors, in order.
    List(Vec<Option<LegacyContributorIdentity>>),
}

/// An existing contributor entry as the search sees it.
#[derive(Debug, Clone)]
pub struct LegacyEntrySummary {
    /// Whether the entry already carries the role being added.
    pub has_role: bool,
    /// Its contributor(s).
    pub members: LegacyMembers,
}

/// Whether an optional identity is `id`.
pub open spec fn identity_is(x: Option<LegacyContributorIdentity>, id: LegacyContributorIdentity) -> bool {
    x matches Some(y) && identity_view(y) == identity_view(id)
}

/// Where in entry `e` the identity `id` is found, if anywhere: `Some(None)`
/// for a single contributor, `Some(Some(m))` for the first matching list member.
pub open spec fn match_in_entry(e: LegacyEntrySummary, id: LegacyContributorIdentity) -> Option<Option<int>> {
    if e.has_role {
        None
    } else {
        match e.members {
            LegacyMembers::Single(x) => if identity_is(x, id) { Some(None) } else { None },
            LegacyMembers::List(ms) => if exists|m: int| 0 <= m < ms@.len() && #[trigger] identity_is(ms@[m], id) {
                Some(Some(choose|m: int| 0 <= m < ms@.len() && identity_is(ms@[m], id)
                    && forall|k: int| 0 <= k < m ==> !#[trigger] identity_is(ms@[k], id)))
            } else {
                None
            },
        }
    }
}

/// Whether member `m` is the first list member with identity `id`.
pub open spec fn first_member(ms: Seq<Option<LegacyContributorIdentity>>, id: LegacyContributorIdentity, m: int) -> bool {
    0 <= m < ms.len() && identity_is(ms[m], id) && forall|k: int| 0 <= k < m ==> !#[trigger] identity_is(ms[k], id)
}

/// Find where an already-listed contributor with identity `id` stands: the
/// first entry without the role whose contributor, or one of whose listed
/// contributors (the first such), has that identity.
pub fn find_legacy_contributor(entries: &Vec<LegacyEntrySummary>, identity: &LegacyContributorIdentity) -> (r: Option<(usize, Option<usize>)>)
    ensures
        match r {
            None => forall|i: int| 0 <= i < entries@.len() ==> #[trigger] match_in_entry(entries@[i], *identity) is None,
            Some((i, m)) => i < entries@.len()
                && (forall|k: int| 0 <= k < i ==> #[trigger] match_in_entry(entries@[k], *identity) is None)
                && !entries@[i as int].has_role
                && match m {
                    None => entries@[i as int].members matches LegacyMembers::Single(x) && identity_is(x, *identity),
                    Some(j) => entries@[i as int].members matches LegacyMembers::List(ms)
                        && first_member(ms@, *identity, j as int),
                },
        },
{
    let mut i: usize = 0;
    while i < entries.len()
        invariant
            i <= entries.len(),
            forall|k: int| 0 <= k < i ==> #[trigger] match_in_entry(entries@[k], *identity) is None,
        decreases entries.len() - i,
    {
        let e = &entries[i];
        if !e.has_role {
            match &e.members {
                LegacyMembers::Single(x) => {
                    let hit = match x {
                        Some(y) => same_identity(y, identity),
                        None => false,
                    };
                    if hit {
                        return Some((i, None));
                    }
                },
                LegacyMembers::List(ms) => {
                    let mut j: usize = 0;
                    while j < ms.len()
                        invariant
                            i < entries.len(),
                            !entries@[i as int].has_role,
                            entries@[i as int].members == LegacyMembers::List(*ms),
                            forall|k: int| 0 <= k < i ==> #[trigger] match_in_entry(entries@[k], *identity) is None,
                            j <= ms.len(),
                            forall|k: int| 0 <= k < j ==> !#[trigger] identity_is(ms@[k], *identity),
                        decreases ms.len() - j,
                    {
                        let hit = match &ms[j] {
                            Some(y) => same_identity(y, identity),
                            None => false,
                        };
                        if hit {
                            proof {
                                assert(first_member(ms@, *identity, j as int));
                            }
                            return Some((i, Some(j)));
                        }
                        j = j + 1;
                    }
                },
            }
        }
        i = i + 1;
    }
    None
}

} // verus!
