//! Supplementary standardized identifiers: validated names and the map that holds them.

use vstd::prelude::*;

use crate::citation::key_wf;
use crate::text::{chars_of, chars_eq, is_ascii_digit, is_ascii_lower, owned, str_eq};

verus! {

/// Names reserved for identifiers that have a dedicated reference field.
pub open spec fn reserved_identifier(s: Seq<char>) -> bool {
    ||| s == "ads-bibcode"@
    ||| s == "doi"@
    ||| s == "docket-number"@
    ||| s == "eprint-id"@
    ||| s == "isbn"@
    ||| s == "issn"@
    ||| s == "patent-number"@
    ||| s == "pmcid"@
    ||| s == "pmid"@
    ||| s == "report-number"@
    ||| s == "standard-number"@
    ||| s == "url"@
}

/// Lowercase kebab-case that begins with a letter: every `-`-separated part is a
/// non-empty run of lowercase ASCII letters and digits, and the first character
/// is a letter.
pub open spec fn kebab_name(s: Seq<char>) -> bool {
    &&& s.len() > 0
    &&& is_ascii_lower(s[0])
    &&& key_wf(s)
}

/// A name accepted for a supplementary identifier.
pub open spec fn identifier_name_valid(s: Seq<char>) -> bool {
    kebab_name(s) && !reserved_identifier(s)
}

/// A validated name for a supplementary standardized identifier.
///
/// Names use lowercase kebab-case. Identifiers with dedicated fields, such as
/// `doi` and `isbn`, are reserved and cannot be duplicated here.
#[derive(Debug, PartialEq, Eq, PartialOrd, Ord, Hash)]
pub struct IdentifierName(String);

impl Clone for IdentifierName {
    fn clone(&self) -> (r: Self)
        ensures
            r@ == self@,
    {
        proof {
            use_type_invariant(self);
        }
        IdentifierName(self.0.clone())
    }
}

impl View for IdentifierName {
    type V = Seq<char>;

    closed spec fn view(&self) -> Seq<char> {
        self.0@
    }
}

impl IdentifierName {
    #[verifier::type_invariant]
    closed spec fn wf(self) -> bool {
        identifier_name_valid(self.0@)
    }

    /// Validate and construct a supplementary identifier name.
    ///
    /// Returns an error when the name is not lowercase kebab-case, does not begin
    /// with a letter, or is reserved for a first-class reference field.
    pub fn new(value: &str) -> (r: Result<Self, String>)
        ensures
            r is Ok <==> identifier_name_valid(value@),
            r matches Ok(n) ==> n@ == value@,
            !kebab_name(value@) ==> (r matches Err(e) && e@
                == "identifier name must be lowercase kebab-case and begin with a letter"@),
            kebab_name(value@) && reserved_identifier(value@) ==> (r matches Err(e) && e@
                == "identifier name `"@ + value@ + "` is reserved for a first-class reference field"@),
    {
        let v = chars_of(value);
        if !is_kebab_name(&v) {
            return Err(owned("identifier name must be lowercase kebab-case and begin with a letter"));
        }
        if is_reserved_identifier(value) {
            let mut msg = owned("identifier name `");
            msg.append(value);
            msg.append("` is reserved for a first-class reference field");
            return Err(msg);
        }
        Ok(IdentifierName(owned(value)))
    }

    /// Return the validated wire-format name.
    pub fn as_str(&self) -> (r: &str)
        ensures
            r@ == self@,
            identifier_name_valid(r@),
    {
        proof {
            use_type_invariant(self);
        }
        self.0.as_str()
    }
}

/// Exec form of [`reserved_identifier`].
fn is_reserved_identifier(s: &str) -> (b: bool)
    ensures
        b == reserved_identifier(s@),
{
    str_eq(s, "ads-bibcode") || str_eq(s, "doi") || str_eq(s, "docket-number") || str_eq(
        s,
        "eprint-id",
    ) || str_eq(s, "isbn") || str_eq(s, "issn") || str_eq(s, "patent-number") || str_eq(s, "pmcid")
        || str_eq(s, "pmid") || str_eq(s, "report-number") || str_eq(s, "standard-number")
        || str_eq(s, "url")
}

/// Exec form of [`kebab_name`].
fn is_kebab_name(v: &Vec<char>) -> (b: bool)
    ensures
        b == kebab_name(v@),
{
    if v.len() == 0 {
        return false;
    }
    let first = v[0];
    if !('a' <= first && first <= 'z') {
        return false;
    }
    let mut i: usize = 0;
    while i < v.len()
        invariant
            i <= v.len(),
            v.len() > 0,
            is_ascii_lower(v@[0]),
            forall|k: int| 0 <= k < i ==> is_ascii_lower(#[trigger] v@[k]) || is_ascii_digit(v@[k]) || v@[k] == '-',
            forall|k: int| 0 <= k < i && k < v.len() - 1 ==> !(#[trigger] v@[k] == '-' && v@[k + 1] == '-'),
        decreases v.len() - i,
    {
        let c = v[i];
        if !(('a' <= c && c <= 'z') || ('0' <= c && c <= '9') || c == '-') {
            return false;
        }
        if c == '-' && i + 1 < v.len() && v[i + 1] == '-' {
            return false;
        }
        i = i + 1;
    }
    v[v.len() - 1] != '-'
}

/// Lexicographic order on character sequences; for strings this is the order of
/// `str`'s `Ord` (UTF-8 byte order agrees with code point order).
pub open spec fn seq_less(a: Seq<char>, b: Seq<char>) -> bool
    decreases a.len(),
{
    if b.len() == 0 {
        false
    } else if a.len() == 0 {
        true
    } else if a[0] != b[0] {
        a[0] < b[0]
    } else {
        seq_less(a.drop_first(), b.drop_first())
    }
}

proof fn lemma_seq_less_irreflexive(a: Seq<char>)
    ensures
        !seq_less(a, a),
    decreases a.len(),
{
    if a.len() > 0 {
        lemma_seq_less_irreflexive(a.drop_first());
    }
}

proof fn lemma_seq_less_total(a: Seq<char>, b: Seq<char>)
    ensures
        a != b ==> seq_less(a, b) || seq_less(b, a),
        !(seq_less(a, b) && seq_less(b, a)),
    decreases a.len(),
{
    if a.len() > 0 && b.len() > 0 && a[0] == b[0] {
        lemma_seq_less_total(a.drop_first(), b.drop_first());
        if a.drop_first() == b.drop_first() {
            assert(a =~= seq![a[0]] + a.drop_first());
            assert(b =~= seq![b[0]] + b.drop_first());
        }
    } else if a.len() == 0 && b.len() == 0 {
        assert(a =~= b);
    }
}

proof fn lemma_seq_less_transitive(a: Seq<char>, b: Seq<char>, c: Seq<char>)
    requires
        seq_less(a, b),
        seq_less(b, c),
    ensures
        seq_less(a, c),
    decreases a.len(),
{
    if a.len() > 0 && b.len() > 0 && c.len() > 0 && a[0] == b[0] && b[0] == c[0] {
        lemma_seq_less_transitive(a.drop_first(), b.drop_first(), c.drop_first());
    }
}

/// Exec form of [`seq_less`].
fn chars_less(a: &Vec<char>, b: &Vec<char>) -> (r: bool)
    ensures
        r == seq_less(a@, b@),
{
    let mut i: usize = 0;
    proof {
        assert(a@.skip(0) =~= a@);
        assert(b@.skip(0) =~= b@);
    }
    while i < a.len() && i < b.len() && a[i] == b[i]
        invariant
            i <= a.len(),
            i <= b.len(),
            seq_less(a@, b@) == seq_less(a@.skip(i as int), b@.skip(i as int)),
        decreases a.len() - i,
    {
        proof {
            assert(a@.skip(i as int).drop_first() =~= a@.skip(i + 1));
            assert(b@.skip(i as int).drop_first() =~= b@.skip(i + 1));
        }
        i = i + 1;
    }
    if i == b.len() {
        false
    } else if i == a.len() {
        true
    } else {
        a[i] < b[i]
    }
}

/// The entries sorted by strictly increasing name.
pub open spec fn entries_sorted(es: Seq<(IdentifierName, String)>) -> bool {
    forall|i: int, j: int| 0 <= i < j < es.len() ==> seq_less(#[trigger] es[i].0@, #[trigger] es[j].0@)
}

/// The name-to-value map that a list of entries holds.
pub open spec fn entries_map(es: Seq<(IdentifierName, String)>) -> Map<Seq<char>, Seq<char>>
    decreases es.len(),
{
    if es.len() == 0 {
        Map::empty()
    } else {
        entries_map(es.drop_last()).insert(es.last().0@, es.last().1@)
    }
}

proof fn lemma_sorted_prefix(es: Seq<(IdentifierName, String)>)
    requires
        entries_sorted(es),
        es.len() > 0,
    ensures
        entries_sorted(es.drop_last()),
{
    let p = es.drop_last();
    assert forall|i: int, j: int| 0 <= i < j < p.len() implies seq_less(#[trigger] p[i].0@, #[trigger] p[j].0@) by {
        assert(p[i] == es[i] && p[j] == es[j]);
    }
}

/// A read gives back what a write wrote: after inserting `value` under `name`,
/// the map holds `value` there, and every other name keeps what it held.
pub proof fn lemma_get_after_insert(m: Map<Seq<char>, Seq<char>>, name: Seq<char>, value: Seq<char>)
    ensures
        m.insert(name, value).contains_key(name),
        m.insert(name, value)[name] == value,
        forall|k: Seq<char>| k != name ==> (#[trigger] m.insert(name, value).contains_key(k)) == m.contains_key(k)
            && (m.contains_key(k) ==> m.insert(name, value)[k] == m[k]),
{
}

/// Whether names are in strictly ascending order (hence unique).
pub open spec fn names_ascending(ns: Seq<Seq<char>>) -> bool {
    forall|i: int, j: int| 0 <= i < j < ns.len() ==> seq_less(#[trigger] ns[i], #[trigger] ns[j])
}

/// With sorted entries, the names are ascending and are exactly the keys held.
proof fn lemma_names_of(es: Seq<(IdentifierName, String)>)
    requires
        entries_sorted(es),
    ensures
        names_ascending(es.map_values(|e: (IdentifierName, String)| e.0@)),
        forall|k: Seq<char>| entries_map(es).contains_key(k) <==> es.map_values(|e: (IdentifierName, String)| e.0@).contains(k),
{
    let ns = es.map_values(|e: (IdentifierName, String)| e.0@);
    assert forall|i: int, j: int| 0 <= i < j < ns.len() implies seq_less(#[trigger] ns[i], #[trigger] ns[j]) by {
        assert(ns[i] == es[i].0@ && ns[j] == es[j].0@);
    }
    assert forall|k: Seq<char>| entries_map(es).contains_key(k) <==> ns.contains(k) by {
        lemma_map_has(es, k);
        if entries_map(es).contains_key(k) {
            let i = choose|i: int| 0 <= i < es.len() && (#[trigger] es[i]).0@ == k;
            assert(ns[i] == k);
        }
        if ns.contains(k) {
            let i = choose|i: int| 0 <= i < ns.len() && ns[i] == k;
            lemma_map_of(es, i);
        }
    }
}

/// A name the map holds is the name of an entry.
proof fn lemma_map_has(es: Seq<(IdentifierName, String)>, k: Seq<char>)
    ensures
        entries_map(es).contains_key(k) ==> exists|i: int| 0 <= i < es.len() && (#[trigger] es[i]).0@ == k,
    decreases es.len(),
{
    if es.len() > 0 {
        let p = es.drop_last();
        lemma_map_has(p, k);
        if entries_map(es).contains_key(k) {
            if k == es.last().0@ {
                assert(es[es.len() - 1].0@ == k);
            } else {
                let i = choose|i: int| 0 <= i < p.len() && (#[trigger] p[i]).0@ == k;
                assert(es[i] == p[i]);
            }
        }
    }
}

/// With sorted names, every entry's name maps to that entry's value.
proof fn lemma_map_of(es: Seq<(IdentifierName, String)>, i: int)
    requires
        entries_sorted(es),
        0 <= i < es.len(),
    ensures
        entries_map(es).contains_key(es[i].0@),
        entries_map(es)[es[i].0@] == es[i].1@,
    decreases es.len(),
{
    let n = es.len() - 1;
    if i < n {
        let p = es.drop_last();
        lemma_sorted_prefix(es);
        lemma_map_of(p, i);
        assert(p[i] == es[i]);
        assert(seq_less(es[i].0@, es[n].0@));
        lemma_seq_less_irreflexive(es[i].0@);
    }
}

/// Extensible standardized identifiers without dedicated fields, kept in
/// ascending name order.
#[derive(Debug, PartialEq, Eq)]
pub struct SupplementaryIdentifiers {
    entries: Vec<(IdentifierName, String)>,
}

impl View for SupplementaryIdentifiers {
    type V = Map<Seq<char>, Seq<char>>;

    closed spec fn view(&self) -> Map<Seq<char>, Seq<char>> {
        entries_map(self.entries@)
    }
}

impl SupplementaryIdentifiers {
    #[verifier::type_invariant]
    closed spec fn wf(self) -> bool {
        entries_sorted(self.entries@)
    }

    /// The names held, in the order they are kept.
    pub closed spec fn names(&self) -> Seq<Seq<char>> {
        self.entries@.map_values(|e: (IdentifierName, String)| e.0@)
    }

    /// Construct an empty supplementary identifier map.
    pub fn new() -> (r: Self)
        ensures
            r@ == Map::<Seq<char>, Seq<char>>::empty(),
            r.names().len() == 0,
    {
        SupplementaryIdentifiers { entries: Vec::new() }
    }

    /// Return the value associated with a validated identifier name.
    pub fn get(&self, name: &str) -> (r: Option<&str>)
        ensures
            match r {
                Some(v) => self@.contains_key(name@) && v@ == self@[name@],
                None => !self@.contains_key(name@),
            },
    {
        proof {
            use_type_invariant(self);
            lemma_map_has(self.entries@, name@);
        }
        let target = chars_of(name);
        let mut i: usize = 0;
        while i < self.entries.len()
            invariant
                i <= self.entries@.len(),
                target@ == name@,
                entries_sorted(self.entries@),
                forall|k: int| 0 <= k < i ==> (#[trigger] self.entries@[k]).0@ != name@,
            decreases self.entries.len() - i,
        {
            let candidate = chars_of(self.entries[i].0.as_str());
            if chars_eq(&candidate, &target) {
                proof {
                    lemma_map_of(self.entries@, i as int);
                }
                return Some(self.entries[i].1.as_str());
            }
            i = i + 1;
        }
        None
    }

    /// Insert a supplementary identifier value, returning the value it replaces.
    ///
    /// The names stay unique and in ascending order.
    pub fn insert(&mut self, name: IdentifierName, value: String) -> (r: Option<String>)
        ensures
            final(self)@ == old(self)@.insert(name@, value@),
            match r {
                Some(prev) => old(self)@.contains_key(name@) && prev@ == old(self)@[name@],
                None => !old(self)@.contains_key(name@),
            },
            names_ascending(final(self).names()),
            forall|k: Seq<char>| final(self)@.contains_key(k) <==> final(self).names().contains(k),
    {
        let r = self.insert_sorted(name, value);
        proof {
            use_type_invariant(&*self);
            lemma_names_of(self.entries@);
        }
        r
    }

    fn insert_sorted(&mut self, name: IdentifierName, value: String) -> (r: Option<String>)
        ensures
            final(self)@ == old(self)@.insert(name@, value@),
            match r {
                Some(prev) => old(self)@.contains_key(name@) && prev@ == old(self)@[name@],
                None => !old(self)@.contains_key(name@),
            },
    {
        proof {
            use_type_invariant(&*self);
        }
        let target = chars_of(name.as_str());
        let mut i: usize = 0;
        let mut stop = false;
        while i < self.entries.len() && !stop
            invariant
                i <= self.entries@.len(),
                target@ == name@,
                entries_sorted(self.entries@),
                forall|k: int| 0 <= k < i ==> seq_less(#[trigger] self.entries@[k].0@, name@),
                stop ==> i < self.entries@.len() && !seq_less(self.entries@[i as int].0@, name@),
            decreases self.entries.len() - i + (if stop { 0int } else { 1int }),
        {
            let candidate = chars_of(self.entries[i].0.as_str());
            if chars_less(&candidate, &target) {
                i = i + 1;
            } else {
                stop = true;
            }
        }
        let ghost old_entries = self.entries@;
        let found = if i < self.entries.len() {
            let candidate = chars_of(self.entries[i].0.as_str());
            chars_eq(&candidate, &target)
        } else {
            false
        };
        let mut entries: Vec<(IdentifierName, String)> = Vec::new();
        std::mem::swap(&mut entries, &mut self.entries);
        let ghost tgt = entries_map(old_entries).insert(name@, value@);
        if found {
            let (_old_name, old_value) = entries.remove(i);
            entries.insert(i, (name, value));
            proof {
                let es = entries@;
                assert(es =~= old_entries.update(i as int, es[i as int]));
                assert forall|a: int, b: int| 0 <= a < b < es.len() implies seq_less(#[trigger] es[a].0@, #[trigger] es[b].0@) by {
                    assert(old_entries[a].0@ == es[a].0@);
                    assert(old_entries[b].0@ == es[b].0@);
                }
                lemma_map_of(old_entries, i as int);
                assert forall|k: Seq<char>| #[trigger] entries_map(es).contains_key(k) <==> tgt.contains_key(k) by {
                    lemma_map_has(es, k);
                    lemma_map_has(old_entries, k);
                    if entries_map(es).contains_key(k) {
                        let j = choose|j: int| 0 <= j < es.len() && (#[trigger] es[j]).0@ == k;
                        if j != i {
                            lemma_map_of(old_entries, j);
                        }
                    }
                    if entries_map(old_entries).contains_key(k) {
                        let j = choose|j: int| 0 <= j < old_entries.len() && (#[trigger] old_entries[j]).0@ == k;
                        lemma_map_of(es, j);
                    }
                    if k == name@ {
                        lemma_map_of(es, i as int);
                    }
                }
                assert forall|k: Seq<char>| #[trigger] entries_map(es).contains_key(k) implies entries_map(es)[k] == tgt[k] by {
                    lemma_map_has(es, k);
                    let j = choose|j: int| 0 <= j < es.len() && (#[trigger] es[j]).0@ == k;
                    lemma_map_of(es, j);
                    if j != i {
                        lemma_map_of(old_entries, j);
                        assert(seq_less(es[j].0@, es[i as int].0@) || seq_less(es[i as int].0@, es[j].0@));
                        lemma_seq_less_irreflexive(k);
                    }
                }
                assert(entries_map(es) =~= tgt);
            }
            self.entries = entries;
            Some(old_value)
        } else {
            entries.insert(i, (name, value));
            proof {
                let es = entries@;
                if i < old_entries.len() {
                    lemma_seq_less_total(old_entries[i as int].0@, name@);
                    assert(seq_less(name@, old_entries[i as int].0@));
                }
                assert forall|a: int, b: int| 0 <= a < b < es.len() implies seq_less(#[trigger] es[a].0@, #[trigger] es[b].0@) by {
                    if a < i && b < i {
                        assert(es[a] == old_entries[a] && es[b] == old_entries[b]);
                    } else if a < i && b == i {
                        assert(es[a] == old_entries[a]);
                    } else if a < i && b > i {
                        assert(es[a] == old_entries[a] && es[b] == old_entries[b - 1]);
                        lemma_seq_less_transitive(es[a].0@, name@, old_entries[i as int].0@);
                        if b - 1 != i {
                            assert(seq_less(old_entries[i as int].0@, old_entries[b - 1].0@));
                            lemma_seq_less_transitive(es[a].0@, old_entries[i as int].0@, old_entries[b - 1].0@);
                        }
                    } else if a == i {
                        assert(es[b] == old_entries[b - 1]);
                        if b - 1 != i {
                            assert(seq_less(old_entries[i as int].0@, old_entries[b - 1].0@));
                            lemma_seq_less_transitive(name@, old_entries[i as int].0@, old_entries[b - 1].0@);
                        }
                    } else {
                        assert(es[a] == old_entries[a - 1] && es[b] == old_entries[b - 1]);
                    }
                }
                lemma_map_has(old_entries, name@);
                if entries_map(old_entries).contains_key(name@) {
                    let j = choose|j: int| 0 <= j < old_entries.len() && (#[trigger] old_entries[j]).0@ == name@;
                    lemma_seq_less_irreflexive(name@);
                    if j > i {
                        assert(seq_less(old_entries[i as int].0@, old_entries[j].0@));
                        lemma_seq_less_transitive(name@, old_entries[i as int].0@, old_entries[j].0@);
                    }
                }
                assert forall|k: Seq<char>| #[trigger] entries_map(es).contains_key(k) <==> tgt.contains_key(k) by {
                    lemma_map_has(es, k);
                    lemma_map_has(old_entries, k);
                    if entries_map(old_entries).contains_key(k) {
                        let j = choose|j: int| 0 <= j < old_entries.len() && (#[trigger] old_entries[j]).0@ == k;
                        if j < i {
                            assert(es[j] == old_entries[j]);
                            lemma_map_of(es, j);
                        } else {
                            assert(es[j + 1] == old_entries[j]);
                            lemma_map_of(es, j + 1);
                        }
                    }
                    if entries_map(es).contains_key(k) {
                        let j = choose|j: int| 0 <= j < es.len() && (#[trigger] es[j]).0@ == k;
                        if j < i {
                            assert(es[j] == old_entries[j]);
                            lemma_map_of(old_entries, j);
                        } else if j > i {
                            assert(es[j] == old_entries[j - 1]);
                            lemma_map_of(old_entries, j - 1);
                        }
                    }
                    if k == name@ {
                        lemma_map_of(es, i as int);
                    }
                }
                assert forall|k: Seq<char>| #[trigger] entries_map(es).contains_key(k) implies entries_map(es)[k] == tgt[k] by {
                    lemma_map_has(es, k);
                    let j = choose|j: int| 0 <= j < es.len() && (#[trigger] es[j]).0@ == k;
                    lemma_map_of(es, j);
                    if j < i {
                        assert(es[j] == old_entries[j]);
                        lemma_map_of(old_entries, j);
                        assert(seq_less(es[j].0@, es[i as int].0@));
                        lemma_seq_less_irreflexive(k);
                    } else if j > i {
                        assert(es[j] == old_entries[j - 1]);
                        lemma_map_of(old_entries, j - 1);
                        assert(seq_less(es[i as int].0@, es[j].0@));
                        lemma_seq_less_irreflexive(k);
                    }
                }
                assert(entries_map(es) =~= tgt);
            }
            self.entries = entries;
            None
        }
    }

    /// Return whether the map has no identifiers.
    pub fn is_empty(&self) -> (r: bool)
        ensures
            r == (self@ == Map::<Seq<char>, Seq<char>>::empty()),
    {
        proof {
            use_type_invariant(self);
            if self.entries@.len() > 0 {
                lemma_map_of(self.entries@, 0);
            } else {
                assert(self@ =~= Map::<Seq<char>, Seq<char>>::empty());
            }
        }
        self.entries.len() == 0
    }
}

impl Default for SupplementaryIdentifiers {
    fn default() -> (r: Self)
        ensures
            r@ == Map::<Seq<char>, Seq<char>>::empty(),
            r.names().len() == 0,
    {
        SupplementaryIdentifiers::new()
    }
}

impl std::str::FromStr for IdentifierName {
    type Err = String;

    fn from_str(value: &str) -> (r: Result<Self, String>)
        ensures
            r is Ok <==> identifier_name_valid(value@),
            r matches Ok(n) ==> n@ == value@,
            !kebab_name(value@) ==> (r matches Err(e) && e@
                == "identifier name must be lowercase kebab-case and begin with a letter"@),
            kebab_name(value@) && reserved_identifier(value@) ==> (r matches Err(e) && e@
                == "identifier name `"@ + value@ + "` is reserved for a first-class reference field"@),
    {
        IdentifierName::new(value)
    }
}

impl Clone for SupplementaryIdentifiers {
    fn clone(&self) -> (r: Self)
        ensures
            r@ == self@,
    {
        proof {
            use_type_invariant(self);
        }
        let mut entries: Vec<(IdentifierName, String)> = Vec::new();
        let mut i: usize = 0;
        while i < self.entries.len()
            invariant
                i <= self.entries@.len(),
                entries_sorted(self.entries@),
                entries@.len() == i,
                forall|k: int| 0 <= k < i ==> (#[trigger] entries@[k]).0@ == self.entries@[k].0@ && entries@[k].1@ == self.entries@[k].1@,
            decreases self.entries.len() - i,
        {
            let name = self.entries[i].0.clone();
            let value = self.entries[i].1.clone();
            entries.push((name, value));
            i = i + 1;
        }
        proof {
            assert forall|a: int, b: int| 0 <= a < b < entries@.len() implies seq_less(#[trigger] entries@[a].0@, #[trigger] entries@[b].0@) by {
                assert(seq_less(self.entries@[a].0@, self.entries@[b].0@));
            }
            lemma_entries_map_same(entries@, self.entries@);
        }
        SupplementaryIdentifiers { entries }
    }
}

/// Entries with the same names and values hold the same map.
proof fn lemma_entries_map_same(a: Seq<(IdentifierName, String)>, b: Seq<(IdentifierName, String)>)
    requires
        a.len() == b.len(),
        forall|k: int| 0 <= k < a.len() ==> (#[trigger] a[k]).0@ == b[k].0@ && a[k].1@ == b[k].1@,
    ensures
        entries_map(a) == entries_map(b),
    decreases a.len(),
{
    if a.len() > 0 {
        lemma_entries_map_same(a.drop_last(), b.drop_last());
        assert(a.last().0@ == b.last().0@);
    }
}

} // verus!
