//! Contributors: names, contributor lists, and contributor entries with
//! their roles.
//!
//! A contributor is a name used whole, a structured personal name, or a list
//! of contributors. Contracts speak of a contributor by its [`NameView`], its
//! text with the `String`s replaced by their characters.

use vstd::prelude::*;

use crate::conversion::{
    identity_part, identity_view, legacy_contributor_identity, opt_view, same_identity,
    LegacyContributorIdentity, NameParts,
};
use crate::legacy::copy_opt;
use crate::text::{owned, str_eq, trim, trimmed};

verus! {

/// The role a contributor plays in a work.
#[derive(Debug, Clone, PartialEq, Eq, Hash)]
pub enum ContributorRole {
    /// Author.
    Author,
    /// Editor.
    Editor,
    /// Translator.
    Translator,
    /// Director.
    Director,
    /// Performer.
    Performer,
    /// Composer.
    Composer,
    /// Producer.
    Producer,
    /// Host.
    Host,
    /// Narrator.
    Narrator,
    /// Writer.
    Writer,
    /// Recipient.
    Recipient,
    /// Interviewer.
    Interviewer,
    /// Illustrator.
    Illustrator,
    /// Compiler.
    Compiler,
    /// Guest.
    Guest,
    /// A role named outside the vocabulary, kept as written.
    Unknown(String),
    /// A user-defined role.
    Custom(String),
}

/// A role as plain values: its place in the vocabulary, and the name of an
/// unknown or custom role (empty for the others).
pub open spec fn role_view(r: ContributorRole) -> (int, Seq<char>) {
    match r {
        ContributorRole::Author => (0, Seq::empty()),
        ContributorRole::Editor => (1, Seq::empty()),
        ContributorRole::Translator => (2, Seq::empty()),
        ContributorRole::Director => (3, Seq::empty()),
        ContributorRole::Performer => (4, Seq::empty()),
        ContributorRole::Composer => (5, Seq::empty()),
        ContributorRole::Producer => (6, Seq::empty()),
        ContributorRole::Host => (7, Seq::empty()),
        ContributorRole::Narrator => (8, Seq::empty()),
        ContributorRole::Writer => (9, Seq::empty()),
        ContributorRole::Recipient => (10, Seq::empty()),
        ContributorRole::Interviewer => (11, Seq::empty()),
        ContributorRole::Illustrator => (12, Seq::empty()),
        ContributorRole::Compiler => (13, Seq::empty()),
        ContributorRole::Guest => (14, Seq::empty()),
        ContributorRole::Unknown(s) => (15, s@),
        ContributorRole::Custom(s) => (16, s@),
    }
}

/// Whether two roles are the same role.
pub open spec fn same_role(a: ContributorRole, b: ContributorRole) -> bool {
    role_view(a) == role_view(b)
}

/// Whether `a` and `b` are the same role.
pub fn role_matches(a: &ContributorRole, b: &ContributorRole) -> (r: bool)
    ensures
        r == same_role(*a, *b),
{
    match (a, b) {
        (ContributorRole::Author, ContributorRole::Author) => true,
        (ContributorRole::Editor, ContributorRole::Editor) => true,
        (ContributorRole::Translator, ContributorRole::Translator) => true,
        (ContributorRole::Director, ContributorRole::Director) => true,
        (ContributorRole::Performer, ContributorRole::Performer) => true,
        (ContributorRole::Composer, ContributorRole::Composer) => true,
        (ContributorRole::Producer, ContributorRole::Producer) => true,
        (ContributorRole::Host, ContributorRole::Host) => true,
        (ContributorRole::Narrator, ContributorRole::Narrator) => true,
        (ContributorRole::Writer, ContributorRole::Writer) => true,
        (ContributorRole::Recipient, ContributorRole::Recipient) => true,
        (ContributorRole::Interviewer, ContributorRole::Interviewer) => true,
        (ContributorRole::Illustrator, ContributorRole::Illustrator) => true,
        (ContributorRole::Compiler, ContributorRole::Compiler) => true,
        (ContributorRole::Guest, ContributorRole::Guest) => true,
        (ContributorRole::Unknown(x), ContributorRole::Unknown(y)) => str_eq(x.as_str(), y.as_str()),
        (ContributorRole::Custom(x), ContributorRole::Custom(y)) => str_eq(x.as_str(), y.as_str()),
        _ => false,
    }
}

/// A copy of a role.
pub fn copy_role(r: &ContributorRole) -> (c: ContributorRole)
    ensures
        role_view(c) == role_view(*r),
{
    match r {
        ContributorRole::Author => ContributorRole::Author,
        ContributorRole::Editor => ContributorRole::Editor,
        ContributorRole::Translator => ContributorRole::Translator,
        ContributorRole::Director => ContributorRole::Director,
        ContributorRole::Performer => ContributorRole::Performer,
        ContributorRole::Composer => ContributorRole::Composer,
        ContributorRole::Producer => ContributorRole::Producer,
        ContributorRole::Host => ContributorRole::Host,
        ContributorRole::Narrator => ContributorRole::Narrator,
        ContributorRole::Writer => ContributorRole::Writer,
        ContributorRole::Recipient => ContributorRole::Recipient,
        ContributorRole::Interviewer => ContributorRole::Interviewer,
        ContributorRole::Illustrator => ContributorRole::Illustrator,
        ContributorRole::Compiler => ContributorRole::Compiler,
        ContributorRole::Guest => ContributorRole::Guest,
        ContributorRole::Unknown(s) => ContributorRole::Unknown(owned(s.as_str())),
        ContributorRole::Custom(s) => ContributorRole::Custom(owned(s.as_str())),
    }
}

/// A structured personal name.
#[derive(Debug, Clone, PartialEq)]
pub struct StructuredName {
    /// Given name.
    pub given: String,
    /// Family name.
    pub family: String,
    /// Name suffix.
    pub suffix: Option<String>,
    /// Dropping particle.
    pub dropping_particle: Option<String>,
    /// Non-dropping particle.
    pub non_dropping_particle: Option<String>,
}

/// A contributor: a name used whole, a structured name, or a list.
#[derive(Debug)]
pub enum Contributor {
    /// A name used whole (an organisation, or a name without parts).
    SimpleName(String),
    /// A structured personal name.
    StructuredName(StructuredName),
    /// A list of contributors, in order.
    ContributorList(Vec<Contributor>),
}

/// A contributor as plain values.
pub enum NameView {
    /// A name used whole.
    Simple(Seq<char>),
    /// Given, family, suffix, dropping and non-dropping particle.
    Structured(Seq<char>, Seq<char>, Option<Seq<char>>, Option<Seq<char>>, Option<Seq<char>>),
    /// A list of contributors.
    List(Seq<NameView>),
}

/// The plain-value view of a contributor.
pub open spec fn contributor_view(c: Contributor) -> NameView
    decreases c,
{
    match c {
        Contributor::SimpleName(s) => NameView::Simple(s@),
        Contributor::StructuredName(n) => NameView::Structured(
            n.given@,
            n.family@,
            opt_view(n.suffix),
            opt_view(n.dropping_particle),
            opt_view(n.non_dropping_particle),
        ),
        Contributor::ContributorList(v) => NameView::List(views_of(v@)),
    }
}

/// The views of a sequence of contributors.
pub open spec fn views_of(s: Seq<Contributor>) -> Seq<NameView>
    decreases s,
{
    if s.len() == 0 {
        Seq::empty()
    } else {
        seq![contributor_view(s[0])] + views_of(s.drop_first())
    }
}

/// The lengths and elements of [`views_of`].
pub proof fn lemma_views_of(s: Seq<Contributor>)
    ensures
        views_of(s).len() == s.len(),
        forall|i: int| 0 <= i < s.len() ==> #[trigger] views_of(s)[i] == contributor_view(s[i]),
    decreases s.len(),
{
    if s.len() > 0 {
        lemma_views_of(s.drop_first());
        assert forall|i: int| 0 <= i < s.len() implies #[trigger] views_of(s)[i] == contributor_view(s[i]) by {
            if i > 0 {
                assert(s.drop_first()[i - 1] == s[i]);
            }
        }
    }
}

/// Sequences of contributors with pointwise equal views have equal views.
pub proof fn lemma_views_eq(a: Seq<Contributor>, b: Seq<Contributor>)
    requires
        a.len() == b.len(),
        forall|i: int| 0 <= i < a.len() ==> contributor_view(#[trigger] a[i]) == contributor_view(b[i]),
    ensures
        views_of(a) == views_of(b),
{
    lemma_views_of(a);
    lemma_views_of(b);
    assert(views_of(a) =~= views_of(b));
}

/// A copy of a contributor.
pub fn copy_contributor(c: &Contributor) -> (r: Contributor)
    ensures
        contributor_view(r) == contributor_view(*c),
    decreases c,
{
    match c {
        Contributor::SimpleName(s) => Contributor::SimpleName(owned(s.as_str())),
        Contributor::StructuredName(n) => Contributor::StructuredName(StructuredName {
            given: owned(n.given.as_str()),
            family: owned(n.family.as_str()),
            suffix: copy_opt(&n.suffix),
            dropping_particle: copy_opt(&n.dropping_particle),
            non_dropping_particle: copy_opt(&n.non_dropping_particle),
        }),
        Contributor::ContributorList(v) => {
            let mut out: Vec<Contributor> = Vec::new();
            let mut i: usize = 0;
            while i < v.len()
                invariant
                    i <= v.len(),
                    out.len() == i,
                    *c is ContributorList,
                    c->ContributorList_0 == *v,
                    forall|k: int| 0 <= k < i ==> contributor_view(#[trigger] out@[k]) == contributor_view(v@[k]),
                decreases v.len() - i,
            {
                proof {
                    let cc = *c;
                    assert(decreases_to!(cc => cc->ContributorList_0));
                    assert(decreases_to!(*v => v@));
                    assert(decreases_to!(v@ => v@[i as int]));
                }
                let x = copy_contributor(&v[i]);
                out.push(x);
                i = i + 1;
            }
            proof {
                lemma_views_eq(out@, v@);
            }
            Contributor::ContributorList(out)
        },
    }
}

impl Clone for Contributor {
    fn clone(&self) -> (r: Self) {
        copy_contributor(self)
    }
}

/// What a legacy name becomes: a literal is a name used whole; a name with
/// no given name (after trimming) and no particles is its family name used
/// whole; any other name is structured, with its given name trimmed.
pub open spec fn name_to_view(n: NameParts) -> NameView {
    match n.literal {
        Some(l) => NameView::Simple(l@),
        None => {
            let given = match n.given { Some(g) => trim(g@), None => Seq::empty() };
            let family = match n.family { Some(f) => f@, None => Seq::empty() };
            if given.len() == 0 && n.dropping_particle is None && n.non_dropping_particle is None {
                NameView::Simple(family)
            } else {
                NameView::Structured(given, family, opt_view(n.suffix), opt_view(n.dropping_particle),
                    opt_view(n.non_dropping_particle))
            }
        },
    }
}

/// The contributors a list of legacy names becomes, in order.
pub open spec fn names_view(ns: Seq<NameParts>) -> Seq<NameView> {
    ns.map_values(|n: NameParts| name_to_view(n))
}

fn contributor_from_name(n: &NameParts) -> (r: Contributor)
    ensures
        contributor_view(r) == name_to_view(*n),
{
    match &n.literal {
        Some(l) => Contributor::SimpleName(owned(l.as_str())),
        None => {
            let given = match &n.given {
                Some(g) => trimmed(g.as_str()),
                None => String::new(),
            };
            let family = match &n.family {
                Some(f) => owned(f.as_str()),
                None => String::new(),
            };
            if crate::text::chars_of(given.as_str()).len() == 0 && n.dropping_particle.is_none()
                && n.non_dropping_particle.is_none() {
                Contributor::SimpleName(family)
            } else {
                Contributor::StructuredName(StructuredName {
                    given,
                    family,
                    suffix: copy_opt(&n.suffix),
                    dropping_particle: copy_opt(&n.dropping_particle),
                    non_dropping_particle: copy_opt(&n.non_dropping_particle),
                })
            }
        },
    }
}

/// A list of legacy names as a contributor list, name by name.
pub fn contributor_from_names(names: &Vec<NameParts>) -> (r: Contributor)
    ensures
        contributor_view(r) == NameView::List(names_view(names@)),
{
    let mut out: Vec<Contributor> = Vec::new();
    let mut i: usize = 0;
    while i < names.len()
        invariant
            i <= names.len(),
            out.len() == i,
            forall|k: int| 0 <= k < i ==> contributor_view(#[trigger] out@[k]) == name_to_view(names@[k]),
        decreases names.len() - i,
    {
        out.push(contributor_from_name(&names[i]));
        i = i + 1;
    }
    proof {
        lemma_views_of(out@);
        assert(views_of(out@) =~= names_view(names@));
    }
    Contributor::ContributorList(out)
}

/// A contributor together with the roles it plays.
#[derive(Debug, Clone, PartialEq)]
pub struct ContributorEntry {
    /// The roles, each at most once, in the order they were given.
    pub roles: Vec<ContributorRole>,
    /// The contributor.
    pub contributor: Contributor,
}

/// An entry as plain values: its roles and its contributor.
pub open spec fn entry_view(e: ContributorEntry) -> (Seq<(int, Seq<char>)>, NameView) {
    (e.roles@.map_values(|r: ContributorRole| role_view(r)), contributor_view(e.contributor))
}

/// The views of a sequence of entries.
pub open spec fn entries_view(s: Seq<ContributorEntry>) -> Seq<(Seq<(int, Seq<char>)>, NameView)> {
    s.map_values(|e: ContributorEntry| entry_view(e))
}

/// Whether `roles` holds `role`.
pub fn has_role(roles: &Vec<ContributorRole>, role: &ContributorRole) -> (r: bool)
    ensures
        r == roles@.map_values(|x: ContributorRole| role_view(x)).contains(role_view(*role)),
{
    let ghost rv = roles@.map_values(|x: ContributorRole| role_view(x));
    let mut i: usize = 0;
    while i < roles.len()
        invariant
            i <= roles.len(),
            rv == roles@.map_values(|x: ContributorRole| role_view(x)),
            forall|k: int| 0 <= k < i ==> rv[k] != role_view(*role),
        decreases roles.len() - i,
    {
        if role_matches(&roles[i], role) {
            assert(rv[i as int] == role_view(*role));
            return true;
        }
        i = i + 1;
    }
    false
}

/// The contributors of the entries that play role `r`, in order.
pub open spec fn matching(ev: Seq<(Seq<(int, Seq<char>)>, NameView)>, r: (int, Seq<char>)) -> Seq<NameView>
    decreases ev.len(),
{
    if ev.len() == 0 {
        Seq::empty()
    } else if ev.last().0.contains(r) {
        matching(ev.drop_last(), r).push(ev.last().1)
    } else {
        matching(ev.drop_last(), r)
    }
}

/// The contributors playing role `r`: none, the one, or a list of them all.
pub open spec fn collected(ev: Seq<(Seq<(int, Seq<char>)>, NameView)>, r: (int, Seq<char>)) -> Option<NameView> {
    let m = matching(ev, r);
    if m.len() == 0 {
        None
    } else if m.len() == 1 {
        Some(m[0])
    } else {
        Some(NameView::List(m))
    }
}

/// The view of an optional contributor.
pub open spec fn opt_contributor_view(c: Option<Contributor>) -> Option<NameView> {
    match c {
        Some(x) => Some(contributor_view(x)),
        None => None,
    }
}

/// The contributors of `entries` with role `role`: `None` when there is none,
/// the contributor itself when there is one, and a list of them otherwise.
pub fn collect_contributors_by_role(entries: &Vec<ContributorEntry>, role: &ContributorRole) -> (r: Option<Contributor>)
    ensures
        opt_contributor_view(r) == collected(entries_view(entries@), role_view(*role)),
{
    let ghost ev = entries_view(entries@);
    let ghost rv = role_view(*role);
    let mut found: Vec<Contributor> = Vec::new();
    let mut i: usize = 0;
    while i < entries.len()
        invariant
            i <= entries.len(),
            ev == entries_view(entries@),
            rv == role_view(*role),
            views_of(found@) == matching(ev.take(i as int), rv),
        decreases entries.len() - i,
    {
        proof {
            lemma_views_of(found@);
            assert(ev.take(i + 1).drop_last() =~= ev.take(i as int));
            assert(ev.take(i + 1).last() == entry_view(entries@[i as int]));
        }
        if has_role(&entries[i].roles, role) {
            let ghost before = found@;
            found.push(copy_contributor(&entries[i].contributor));
            proof {
                lemma_views_of(found@);
                lemma_views_of(before);
                assert(views_of(found@) =~= views_of(before).push(contributor_view(entries@[i as int].contributor)));
            }
        }
        i = i + 1;
    }
    proof {
        assert(ev.take(entries.len() as int) =~= ev);
        lemma_views_of(found@);
    }
    if found.len() == 0 {
        None
    } else if found.len() == 1 {
        let x = found.pop().unwrap();
        Some(x)
    } else {
        Some(Contributor::ContributorList(found))
    }
}

/// A name part's identity key, empty when absent or blank.
pub open spec fn key_or_empty(v: Option<Seq<char>>) -> Seq<char> {
    match identity_part(v) {
        Some(p) => p,
        None => Seq::empty(),
    }
}

/// How a contributor is recognised again: a name used whole by its
/// normalised text (when not blank); a structured name by its five
/// normalised parts (when any is non-empty); a list by its first member.
pub open spec fn id_of_view(v: NameView) -> Option<(bool, Seq<Seq<char>>)>
    decreases v,
{
    match v {
        NameView::Simple(s) => match identity_part(Some(s)) {
            Some(l) => Some((true, seq![l])),
            None => None,
        },
        NameView::Structured(g, f, su, dp, ndp) => {
            let parts = seq![key_or_empty(Some(g)), key_or_empty(Some(f)), key_or_empty(su), key_or_empty(dp), key_or_empty(ndp)];
            if exists|i: int| 0 <= i < 5 && #[trigger] parts[i].len() > 0 {
                Some((false, parts))
            } else {
                None
            }
        },
        NameView::List(l) => if l.len() == 0 { None } else { id_of_view(l[0]) },
    }
}

/// The identity of a contributor, as [`id_of_view`] says.
pub fn contributor_identity(c: &Contributor) -> (r: Option<LegacyContributorIdentity>)
    ensures
        match (r, id_of_view(contributor_view(*c))) {
            (Some(x), Some(y)) => identity_view(x) == y,
            (None, None) => true,
            _ => false,
        },
    decreases c,
{
    match c {
        Contributor::SimpleName(s) => {
            let n = NameParts {
                literal: Some(owned(s.as_str())),
                given: None,
                family: None,
                suffix: None,
                dropping_particle: None,
                non_dropping_particle: None,
            };
            legacy_contributor_identity(Some(&n))
        },
        Contributor::StructuredName(x) => {
            let n = NameParts {
                literal: None,
                given: Some(owned(x.given.as_str())),
                family: Some(owned(x.family.as_str())),
                suffix: copy_opt(&x.suffix),
                dropping_particle: copy_opt(&x.dropping_particle),
                non_dropping_particle: copy_opt(&x.non_dropping_particle),
            };
            legacy_contributor_identity(Some(&n))
        },
        Contributor::ContributorList(v) => {
            if v.len() == 0 {
                proof {
                    lemma_views_of(v@);
                }
                None
            } else {
                proof {
                    lemma_views_of(v@);
                    let cc = *c;
                    assert(decreases_to!(cc => cc->ContributorList_0));
                    assert(decreases_to!(*v => v@));
                    assert(decreases_to!(v@ => v@[0]));
                }
                contributor_identity(&v[0])
            }
        },
    }
}

/// The position of the first of `l` (from `k` on) recognised as `id`.
pub open spec fn first_member_from(l: Seq<NameView>, id: (bool, Seq<Seq<char>>), k: int) -> Option<int>
    decreases l.len() - k,
{
    if k < 0 || k >= l.len() {
        None
    } else if id_of_view(l[k]) == Some(id) {
        Some(k)
    } else {
        first_member_from(l, id, k + 1)
    }
}

/// The first entry (from `k` on) that does not yet play role `rv` and holds a
/// contributor recognised as `id`: a list entry with the position of the
/// first such member, or another entry that is itself recognised as `id`.
pub open spec fn find_from(ev: Seq<(Seq<(int, Seq<char>)>, NameView)>, rv: (int, Seq<char>), id: (bool, Seq<Seq<char>>), k: int) -> Option<(int, Option<int>)>
    decreases ev.len() - k,
{
    if k < 0 || k >= ev.len() {
        None
    } else if ev[k].0.contains(rv) {
        find_from(ev, rv, id, k + 1)
    } else {
        match ev[k].1 {
            NameView::List(l) => match first_member_from(l, id, 0) {
                Some(p) => Some((k, Some(p))),
                None => find_from(ev, rv, id, k + 1),
            },
            other => if id_of_view(other) == Some(id) { Some((k, None)) } else { find_from(ev, rv, id, k + 1) },
        }
    }
}

/// Find where a contributor recognised as `identity` stands among `entries`
/// without role `role`, as [`find_from`] says.
pub fn find_legacy_contributor(entries: &Vec<ContributorEntry>, role: &ContributorRole, identity: &LegacyContributorIdentity) -> (r: Option<(usize, Option<usize>)>)
    ensures
        match (r, find_from(entries_view(entries@), role_view(*role), identity_view(*identity), 0)) {
            (Some((a, b)), Some((x, y))) => a == x && match (b, y) {
                (Some(p), Some(q)) => p == q,
                (None, None) => true,
                _ => false,
            },
            (None, None) => true,
            _ => false,
        },
{
    let ghost ev = entries_view(entries@);
    let ghost rv = role_view(*role);
    let ghost id = identity_view(*identity);
    let mut k: usize = 0;
    while k < entries.len()
        invariant
            k <= entries.len(),
            ev == entries_view(entries@),
            rv == role_view(*role),
            id == identity_view(*identity),
            find_from(ev, rv, id, 0) == find_from(ev, rv, id, k as int),
        decreases entries.len() - k,
    {
        assert(ev[k as int] == entry_view(entries@[k as int]));
        if !has_role(&entries[k].roles, role) {
            match &entries[k].contributor {
                Contributor::ContributorList(v) => {
                    let ghost l = views_of(v@);
                    proof {
                        lemma_views_of(v@);
                    }
                    let mut p: usize = 0;
                    while p < v.len()
                        invariant
                            p <= v.len(),
                            l == views_of(v@),
                            l.len() == v.len(),
                            forall|j: int| 0 <= j < v.len() ==> #[trigger] l[j] == contributor_view(v@[j]),
                            id == identity_view(*identity),
                            k < entries.len(),
                            ev == entries_view(entries@),
                            rv == role_view(*role),
                            find_from(ev, rv, id, 0) == find_from(ev, rv, id, k as int),
                            !ev[k as int].0.contains(rv),
                            ev[k as int].1 == NameView::List(l),
                            first_member_from(l, id, 0) == first_member_from(l, id, p as int),
                        decreases v.len() - p,
                    {
                        let here = contributor_identity(&v[p]);
                        let hit = match &here {
                            Some(x) => same_identity(x, identity),
                            None => false,
                        };
                        if hit {
                            proof {
                                assert(id_of_view(l[p as int]) == Some(id));
                                assert(first_member_from(l, id, p as int) == Some(p as int));
                                assert(find_from(ev, rv, id, k as int) == Some((k as int, Some(p as int))));
                            }
                            return Some((k, Some(p)));
                        }
                        p = p + 1;
                    }
                },
                other => {
                    let here = contributor_identity(other);
                    let hit = match &here {
                        Some(x) => same_identity(x, identity),
                        None => false,
                    };
                    if hit {
                        return Some((k, None));
                    }
                },
            }
        }
        k = k + 1;
    }
    None
}

/// `roles` with `r` added, unless it is there already.
pub open spec fn add_role(roles: Seq<(int, Seq<char>)>, r: (int, Seq<char>)) -> Seq<(int, Seq<char>)> {
    if roles.contains(r) { roles } else { roles.push(r) }
}

/// The entries after adding role `rv` to entry `i` (for a list entry, to its
/// member `m` alone, which is split out between the members before and
/// after it, each kept with the old roles when not empty), and whether the
/// entry (and member) existed.
pub open spec fn merged(ev: Seq<(Seq<(int, Seq<char>)>, NameView)>, i: int, m: Option<int>, rv: (int, Seq<char>)) -> (Seq<(Seq<(int, Seq<char>)>, NameView)>, bool) {
    if !(0 <= i < ev.len()) {
        (ev, false)
    } else {
        match m {
            None => (ev.update(i, (add_role(ev[i].0, rv), ev[i].1)), true),
            Some(mi) => match ev[i].1 {
                NameView::List(l) => if !(0 <= mi < l.len()) {
                    (ev, false)
                } else {
                    let roles = ev[i].0;
                    let before = l.take(mi);
                    let after = l.skip(mi + 1);
                    let head: Seq<(Seq<(int, Seq<char>)>, NameView)> = if before.len() > 0 { seq![(roles, NameView::List(before))] } else { Seq::empty() };
                    let tail: Seq<(Seq<(int, Seq<char>)>, NameView)> = if after.len() > 0 { seq![(roles, NameView::List(after))] } else { Seq::empty() };
                    (ev.take(i) + head + seq![(add_role(roles, rv), l[mi])] + tail + ev.skip(i + 1), true)
                },
                _ => (ev, false),
            },
        }
    }
}

fn copy_roles(roles: &Vec<ContributorRole>) -> (r: Vec<ContributorRole>)
    ensures
        r@.map_values(|x: ContributorRole| role_view(x)) == roles@.map_values(|x: ContributorRole| role_view(x)),
{
    let mut out: Vec<ContributorRole> = Vec::new();
    let mut i: usize = 0;
    while i < roles.len()
        invariant
            i <= roles.len(),
            out.len() == i,
            forall|k: int| 0 <= k < i ==> role_view(#[trigger] out@[k]) == role_view(roles@[k]),
        decreases roles.len() - i,
    {
        out.push(copy_role(&roles[i]));
        i = i + 1;
    }
    assert(out@.map_values(|x: ContributorRole| role_view(x)) =~= roles@.map_values(|x: ContributorRole| role_view(x)));
    out
}

fn roles_with(roles: &Vec<ContributorRole>, role: &ContributorRole) -> (r: Vec<ContributorRole>)
    ensures
        r@.map_values(|x: ContributorRole| role_view(x)) == add_role(roles@.map_values(|x: ContributorRole| role_view(x)), role_view(*role)),
{
    let mut out = copy_roles(roles);
    if !has_role(roles, role) {
        let ghost before = out@;
        out.push(copy_role(role));
        assert(out@.map_values(|x: ContributorRole| role_view(x)) =~= before.map_values(|x: ContributorRole| role_view(x)).push(role_view(*role)));
    }
    out
}

/// A copy of an entry.
pub fn copy_entry(e: &ContributorEntry) -> (r: ContributorEntry)
    ensures
        entry_view(r) == entry_view(*e),
{
    ContributorEntry { roles: copy_roles(&e.roles), contributor: copy_contributor(&e.contributor) }
}

fn copy_members(v: &Vec<Contributor>, from: usize, to: usize) -> (r: Vec<Contributor>)
    requires
        from <= to <= v.len(),
    ensures
        views_of(r@) == views_of(v@).subrange(from as int, to as int),
{
    let mut out: Vec<Contributor> = Vec::new();
    let mut i: usize = from;
    while i < to
        invariant
            from <= i <= to <= v.len(),
            out.len() == i - from,
            forall|k: int| 0 <= k < i - from ==> contributor_view(#[trigger] out@[k]) == contributor_view(v@[from + k]),
        decreases to - i,
    {
        out.push(copy_contributor(&v[i]));
        i = i + 1;
    }
    proof {
        lemma_views_of(out@);
        lemma_views_of(v@);
        assert(views_of(out@) =~= views_of(v@).subrange(from as int, to as int));
    }
    out
}

/// Add role `role` to entry `entry_index` of `entries`, or, for a list
/// entry, to its member `member_index` alone, as [`merged`] says; `false`,
/// with the entries unchanged, when there is no such entry or member.
pub fn merge_legacy_contributor_role(entries: &mut Vec<ContributorEntry>, entry_index: usize, member_index: Option<usize>, role: &ContributorRole) -> (r: bool)
    ensures
        (entries_view(final(entries)@), r) == merged(entries_view(old(entries)@), entry_index as int, match member_index {
            Some(m) => Some(m as int),
            None => None,
        }, role_view(*role)),
{
    let ghost ev = entries_view(entries@);
    let ghost rv = role_view(*role);
    let ghost mi_opt: Option<int> = match member_index { Some(m) => Some(m as int), None => None };
    if entry_index >= entries.len() {
        return false;
    }
    let i = entry_index;
    let mut replacement: Vec<ContributorEntry> = Vec::new();
    match member_index {
        None => {
            let e = &entries[i];
            replacement.push(ContributorEntry { roles: roles_with(&e.roles, role), contributor: copy_contributor(&e.contributor) });
        },
        Some(m) => {
            let e = &entries[i];
            match &e.contributor {
                Contributor::ContributorList(v) => {
                    if m >= v.len() {
                        proof {
                            lemma_views_of(v@);
                        }
                        return false;
                    }
                    proof {
                        lemma_views_of(v@);
                    }
                    if m > 0 {
                        replacement.push(ContributorEntry { roles: copy_roles(&e.roles), contributor: Contributor::ContributorList(copy_members(v, 0, m)) });
                    }
                    replacement.push(ContributorEntry { roles: roles_with(&e.roles, role), contributor: copy_contributor(&v[m]) });
                    if m + 1 < v.len() {
                        replacement.push(ContributorEntry { roles: copy_roles(&e.roles), contributor: Contributor::ContributorList(copy_members(v, m + 1, v.len())) });
                    }
                },
                _ => {
                    return false;
                },
            }
        },
    }
    let ghost rep = entries_view(replacement@);
    let mut out: Vec<ContributorEntry> = Vec::new();
    let mut k: usize = 0;
    while k < i
        invariant
            k <= i < entries.len(),
            ev == entries_view(entries@),
            entries_view(out@) == ev.take(k as int),
        decreases i - k,
    {
        let ghost before = out@;
        out.push(copy_entry(&entries[k]));
        proof {
            assert(entries_view(out@) =~= entries_view(before).push(entry_view(entries@[k as int])));
            assert(ev.take(k + 1) =~= ev.take(k as int).push(ev[k as int]));
        }
        k = k + 1;
    }
    let mut j: usize = 0;
    while j < replacement.len()
        invariant
            j <= replacement.len(),
            rep == entries_view(replacement@),
            entries_view(out@) == ev.take(i as int) + rep.take(j as int),
        decreases replacement.len() - j,
    {
        let ghost before = out@;
        out.push(copy_entry(&replacement[j]));
        proof {
            assert(entries_view(out@) =~= entries_view(before).push(entry_view(replacement@[j as int])));
            assert(rep.take(j + 1) =~= rep.take(j as int).push(rep[j as int]));
        }
        j = j + 1;
    }
    proof {
        assert(rep.take(replacement.len() as int) =~= rep);
    }
    let mut k: usize = i + 1;
    while k < entries.len()
        invariant
            i < k <= entries.len(),
            ev == entries_view(entries@),
            entries_view(out@) == ev.take(i as int) + rep + ev.subrange(i + 1, k as int),
        decreases entries.len() - k,
    {
        let ghost before = out@;
        out.push(copy_entry(&entries[k]));
        proof {
            assert(entries_view(out@) =~= entries_view(before).push(entry_view(entries@[k as int])));
            assert(ev.subrange(i + 1, k + 1) =~= ev.subrange(i + 1, k as int).push(ev[k as int]));
        }
        k = k + 1;
    }
    proof {
        assert(ev.subrange(i + 1, entries.len() as int) =~= ev.skip(i + 1));
        let roles = ev[i as int].0;
        match member_index {
            None => {
                assert(rep =~= seq![(add_role(roles, rv), ev[i as int].1)]);
                assert(ev.take(i as int) + rep + ev.skip(i + 1) =~= ev.update(i as int, (add_role(roles, rv), ev[i as int].1)));
            },
            Some(m) => {
                let l = ev[i as int].1->List_0;
                let before = l.take(m as int);
                let after = l.skip(m + 1);
                let head: Seq<(Seq<(int, Seq<char>)>, NameView)> = if before.len() > 0 { seq![(roles, NameView::List(before))] } else { Seq::empty() };
                let tail: Seq<(Seq<(int, Seq<char>)>, NameView)> = if after.len() > 0 { seq![(roles, NameView::List(after))] } else { Seq::empty() };
                assert(rep =~= head + seq![(add_role(roles, rv), l[m as int])] + tail);
                assert(ev.take(i as int) + rep + ev.skip(i + 1) =~= ev.take(i as int) + head + seq![(add_role(roles, rv), l[m as int])] + tail + ev.skip(i + 1));
            },
        }
    }
    *entries = out;
    true
}

/// The option view of a found position.
pub open spec fn found_view(r: Option<(usize, Option<usize>)>) -> Option<(int, Option<int>)> {
    match r {
        Some((a, b)) => Some((a as int, match b { Some(p) => Some(p as int), None => None })),
        None => None,
    }
}

/// Fold the members `ms` into `ev` under role `rv`, one by one: a member
/// recognised among the entries that do not yet play the role gets the role
/// there (see [`merged`]); the others gather, in order, after `un`.
pub open spec fn push_members(ev: Seq<(Seq<(int, Seq<char>)>, NameView)>, rv: (int, Seq<char>), ms: Seq<NameView>, un: Seq<NameView>) -> (Seq<(Seq<(int, Seq<char>)>, NameView)>, Seq<NameView>)
    decreases ms.len(),
{
    if ms.len() == 0 {
        (ev, un)
    } else {
        let m = ms[0];
        let rest = ms.drop_first();
        match id_of_view(m) {
            Some(id) => match find_from(ev, rv, id, 0) {
                Some((ei, mi)) => {
                    let (ev2, ok) = merged(ev, ei, mi, rv);
                    if ok { push_members(ev2, rv, rest, un) } else { push_members(ev, rv, rest, un.push(m)) }
                },
                None => push_members(ev, rv, rest, un.push(m)),
            },
            None => push_members(ev, rv, rest, un.push(m)),
        }
    }
}

/// The entries after adding the legacy names `names` under role `rv`: each
/// name already present (without the role) gets the role in place; the rest
/// form one new entry with that role alone, the contributor itself when there
/// is one and a list otherwise.
pub open spec fn pushed(ev: Seq<(Seq<(int, Seq<char>)>, NameView)>, rv: (int, Seq<char>), names: Option<Seq<NameView>>) -> Seq<(Seq<(int, Seq<char>)>, NameView)> {
    match names {
        None => ev,
        Some(ms) => {
            let (ev2, un) = push_members(ev, rv, ms, Seq::empty());
            if un.len() == 0 {
                ev2
            } else {
                ev2.push((seq![rv], if un.len() == 1 { un[0] } else { NameView::List(un) }))
            }
        },
    }
}

/// The contributors an optional list of legacy names becomes.
pub open spec fn opt_names(n: Option<Vec<NameParts>>) -> Option<Seq<NameView>> {
    match n {
        Some(v) => Some(names_view(v@)),
        None => None,
    }
}

/// Add the legacy names `names` to `entries` under role `role`, as
/// [`pushed`] says (each name becomes a contributor as [`name_to_view`] says).
pub fn push_legacy_contributor(entries: &mut Vec<ContributorEntry>, role: &ContributorRole, names: &Option<Vec<NameParts>>)
    ensures
        entries_view(final(entries)@) == pushed(entries_view(old(entries)@), role_view(*role), opt_names(*names)),
{
    let ns = match names {
        Some(ns) => ns,
        None => return,
    };
    let ghost rv = role_view(*role);
    let ghost ms = names_view(ns@);
    let ghost ev0 = entries_view(entries@);
    let mut unmatched: Vec<Contributor> = Vec::new();
    let mut k: usize = 0;
    proof {
        assert(ms.skip(0) =~= ms);
        lemma_views_of(unmatched@);
        assert(views_of(unmatched@) =~= Seq::<NameView>::empty());
    }
    while k < ns.len()
        invariant
            k <= ns.len(),
            rv == role_view(*role),
            ms == names_view(ns@),
            push_members(ev0, rv, ms, Seq::empty()) == push_members(entries_view(entries@), rv, ms.skip(k as int), views_of(unmatched@)),
        decreases ns.len() - k,
    {
        let member = contributor_from_name(&ns[k]);
        let ghost cur = entries_view(entries@);
        let ghost un = views_of(unmatched@);
        proof {
            assert(ms.skip(k as int)[0] == ms[k as int]);
            assert(ms.skip(k as int).drop_first() =~= ms.skip(k + 1));
        }
        let mut done = false;
        match contributor_identity(&member) {
            Some(id) => {
                match find_legacy_contributor(entries, role, &id) {
                    Some((ei, mi)) => {
                        done = merge_legacy_contributor_role(entries, ei, mi, role);
                    },
                    None => {},
                }
            },
            None => {},
        }
        if !done {
            let ghost before = unmatched@;
            unmatched.push(member);
            proof {
                lemma_views_of(before);
                lemma_views_of(unmatched@);
                assert(views_of(unmatched@) =~= views_of(before).push(contributor_view(unmatched@[before.len() as int])));
            }
        }
        k = k + 1;
    }
    proof {
        assert(ms.skip(ns.len() as int) =~= Seq::<NameView>::empty());
        lemma_views_of(unmatched@);
    }
    if unmatched.len() == 0 {
        return;
    }
    let contributor = if unmatched.len() == 1 {
        unmatched.pop().unwrap()
    } else {
        Contributor::ContributorList(unmatched)
    };
    let mut roles: Vec<ContributorRole> = Vec::new();
    roles.push(copy_role(role));
    let ghost before = entries@;
    entries.push(ContributorEntry { roles, contributor });
    proof {
        assert(roles@.map_values(|x: ContributorRole| role_view(x)) =~= seq![rv]);
        assert(entries_view(entries@) =~= entries_view(before).push(entry_view(entries@[before.len() as int])));
    }
}

fn same_opt(a: &Option<String>, b: &Option<String>) -> (r: bool)
    ensures
        r == (opt_view(*a) == opt_view(*b)),
{
    match (a, b) {
        (Some(x), Some(y)) => str_eq(x.as_str(), y.as_str()),
        (None, None) => true,
        _ => false,
    }
}

/// Whether two contributors are the same, name by name.
pub fn same_contributor(a: &Contributor, b: &Contributor) -> (r: bool)
    ensures
        r == (contributor_view(*a) == contributor_view(*b)),
    decreases a,
{
    match (a, b) {
        (Contributor::SimpleName(x), Contributor::SimpleName(y)) => str_eq(x.as_str(), y.as_str()),
        (Contributor::StructuredName(x), Contributor::StructuredName(y)) => {
            str_eq(x.given.as_str(), y.given.as_str()) && str_eq(x.family.as_str(), y.family.as_str())
                && same_opt(&x.suffix, &y.suffix) && same_opt(&x.dropping_particle, &y.dropping_particle)
                && same_opt(&x.non_dropping_particle, &y.non_dropping_particle)
        },
        (Contributor::ContributorList(x), Contributor::ContributorList(y)) => {
            proof {
                lemma_views_of(x@);
                lemma_views_of(y@);
            }
            if x.len() != y.len() {
                return false;
            }
            let mut i: usize = 0;
            while i < x.len()
                invariant
                    i <= x.len() == y.len(),
                    *a is ContributorList,
                    a->ContributorList_0 == *x,
                    contributor_view(*a) == NameView::List(views_of(x@)),
                    contributor_view(*b) == NameView::List(views_of(y@)),
                    views_of(x@).len() == x.len() && views_of(y@).len() == y.len(),
                    forall|j: int| 0 <= j < x.len() ==> #[trigger] views_of(x@)[j] == contributor_view(x@[j]),
                    forall|j: int| 0 <= j < y.len() ==> #[trigger] views_of(y@)[j] == contributor_view(y@[j]),
                    forall|j: int| 0 <= j < i ==> contributor_view(#[trigger] x@[j]) == contributor_view(y@[j]),
                decreases x.len() - i,
            {
                proof {
                    let aa = *a;
                    assert(decreases_to!(aa => aa->ContributorList_0));
                    assert(decreases_to!(*x => x@));
                    assert(decreases_to!(x@ => x@[i as int]));
                }
                if !same_contributor(&x[i], &y[i]) {
                    assert(views_of(x@)[i as int] != views_of(y@)[i as int]);
                    return false;
                }
                i = i + 1;
            }
            proof {
                assert(views_of(x@) =~= views_of(y@));
            }
            true
        },
        _ => false,
    }
}

impl PartialEq for Contributor {
    fn eq(&self, other: &Self) -> (r: bool) {
        same_contributor(self, other)
    }
}

impl vstd::std_specs::cmp::PartialEqSpecImpl for Contributor {
    open spec fn obeys_eq_spec() -> bool {
        true
    }

    open spec fn eq_spec(&self, other: &Self) -> bool {
        contributor_view(*self) == contributor_view(*other)
    }
}

/// The entries after appending each shorthand `(role, contributor)` that is
/// present, unless an entry already plays that role with that contributor.
pub open spec fn folded(ev: Seq<(Seq<(int, Seq<char>)>, NameView)>, shorts: Seq<((int, Seq<char>), Option<NameView>)>) -> Seq<(Seq<(int, Seq<char>)>, NameView)>
    decreases shorts.len(),
{
    if shorts.len() == 0 {
        ev
    } else {
        let (r, c) = shorts[0];
        let next = match c {
            Some(v) => if exists|k: int| 0 <= k < ev.len() && #[trigger] ev[k].0.contains(r) && ev[k].1 == v {
                ev
            } else {
                ev.push((seq![r], v))
            },
            None => ev,
        };
        folded(next, shorts.drop_first())
    }
}

/// A shorthand as plain values.
pub open spec fn shorthand_view(s: (ContributorRole, Option<Contributor>)) -> ((int, Seq<char>), Option<NameView>) {
    (role_view(s.0), opt_contributor_view(s.1))
}

/// Fold the shorthand contributors (author, editor, ...) into the entries,
/// as [`folded`] says: entries come first, in their order.
pub fn fold_contributors(contributors: Vec<ContributorEntry>, shorthands: &Vec<(ContributorRole, Option<Contributor>)>) -> (r: Vec<ContributorEntry>)
    ensures
        entries_view(r@) == folded(entries_view(contributors@), shorthands@.map_values(|s: (ContributorRole, Option<Contributor>)| shorthand_view(s))),
{
    let ghost sv = shorthands@.map_values(|s: (ContributorRole, Option<Contributor>)| shorthand_view(s));
    let mut out = contributors;
    let mut i: usize = 0;
    proof {
        assert(sv.skip(0) =~= sv);
    }
    while i < shorthands.len()
        invariant
            i <= shorthands.len(),
            sv == shorthands@.map_values(|s: (ContributorRole, Option<Contributor>)| shorthand_view(s)),
            folded(entries_view(contributors@), sv) == folded(entries_view(out@), sv.skip(i as int)),
        decreases shorthands.len() - i,
    {
        let ghost ev = entries_view(out@);
        proof {
            assert(sv.skip(i as int)[0] == sv[i as int]);
            assert(sv.skip(i as int).drop_first() =~= sv.skip(i + 1));
        }
        let (role, maybe) = &shorthands[i];
        match maybe {
            Some(c) => {
                let mut present = false;
                let mut k: usize = 0;
                while k < out.len()
                    invariant
                        k <= out.len(),
                        ev == entries_view(out@),
                        present == exists|j: int| 0 <= j < k && #[trigger] ev[j].0.contains(role_view(*role)) && ev[j].1 == contributor_view(*c),
                    decreases out.len() - k,
                {
                    assert(ev[k as int] == entry_view(out@[k as int]));
                    let hit = has_role(&out[k].roles, role) && same_contributor(&out[k].contributor, c);
                    proof {
                        if hit {
                            assert(ev[k as int].0.contains(role_view(*role)) && ev[k as int].1 == contributor_view(*c));
                        } else {
                            assert(!(ev[k as int].0.contains(role_view(*role)) && ev[k as int].1 == contributor_view(*c)));
                        }
                    }
                    if hit {
                        present = true;
                    }
                    k = k + 1;
                }
                if !present {
                    let mut roles: Vec<ContributorRole> = Vec::new();
                    roles.push(copy_role(role));
                    let ghost before = out@;
                    out.push(ContributorEntry { roles, contributor: copy_contributor(c) });
                    proof {
                        assert(roles@.map_values(|x: ContributorRole| role_view(x)) =~= seq![role_view(*role)]);
                        assert(entries_view(out@) =~= entries_view(before).push(entry_view(out@[before.len() as int])));
                    }
                }
            },
            None => {},
        }
        i = i + 1;
    }
    proof {
        assert(sv.skip(shorthands.len() as int) =~= Seq::<((int, Seq<char>), Option<NameView>)>::empty());
    }
    out
}

/// The entries after pushing each `(role, names)` step in turn.
pub open spec fn pushed_all(ev: Seq<(Seq<(int, Seq<char>)>, NameView)>, steps: Seq<((int, Seq<char>), Option<Seq<NameView>>)>) -> Seq<(Seq<(int, Seq<char>)>, NameView)>
    decreases steps.len(),
{
    if steps.len() == 0 {
        ev
    } else {
        pushed_all(pushed(ev, steps[0].0, steps[0].1), steps.drop_first())
    }
}

/// A step as plain values.
pub open spec fn step_view(s: (ContributorRole, Option<Vec<NameParts>>)) -> ((int, Seq<char>), Option<Seq<NameView>>) {
    (role_view(s.0), opt_names(s.1))
}

/// Push each `(role, names)` step into `entries` in turn.
pub fn push_steps(entries: &mut Vec<ContributorEntry>, steps: &Vec<(ContributorRole, Option<Vec<NameParts>>)>)
    ensures
        entries_view(final(entries)@) == pushed_all(entries_view(old(entries)@), steps@.map_values(|s: (ContributorRole, Option<Vec<NameParts>>)| step_view(s))),
{
    let ghost sv = steps@.map_values(|s: (ContributorRole, Option<Vec<NameParts>>)| step_view(s));
    let ghost ev0 = entries_view(entries@);
    let mut i: usize = 0;
    proof {
        assert(sv.skip(0) =~= sv);
    }
    while i < steps.len()
        invariant
            i <= steps.len(),
            sv == steps@.map_values(|s: (ContributorRole, Option<Vec<NameParts>>)| step_view(s)),
            pushed_all(ev0, sv) == pushed_all(entries_view(entries@), sv.skip(i as int)),
        decreases steps.len() - i,
    {
        proof {
            assert(sv.skip(i as int)[0] == sv[i as int]);
            assert(sv.skip(i as int).drop_first() =~= sv.skip(i + 1));
        }
        push_legacy_contributor(entries, &steps[i].0, &steps[i].1);
        i = i + 1;
    }
    proof {
        assert(sv.skip(steps.len() as int) =~= Seq::<((int, Seq<char>), Option<Seq<NameView>>)>::empty());
    }
}

/// The contributor an optional list of legacy names becomes.
pub open spec fn opt_list(n: Option<Seq<NameView>>) -> Option<NameView> {
    match n {
        Some(ms) => Some(NameView::List(ms)),
        None => None,
    }
}

/// A list of legacy names as a contributor list, when there is a list.
pub fn contributor_from_opt_names(names: &Option<Vec<NameParts>>) -> (r: Option<Contributor>)
    ensures
        opt_contributor_view(r) == opt_list(opt_names(*names)),
{
    match names {
        Some(v) => Some(contributor_from_names(v)),
        None => None,
    }
}

fn copy_name(n: &NameParts) -> (r: NameParts)
    ensures
        name_to_view(r) == name_to_view(*n),
{
    NameParts {
        literal: copy_opt(&n.literal),
        given: copy_opt(&n.given),
        family: copy_opt(&n.family),
        suffix: copy_opt(&n.suffix),
        dropping_particle: copy_opt(&n.dropping_particle),
        non_dropping_particle: copy_opt(&n.non_dropping_particle),
    }
}

/// A copy of a list of legacy names.
pub fn copy_name_list(v: &Vec<NameParts>) -> (r: Vec<NameParts>)
    ensures
        names_view(r@) == names_view(v@),
{
    let mut out: Vec<NameParts> = Vec::new();
    let mut i: usize = 0;
    while i < v.len()
        invariant
            i <= v.len(),
            out.len() == i,
            forall|k: int| 0 <= k < i ==> name_to_view(#[trigger] out@[k]) == name_to_view(v@[k]),
        decreases v.len() - i,
    {
        out.push(copy_name(&v[i]));
        i = i + 1;
    }
    assert(names_view(out@) =~= names_view(v@));
    out
}

/// A copy of an optional list of legacy names.
pub fn copy_names(names: &Option<Vec<NameParts>>) -> (r: Option<Vec<NameParts>>)
    ensures
        opt_names(r) == opt_names(*names),
{
    match names {
        Some(v) => Some(copy_name_list(v)),
        None => None,
    }
}

/// The contributors an entry holds, in order: a list's members, or the
/// contributor itself.
pub open spec fn members_of(v: NameView) -> Seq<NameView> {
    match v {
        NameView::List(l) => l,
        other => seq![other],
    }
}

/// Every contributor the entries hold, entry by entry, in order.
pub open spec fn all_members(ev: Seq<(Seq<(int, Seq<char>)>, NameView)>) -> Seq<NameView>
    decreases ev.len(),
{
    if ev.len() == 0 {
        Seq::empty()
    } else {
        all_members(ev.drop_last()) + members_of(ev.last().1)
    }
}

/// Whether no member of a list contributor is itself a list.
pub open spec fn flat_contributor(v: NameView) -> bool {
    v matches NameView::List(l) ==> forall|j: int| 0 <= j < l.len() ==> !(#[trigger] l[j] is List)
}

proof fn lemma_all_members_single(x: (Seq<(int, Seq<char>)>, NameView))
    ensures
        all_members(seq![x]) == members_of(x.1),
{
    assert(seq![x].drop_last() =~= Seq::<(Seq<(int, Seq<char>)>, NameView)>::empty());
    assert(seq![x].last() == x);
    assert(all_members(Seq::<(Seq<(int, Seq<char>)>, NameView)>::empty()) == Seq::<NameView>::empty());
    assert(Seq::<NameView>::empty() + members_of(x.1) =~= members_of(x.1));
}

proof fn lemma_all_members_concat(a: Seq<(Seq<(int, Seq<char>)>, NameView)>, b: Seq<(Seq<(int, Seq<char>)>, NameView)>)
    ensures
        all_members(a + b) == all_members(a) + all_members(b),
    decreases b.len(),
{
    if b.len() == 0 {
        assert(a + b =~= a);
        assert(all_members(a) + all_members(b) =~= all_members(a));
    } else {
        lemma_all_members_concat(a, b.drop_last());
        assert((a + b).drop_last() =~= a + b.drop_last());
        assert((a + b).last() == b.last());
        assert(all_members(a + b) =~= all_members(a) + all_members(b));
    }
}

/// Adding a role to a contributor keeps every contributor, in order: the
/// entries hold the same contributors before and after a merge; only roles
/// change, and a list may be split around the member that gets the role.
/// (Stated of entries whose lists hold no lists, as every list a legacy
/// record's names become.)
pub proof fn lemma_merge_keeps_contributors(ev: Seq<(Seq<(int, Seq<char>)>, NameView)>, i: int, m: Option<int>, rv: (int, Seq<char>))
    requires
        forall|k: int| 0 <= k < ev.len() ==> flat_contributor(#[trigger] ev[k].1),
    ensures
        all_members(merged(ev, i, m, rv).0) == all_members(ev),
{
    if 0 <= i < ev.len() {
        let e = ev[i];
        assert(ev =~= ev.take(i) + seq![e] + ev.skip(i + 1));
        lemma_all_members_concat(ev.take(i) + seq![e], ev.skip(i + 1));
        lemma_all_members_concat(ev.take(i), seq![e]);
        lemma_all_members_single(e);
        match m {
            None => {
                let e2 = (add_role(e.0, rv), e.1);
                assert(ev.update(i, e2) =~= ev.take(i) + seq![e2] + ev.skip(i + 1));
                lemma_all_members_concat(ev.take(i) + seq![e2], ev.skip(i + 1));
                lemma_all_members_concat(ev.take(i), seq![e2]);
                lemma_all_members_single(e2);
            },
            Some(mi) => {
                if let NameView::List(l) = e.1 {
                    if 0 <= mi < l.len() {
                        let roles = e.0;
                        let before = l.take(mi);
                        let after = l.skip(mi + 1);
                        let head: Seq<(Seq<(int, Seq<char>)>, NameView)> = if before.len() > 0 { seq![(roles, NameView::List(before))] } else { Seq::empty() };
                        let tail: Seq<(Seq<(int, Seq<char>)>, NameView)> = if after.len() > 0 { seq![(roles, NameView::List(after))] } else { Seq::empty() };
                        let mid = seq![(add_role(roles, rv), l[mi])];
                        let rep = head + mid + tail;
                        assert(merged(ev, i, m, rv).0 == ev.take(i) + head + mid + tail + ev.skip(i + 1));
                        assert(ev.take(i) + head + mid + tail + ev.skip(i + 1) =~= (ev.take(i) + rep) + ev.skip(i + 1));
                        lemma_all_members_concat(ev.take(i) + rep, ev.skip(i + 1));
                        lemma_all_members_concat(ev.take(i), rep);
                        lemma_all_members_concat(head + mid, tail);
                        lemma_all_members_concat(head, mid);
                        lemma_all_members_single((add_role(roles, rv), l[mi]));
                        assert(flat_contributor(ev[i].1));
                        assert(!(l[mi] is List));
                        assert(all_members(mid) =~= seq![l[mi]]);
                        if before.len() > 0 {
                            lemma_all_members_single((roles, NameView::List(before)));
                        }
                        assert(all_members(head) =~= before);
                        if after.len() > 0 {
                            lemma_all_members_single((roles, NameView::List(after)));
                        }
                        assert(all_members(tail) =~= after);
                        assert(before + seq![l[mi]] + after =~= l);
                    }
                }
            },
        }
    }
}

/// The entries that play role `r`, in order.
pub open spec fn entries_with(ev: Seq<(Seq<(int, Seq<char>)>, NameView)>, r: (int, Seq<char>)) -> Seq<(Seq<(int, Seq<char>)>, NameView)>
    decreases ev.len(),
{
    if ev.len() == 0 {
        Seq::empty()
    } else if ev.last().0.contains(r) {
        entries_with(ev.drop_last(), r).push(ev.last())
    } else {
        entries_with(ev.drop_last(), r)
    }
}

/// Copies of the entries of `entries` that play role `role`, in order.
pub fn entries_by_role(entries: &Vec<ContributorEntry>, role: &ContributorRole) -> (r: Vec<ContributorEntry>)
    ensures
        entries_view(r@) == entries_with(entries_view(entries@), role_view(*role)),
{
    let ghost ev = entries_view(entries@);
    let mut out: Vec<ContributorEntry> = Vec::new();
    let mut i: usize = 0;
    while i < entries.len()
        invariant
            i <= entries.len(),
            ev == entries_view(entries@),
            entries_view(out@) == entries_with(ev.take(i as int), role_view(*role)),
        decreases entries.len() - i,
    {
        proof {
            assert(ev.take(i + 1).drop_last() =~= ev.take(i as int));
            assert(ev.take(i + 1).last() == entry_view(entries@[i as int]));
        }
        if has_role(&entries[i].roles, role) {
            let ghost before = out@;
            out.push(copy_entry(&entries[i]));
            proof {
                assert(entries_view(out@) =~= entries_view(before).push(entry_view(entries@[i as int])));
            }
        }
        i = i + 1;
    }
    proof {
        assert(ev.take(entries.len() as int) =~= ev);
    }
    out
}

/// The contributors collected for a role are exactly those of the entries
/// that play it, in order.
pub proof fn lemma_matching_is_entries_with(ev: Seq<(Seq<(int, Seq<char>)>, NameView)>, r: (int, Seq<char>))
    ensures
        matching(ev, r) == entries_with(ev, r).map_values(|e: (Seq<(int, Seq<char>)>, NameView)| e.1),
    decreases ev.len(),
{
    if ev.len() > 0 {
        lemma_matching_is_entries_with(ev.drop_last(), r);
        let f = |e: (Seq<(int, Seq<char>)>, NameView)| e.1;
        if ev.last().0.contains(r) {
            assert(entries_with(ev.drop_last(), r).push(ev.last()).map_values(f)
                =~= entries_with(ev.drop_last(), r).map_values(f).push(ev.last().1));
        }
    } else {
        assert(entries_with(ev, r).map_values(|e: (Seq<(int, Seq<char>)>, NameView)| e.1) =~= Seq::<NameView>::empty());
    }
}

} // verus!
