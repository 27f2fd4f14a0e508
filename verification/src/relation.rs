//! Links between works: the original a work translates or reissues, the
//! event it records, and the collection (series) it belongs to.
//!
//! A related work is embedded with the few fields the link carries; every
//! other field of it is empty.

use vstd::prelude::*;

use crate::contributor::{opt_contributor_view, Contributor, NameView};
use crate::conversion::opt_view;
use crate::date::DateValue;
use crate::legacy::{publisher_from_parts, publisher_of};
use crate::types::{Publisher, RefID, Title};

verus! {

/// An embedded monograph: the fields a link to a monograph carries.
#[derive(Debug, Clone, PartialEq)]
pub struct MonographRelation {
    /// Title.
    pub title: Option<Title>,
    /// Author.
    pub author: Option<Contributor>,
    /// Publication date (empty when unknown).
    pub issued: DateValue,
    /// Genre.
    pub genre: Option<String>,
    /// Publisher.
    pub publisher: Option<Publisher>,
    /// The collection (series) the monograph belongs to.
    pub series: Option<CollectionRelation>,
}

/// An embedded event: its title, location and date.
#[derive(Debug, Clone, PartialEq)]
pub struct EventRelation {
    /// Title.
    pub title: Option<Title>,
    /// Location.
    pub location: Option<String>,
    /// Date.
    pub date: Option<DateValue>,
}

/// An embedded collection (series), known by its title.
#[derive(Debug, Clone, PartialEq)]
pub struct CollectionRelation {
    /// Title.
    pub title: Title,
}

/// A link to another work: embedded, or by its identifier.
#[derive(Debug, Clone, PartialEq)]
pub enum WorkRelation {
    /// An embedded monograph.
    Monograph(MonographRelation),
    /// An embedded event.
    Event(EventRelation),
    /// An embedded collection.
    Collection(CollectionRelation),
    /// A work known by its identifier.
    Id(RefID),
}

/// A link to a monograph with the given fields; none when every field is
/// absent. An absent date is empty; the publisher is built from its name and
/// place (a place alone gives a publisher with an empty name).
pub fn relation_monograph(
    title: Option<Title>,
    author: Option<Contributor>,
    issued: Option<DateValue>,
    genre: Option<String>,
    publisher: Option<String>,
    publisher_place: Option<String>,
) -> (r: Option<WorkRelation>)
    ensures
        r is None <==> (title is None && author is None && issued is None && genre is None
            && publisher is None && publisher_place is None),
        r matches Some(w) ==> w matches WorkRelation::Monograph(m) && {
            &&& m.title == title
            &&& opt_contributor_view(m.author) == opt_contributor_view(author)
            &&& match issued {
                Some(d) => m.issued == d,
                None => m.issued.value@.len() == 0 && m.issued.note is None,
            }
            &&& m.genre == genre
            &&& publisher_of(m.publisher, opt_view(publisher), opt_view(publisher_place))
            &&& m.series is None
        },
{
    if title.is_none() && author.is_none() && issued.is_none() && genre.is_none() && publisher.is_none()
        && publisher_place.is_none() {
        return None;
    }
    let issued = match issued {
        Some(d) => d,
        None => DateValue { value: String::new(), note: None },
    };
    Some(WorkRelation::Monograph(MonographRelation {
        title,
        author,
        issued,
        genre,
        publisher: publisher_from_parts(publisher, publisher_place),
        series: None,
    }))
}

/// A link to an event with the given title, location and date; none when all
/// three are absent.
pub fn relation_event(title: Option<String>, location: Option<String>, date: Option<DateValue>) -> (r: Option<WorkRelation>)
    ensures
        r is None <==> (title is None && location is None && date is None),
        r matches Some(w) ==> w matches WorkRelation::Event(e) && {
            &&& e.title == match title {
                Some(t) => Some(Title::Single(t)),
                None => None,
            }
            &&& e.location == location
            &&& e.date == date
        },
{
    if title.is_none() && location.is_none() && date.is_none() {
        return None;
    }
    let title = match title {
        Some(t) => Some(Title::Single(t)),
        None => None,
    };
    Some(WorkRelation::Event(EventRelation { title, location, date }))
}

/// A link to the collection titled `title`; none without a title.
pub fn relation_collection_title(title: Option<String>) -> (r: Option<WorkRelation>)
    ensures
        match title {
            Some(t) => r == Some(WorkRelation::Collection(CollectionRelation { title: Title::Single(t) })),
            None => r is None,
        },
{
    match title {
        Some(t) => Some(WorkRelation::Collection(CollectionRelation { title: Title::Single(t) })),
        None => None,
    }
}

/// `r` is the link to a monograph with (as plain values) title text `title`
/// (a single title), author `author`, date text `issued`, genre `genre`, and
/// a publisher of name `publisher` and place `place`.
pub open spec fn monograph_link(
    r: Option<WorkRelation>,
    title: Option<Seq<char>>,
    author: Option<NameView>,
    issued: Option<Seq<char>>,
    genre: Option<Seq<char>>,
    publisher: Option<Seq<char>>,
    place: Option<Seq<char>>,
) -> bool {
    if title is None && author is None && issued is None && genre is None && publisher is None && place is None {
        r is None
    } else {
        r matches Some(WorkRelation::Monograph(m)) && {
            &&& match title {
                Some(t) => m.title matches Some(Title::Single(s)) && s@ == t,
                None => m.title is None,
            }
            &&& opt_contributor_view(m.author) == author
            &&& m.issued.value@ == (match issued { Some(d) => d, None => Seq::empty() })
            &&& m.issued.note is None
            &&& opt_view(m.genre) == genre
            &&& publisher_of(m.publisher, publisher, place)
            &&& m.series is None
        }
    }
}

/// `r` is the link to an event with (as plain values) title `title`, location
/// `location` and date text `date`.
pub open spec fn event_link(r: Option<WorkRelation>, title: Option<Seq<char>>, location: Option<Seq<char>>, date: Option<Seq<char>>) -> bool {
    if title is None && location is None && date is None {
        r is None
    } else {
        r matches Some(WorkRelation::Event(e)) && {
            &&& match title {
                Some(t) => e.title matches Some(Title::Single(s)) && s@ == t,
                None => e.title is None,
            }
            &&& opt_view(e.location) == location
            &&& match date {
                Some(d) => e.date matches Some(x) && x.value@ == d && x.note is None,
                None => e.date is None,
            }
        }
    }
}

} // verus!

verus! {

/// `r` is the parent of a monograph: a monograph titled `title` (when there
/// is one) in the collection titled `series` (when there is one); none when
/// neither is given.
pub open spec fn parent_link(r: Option<WorkRelation>, title: Option<Seq<char>>, series: Option<Seq<char>>) -> bool {
    if title is None && series is None {
        r is None
    } else {
        r matches Some(WorkRelation::Monograph(m)) && {
            &&& match title {
                Some(t) => m.title matches Some(Title::Single(s)) && s@ == t,
                None => m.title is None,
            }
            &&& m.author is None && m.genre is None && m.publisher is None
            &&& m.issued.value@.len() == 0 && m.issued.note is None
            &&& match series {
                Some(t) => m.series matches Some(c) && c.title matches Title::Single(s) && s@ == t,
                None => m.series is None,
            }
        }
    }
}

/// The parent of a monograph titled `title` in the collection titled
/// `series`, as [`parent_link`] says.
pub fn relation_parent(title: Option<String>, series: Option<String>) -> (r: Option<WorkRelation>)
    ensures
        parent_link(r, opt_view(title), opt_view(series)),
{
    if title.is_none() && series.is_none() {
        return None;
    }
    let series = match series {
        Some(t) => Some(CollectionRelation { title: Title::Single(t) }),
        None => None,
    };
    let title = match title {
        Some(t) => Some(Title::Single(t)),
        None => None,
    };
    Some(WorkRelation::Monograph(MonographRelation {
        title,
        author: None,
        issued: DateValue { value: String::new(), note: None },
        genre: None,
        publisher: None,
        series,
    }))
}

} // verus!
