//! Reference class discriminator.

use vstd::prelude::*;

use crate::text::str_eq;

verus! {

/// Typed class discriminator of a reference.
#[derive(Debug, Clone, PartialEq, Eq, Hash)]
pub enum ReferenceClass {
    /// A monograph, such as a book or report.
    Monograph,
    /// A component of a larger monographic collection.
    CollectionComponent,
    /// A component of a larger serial publication.
    SerialComponent,
    /// A collection of works, such as an anthology or proceedings.
    Collection,
    /// A serial publication, such as a journal or newspaper.
    Serial,
    /// A legal case.
    LegalCase,
    /// A statute or legislative act.
    Statute,
    /// An international treaty or agreement.
    Treaty,
    /// A legislative or administrative hearing.
    Hearing,
    /// An administrative regulation.
    Regulation,
    /// A legal brief or filing.
    Brief,
    /// A classic work with standard citation forms.
    Classic,
    /// A patent.
    Patent,
    /// A research dataset.
    Dataset,
    /// A technical standard or specification.
    Standard,
    /// Software or source code.
    Software,
    /// An event such as a conference, performance, or broadcast.
    Event,
    /// An audio-visual work.
    AudioVisual,
    /// A class string not known by this version; the string itself is kept.
    Unknown(String),
}

/// The known class whose wire-format name is `s`, if any.
pub open spec fn known_class(s: Seq<char>) -> Option<ReferenceClass> {
    if s == "monograph"@ {
        Some(ReferenceClass::Monograph)
    } else if s == "collection-component"@ {
        Some(ReferenceClass::CollectionComponent)
    } else if s == "serial-component"@ {
        Some(ReferenceClass::SerialComponent)
    } else if s == "collection"@ {
        Some(ReferenceClass::Collection)
    } else if s == "serial"@ {
        Some(ReferenceClass::Serial)
    } else if s == "legal-case"@ {
        Some(ReferenceClass::LegalCase)
    } else if s == "statute"@ {
        Some(ReferenceClass::Statute)
    } else if s == "treaty"@ {
        Some(ReferenceClass::Treaty)
    } else if s == "hearing"@ {
        Some(ReferenceClass::Hearing)
    } else if s == "regulation"@ {
        Some(ReferenceClass::Regulation)
    } else if s == "brief"@ {
        Some(ReferenceClass::Brief)
    } else if s == "classic"@ {
        Some(ReferenceClass::Classic)
    } else if s == "patent"@ {
        Some(ReferenceClass::Patent)
    } else if s == "dataset"@ {
        Some(ReferenceClass::Dataset)
    } else if s == "standard"@ {
        Some(ReferenceClass::Standard)
    } else if s == "software"@ {
        Some(ReferenceClass::Software)
    } else if s == "event"@ {
        Some(ReferenceClass::Event)
    } else if s == "audio-visual"@ {
        Some(ReferenceClass::AudioVisual)
    } else {
        None
    }
}

/// The known class names in their wire-format spelling, in declaration order.
pub open spec fn known_class_names() -> Seq<Seq<char>> {
    seq![
        "monograph"@,
        "collection-component"@,
        "serial-component"@,
        "collection"@,
        "serial"@,
        "legal-case"@,
        "statute"@,
        "treaty"@,
        "hearing"@,
        "regulation"@,
        "brief"@,
        "classic"@,
        "patent"@,
        "dataset"@,
        "standard"@,
        "software"@,
        "event"@,
        "audio-visual"@
    ]
}

impl ReferenceClass {
    /// This class's wire-format spelling; an unknown class keeps its own string.
    pub open spec fn wire_name(&self) -> Seq<char> {
        match self {
            ReferenceClass::Monograph => "monograph"@,
            ReferenceClass::CollectionComponent => "collection-component"@,
            ReferenceClass::SerialComponent => "serial-component"@,
            ReferenceClass::Collection => "collection"@,
            ReferenceClass::Serial => "serial"@,
            ReferenceClass::LegalCase => "legal-case"@,
            ReferenceClass::Statute => "statute"@,
            ReferenceClass::Treaty => "treaty"@,
            ReferenceClass::Hearing => "hearing"@,
            ReferenceClass::Regulation => "regulation"@,
            ReferenceClass::Brief => "brief"@,
            ReferenceClass::Classic => "classic"@,
            ReferenceClass::Patent => "patent"@,
            ReferenceClass::Dataset => "dataset"@,
            ReferenceClass::Standard => "standard"@,
            ReferenceClass::Software => "software"@,
            ReferenceClass::Event => "event"@,
            ReferenceClass::AudioVisual => "audio-visual"@,
            ReferenceClass::Unknown(class) => class@,
        }
    }

    /// Known class names in their wire-format spelling.
    pub fn known_names() -> (r: Vec<&'static str>)
        ensures
            r@.map_values(|s: &'static str| s@) == known_class_names(),
    {
        let mut r: Vec<&'static str> = Vec::new();
        r.push("monograph");
        r.push("collection-component");
        r.push("serial-component");
        r.push("collection");
        r.push("serial");
        r.push("legal-case");
        r.push("statute");
        r.push("treaty");
        r.push("hearing");
        r.push("regulation");
        r.push("brief");
        r.push("classic");
        r.push("patent");
        r.push("dataset");
        r.push("standard");
        r.push("software");
        r.push("event");
        r.push("audio-visual");
        proof {
            assert(r@.map_values(|s: &'static str| s@) =~= known_class_names());
        }
        r
    }

    /// Return the known discriminator for a wire-format class name.
    pub fn from_known_name(class: &str) -> (r: Option<Self>)
        ensures
            r == known_class(class@),
    {
        if str_eq(class, "monograph") {
            Some(ReferenceClass::Monograph)
        } else if str_eq(class, "collection-component") {
            Some(ReferenceClass::CollectionComponent)
        } else if str_eq(class, "serial-component") {
            Some(ReferenceClass::SerialComponent)
        } else if str_eq(class, "collection") {
            Some(ReferenceClass::Collection)
        } else if str_eq(class, "serial") {
            Some(ReferenceClass::Serial)
        } else if str_eq(class, "legal-case") {
            Some(ReferenceClass::LegalCase)
        } else if str_eq(class, "statute") {
            Some(ReferenceClass::Statute)
        } else if str_eq(class, "treaty") {
            Some(ReferenceClass::Treaty)
        } else if str_eq(class, "hearing") {
            Some(ReferenceClass::Hearing)
        } else if str_eq(class, "regulation") {
            Some(ReferenceClass::Regulation)
        } else if str_eq(class, "brief") {
            Some(ReferenceClass::Brief)
        } else if str_eq(class, "classic") {
            Some(ReferenceClass::Classic)
        } else if str_eq(class, "patent") {
            Some(ReferenceClass::Patent)
        } else if str_eq(class, "dataset") {
            Some(ReferenceClass::Dataset)
        } else if str_eq(class, "standard") {
            Some(ReferenceClass::Standard)
        } else if str_eq(class, "software") {
            Some(ReferenceClass::Software)
        } else if str_eq(class, "event") {
            Some(ReferenceClass::Event)
        } else if str_eq(class, "audio-visual") {
            Some(ReferenceClass::AudioVisual)
        } else {
            None
        }
    }

    /// Return this class's wire-format spelling.
    pub fn name(&self) -> (r: &str)
        ensures
            r@ == self.wire_name(),
    {
        match self {
            ReferenceClass::Monograph => "monograph",
            ReferenceClass::CollectionComponent => "collection-component",
            ReferenceClass::SerialComponent => "serial-component",
            ReferenceClass::Collection => "collection",
            ReferenceClass::Serial => "serial",
            ReferenceClass::LegalCase => "legal-case",
            ReferenceClass::Statute => "statute",
            ReferenceClass::Treaty => "treaty",
            ReferenceClass::Hearing => "hearing",
            ReferenceClass::Regulation => "regulation",
            ReferenceClass::Brief => "brief",
            ReferenceClass::Classic => "classic",
            ReferenceClass::Patent => "patent",
            ReferenceClass::Dataset => "dataset",
            ReferenceClass::Standard => "standard",
            ReferenceClass::Software => "software",
            ReferenceClass::Event => "event",
            ReferenceClass::AudioVisual => "audio-visual",
            ReferenceClass::Unknown(class) => class.as_str(),
        }
    }
}

/// A known class is recognised by its own name, and a recognised name is the
/// name of the class it gives: `from_known_name` and `name` invert each other
/// on the known vocabulary, and every name that `known_names` lists is recognised.
pub proof fn lemma_class_name_round_trip(c: ReferenceClass, s: Seq<char>)
    ensures
        !(c is Unknown) ==> known_class(c.wire_name()) == Some(c),
        known_class(s) matches Some(k) ==> k.wire_name() == s && !(k is Unknown),
        forall|i: int| 0 <= i < known_class_names().len() ==> #[trigger] known_class(known_class_names()[i]) is Some,
{
    lemma_known_class_name(s);
    lemma_known_names_distinct();
    assert(!(c is Unknown) ==> known_class(c.wire_name()) == Some(c)) by {
        match c {
            ReferenceClass::Unknown(_) => {},
            _ => {},
        }
    }
}

/// The known names differ pairwise: each has its own length or first letters.
proof fn lemma_known_names_distinct()
    ensures
        "monograph"@.len() == 9 && "monograph"@[0] == 'm',
        "collection-component"@.len() == 20 && "collection-component"@[0] == 'c',
        "serial-component"@.len() == 16 && "serial-component"@[0] == 's',
        "collection"@.len() == 10 && "collection"@[0] == 'c',
        "serial"@.len() == 6 && "serial"@[0] == 's',
        "legal-case"@.len() == 10 && "legal-case"@[0] == 'l',
        "statute"@.len() == 7 && "statute"@[0] == 's',
        "treaty"@.len() == 6 && "treaty"@[0] == 't',
        "hearing"@.len() == 7 && "hearing"@[0] == 'h',
        "regulation"@.len() == 10 && "regulation"@[0] == 'r',
        "brief"@.len() == 5 && "brief"@[0] == 'b',
        "classic"@.len() == 7 && "classic"@[0] == 'c',
        "patent"@.len() == 6 && "patent"@[0] == 'p',
        "dataset"@.len() == 7 && "dataset"@[0] == 'd',
        "standard"@.len() == 8 && "standard"@[0] == 's' && "standard"@[1] == 't',
        "software"@.len() == 8 && "software"@[0] == 's' && "software"@[1] == 'o',
        "event"@.len() == 5 && "event"@[0] == 'e',
        "audio-visual"@.len() == 12 && "audio-visual"@[0] == 'a',
{
    reveal_strlit("monograph");
    reveal_strlit("collection-component");
    reveal_strlit("serial-component");
    reveal_strlit("collection");
    reveal_strlit("serial");
    reveal_strlit("legal-case");
    reveal_strlit("statute");
    reveal_strlit("treaty");
    reveal_strlit("hearing");
    reveal_strlit("regulation");
    reveal_strlit("brief");
    reveal_strlit("classic");
    reveal_strlit("patent");
    reveal_strlit("dataset");
    reveal_strlit("standard");
    reveal_strlit("software");
    reveal_strlit("event");
    reveal_strlit("audio-visual");
}

proof fn lemma_known_class_name(s: Seq<char>)
    ensures
        known_class(s) matches Some(k) ==> k.wire_name() == s && !(k is Unknown),
{
}

} // verus!
