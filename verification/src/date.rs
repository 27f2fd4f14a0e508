//! EDTF date values with an optional opaque note.
//!
//! `value` is the canonical EDTF string; every computation reads it and never
//! the note. Reading EDTF itself (years, days, ranges, times) is the work of an
//! EDTF parser; the accessors here take that parser's reading of `value` as an
//! argument and derive their answers from it.

use vstd::prelude::*;
use vstd::std_specs::convert::FromSpecImpl;

use crate::text::{chars_of, contains_char, i64_decimal, int_decimal, owned};

verus! {

/// An EDTF date value, with an optional opaque note.
///
/// `note` is uninterpreted display text supplied alongside the date (such as
/// source-calendar wording next to a Gregorian `value`); it is preserved
/// verbatim and never parsed, converted, or validated.
#[derive(Debug, Clone, PartialEq)]
pub struct DateValue {
    /// The EDTF value.
    pub value: String,
    /// Optional opaque, uninterpreted text alongside the date.
    pub note: Option<String>,
}

/// What an EDTF parser reports of a date string that it accepts.
#[derive(Debug, Clone, Copy, PartialEq, Eq, Structural)]
pub struct EdtfReading {
    /// The (first) year of the date.
    pub year: i64,
    /// The day of the month, if the date has one.
    pub day: Option<u32>,
    /// Whether the date is an interval.
    pub range: bool,
    /// Whether the interval is open-ended.
    pub open_range: bool,
    /// Whether the date carries a time of day.
    pub time: bool,
}

/// The year text of a date: the reading's year in decimal, or empty when
/// the value is not EDTF.
pub open spec fn year_text(parsed: Option<EdtfReading>) -> Seq<char> {
    match parsed {
        Some(p) => int_decimal(p.year as int),
        None => Seq::empty(),
    }
}

/// The day of a date, when it has a positive one.
pub open spec fn day_of(parsed: Option<EdtfReading>) -> Option<u32> {
    match parsed {
        Some(p) => match p.day {
            Some(d) => if d > 0 { Some(d) } else { None },
            None => None,
        },
        None => None,
    }
}

/// Whether a date's value is empty.
pub open spec fn date_is_empty(d: DateValue) -> bool {
    d.value@.len() == 0
}

/// Whether a date's value carries the uncertainty qualifier `?`.
pub open spec fn date_is_uncertain(d: DateValue) -> bool {
    d.value@.contains('?')
}

/// Whether a date's value carries the approximation qualifier `~`.
pub open spec fn date_is_approximate(d: DateValue) -> bool {
    d.value@.contains('~')
}

impl Default for DateValue {
    fn default() -> (r: Self)
        ensures
            r.value@.len() == 0,
            r.note is None,
    {
        DateValue { value: String::new(), note: None }
    }
}

impl DateValue {
    /// Construct a `DateValue` with no note, from any string-like value.
    pub fn new<V: Into<String>>(value: V) -> (r: Self)
        ensures
            r.note is None,
            call_ensures(V::into, (value,), r.value),
    {
        DateValue { value: value.into(), note: None }
    }

    /// Check if the date value is empty.
    pub fn is_empty(&self) -> (r: bool)
        ensures
            r == date_is_empty(*self),
    {
        let v = chars_of(self.value.as_str());
        v.len() == 0
    }

    /// Extract the year from the date: `parsed` is the EDTF reading of
    /// `self.value` (`None` when it is not EDTF, and the year is then empty).
    pub fn year(&self, parsed: &Option<EdtfReading>) -> (r: String)
        ensures
            r@ == year_text(*parsed),
    {
        match parsed {
            Some(p) => i64_decimal(p.year),
            None => String::new(),
        }
    }

    /// Extract the day from the date; a day of zero counts as none.
    pub fn day(&self, parsed: &Option<EdtfReading>) -> (r: Option<u32>)
        ensures
            r == day_of(*parsed),
    {
        match parsed {
            Some(p) => match p.day {
                Some(d) => if d > 0 { Some(d) } else { None },
                None => None,
            },
            None => None,
        }
    }

    /// Check if the date is uncertain (has a `?` qualifier).
    pub fn is_uncertain(&self) -> (r: bool)
        ensures
            r == date_is_uncertain(*self),
    {
        let v = chars_of(self.value.as_str());
        contains_char(&v, '?')
    }

    /// Check if the date is approximate (has a `~` qualifier).
    pub fn is_approximate(&self) -> (r: bool)
        ensures
            r == date_is_approximate(*self),
    {
        let v = chars_of(self.value.as_str());
        contains_char(&v, '~')
    }

    /// Check if the date is a range (interval).
    pub fn is_range(&self, parsed: &Option<EdtfReading>) -> (r: bool)
        ensures
            r == (parsed matches Some(p) && p.range),
    {
        match parsed {
            Some(p) => p.range,
            None => false,
        }
    }

    /// Check if the range is open-ended.
    pub fn is_open_range(&self, parsed: &Option<EdtfReading>) -> (r: bool)
        ensures
            r == (parsed matches Some(p) && p.open_range),
    {
        match parsed {
            Some(p) => p.open_range,
            None => false,
        }
    }

    /// Check if the date has a time component.
    pub fn has_time(&self, parsed: &Option<EdtfReading>) -> (r: bool)
        ensures
            r == (parsed matches Some(p) && p.time),
    {
        match parsed {
            Some(p) => p.time,
            None => false,
        }
    }

    /// The text the date displays as: its value.
    pub fn to_display_string(&self) -> (r: String)
        ensures
            r@ == self.value@,
    {
        owned(self.value.as_str())
    }
}

impl From<String> for DateValue {
    fn from(value: String) -> (r: Self)
        ensures
            r == (DateValue { value, note: None }),
    {
        DateValue { value, note: None }
    }
}

impl FromSpecImpl<String> for DateValue {
    open spec fn obeys_from_spec() -> bool {
        true
    }

    open spec fn from_spec(value: String) -> Self {
        DateValue { value, note: None }
    }
}

impl<'a> From<&'a str> for DateValue {
    fn from(value: &'a str) -> (r: Self)
        ensures
            r.value@ == value@,
            r.note is None,
    {
        DateValue { value: owned(value), note: None }
    }
}

impl<'a> FromSpecImpl<&'a str> for DateValue {
    open spec fn obeys_from_spec() -> bool {
        false
    }

    open spec fn from_spec(value: &'a str) -> Self {
        arbitrary()
    }
}

/// The note never influences what is computed off a date: two dates with the
/// same value are equally empty, uncertain and approximate. (The year, day,
/// range and time accessors read only the EDTF reading of the value.)
pub proof fn lemma_note_is_ignored(a: DateValue, b: DateValue)
    requires
        a.value@ == b.value@,
    ensures
        date_is_empty(a) == date_is_empty(b),
        date_is_uncertain(a) == date_is_uncertain(b),
        date_is_approximate(a) == date_is_approximate(b),
{
}

} // verus!
