//! Telling apart the three ways a place can be named: by a numeric id, by a
//! pair of coordinates, or by free text.

use crate::pattern::{
    occurs_in, pattern_compiles, regex_captures, search, Groups, PatternError,
};
use vstd::prelude::*;
use vstd::string::*;

verus! {

/// An ASCII decimal digit.
pub open spec fn is_digit(c: char) -> bool {
    '0' <= c && c <= '9'
}

/// Every character is a decimal digit.
pub open spec fn all_digits(s: Seq<char>) -> bool {
    forall|i: int| 0 <= i < s.len() ==> is_digit(#[trigger] s[i])
}

/// The text is a numeric id: one or more decimal digits and nothing else,
/// however many they are.
pub open spec fn is_numeric_id(s: Seq<char>) -> bool {
    s.len() > 0 && all_digits(s)
}

/// The ASCII code of the digit zero.
const ASCII_ZERO: u8 = 48;

/// The ASCII code of the digit nine.
const ASCII_NINE: u8 = 57;

/// Whether `s` writes an unsigned integer: one or more decimal digits and
/// nothing else. The number may be of any size; no sign is taken.
pub fn parses_as_unsigned(s: &str) -> (b: bool)
    ensures
        b == is_numeric_id(s@),
{
    if !s.is_ascii() {
        proof {
            let i = choose|i: int| 0 <= i < s@.len() && !('\0' <= #[trigger] s@[i] <= '\u{7f}');
            assert(!is_digit(s@[i]));
        }
        return false;
    }
    let n: usize = s.unicode_len();
    if n == 0 {
        return false;
    }
    let mut i: usize = 0;
    while i < n
        invariant
            n == s@.len(),
            i <= n,
            s.is_ascii(),
            all_digits(s@.subrange(0, i as int)),
        decreases n - i,
    {
        let b: u8 = s.get_ascii(i);
        if b < ASCII_ZERO || b > ASCII_NINE {
            assert(!is_digit(s@[i as int]));
            return false;
        }
        assert(s@.subrange(0, i + 1) =~= s@.subrange(0, i as int).push(s@[i as int]));
        i += 1;
    }
    assert(s@.subrange(0, i as int) =~= s@);
    true
}

/// The expression that finds a pair of coordinates in a text: two numbers,
/// each with an optional minus sign and with digits on both sides of a
/// decimal point, separated by a comma that may have white space around it.
pub const COORDINATES_PATTERN: &'static str = r"(-?\d+\.\d+)\s*,\s*(-?\d+\.\d+)";

/// A place, in the one of three forms that the service is asked by.
#[derive(Debug, Clone, PartialEq, Eq)]
pub enum Location {
    /// The numeric id of a place, as it was written.
    Id(String),
    /// Latitude and longitude, each as it was written.
    Coordinates { lat: String, lon: String },
    /// The name of a place, as it was written.
    Name(String),
}

/// What a `Location` holds, as plain text.
pub enum LocationView {
    Id(Seq<char>),
    Coordinates { lat: Seq<char>, lon: Seq<char> },
    Name(Seq<char>),
}

impl View for Location {
    type V = LocationView;

    open spec fn view(&self) -> LocationView {
        match self {
            Location::Id(id) => LocationView::Id(id@),
            Location::Coordinates { lat, lon } => LocationView::Coordinates { lat: lat@, lon: lon@ },
            Location::Name(name) => LocationView::Name(name@),
        }
    }
}

/// The two numbers that a search for `COORDINATES_PATTERN` reports: the
/// texts of its groups 1 and 2, where the search found a match and both
/// groups took part in it.
pub open spec fn reported_coordinates(found: Option<Seq<Option<Seq<char>>>>) -> Option<
    (Seq<char>, Seq<char>),
> {
    match found {
        Some(groups) => if groups.len() >= 3 && groups[1] is Some && groups[2] is Some {
            Some((groups[1]->0, groups[2]->0))
        } else {
            None
        },
        None => None,
    }
}

/// The form in which the place written as `text` is asked for, given what
/// the search for coordinates in `text` found. A text of decimal digits
/// only is an id; failing that, a text in which coordinates were found
/// stands for those coordinates; any other text is a name.
pub open spec fn location_of(text: Seq<char>, found: Option<Seq<Option<Seq<char>>>>) -> LocationView {
    if is_numeric_id(text) {
        LocationView::Id(text)
    } else {
        match reported_coordinates(found) {
            Some((lat, lon)) => LocationView::Coordinates { lat, lon },
            None => LocationView::Name(text),
        }
    }
}

/// Decides the form of the place written as `text`, where `found` is the
/// outcome of searching `text` for `COORDINATES_PATTERN`.
pub fn classify(text: &str, found: &Option<Groups>) -> (location: Location)
    ensures
        location@ == location_of(text@, found.deep_view()),
{
    if parses_as_unsigned(text) {
        return Location::Id(String::from_str(text));
    }
    match found {
        Some(groups) => {
            if groups.len() >= 3 {
                match (&groups[1], &groups[2]) {
                    (Some(lat), Some(lon)) => Location::Coordinates {
                        lat: lat.clone(),
                        lon: lon.clone(),
                    },
                    _ => Location::Name(String::from_str(text)),
                }
            } else {
                Location::Name(String::from_str(text))
            }
        },
        None => Location::Name(String::from_str(text)),
    }
}

/// Decides the form of the place written as `text`.
///
/// A text of decimal digits only is an id, and no search is made for it.
/// Any other text is searched for `COORDINATES_PATTERN`, and the outcome
/// decides between coordinates and a name as `location_of` says. It fails
/// for such a text if, and only if, the expression engine refuses the
/// pattern.
pub fn resolve(text: &str) -> (resolved: Result<Location, PatternError>)
    ensures
        resolved is Ok <==> is_numeric_id(text@) || pattern_compiles(COORDINATES_PATTERN@),
        resolved matches Ok(location) ==> location@ == location_of(
            text@,
            regex_captures(COORDINATES_PATTERN@, text@),
        ),
        resolved matches Ok(Location::Coordinates { lat, lon }) ==> occurs_in(lat@, text@)
            && occurs_in(lon@, text@),
{
    if parses_as_unsigned(text) {
        return Ok(Location::Id(String::from_str(text)));
    }
    match search(COORDINATES_PATTERN, text) {
        Ok(found) => {
            let location = classify(text, &found);
            Ok(location)
        },
        Err(e) => Err(e),
    }
}

} // verus!
