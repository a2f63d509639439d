//! The address that a weather report is fetched from.

use crate::location::{
    is_digit, is_numeric_id, location_of, reported_coordinates, resolve, Location, LocationView,
    COORDINATES_PATTERN,
};
use crate::pattern::{pattern_compiles, regex_captures, PatternError};
use vstd::prelude::*;
use vstd::string::*;

verus! {

/// Where the current weather is served.
pub const ENDPOINT: &'static str = "https://api.openweathermap.org/data/2.5/weather";

/// The part of the query that names the place: exactly one of `id=`,
/// `lat=` with `lon=`, and `q=`, with the texts of the location put in as
/// they are.
pub open spec fn place_query(location: LocationView) -> Seq<char> {
    match location {
        LocationView::Id(id) => "id="@ + id,
        LocationView::Coordinates { lat, lon } => "lat="@ + lat + "&lon="@ + lon,
        LocationView::Name(name) => "q="@ + name,
    }
}

/// The address that is asked for the weather at `location`: the endpoint,
/// the place, then the unit system, the language and the key, each put in as
/// it is.
pub open spec fn url_text(
    location: LocationView,
    units: Seq<char>,
    lang: Seq<char>,
    api_key: Seq<char>,
) -> Seq<char> {
    ENDPOINT@ + "?"@ + place_query(location) + "&units="@ + units + "&lang="@ + lang + "&appid="@
        + api_key
}

/// Writes the part of the query that names the place.
fn place_query_string(location: &Location) -> (query: String)
    ensures
        query@ == place_query(location@),
{
    match location {
        Location::Id(id) => {
            let mut query = String::from_str("id=");
            query.append(id.as_str());
            query
        },
        Location::Coordinates { lat, lon } => {
            let mut query = String::from_str("lat=");
            query.append(lat.as_str());
            query.append("&lon=");
            query.append(lon.as_str());
            query
        },
        Location::Name(name) => {
            let mut query = String::from_str("q=");
            query.append(name.as_str());
            query
        },
    }
}

/// The address that is asked for the weather at `location`, in the unit
/// system `units` and the language `lang`, with the key `api_key`.
pub fn request_url(location: &Location, units: &str, lang: &str, api_key: &str) -> (url: String)
    ensures
        url@ == url_text(location@, units@, lang@, api_key@),
{
    let query = place_query_string(location);
    let mut url = String::from_str(ENDPOINT);
    url.append("?");
    url.append(query.as_str());
    url.append("&units=");
    url.append(units);
    url.append("&lang=");
    url.append(lang);
    url.append("&appid=");
    url.append(api_key);
    url
}

/// The address that is asked for the weather at the place written as
/// `place`: `request_url` of the location that `resolve` finds in it.
///
/// It fails if, and only if, `place` is no numeric id and the expression
/// engine refuses the pattern for coordinates.
pub fn build_url(place: &str, units: &str, lang: &str, api_key: &str) -> (built: Result<
    String,
    PatternError,
>)
    ensures
        built is Ok <==> is_numeric_id(place@) || pattern_compiles(COORDINATES_PATTERN@),
        built matches Ok(url) ==> url@ == url_text(
            location_of(place@, regex_captures(COORDINATES_PATTERN@, place@)),
            units@,
            lang@,
            api_key@,
        ),
{
    match resolve(place) {
        Ok(location) => Ok(request_url(&location, units, lang, api_key)),
        Err(e) => Err(e),
    }
}

/// A text that holds a decimal point is no numeric id.
pub proof fn lemma_decimal_point_is_no_id(text: Seq<char>)
    requires
        text.contains('.'),
    ensures
        !is_numeric_id(text),
{
    let i = choose|i: int| 0 <= i < text.len() && text[i] == '.';
    assert(!is_digit(text[i]));
}

/// A place written with decimal digits only, however many, is asked for by
/// its id, the digits put into the address as they are, whatever a search
/// for coordinates would find in it: never by name and never by
/// coordinates.
pub proof fn lemma_digits_ask_by_id(
    text: Seq<char>,
    found: Option<Seq<Option<Seq<char>>>>,
    units: Seq<char>,
    lang: Seq<char>,
    api_key: Seq<char>,
)
    requires
        is_numeric_id(text),
    ensures
        location_of(text, found) == LocationView::Id(text),
        url_text(location_of(text, found), units, lang, api_key) == ENDPOINT@ + "?"@ + ("id="@
            + text) + "&units="@ + units + "&lang="@ + lang + "&appid="@ + api_key,
{
}

/// A place written with a decimal point, in which the search for
/// coordinates reports the two numbers `lat` and `lon`, is asked for by
/// those coordinates, each number put into the address as the search
/// reported it.
pub proof fn lemma_coordinates_ask_by_position(
    text: Seq<char>,
    found: Option<Seq<Option<Seq<char>>>>,
    lat: Seq<char>,
    lon: Seq<char>,
    units: Seq<char>,
    lang: Seq<char>,
    api_key: Seq<char>,
)
    requires
        text.contains('.'),
        reported_coordinates(found) == Some((lat, lon)),
    ensures
        location_of(text, found) == (LocationView::Coordinates { lat, lon }),
        url_text(location_of(text, found), units, lang, api_key) == ENDPOINT@ + "?"@ + ("lat="@
            + lat + "&lon="@ + lon) + "&units="@ + units + "&lang="@ + lang + "&appid="@ + api_key,
{
    lemma_decimal_point_is_no_id(text);
}

/// A place that is not written with decimal digits only and in which the
/// search for coordinates reports no pair of numbers is asked for by name,
/// the text put into the address as it is.
pub proof fn lemma_other_text_asks_by_name(
    text: Seq<char>,
    found: Option<Seq<Option<Seq<char>>>>,
    units: Seq<char>,
    lang: Seq<char>,
    api_key: Seq<char>,
)
    requires
        !is_numeric_id(text),
        reported_coordinates(found) is None,
    ensures
        location_of(text, found) == LocationView::Name(text),
        url_text(location_of(text, found), units, lang, api_key) == ENDPOINT@ + "?"@ + ("q="@
            + text) + "&units="@ + units + "&lang="@ + lang + "&appid="@ + api_key,
{
}

} // verus!
