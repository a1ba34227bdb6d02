//! The place of a hop, as a line of text made from the answer of a
//! geolocation service.

use vstd::prelude::*;

verus! {

/// Where the service is asked: the address to look up follows this prefix.
pub const LOCATION_SERVICE: &'static str = "http://ip-api.com/json/";

/// `serde_json::Value`, a JSON value; nothing inside it is seen from here.
#[verifier::external_type_specification]
#[verifier::external_body]
pub struct ExJsonValue(serde_json::Value);

/// The members of the JSON value `value` that hold a string, by name, as
/// `serde_json::Value::get` and `serde_json::Value::as_str` find them: empty
/// unless the value is an object.
pub uninterp spec fn json_string_members(value: serde_json::Value) -> Map<Seq<char>, Seq<char>>;

/// The text of member `name` among `members`, if there is such a member.
pub open spec fn member(members: Map<Seq<char>, Seq<char>>, name: Seq<char>) -> Option<Seq<char>> {
    if members.contains_key(name) {
        Some(members[name])
    } else {
        None
    }
}

/// The text `found`, or `fallback` where nothing was found.
pub open spec fn text_or(found: Option<Seq<char>>, fallback: Seq<char>) -> Seq<char> {
    match found {
        Some(text) => text,
        None => fallback,
    }
}

/// The place as one line: city, comma, country, each replaced by a stand-in
/// where it is not known.
pub open spec fn location_text(city: Option<Seq<char>>, country: Option<Seq<char>>) -> Seq<char> {
    text_or(city, "No city"@) + ", "@ + text_or(country, "No country"@)
}

/// The characters of an optional string.
pub open spec fn text_of(found: Option<String>) -> Option<Seq<char>> {
    match found {
        Some(text) => Some(text@),
        None => None,
    }
}

/// `String::push_str` appends the text to the string.
pub assume_specification[ String::push_str ](text: &mut String, tail: &str)
    ensures
        final(text)@ == old(text)@ + tail@,
;

/// Calls `serde_json::Value::get` with a name and, on the member found,
/// `serde_json::Value::as_str`. Believed of them: the result is the text of
/// the member `name` where `value` is an object that has such a member and
/// the member is a string, and `None` in every other case.
#[verifier::external_body]
fn json_string_member(value: &serde_json::Value, name: &str) -> (text: Option<String>)
    ensures
        text_of(text) == member(json_string_members(*value), name@),
{
    value.get(name).and_then(serde_json::Value::as_str).map(str::to_owned)
}

/// The address at which the service answers for the host written as `host`.
pub fn location_query_url(host: &str) -> (url: String)
    ensures
        url@ == LOCATION_SERVICE@ + host@,
{
    let mut url = LOCATION_SERVICE.to_owned();
    url.push_str(host);
    url
}

/// The place as one line, "city, country". Where the city or the country is
/// not known, "No city" or "No country" stands in.
pub fn format_location(city: Option<String>, country: Option<String>) -> (display: String)
    ensures
        display@ == location_text(text_of(city), text_of(country)),
{
    let mut display = match city {
        Some(city) => city,
        None => "No city".to_owned(),
    };
    let country = match country {
        Some(country) => country,
        None => "No country".to_owned(),
    };
    display.push_str(", ");
    display.push_str(country.as_str());
    display
}

/// The place that the answer `data` of the service describes, as one line:
/// the answer's members "city" and "country" where they hold text, and the
/// stand-ins where they do not.
pub fn location_display(data: &serde_json::Value) -> (display: String)
    ensures
        display@ == location_text(
            member(json_string_members(*data), "city"@),
            member(json_string_members(*data), "country"@),
        ),
{
    let city = json_string_member(data, "city");
    let country = json_string_member(data, "country");
    format_location(city, country)
}

} // verus!
