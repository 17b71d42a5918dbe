//! The decisions of location lookup: which geocoding requests to make and
//! how their answers become a `Location`.
//!
//! The front-end performs the HTTP requests and reads the JSON answers; it
//! hands the fields it found here as plain strings.

use vstd::prelude::*;
use crate::text::{push_str, string_of, to_uppercase, unicode_uppercase, all_ascii, ascii_uppercase};
use crate::types::Location;
use vstd::utf8::encode_utf8;

verus! {

/// An unreserved URL byte: ASCII letters, digits and `-`, `.`, `_`, `~`.
pub open spec fn url_unreserved(b: u8) -> bool {
    (48 <= b <= 57) || (65 <= b <= 90) || (97 <= b <= 122) || b == 45 || b == 46 || b == 95 || b == 126
}

/// The uppercase hexadecimal digit of `d` (0–15).
pub open spec fn hex_digit(d: int) -> char {
    if d < 10 { ((48 + d) as u32) as char } else { ((55 + d) as u32) as char }
}

/// Percent-encoding of a byte string: unreserved bytes are kept, every
/// other byte becomes `%XX` in uppercase hexadecimal.
pub open spec fn percent_encode(bytes: Seq<u8>) -> Seq<char>
    decreases bytes.len(),
{
    if bytes.len() == 0 {
        Seq::empty()
    } else {
        let b = bytes[0];
        let head = if url_unreserved(b) {
            seq![(b as u32) as char]
        } else {
            seq!['%', hex_digit((b / 16) as int), hex_digit((b % 16) as int)]
        };
        head + percent_encode(bytes.drop_first())
    }
}

/// Percent-encodes the UTF-8 bytes of a string (`urlencoding::encode`).
#[verifier::external_body]
fn url_encode(s: &str) -> (r: String)
    ensures
        r@ == percent_encode(encode_utf8(s@)),
{
    urlencoding::encode(s).into_owned()
}

/// The name-search request of the geocoding service for a place name.
pub open spec fn search_url_of(name: Seq<char>) -> Seq<char> {
    "https://nominatim.openstreetmap.org/search?q="@ + percent_encode(encode_utf8(name))
        + "&format=json&limit=1"@
}

/// The URL that searches the geocoding service for a place name.
pub fn search_url(location_name: &str) -> (r: String)
    ensures
        r@ == search_url_of(location_name@),
{
    let mut url = string_of("https://nominatim.openstreetmap.org/search?q=");
    let encoded = url_encode(location_name);
    push_str(&mut url, encoded.as_str());
    push_str(&mut url, "&format=json&limit=1");
    url
}

/// The IP geolocation services tried in turn.
pub fn ip_services() -> (r: Vec<&'static str>)
    ensures
        r@.len() == 4,
        r@[0]@ == "https://ipapi.co/json/"@,
        r@[1]@ == "https://ipinfo.io/json"@,
        r@[2]@ == "https://freegeoip.app/json/"@,
        r@[3]@ == "https://extreme-ip-lookup.com/json/"@,
{
    let mut v = Vec::new();
    v.push("https://ipapi.co/json/");
    v.push("https://ipinfo.io/json");
    v.push("https://freegeoip.app/json/");
    v.push("https://extreme-ip-lookup.com/json/");
    v
}

/// The view of an optional string.
pub open spec fn opt_str(o: Option<String>) -> Option<Seq<char>> {
    match o {
        Some(s) => Some(s@),
        None => None,
    }
}

/// The first present value, or `fallback`.
pub open spec fn first_or(a: Option<String>, b: Option<String>, fallback: Seq<char>) -> Seq<char> {
    match a {
        Some(s) => s@,
        None => match b {
            Some(s) => s@,
            None => fallback,
        },
    }
}

/// Picks the first present value, or copies `fallback`.
fn pick(a: &Option<String>, b: &Option<String>, fallback: &str) -> (r: String)
    ensures
        r@ == first_or(*a, *b, fallback@),
{
    match a {
        Some(s) => s.clone(),
        None => match b {
            Some(s) => s.clone(),
            None => string_of(fallback),
        },
    }
}

/// Copies an optional string.
fn copy_opt(a: &Option<String>) -> (r: Option<String>)
    ensures
        opt_str(r) == opt_str(*a),
{
    match a {
        Some(s) => Some(s.clone()),
        None => None,
    }
}

/// The string fields an IP geolocation answer may carry, under the names
/// the various services use.
#[derive(Debug, Clone)]
pub struct IpFields {
    pub city: Option<String>,
    pub region_name: Option<String>,
    pub country_name: Option<String>,
    pub country: Option<String>,
    pub country_code: Option<String>,
    pub country_code_camel: Option<String>,
    pub region: Option<String>,
    pub region_name_camel: Option<String>,
    pub timezone: Option<String>,
}

/// The location an IP geolocation answer describes.
pub open spec fn ip_location_of(l: Location, f: IpFields) -> bool {
    &&& l.name@ == first_or(f.city, f.region_name, "Unknown"@)
    &&& l.country@ == first_or(f.country_name, f.country, "Unknown"@)
    &&& l.country_code@ == unicode_uppercase(first_or(f.country_code, f.country_code_camel, "UN"@))
    &&& (all_ascii(first_or(f.country_code, f.country_code_camel, "UN"@))
        ==> l.country_code@ == ascii_uppercase(first_or(f.country_code, f.country_code_camel, "UN"@)))
    &&& opt_str(l.region) == match f.region {
        Some(r) => Some(r@),
        None => opt_str(f.region_name_camel),
    }
    &&& l.timezone@ == first_or(f.timezone, None, "UTC"@)
    &&& l.state is None
}

/// Builds the location of an IP geolocation answer (whose coordinates
/// were found): the city, else the region name, else "Unknown"; the country
/// name, else the country, else "Unknown"; the uppercased country code,
/// else "UN"; the region under either spelling; the timezone, else "UTC".
pub fn location_from_ip_fields(fields: &IpFields) -> (r: Location)
    ensures
        ip_location_of(r, *fields),
{
    let name = pick(&fields.city, &fields.region_name, "Unknown");
    let country = pick(&fields.country_name, &fields.country, "Unknown");
    let code = pick(&fields.country_code, &fields.country_code_camel, "UN");
    let country_code = to_uppercase(code.as_str());
    let region = match &fields.region {
        Some(r) => Some(r.clone()),
        None => copy_opt(&fields.region_name_camel),
    };
    let timezone = pick(&fields.timezone, &None, "UTC");
    Location { name, country, country_code, timezone, region, state: None }
}

/// The string fields of a reverse-geocoding address.
#[derive(Debug, Clone)]
pub struct AddressFields {
    pub city: Option<String>,
    pub town: Option<String>,
    pub village: Option<String>,
    pub hamlet: Option<String>,
    pub country: Option<String>,
    pub country_code: Option<String>,
    pub state: Option<String>,
    pub region: Option<String>,
}

/// The settlement name of an address: city, town, village or hamlet, in that
/// order, else "Unknown".
pub open spec fn settlement_of(f: AddressFields) -> Seq<char> {
    match f.city {
        Some(c) => c@,
        None => match f.town {
            Some(t) => t@,
            None => first_or(f.village, f.hamlet, "Unknown"@),
        },
    }
}

/// The location a reverse-geocoded address describes.
pub open spec fn address_location_of(l: Location, f: AddressFields, name_override: Option<String>,
    timezone: Seq<char>) -> bool
{
    &&& l.name@ == match name_override {
        Some(n) => n@,
        None => settlement_of(f),
    }
    &&& l.country@ == first_or(f.country, None, "Unknown"@)
    &&& l.country_code@ == match f.country_code {
        Some(c) => unicode_uppercase(c@),
        None => "UN"@,
    }
    &&& match f.country_code {
        Some(c) => all_ascii(c@) ==> l.country_code@ == ascii_uppercase(c@),
        None => true,
    }
    &&& opt_str(l.state) == opt_str(f.state)
    &&& opt_str(l.region) == opt_str(f.region)
    &&& l.timezone@ == timezone
}

/// Builds the location of a reverse-geocoded address: the overriding name
/// when given, else the settlement name; the country, else "Unknown"; the
/// uppercased country code, else "UN"; state, region and timezone as given.
pub fn location_from_address(fields: &AddressFields, name_override: Option<String>, timezone: String) -> (r: Location)
    ensures
        address_location_of(r, *fields, name_override, timezone@),
{
    let name = match name_override {
        Some(n) => n,
        None => match &fields.city {
            Some(c) => c.clone(),
            None => match &fields.town {
                Some(t) => t.clone(),
                None => pick(&fields.village, &fields.hamlet, "Unknown"),
            },
        },
    };
    let country = pick(&fields.country, &None, "Unknown");
    let country_code = match &fields.country_code {
        Some(c) => to_uppercase(c.as_str()),
        None => string_of("UN"),
    };
    Location {
        name,
        country,
        country_code,
        timezone,
        region: copy_opt(&fields.region),
        state: copy_opt(&fields.state),
    }
}

/// The timezone of a timezone-lookup answer, or "UTC" when it carries none.
pub fn timezone_or_utc(timezone_id: Option<String>) -> (r: String)
    ensures
        r@ == match timezone_id {
            Some(t) => t@,
            None => "UTC"@,
        },
{
    match timezone_id {
        Some(t) => t,
        None => string_of("UTC"),
    }
}

/// The display name of a name-search hit, or "Unknown" when it has none.
pub fn search_hit_name(display_name: Option<String>) -> (r: String)
    ensures
        r@ == match display_name {
            Some(n) => n@,
            None => "Unknown"@,
        },
{
    match display_name {
        Some(n) => n,
        None => string_of("Unknown"),
    }
}

} // verus!
