//! The address that one weather request goes to.

use vstd::prelude::*;
use crate::forecast::{Config, FetchError, WeatherQuery};

verus! {

/// The weather service's endpoint for current conditions.
pub const ENDPOINT: &'static str = "http://api.openweathermap.org/data/2.5/weather";

/// The request for a place as it is written down: the endpoint, the place
/// as `q=<city>,<country code>`, and the key as `appid=<key>`.
pub open spec fn request_text(city: Seq<char>, country_code: Seq<char>, api_key: Seq<char>) -> Seq<
    char,
> {
    ENDPOINT@ + "?q="@ + city + ","@ + country_code + "&appid="@ + api_key
}

/// What `reqwest::Url::parse` makes of a text: the serialization of the URL
/// it parsed, or `None` where it reports a parse error.
pub uninterp spec fn parsed_url(text: Seq<char>) -> Option<Seq<char>>;

/// The address a request goes to, or the reason why none goes out: without a
/// key nothing is sent, and a request text that is no URL cannot be sent.
pub open spec fn planned_request(
    city: Seq<char>,
    country_code: Seq<char>,
    api_key: Option<Seq<char>>,
) -> Result<Seq<char>, FetchError> {
    match api_key {
        None => Err(FetchError::MissingApiKey),
        Some(key) => address_of(parsed_url(request_text(city, country_code, key))),
    }
}

/// The address that a parsed request text stands for.
pub open spec fn address_of(parsed: Option<Seq<char>>) -> Result<Seq<char>, FetchError> {
    match parsed {
        Some(url) => Ok(url),
        None => Err(FetchError::RequestFailed),
    }
}

/// Calls `reqwest::Url::parse`, which is the `url` crate's parser, on `text`
/// and hands back the parsed URL's serialization. Trusted: that the parser's
/// answer depends on the text alone.
#[verifier::external_body]
fn parse_url(text: &str) -> (parsed: Option<String>)
    ensures
        match parsed {
            Some(url) => parsed_url(text@) == Some(url@),
            None => parsed_url(text@) is None,
        },
{
    match reqwest::Url::parse(text) {
        Ok(url) => Some(String::from(url)),
        Err(_) => None,
    }
}

/// Writes down the request for the place of `query` with the key `api_key`.
pub fn write_request(query: &WeatherQuery, api_key: &str) -> (text: String)
    ensures
        text@ == request_text(query.city@, query.country_code@, api_key@),
{
    let mut text = String::from_str(ENDPOINT);
    text.append("?q=");
    text.append(query.city.as_str());
    text.append(",");
    text.append(query.country_code.as_str());
    text.append("&appid=");
    text.append(api_key);
    text
}

/// Turns a parsed request text into the address to fetch: a text that did
/// not parse is a failed request.
pub fn to_address(parsed: Option<String>) -> (address: Result<String, FetchError>)
    ensures
        match parsed {
            Some(url) => address == Ok::<String, FetchError>(url),
            None => address == Err::<String, FetchError>(FetchError::RequestFailed),
        },
{
    match parsed {
        Some(url) => Ok(url),
        None => Err(FetchError::RequestFailed),
    }
}

/// The address to fetch for `query`. Without a configured key there is
/// none, and the error says so before anything is written or parsed.
pub fn request_url(query: &WeatherQuery, config: &Config) -> (address: Result<String, FetchError>)
    ensures
        match planned_request(query.city@, query.country_code@, config.key()) {
            Ok(url) => address is Ok && address->Ok_0@ == url,
            Err(e) => address == Err::<String, FetchError>(e),
        },
{
    match &config.api_key {
        None => Err(FetchError::MissingApiKey),
        Some(key) => {
            let text = write_request(query, key.as_str());
            to_address(parse_url(text.as_str()))
        },
    }
}

} // verus!
