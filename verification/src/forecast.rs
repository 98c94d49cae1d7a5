//! What is asked of the weather service, what it answers, and how a request
//! can fail.

use vstd::prelude::*;

verus! {

/// The place whose weather is asked for. Neither part is validated.
#[derive(Debug, PartialEq, Eq)]
pub struct WeatherQuery {
    pub city: String,
    pub country_code: String,
}

/// What the program is configured with: the key of the weather service, if
/// there is one.
#[derive(Debug, PartialEq, Eq)]
pub struct Config {
    pub api_key: Option<String>,
}

/// One weather condition of an answer.
#[derive(Debug, PartialEq, Eq)]
pub struct Weather {
    pub id: i32,
    pub main: String,
    pub description: String,
}

/// The weather service's answer for one place.
#[derive(Debug, PartialEq, Eq)]
pub struct Forecast {
    pub weather: Vec<Weather>,
    pub name: String,
    pub id: i32,
}

/// Why no forecast was obtained.
#[derive(Clone, Copy, Debug, PartialEq, Eq, Structural)]
pub enum FetchError {
    /// No key of the weather service is configured.
    MissingApiKey,
    /// The request could not be made, or the service refused it.
    RequestFailed,
    /// The service's answer is not a forecast.
    DecodeFailed,
}

impl Config {
    /// The configured key as text.
    pub open spec fn key(&self) -> Option<Seq<char>> {
        match self.api_key {
            Some(key) => Some(key@),
            None => None,
        }
    }
}

impl Forecast {
    /// The descriptions of the answer's weather conditions, in the
    /// service's order.
    pub open spec fn descriptions(&self) -> Seq<Seq<char>> {
        Seq::new(self.weather@.len(), |i: int| self.weather@[i].description@)
    }
}

} // verus!
