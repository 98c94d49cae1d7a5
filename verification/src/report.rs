//! What is shown for the outcome of a weather request, and the one linear
//! run from a query to its report.

use vstd::prelude::*;
use crate::forecast::{Config, FetchError, Forecast, WeatherQuery};
use crate::panel::{happy_panel, happy_weather_crab, sad_crab, sad_panel};
use crate::request::{planned_request, request_url};

verus! {

/// Shown in the box when the service's answer holds no weather condition.
pub const NO_WEATHER_DATA: &'static str = "No Weather Data";

/// Shown in the box when no key of the weather service is configured.
pub const NO_API_KEY: &'static str = "No API Key Detected";

/// What the program shows and how it ends.
#[derive(Debug, PartialEq, Eq)]
pub struct Report {
    /// The lines of the panel to print; none where an error is reported
    /// without a panel.
    pub panel: Vec<String>,
    /// The error the run ended with, if it did.
    pub error: Option<FetchError>,
}

/// The panel for the outcome of a request, given the descriptions of the
/// forecast where there is one.
///
/// Of a forecast only the first description is shown; one without any gets
/// the sad panel. A missing key gets the sad panel too. The other errors are
/// reported without a panel.
pub open spec fn panel_for(outcome: Result<Seq<Seq<char>>, FetchError>) -> Seq<Seq<char>> {
    match outcome {
        Ok(descriptions) => if descriptions.len() > 0 {
            happy_panel(descriptions[0])
        } else {
            sad_panel(NO_WEATHER_DATA@)
        },
        Err(FetchError::MissingApiKey) => sad_panel(NO_API_KEY@),
        Err(_) => Seq::empty(),
    }
}

/// The error that the outcome of a request ends the run with.
pub open spec fn error_of(outcome: Result<Seq<Seq<char>>, FetchError>) -> Option<FetchError> {
    match outcome {
        Ok(_) => None,
        Err(e) => Some(e),
    }
}

/// The status the process exits with: 0 unless the run ended with an error.
pub open spec fn exit_status(error: Option<FetchError>) -> i32 {
    if error is Some {
        1
    } else {
        0
    }
}

/// An outcome as the report sees it: of a forecast, its descriptions.
pub open spec fn seen(outcome: Result<Forecast, FetchError>) -> Result<Seq<Seq<char>>, FetchError> {
    match outcome {
        Ok(forecast) => Ok(forecast.descriptions()),
        Err(e) => Err(e),
    }
}

impl Report {
    /// Whether this is the report for `outcome`.
    pub open spec fn reports(&self, outcome: Result<Seq<Seq<char>>, FetchError>) -> bool {
        &&& self.panel.deep_view() == panel_for(outcome)
        &&& self.error == error_of(outcome)
    }

    /// The status the process exits with.
    pub fn exit_code(&self) -> (code: i32)
        ensures
            code == exit_status(self.error),
    {
        match self.error {
            Some(_) => 1,
            None => 0,
        }
    }
}

impl FetchError {
    /// The text of the diagnostic for this error.
    pub open spec fn message_text(self) -> Seq<char> {
        match self {
            FetchError::MissingApiKey => NO_API_KEY@,
            FetchError::RequestFailed => "the weather request failed"@,
            FetchError::DecodeFailed => "the weather service's answer could not be decoded"@,
        }
    }

    /// The diagnostic for this error.
    pub fn message(&self) -> (text: String)
        ensures
            text@ == self.message_text(),
    {
        match self {
            FetchError::MissingApiKey => String::from_str(NO_API_KEY),
            FetchError::RequestFailed => String::from_str("the weather request failed"),
            FetchError::DecodeFailed => String::from_str(
                "the weather service's answer could not be decoded",
            ),
        }
    }
}

/// A run ends with status 0 exactly when a forecast was obtained, whether or
/// not it holds a weather condition, and with status 1 on every error.
pub proof fn lemma_exit_status(outcome: Result<Seq<Seq<char>>, FetchError>)
    ensures
        outcome is Ok <==> exit_status(error_of(outcome)) == 0,
        outcome is Err <==> exit_status(error_of(outcome)) == 1,
{
}

/// Without a configured key no request is planned, whatever the place: the
/// run shows the sad panel with the missing-key message and ends with
/// status 1.
pub proof fn lemma_missing_key_ends_run(city: Seq<char>, country_code: Seq<char>)
    ensures
        planned_request(city, country_code, None) == Err::<Seq<char>, FetchError>(
            FetchError::MissingApiKey,
        ),
        panel_for(Err(FetchError::MissingApiKey)) == sad_panel(NO_API_KEY@),
        exit_status(error_of(Err(FetchError::MissingApiKey))) == 1,
{
}

/// The report for the outcome of a request.
pub fn present(outcome: &Result<Forecast, FetchError>) -> (report: Report)
    ensures
        report.reports(seen(*outcome)),
{
    match outcome {
        Ok(forecast) => {
            if forecast.weather.len() > 0 {
                assert(forecast.descriptions()[0] == forecast.weather@[0].description@);
                Report {
                    panel: happy_weather_crab(forecast.weather[0].description.as_str()),
                    error: None,
                }
            } else {
                Report { panel: sad_crab(NO_WEATHER_DATA), error: None }
            }
        },
        Err(FetchError::MissingApiKey) => Report {
            panel: sad_crab(NO_API_KEY),
            error: Some(FetchError::MissingApiKey),
        },
        Err(e) => {
            let panel: Vec<String> = Vec::new();
            assert(panel.deep_view() =~= Seq::<Seq<char>>::empty());
            Report { panel, error: Some(*e) }
        },
    }
}

/// One run: decide where the request goes, let `fetch` make it, and report
/// what came of it.
///
/// Where no address can be planned, `fetch` is not called and the report is
/// that of the planning error. Otherwise `fetch` is called once, with the
/// planned address, and the report is that of whatever it returned.
pub fn weather_report<F: FnOnce(String) -> Result<Forecast, FetchError>>(
    query: &WeatherQuery,
    config: &Config,
    fetch: F,
) -> (report: Report)
    requires
        forall|address: String|
            planned_request(query.city@, query.country_code@, config.key()) == Ok::<
                Seq<char>,
                FetchError,
            >(address@) ==> fetch.requires((address,)),
    ensures
        match planned_request(query.city@, query.country_code@, config.key()) {
            Err(e) => report.reports(Err(e)),
            Ok(url) => exists|address: String, outcome: Result<Forecast, FetchError>|
                address@ == url && fetch.ensures((address,), outcome) && report.reports(
                    seen(outcome),
                ),
        },
{
    match request_url(query, config) {
        Err(e) => present(&Err(e)),
        Ok(address) => {
            let outcome = fetch(address);
            present(&outcome)
        },
    }
}

} // verus!
