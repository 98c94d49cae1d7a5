use weather_crab::forecast::{Config, FetchError, Forecast, Weather, WeatherQuery};
use weather_crab::report::{present, weather_report, NO_API_KEY, NO_WEATHER_DATA};
use weather_crab::{happy_weather_crab, sad_crab};

fn forecast_of(descriptions: &[&str]) -> Forecast {
    let mut weather = Vec::new();
    for (i, description) in descriptions.iter().enumerate() {
        weather.push(Weather {
            id: 500 + i as i32,
            main: "Rain".to_string(),
            description: description.to_string(),
        });
    }
    Forecast { weather, name: "London".to_string(), id: 2643743 }
}

fn london() -> WeatherQuery {
    WeatherQuery { city: "London".to_string(), country_code: "uk".to_string() }
}

#[test]
fn forecast_with_a_description_gets_the_happy_panel() {
    let report = present(&Ok(forecast_of(&["light rain"])));
    assert_eq!(report.error, None);
    assert_eq!(report.exit_code(), 0);
    assert_eq!(report.panel.len(), 12);
    assert_eq!(report.panel[0], "  |---------------------|");
    assert_eq!(report.panel[1], "  |     light rain      |");
    assert_eq!(report.panel[2], "  |---------------------|");
    assert_eq!(report.panel[4], r" /\/\ (O)       (O)   /\/\ ");
    assert_eq!(report.panel, happy_weather_crab("light rain"));
}

#[test]
fn forecast_without_a_description_gets_the_sad_panel() {
    let report = present(&Ok(forecast_of(&[])));
    assert_eq!(report.error, None);
    assert_eq!(report.exit_code(), 0);
    assert_eq!(report.panel[1], "  |   No Weather Data   |");
    assert_eq!(report.panel[4], r" /\/\ (_)       (_)   /\/\ ");
    assert_eq!(report.panel, sad_crab("No Weather Data"));
}

#[test]
fn only_the_first_description_is_shown() {
    let report = present(&Ok(forecast_of(&["mist", "light rain", "fog"])));
    assert_eq!(report.panel, happy_weather_crab("mist"));
    assert_eq!(report.exit_code(), 0);
}

#[test]
fn missing_key_gets_the_sad_panel_and_status_one() {
    let report = present(&Err(FetchError::MissingApiKey));
    assert_eq!(report.error, Some(FetchError::MissingApiKey));
    assert_eq!(report.exit_code(), 1);
    assert_eq!(report.panel[1], "  | No API Key Detected |");
    assert_eq!(report.panel, sad_crab("No API Key Detected"));
}

#[test]
fn failed_request_is_reported_without_a_panel() {
    let report = present(&Err(FetchError::RequestFailed));
    assert_eq!(report.error, Some(FetchError::RequestFailed));
    assert_eq!(report.exit_code(), 1);
    assert!(report.panel.is_empty());
}

#[test]
fn undecoded_answer_is_reported_without_a_panel() {
    let report = present(&Err(FetchError::DecodeFailed));
    assert_eq!(report.error, Some(FetchError::DecodeFailed));
    assert_eq!(report.exit_code(), 1);
    assert!(report.panel.is_empty());
}

#[test]
fn messages_in_the_box() {
    assert_eq!(NO_WEATHER_DATA, "No Weather Data");
    assert_eq!(NO_API_KEY, "No API Key Detected");
}

#[test]
fn each_error_has_its_message() {
    assert_eq!(FetchError::MissingApiKey.message(), "No API Key Detected");
    assert_eq!(FetchError::RequestFailed.message(), "the weather request failed");
    assert_eq!(
        FetchError::DecodeFailed.message(),
        "the weather service's answer could not be decoded"
    );
}

#[test]
fn run_without_a_key_makes_no_request() {
    let mut calls = 0;
    let report = weather_report(&london(), &Config { api_key: None }, |_address| {
        calls += 1;
        Ok(forecast_of(&["light rain"]))
    });
    assert_eq!(calls, 0);
    assert_eq!(report.error, Some(FetchError::MissingApiKey));
    assert_eq!(report.exit_code(), 1);
    assert_eq!(report.panel, sad_crab("No API Key Detected"));
}

#[test]
fn run_with_a_key_fetches_once_from_the_planned_address() {
    let mut asked = Vec::new();
    let config = Config { api_key: Some("abc123".to_string()) };
    let report = weather_report(&london(), &config, |address| {
        asked.push(address);
        Ok(forecast_of(&["light rain"]))
    });
    assert_eq!(
        asked,
        vec!["http://api.openweathermap.org/data/2.5/weather?q=London,uk&appid=abc123"]
    );
    assert_eq!(report.error, None);
    assert_eq!(report.exit_code(), 0);
    assert_eq!(report.panel, happy_weather_crab("light rain"));
}

#[test]
fn run_reports_an_empty_forecast() {
    let config = Config { api_key: Some("abc123".to_string()) };
    let report = weather_report(&london(), &config, |_address| Ok(forecast_of(&[])));
    assert_eq!(report.exit_code(), 0);
    assert_eq!(report.panel, sad_crab("No Weather Data"));
}

#[test]
fn run_reports_what_the_fetch_failed_with() {
    let config = Config { api_key: Some("abc123".to_string()) };
    let report = weather_report(&london(), &config, |_address| Err(FetchError::RequestFailed));
    assert_eq!(report.error, Some(FetchError::RequestFailed));
    assert_eq!(report.exit_code(), 1);
    assert!(report.panel.is_empty());

    let report = weather_report(&london(), &config, |_address| Err(FetchError::DecodeFailed));
    assert_eq!(report.error, Some(FetchError::DecodeFailed));
    assert_eq!(report.exit_code(), 1);
}
