use circe::report::CircePosition;
use circe::report::Location;
use circe::report::LookupError;
use circe::report::weather_report;
use circe::table::ColumnSelection;
use circe::time::Timestamp;
use circe::weather::RawWeatherData;

fn paris() -> Location {
    Location {
        display_name: String::from("Paris, France"),
        lat: String::from("48.8566"),
        lon: String::from("2.3522"),
    }
}

fn paris_series(n: usize) -> RawWeatherData {
    RawWeatherData {
        time: (0..n).map(|h| format!("2024-05-01T{:02}:00", h)).collect(),
        temperature_2m: (0..n).map(|i| 150 + i as i32).collect(),
        apparent_temperature: (0..n).map(|i| 140 + i as i32).collect(),
        precipitation: vec![0; n],
        precipitation_probability: vec![0; n],
        relativehumidity_2m: vec![600; n],
        windspeed_10m: (0..n).map(|i| 100 + i as i32).collect(),
        weathercode: vec![2; n],
    }
}

#[test]
fn an_empty_geocode_answer_means_no_location() {
    let r = CircePosition::first_location(vec![]);
    match r {
        Err(e) => {
            assert!(matches!(e, LookupError::NoLocationFound));
            assert_eq!(e.message(), "No locations were found with the given name.");
        },
        Ok(_) => panic!("an empty candidate list must not yield a location"),
    }
}

#[test]
fn the_first_candidate_is_authoritative() {
    let other = Location {
        display_name: String::from("Paris, Texas"),
        lat: String::from("33.6609"),
        lon: String::from("-95.5555"),
    };
    let chosen = CircePosition::first_location(vec![paris(), other]).unwrap_or_else(|_| {
        panic!("a non-empty candidate list must yield a location")
    });
    assert_eq!(chosen.display_name, "Paris, France");
    assert_eq!(chosen.lat, "48.8566");
    assert_eq!(chosen.lon, "2.3522");
}

#[test]
fn failure_messages_are_stage_specific() {
    assert_eq!(LookupError::GeocodeFailed.message(), "Request error.");
    let transport = LookupError::ForecastFailed { detail: String::from("connection timed out") };
    assert_eq!(transport.message(), "Could not find weather data. (connection timed out)");
}

#[test]
fn a_whole_lookup_renders_the_windowed_table() {
    // Geocoding answered with one candidate; the forecast holds 24 hourly
    // samples of the first of May; "now" is the fifth hour mark.
    let loc = CircePosition::first_location(vec![paris()]).unwrap_or_else(|_| {
        panic!("geocoding yielded a candidate")
    });
    let now = Timestamp { year: 2024, month: 5, day: 1, hour: 5, minute: 0 };
    let sel = ColumnSelection { temperature: false, precipitations: false, humidity: false, wind: true };
    let text = match weather_report(&loc.display_name, paris_series(24), 3, &sel, &now) {
        Ok(text) => text,
        Err(_) => panic!("a valid series must render"),
    };
    assert!(text.contains("Paris, France"));
    assert!(text.contains("Time"));
    assert!(text.contains("Forecast"));
    assert!(text.contains("Wind"));
    assert!(text.contains("At 10m"));
    assert!(!text.contains("Temperature"));
    // Exactly three body rows, starting at the sixth sample.
    assert_eq!(text.matches("km/h").count(), 3);
    assert!(text.contains("01/05 05:00"));
    assert!(text.contains("01/05 06:00"));
    assert!(text.contains("01/05 07:00"));
    assert!(!text.contains("01/05 04:00"));
    assert!(!text.contains("01/05 08:00"));
    assert_eq!(text.matches("10.5km/h").count(), 1);
}

#[test]
fn a_bad_series_yields_its_message_and_no_table() {
    let mut raw = paris_series(6);
    raw.time.clear();
    let now = Timestamp { year: 2024, month: 5, day: 1, hour: 0, minute: 0 };
    match weather_report("Paris, France", raw, 3, &ColumnSelection::full(), &now) {
        Err(e) => {
            assert_eq!(e.message(), "Could not find weather data. (Malformed forecast series.)");
        },
        Ok(_) => panic!("an empty series must not render"),
    }
}

#[test]
fn an_unknown_code_in_the_series_is_a_decode_failure() {
    let mut raw = paris_series(6);
    raw.weathercode[0] = 7;
    let now = Timestamp { year: 2024, month: 5, day: 1, hour: 0, minute: 0 };
    match weather_report("Paris, France", raw, 3, &ColumnSelection::full(), &now) {
        Err(e) => {
            assert_eq!(
                e.message(),
                "Could not find weather data. (Could not decode the forecast data.)"
            );
        },
        Ok(_) => panic!("an undecodable series must not render"),
    }
}
