use circe::weather::RawWeatherData;
use circe::weather::SeriesError;
use circe::weather::Weather;
use circe::weather::WeatherCode;
use circe::weather::WeatherData;

fn hour_text(h: usize) -> String {
    format!("2024-05-01T{:02}:00", h)
}

fn raw_series(n: usize) -> RawWeatherData {
    RawWeatherData {
        time: (0..n).map(hour_text).collect(),
        temperature_2m: (0..n).map(|i| 100 + i as i32).collect(),
        apparent_temperature: (0..n).map(|i| 90 + i as i32).collect(),
        precipitation: vec![0; n],
        precipitation_probability: vec![0; n],
        relativehumidity_2m: vec![500; n],
        windspeed_10m: vec![120; n],
        weathercode: vec![0; n],
    }
}

#[test]
fn a_valid_series_is_accepted_as_given() {
    let data = WeatherData::new(raw_series(24)).unwrap();
    assert_eq!(data.len(), 24);
    assert_eq!(data.datetime[5].hour, 5);
    assert_eq!(data.datetime[5].day, 1);
    assert_eq!(data.datetime[5].month, 5);
    assert_eq!(data.temperature_2m[3], 103);
    assert_eq!(data.weathercode[0], WeatherCode::ClearSky);
}

#[test]
fn an_empty_series_is_malformed() {
    match WeatherData::new(raw_series(0)) {
        Err(SeriesError::Malformed) => {},
        _ => panic!("an empty series must be rejected as malformed"),
    }
}

#[test]
fn unequal_lengths_are_malformed() {
    let mut raw = raw_series(6);
    raw.windspeed_10m.pop();
    match WeatherData::new(raw) {
        Err(SeriesError::Malformed) => {},
        _ => panic!("unequal lengths must be rejected as malformed"),
    }
}

#[test]
fn an_unknown_weather_code_is_a_decode_error() {
    let mut raw = raw_series(6);
    raw.weathercode[3] = 42;
    match WeatherData::new(raw) {
        Err(SeriesError::Decode) => {},
        _ => panic!("an unknown weather code must fail decoding"),
    }
}

#[test]
fn an_unparseable_timestamp_is_a_decode_error() {
    let mut raw = raw_series(6);
    raw.time[2] = String::from("yesterday evening");
    match WeatherData::new(raw) {
        Err(SeriesError::Decode) => {},
        _ => panic!("an unparseable timestamp must fail decoding"),
    }
}

#[test]
fn out_of_order_timestamps_are_malformed() {
    let mut raw = raw_series(6);
    raw.time.swap(2, 3);
    match WeatherData::new(raw) {
        Err(SeriesError::Malformed) => {},
        _ => panic!("out-of-order timestamps must be rejected as malformed"),
    }
}

#[test]
fn repeated_timestamps_are_malformed() {
    let mut raw = raw_series(6);
    raw.time[3] = raw.time[2].clone();
    match WeatherData::new(raw) {
        Err(SeriesError::Malformed) => {},
        _ => panic!("repeated timestamps must be rejected as malformed"),
    }
}

#[test]
fn series_error_messages() {
    assert_eq!(SeriesError::Decode.message(), "Could not decode the forecast data.");
    assert_eq!(SeriesError::Malformed.message(), "Malformed forecast series.");
}

#[test]
fn current_conditions_summary() {
    let w = Weather { temperature: 123, windspeed: 45, weathercode: WeatherCode::Thunderstorm };
    assert_eq!(w.describe(), "[#] T: 12.3 | Wind: 4.5 | Weather Code 95 ");
}
