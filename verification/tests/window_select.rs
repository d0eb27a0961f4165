use circe::time::Timestamp;
use circe::weather::RawWeatherData;
use circe::weather::WeatherData;
use circe::window::select_window;

fn hourly(n: usize) -> WeatherData {
    let raw = RawWeatherData {
        time: (0..n).map(|h| format!("2024-05-01T{:02}:00", h)).collect(),
        temperature_2m: vec![100; n],
        apparent_temperature: vec![100; n],
        precipitation: vec![0; n],
        precipitation_probability: vec![0; n],
        relativehumidity_2m: vec![500; n],
        windspeed_10m: vec![120; n],
        weathercode: vec![0; n],
    };
    WeatherData::new(raw).unwrap()
}

fn at_hour(h: u8) -> Timestamp {
    Timestamp { year: 2024, month: 5, day: 1, hour: h, minute: 0 }
}

#[test]
fn window_starts_after_the_elapsed_hours() {
    let data = hourly(24);
    let w = select_window(&data, 3, &at_hour(5));
    assert_eq!(w.start, 5);
    assert_eq!(w.count, 3);
}

#[test]
fn window_never_exceeds_max() {
    let data = hourly(24);
    let w = select_window(&data, 4, &at_hour(0));
    assert!(w.count <= 4);
    assert_eq!(w.count, 4);
}

#[test]
fn window_never_reaches_the_final_sample() {
    let data = hourly(24);
    let w = select_window(&data, 1000, &at_hour(0));
    assert!(w.start + w.count <= 23);
    assert_eq!(w.start, 0);
    assert_eq!(w.count, 23);
}

#[test]
fn window_is_empty_when_everything_has_elapsed() {
    let data = hourly(24);
    let now = Timestamp { year: 2030, month: 1, day: 1, hour: 0, minute: 0 };
    let w = select_window(&data, 12, &now);
    assert_eq!(w.count, 0);
}

#[test]
fn a_single_sample_yields_an_empty_window() {
    let data = hourly(1);
    let w = select_window(&data, 12, &at_hour(0));
    assert_eq!(w.count, 0);
}

#[test]
fn a_sample_ending_exactly_now_is_not_included() {
    let data = hourly(24);
    // Sample 4 is covered until 05:00; at 05:00 sharp its hour has elapsed.
    let w = select_window(&data, 24, &at_hour(5));
    assert_eq!(w.start, 5);
    // One minute earlier it is still running.
    let just_before = Timestamp { year: 2024, month: 5, day: 1, hour: 4, minute: 59 };
    let w2 = select_window(&data, 24, &just_before);
    assert_eq!(w2.start, 4);
}
