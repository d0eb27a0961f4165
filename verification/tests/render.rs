use circe::table::Cell;
use circe::table::CellAlign;
use circe::table::CellStyle;
use circe::table::ColumnSelection;
use circe::table::render_table;
use circe::table::render_weather_table;
use circe::time::Timestamp;
use circe::weather::RawWeatherData;
use circe::weather::WeatherData;
use circe::window::DisplayWindow;
use circe::window::select_window;

const TITLE_PAINT: &str = "\u{1b}[1;33m";
const HIGHLIGHT_PAINT: &str = "\u{1b}[36m";

fn hourly_with_precipitation(n: usize, prob: i32, qty: i32) -> WeatherData {
    let raw = RawWeatherData {
        time: (0..n).map(|h| format!("2024-05-01T{:02}:00", h)).collect(),
        temperature_2m: vec![123; n],
        apparent_temperature: vec![110; n],
        precipitation: vec![qty; n],
        precipitation_probability: vec![prob; n],
        relativehumidity_2m: vec![505; n],
        windspeed_10m: vec![87; n],
        weathercode: vec![61; n],
    };
    WeatherData::new(raw).unwrap()
}

fn window(data: &WeatherData, max: usize) -> DisplayWindow {
    select_window(data, max, &Timestamp { year: 2024, month: 5, day: 1, hour: 0, minute: 0 })
}

#[test]
fn no_optional_group_leaves_time_and_forecast_only() {
    let data = hourly_with_precipitation(6, 0, 0);
    let w = window(&data, 3);
    let text = render_weather_table("Somewhere", &data, &w, &ColumnSelection::none());
    assert!(text.contains("Somewhere"));
    assert!(text.contains("Time"));
    assert!(text.contains("Forecast"));
    assert!(text.contains("Slight Rain"));
    assert!(!text.contains("Temperature"));
    assert!(!text.contains("Precipitations"));
    assert!(!text.contains("Humidity"));
    assert!(!text.contains("Wind"));
    assert!(!text.contains("km/h"));
}

#[test]
fn all_groups_show_every_column() {
    let data = hourly_with_precipitation(6, 0, 0);
    let w = window(&data, 3);
    let text = render_weather_table("Somewhere", &data, &w, &ColumnSelection::full());
    assert!(text.contains("Temperature"));
    assert!(text.contains("At 2m"));
    assert!(text.contains("Perceived"));
    assert!(text.contains("Precipitations"));
    assert!(text.contains("Probability"));
    assert!(text.contains("Quantity"));
    assert!(text.contains("Humidity"));
    assert!(text.contains("Relative"));
    assert!(text.contains("Wind"));
    assert!(text.contains("At 10m"));
    assert!(text.contains("12.3\u{b0}C"));
    assert!(text.contains("11.0\u{b0}C"));
    assert!(text.contains("50.5%"));
    assert_eq!(text.matches("8.7km/h").count(), 3);
}

#[test]
fn the_title_is_painted() {
    let data = hourly_with_precipitation(4, 0, 0);
    let w = window(&data, 2);
    let text = render_weather_table("Somewhere", &data, &w, &ColumnSelection::none());
    assert!(text.contains(TITLE_PAINT));
    // The table frame itself comes from the layouter.
    assert!(text.contains("\u{2551}"));
    assert!(text.contains('\n'));
}

#[test]
fn positive_precipitation_is_highlighted() {
    let data = hourly_with_precipitation(4, 500, 3);
    let w = window(&data, 2);
    let sel = ColumnSelection { temperature: false, precipitations: true, humidity: false, wind: false };
    let text = render_weather_table("Somewhere", &data, &w, &sel);
    assert!(text.contains(HIGHLIGHT_PAINT));
    assert!(text.contains("50.0%"));
    assert!(text.contains("0.3mm"));
}

#[test]
fn zero_precipitation_is_never_highlighted() {
    let data = hourly_with_precipitation(4, 0, 0);
    let w = window(&data, 2);
    let sel = ColumnSelection { temperature: false, precipitations: true, humidity: false, wind: false };
    let text = render_weather_table("Somewhere", &data, &w, &sel);
    assert!(!text.contains(HIGHLIGHT_PAINT));
    assert!(text.contains("0.0%"));
    assert!(text.contains("0.0mm"));
}

#[test]
fn rendering_twice_is_byte_identical() {
    let data = hourly_with_precipitation(8, 200, 15);
    let w = window(&data, 5);
    let sel = ColumnSelection::full();
    let first = render_weather_table("Somewhere", &data, &w, &sel);
    let second = render_weather_table("Somewhere", &data, &w, &sel);
    assert_eq!(first, second);
}

#[test]
fn body_rows_follow_the_window_in_order() {
    let data = hourly_with_precipitation(10, 0, 0);
    let w = select_window(
        &data,
        2,
        &Timestamp { year: 2024, month: 5, day: 1, hour: 3, minute: 0 },
    );
    let text = render_weather_table("Somewhere", &data, &w, &ColumnSelection::none());
    let first = text.find("01/05 03:00").expect("first selected hour shown");
    let second = text.find("01/05 04:00").expect("second selected hour shown");
    assert!(first < second);
    assert!(!text.contains("01/05 02:00"));
    assert!(!text.contains("01/05 05:00"));
}

#[test]
fn a_hand_built_grid_renders() {
    let grid = vec![
        vec![Cell {
            text: String::from("header"),
            span: 2,
            align: CellAlign::Center,
            style: CellStyle::Title,
        }],
        vec![
            Cell {
                text: String::from("left cell"),
                span: 1,
                align: CellAlign::Left,
                style: CellStyle::Plain,
            },
            Cell {
                text: String::from("right cell"),
                span: 1,
                align: CellAlign::Right,
                style: CellStyle::Highlight,
            },
        ],
    ];
    let text = render_table(&grid);
    assert!(text.contains("header"));
    assert!(text.contains("left cell"));
    assert!(text.contains("right cell"));
    assert!(text.contains(HIGHLIGHT_PAINT));
}
