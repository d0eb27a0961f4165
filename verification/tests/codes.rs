use circe::weather::ParseWeatherCodeError;
use circe::weather::WeatherCode;

fn known_pairs() -> Vec<(i32, WeatherCode)> {
    vec![
        (0, WeatherCode::ClearSky),
        (1, WeatherCode::MainlyClear),
        (2, WeatherCode::PartlyCloudy),
        (3, WeatherCode::Overcast),
        (45, WeatherCode::Fog),
        (48, WeatherCode::DepositingRimeFog),
        (51, WeatherCode::DrizzleLight),
        (53, WeatherCode::DrizzleModerate),
        (55, WeatherCode::DrizzleDense),
        (56, WeatherCode::FreezingDrizzleLight),
        (57, WeatherCode::FreezingDrizzleDense),
        (61, WeatherCode::RainSlight),
        (62, WeatherCode::RainModerate),
        (63, WeatherCode::RainHeavy),
        (66, WeatherCode::FreezingRainLight),
        (67, WeatherCode::FreezingRainHeavy),
        (71, WeatherCode::SnowSlight),
        (73, WeatherCode::SnowModerate),
        (75, WeatherCode::SnowHeavy),
        (77, WeatherCode::SnowGrains),
        (80, WeatherCode::RainShowersSlight),
        (81, WeatherCode::RainShowersModerate),
        (82, WeatherCode::RainShowersViolent),
        (85, WeatherCode::SnowShowersSlight),
        (86, WeatherCode::SnowShowersHeavy),
        (95, WeatherCode::Thunderstorm),
        (96, WeatherCode::ThunderstormHailSlight),
        (99, WeatherCode::ThunderstormHailHeavy),
    ]
}

#[test]
fn decode_succeeds_on_every_known_code() {
    let pairs = known_pairs();
    assert_eq!(pairs.len(), 28);
    for (code, variant) in pairs {
        assert_eq!(WeatherCode::from_code(code), Ok(variant));
    }
}

#[test]
fn decode_fails_on_every_other_code() {
    for code in [-1, 4, 5, 44, 46, 50, 52, 54, 58, 60, 64, 68, 70, 76, 78, 83, 87, 94, 97, 98, 100, 1000] {
        assert_eq!(WeatherCode::from_code(code), Err(ParseWeatherCodeError));
    }
}

#[test]
fn encode_round_trips_through_decode() {
    for (code, variant) in known_pairs() {
        assert_eq!(variant.code(), code);
        assert_eq!(WeatherCode::from_code(variant.code()), Ok(variant));
    }
}

#[test]
fn labels_are_the_documented_ones() {
    assert_eq!(WeatherCode::ClearSky.label(), "Clear Sky");
    assert_eq!(WeatherCode::MainlyClear.label(), "Mainly Clear Sky");
    assert_eq!(WeatherCode::PartlyCloudy.label(), "Cloudy");
    assert_eq!(WeatherCode::Overcast.label(), "Overcast");
    assert_eq!(WeatherCode::Fog.label(), "Fog");
    assert_eq!(WeatherCode::DepositingRimeFog.label(), "Depositing Rime Fog");
    assert_eq!(WeatherCode::DrizzleLight.label(), "Light Drizzle");
    assert_eq!(WeatherCode::DrizzleModerate.label(), "Moderate Drizzle");
    assert_eq!(WeatherCode::DrizzleDense.label(), "Dense Drizzle");
    assert_eq!(WeatherCode::FreezingDrizzleLight.label(), "Light Freezing Drizzle");
    assert_eq!(WeatherCode::FreezingDrizzleDense.label(), "Dense Freezing Drizzle");
    assert_eq!(WeatherCode::RainSlight.label(), "Slight Rain");
    assert_eq!(WeatherCode::RainModerate.label(), "Moderate Rain");
    assert_eq!(WeatherCode::RainHeavy.label(), "Heavy Rain");
    assert_eq!(WeatherCode::FreezingRainLight.label(), "Light Freezing Rain");
    assert_eq!(WeatherCode::FreezingRainHeavy.label(), "Heavy Freezing Rain");
    assert_eq!(WeatherCode::SnowSlight.label(), "Slight Snow Fall");
    assert_eq!(WeatherCode::SnowModerate.label(), "Moderate Snow Fall");
    assert_eq!(WeatherCode::SnowHeavy.label(), "Heavy Snow Fall");
    assert_eq!(WeatherCode::SnowGrains.label(), "Snow Grains");
    assert_eq!(WeatherCode::RainShowersSlight.label(), "Slight Rain Showers");
    assert_eq!(WeatherCode::RainShowersModerate.label(), "Moderate Rain Showers");
    assert_eq!(WeatherCode::RainShowersViolent.label(), "Violent Rain Showers");
    assert_eq!(WeatherCode::SnowShowersSlight.label(), "Slight Snow Showers");
    assert_eq!(WeatherCode::SnowShowersHeavy.label(), "Heavy Snow Showers");
    assert_eq!(WeatherCode::Thunderstorm.label(), "Thunderstorm");
    assert_eq!(WeatherCode::ThunderstormHailSlight.label(), "Slight Hail Thunderstorm");
    assert_eq!(WeatherCode::ThunderstormHailHeavy.label(), "Heavy Hail Thunderstorm");
}

#[test]
fn parse_weather_code_error_message() {
    assert_eq!(ParseWeatherCodeError.message(), "Invalide weather code.");
}
