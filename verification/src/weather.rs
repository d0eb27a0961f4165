//! The weather code registry and the hourly series model: the closed set of
//! integer condition codes used by the forecast provider, the fixed
//! human-readable label of each, and the validated parallel-array
//! representation of an hourly forecast.
//!
//! Every measured quantity is carried as a whole number of tenths of its unit
//! (tenths of a degree, of a millimetre, of a percent, of a kilometre per
//! hour), which is exactly the precision the display table shows.

use vstd::prelude::*;

use crate::numfmt::format_int;
use crate::numfmt::format_tenths;
use crate::numfmt::int_text;
use crate::numfmt::tenths_text;
use crate::time::Timestamp;
use crate::time::spec_parse_timestamp;
use crate::time::parse_timestamp;

verus! {

/// The closed set of sky / precipitation conditions reported by the forecast
/// provider, one variant per known integer code.
#[derive(Debug, Clone, Copy, PartialEq, Eq, Structural)]
pub enum WeatherCode {
    ClearSky,
    MainlyClear,
    PartlyCloudy,
    Overcast,
    Fog,
    DepositingRimeFog,
    DrizzleLight,
    DrizzleModerate,
    DrizzleDense,
    FreezingDrizzleLight,
    FreezingDrizzleDense,
    RainSlight,
    RainModerate,
    RainHeavy,
    FreezingRainLight,
    FreezingRainHeavy,
    SnowSlight,
    SnowModerate,
    SnowHeavy,
    SnowGrains,
    RainShowersSlight,
    RainShowersModerate,
    RainShowersViolent,
    SnowShowersSlight,
    SnowShowersHeavy,
    Thunderstorm,
    ThunderstormHailSlight,
    ThunderstormHailHeavy,
}

/// Error for an integer that is not one of the known weather codes.
#[derive(Debug, Clone, Copy, PartialEq, Eq, Structural)]
pub struct ParseWeatherCodeError;

/// The total decoding map: `Some(variant)` for each of the known integer
/// codes, `None` for every other integer.
pub open spec fn spec_from_code(code: int) -> Option<WeatherCode> {
    if code == 0 {
        Some(WeatherCode::ClearSky)
    } else if code == 1 {
        Some(WeatherCode::MainlyClear)
    } else if code == 2 {
        Some(WeatherCode::PartlyCloudy)
    } else if code == 3 {
        Some(WeatherCode::Overcast)
    } else if code == 45 {
        Some(WeatherCode::Fog)
    } else if code == 48 {
        Some(WeatherCode::DepositingRimeFog)
    } else if code == 51 {
        Some(WeatherCode::DrizzleLight)
    } else if code == 53 {
        Some(WeatherCode::DrizzleModerate)
    } else if code == 55 {
        Some(WeatherCode::DrizzleDense)
    } else if code == 56 {
        Some(WeatherCode::FreezingDrizzleLight)
    } else if code == 57 {
        Some(WeatherCode::FreezingDrizzleDense)
    } else if code == 61 {
        Some(WeatherCode::RainSlight)
    } else if code == 62 {
        Some(WeatherCode::RainModerate)
    } else if code == 63 {
        Some(WeatherCode::RainHeavy)
    } else if code == 66 {
        Some(WeatherCode::FreezingRainLight)
    } else if code == 67 {
        Some(WeatherCode::FreezingRainHeavy)
    } else if code == 71 {
        Some(WeatherCode::SnowSlight)
    } else if code == 73 {
        Some(WeatherCode::SnowModerate)
    } else if code == 75 {
        Some(WeatherCode::SnowHeavy)
    } else if code == 77 {
        Some(WeatherCode::SnowGrains)
    } else if code == 80 {
        Some(WeatherCode::RainShowersSlight)
    } else if code == 81 {
        Some(WeatherCode::RainShowersModerate)
    } else if code == 82 {
        Some(WeatherCode::RainShowersViolent)
    } else if code == 85 {
        Some(WeatherCode::SnowShowersSlight)
    } else if code == 86 {
        Some(WeatherCode::SnowShowersHeavy)
    } else if code == 95 {
        Some(WeatherCode::Thunderstorm)
    } else if code == 96 {
        Some(WeatherCode::ThunderstormHailSlight)
    } else if code == 99 {
        Some(WeatherCode::ThunderstormHailHeavy)
    } else {
        None
    }
}

/// The fixed human-readable label of each condition.
pub open spec fn spec_label(code: WeatherCode) -> Seq<char> {
    match code {
        WeatherCode::ClearSky => "Clear Sky"@,
        WeatherCode::MainlyClear => "Mainly Clear Sky"@,
        WeatherCode::PartlyCloudy => "Cloudy"@,
        WeatherCode::Overcast => "Overcast"@,
        WeatherCode::Fog => "Fog"@,
        WeatherCode::DepositingRimeFog => "Depositing Rime Fog"@,
        WeatherCode::DrizzleLight => "Light Drizzle"@,
        WeatherCode::DrizzleModerate => "Moderate Drizzle"@,
        WeatherCode::DrizzleDense => "Dense Drizzle"@,
        WeatherCode::FreezingDrizzleLight => "Light Freezing Drizzle"@,
        WeatherCode::FreezingDrizzleDense => "Dense Freezing Drizzle"@,
        WeatherCode::RainSlight => "Slight Rain"@,
        WeatherCode::RainModerate => "Moderate Rain"@,
        WeatherCode::RainHeavy => "Heavy Rain"@,
        WeatherCode::FreezingRainLight => "Light Freezing Rain"@,
        WeatherCode::FreezingRainHeavy => "Heavy Freezing Rain"@,
        WeatherCode::SnowSlight => "Slight Snow Fall"@,
        WeatherCode::SnowModerate => "Moderate Snow Fall"@,
        WeatherCode::SnowHeavy => "Heavy Snow Fall"@,
        WeatherCode::SnowGrains => "Snow Grains"@,
        WeatherCode::RainShowersSlight => "Slight Rain Showers"@,
        WeatherCode::RainShowersModerate => "Moderate Rain Showers"@,
        WeatherCode::RainShowersViolent => "Violent Rain Showers"@,
        WeatherCode::SnowShowersSlight => "Slight Snow Showers"@,
        WeatherCode::SnowShowersHeavy => "Heavy Snow Showers"@,
        WeatherCode::Thunderstorm => "Thunderstorm"@,
        WeatherCode::ThunderstormHailSlight => "Slight Hail Thunderstorm"@,
        WeatherCode::ThunderstormHailHeavy => "Heavy Hail Thunderstorm"@,
    }
}

impl WeatherCode {
    /// Decodes a raw provider integer; every integer outside the known set is
    /// rejected, never coerced to a default condition.
    pub fn from_code(s: i32) -> (r: Result<Self, ParseWeatherCodeError>)
        ensures
            r matches Ok(code) ==> spec_from_code(s as int) == Some(code),
            r matches Err(e) ==> spec_from_code(s as int) is None && e == ParseWeatherCodeError,
    {
        let r = match s {
            0 => Self::ClearSky,
            1 => Self::MainlyClear,
            2 => Self::PartlyCloudy,
            3 => Self::Overcast,
            45 => Self::Fog,
            48 => Self::DepositingRimeFog,
            51 => Self::DrizzleLight,
            53 => Self::DrizzleModerate,
            55 => Self::DrizzleDense,
            56 => Self::FreezingDrizzleLight,
            57 => Self::FreezingDrizzleDense,
            61 => Self::RainSlight,
            62 => Self::RainModerate,
            63 => Self::RainHeavy,
            66 => Self::FreezingRainLight,
            67 => Self::FreezingRainHeavy,
            71 => Self::SnowSlight,
            73 => Self::SnowModerate,
            75 => Self::SnowHeavy,
            77 => Self::SnowGrains,
            80 => Self::RainShowersSlight,
            81 => Self::RainShowersModerate,
            82 => Self::RainShowersViolent,
            85 => Self::SnowShowersSlight,
            86 => Self::SnowShowersHeavy,
            95 => Self::Thunderstorm,
            96 => Self::ThunderstormHailSlight,
            99 => Self::ThunderstormHailHeavy,
            _ => {
                return Err(ParseWeatherCodeError);
            },
        };
        Ok(r)
    }

    /// The fixed human-readable label of this condition.
    pub fn label(&self) -> (r: &'static str)
        ensures
            r@ == spec_label(*self),
    {
        match self {
            WeatherCode::ClearSky => "Clear Sky",
            WeatherCode::MainlyClear => "Mainly Clear Sky",
            WeatherCode::PartlyCloudy => "Cloudy",
            WeatherCode::Overcast => "Overcast",
            WeatherCode::Fog => "Fog",
            WeatherCode::DepositingRimeFog => "Depositing Rime Fog",
            WeatherCode::DrizzleLight => "Light Drizzle",
            WeatherCode::DrizzleModerate => "Moderate Drizzle",
            WeatherCode::DrizzleDense => "Dense Drizzle",
            WeatherCode::FreezingDrizzleLight => "Light Freezing Drizzle",
            WeatherCode::FreezingDrizzleDense => "Dense Freezing Drizzle",
            WeatherCode::RainSlight => "Slight Rain",
            WeatherCode::RainModerate => "Moderate Rain",
            WeatherCode::RainHeavy => "Heavy Rain",
            WeatherCode::FreezingRainLight => "Light Freezing Rain",
            WeatherCode::FreezingRainHeavy => "Heavy Freezing Rain",
            WeatherCode::SnowSlight => "Slight Snow Fall",
            WeatherCode::SnowModerate => "Moderate Snow Fall",
            WeatherCode::SnowHeavy => "Heavy Snow Fall",
            WeatherCode::SnowGrains => "Snow Grains",
            WeatherCode::RainShowersSlight => "Slight Rain Showers",
            WeatherCode::RainShowersModerate => "Moderate Rain Showers",
            WeatherCode::RainShowersViolent => "Violent Rain Showers",
            WeatherCode::SnowShowersSlight => "Slight Snow Showers",
            WeatherCode::SnowShowersHeavy => "Heavy Snow Showers",
            WeatherCode::Thunderstorm => "Thunderstorm",
            WeatherCode::ThunderstormHailSlight => "Slight Hail Thunderstorm",
            WeatherCode::ThunderstormHailHeavy => "Heavy Hail Thunderstorm",
        }
    }
}

/// The provider integer of each condition: the inverse of the decoding map.
pub open spec fn spec_code(code: WeatherCode) -> int {
    match code {
        WeatherCode::ClearSky => 0,
        WeatherCode::MainlyClear => 1,
        WeatherCode::PartlyCloudy => 2,
        WeatherCode::Overcast => 3,
        WeatherCode::Fog => 45,
        WeatherCode::DepositingRimeFog => 48,
        WeatherCode::DrizzleLight => 51,
        WeatherCode::DrizzleModerate => 53,
        WeatherCode::DrizzleDense => 55,
        WeatherCode::FreezingDrizzleLight => 56,
        WeatherCode::FreezingDrizzleDense => 57,
        WeatherCode::RainSlight => 61,
        WeatherCode::RainModerate => 62,
        WeatherCode::RainHeavy => 63,
        WeatherCode::FreezingRainLight => 66,
        WeatherCode::FreezingRainHeavy => 67,
        WeatherCode::SnowSlight => 71,
        WeatherCode::SnowModerate => 73,
        WeatherCode::SnowHeavy => 75,
        WeatherCode::SnowGrains => 77,
        WeatherCode::RainShowersSlight => 80,
        WeatherCode::RainShowersModerate => 81,
        WeatherCode::RainShowersViolent => 82,
        WeatherCode::SnowShowersSlight => 85,
        WeatherCode::SnowShowersHeavy => 86,
        WeatherCode::Thunderstorm => 95,
        WeatherCode::ThunderstormHailSlight => 96,
        WeatherCode::ThunderstormHailHeavy => 99,
    }
}

/// Decoding succeeds exactly on the twenty-eight known provider codes, and
/// on each it yields the condition whose own code it is: decoding and
/// encoding are mutually inverse over the known set.
pub proof fn lemma_decode_known_set(code: int)
    ensures
        spec_from_code(code) is Some <==> (code == 0 || code == 1 || code == 2 || code == 3
            || code == 45 || code == 48 || code == 51 || code == 53 || code == 55 || code == 56
            || code == 57 || code == 61 || code == 62 || code == 63 || code == 66 || code == 67
            || code == 71 || code == 73 || code == 75 || code == 77 || code == 80 || code == 81
            || code == 82 || code == 85 || code == 86 || code == 95 || code == 96 || code == 99),
        spec_from_code(code) matches Some(c) ==> spec_code(c) == code,
{
}

impl WeatherCode {
    /// The provider integer of this condition: the inverse of decoding.
    pub fn code(&self) -> (r: i32)
        ensures
            r as int == spec_code(*self),
            spec_from_code(r as int) == Some(*self),
    {
        match self {
            WeatherCode::ClearSky => 0,
            WeatherCode::MainlyClear => 1,
            WeatherCode::PartlyCloudy => 2,
            WeatherCode::Overcast => 3,
            WeatherCode::Fog => 45,
            WeatherCode::DepositingRimeFog => 48,
            WeatherCode::DrizzleLight => 51,
            WeatherCode::DrizzleModerate => 53,
            WeatherCode::DrizzleDense => 55,
            WeatherCode::FreezingDrizzleLight => 56,
            WeatherCode::FreezingDrizzleDense => 57,
            WeatherCode::RainSlight => 61,
            WeatherCode::RainModerate => 62,
            WeatherCode::RainHeavy => 63,
            WeatherCode::FreezingRainLight => 66,
            WeatherCode::FreezingRainHeavy => 67,
            WeatherCode::SnowSlight => 71,
            WeatherCode::SnowModerate => 73,
            WeatherCode::SnowHeavy => 75,
            WeatherCode::SnowGrains => 77,
            WeatherCode::RainShowersSlight => 80,
            WeatherCode::RainShowersModerate => 81,
            WeatherCode::RainShowersViolent => 82,
            WeatherCode::SnowShowersSlight => 85,
            WeatherCode::SnowShowersHeavy => 86,
            WeatherCode::Thunderstorm => 95,
            WeatherCode::ThunderstormHailSlight => 96,
            WeatherCode::ThunderstormHailHeavy => 99,
        }
    }
}

impl ParseWeatherCodeError {
    /// The user-facing description of the error, as the tool prints it.
    pub fn message(&self) -> (r: &'static str)
        ensures
            r@ == "Invalide weather code."@,
    {
        "Invalide weather code."
    }
}

/// Error of hourly-series validation.
#[derive(Debug, Clone, Copy, PartialEq, Eq, Structural)]
pub enum SeriesError {
    /// A timestamp or a weather code of the raw data could not be decoded.
    Decode,
    /// The parallel arrays are empty, of unequal length, or out of order.
    Malformed,
}

impl SeriesError {
    /// The user-facing description of the error.
    pub open spec fn spec_message(self) -> Seq<char> {
        match self {
            SeriesError::Decode => "Could not decode the forecast data."@,
            SeriesError::Malformed => "Malformed forecast series."@,
        }
    }

    /// The user-facing description of the error.
    pub fn message(&self) -> (r: &'static str)
        ensures
            r@ == self.spec_message(),
    {
        match self {
            SeriesError::Decode => "Could not decode the forecast data.",
            SeriesError::Malformed => "Malformed forecast series.",
        }
    }
}

/// The raw decoded field sequences of an hourly forecast, after JSON decoding
/// and before validation. Timestamps are still provider text; weather codes
/// are still raw integers; quantities are tenths of their unit.
pub struct RawWeatherData {
    pub time: Vec<String>,
    pub temperature_2m: Vec<i32>,
    pub apparent_temperature: Vec<i32>,
    pub precipitation: Vec<i32>,
    pub precipitation_probability: Vec<i32>,
    pub relativehumidity_2m: Vec<i32>,
    pub windspeed_10m: Vec<i32>,
    pub weathercode: Vec<i32>,
}

impl RawWeatherData {
    /// All sequences are non-empty and of one shared length.
    pub open spec fn lens_ok(self) -> bool {
        &&& self.time@.len() >= 1
        &&& self.temperature_2m@.len() == self.time@.len()
        &&& self.apparent_temperature@.len() == self.time@.len()
        &&& self.precipitation@.len() == self.time@.len()
        &&& self.precipitation_probability@.len() == self.time@.len()
        &&& self.relativehumidity_2m@.len() == self.time@.len()
        &&& self.windspeed_10m@.len() == self.time@.len()
        &&& self.weathercode@.len() == self.time@.len()
    }

    /// Every timestamp parses and every weather code is a known one.
    pub open spec fn decode_ok(self) -> bool {
        &&& forall|i: int|
            0 <= i < self.time@.len() ==> spec_parse_timestamp((#[trigger] self.time@[i])@) is Some
        &&& forall|i: int|
            0 <= i < self.weathercode@.len() ==> spec_from_code((#[trigger] self.weathercode@[i]) as int) is Some
    }

    /// The parsed timestamps, meaningful where they all decode.
    pub open spec fn parsed_times(self) -> Seq<Timestamp> {
        self.time@.map_values(|s: String| spec_parse_timestamp(s@)->Some_0)
    }

    /// The decoded weather codes, meaningful where they all decode.
    pub open spec fn decoded_codes(self) -> Seq<WeatherCode> {
        self.weathercode@.map_values(|c: i32| spec_from_code(c as int)->Some_0)
    }

    /// The parsed timestamps are strictly ascending.
    pub open spec fn ascending_ok(self) -> bool {
        forall|i: int|
            0 <= i < self.time@.len() - 1 ==> (#[trigger] self.parsed_times()[i]).spec_lt(
                self.parsed_times()[i + 1],
            )
    }

    /// The whole validation condition.
    pub open spec fn valid(self) -> bool {
        self.lens_ok() && self.decode_ok() && self.ascending_ok()
    }
}

/// The mathematical model of an hourly series: one sequence per measured
/// quantity, sharing one index.
#[verifier::ext_equal]
pub struct SeriesV {
    pub datetime: Seq<Timestamp>,
    pub temperature_2m: Seq<i32>,
    pub apparent_temperature: Seq<i32>,
    pub precipitation: Seq<i32>,
    pub precipitation_probability: Seq<i32>,
    pub relativehumidity_2m: Seq<i32>,
    pub windspeed_10m: Seq<i32>,
    pub weathercode: Seq<WeatherCode>,
}

impl SeriesV {
    /// The series invariant: one shared non-zero length, well-formed and
    /// strictly ascending timestamps.
    pub open spec fn wf(self) -> bool {
        &&& self.datetime.len() >= 1
        &&& self.temperature_2m.len() == self.datetime.len()
        &&& self.apparent_temperature.len() == self.datetime.len()
        &&& self.precipitation.len() == self.datetime.len()
        &&& self.precipitation_probability.len() == self.datetime.len()
        &&& self.relativehumidity_2m.len() == self.datetime.len()
        &&& self.windspeed_10m.len() == self.datetime.len()
        &&& self.weathercode.len() == self.datetime.len()
        &&& forall|i: int| 0 <= i < self.datetime.len() ==> (#[trigger] self.datetime[i]).wf()
        &&& forall|i: int|
            0 <= i < self.datetime.len() - 1 ==> (#[trigger] self.datetime[i]).spec_lt(
                self.datetime[i + 1],
            )
    }
}

impl RawWeatherData {
    /// The series model that successful validation yields.
    pub open spec fn validated_view(self) -> SeriesV {
        SeriesV {
            datetime: self.parsed_times(),
            temperature_2m: self.temperature_2m@,
            apparent_temperature: self.apparent_temperature@,
            precipitation: self.precipitation@,
            precipitation_probability: self.precipitation_probability@,
            relativehumidity_2m: self.relativehumidity_2m@,
            windspeed_10m: self.windspeed_10m@,
            weathercode: self.decoded_codes(),
        }
    }
}

/// The validated hourly series: equal-length, index-aligned sequences, one
/// per measured quantity, with parsed timestamps and decoded weather codes.
pub struct WeatherData {
    pub datetime: Vec<Timestamp>,
    pub temperature_2m: Vec<i32>,
    pub apparent_temperature: Vec<i32>,
    pub precipitation: Vec<i32>,
    pub precipitation_probability: Vec<i32>,
    pub relativehumidity_2m: Vec<i32>,
    pub windspeed_10m: Vec<i32>,
    pub weathercode: Vec<WeatherCode>,
}

impl View for WeatherData {
    type V = SeriesV;

    open spec fn view(&self) -> SeriesV {
        SeriesV {
            datetime: self.datetime@,
            temperature_2m: self.temperature_2m@,
            apparent_temperature: self.apparent_temperature@,
            precipitation: self.precipitation@,
            precipitation_probability: self.precipitation_probability@,
            relativehumidity_2m: self.relativehumidity_2m@,
            windspeed_10m: self.windspeed_10m@,
            weathercode: self.weathercode@,
        }
    }
}

impl WeatherData {
    /// The shared length of the series.
    pub open spec fn spec_len(self) -> int {
        self@.datetime.len() as int
    }

    /// The series invariant, on the model.
    pub open spec fn wf(self) -> bool {
        self@.wf()
    }

    /// The shared length of the series.
    pub fn len(&self) -> (r: usize)
        ensures
            r == self.spec_len(),
    {
        self.datetime.len()
    }

    /// Validates raw field sequences into an hourly series. Unequal lengths,
    /// emptiness or out-of-order timestamps are a malformed series; a
    /// timestamp or weather code that does not decode is a decode error.
    /// There is no partial series: the first violation aborts construction.
    pub fn new(raw: RawWeatherData) -> (r: Result<WeatherData, SeriesError>)
        ensures
            !raw.lens_ok() ==> r == Err::<WeatherData, SeriesError>(SeriesError::Malformed),
            raw.lens_ok() && !raw.decode_ok() ==> r == Err::<WeatherData, SeriesError>(
                SeriesError::Decode,
            ),
            raw.lens_ok() && raw.decode_ok() && !raw.ascending_ok() ==> r == Err::<
                WeatherData,
                SeriesError,
            >(SeriesError::Malformed),
            raw.valid() ==> (r matches Ok(d) && d@ == raw.validated_view()),
            r matches Ok(d) ==> raw.valid() && d.wf(),
    {
        let n = raw.time.len();
        if n == 0 {
            return Err(SeriesError::Malformed);
        }
        if raw.temperature_2m.len() != n || raw.apparent_temperature.len() != n
            || raw.precipitation.len() != n || raw.precipitation_probability.len() != n
            || raw.relativehumidity_2m.len() != n || raw.windspeed_10m.len() != n
            || raw.weathercode.len() != n {
            return Err(SeriesError::Malformed);
        }
        let mut datetime: Vec<Timestamp> = Vec::new();
        let mut i: usize = 0;
        while i < n
            invariant
                i <= n,
                n == raw.time@.len(),
                raw.lens_ok(),
                datetime@.len() == i,
                forall|j: int|
                    0 <= j < i ==> spec_parse_timestamp((#[trigger] raw.time@[j])@) is Some,
                forall|j: int|
                    0 <= j < i ==> datetime@[j] == spec_parse_timestamp((#[trigger] raw.time@[j])@)->Some_0,
            decreases n - i,
        {
            match parse_timestamp(raw.time[i].as_str()) {
                Some(t) => datetime.push(t),
                None => {
                    return Err(SeriesError::Decode);
                },
            }
            i += 1;
        }
        let mut weathercode: Vec<WeatherCode> = Vec::new();
        let mut i: usize = 0;
        while i < n
            invariant
                i <= n,
                n == raw.weathercode@.len(),
                raw.lens_ok(),
                forall|j: int|
                    0 <= j < n ==> spec_parse_timestamp((#[trigger] raw.time@[j])@) is Some,
                weathercode@.len() == i,
                forall|j: int|
                    0 <= j < i ==> spec_from_code((#[trigger] raw.weathercode@[j]) as int) is Some,
                forall|j: int|
                    0 <= j < i ==> weathercode@[j] == spec_from_code((#[trigger] raw.weathercode@[j]) as int)->Some_0,
            decreases n - i,
        {
            match WeatherCode::from_code(raw.weathercode[i]) {
                Ok(c) => weathercode.push(c),
                Err(_) => {
                    return Err(SeriesError::Decode);
                },
            }
            i += 1;
        }
        proof {
            assert(datetime@ =~= raw.parsed_times());
            assert(weathercode@ =~= raw.decoded_codes());
        }
        let mut i: usize = 0;
        while i < n - 1
            invariant
                i <= n,
                n >= 1,
                n == datetime@.len(),
                raw.lens_ok(),
                raw.decode_ok(),
                datetime@ == raw.parsed_times(),
                weathercode@ == raw.decoded_codes(),
                forall|j: int|
                    0 <= j < i ==> (#[trigger] datetime@[j]).spec_lt(datetime@[j + 1]),
            decreases n - i,
        {
            let a = datetime[i];
            let b = datetime[i + 1];
            if !(a.le(&b) && !b.le(&a)) {
                return Err(SeriesError::Malformed);
            }
            i += 1;
        }
        let d = WeatherData {
            datetime,
            temperature_2m: raw.temperature_2m,
            apparent_temperature: raw.apparent_temperature,
            precipitation: raw.precipitation,
            precipitation_probability: raw.precipitation_probability,
            relativehumidity_2m: raw.relativehumidity_2m,
            windspeed_10m: raw.windspeed_10m,
            weathercode,
        };
        proof {
            assert forall|j: int| 0 <= j < d.datetime@.len() implies (
            #[trigger] d.datetime@[j]).wf() by {
                assert(spec_parse_timestamp(raw.time@[j]@) is Some);
            }
            assert(d@ =~~= raw.validated_view());
        }
        Ok(d)
    }
}

/// Conditions at the moment of the query, independent of the hourly series;
/// display-only. Temperature and wind speed are tenths of their unit.
pub struct Weather {
    pub temperature: i32,
    pub windspeed: i32,
    pub weathercode: WeatherCode,
}

impl Weather {
    /// The one-line summary of the current conditions.
    pub open spec fn spec_describe(self) -> Seq<char> {
        "[#] T: "@ + tenths_text(self.temperature as int) + " | Wind: "@ + tenths_text(
            self.windspeed as int,
        ) + " | Weather Code "@ + int_text(spec_code(self.weathercode)) + " "@
    }

    /// Writes the one-line summary of the current conditions.
    pub fn describe(&self) -> (r: String)
        ensures
            r@ == self.spec_describe(),
    {
        let mut s = String::from_str("[#] T: ");
        let t = format_tenths(self.temperature);
        s.append(t.as_str());
        s.append(" | Wind: ");
        let v = format_tenths(self.windspeed);
        s.append(v.as_str());
        s.append(" | Weather Code ");
        let c = format_int(self.weathercode.code());
        s.append(c.as_str());
        s.append(" ");
        proof {
            assert(s@ =~= self.spec_describe());
        }
        s
    }
}

/// A decoded forecast bundle: the current conditions and the hourly series.
pub struct WeatherResponse {
    pub current_weather: Weather,
    pub hourly: WeatherData,
}

} // verus!
