//! The lookup orchestrator's decisions: which geocoding candidate to use,
//! which message each failure produces, and the whole forecast stage from
//! raw decoded payload to rendered table. The network calls themselves stay
//! outside; this module decides what each of their outcomes means.

use vstd::prelude::*;

use crate::table::ColumnSelection;
use crate::table::weather_table_text;
use crate::table::render_weather_table;
use crate::time::Timestamp;
use crate::time::now_local;
use crate::weather::RawWeatherData;
use crate::weather::SeriesError;
use crate::weather::WeatherData;
use crate::window::spec_selected_window;
use crate::window::select_window;

verus! {

/// A geocoding candidate: its display name and its coordinates, as the
/// geocoding service returns them — textual decimals.
pub struct Location {
    pub display_name: String,
    pub lat: String,
    pub lon: String,
}

/// The geocoding resolver: decides which candidate of a geocoding answer
/// the lookup uses.
pub struct CircePosition;

/// The stage-specific failures of one weather lookup. Every failure is
/// terminal for the invocation: its message is shown and no table at all.
pub enum LookupError {
    /// The geocoding request or its decoding failed.
    GeocodeFailed,
    /// The geocoding service returned no candidate at all.
    NoLocationFound,
    /// The forecast request failed; holds the transport error's own text.
    ForecastFailed { detail: String },
    /// The forecast payload did not validate as an hourly series.
    BadSeries { error: SeriesError },
}

impl LookupError {
    /// The user-facing message of this failure.
    pub open spec fn spec_message(self) -> Seq<char> {
        match self {
            LookupError::GeocodeFailed => "Request error."@,
            LookupError::NoLocationFound => "No locations were found with the given name."@,
            LookupError::ForecastFailed { detail } => "Could not find weather data. ("@ + detail@
                + ")"@,
            LookupError::BadSeries { error } => "Could not find weather data. ("@
                + error.spec_message() + ")"@,
        }
    }

    /// Writes the user-facing message of this failure.
    pub fn message(&self) -> (r: String)
        ensures
            r@ == self.spec_message(),
    {
        match self {
            LookupError::GeocodeFailed => String::from_str("Request error."),
            LookupError::NoLocationFound => String::from_str(
                "No locations were found with the given name.",
            ),
            LookupError::ForecastFailed { detail } => {
                let mut s = String::from_str("Could not find weather data. (");
                s.append(detail.as_str());
                s.append(")");
                proof {
                    assert(s@ =~= self.spec_message());
                }
                s
            },
            LookupError::BadSeries { error } => {
                let mut s = String::from_str("Could not find weather data. (");
                s.append(error.message());
                s.append(")");
                proof {
                    assert(s@ =~= self.spec_message());
                }
                s
            },
        }
    }
}

impl CircePosition {
    /// Decides the geocoding stage: the first candidate is authoritative;
    /// an empty answer means no location was found, and the lookup stops.
    pub fn first_location(locs: Vec<Location>) -> (r: Result<Location, LookupError>)
        ensures
            locs@.len() == 0 ==> (r matches Err(e) && e == LookupError::NoLocationFound),
            locs@.len() > 0 ==> (r matches Ok(l) && l == locs@[0]),
    {
        let mut list = locs;
        if list.len() == 0 {
            Err(LookupError::NoLocationFound)
        } else {
            Ok(list.remove(0))
        }
    }
}

/// The table text that the forecast stage produces for a valid raw series:
/// the series is validated, the window selected at `now`, and the table
/// rendered.
pub open spec fn report_text(
    location: Seq<char>,
    raw: RawWeatherData,
    max: int,
    now: Timestamp,
    sel: ColumnSelection,
) -> Seq<char> {
    weather_table_text(
        location,
        raw.validated_view(),
        spec_selected_window(raw.validated_view().datetime, now, max),
        sel,
    )
}

/// Decides the whole forecast stage for one lookup, at the given instant:
/// validates the raw hourly series, selects the display window anchored at
/// `now`, and renders the table. A series that does not validate yields its
/// error instead, and no table.
pub fn weather_report(
    location_name: &str,
    raw: RawWeatherData,
    max: usize,
    sel: &ColumnSelection,
    now: &Timestamp,
) -> (r: Result<String, LookupError>)
    ensures
        raw.valid() ==> (r matches Ok(text) && text@ == report_text(
            location_name@,
            raw,
            max as int,
            *now,
            *sel,
        )),
        !raw.lens_ok() ==> (r matches Err(e) && e == (LookupError::BadSeries {
            error: SeriesError::Malformed,
        })),
        raw.lens_ok() && !raw.decode_ok() ==> (r matches Err(e) && e == (LookupError::BadSeries {
            error: SeriesError::Decode,
        })),
        raw.lens_ok() && raw.decode_ok() && !raw.ascending_ok() ==> (r matches Err(e) && e
            == (LookupError::BadSeries { error: SeriesError::Malformed })),
{
    let data = match WeatherData::new(raw) {
        Ok(d) => d,
        Err(e) => {
            return Err(LookupError::BadSeries { error: e });
        },
    };
    let w = select_window(&data, max, now);
    Ok(render_weather_table(location_name, &data, &w, sel))
}

/// Decides the forecast stage at the current instant. The wall-clock "now"
/// is captured exactly once, so one cutoff governs the whole scan.
pub fn weather_report_now(
    location_name: &str,
    raw: RawWeatherData,
    max: usize,
    sel: &ColumnSelection,
) -> (r: Result<String, LookupError>)
    ensures
        raw.valid() ==> (r matches Ok(text) && exists|now: Timestamp|
            now.wf() && text@ == #[trigger] report_text(
                location_name@,
                raw,
                max as int,
                now,
                *sel,
            )),
        !raw.lens_ok() ==> (r matches Err(e) && e == (LookupError::BadSeries {
            error: SeriesError::Malformed,
        })),
        raw.lens_ok() && !raw.decode_ok() ==> (r matches Err(e) && e == (LookupError::BadSeries {
            error: SeriesError::Decode,
        })),
        raw.lens_ok() && raw.decode_ok() && !raw.ascending_ok() ==> (r matches Err(e) && e
            == (LookupError::BadSeries { error: SeriesError::Malformed })),
{
    let now = now_local();
    weather_report(location_name, raw, max, sel, &now)
}

} // verus!
