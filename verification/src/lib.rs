//! A small weather-forecast library: decoding of provider weather codes,
//! validation of hourly forecast series, selection of the display window
//! anchored at the current time, and rendering of the forecast table.

pub mod numfmt;
pub mod report;
pub mod table;
pub mod time;
pub mod weather;
pub mod window;
