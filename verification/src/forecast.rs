//! The forecast data model.
//!
//! Timestamps are UTC instants in whole seconds since the epoch. Numeric
//! measurements are carried as their decimal text: the sheet consumes
//! nothing but text, the pipeline copies every measurement verbatim, and
//! an absent measurement stays absent. The caller that decodes the
//! provider's response renders each number it finds before handing the
//! model over.
use vstd::prelude::*;

verus! {

/// Coarse condition summary of one forecast window.
pub struct Symbol {
    pub sunup: bool,
    pub n: i32,
    pub clouds: i32,
    pub precip: i32,
}

/// Human-readable condition strings for the next one, six and twelve hours.
pub struct SymbolCode {
    pub next1_hour: Option<String>,
    pub next6_hours: Option<String>,
    pub next12_hours: Option<String>,
}

/// Precipitation in millimetres.
pub struct Precipitation {
    pub value: Option<String>,
}

/// Air temperature in celsius, with the window's extremes.
pub struct Temperature {
    pub value: Option<String>,
    pub min: Option<String>,
    pub max: Option<String>,
}

/// Wind direction in degrees and speed in metres per second.
pub struct Wind {
    pub direction: Option<String>,
    pub speed: Option<String>,
}

/// Apparent temperature in celsius.
pub struct FeelsLike {
    pub value: Option<String>,
}

/// Air pressure.
pub struct Pressure {
    pub value: Option<String>,
}

/// Cloud cover percentages: total, by layer, and fog.
pub struct CloudCover {
    pub value: Option<String>,
    pub high: Option<String>,
    pub middle: Option<String>,
    pub low: Option<String>,
    pub fog: Option<String>,
}

/// Relative humidity percentage.
pub struct Humidity {
    pub value: Option<String>,
}

/// Dew point in celsius.
pub struct DewPoint {
    pub value: Option<String>,
}

/// One forecast time window, every measurement independently optional.
pub struct ShortPositions {
    pub symbol: Symbol,
    pub symbol_code: SymbolCode,
    pub precipitation: Precipitation,
    pub temperature: Temperature,
    pub wind: Wind,
    pub feels_like: FeelsLike,
    pub pressure: Pressure,
    pub cloud_cover: CloudCover,
    pub humidity: Humidity,
    pub dew_point: DewPoint,
    pub start: i64,
    pub end: i64,
    pub nominal_start: Option<i64>,
    pub nominal_end: Option<i64>,
}

/// The provider's top-level forecast response. Only `short_intervals`
/// is consumed downstream.
pub struct ResponseAPI {
    pub created: Option<i64>,
    pub update: Option<i64>,
    pub short_intervals: Option<Vec<ShortPositions>>,
    pub long_intervals: Option<Vec<ShortPositions>>,
}

/// The entries a response offers: its short intervals, or nothing.
pub open spec fn intervals_of(resp: ResponseAPI) -> Seq<ShortPositions> {
    match resp.short_intervals {
        Some(v) => v@,
        None => Seq::empty(),
    }
}

} // verus!
