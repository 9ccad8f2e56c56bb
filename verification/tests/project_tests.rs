use glacier_weather::forecast::{
    CloudCover, DewPoint, FeelsLike, Humidity, Precipitation, Pressure, ResponseAPI,
    ShortPositions, Symbol, SymbolCode, Temperature, Wind,
};
use glacier_weather::project::project_rows;
use glacier_weather::schedule::{run_targets, Profile};

fn bare_entry(start: i64) -> ShortPositions {
    ShortPositions {
        symbol: Symbol { sunup: false, n: 0, clouds: 0, precip: 0 },
        symbol_code: SymbolCode { next1_hour: None, next6_hours: None, next12_hours: None },
        precipitation: Precipitation { value: None },
        temperature: Temperature { value: None, min: None, max: None },
        wind: Wind { direction: None, speed: None },
        feels_like: FeelsLike { value: None },
        pressure: Pressure { value: None },
        cloud_cover: CloudCover { value: None, high: None, middle: None, low: None, fog: None },
        humidity: Humidity { value: None },
        dew_point: DewPoint { value: None },
        start,
        end: start + 3600,
        nominal_start: None,
        nominal_end: None,
    }
}

fn full_entry(start: i64) -> ShortPositions {
    let mut e = bare_entry(start);
    e.symbol_code.next1_hour = Some("cloudy".to_string());
    e.symbol_code.next6_hours = Some("rain".to_string());
    e.temperature.value = Some("-12.5".to_string());
    e.feels_like.value = Some("-20".to_string());
    e.precipitation.value = Some("0.3".to_string());
    e.wind.speed = Some("14.2".to_string());
    e.wind.direction = Some("270".to_string());
    e.pressure.value = Some("985.1".to_string());
    e.humidity.value = Some("81".to_string());
    e.dew_point.value = Some("-15.4".to_string());
    e.cloud_cover.value = Some("100".to_string());
    e.cloud_cover.fog = Some("0".to_string());
    e.cloud_cover.low = Some("75".to_string());
    e.cloud_cover.middle = Some("50".to_string());
    e.cloud_cover.high = Some("25".to_string());
    e
}

fn response(entries: Option<Vec<ShortPositions>>) -> ResponseAPI {
    ResponseAPI { created: None, update: None, short_intervals: entries, long_intervals: None }
}

// 2023-05-01T00:00:00Z; morning targets for the next New Zealand day are
// 2023-05-01T12:00:00Z and 2023-05-01T18:00:00Z.
const RUN_INSTANT: i64 = 1682899200;
const NON_TARGET_0500_UTC: i64 = 1682917200;
const TARGET_MIDNIGHT_NZ: i64 = 1682942400;

#[test]
fn one_matching_entry_of_two_is_projected() {
    // An entry at 05:00 UTC (17:00 on the New Zealand clock, no target)
    // and one at 12:00 UTC (00:00 of the next New Zealand day, a morning
    // target): exactly the second is kept.
    let targets = run_targets(RUN_INSTANT, &Profile::Morning).unwrap();
    let resp = response(Some(vec![
        full_entry(NON_TARGET_0500_UTC),
        full_entry(TARGET_MIDNIGHT_NZ),
    ]));
    let rows = project_rows(&resp, &targets);
    assert_eq!(rows.len(), 1);
    assert_eq!(rows[0].date, TARGET_MIDNIGHT_NZ);
}

#[test]
fn fields_are_copied_verbatim() {
    let targets = vec![TARGET_MIDNIGHT_NZ];
    let resp = response(Some(vec![full_entry(TARGET_MIDNIGHT_NZ)]));
    let rows = project_rows(&resp, &targets);
    assert_eq!(rows.len(), 1);
    let r = &rows[0];
    assert_eq!(r.date, TARGET_MIDNIGHT_NZ);
    assert_eq!(r.weather.as_deref(), Some("cloudy"));
    assert_eq!(r.temperature.as_deref(), Some("-12.5"));
    assert_eq!(r.feels_like.as_deref(), Some("-20"));
    assert_eq!(r.precipitation.as_deref(), Some("0.3"));
    assert_eq!(r.wind_speed.as_deref(), Some("14.2"));
    assert_eq!(r.wind_orientation.as_deref(), Some("270"));
    assert_eq!(r.pressure.as_deref(), Some("985.1"));
    assert_eq!(r.humidity.as_deref(), Some("81"));
    assert_eq!(r.dew_point.as_deref(), Some("-15.4"));
    assert_eq!(r.cloud_cover.as_deref(), Some("100"));
    assert_eq!(r.fog.as_deref(), Some("0"));
    assert_eq!(r.low.as_deref(), Some("75"));
    assert_eq!(r.middle.as_deref(), Some("50"));
    assert_eq!(r.high.as_deref(), Some("25"));
}

#[test]
fn absent_fields_stay_absent() {
    let targets = vec![TARGET_MIDNIGHT_NZ];
    let resp = response(Some(vec![bare_entry(TARGET_MIDNIGHT_NZ)]));
    let rows = project_rows(&resp, &targets);
    assert_eq!(rows.len(), 1);
    let r = &rows[0];
    assert!(r.weather.is_none());
    assert!(r.temperature.is_none());
    assert!(r.feels_like.is_none());
    assert!(r.precipitation.is_none());
    assert!(r.wind_speed.is_none());
    assert!(r.wind_orientation.is_none());
    assert!(r.pressure.is_none());
    assert!(r.humidity.is_none());
    assert!(r.dew_point.is_none());
    assert!(r.cloud_cover.is_none());
    assert!(r.fog.is_none());
    assert!(r.low.is_none());
    assert!(r.middle.is_none());
    assert!(r.high.is_none());
}

#[test]
fn interleaved_entries_keep_only_matches_in_order() {
    let targets = vec![1682942400, 1682964000];
    let resp = response(Some(vec![
        bare_entry(1682917200),
        bare_entry(1682942400),
        bare_entry(1682920800),
        bare_entry(1682964000),
        bare_entry(1682985600),
    ]));
    let rows = project_rows(&resp, &targets);
    assert_eq!(rows.len(), 2);
    assert_eq!(rows[0].date, 1682942400);
    assert_eq!(rows[1].date, 1682964000);
}

#[test]
fn absent_short_intervals_project_nothing() {
    let targets = vec![TARGET_MIDNIGHT_NZ];
    let resp = response(None);
    let rows = project_rows(&resp, &targets);
    assert!(rows.is_empty());
}

#[test]
fn empty_short_intervals_project_nothing() {
    let targets = vec![TARGET_MIDNIGHT_NZ];
    let resp = response(Some(vec![]));
    let rows = project_rows(&resp, &targets);
    assert!(rows.is_empty());
}
