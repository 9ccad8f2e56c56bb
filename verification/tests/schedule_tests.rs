use glacier_weather::schedule::{
    parse_profile, run_targets, targets_for_date, ConfigError, Profile, TargetError,
};

// 2023-05-01T00:00:00Z, noon on the New Zealand clock (NZST, UTC+12).
const RUN_INSTANT: i64 = 1682899200;

#[test]
fn parse_profile_morning() {
    assert!(matches!(parse_profile("morning"), Ok(Profile::Morning)));
}

#[test]
fn parse_profile_night() {
    assert!(matches!(parse_profile("night"), Ok(Profile::Night)));
}

#[test]
fn parse_profile_rejects_everything_else() {
    assert!(matches!(
        parse_profile("noon"),
        Err(ConfigError::UnknownProfile)
    ));
    assert!(matches!(parse_profile(""), Err(ConfigError::UnknownProfile)));
    assert!(matches!(
        parse_profile("Morning"),
        Err(ConfigError::UnknownProfile)
    ));
    assert!(matches!(
        parse_profile("nights"),
        Err(ConfigError::UnknownProfile)
    ));
}

#[test]
fn morning_targets_next_day_hours_00_and_06() {
    let targets = run_targets(RUN_INSTANT, &Profile::Morning).unwrap();
    // 2023-05-02 00:00 and 06:00 NZST are 2023-05-01 12:00 and 18:00 UTC.
    assert_eq!(targets, vec![1682942400, 1682964000]);
}

#[test]
fn night_targets_next_day_hours_12_and_18() {
    let targets = run_targets(RUN_INSTANT, &Profile::Night).unwrap();
    // 2023-05-02 12:00 and 18:00 NZST are 2023-05-02 00:00 and 06:00 UTC.
    assert_eq!(targets, vec![1682985600, 1683007200]);
}

#[test]
fn targets_for_date_gives_the_civil_hours_as_instants() {
    let targets = targets_for_date(2023, 5, 2, &Profile::Morning).unwrap();
    assert_eq!(targets, vec![1682942400, 1682964000]);
}

#[test]
fn invalid_civil_date_yields_no_targets() {
    assert!(matches!(
        targets_for_date(2023, 13, 1, &Profile::Morning),
        Err(TargetError::UnavailableCivilTime)
    ));
    assert!(matches!(
        targets_for_date(2023, 2, 30, &Profile::Night),
        Err(TargetError::UnavailableCivilTime)
    ));
}

#[test]
fn summer_targets_follow_daylight_saving() {
    // 2023-01-10T00:00:00Z; the next New Zealand day is 2023-01-11 (NZDT,
    // UTC+13), so 00:00 local is 2023-01-10T11:00:00Z.
    let now: i64 = 1673308800;
    let targets = run_targets(now, &Profile::Morning).unwrap();
    assert_eq!(targets, vec![1673348400, 1673370000]);
}
