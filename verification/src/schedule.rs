//! The run schedule: which two hour-instants of the next calendar day a
//! run targets, selected by its profile.
use vstd::prelude::*;

use crate::nz_time::{nz_civil_of, nz_civil_parts, nz_instant_of, nz_local_instant, valid_instant};
use crate::text::str_eq;

verus! {

/// A run profile: the morning run records the small hours, the night run
/// the afternoon and evening.
pub enum Profile {
    Morning,
    Night,
}

/// A fatal configuration fault, found before any network activity.
#[derive(Debug)]
pub enum ConfigError {
    /// The profile text is neither of the two the schedule knows.
    UnknownProfile,
}

/// The target instants could not be computed.
#[derive(Debug)]
pub enum TargetError {
    /// The zone has no instant for a targeted civil time.
    UnavailableCivilTime,
}

/// The two civil hours of the next day a profile targets.
pub open spec fn profile_hours(p: Profile) -> (int, int) {
    match p {
        Profile::Morning => (0int, 6int),
        Profile::Night => (12int, 18int),
    }
}

/// Law: the morning profile targets hours zero and six, the night profile
/// hours twelve and eighteen, and no profile targets any other hours.
pub proof fn lemma_profile_hours_exact()
    ensures
        profile_hours(Profile::Morning) == (0int, 6int),
        profile_hours(Profile::Night) == (12int, 18int),
        forall|p: Profile|
            #[trigger] profile_hours(p) == (0int, 6int) || profile_hours(p) == (12int, 18int),
{
}

/// Parses the profile selector: exactly `"morning"` and `"night"` are
/// accepted, anything else is a configuration fault.
pub fn parse_profile(s: &str) -> (r: Result<Profile, ConfigError>)
    ensures
        s@ == "morning"@ ==> r == Ok::<Profile, ConfigError>(Profile::Morning),
        s@ == "night"@ ==> r == Ok::<Profile, ConfigError>(Profile::Night),
        s@ != "morning"@ && s@ != "night"@ ==> r == Err::<Profile, ConfigError>(
            ConfigError::UnknownProfile,
        ),
{
    proof {
        reveal_strlit("morning");
        reveal_strlit("night");
        assert("morning"@.len() == 7);
        assert("night"@.len() == 5);
        assert("morning"@ != "night"@);
    }
    if str_eq(s, "morning") {
        Ok(Profile::Morning)
    } else if str_eq(s, "night") {
        Ok(Profile::Night)
    } else {
        Err(ConfigError::UnknownProfile)
    }
}

/// The profile's two target hours, smaller first.
pub fn profile_target_hours(p: &Profile) -> (r: (u32, u32))
    ensures
        (r.0 as int, r.1 as int) == profile_hours(*p),
{
    match p {
        Profile::Morning => (0, 6),
        Profile::Night => (12, 18),
    }
}

/// The two target instants on a given New Zealand civil date: the
/// profile's hours of that date, as instants, earlier first. Succeeds if
/// and only if the zone has an instant for both civil times — it always
/// does for a valid date, since no clock change there touches the four
/// candidate hours.
pub fn targets_for_date(y: i32, m: u32, d: u32, p: &Profile) -> (r: Result<Vec<i64>, TargetError>)
    ensures
        ({
            let hs = profile_hours(*p);
            (r is Ok) == (nz_instant_of(y as int, m as int, d as int, hs.0) is Some
                && nz_instant_of(y as int, m as int, d as int, hs.1) is Some)
        }),
        r is Ok ==> ({
            let hs = profile_hours(*p);
            &&& r->Ok_0@.len() == 2
            &&& r->Ok_0@[0] as int == nz_instant_of(y as int, m as int, d as int, hs.0)->0
            &&& r->Ok_0@[1] as int == nz_instant_of(y as int, m as int, d as int, hs.1)->0
        }),
        r is Err ==> r->Err_0 == TargetError::UnavailableCivilTime,
{
    let (h1, h2) = profile_target_hours(p);
    let t1 = match nz_local_instant(y, m, d, h1) {
        Some(t) => t,
        None => {
            return Err(TargetError::UnavailableCivilTime);
        },
    };
    let t2 = match nz_local_instant(y, m, d, h2) {
        Some(t) => t,
        None => {
            return Err(TargetError::UnavailableCivilTime);
        },
    };
    Ok(vec![t1, t2])
}

/// The Target Timestamp Set of a run that starts at `now`: the profile's
/// two hours of the next calendar day on the New Zealand clock — the
/// civil date one full day past the run instant — earlier first. Succeeds
/// if and only if the zone has an instant for both of those civil times,
/// which it always does: that date exists, and no clock change there
/// touches the four candidate hours.
pub fn run_targets(now: i64, profile: &Profile) -> (r: Result<Vec<i64>, TargetError>)
    requires
        valid_instant(now as int),
        valid_instant(now as int + 86400),
    ensures
        ({
            let c = nz_civil_of(now as int + 86400);
            let hs = profile_hours(*profile);
            (r is Ok) == (nz_instant_of(c.0, c.1, c.2, hs.0) is Some && nz_instant_of(
                c.0,
                c.1,
                c.2,
                hs.1,
            ) is Some)
        }),
        r is Ok ==> ({
            let c = nz_civil_of(now as int + 86400);
            let hs = profile_hours(*profile);
            &&& r->Ok_0@.len() == 2
            &&& r->Ok_0@[0] as int == nz_instant_of(c.0, c.1, c.2, hs.0)->0
            &&& r->Ok_0@[1] as int == nz_instant_of(c.0, c.1, c.2, hs.1)->0
        }),
        r is Err ==> r->Err_0 == TargetError::UnavailableCivilTime,
{
    let tomorrow = now + 86400;
    let (y, m, d, _h, _mi, _s) = nz_civil_parts(tomorrow);
    targets_for_date(y, m, d, profile)
}

} // verus!
