//! The row projector: keeps the forecast entries whose start instant is
//! one of the run's targets, in forecast order, and maps each one to the
//! flat row record, every field copied verbatim.
use vstd::prelude::*;

use crate::forecast::{intervals_of, ResponseAPI, ShortPositions};
use crate::sheet::GoogleRow;

verus! {

/// The row record a forecast entry projects to: each field is the
/// corresponding optional value, unchanged, with the "next 1 hour"
/// condition string as the weather text.
pub open spec fn row_of(e: ShortPositions) -> GoogleRow {
    GoogleRow {
        date: e.start,
        weather: e.symbol_code.next1_hour,
        temperature: e.temperature.value,
        feels_like: e.feels_like.value,
        precipitation: e.precipitation.value,
        wind_speed: e.wind.speed,
        wind_orientation: e.wind.direction,
        pressure: e.pressure.value,
        humidity: e.humidity.value,
        dew_point: e.dew_point.value,
        cloud_cover: e.cloud_cover.value,
        fog: e.cloud_cover.fog,
        low: e.cloud_cover.low,
        middle: e.cloud_cover.middle,
        high: e.cloud_cover.high,
    }
}

/// The entries whose start instant is a target, in their original order.
pub open spec fn matches_of(entries: Seq<ShortPositions>, targets: Seq<i64>) -> Seq<ShortPositions>
    decreases entries.len(),
{
    if entries.len() == 0 {
        Seq::empty()
    } else {
        let rest = matches_of(entries.drop_last(), targets);
        if targets.contains(entries.last().start) {
            rest.push(entries.last())
        } else {
            rest
        }
    }
}

/// The row records of a sequence of entries, one each, in order.
pub open spec fn rows_of(entries: Seq<ShortPositions>) -> Seq<GoogleRow> {
    entries.map_values(|e: ShortPositions| row_of(e))
}

/// Whether an instant is one of the targets.
fn contains_instant(targets: &Vec<i64>, t: i64) -> (r: bool)
    ensures
        r == targets@.contains(t),
{
    let mut i: usize = 0;
    while i < targets.len()
        invariant
            i <= targets@.len(),
            forall|j: int| 0 <= j < i ==> targets@[j] != t,
        decreases targets@.len() - i,
    {
        if targets[i] == t {
            return true;
        }
        i = i + 1;
    }
    false
}

/// Copies an optional text field.
fn clone_opt_string(o: &Option<String>) -> (r: Option<String>)
    ensures
        r == *o,
{
    match o {
        Some(s) => Some(s.clone()),
        None => None,
    }
}

/// Builds the row record of one entry.
fn row_from(e: &ShortPositions) -> (r: GoogleRow)
    ensures
        r == row_of(*e),
{
    GoogleRow {
        date: e.start,
        weather: clone_opt_string(&e.symbol_code.next1_hour),
        temperature: clone_opt_string(&e.temperature.value),
        feels_like: clone_opt_string(&e.feels_like.value),
        precipitation: clone_opt_string(&e.precipitation.value),
        wind_speed: clone_opt_string(&e.wind.speed),
        wind_orientation: clone_opt_string(&e.wind.direction),
        pressure: clone_opt_string(&e.pressure.value),
        humidity: clone_opt_string(&e.humidity.value),
        dew_point: clone_opt_string(&e.dew_point.value),
        cloud_cover: clone_opt_string(&e.cloud_cover.value),
        fog: clone_opt_string(&e.cloud_cover.fog),
        low: clone_opt_string(&e.cloud_cover.low),
        middle: clone_opt_string(&e.cloud_cover.middle),
        high: clone_opt_string(&e.cloud_cover.high),
    }
}

/// Projects a forecast response onto the run's targets: one row record per
/// short interval whose start is a target, in forecast order; no rows when
/// the response carries no short intervals.
pub fn project_rows(resp: &ResponseAPI, targets: &Vec<i64>) -> (rows: Vec<GoogleRow>)
    ensures
        rows@ == rows_of(matches_of(intervals_of(*resp), targets@)),
{
    let mut rows: Vec<GoogleRow> = Vec::new();
    let entries = match &resp.short_intervals {
        Some(v) => v,
        None => {
            proof {
                assert(rows@ =~= rows_of(matches_of(intervals_of(*resp), targets@)));
            }
            return rows;
        },
    };
    let n = entries.len();
    let mut i: usize = 0;
    while i < n
        invariant
            n == entries@.len(),
            i <= n,
            intervals_of(*resp) == entries@,
            rows@ == rows_of(matches_of(entries@.take(i as int), targets@)),
        decreases n - i,
    {
        let ghost pre = entries@.take(i as int);
        let ghost post = entries@.take(i as int + 1);
        proof {
            assert(post.drop_last() =~= pre);
            assert(post.last() == entries@[i as int]);
        }
        if contains_instant(targets, entries[i].start) {
            let row = row_from(&entries[i]);
            rows.push(row);
            proof {
                assert(matches_of(post, targets@) == matches_of(pre, targets@).push(
                    entries@[i as int],
                ));
                assert(rows@ =~= rows_of(matches_of(post, targets@)));
            }
        } else {
            proof {
                assert(matches_of(post, targets@) == matches_of(pre, targets@));
            }
        }
        i = i + 1;
    }
    proof {
        assert(entries@.take(n as int) =~= entries@);
    }
    rows
}

/// Membership of an entry's start in the target set, as a predicate.
pub open spec fn starts_at_target(targets: Seq<i64>) -> spec_fn(ShortPositions) -> bool {
    |e: ShortPositions| targets.contains(e.start)
}

/// Law: the projection keeps exactly the entries whose start is a target,
/// in their original order — it is the in-order filter of the forecast's
/// entries by target membership.
pub proof fn lemma_matches_is_filter(entries: Seq<ShortPositions>, targets: Seq<i64>)
    ensures
        matches_of(entries, targets) == entries.filter(starts_at_target(targets)),
    decreases entries.len(),
{
    reveal(Seq::filter);
    if entries.len() == 0 {
        assert(matches_of(entries, targets) =~= entries.filter(starts_at_target(targets)));
    } else {
        lemma_matches_is_filter(entries.drop_last(), targets);
        assert(starts_at_target(targets)(entries.last()) == targets.contains(entries.last().start));
    }
}

/// Law: every kept entry is one of the forecast's own and matched a
/// target, and no more entries are kept than the forecast offered.
pub proof fn lemma_matches_sound(entries: Seq<ShortPositions>, targets: Seq<i64>)
    ensures
        matches_of(entries, targets).len() <= entries.len(),
        forall|i: int|
            0 <= i < matches_of(entries, targets).len() ==> targets.contains(
                (#[trigger] matches_of(entries, targets)[i]).start,
            ),
        forall|i: int|
            0 <= i < matches_of(entries, targets).len() ==> entries.contains(
                #[trigger] matches_of(entries, targets)[i],
            ),
    decreases entries.len(),
{
    if entries.len() > 0 {
        let dl = entries.drop_last();
        lemma_matches_sound(dl, targets);
        assert forall|i: int| 0 <= i < matches_of(entries, targets).len() implies entries.contains(
            #[trigger] matches_of(entries, targets)[i],
        ) by {
            let m = matches_of(entries, targets)[i];
            if targets.contains(entries.last().start) && i == matches_of(entries, targets).len()
                - 1 {
                assert(m == entries.last());
                assert(entries[entries.len() - 1] == m);
            } else {
                assert(m == matches_of(dl, targets)[i]);
                assert(dl.contains(m));
                let j = choose|j: int| 0 <= j < dl.len() && dl[j] == m;
                assert(entries[j] == m);
            }
        }
    }
}

/// Law: when no entry's start matches any target, nothing is projected.
pub proof fn lemma_no_match_no_rows(entries: Seq<ShortPositions>, targets: Seq<i64>)
    requires
        forall|i: int| 0 <= i < entries.len() ==> !targets.contains(#[trigger] entries[i].start),
    ensures
        matches_of(entries, targets).len() == 0,
    decreases entries.len(),
{
    if entries.len() > 0 {
        assert(forall|i: int|
            0 <= i < entries.drop_last().len() ==> entries.drop_last()[i] == entries[i]);
        lemma_no_match_no_rows(entries.drop_last(), targets);
    }
}

/// Law: when every entry's start matches a target, every entry is kept,
/// unchanged and in order.
pub proof fn lemma_all_match_all_rows(entries: Seq<ShortPositions>, targets: Seq<i64>)
    requires
        forall|i: int| 0 <= i < entries.len() ==> targets.contains(#[trigger] entries[i].start),
    ensures
        matches_of(entries, targets) == entries,
    decreases entries.len(),
{
    if entries.len() > 0 {
        assert(forall|i: int|
            0 <= i < entries.drop_last().len() ==> entries.drop_last()[i] == entries[i]);
        lemma_all_match_all_rows(entries.drop_last(), targets);
        assert(matches_of(entries, targets) =~= entries);
    } else {
        assert(matches_of(entries, targets) =~= entries);
    }
}

} // verus!
