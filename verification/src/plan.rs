//! The per-location write plan: each projected row, rendered, addressed at
//! the next free row index and the indices after it, one step each.
use vstd::prelude::*;

use crate::forecast::{intervals_of, ResponseAPI};
use crate::nz_time::valid_instant;
use crate::project::{lemma_matches_sound, matches_of, project_rows, row_of, rows_of};
use crate::sheet::{range_text_of, rendered_cells, row_cells, row_range, views_of, GoogleRow};

verus! {

/// One planned write: the row index it goes to, the A1-notation range of
/// that row, and the eighteen cell texts.
pub struct PlannedWrite {
    pub index: usize,
    pub range: String,
    pub cells: Vec<String>,
}

/// What a write plan must hold: one write per row record, the first at
/// `next_index`, each next one exactly one row further, each addressed at
/// its own row's range and carrying its own row's rendered cells.
pub open spec fn planned(
    page: Seq<char>,
    next_index: int,
    rows: Seq<GoogleRow>,
    plan: Seq<PlannedWrite>,
) -> bool {
    &&& plan.len() == rows.len()
    &&& forall|i: int|
        0 <= i < plan.len() ==> {
            &&& (#[trigger] plan[i]).index == next_index + i
            &&& plan[i].range@ == range_text_of(page, (next_index + i) as nat)
            &&& rendered_cells(rows[i], views_of(plan[i].cells@))
        }
}

/// Plans the writes of a batch of row records onto a page, the first at
/// `next_index` and each successive one at the index one higher.
pub fn plan_writes(page: &str, next_index: usize, rows: &Vec<GoogleRow>) -> (plan: Vec<
    PlannedWrite,
>)
    requires
        next_index + rows@.len() <= usize::MAX,
        forall|i: int| 0 <= i < rows@.len() ==> valid_instant((#[trigger] rows@[i]).date as int),
    ensures
        planned(page@, next_index as int, rows@, plan@),
{
    let mut plan: Vec<PlannedWrite> = Vec::new();
    let mut i: usize = 0;
    while i < rows.len()
        invariant
            i <= rows@.len(),
            next_index + rows@.len() <= usize::MAX,
            forall|j: int| 0 <= j < rows@.len() ==> valid_instant((#[trigger] rows@[j]).date as int),
            plan@.len() == i,
            forall|j: int|
                0 <= j < i ==> {
                    &&& (#[trigger] plan@[j]).index == next_index + j
                    &&& plan@[j].range@ == range_text_of(page@, (next_index + j) as nat)
                    &&& rendered_cells(rows@[j], views_of(plan@[j].cells@))
                },
        decreases rows@.len() - i,
    {
        let idx = next_index + i;
        let range = row_range(page, idx);
        let cells = row_cells(&rows[i]);
        plan.push(PlannedWrite { index: idx, range, cells });
        i = i + 1;
    }
    plan
}

/// The whole pure part of one location's run: projects the forecast onto
/// the targets and plans the writes, the first at `next_index`.
pub fn plan_location(
    resp: &ResponseAPI,
    targets: &Vec<i64>,
    page: &str,
    next_index: usize,
) -> (plan: Vec<PlannedWrite>)
    requires
        next_index + intervals_of(*resp).len() <= usize::MAX,
        forall|i: int|
            0 <= i < intervals_of(*resp).len() ==> valid_instant(
                (#[trigger] intervals_of(*resp)[i]).start as int,
            ),
    ensures
        planned(
            page@,
            next_index as int,
            rows_of(matches_of(intervals_of(*resp), targets@)),
            plan@,
        ),
{
    let rows = project_rows(resp, targets);
    proof {
        let entries = intervals_of(*resp);
        let ms = matches_of(entries, targets@);
        lemma_matches_sound(entries, targets@);
        assert forall|i: int| 0 <= i < rows@.len() implies valid_instant(
            (#[trigger] rows@[i]).date as int,
        ) by {
            assert(rows@[i] == row_of(ms[i]));
            assert(entries.contains(ms[i]));
            let j = choose|j: int| 0 <= j < entries.len() && entries[j] == ms[i];
            assert(valid_instant(entries[j].start as int));
        }
    }
    plan_writes(page, next_index, &rows)
}

} // verus!
