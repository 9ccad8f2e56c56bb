//! The spreadsheet side: the flat row record, the cell range a row is
//! written to, the next-row bookkeeping, and the write path's error
//! categories with the policy applied to them.
use vstd::prelude::*;

use crate::nz_time::{
    ddmmyy_text, hhmm_text, nz_civil_of, nz_date_cell, nz_hour_cell, nz_text, nz_text_of, utc_text,
    utc_text_of, valid_instant,
};
use crate::text::{dec_text, push_dec};

verus! {

/// A flat record of one spreadsheet row: the forecast window's start
/// instant and fourteen independently optional measurements, each carried
/// as its decimal text (the condition string for `weather`).
pub struct GoogleRow {
    pub date: i64,
    pub weather: Option<String>,
    pub temperature: Option<String>,
    pub feels_like: Option<String>,
    pub precipitation: Option<String>,
    pub wind_speed: Option<String>,
    pub wind_orientation: Option<String>,
    pub pressure: Option<String>,
    pub humidity: Option<String>,
    pub dew_point: Option<String>,
    pub cloud_cover: Option<String>,
    pub fog: Option<String>,
    pub low: Option<String>,
    pub middle: Option<String>,
    pub high: Option<String>,
}

/// What an optional field renders to: its text, or the empty cell.
pub open spec fn opt_text(o: Option<String>) -> Seq<char> {
    match o {
        Some(s) => s@,
        None => Seq::empty(),
    }
}

/// Renders an optional field as one cell.
pub fn opt_cell(o: &Option<String>) -> (r: String)
    ensures
        r@ == opt_text(*o),
{
    match o {
        Some(s) => s.clone(),
        None => String::new(),
    }
}

/// The A1-notation range one row is written to: eighteen columns, A
/// through R, of a single row of the page.
pub open spec fn range_text_of(page: Seq<char>, index: nat) -> Seq<char> {
    page + seq!['!', 'A'] + dec_text(index) + seq![':', 'R'] + dec_text(index)
}

/// Formats the range a row at `index` of `page` occupies.
pub fn row_range(page: &str, index: usize) -> (r: String)
    ensures
        r@ == range_text_of(page@, index as nat),
{
    proof {
        reveal_strlit("!A");
        reveal_strlit(":R");
    }
    let mut s = String::new();
    s.append(page);
    s.append("!A");
    push_dec(&mut s, index);
    s.append(":R");
    push_dec(&mut s, index);
    proof {
        assert(s@ =~= range_text_of(page@, index as nat));
    }
    s
}

/// The next row to write on a page, given how many rows column A already
/// holds: that count, or zero when the page reported no values at all.
pub fn next_row_index(filled: Option<usize>) -> (n: usize)
    ensures
        n == match filled {
            Some(c) => c,
            None => 0usize,
        },
{
    match filled {
        Some(c) => c,
        None => 0,
    }
}

/// The character sequences of a sequence of strings.
pub open spec fn views_of(cells: Seq<String>) -> Seq<Seq<char>> {
    cells.map_values(|s: String| s@)
}

/// What the eighteen cells of a row's write must hold: the start instant
/// as canonical UTC text, the same instant as canonical New Zealand text,
/// its New Zealand date as `DD/MM/YY`, its New Zealand clock reading as
/// `HH:MM`, then the fourteen optional fields in their fixed order, each
/// its text or the empty cell.
pub open spec fn rendered_cells(row: GoogleRow, cells: Seq<Seq<char>>) -> bool {
    let c = nz_civil_of(row.date as int);
    &&& cells.len() == 18
    &&& cells[0] == utc_text_of(row.date as int)
    &&& cells[0].len() > 0
    &&& cells[1] == nz_text_of(row.date as int)
    &&& cells[1].len() > 0
    &&& cells[2] == ddmmyy_text(c.0, c.1, c.2)
    &&& cells[3] == hhmm_text(c.3, c.4)
    &&& cells[4] == opt_text(row.weather)
    &&& cells[5] == opt_text(row.temperature)
    &&& cells[6] == opt_text(row.feels_like)
    &&& cells[7] == opt_text(row.precipitation)
    &&& cells[8] == opt_text(row.wind_speed)
    &&& cells[9] == opt_text(row.wind_orientation)
    &&& cells[10] == opt_text(row.pressure)
    &&& cells[11] == opt_text(row.humidity)
    &&& cells[12] == opt_text(row.dew_point)
    &&& cells[13] == opt_text(row.cloud_cover)
    &&& cells[14] == opt_text(row.fog)
    &&& cells[15] == opt_text(row.low)
    &&& cells[16] == opt_text(row.middle)
    &&& cells[17] == opt_text(row.high)
}

/// Renders a row record as the eighteen cell texts its write carries.
pub fn row_cells(row: &GoogleRow) -> (cells: Vec<String>)
    requires
        valid_instant(row.date as int),
    ensures
        rendered_cells(*row, views_of(cells@)),
{
    let mut cells: Vec<String> = Vec::new();
    cells.push(utc_text(row.date));
    cells.push(nz_text(row.date));
    cells.push(nz_date_cell(row.date));
    cells.push(nz_hour_cell(row.date));
    cells.push(opt_cell(&row.weather));
    cells.push(opt_cell(&row.temperature));
    cells.push(opt_cell(&row.feels_like));
    cells.push(opt_cell(&row.precipitation));
    cells.push(opt_cell(&row.wind_speed));
    cells.push(opt_cell(&row.wind_orientation));
    cells.push(opt_cell(&row.pressure));
    cells.push(opt_cell(&row.humidity));
    cells.push(opt_cell(&row.dew_point));
    cells.push(opt_cell(&row.cloud_cover));
    cells.push(opt_cell(&row.fog));
    cells.push(opt_cell(&row.low));
    cells.push(opt_cell(&row.middle));
    cells.push(opt_cell(&row.high));
    cells
}

/// Whether every optional field of a row record is present.
pub open spec fn all_fields_present(row: GoogleRow) -> bool {
    &&& row.weather is Some
    &&& row.temperature is Some
    &&& row.feels_like is Some
    &&& row.precipitation is Some
    &&& row.wind_speed is Some
    &&& row.wind_orientation is Some
    &&& row.pressure is Some
    &&& row.humidity is Some
    &&& row.dew_point is Some
    &&& row.cloud_cover is Some
    &&& row.fog is Some
    &&& row.low is Some
    &&& row.middle is Some
    &&& row.high is Some
}

/// Whether every optional field of a row record is absent.
pub open spec fn all_fields_absent(row: GoogleRow) -> bool {
    &&& row.weather is None
    &&& row.temperature is None
    &&& row.feels_like is None
    &&& row.precipitation is None
    &&& row.wind_speed is None
    &&& row.wind_orientation is None
    &&& row.pressure is None
    &&& row.humidity is None
    &&& row.dew_point is None
    &&& row.cloud_cover is None
    &&& row.fog is None
    &&& row.low is None
    &&& row.middle is None
    &&& row.high is None
}

/// A well-formed row record: its instant is in range, and a present field
/// carries text — a rendered decimal or condition string is never empty.
pub open spec fn wf_row(row: GoogleRow) -> bool {
    &&& valid_instant(row.date as int)
    &&& (row.weather is Some ==> row.weather->0@.len() > 0)
    &&& (row.temperature is Some ==> row.temperature->0@.len() > 0)
    &&& (row.feels_like is Some ==> row.feels_like->0@.len() > 0)
    &&& (row.precipitation is Some ==> row.precipitation->0@.len() > 0)
    &&& (row.wind_speed is Some ==> row.wind_speed->0@.len() > 0)
    &&& (row.wind_orientation is Some ==> row.wind_orientation->0@.len() > 0)
    &&& (row.pressure is Some ==> row.pressure->0@.len() > 0)
    &&& (row.humidity is Some ==> row.humidity->0@.len() > 0)
    &&& (row.dew_point is Some ==> row.dew_point->0@.len() > 0)
    &&& (row.cloud_cover is Some ==> row.cloud_cover->0@.len() > 0)
    &&& (row.fog is Some ==> row.fog->0@.len() > 0)
    &&& (row.low is Some ==> row.low->0@.len() > 0)
    &&& (row.middle is Some ==> row.middle->0@.len() > 0)
    &&& (row.high is Some ==> row.high->0@.len() > 0)
}

/// Law: a well-formed row record with every field present renders
/// eighteen non-empty cells.
pub proof fn lemma_present_row_renders_nonempty(row: GoogleRow, cells: Seq<Seq<char>>)
    requires
        rendered_cells(row, cells),
        wf_row(row),
        all_fields_present(row),
    ensures
        forall|i: int| 0 <= i < 18 ==> #[trigger] cells[i].len() > 0,
{
}

/// Law: a row record with every optional field absent renders the four
/// timestamp-derived cells populated and the remaining fourteen empty.
pub proof fn lemma_absent_row_renders_empty(row: GoogleRow, cells: Seq<Seq<char>>)
    requires
        rendered_cells(row, cells),
        all_fields_absent(row),
    ensures
        forall|i: int| 0 <= i < 4 ==> #[trigger] cells[i].len() > 0,
        forall|i: int| 4 <= i < 18 ==> #[trigger] cells[i].len() == 0,
{
}

/// The categories a spreadsheet read or write can fail with.
pub enum SheetError {
    /// Transport or HTTP failure.
    HttpError,
    /// I/O failure.
    Io,
    /// No credentials were available.
    MissingApiKey,
    /// The token was missing or invalid.
    MissingToken,
    /// The request was cancelled.
    Cancelled,
    /// The payload exceeded the service's size limit.
    UploadSizeLimitExceeded,
    /// The request was malformed.
    BadRequest,
    /// Fields in the request clashed.
    FieldClash,
    /// The response could not be decoded.
    JsonDecodeError,
    /// The service answered with a failure response; its body is drained
    /// and logged by the caller.
    Failure,
}

/// Whether a write-path failure aborts the run. No category does: every
/// one is logged and the run proceeds to the next row or location.
pub fn sheet_error_aborts_run(e: &SheetError) -> (b: bool)
    ensures
        !b,
{
    match e {
        SheetError::HttpError => false,
        SheetError::Io => false,
        SheetError::MissingApiKey => false,
        SheetError::MissingToken => false,
        SheetError::Cancelled => false,
        SheetError::UploadSizeLimitExceeded => false,
        SheetError::BadRequest => false,
        SheetError::FieldClash => false,
        SheetError::JsonDecodeError => false,
        SheetError::Failure => false,
    }
}

} // verus!
