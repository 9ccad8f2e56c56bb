//! Collects weather forecasts for three fixed locations, filters the
//! forecast entries to the hour-instants a run targets, and prepares the
//! rows that are appended to a shared spreadsheet.
//!
//! The library holds the whole decision pipeline: which instants a run
//! profile targets, which forecast entries match them, and how a matching
//! entry becomes the eighteen textual cells of one spreadsheet row. The
//! network and spreadsheet I/O around it hand the library plain values.
pub mod forecast;
pub mod nz_time;
pub mod plan;
pub mod project;
pub mod schedule;
pub mod sheet;
pub mod text;
