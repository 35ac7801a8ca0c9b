//! Type-aware export of database tables to CSV.
//!
//! The crate holds the rules of a batch export: how a column's declared type
//! selects the rendering of its cells, how the rows of a table become the
//! records of one CSV file, how the files of a run are named, and how a run
//! reacts to the failure of one of its tables.  Database access and file
//! access are left to the caller, who feeds the library plain values and
//! carries out the actions it hands back.

pub mod artifact;
pub mod calendar;
pub mod category;
pub mod cell;
pub mod config;
pub mod error;
pub mod json;
pub mod lines;
pub mod run;
pub mod sink;
pub mod table;
pub mod text;
