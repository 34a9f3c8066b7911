//! A verified schema-inference and table-sync engine for tabular data.
//!
//! Tabular input (a delimited-text upload or a remote spreadsheet grid) is
//! normalized into a canonical table: an ordered header row plus rows of
//! typed cells.  The engine infers a SQL column type per column, generates
//! the drop/create/insert statements that replace a target table's contents,
//! and drives the strictly sequential sync state machine.  All I/O (HTTP,
//! database round-trips, spreadsheet fetches) stays outside this crate; the
//! library works on plain values and is verified end to end.

pub mod cell;
pub mod classify;
pub mod infer;
pub mod requests;
pub mod sql;
pub mod sync;
pub mod table;
