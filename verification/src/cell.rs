//! The canonical value model: one typed scalar per table cell, and the
//! error taxonomy of the sync engine.

use vstd::prelude::*;

verus! {

/// One cell of a canonical table.  Exactly one variant is active; `Null`
/// stands for an absent or empty value and is distinct from an empty text.
///
/// A floating-point cell carries the decimal rendering of its value rather
/// than a machine float: the boundary that parses or fetches the number owns
/// all floating-point work and hands this crate the text it would print.
#[derive(Debug)]
pub enum Cell {
    Text(String),
    Int(i64),
    Float(String),
    Bool(bool),
    Null,
}

/// The mathematical value of a [`Cell`], used by every contract.
pub enum CellVal {
    Text(Seq<char>),
    Int(int),
    Float(Seq<char>),
    Bool(bool),
    Null,
}

impl View for Cell {
    type V = CellVal;

    open spec fn view(&self) -> CellVal {
        match self {
            Cell::Text(s) => CellVal::Text(s@),
            Cell::Int(i) => CellVal::Int(*i as int),
            Cell::Float(t) => CellVal::Float(t@),
            Cell::Bool(b) => CellVal::Bool(*b),
            Cell::Null => CellVal::Null,
        }
    }
}

impl DeepView for Cell {
    type V = CellVal;

    open spec fn deep_view(&self) -> CellVal {
        self.view()
    }
}

/// The error taxonomy of the engine.  Drop-table failures are deliberately
/// absent: the drop step is best-effort and its failures are swallowed.
#[derive(Clone, Copy, Debug, PartialEq, Eq, Structural)]
pub enum SyncError {
    /// Missing or garbled upload or fetch payload, or a row whose length
    /// differs from the header row's.
    MalformedInput,
    /// The remote document or object store could not be fetched.
    UpstreamUnavailable,
    /// The target database could not be reached.
    ConnectionFailure,
    /// The create-table statement was rejected.
    SchemaFailure,
    /// The bulk insert was rejected.
    InsertFailure,
}

impl SyncError {
    /// A short description of the error, suitable for reporting to a caller.
    pub fn message(&self) -> (s: String)
        ensures
            s@ == match *self {
                SyncError::MalformedInput => "malformed input"@,
                SyncError::UpstreamUnavailable => "upstream unavailable"@,
                SyncError::ConnectionFailure => "connection failed"@,
                SyncError::SchemaFailure => "create table failed"@,
                SyncError::InsertFailure => "insert failed"@,
            },
    {
        match self {
            SyncError::MalformedInput => "malformed input".to_owned(),
            SyncError::UpstreamUnavailable => "upstream unavailable".to_owned(),
            SyncError::ConnectionFailure => "connection failed".to_owned(),
            SyncError::SchemaFailure => "create table failed".to_owned(),
            SyncError::InsertFailure => "insert failed".to_owned(),
        }
    }
}

} // verus!
