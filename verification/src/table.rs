//! The canonical table: an ordered header row plus rows of cells, every row
//! exactly as long as the header row.  A table is built once by an adapter,
//! consumed once by the sync engine, and never mutated in between.

use vstd::prelude::*;

use crate::cell::{Cell, CellVal, SyncError};

verus! {

/// The mathematical content of a [`CanonicalTable`].
pub struct TableView {
    pub headers: Seq<Seq<char>>,
    pub rows: Seq<Seq<CellVal>>,
}

impl TableView {
    /// Every row is exactly as long as the header row.
    pub open spec fn wf(self) -> bool {
        forall|i: int|
            0 <= i < self.rows.len() ==> (#[trigger] self.rows[i]).len() == self.headers.len()
    }
}

/// The adapter-independent representation of tabular input.  The fields are
/// private so that every value of this type satisfies [`TableView::wf`]:
/// construction goes through [`CanonicalTable::new`] or the grid-splitting
/// adapters, which reject malformed input instead of padding or truncating.
pub struct CanonicalTable {
    headers: Vec<String>,
    rows: Vec<Vec<Cell>>,
}

impl View for CanonicalTable {
    type V = TableView;

    closed spec fn view(&self) -> TableView {
        TableView { headers: self.headers.deep_view(), rows: self.rows.deep_view() }
    }
}

impl CanonicalTable {
    #[verifier::type_invariant]
    pub open spec fn inv(self) -> bool {
        self@.wf()
    }

    /// Builds a table from a header row and data rows, rejecting any row
    /// whose length differs from the header row's.  Succeeds if and only if
    /// every row has exactly as many cells as there are headers.
    pub fn new(headers: Vec<String>, rows: Vec<Vec<Cell>>) -> (r: Result<CanonicalTable, SyncError>)
        ensures
            match r {
                Ok(t) => t@ == (TableView {
                    headers: headers.deep_view(),
                    rows: rows.deep_view(),
                }) && t@.wf(),
                Err(e) => e == SyncError::MalformedInput && !(TableView {
                    headers: headers.deep_view(),
                    rows: rows.deep_view(),
                }).wf(),
            },
    {
        let ghost tv = TableView { headers: headers.deep_view(), rows: rows.deep_view() };
        let n = headers.len();
        let mut i: usize = 0;
        while i < rows.len()
            invariant
                i <= rows.len(),
                n == headers@.len(),
                tv == (TableView { headers: headers.deep_view(), rows: rows.deep_view() }),
                forall|k: int| 0 <= k < i ==> (#[trigger] rows@[k])@.len() == n,
            decreases rows.len() - i,
        {
            if rows[i].len() != n {
                proof {
                    assert(tv.rows[i as int].len() == rows@[i as int]@.len());
                    assert(!tv.wf());
                }
                return Err(SyncError::MalformedInput);
            }
            i += 1;
        }
        proof {
            assert forall|k: int| 0 <= k < tv.rows.len() implies (#[trigger] tv.rows[k]).len()
                == tv.headers.len() by {
                assert(tv.rows[k].len() == rows@[k]@.len());
            }
            assert(tv.wf());
        }
        Ok(CanonicalTable { headers, rows })
    }

    /// The header row.
    pub fn headers(&self) -> (h: &Vec<String>)
        ensures
            h.deep_view() == self@.headers,
    {
        &self.headers
    }

    /// The data rows.
    pub fn rows(&self) -> (r: &Vec<Vec<Cell>>)
        ensures
            r.deep_view() == self@.rows,
    {
        &self.rows
    }

    /// The number of data rows.
    pub fn row_count(&self) -> (n: usize)
        ensures
            n == self@.rows.len(),
    {
        self.rows.len()
    }
}

/// The column name a raw header cell contributes: text cells name their
/// column, every other kind leaves the name empty, which makes statement
/// generation fall back to a synthesized positional name.
pub open spec fn header_name_of(c: CellVal) -> Seq<char> {
    match c {
        CellVal::Text(s) => s,
        _ => Seq::empty(),
    }
}

/// Splits a raw cell grid into a canonical table: row 0 becomes the header
/// row (text cells verbatim, other kinds as empty names), the remaining rows
/// become the data rows.  Rejects an empty grid (no header row) and any data
/// row whose length differs from the header row's.
pub fn table_from_cells(grid: Vec<Vec<Cell>>) -> (r: Result<CanonicalTable, SyncError>)
    ensures
        match r {
            Ok(t) => {
                &&& grid.deep_view().len() > 0
                &&& t@.headers == grid.deep_view()[0].map_values(|c: CellVal| header_name_of(c))
                &&& t@.rows == grid.deep_view().drop_first()
                &&& t@.wf()
            },
            Err(e) => e == SyncError::MalformedInput && (grid.deep_view().len() == 0
                || exists|i: int|
                1 <= i < grid.deep_view().len() && (#[trigger] grid.deep_view()[i]).len()
                    != grid.deep_view()[0].len()),
        },
{
    let mut grid = grid;
    if grid.len() == 0 {
        return Err(SyncError::MalformedInput);
    }
    let ghost gv = grid.deep_view();
    let first = grid.remove(0);
    assert(first.deep_view() == gv[0]);
    assert(grid.deep_view() =~= gv.drop_first());
    let mut headers: Vec<String> = Vec::new();
    let mut j: usize = 0;
    while j < first.len()
        invariant
            j <= first@.len(),
            headers@.len() == j,
            forall|k: int| 0 <= k < j ==> (#[trigger] headers@[k])@ == header_name_of(first@[k]@),
        decreases first.len() - j,
    {
        match &first[j] {
            Cell::Text(s) => headers.push(s.clone()),
            _ => headers.push(String::new()),
        }
        j += 1;
    }
    proof {
        assert forall|k: int| 0 <= k < first@.len() implies #[trigger] headers.deep_view()[k]
            == first.deep_view().map_values(|c: CellVal| header_name_of(c))[k] by {
            assert(headers.deep_view()[k] == headers@[k]@);
            assert(first.deep_view()[k] == first@[k]@);
        }
        assert(headers.deep_view() =~= first.deep_view().map_values(
            |c: CellVal| header_name_of(c),
        ));
    }
    match CanonicalTable::new(headers, grid) {
        Ok(t) => Ok(t),
        Err(e) => Err(e),
    }
}

} // verus!
