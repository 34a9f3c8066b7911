//! Per-column type inference: a column is text-typed when any data row holds
//! a text cell at that position, numeric-typed otherwise.  Boolean and null
//! cells never trigger the text classification, and a table with zero data
//! rows is numeric-typed throughout.

use vstd::prelude::*;

use crate::cell::{Cell, CellVal};
use crate::table::{CanonicalTable, TableView};

verus! {

/// The SQL type class inferred for one column.
#[derive(Clone, Copy, Debug, PartialEq, Eq, Structural)]
pub enum ColType {
    /// At least one data cell in the column is text.
    Textual,
    /// Every data cell in the column is integer, floating, boolean or null.
    Numeric,
}

/// Whether some data row holds a text cell in column `j`.
pub open spec fn col_is_text(rows: Seq<Seq<CellVal>>, j: int) -> bool {
    exists|i: int| 0 <= i < rows.len() && (#[trigger] rows[i])[j] is Text
}

/// The inferred schema: one [`ColType`] per header, in header order.
pub open spec fn infer_spec(t: TableView) -> Seq<ColType> {
    Seq::new(
        t.headers.len(),
        |j: int| if col_is_text(t.rows, j) {
            ColType::Textual
        } else {
            ColType::Numeric
        },
    )
}

fn column_has_text(rows: &Vec<Vec<Cell>>, j: usize) -> (b: bool)
    requires
        forall|i: int| 0 <= i < rows@.len() ==> j < (#[trigger] rows@[i])@.len(),
    ensures
        b == col_is_text(rows.deep_view(), j as int),
{
    let mut i: usize = 0;
    while i < rows.len()
        invariant
            i <= rows@.len(),
            forall|k: int| 0 <= k < rows@.len() ==> j < (#[trigger] rows@[k])@.len(),
            forall|k: int| 0 <= k < i ==> !((#[trigger] rows.deep_view()[k])[j as int] is Text),
        decreases rows.len() - i,
    {
        let is_text = match &rows[i][j] {
            Cell::Text(_) => true,
            _ => false,
        };
        proof {
            assert(rows.deep_view()[i as int][j as int] == rows@[i as int]@[j as int]@);
        }
        if is_text {
            return true;
        }
        i += 1;
    }
    false
}

impl CanonicalTable {
    /// Infers the schema of this table: column `j` is text-typed exactly
    /// when some data row holds a text cell at position `j`.
    pub fn infer_schema(&self) -> (r: Vec<ColType>)
        ensures
            r@ == infer_spec(self@),
    {
        proof {
            use_type_invariant(self);
        }
        let headers = self.headers();
        let rows = self.rows();
        let mut r: Vec<ColType> = Vec::new();
        let mut j: usize = 0;
        while j < headers.len()
            invariant
                j <= self@.headers.len(),
                headers.deep_view() == self@.headers,
                rows.deep_view() == self@.rows,
                self@.wf(),
                r@.len() == j,
                forall|k: int| 0 <= k < j ==> r@[k] == infer_spec(self@)[k],
            decreases headers.len() - j,
        {
            proof {
                assert forall|i: int| 0 <= i < rows@.len() implies j < (#[trigger] rows@[i])@.len()
                    by {
                    assert(self@.rows[i].len() == rows@[i]@.len());
                }
            }
            if column_has_text(rows, j) {
                r.push(ColType::Textual);
            } else {
                r.push(ColType::Numeric);
            }
            j += 1;
        }
        proof {
            assert(r@ =~= infer_spec(self@));
        }
        r
    }
}

/// Schema inference is a pure function of the table: any two inference
/// results for the same table are identical.
pub proof fn lemma_inference_deterministic(t: TableView, r1: Seq<ColType>, r2: Seq<ColType>)
    requires
        r1 == infer_spec(t),
        r2 == infer_spec(t),
    ensures
        r1 == r2,
{
}

/// A column holding at least one text cell is always inferred text-typed; a
/// column holding only integer, floating, boolean or null cells is always
/// inferred numeric-typed.
pub proof fn lemma_inference_classification(t: TableView, j: int)
    requires
        0 <= j < t.headers.len(),
    ensures
        col_is_text(t.rows, j) ==> infer_spec(t)[j] == ColType::Textual,
        (forall|i: int|
            0 <= i < t.rows.len() ==> !((#[trigger] t.rows[i])[j] is Text)) ==> infer_spec(t)[j]
            == ColType::Numeric,
{
}

/// A table with zero data rows is numeric-typed throughout: with no data
/// cell to observe, no column can be text-typed.
pub proof fn lemma_empty_table_all_numeric(t: TableView, j: int)
    requires
        t.rows.len() == 0,
        0 <= j < t.headers.len(),
    ensures
        infer_spec(t)[j] == ColType::Numeric,
{
}

} // verus!
