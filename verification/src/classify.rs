//! Normalization of raw, untyped input into canonical cells.
//!
//! Delimited-text fields go through an explicit ordered classifier: an empty
//! field is null, a field in integer syntax is an integer, a field the
//! boundary recognized as a floating-point number keeps that numeric
//! rendering, and anything else is text.  Spreadsheet cells decode by the
//! provider's order: a present string first, then a set boolean flag, then
//! the numeric value.
//!
//! All floating-point work belongs to the I/O boundary: it hands this crate
//! the decimal rendering of any field that parses as a floating-point
//! number, and the classifier is verified for every value of that argument.

use vstd::prelude::*;
use vstd::string::StrSliceExecFns;

use crate::cell::{Cell, CellVal, SyncError};
use crate::table::{CanonicalTable, TableView};

verus! {

/// Whether `c` is a decimal digit.
pub open spec fn is_digit(c: char) -> bool {
    48 <= c as int <= 57
}

/// The value of a decimal digit.
pub open spec fn digit_val(c: char) -> int {
    c as int - 48
}

/// Whether every character of `s` is a decimal digit.
pub open spec fn all_digits(s: Seq<char>) -> bool {
    forall|i: int| 0 <= i < s.len() ==> is_digit(#[trigger] s[i])
}

/// The value of a digit string, most significant digit first.
pub open spec fn digits_val(s: Seq<char>) -> int
    decreases s.len(),
{
    if s.len() == 0 {
        0
    } else {
        digits_val(s.drop_last()) * 10 + digit_val(s.last())
    }
}

/// The digits of an integer text: everything after an optional sign.
pub open spec fn int_body(s: Seq<char>) -> Seq<char> {
    if s.len() > 0 && (s[0] == '-' || s[0] == '+') {
        s.drop_first()
    } else {
        s
    }
}

/// Whether an integer text denotes a negative value.
pub open spec fn int_negative(s: Seq<char>) -> bool {
    s.len() > 0 && s[0] == '-'
}

/// The value denoted by an integer text.
pub open spec fn int_value(s: Seq<char>) -> int {
    if int_negative(s) {
        -digits_val(int_body(s))
    } else {
        digits_val(int_body(s))
    }
}

/// Whether `s` is integer syntax the canonical model accepts: an optional
/// sign, one or more decimal digits, and a value in the signed 64-bit range.
pub open spec fn is_int_text(s: Seq<char>) -> bool {
    int_body(s).len() > 0 && all_digits(int_body(s)) && i64::MIN <= int_value(s) <= i64::MAX
}

proof fn lemma_digits_nonneg(s: Seq<char>)
    requires
        all_digits(s),
    ensures
        digits_val(s) >= 0,
    decreases s.len(),
{
    if s.len() > 0 {
        lemma_digits_nonneg(s.drop_last());
    }
}

/// The value of a digit string never falls below the value of any of its
/// prefixes: appending digits can only grow the magnitude.
proof fn lemma_digits_prefix_bound(s: Seq<char>, k: int)
    requires
        all_digits(s),
        0 <= k <= s.len(),
    ensures
        digits_val(s.take(k)) <= digits_val(s),
    decreases s.len() - k,
{
    if k < s.len() {
        lemma_digits_prefix_bound(s, k + 1);
        assert(s.take(k + 1).drop_last() =~= s.take(k));
        assert(all_digits(s.take(k)));
        lemma_digits_nonneg(s.take(k));
        assert(digits_val(s.take(k + 1)) == digits_val(s.take(k)) * 10 + digit_val(s[k]));
    } else {
        assert(s.take(k) =~= s);
    }
}

/// Parses integer syntax: `Some` exactly on texts of [`is_int_text`] shape,
/// with the denoted value.
pub fn parse_int_text(s: &str) -> (r: Option<i64>)
    ensures
        r is Some <==> is_int_text(s@),
        r matches Some(v) ==> v as int == int_value(s@),
{
    let len = s.unicode_len();
    if len == 0 {
        return None;
    }
    let first = s.get_char(0);
    let neg = first == '-';
    let signed = neg || first == '+';
    let start: usize = if signed {
        1
    } else {
        0
    };
    let ghost body = int_body(s@);
    proof {
        assert(body =~= s@.subrange(start as int, len as int));
    }
    if start == len {
        return None;
    }
    let mut acc: i64 = 0;
    let mut i: usize = start;
    while i < len
        invariant
            start <= i <= len,
            len == s@.len(),
            start == 0 || start == 1,
            body == int_body(s@),
            body =~= s@.subrange(start as int, len as int),
            all_digits(s@.subrange(start as int, i as int)),
            acc as int == -digits_val(s@.subrange(start as int, i as int)),
            acc <= 0,
        decreases len - i,
    {
        let ghost prefix = s@.subrange(start as int, i as int);
        let c = s.get_char(i);
        let u = c as u32;
        if u < 48 || u > 57 {
            proof {
                assert(body[i - start] == s@[i as int]);
                assert(!all_digits(body));
            }
            return None;
        }
        let d = (u - 48) as i64;
        proof {
            assert(is_digit(s@[i as int]));
            assert(d as int == digit_val(s@[i as int]));
        }
        let step = match acc.checked_mul(10) {
            Some(m) => m.checked_sub(d),
            None => None,
        };
        match step {
            Some(next) => {
                proof {
                    let ext = s@.subrange(start as int, i + 1);
                    assert(ext.drop_last() =~= prefix);
                    assert(ext.last() == s@[i as int]);
                    assert(digits_val(ext) == digits_val(prefix) * 10 + digit_val(s@[i as int]));
                    assert(all_digits(ext));
                }
                acc = next;
            },
            None => {
                proof {
                    let ext = s@.subrange(start as int, i + 1);
                    assert(ext.drop_last() =~= prefix);
                    assert(ext.last() == s@[i as int]);
                    assert(digits_val(ext) == digits_val(prefix) * 10 + digit_val(s@[i as int]));
                    // the magnitude seen so far already exceeds the signed
                    // 64-bit range, and further digits can only grow it
                    assert(digits_val(ext) > -(i64::MIN as int));
                    if all_digits(body) {
                        assert(ext =~= body.take(i + 1 - start));
                        lemma_digits_prefix_bound(body, i + 1 - start);
                        assert(digits_val(body) > -(i64::MIN as int));
                        assert(!is_int_text(s@));
                    }
                }
                return None;
            },
        }
        i += 1;
    }
    proof {
        assert(s@.subrange(start as int, len as int) =~= body);
        assert(all_digits(body));
        assert(acc as int == -digits_val(body));
        lemma_digits_nonneg(body);
    }
    if neg {
        Some(acc)
    } else {
        if acc == i64::MIN {
            proof {
                assert(int_value(s@) > i64::MAX as int);
            }
            None
        } else {
            Some(-acc)
        }
    }
}

/// The ordered classification policy for one delimited-text field: empty is
/// null, integer syntax is an integer, a boundary-recognized floating-point
/// number keeps its numeric rendering, anything else is text.
pub open spec fn classify_field_spec(s: Seq<char>, numeric_form: Option<Seq<char>>) -> CellVal {
    if s.len() == 0 {
        CellVal::Null
    } else if is_int_text(s) {
        CellVal::Int(int_value(s))
    } else {
        match numeric_form {
            Some(f) => CellVal::Float(f),
            None => CellVal::Text(s),
        }
    }
}

/// Classifies one delimited-text field.  `numeric_form` is the decimal
/// rendering of the field for a field that parses as a floating-point
/// number, supplied by the boundary that owns floating-point work; it is
/// consulted only when the field is non-empty and not integer syntax.
pub fn classify_field(text: &str, numeric_form: Option<String>) -> (c: Cell)
    ensures
        c@ == classify_field_spec(text@, numeric_form.deep_view()),
{
    if text.is_empty() {
        return Cell::Null;
    }
    match parse_int_text(text) {
        Some(v) => Cell::Int(v),
        None => match numeric_form {
            Some(f) => Cell::Float(f),
            None => Cell::Text(text.to_owned()),
        },
    }
}

/// The classification of one spreadsheet cell: no effective value is null,
/// a non-empty string wins, then a set boolean flag, and the numeric value
/// is the fallback.
pub open spec fn sheet_cell_spec(has_value: bool, s: Seq<char>, flag: bool, num: Seq<char>) -> CellVal {
    if !has_value {
        CellVal::Null
    } else if s.len() > 0 {
        CellVal::Text(s)
    } else if flag {
        CellVal::Bool(flag)
    } else {
        CellVal::Float(num)
    }
}

/// Classifies one spreadsheet cell from the plain values the provider's
/// cell object carries: whether an effective value is present, its string
/// content, its boolean flag, and the decimal rendering of its numeric
/// value (produced at the boundary, which owns floating-point work).
pub fn classify_sheet_cell(has_value: bool, string_value: String, bool_value: bool, number_text: String) -> (c: Cell)
    ensures
        c@ == sheet_cell_spec(has_value, string_value@, bool_value, number_text@),
{
    if !has_value {
        Cell::Null
    } else if !string_value.as_str().is_empty() {
        Cell::Text(string_value)
    } else if bool_value {
        Cell::Bool(bool_value)
    } else {
        Cell::Float(number_text)
    }
}

/// The grid of text fields that the delimited-text reader produces for an
/// input, record by record, or nothing when the reader rejects the input.
pub uninterp spec fn csv_cells_of(data: Seq<u8>) -> Option<Seq<Seq<Seq<char>>>>;

/// Relies on `csv::ReaderBuilder` / `csv::Reader`: reads the whole
/// delimited-text input as records of text fields, with no header
/// treatment; `None` when the reader reports an error (an unreadable or
/// ragged record).
#[verifier::external_body]
fn csv_records(data: &[u8]) -> (r: Option<Vec<Vec<String>>>)
    ensures
        r.deep_view() == csv_cells_of(data@),
{
    let mut reader = csv::ReaderBuilder::new().has_headers(false).from_reader(data);
    let mut rows = Vec::new();
    for record in reader.records() {
        match record {
            Ok(fields) => rows.push(fields.iter().map(|f| f.to_string()).collect()),
            Err(_) => return None,
        }
    }
    Some(rows)
}

/// Decodes a delimited-text upload into its raw grid of text fields, row 0
/// being the header record.  Fails with `MalformedInput` exactly when the
/// reader rejects the input.
pub fn delimited_grid(data: &[u8]) -> (r: Result<Vec<Vec<String>>, SyncError>)
    ensures
        match r {
            Ok(g) => csv_cells_of(data@) == Some(g.deep_view()),
            Err(e) => e == SyncError::MalformedInput && csv_cells_of(data@) is None,
        },
{
    match csv_records(data) {
        Some(g) => Ok(g),
        None => Err(SyncError::MalformedInput),
    }
}

/// The numeric form supplied for data row `i`, column `j`; positions the
/// boundary did not cover count as not recognized.
pub open spec fn form_at(forms: Seq<Seq<Option<Seq<char>>>>, i: int, j: int) -> Option<Seq<char>> {
    if 0 <= i < forms.len() && 0 <= j < forms[i].len() {
        forms[i][j]
    } else {
        None
    }
}

/// The data rows a text grid classifies to: grid row `i + 1` becomes data
/// row `i`, each field classified under the supplied numeric forms.
pub open spec fn classified_rows_spec(
    grid: Seq<Seq<Seq<char>>>,
    forms: Seq<Seq<Option<Seq<char>>>>,
) -> Seq<Seq<CellVal>>
    recommends
        grid.len() > 0,
{
    Seq::new(
        (grid.len() - 1) as nat,
        |i: int|
            Seq::new(
                grid[i + 1].len(),
                |j: int| classify_field_spec(grid[i + 1][j], form_at(forms, i, j)),
            ),
    )
}

/// Builds a canonical table from a delimited-text grid: row 0 becomes the
/// header row verbatim, every later row is classified field by field.
/// `numeric_forms[i][j]` is the decimal rendering of data row `i`, column
/// `j`, for fields the boundary recognized as floating-point numbers.
/// Rejects an empty grid (no header record) and any data row whose length
/// differs from the header row's.
pub fn table_from_text_grid(
    grid: &Vec<Vec<String>>,
    numeric_forms: &Vec<Vec<Option<String>>>,
) -> (r: Result<CanonicalTable, SyncError>)
    ensures
        match r {
            Ok(t) => {
                &&& grid.deep_view().len() > 0
                &&& t@.headers == grid.deep_view()[0]
                &&& t@.rows == classified_rows_spec(grid.deep_view(), numeric_forms.deep_view())
                &&& t@.wf()
            },
            Err(e) => e == SyncError::MalformedInput && (grid.deep_view().len() == 0
                || exists|i: int|
                1 <= i < grid.deep_view().len() && (#[trigger] grid.deep_view()[i]).len()
                    != grid.deep_view()[0].len()),
        },
{
    let ghost gv = grid.deep_view();
    let ghost fv = numeric_forms.deep_view();
    if grid.len() == 0 {
        return Err(SyncError::MalformedInput);
    }
    let header_row = &grid[0];
    let mut headers: Vec<String> = Vec::new();
    let mut j: usize = 0;
    while j < header_row.len()
        invariant
            gv == grid.deep_view(),
            gv.len() > 0,
            header_row@ == grid@[0]@,
            j <= header_row@.len(),
            headers@.len() == j,
            forall|k: int| 0 <= k < j ==> (#[trigger] headers@[k])@ == gv[0][k],
        decreases header_row.len() - j,
    {
        proof {
            assert(gv[0][j as int] == grid@[0]@[j as int]@);
        }
        headers.push(header_row[j].clone());
        j += 1;
    }
    proof {
        assert forall|k: int| 0 <= k < gv[0].len() implies #[trigger] headers.deep_view()[k]
            == gv[0][k] by {
            assert(headers.deep_view()[k] == headers@[k]@);
        }
        assert(headers.deep_view() =~= gv[0]);
    }
    let ghost crows = classified_rows_spec(gv, fv);
    let mut rows: Vec<Vec<Cell>> = Vec::new();
    let mut i: usize = 1;
    while i < grid.len()
        invariant
            gv == grid.deep_view(),
            fv == numeric_forms.deep_view(),
            gv.len() > 0,
            crows == classified_rows_spec(gv, fv),
            1 <= i <= gv.len(),
            rows@.len() == i - 1,
            forall|k: int| 0 <= k < i - 1 ==> (#[trigger] rows@[k]).deep_view() == crows[k],
        decreases grid.len() - i,
    {
        let source = &grid[i];
        let mut cells: Vec<Cell> = Vec::new();
        let mut j: usize = 0;
        while j < source.len()
            invariant
                gv == grid.deep_view(),
                fv == numeric_forms.deep_view(),
                1 <= i < gv.len(),
                source@ == grid@[i as int]@,
                j <= source@.len(),
                cells@.len() == j,
                forall|k: int| 0 <= k < j ==> (#[trigger] cells@[k])@ == classify_field_spec(
                    gv[i as int][k],
                    form_at(fv, i - 1, k),
                ),
            decreases source.len() - j,
        {
            let di = i - 1;
            let form: Option<String> = if di < numeric_forms.len() {
                let form_row = &numeric_forms[di];
                if j < form_row.len() {
                    match &form_row[j] {
                        Some(f) => Some(f.clone()),
                        None => None,
                    }
                } else {
                    None
                }
            } else {
                None
            };
            proof {
                assert(form.deep_view() == form_at(fv, i - 1, j as int));
                assert(gv[i as int][j as int] == grid@[i as int]@[j as int]@);
            }
            cells.push(classify_field(source[j].as_str(), form));
            j += 1;
        }
        proof {
            assert forall|k: int| 0 <= k < cells@.len() implies cells.deep_view()[k] == crows[i
                - 1][k] by {
            }
            assert(cells.deep_view() =~= crows[i - 1]);
        }
        rows.push(cells);
        i += 1;
    }
    proof {
        assert forall|k: int| 0 <= k < rows@.len() implies #[trigger] rows.deep_view()[k]
            == crows[k] by {
            assert(rows.deep_view()[k] == rows@[k].deep_view());
        }
        assert(rows.deep_view() =~= crows);
    }
    match CanonicalTable::new(headers, rows) {
        Ok(t) => Ok(t),
        Err(e) => {
            proof {
                let bad = TableView { headers: gv[0], rows: crows };
                assert(!bad.wf());
                let w = choose|i: int|
                    0 <= i < bad.rows.len() && (#[trigger] bad.rows[i]).len()
                        != bad.headers.len();
                assert(gv[w + 1].len() != gv[0].len());
            }
            Err(e)
        },
    }
}

} // verus!
