//! SQL statement generation.  The engine replaces a table's contents with
//! three literal statements, in fixed order: drop (best-effort), create with
//! the inferred schema, and one multi-row insert.  Table identifiers are
//! wrapped in single quotes and text values are single-quoted without any
//! escaping of embedded quotes — a deliberate, documented limitation of this
//! dialect-generic generator, inherited by everything downstream.

use vstd::prelude::*;
use vstd::string::StrSliceExecFns;
use vstd::string::StringExecFns;

use crate::cell::{Cell, CellVal};
use crate::infer::{infer_spec, ColType};
use crate::table::{CanonicalTable, TableView};

verus! {

/// The decimal digit `d` as a one-character text.
pub open spec fn digit_seq(d: int) -> Seq<char> {
    if d == 0 {
        "0"@
    } else if d == 1 {
        "1"@
    } else if d == 2 {
        "2"@
    } else if d == 3 {
        "3"@
    } else if d == 4 {
        "4"@
    } else if d == 5 {
        "5"@
    } else if d == 6 {
        "6"@
    } else if d == 7 {
        "7"@
    } else if d == 8 {
        "8"@
    } else {
        "9"@
    }
}

/// The decimal rendering of a natural number, most significant digit first,
/// without leading zeros.
pub open spec fn dec_nat(n: nat) -> Seq<char>
    decreases n,
{
    if n < 10 {
        digit_seq(n as int)
    } else {
        dec_nat(n / 10) + digit_seq((n % 10) as int)
    }
}

/// The decimal rendering of an integer: a leading minus sign for negative
/// values, the digits otherwise.
pub open spec fn dec_int(i: int) -> Seq<char> {
    if i < 0 {
        "-"@ + dec_nat((-i) as nat)
    } else {
        dec_nat(i as nat)
    }
}

fn digit_str(d: u64) -> (s: &'static str)
    requires
        d < 10,
    ensures
        s@ == digit_seq(d as int),
{
    match d {
        0 => "0",
        1 => "1",
        2 => "2",
        3 => "3",
        4 => "4",
        5 => "5",
        6 => "6",
        7 => "7",
        8 => "8",
        _ => "9",
    }
}

/// Renders an unsigned number in decimal.
pub fn dec_of_u64(n: u64) -> (s: String)
    ensures
        s@ == dec_nat(n as nat),
    decreases n,
{
    if n < 10 {
        digit_str(n).to_owned()
    } else {
        let mut s = dec_of_u64(n / 10);
        s.append(digit_str(n % 10));
        s
    }
}

/// Renders a signed number in decimal.
pub fn dec_of_i64(n: i64) -> (s: String)
    ensures
        s@ == dec_int(n as int),
{
    if n >= 0 {
        dec_of_u64(n as u64)
    } else {
        let m: u64 = ((-(n + 1)) as u64) + 1;
        assert(m as nat == (-(n as int)) as nat);
        let mut s = "-".to_owned();
        let digits = dec_of_u64(m);
        s.append(digits.as_str());
        s
    }
}

/// The SQL value literal of one cell: text single-quoted verbatim (embedded
/// quotes are not escaped), numbers bare, booleans as their keyword, null as
/// the `NULL` keyword.
pub open spec fn lit_of(c: CellVal) -> Seq<char> {
    match c {
        CellVal::Text(s) => "'"@ + s + "'"@,
        CellVal::Int(i) => dec_int(i),
        CellVal::Float(t) => t,
        CellVal::Bool(b) => if b {
            "true"@
        } else {
            "false"@
        },
        CellVal::Null => "NULL"@,
    }
}

/// Renders one cell as a SQL value literal.
pub fn cell_literal(c: &Cell) -> (s: String)
    ensures
        s@ == lit_of(c@),
{
    match c {
        Cell::Text(t) => {
            let mut s = "'".to_owned();
            s.append(t.as_str());
            s.append("'");
            s
        },
        Cell::Int(i) => dec_of_i64(*i),
        Cell::Float(t) => {
            let mut s = String::new();
            s.append(t.as_str());
            s
        },
        Cell::Bool(b) => if *b {
            "true".to_owned()
        } else {
            "false".to_owned()
        },
        Cell::Null => "NULL".to_owned(),
    }
}

/// The parts joined by the separator, in order.
pub open spec fn joined(parts: Seq<Seq<char>>, sep: Seq<char>) -> Seq<char>
    decreases parts.len(),
{
    if parts.len() == 0 {
        Seq::empty()
    } else if parts.len() == 1 {
        parts[0]
    } else {
        joined(parts.drop_last(), sep) + sep + parts.last()
    }
}

fn join_with(parts: &Vec<String>, sep: &str) -> (s: String)
    ensures
        s@ == joined(parts.deep_view(), sep@),
{
    let mut s = String::new();
    let mut k: usize = 0;
    while k < parts.len()
        invariant
            k <= parts@.len(),
            s@ == joined(parts.deep_view().take(k as int), sep@),
        decreases parts.len() - k,
    {
        if k > 0 {
            s.append(sep);
        }
        s.append(parts[k].as_str());
        proof {
            let pv = parts.deep_view();
            assert(pv[k as int] == parts@[k as int]@);
            assert(pv.take(k + 1).drop_last() =~= pv.take(k as int));
            assert(pv.take(k + 1).last() == pv[k as int]);
            if k == 0 {
                assert(s@ =~= joined(pv.take(1), sep@));
            }
        }
        k += 1;
    }
    proof {
        assert(parts.deep_view().take(parts@.len() as int) =~= parts.deep_view());
    }
    s
}

/// The synthesized column name for position `j`: the letter sequence
/// `a`–`z`, then `aa`, `ab`, and so on, used when a header contributes no
/// name of its own.
pub open spec fn fallback_name_spec(j: nat) -> Seq<char>
    decreases j,
{
    let alphabet = "abcdefghijklmnopqrstuvwxyz"@;
    if j < 26 {
        seq![alphabet[j as int]]
    } else {
        fallback_name_spec((j / 26 - 1) as nat).push(alphabet[(j % 26) as int])
    }
}

/// Synthesizes the positional column name for position `j`.
pub fn fallback_name(j: usize) -> (s: String)
    ensures
        s@ == fallback_name_spec(j as nat),
    decreases j,
{
    let alphabet = "abcdefghijklmnopqrstuvwxyz";
    proof {
        reveal_strlit("abcdefghijklmnopqrstuvwxyz");
    }
    if j < 26 {
        let s = alphabet.substring_char(j, j + 1).to_owned();
        assert(s@ =~= fallback_name_spec(j as nat));
        s
    } else {
        let mut s = fallback_name(j / 26 - 1);
        let tail = alphabet.substring_char(j % 26, j % 26 + 1);
        s.append(tail);
        assert(s@ =~= fallback_name_spec(j as nat));
        s
    }
}

/// The SQL type token emitted for a column class.  Both tokens are
/// deliberately dialect-generic placeholders, not engine-specific types.
pub open spec fn type_token(t: ColType) -> Seq<char> {
    match t {
        ColType::Textual => "varchar(1000)"@,
        ColType::Numeric => "number"@,
    }
}

/// The name generated for column `j`: the header itself when it is
/// non-empty, the synthesized positional name otherwise.  A header is empty
/// either because the source header cell was an empty text or because it was
/// not text at all (spreadsheet headers that decode as numbers, booleans or
/// null); both fall back uniformly.
pub open spec fn column_name_spec(h: Seq<char>, j: nat) -> Seq<char> {
    if h.len() > 0 {
        h
    } else {
        fallback_name_spec(j)
    }
}

/// The column definitions of the create statement, in header order.
pub open spec fn column_defs_spec(t: TableView) -> Seq<Seq<char>> {
    Seq::new(
        t.headers.len(),
        |j: int| column_name_spec(t.headers[j], j as nat) + " "@ + type_token(infer_spec(t)[j]),
    )
}

/// The drop statement for a target table.
pub open spec fn drop_stmt_spec(name: Seq<char>) -> Seq<char> {
    "DROP TABLE '"@ + name + "';"@
}

/// The create statement for a target table and an inferred schema.
pub open spec fn create_stmt_spec(t: TableView, name: Seq<char>) -> Seq<char> {
    "CREATE TABLE '"@ + name + "' ("@ + joined(column_defs_spec(t), ","@) + ");"@
}

/// One parenthesized value tuple of the insert statement.
pub open spec fn row_values_spec(row: Seq<CellVal>) -> Seq<char> {
    "("@ + joined(row.map_values(|c: CellVal| lit_of(c)), ","@) + ")"@
}

/// The multi-row insert statement: one tuple per data row, in original row
/// order.  Defined for tables with at least one data row.
pub open spec fn insert_stmt_spec(t: TableView, name: Seq<char>) -> Seq<char> {
    "INSERT INTO '"@ + name + "' VALUES "@ + joined(
        t.rows.map_values(|r: Seq<CellVal>| row_values_spec(r)),
        ","@,
    ) + ";"@
}

/// Generates the best-effort drop statement.
pub fn drop_statement(name: &str) -> (s: String)
    ensures
        s@ == drop_stmt_spec(name@),
{
    let mut s = "DROP TABLE '".to_owned();
    s.append(name);
    s.append("';");
    s
}

fn type_token_str(t: ColType) -> (s: &'static str)
    ensures
        s@ == type_token(t),
{
    match t {
        ColType::Textual => "varchar(1000)",
        ColType::Numeric => "number",
    }
}

/// Generates the create statement: the quoted target name, then one
/// `name type` definition per column, comma-separated, in header order.
pub fn create_statement(t: &CanonicalTable, name: &str) -> (s: String)
    ensures
        s@ == create_stmt_spec(t@, name@),
{
    let headers = t.headers();
    let types = t.infer_schema();
    let mut defs: Vec<String> = Vec::new();
    let mut j: usize = 0;
    while j < headers.len()
        invariant
            headers.deep_view() == t@.headers,
            types@ == infer_spec(t@),
            j <= t@.headers.len(),
            defs@.len() == j,
            forall|k: int| 0 <= k < j ==> (#[trigger] defs@[k])@ == column_defs_spec(t@)[k],
        decreases headers.len() - j,
    {
        let mut d = if headers[j].as_str().is_empty() {
            fallback_name(j)
        } else {
            headers[j].clone()
        };
        d.append(" ");
        d.append(type_token_str(types[j]));
        proof {
            assert(headers.deep_view()[j as int] == headers@[j as int]@);
            assert(d@ == column_defs_spec(t@)[j as int]);
        }
        defs.push(d);
        j += 1;
    }
    proof {
        assert forall|k: int| 0 <= k < defs@.len() implies #[trigger] defs.deep_view()[k]
            == column_defs_spec(t@)[k] by {
            assert(defs.deep_view()[k] == defs@[k]@);
        }
        assert(defs.deep_view() =~= column_defs_spec(t@));
    }
    let mut s = "CREATE TABLE '".to_owned();
    s.append(name);
    s.append("' (");
    let body = join_with(&defs, ",");
    s.append(body.as_str());
    s.append(");");
    s
}

/// Generates the multi-row insert statement, or nothing for a table with
/// zero data rows: an empty table is synchronized by drop and create alone.
pub fn insert_statement(t: &CanonicalTable, name: &str) -> (s: Option<String>)
    ensures
        t@.rows.len() == 0 ==> s is None,
        t@.rows.len() > 0 ==> (s matches Some(stmt) && stmt@ == insert_stmt_spec(t@, name@)),
{
    let rows = t.rows();
    if rows.len() == 0 {
        return None;
    }
    let ghost tuple_specs = t@.rows.map_values(|r: Seq<CellVal>| row_values_spec(r));
    let mut tuples: Vec<String> = Vec::new();
    let mut i: usize = 0;
    while i < rows.len()
        invariant
            rows.deep_view() == t@.rows,
            tuple_specs == t@.rows.map_values(|r: Seq<CellVal>| row_values_spec(r)),
            i <= rows@.len(),
            tuples@.len() == i,
            forall|k: int| 0 <= k < i ==> (#[trigger] tuples@[k])@ == tuple_specs[k],
        decreases rows.len() - i,
    {
        let row = &rows[i];
        let mut lits: Vec<String> = Vec::new();
        let mut j: usize = 0;
        while j < row.len()
            invariant
                row@ == rows@[i as int]@,
                j <= row@.len(),
                lits@.len() == j,
                forall|k: int| 0 <= k < j ==> (#[trigger] lits@[k])@ == lit_of(row@[k]@),
            decreases row.len() - j,
        {
            lits.push(cell_literal(&row[j]));
            j += 1;
        }
        let mut tup = "(".to_owned();
        let body = join_with(&lits, ",");
        tup.append(body.as_str());
        tup.append(")");
        proof {
            let rv = rows.deep_view()[i as int];
            assert forall|k: int| 0 <= k < lits@.len() implies #[trigger] lits.deep_view()[k]
                == rv.map_values(|c: CellVal| lit_of(c))[k] by {
                assert(lits.deep_view()[k] == lits@[k]@);
                assert(rv[k] == row@[k]@);
            }
            assert(lits.deep_view() =~= rv.map_values(|c: CellVal| lit_of(c)));
            assert(tup@ == row_values_spec(rv));
            assert(tuple_specs[i as int] == row_values_spec(rv));
        }
        tuples.push(tup);
        i += 1;
    }
    proof {
        assert forall|k: int| 0 <= k < tuples@.len() implies #[trigger] tuples.deep_view()[k]
            == tuple_specs[k] by {
            assert(tuples.deep_view()[k] == tuples@[k]@);
        }
        assert(tuples.deep_view() =~= tuple_specs);
    }
    let mut s = "INSERT INTO '".to_owned();
    s.append(name);
    s.append("' VALUES ");
    let body = join_with(&tuples, ",");
    s.append(body.as_str());
    s.append(";");
    Some(s)
}

} // verus!
