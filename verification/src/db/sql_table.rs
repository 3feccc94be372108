//! Fetching and rendering the rows of one table. Every row comes back as a
//! single display string: each column's text followed by the delimiter
//! `'|'` (so the string ends in a trailing delimiter), with NULL rendered
//! as the literal token `NULL`.

use vstd::prelude::*;

use crate::db::pool::{pool_get, PooledSqliteConnection, SQLiteConnectionPool};
use crate::text::{dec_str, i64_to_string};

verus! {

/// The recoverable error of one fetch: the connection could not be had,
/// the query could not be run, or a cell's bytes were not valid UTF-8.
#[derive(Debug, PartialEq, Eq, Structural)]
pub enum DataAccessError {
    Connection,
    Query,
    Encoding,
}

/// One column value of a fetched row, as the plain data the rendering
/// reads: NULL, a signed integer, the decimal text of a real number, or
/// decoded text.
#[derive(Debug)]
pub enum CellValue {
    Null,
    Integer(i64),
    Real(String),
    Text(String),
}

/// The display text of one cell.
pub open spec fn cell_str_spec(c: CellValue) -> Seq<char> {
    match c {
        CellValue::Null => "NULL"@,
        CellValue::Integer(i) => dec_str(i as int),
        CellValue::Real(s) => s@,
        CellValue::Text(s) => s@,
    }
}

/// The display string of one row: each cell's text followed by the
/// delimiter, in column order.
pub open spec fn row_str_spec(cells: Seq<CellValue>) -> Seq<char>
    decreases cells.len(),
{
    if cells.len() == 0 {
        Seq::empty()
    } else {
        row_str_spec(cells.drop_last()) + cell_str_spec(cells.last()) + "|"@
    }
}

/// Renders one row of cells into its display string.
pub fn row_to_string(cells: &Vec<CellValue>) -> (r: String)
    ensures
        r@ == row_str_spec(cells@),
{
    let mut r = String::new();
    let mut i: usize = 0;
    while i < cells.len()
        invariant
            0 <= i <= cells@.len(),
            r@ == row_str_spec(cells@.take(i as int)),
        decreases cells@.len() - i,
    {
        match &cells[i] {
            CellValue::Null => {
                r.append("NULL");
            },
            CellValue::Integer(v) => {
                let t = i64_to_string(*v);
                r.append(t.as_str());
            },
            CellValue::Real(s) => {
                r.append(s.as_str());
            },
            CellValue::Text(s) => {
                r.append(s.as_str());
            },
        }
        r.append("|");
        proof {
            assert(cells@.take(i + 1 as int).drop_last() =~= cells@.take(i as int));
            assert(cells@.take(i + 1 as int).last() == cells@[i as int]);
            assert(r@ =~= row_str_spec(cells@.take(i + 1 as int)));
        }
        i = i + 1;
    }
    proof {
        assert(cells@.take(cells@.len() as int) =~= cells@);
    }
    r
}

/// Renders every fetched row; the result has one display string per row,
/// in row order.
pub fn render_rows(rows: &Vec<Vec<CellValue>>) -> (r: Vec<String>)
    ensures
        r@.len() == rows@.len(),
        forall|i: int| 0 <= i < rows@.len() ==> (#[trigger] r@[i])@ == row_str_spec(rows@[i]@),
{
    let mut r: Vec<String> = Vec::new();
    let mut i: usize = 0;
    while i < rows.len()
        invariant
            0 <= i <= rows@.len(),
            r@.len() == i,
            forall|j: int| 0 <= j < i ==> (#[trigger] r@[j])@ == row_str_spec(rows@[j]@),
        decreases rows@.len() - i,
    {
        r.push(row_to_string(&rows[i]));
        i = i + 1;
    }
    r
}

/// Declares rusqlite's owned dynamic cell value, as a table query hands
/// it back; it stays opaque to the verifier.
#[verifier::external_type_specification]
#[verifier::external_body]
pub struct ExValue(rusqlite::types::Value);

/// Reads every row of `SELECT * FROM <table>` through a pooled
/// connection, each cell as an owned dynamic value.
///
/// Relies on rusqlite (Connection::prepare_cached, Statement::column_count,
/// Statement::query, Rows::next, Row::get): the rows come in the order the
/// query yields them, each with one value per column in column order.
#[verifier::external_body]
fn query_table_values(conn: &PooledSqliteConnection, table: &str) -> (r: Result<
    Vec<Vec<rusqlite::types::Value>>,
    rusqlite::Error,
>) {
    let mut stmt = conn.inner.prepare_cached(&format!("SELECT * FROM {}", table))?;
    let n = stmt.column_count();
    let mut rows = stmt.query([])?;
    let mut out = Vec::new();
    while let Some(row) = rows.next()? {
        let mut vals = Vec::with_capacity(n);
        for i in 0..n {
            vals.push(row.get(i)?);
        }
        out.push(vals);
    }
    Ok(out)
}

/// Turns one dynamic cell value into the library's cell model.
///
/// Relies on rusqlite's Value variants, std's decimal formatting of f64
/// (the shortest round-trippable decimal text) and std's UTF-8 decoding:
/// NULL, integer and text cells carry over as they are, a real cell
/// becomes its decimal text, and a blob cell becomes text if its bytes
/// are valid UTF-8 and an encoding error otherwise.
#[verifier::external_body]
fn cell_of_value(v: rusqlite::types::Value) -> (r: Result<CellValue, DataAccessError>) {
    match v {
        rusqlite::types::Value::Null => Ok(CellValue::Null),
        rusqlite::types::Value::Integer(i) => Ok(CellValue::Integer(i)),
        rusqlite::types::Value::Real(x) => Ok(CellValue::Real(x.to_string())),
        rusqlite::types::Value::Text(t) => Ok(CellValue::Text(t)),
        rusqlite::types::Value::Blob(b) => match String::from_utf8(b) {
            Ok(t) => Ok(CellValue::Text(t)),
            Err(_) => Err(DataAccessError::Encoding),
        },
    }
}

/// Turns one fetched row of dynamic values into cells, failing on the
/// first cell whose bytes cannot be decoded.
fn cells_of_values(vals: Vec<rusqlite::types::Value>) -> (r: Result<Vec<CellValue>, DataAccessError>) {
    let mut vals = vals;
    let mut out: Vec<CellValue> = Vec::new();
    while vals.len() > 0
        decreases vals@.len(),
    {
        let v = vals.remove(0);
        match cell_of_value(v) {
            Ok(c) => {
                out.push(c);
            },
            Err(e) => {
                return Err(e);
            },
        }
    }
    Ok(out)
}

/// Whether a sequence of display strings is the rendering of some matrix
/// of cells, row by row.
pub open spec fn rendered_from(rows: Seq<String>, cells: Seq<Vec<CellValue>>) -> bool {
    &&& rows.len() == cells.len()
    &&& forall|i: int| 0 <= i < rows.len() ==> (#[trigger] rows[i])@ == row_str_spec(cells[i]@)
}

/// Whether a sequence of display strings is the row-by-row rendering of
/// some matrix of cells.
pub open spec fn renders_some_cells(rows: Seq<String>) -> bool {
    exists|cells: Seq<Vec<CellValue>>| rendered_from(rows, cells)
}

/// Fetches and renders the rows of one table of the database the pool is
/// connected to.
pub struct SQLTable {
    pool: SQLiteConnectionPool,
}

impl SQLTable {
    pub fn new(pool: SQLiteConnectionPool) -> SQLTable {
        SQLTable { pool }
    }

    /// Fetches all rows of the named table and renders each into its
    /// display string. Whatever the database holds, a successful result
    /// is the row-by-row rendering of some matrix of cells.
    pub fn get_rows(&self, table: &String) -> (r: Result<Vec<String>, DataAccessError>)
        ensures
            r matches Ok(rows) ==> renders_some_cells(rows@),
    {
        let conn = match pool_get(&self.pool) {
            Ok(c) => c,
            Err(_) => {
                return Err(DataAccessError::Connection);
            },
        };
        let mut raw = match query_table_values(&conn, table.as_str()) {
            Ok(v) => v,
            Err(_) => {
                return Err(DataAccessError::Query);
            },
        };
        let mut cellrows: Vec<Vec<CellValue>> = Vec::new();
        while raw.len() > 0
            decreases raw@.len(),
        {
            let rowvals = raw.remove(0);
            match cells_of_values(rowvals) {
                Ok(cells) => {
                    cellrows.push(cells);
                },
                Err(e) => {
                    return Err(e);
                },
            }
        }
        let rendered = render_rows(&cellrows);
        proof {
            assert(rendered_from(rendered@, cellrows@));
            assert(renders_some_cells(rendered@));
        }
        Ok(rendered)
    }
}

} // verus!
