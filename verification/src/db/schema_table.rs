//! Listing the user tables of the database: the catalog is read once at
//! startup, every entry's kind is parsed (an unknown kind is a hard error,
//! so a malformed catalog can never yield a wrong tab list), and only the
//! entries of table kind are kept, in catalog order.

use vstd::prelude::*;

use crate::db::pool::{pool_get, PooledSqliteConnection, SQLiteConnectionPool};
use crate::db::sql_table::DataAccessError;
use crate::text::str_eq;

verus! {

/// The error of parsing a catalog entry's kind string.
#[derive(Debug)]
pub enum SQLiteSchemaError {
    /// The catalog named a kind that is none of the four known ones; the
    /// payload is the unrecognized kind string.
    SchemaTypeError(String),
}

/// The kind of a catalog entry.
#[derive(Debug, PartialEq, Eq, Structural)]
pub enum SchemaType {
    Table,
    Index,
    View,
    Trigger,
}

/// The kind that a catalog kind string denotes, if any.
pub open spec fn kind_of(s: Seq<char>) -> Option<SchemaType> {
    if s == "table"@ {
        Some(SchemaType::Table)
    } else if s == "index"@ {
        Some(SchemaType::Index)
    } else if s == "view"@ {
        Some(SchemaType::View)
    } else if s == "trigger"@ {
        Some(SchemaType::Trigger)
    } else {
        None
    }
}

impl SchemaType {
    /// Parses a catalog kind string; exactly the four known kind strings
    /// are accepted, and anything else is returned inside the error.
    pub fn from_str(s: &str) -> (r: Result<SchemaType, SQLiteSchemaError>)
        ensures
            match kind_of(s@) {
                Some(t) => r == Ok::<SchemaType, SQLiteSchemaError>(t),
                None => r matches Err(SQLiteSchemaError::SchemaTypeError(m)) && m@ == s@,
            },
    {
        if str_eq(s, "table") {
            Ok(SchemaType::Table)
        } else if str_eq(s, "index") {
            Ok(SchemaType::Index)
        } else if str_eq(s, "view") {
            Ok(SchemaType::View)
        } else if str_eq(s, "trigger") {
            Ok(SchemaType::Trigger)
        } else {
            Err(SQLiteSchemaError::SchemaTypeError(s.to_string()))
        }
    }
}

/// One catalog entry: its kind, its own name, and the name of the table
/// it belongs to.
#[derive(Debug)]
pub struct SQLiteSchema {
    pub schema_type: SchemaType,
    pub name: String,
    pub tbl_name: String,
}

/// Whether every entry of a raw catalog has a recognized kind string.
/// The raw entries are (kind, name, owning table name) triples.
pub open spec fn catalog_ok(raw: Seq<(String, String, String)>) -> bool {
    forall|i: int| 0 <= i < raw.len() ==> kind_of(#[trigger] raw[i].0@) is Some
}

/// The table-kind entries of a raw catalog, in catalog order, duplicates
/// preserved.
pub open spec fn spec_tables(raw: Seq<(String, String, String)>) -> Seq<SQLiteSchema>
    decreases raw.len(),
{
    if raw.len() == 0 {
        Seq::empty()
    } else {
        let rest = spec_tables(raw.drop_last());
        let last = raw.last();
        if kind_of(last.0@) == Some(SchemaType::Table) {
            rest.push(
                (SQLiteSchema {
                    schema_type: SchemaType::Table,
                    name: last.1,
                    tbl_name: last.2,
                }),
            )
        } else {
            rest
        }
    }
}

/// Whether a raw catalog entry is of table kind.
pub open spec fn is_table_entry(e: (String, String, String)) -> bool {
    kind_of(e.0@) == Some(SchemaType::Table)
}

/// The schema entry that a table-kind raw catalog entry denotes.
pub open spec fn table_entry_of(e: (String, String, String)) -> SQLiteSchema {
    SQLiteSchema { schema_type: SchemaType::Table, name: e.1, tbl_name: e.2 }
}

/// The parsed table list is exactly the table-kind entries of the raw
/// catalog, in the original order, with duplicates preserved as given:
/// it equals the filter of the raw entries, mapped to schema entries.
pub proof fn lemma_tables_are_exactly_the_table_entries(raw: Seq<(String, String, String)>)
    ensures
        spec_tables(raw) == raw.filter(|e: (String, String, String)| is_table_entry(e)).map_values(
            |e: (String, String, String)| table_entry_of(e),
        ),
    decreases raw.len(),
{
    reveal(Seq::filter);
    let pred = |e: (String, String, String)| is_table_entry(e);
    let f = |e: (String, String, String)| table_entry_of(e);
    if raw.len() == 0 {
        assert(spec_tables(raw) =~= raw.filter(pred).map_values(f));
    } else {
        lemma_tables_are_exactly_the_table_entries(raw.drop_last());
        if pred(raw.last()) {
            assert(raw.filter(pred) == raw.drop_last().filter(pred).push(raw.last()));
            assert(raw.filter(pred).map_values(f) =~= raw.drop_last().filter(pred).map_values(
                f,
            ).push(f(raw.last())));
        } else {
            assert(raw.filter(pred) == raw.drop_last().filter(pred));
        }
        assert(spec_tables(raw) =~= raw.filter(pred).map_values(f));
    }
}

/// Every entry that the catalog filter keeps is of table kind.
pub proof fn lemma_spec_tables_kind(raw: Seq<(String, String, String)>)
    ensures
        forall|i: int|
            0 <= i < spec_tables(raw).len() ==> (#[trigger] spec_tables(raw)[i]).schema_type
                == SchemaType::Table,
    decreases raw.len(),
{
    if raw.len() > 0 {
        lemma_spec_tables_kind(raw.drop_last());
    }
}

/// Parses a raw catalog: every entry's kind string must be recognized,
/// and exactly the table-kind entries are kept, in catalog order, with
/// duplicates preserved as given.
pub fn parse_catalog(raw: &Vec<(String, String, String)>) -> (r: Result<
    Vec<SQLiteSchema>,
    SQLiteSchemaError,
>)
    ensures
        r is Ok <==> catalog_ok(raw@),
        r matches Ok(v) ==> v@ == spec_tables(raw@),
        r matches Err(SQLiteSchemaError::SchemaTypeError(m)) ==> exists|i: int|
            0 <= i < raw@.len() && kind_of(#[trigger] raw@[i].0@) is None && m@ == raw@[i].0@,
{
    let mut out: Vec<SQLiteSchema> = Vec::new();
    let mut i: usize = 0;
    while i < raw.len()
        invariant
            0 <= i <= raw@.len(),
            catalog_ok(raw@.take(i as int)),
            out@ == spec_tables(raw@.take(i as int)),
        decreases raw@.len() - i,
    {
        let entry = &raw[i];
        match SchemaType::from_str(entry.0.as_str()) {
            Err(e) => {
                proof {
                    assert(kind_of(raw@[i as int].0@) is None);
                }
                return Err(e);
            },
            Ok(t) => {
                if t == SchemaType::Table {
                    out.push(
                        SQLiteSchema {
                            schema_type: SchemaType::Table,
                            name: entry.1.clone(),
                            tbl_name: entry.2.clone(),
                        },
                    );
                }
            },
        }
        proof {
            assert(raw@.take(i + 1 as int).drop_last() =~= raw@.take(i as int));
            assert(raw@.take(i + 1 as int).last() == raw@[i as int]);
            assert(out@ =~= spec_tables(raw@.take(i + 1 as int)));
        }
        i = i + 1;
    }
    proof {
        assert(raw@.take(raw@.len() as int) =~= raw@);
    }
    Ok(out)
}

/// The error of listing the user tables: either the catalog query could
/// not be run, or an entry's kind string was unrecognized.
#[derive(Debug)]
pub enum ListTablesError {
    DataAccess(DataAccessError),
    SchemaParse(SQLiteSchemaError),
}

/// Reads the (kind, name, owning table name) triples of the whole catalog
/// through a pooled connection.
///
/// Relies on rusqlite (Connection::prepare_cached, Statement::query,
/// Rows::next, Row::get): the query `SELECT type, name, tbl_name FROM
/// sqlite_schema;` yields every catalog entry in catalog iteration order,
/// each column read as text.
#[verifier::external_body]
fn query_schema_triples(conn: &PooledSqliteConnection) -> (r: Result<
    Vec<(String, String, String)>,
    rusqlite::Error,
>) {
    let mut stmt = conn.inner.prepare_cached("SELECT type, name, tbl_name FROM sqlite_schema;")?;
    let mut rows = stmt.query([])?;
    let mut out = Vec::new();
    while let Some(row) = rows.next()? {
        out.push((row.get(0)?, row.get(1)?, row.get(2)?));
    }
    Ok(out)
}

/// Lists the user tables of the database the pool is connected to.
pub struct SQLiteSchemaTable {
    pool: SQLiteConnectionPool,
}

impl SQLiteSchemaTable {
    pub fn new(pool: SQLiteConnectionPool) -> SQLiteSchemaTable {
        SQLiteSchemaTable { pool }
    }

    /// Reads the catalog and returns its table-kind entries, in catalog
    /// order. Fails if no connection can be had or the catalog query
    /// cannot be run, and fails hard if any entry's kind string is
    /// unrecognized, whatever its kind would have been.
    pub fn get_rows(&self) -> (r: Result<Vec<SQLiteSchema>, ListTablesError>)
        ensures
            r matches Ok(v) ==> {
                &&& forall|i: int|
                    0 <= i < v@.len() ==> (#[trigger] v@[i]).schema_type == SchemaType::Table
                &&& exists|raw: Seq<(String, String, String)>|
                    catalog_ok(raw) && v@ == spec_tables(raw)
            },
    {
        let conn = match pool_get(&self.pool) {
            Ok(c) => c,
            Err(_) => {
                return Err(ListTablesError::DataAccess(DataAccessError::Connection));
            },
        };
        let raw = match query_schema_triples(&conn) {
            Ok(v) => v,
            Err(_) => {
                return Err(ListTablesError::DataAccess(DataAccessError::Query));
            },
        };
        match parse_catalog(&raw) {
            Ok(v) => {
                proof {
                    lemma_spec_tables_kind(raw@);
                }
                Ok(v)
            },
            Err(e) => Err(ListTablesError::SchemaParse(e)),
        }
    }
}

} // verus!
