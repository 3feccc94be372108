use sqlite_watcher::db::schema_table::{
    parse_catalog, SQLiteSchemaError, SQLiteSchemaTable, SchemaType,
};
use sqlite_watcher::db::SQLiteConnectionPool;

fn entry(kind: &str, name: &str, tbl: &str) -> (String, String, String) {
    (kind.to_string(), name.to_string(), tbl.to_string())
}

#[test]
fn schema_type_parses_the_four_kinds() {
    assert_eq!(SchemaType::from_str("table").unwrap(), SchemaType::Table);
    assert_eq!(SchemaType::from_str("index").unwrap(), SchemaType::Index);
    assert_eq!(SchemaType::from_str("view").unwrap(), SchemaType::View);
    assert_eq!(SchemaType::from_str("trigger").unwrap(), SchemaType::Trigger);
}

#[test]
fn schema_type_rejects_unknown_kind() {
    let r = SchemaType::from_str("sequence");
    match r {
        Err(SQLiteSchemaError::SchemaTypeError(m)) => assert_eq!(m, "sequence"),
        Ok(_) => panic!("an unknown kind must not parse"),
    }
}

#[test]
fn catalog_keeps_exactly_the_table_entries_in_order() {
    let raw = vec![
        entry("table", "alpha", "alpha"),
        entry("index", "idx_alpha", "alpha"),
        entry("view", "v_alpha", "v_alpha"),
        entry("table", "beta", "beta"),
        entry("trigger", "trg", "beta"),
        entry("table", "alpha", "alpha"),
    ];
    let tables = parse_catalog(&raw).unwrap();
    let names: Vec<&str> = tables.iter().map(|t| t.tbl_name.as_str()).collect();
    assert_eq!(names, vec!["alpha", "beta", "alpha"]);
    for t in &tables {
        assert_eq!(t.schema_type, SchemaType::Table);
    }
}

#[test]
fn catalog_with_unknown_kind_is_a_hard_error() {
    let raw = vec![
        entry("table", "alpha", "alpha"),
        entry("sequence", "seq", "alpha"),
        entry("table", "beta", "beta"),
    ];
    match parse_catalog(&raw) {
        Err(SQLiteSchemaError::SchemaTypeError(m)) => assert_eq!(m, "sequence"),
        Ok(_) => panic!("an unknown kind must fail the whole listing"),
    }
}

#[test]
fn schema_table_lists_only_tables_from_a_live_catalog() {
    let uri = "file:schemadb1?mode=memory&cache=shared";
    let keeper = rusqlite::Connection::open(uri).unwrap();
    keeper
        .execute_batch(
            "CREATE TABLE alpha(a INTEGER);
             CREATE TABLE beta(b TEXT);
             CREATE INDEX idx_alpha ON alpha(a);
             CREATE VIEW v_alpha AS SELECT a FROM alpha;",
        )
        .unwrap();
    let manager = r2d2_sqlite::SqliteConnectionManager::file(uri);
    let pool = SQLiteConnectionPool::new(manager).unwrap();
    let schema_table = SQLiteSchemaTable::new(pool);
    let tables = schema_table.get_rows().unwrap();
    let names: Vec<&str> = tables.iter().map(|t| t.tbl_name.as_str()).collect();
    assert_eq!(names, vec!["alpha", "beta"]);
    drop(keeper);
}

#[test]
fn schema_table_on_an_empty_database_lists_no_tables() {
    let uri = "file:schemadb2?mode=memory&cache=shared";
    let keeper = rusqlite::Connection::open(uri).unwrap();
    let manager = r2d2_sqlite::SqliteConnectionManager::file(uri);
    let pool = SQLiteConnectionPool::new(manager).unwrap();
    let schema_table = SQLiteSchemaTable::new(pool);
    let tables = schema_table.get_rows().unwrap();
    assert!(tables.is_empty());
    drop(keeper);
}
