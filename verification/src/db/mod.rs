pub mod pool;
pub mod schema_table;
pub mod sql_table;

pub use self::pool::SQLiteConnectionPool;
pub use self::schema_table::{SQLiteSchema, SQLiteSchemaTable};
pub use self::sql_table::SQLTable;
