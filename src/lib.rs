//! Query a CSV file with SQL: the text of the engine statements, the mapping of
//! engine values to JSON-safe values with type tags, and the assembly of schemas
//! and query results from what the engine produced.

pub mod text;
pub mod sql;
pub mod value;
pub mod result;
pub mod schema;
