//! The engine statements that read a CSV file. The file path is written as a
//! quoted string literal and the table name as a quoted identifier, so neither
//! can change the shape of the statement.

use vstd::prelude::*;
use crate::text::{push_quoted, quoted};

verus! {

/// The query that reads every column of the CSV file at `path`, with delimiter
/// and column types detected by the engine.
pub open spec fn csv_source_text(path: Seq<char>) -> Seq<char> {
    "SELECT * FROM read_csv_auto("@ + quoted(path, '\'') + ")"@
}

/// The statement that describes the columns of the CSV file at `path`.
pub open spec fn describe_sql_text(path: Seq<char>) -> Seq<char> {
    "DESCRIBE ("@ + csv_source_text(path) + ");"@
}

/// The statement that binds the CSV file at `path` as the view `table`.
pub open spec fn create_view_sql_text(table: Seq<char>, path: Seq<char>) -> Seq<char> {
    "CREATE VIEW "@ + quoted(table, '"') + " AS "@ + csv_source_text(path) + ";"@
}

fn push_csv_source(out: &mut String, path: &str)
    ensures
        final(out)@ == old(out)@ + csv_source_text(path@),
{
    out.append("SELECT * FROM read_csv_auto(");
    push_quoted(out, path, '\'');
    out.append(")");
    assert(final(out)@ =~= old(out)@ + csv_source_text(path@));
}

/// Builds the statement that asks the engine for the name and declared type of
/// each column of the CSV file at `path`.
pub fn describe_sql(path: &str) -> (r: String)
    ensures
        r@ == describe_sql_text(path@),
{
    let mut r = String::from_str("DESCRIBE (");
    push_csv_source(&mut r, path);
    r.append(");");
    assert(r@ =~= describe_sql_text(path@));
    r
}

/// Builds the statement that makes the CSV file at `path` queryable as the
/// view `table`.
pub fn create_view_sql(table: &str, path: &str) -> (r: String)
    ensures
        r@ == create_view_sql_text(table@, path@),
{
    let mut r = String::from_str("CREATE VIEW ");
    push_quoted(&mut r, table, '"');
    r.append(" AS ");
    push_csv_source(&mut r, path);
    r.append(";");
    assert(r@ =~= create_view_sql_text(table@, path@));
    r
}

/// The schema statement and the view statement both contain, as a contiguous
/// part of their text, the very same source query over the file.
pub proof fn lemma_same_csv_source(table: Seq<char>, path: Seq<char>)
    ensures
        describe_sql_text(path).subrange(10, 10 + csv_source_text(path).len() as int)
            == csv_source_text(path),
        create_view_sql_text(table, path).subrange(
            16 + quoted(table, '"').len() as int,
            16 + quoted(table, '"').len() + csv_source_text(path).len() as int,
        ) == csv_source_text(path),
{
    reveal_strlit("DESCRIBE (");
    reveal_strlit("CREATE VIEW ");
    reveal_strlit(" AS ");
    let src = csv_source_text(path);
    let n = src.len() as int;
    assert(describe_sql_text(path).subrange(10, 10 + n) =~= src);
    let q = quoted(table, '"');
    let m = q.len() as int;
    assert(create_view_sql_text(table, path).subrange(16 + m, 16 + m + n)
        =~= src);
}

} // verus!
