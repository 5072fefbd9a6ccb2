//! Assembly of a CSV file's column schema from the engine's description of it.

use vstd::prelude::*;
use crate::result::{collect_outcome, fetched_row, lemma_no_problem_rows, strings_view};
use crate::value::{declared_tag, engine_type_name, lemma_declared_tag_agrees, tag_for_declared, ScalarValue};

verus! {

/// The columns of a CSV file: names, and the type tag of each column's declared
/// type, in order.
#[derive(Clone, Debug, PartialEq)]
pub struct TableSchema {
    pub columns: Vec<String>,
    pub column_types: Vec<String>,
    /// An estimate of the number of rows; 0 when no count was made, so it
    /// carries no information.
    pub row_count_estimate: usize,
}

/// The mathematical form of a `TableSchema`.
pub struct TableSchemaView {
    pub columns: Seq<Seq<char>>,
    pub column_types: Seq<Seq<char>>,
    pub row_count_estimate: nat,
}

impl TableSchemaView {
    /// One declared type per column name.
    pub open spec fn wf(&self) -> bool {
        self.column_types.len() == self.columns.len()
    }
}

impl View for TableSchema {
    type V = TableSchemaView;

    open spec fn view(&self) -> TableSchemaView {
        TableSchemaView {
            columns: strings_view(self.columns@),
            column_types: strings_view(self.column_types@),
            row_count_estimate: self.row_count_estimate as nat,
        }
    }
}

/// The message of the first failed fetch, if any fetch failed.
pub open spec fn first_failure<T>(fetched: Seq<Result<T, String>>) -> Option<Seq<char>>
    decreases fetched.len(),
{
    if fetched.len() == 0 {
        None
    } else {
        match fetched[0] {
            Err(e) => Some(e@),
            Ok(_) => first_failure(fetched.drop_first()),
        }
    }
}

/// The name in a fetched (name, declared type) pair; nothing for a failure.
pub open spec fn described_name(f: Result<(String, String), String>) -> Seq<char> {
    match f {
        Ok(p) => p.0@,
        Err(_) => Seq::empty(),
    }
}

/// The declared type in a fetched (name, declared type) pair; nothing for a
/// failure.
pub open spec fn described_type(f: Result<(String, String), String>) -> Seq<char> {
    match f {
        Ok(p) => p.1@,
        Err(_) => Seq::empty(),
    }
}

/// What building a schema from these fetches gives: the first failure as an
/// error, or else the names in order, the type tag of each declared type, and a
/// row estimate of 0.
pub open spec fn schema_outcome(described: Seq<Result<(String, String), String>>) -> Result<
    TableSchemaView,
    Seq<char>,
> {
    match first_failure(described) {
        Some(e) => Err(e),
        None => Ok(
            TableSchemaView {
                columns: described.map_values(
                    |f: Result<(String, String), String>| described_name(f),
                ),
                column_types: described.map_values(
                    |f: Result<(String, String), String>| declared_tag(described_type(f)),
                ),
                row_count_estimate: 0,
            },
        ),
    }
}

pub open spec fn schema_outcome_view(r: Result<TableSchema, String>) -> Result<
    TableSchemaView,
    Seq<char>,
> {
    match r {
        Ok(s) => Ok(s@),
        Err(e) => Err(e@),
    }
}

/// Builds the schema of a CSV file from the rows of the engine's description of
/// it, fetched in order as (column name, declared type) pairs. A failed fetch
/// ends the work with its error. Names are kept as they come, duplicates
/// included; each declared type becomes the type tag that the values of that
/// type are given in a query result.
pub fn schema_from_description(described: Vec<Result<(String, String), String>>) -> (r: Result<
    TableSchema,
    String,
>)
    ensures
        schema_outcome_view(r) == schema_outcome(described@),
        r is Ok ==> r->Ok_0@.wf(),
{
    let mut columns: Vec<String> = Vec::new();
    let mut column_types: Vec<String> = Vec::new();
    let mut i: usize = 0;
    assert(described@.subrange(0, described@.len() as int) =~= described@);
    while i < described.len()
        invariant
            i <= described@.len(),
            first_failure(described@) == first_failure(
                described@.subrange(i as int, described@.len() as int),
            ),
            columns@.len() == i,
            column_types@.len() == i,
            forall|j: int| 0 <= j < i ==> #[trigger] described@[j] is Ok,
            forall|j: int|
                0 <= j < i ==> #[trigger] columns@[j]@ == described_name(described@[j]),
            forall|j: int|
                0 <= j < i ==> #[trigger] column_types@[j]@ == declared_tag(
                    described_type(described@[j]),
                ),
        decreases described@.len() - i,
    {
        let ghost rest = described@.subrange(i as int, described@.len() as int);
        assert(rest[0] == described@[i as int]);
        match &described[i] {
            Err(e) => {
                return Err(e.clone());
            },
            Ok(pair) => {
                columns.push(pair.0.clone());
                column_types.push(tag_for_declared(&pair.1));
            },
        }
        assert(rest.drop_first() =~= described@.subrange(i + 1, described@.len() as int));
        i += 1;
    }
    assert(described@.subrange(i as int, described@.len() as int) =~= Seq::<
        Result<(String, String), String>,
    >::empty());
    let schema = TableSchema { columns, column_types, row_count_estimate: 0 };
    assert(schema@.columns =~= described@.map_values(
        |f: Result<(String, String), String>| described_name(f),
    ));
    assert(schema@.column_types =~= described@.map_values(
        |f: Result<(String, String), String>| declared_tag(described_type(f)),
    ));
    Ok(schema)
}

/// With no failure among the fetches, every fetch succeeded.
proof fn lemma_no_failure_all_ok(described: Seq<Result<(String, String), String>>)
    requires
        first_failure(described) is None,
    ensures
        forall|j: int| 0 <= j < described.len() ==> #[trigger] described[j] is Ok,
    decreases described.len(),
{
    if described.len() > 0 {
        let rest = described.drop_first();
        lemma_no_failure_all_ok(rest);
        assert forall|j: int| 0 <= j < described.len() implies #[trigger] described[j] is Ok by {
            if j > 0 {
                assert(described[j] == rest[j - 1]);
            }
        }
    }
}

/// Schema and query agree on types: when the engine declares column `k` of a
/// file with the type name of the value that the same column holds in the
/// first row of a query over that file (column `c` of the result), and that
/// value is not null, the schema's type for the column is the result's type
/// tag for it.
pub proof fn lemma_schema_agrees_with_result(
    described: Seq<Result<(String, String), String>>,
    k: int,
    columns: Seq<Seq<char>>,
    fetched: Seq<Result<Vec<ScalarValue>, String>>,
    c: int,
)
    requires
        schema_outcome(described) is Ok,
        0 <= k < described.len(),
        collect_outcome(columns, fetched) is Ok,
        fetched.len() > 0,
        0 <= c < columns.len(),
        described_name(described[k]) == columns[c],
        !(fetched_row(fetched[0])[c] is Null),
        !(fetched_row(fetched[0])[c] is Other),
        described_type(described[k]) == engine_type_name(fetched_row(fetched[0])[c]),
    ensures
        schema_outcome(described)->Ok_0.columns[k] == collect_outcome(columns, fetched)->Ok_0.columns[c],
        schema_outcome(described)->Ok_0.column_types[k] == collect_outcome(
            columns,
            fetched,
        )->Ok_0.column_types[c],
{
    lemma_no_failure_all_ok(described);
    lemma_no_problem_rows(columns.len(), fetched);
    lemma_declared_tag_agrees(fetched_row(fetched[0])[c]);
}

} // verus!
