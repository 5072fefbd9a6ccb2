//! Assembly of a query result from the rows that the engine produced.

use vstd::prelude::*;
use crate::value::{json_of, map_value, tag_of, JsonValue, JsonView, ScalarValue};

verus! {

/// The type tag of a column whose type no row has shown.
pub const UNKNOWN_TYPE: &'static str = "unknown";

/// The error for a row whose number of values is not the number of columns.
pub const ROW_WIDTH_MISMATCH: &'static str = "row width does not match the column count";

/// The rows of a query, each value in JSON-safe form, with the column names
/// and one type tag per column.
#[derive(Clone, Debug, PartialEq)]
pub struct QueryResult {
    pub columns: Vec<String>,
    pub column_types: Vec<String>,
    pub rows: Vec<Vec<JsonValue>>,
    pub row_count: usize,
}

/// The mathematical form of a `QueryResult`.
pub struct QueryResultView {
    pub columns: Seq<Seq<char>>,
    pub column_types: Seq<Seq<char>>,
    pub rows: Seq<Seq<JsonView>>,
    pub row_count: nat,
}

impl QueryResultView {
    /// One type tag per column, every row as wide as the column list, and the
    /// row count equal to the number of rows.
    pub open spec fn wf(&self) -> bool {
        &&& self.column_types.len() == self.columns.len()
        &&& self.row_count == self.rows.len()
        &&& forall|i: int| 0 <= i < self.rows.len() ==> #[trigger] self.rows[i].len()
            == self.columns.len()
    }
}

pub open spec fn strings_view(v: Seq<String>) -> Seq<Seq<char>> {
    v.map_values(|s: String| s@)
}

pub open spec fn json_row_view(r: Seq<JsonValue>) -> Seq<JsonView> {
    r.map_values(|j: JsonValue| j@)
}

pub open spec fn json_rows_view(rows: Seq<Vec<JsonValue>>) -> Seq<Seq<JsonView>> {
    rows.map_values(|r: Vec<JsonValue>| json_row_view(r@))
}

/// Each value of each row in JSON-safe form.
pub open spec fn json_rows(rows: Seq<Seq<ScalarValue>>) -> Seq<Seq<JsonView>> {
    rows.map_values(|r: Seq<ScalarValue>| r.map_values(|v: ScalarValue| json_of(v)))
}

impl View for QueryResult {
    type V = QueryResultView;

    open spec fn view(&self) -> QueryResultView {
        QueryResultView {
            columns: strings_view(self.columns@),
            column_types: strings_view(self.column_types@),
            rows: json_rows_view(self.rows@),
            row_count: self.row_count as nat,
        }
    }
}

/// The values of a fetched row; nothing for a failed fetch.
pub open spec fn fetched_row(f: Result<Vec<ScalarValue>, String>) -> Seq<ScalarValue> {
    match f {
        Ok(r) => r@,
        Err(_) => Seq::empty(),
    }
}

/// The values of each fetched row.
pub open spec fn fetched_rows(fetched: Seq<Result<Vec<ScalarValue>, String>>) -> Seq<
    Seq<ScalarValue>,
> {
    fetched.map_values(|f: Result<Vec<ScalarValue>, String>| fetched_row(f))
}

/// The first thing, in fetch order, that stops a result from being built: a
/// failed fetch gives the engine's message, a row of the wrong width gives
/// `ROW_WIDTH_MISMATCH`.
pub open spec fn first_problem(width: nat, fetched: Seq<Result<Vec<ScalarValue>, String>>) -> Option<
    Seq<char>,
>
    decreases fetched.len(),
{
    if fetched.len() == 0 {
        None
    } else {
        match fetched[0] {
            Err(e) => Some(e@),
            Ok(r) => if r@.len() != width {
                Some(ROW_WIDTH_MISMATCH@)
            } else {
                first_problem(width, fetched.drop_first())
            },
        }
    }
}

/// The type tag of column `i`: taken from the value in the first row, or the
/// unknown placeholder when there is no row.
pub open spec fn column_tag(rows: Seq<Seq<ScalarValue>>, i: int) -> Seq<char> {
    if rows.len() == 0 {
        UNKNOWN_TYPE@
    } else {
        tag_of(rows[0][i])
    }
}

/// The result of a query with the given columns that produced `rows`.
pub open spec fn result_of(columns: Seq<Seq<char>>, rows: Seq<Seq<ScalarValue>>) -> QueryResultView {
    QueryResultView {
        columns,
        column_types: Seq::new(columns.len(), |i: int| column_tag(rows, i)),
        rows: json_rows(rows),
        row_count: rows.len(),
    }
}

/// What building a result from these fetches gives: the first problem as an
/// error, with nothing of the rows before it, or else the whole result.
pub open spec fn collect_outcome(
    columns: Seq<Seq<char>>,
    fetched: Seq<Result<Vec<ScalarValue>, String>>,
) -> Result<QueryResultView, Seq<char>> {
    match first_problem(columns.len(), fetched) {
        Some(e) => Err(e),
        None => Ok(result_of(columns, fetched_rows(fetched))),
    }
}

pub open spec fn outcome_view(r: Result<QueryResult, String>) -> Result<QueryResultView, Seq<char>> {
    match r {
        Ok(q) => Ok(q@),
        Err(e) => Err(e@),
    }
}

/// Maps each value of a row to its JSON-safe form and its type tag.
pub fn map_row(row: &Vec<ScalarValue>) -> (r: (Vec<JsonValue>, Vec<String>))
    ensures
        json_row_view(r.0@) == row@.map_values(|v: ScalarValue| json_of(v)),
        strings_view(r.1@) == row@.map_values(|v: ScalarValue| tag_of(v)),
{
    let mut values: Vec<JsonValue> = Vec::new();
    let mut tags: Vec<String> = Vec::new();
    let mut i: usize = 0;
    while i < row.len()
        invariant
            i <= row@.len(),
            values@.len() == i,
            tags@.len() == i,
            json_row_view(values@) == row@.subrange(0, i as int).map_values(
                |v: ScalarValue| json_of(v),
            ),
            strings_view(tags@) == row@.subrange(0, i as int).map_values(
                |v: ScalarValue| tag_of(v),
            ),
        decreases row@.len() - i,
    {
        let ghost prev_values = values@;
        let ghost prev_tags = tags@;
        let (j, t) = map_value(&row[i]);
        values.push(j);
        tags.push(t);
        proof {
            assert forall|k: int| 0 <= k < i implies #[trigger] json_row_view(values@)[k]
                == json_row_view(prev_values)[k] by {
                assert(values@[k] == prev_values[k]);
            }
            assert forall|k: int| 0 <= k < i implies #[trigger] strings_view(tags@)[k]
                == strings_view(prev_tags)[k] by {
                assert(tags@[k] == prev_tags[k]);
            }
        }
        i += 1;
        assert(json_row_view(values@) =~= row@.subrange(0, i as int).map_values(
            |v: ScalarValue| json_of(v),
        ));
        assert(strings_view(tags@) =~= row@.subrange(0, i as int).map_values(
            |v: ScalarValue| tag_of(v),
        ));
    }
    assert(row@.subrange(0, i as int) =~= row@);
    (values, tags)
}

/// Builds the result of a query whose columns are `columns` from the fetches
/// that the engine made, in order. The first failed fetch, or the first row
/// whose width is not the number of columns, ends the work with an error and
/// nothing of the rows before it. Otherwise every row is kept, each value in
/// JSON-safe form, and each column's type tag is that of its value in the first
/// row, or `UNKNOWN_TYPE` when there is no row.
pub fn collect_rows(columns: Vec<String>, fetched: Vec<Result<Vec<ScalarValue>, String>>) -> (r:
    Result<QueryResult, String>)
    ensures
        outcome_view(r) == collect_outcome(strings_view(columns@), fetched@),
        r is Ok ==> r->Ok_0@.wf(),
{
    let width: usize = columns.len();
    let mut column_types: Vec<String> = Vec::new();
    let mut c: usize = 0;
    while c < width
        invariant
            c <= width,
            column_types@.len() == c,
            forall|k: int| 0 <= k < c ==> #[trigger] column_types@[k]@ == UNKNOWN_TYPE@,
        decreases width - c,
    {
        column_types.push(String::from_str(UNKNOWN_TYPE));
        c += 1;
    }
    assert(strings_view(column_types@) =~= Seq::new(
        width as nat,
        |k: int| column_tag(fetched_rows(fetched@.subrange(0, 0)), k),
    ));
    assert(fetched@.subrange(0, fetched@.len() as int) =~= fetched@);
    let mut rows: Vec<Vec<JsonValue>> = Vec::new();
    let mut i: usize = 0;
    while i < fetched.len()
        invariant
            i <= fetched@.len(),
            width == columns@.len(),
            first_problem(width as nat, fetched@) == first_problem(
                width as nat,
                fetched@.subrange(i as int, fetched@.len() as int),
            ),
            forall|j: int|
                0 <= j < i ==> #[trigger] fetched@[j] is Ok && fetched_row(fetched@[j]).len()
                    == width,
            rows@.len() == i,
            json_rows_view(rows@) == json_rows(fetched_rows(fetched@.subrange(0, i as int))),
            strings_view(column_types@) == Seq::new(
                width as nat,
                |k: int| column_tag(fetched_rows(fetched@.subrange(0, i as int)), k),
            ),
        decreases fetched@.len() - i,
    {
        let ghost rest = fetched@.subrange(i as int, fetched@.len() as int);
        let ghost prev_rows = rows@;
        assert(rest[0] == fetched@[i as int]);
        match &fetched[i] {
            Err(e) => {
                return Err(e.clone());
            },
            Ok(row) => {
                if row.len() != width {
                    return Err(String::from_str(ROW_WIDTH_MISMATCH));
                }
                let (values, tags) = map_row(row);
                if i == 0 {
                    column_types = tags;
                }
                rows.push(values);
            },
        }
        proof {
            assert(rest.drop_first() =~= fetched@.subrange(i + 1, fetched@.len() as int));
            let done = fetched_rows(fetched@.subrange(0, i + 1));
            assert(done =~= fetched_rows(fetched@.subrange(0, i as int)).push(
                fetched_row(fetched@[i as int]),
            ));
            assert forall|k: int| 0 <= k < i implies #[trigger] json_rows_view(rows@)[k]
                == json_rows_view(prev_rows)[k] by {
                assert(rows@[k] == prev_rows[k]);
            }
            assert(json_rows_view(rows@) =~= json_rows(done));
            assert(strings_view(column_types@) =~= Seq::new(
                width as nat,
                |k: int| column_tag(done, k),
            ));
        }
        i += 1;
    }
    assert(fetched@.subrange(0, i as int) =~= fetched@);
    assert(fetched@.subrange(i as int, fetched@.len() as int) =~= Seq::<
        Result<Vec<ScalarValue>, String>,
    >::empty());
    proof {
        lemma_result_shape(strings_view(columns@), fetched@);
    }
    let row_count: usize = rows.len();
    Ok(QueryResult { columns, column_types, rows, row_count })
}

/// With no problem among the fetches, every fetch is a row of the given width.
pub proof fn lemma_no_problem_rows(width: nat, fetched: Seq<Result<Vec<ScalarValue>, String>>)
    requires
        first_problem(width, fetched) is None,
    ensures
        forall|j: int|
            0 <= j < fetched.len() ==> #[trigger] fetched[j] is Ok && fetched_row(fetched[j]).len()
                == width,
    decreases fetched.len(),
{
    if fetched.len() > 0 {
        let rest = fetched.drop_first();
        lemma_no_problem_rows(width, rest);
        assert forall|j: int| 0 <= j < fetched.len() implies #[trigger] fetched[j] is Ok
            && fetched_row(fetched[j]).len() == width by {
            if j > 0 {
                assert(fetched[j] == rest[j - 1]);
            }
        }
    }
}

/// Every result that the fetches give has one type tag per column, every row
/// as wide as the column list, and a row count equal to the number of rows.
pub proof fn lemma_result_shape(
    columns: Seq<Seq<char>>,
    fetched: Seq<Result<Vec<ScalarValue>, String>>,
)
    requires
        collect_outcome(columns, fetched) is Ok,
    ensures
        collect_outcome(columns, fetched)->Ok_0.wf(),
{
    lemma_no_problem_rows(columns.len(), fetched);
    let q = collect_outcome(columns, fetched)->Ok_0;
    assert forall|i: int| 0 <= i < q.rows.len() implies #[trigger] q.rows[i].len()
        == q.columns.len() by {
        assert(fetched_rows(fetched)[i] == fetched_row(fetched[i]));
    }
}

/// A null that is the first value of a column in the result becomes JSON null,
/// and the column's type tag is "NULL".
pub proof fn lemma_first_null_column(
    columns: Seq<Seq<char>>,
    fetched: Seq<Result<Vec<ScalarValue>, String>>,
    c: int,
)
    requires
        collect_outcome(columns, fetched) is Ok,
        fetched.len() > 0,
        0 <= c < columns.len(),
        fetched_row(fetched[0])[c] is Null,
    ensures
        collect_outcome(columns, fetched)->Ok_0.rows[0][c] == JsonView::Null,
        collect_outcome(columns, fetched)->Ok_0.column_types[c] == "NULL"@,
{
    lemma_no_problem_rows(columns.len(), fetched);
    let rows = fetched_rows(fetched);
    assert(rows[0] == fetched_row(fetched[0]));
}

/// A query that produced no row gives a result with no row, a row count of
/// zero and the unknown placeholder as every column's type tag.
pub proof fn lemma_empty_result(columns: Seq<Seq<char>>)
    ensures
        collect_outcome(columns, Seq::empty()) is Ok,
        collect_outcome(columns, Seq::empty())->Ok_0.row_count == 0,
        collect_outcome(columns, Seq::empty())->Ok_0.rows.len() == 0,
        forall|i: int|
            0 <= i < columns.len() ==> #[trigger] collect_outcome(
                columns,
                Seq::empty(),
            )->Ok_0.column_types[i] == UNKNOWN_TYPE@,
{
}

/// A failed fetch makes the whole outcome that failure's error: none of the
/// rows fetched before it is returned.
pub proof fn lemma_failure_discards_rows(
    columns: Seq<Seq<char>>,
    fetched: Seq<Result<Vec<ScalarValue>, String>>,
    k: int,
)
    requires
        0 <= k < fetched.len(),
        fetched[k] is Err,
        forall|j: int|
            0 <= j < k ==> #[trigger] fetched[j] is Ok && fetched_row(fetched[j]).len()
                == columns.len(),
    ensures
        collect_outcome(columns, fetched) == Err::<QueryResultView, Seq<char>>(fetched[k]->Err_0@),
    decreases k,
{
    if k > 0 {
        let rest = fetched.drop_first();
        assert forall|j: int| 0 <= j < k - 1 implies #[trigger] rest[j] is Ok && fetched_row(
            rest[j],
        ).len() == columns.len() by {
            assert(rest[j] == fetched[j + 1]);
        }
        lemma_failure_discards_rows(columns, rest, k - 1);
    }
}

} // verus!
