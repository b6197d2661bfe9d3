//! Reading a module's stored voltage range back from the store.
//!
//! The store answers a query with result sets of named series; the range
//! of a module's moisture signal comes back as the `lo` and `hi` columns
//! of the first row of the series named `plant`, in the result of the
//! first statement. The edge parses the store's wire answer into these
//! plain values; picking the range out of them is decided here.

use vstd::prelude::*;

verus! {

/// One series of a query answer: its name, its column names, and its rows
/// of values, in thousandths of the stored unit.
#[derive(Clone, Debug)]
pub struct QuerySeries {
    /// The series' name.
    pub name: String,
    /// The column names, in row order.
    pub columns: Vec<String>,
    /// The rows, each as one value per column.
    pub values: Vec<Vec<i64>>,
}

/// One statement's answer within a query answer.
#[derive(Clone, Debug)]
pub struct QueryResult {
    /// Which statement of the query this answers.
    pub statement_id: Option<u32>,
    /// The series the statement produced.
    pub series: Vec<QuerySeries>,
}

/// A whole query answer.
#[derive(Clone, Debug)]
pub struct QueryResults {
    /// One answer per statement.
    pub results: Vec<QueryResult>,
}

/// The first statement answer marked as statement zero.
pub open spec fn first_statement_zero(results: Seq<QueryResult>) -> Option<QueryResult>
    decreases results.len(),
{
    if results.len() == 0 {
        None
    } else if results[0].statement_id == Some(0u32) {
        Some(results[0])
    } else {
        first_statement_zero(results.drop_first())
    }
}

/// The first series with the given name.
pub open spec fn first_series_named(series: Seq<QuerySeries>, name: Seq<char>) -> Option<
    QuerySeries,
>
    decreases series.len(),
{
    if series.len() == 0 {
        None
    } else if series[0].name@ == name {
        Some(series[0])
    } else {
        first_series_named(series.drop_first(), name)
    }
}

/// The position of the first column with the given name.
pub open spec fn column_position(columns: Seq<String>, name: Seq<char>) -> Option<int>
    decreases columns.len(),
{
    if columns.len() == 0 {
        None
    } else if columns[0]@ == name {
        Some(0int)
    } else {
        match column_position(columns.drop_first(), name) {
            Some(p) => Some(p + 1),
            None => None,
        }
    }
}

/// The value of the named column in the series' first row, when the
/// series has such a column, a first row, and the row is wide enough.
pub open spec fn column_value(series: QuerySeries, name: Seq<char>) -> Option<i64> {
    match column_position(series.columns@, name) {
        Some(p) => if series.values@.len() > 0 && p < series.values@[0]@.len() {
            Some(series.values@[0]@[p])
        } else {
            None
        },
        None => None,
    }
}

/// What the voltage-range query answers for one module: the `lo` and `hi`
/// columns of the first row of the series named `plant` in the first
/// statement's answer; nothing where any of those is missing.
pub open spec fn spec_voltage_range(results: QueryResults) -> (Option<i64>, Option<i64>) {
    match first_statement_zero(results.results@) {
        None => (None::<i64>, None::<i64>),
        Some(result) => match first_series_named(result.series@, "plant"@) {
            None => (None::<i64>, None::<i64>),
            Some(series) => (column_value(series, "lo"@), column_value(series, "hi"@)),
        },
    }
}

/// Find the first statement answer marked as statement zero.
fn find_statement_zero(results: &Vec<QueryResult>) -> (r: Option<&QueryResult>)
    ensures
        match r {
            Some(q) => first_statement_zero(results@) == Some(*q),
            None => first_statement_zero(results@) is None,
        },
{
    let n = results.len();
    let mut k: usize = 0;
    proof {
        assert(results@.skip(0) =~= results@);
    }
    while k < n
        invariant
            k <= n,
            n == results@.len(),
            first_statement_zero(results@) == first_statement_zero(results@.skip(k as int)),
        decreases n - k,
    {
        proof {
            assert(results@.skip(k as int)[0] == results@[k as int]);
            assert(results@.skip(k as int).drop_first() =~= results@.skip(k + 1));
        }
        let is_zero = match results[k].statement_id {
            Some(id) => id == 0,
            None => false,
        };
        if is_zero {
            return Some(&results[k]);
        }
        k = k + 1;
    }
    proof {
        assert(results@.skip(n as int) =~= Seq::<QueryResult>::empty());
    }
    None
}

/// Find the first series with the given name.
fn find_series_named<'a>(series: &'a Vec<QuerySeries>, name: &str) -> (r: Option<
    &'a QuerySeries,
>)
    ensures
        match r {
            Some(q) => first_series_named(series@, name@) == Some(*q),
            None => first_series_named(series@, name@) is None,
        },
{
    let n = series.len();
    let wanted = name.to_owned();
    let mut k: usize = 0;
    proof {
        assert(series@.skip(0) =~= series@);
    }
    while k < n
        invariant
            k <= n,
            n == series@.len(),
            wanted@ == name@,
            first_series_named(series@, name@) == first_series_named(
                series@.skip(k as int),
                name@,
            ),
        decreases n - k,
    {
        proof {
            assert(series@.skip(k as int)[0] == series@[k as int]);
            assert(series@.skip(k as int).drop_first() =~= series@.skip(k + 1));
        }
        if series[k].name == wanted {
            return Some(&series[k]);
        }
        k = k + 1;
    }
    proof {
        assert(series@.skip(n as int) =~= Seq::<QuerySeries>::empty());
    }
    None
}

/// Find the position of the first column with the given name.
fn find_column(columns: &Vec<String>, name: &str) -> (r: Option<usize>)
    ensures
        match r {
            Some(p) => column_position(columns@, name@) == Some(p as int),
            None => column_position(columns@, name@) is None,
        },
{
    let n = columns.len();
    let wanted = name.to_owned();
    let mut k: usize = 0;
    proof {
        assert(columns@.skip(0) =~= columns@);
    }
    while k < n
        invariant
            k <= n,
            n == columns@.len(),
            wanted@ == name@,
            column_position(columns@, name@) == (match column_position(
                columns@.skip(k as int),
                name@,
            ) {
                Some(p) => Some(p + k as int),
                None => None::<int>,
            }),
        decreases n - k,
    {
        proof {
            assert(columns@.skip(k as int)[0] == columns@[k as int]);
            assert(columns@.skip(k as int).drop_first() =~= columns@.skip(k + 1));
        }
        if columns[k] == wanted {
            return Some(k);
        }
        k = k + 1;
    }
    proof {
        assert(columns@.skip(n as int) =~= Seq::<String>::empty());
    }
    None
}

/// The value of the named column in the series' first row, when present.
fn lookup_column_value(series: &QuerySeries, name: &str) -> (r: Option<i64>)
    ensures
        r == column_value(*series, name@),
{
    match find_column(&series.columns, name) {
        Some(p) => {
            if series.values.len() > 0 {
                let row = &series.values[0];
                if p < row.len() {
                    Some(row[p])
                } else {
                    None
                }
            } else {
                None
            }
        },
        None => None,
    }
}

/// Pick one module's stored voltage range out of the query answer: the
/// `lo` and `hi` columns of the first row of the series named `plant` in
/// the first statement's answer.
pub fn extract_voltage_range(results: &QueryResults) -> (r: (Option<i64>, Option<i64>))
    ensures
        r == spec_voltage_range(*results),
{
    match find_statement_zero(&results.results) {
        None => (None, None),
        Some(result) => match find_series_named(&result.series, "plant") {
            None => (None, None),
            Some(series) => (
                lookup_column_value(series, "lo"),
                lookup_column_value(series, "hi"),
            ),
        },
    }
}

} // verus!
