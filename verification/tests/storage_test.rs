use precip::storage::{extract_voltage_range, QueryResult, QueryResults, QuerySeries};

fn plant_series(columns: &[&str], rows: Vec<Vec<i64>>) -> QuerySeries {
    QuerySeries {
        name: "plant".to_owned(),
        columns: columns.iter().map(|c| (*c).to_owned()).collect(),
        values: rows,
    }
}

fn answer(statement_id: Option<u32>, series: Vec<QuerySeries>) -> QueryResults {
    QueryResults { results: vec![QueryResult { statement_id, series }] }
}

#[test]
fn extracts_both_bounds() {
    let results = answer(
        Some(0),
        vec![plant_series(&["lo", "hi"], vec![vec![1_500_000, 2_500_000]])],
    );
    assert_eq!(
        extract_voltage_range(&results),
        (Some(1_500_000), Some(2_500_000))
    );
}

#[test]
fn column_order_does_not_matter() {
    let results = answer(
        Some(0),
        vec![plant_series(&["time", "hi", "lo"], vec![vec![9, 2_500_000, 1_500_000]])],
    );
    assert_eq!(
        extract_voltage_range(&results),
        (Some(1_500_000), Some(2_500_000))
    );
}

#[test]
fn missing_column_yields_none_on_that_side() {
    let results = answer(Some(0), vec![plant_series(&["lo"], vec![vec![1_500_000]])]);
    assert_eq!(extract_voltage_range(&results), (Some(1_500_000), None));
}

#[test]
fn empty_rows_yield_nothing() {
    let results = answer(Some(0), vec![plant_series(&["lo", "hi"], Vec::new())]);
    assert_eq!(extract_voltage_range(&results), (None, None));
}

#[test]
fn wrong_statement_or_series_yields_nothing() {
    let wrong_statement = answer(
        Some(1),
        vec![plant_series(&["lo", "hi"], vec![vec![1, 2]])],
    );
    assert_eq!(extract_voltage_range(&wrong_statement), (None, None));

    let mut wrong_series = answer(Some(0), vec![plant_series(&["lo", "hi"], vec![vec![1, 2]])]);
    wrong_series.results[0].series[0].name = "pump".to_owned();
    assert_eq!(extract_voltage_range(&wrong_series), (None, None));

    let empty = QueryResults { results: Vec::new() };
    assert_eq!(extract_voltage_range(&empty), (None, None));
}

#[test]
fn first_matching_statement_and_series_win() {
    let results = QueryResults {
        results: vec![
            QueryResult { statement_id: None, series: Vec::new() },
            QueryResult {
                statement_id: Some(0),
                series: vec![
                    QuerySeries {
                        name: "global".to_owned(),
                        columns: vec!["lo".to_owned()],
                        values: vec![vec![7]],
                    },
                    plant_series(&["lo", "hi"], vec![vec![10, 20]]),
                    plant_series(&["lo", "hi"], vec![vec![30, 40]]),
                ],
            },
        ],
    };
    assert_eq!(extract_voltage_range(&results), (Some(10), Some(20)));
}
