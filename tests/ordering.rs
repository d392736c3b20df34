use todo_store::entry::TodoEntry;
use todo_store::error::DataAccessError;
use todo_store::order::entries_in_id_order;
use todo_store::sqlite::{
    delete_statement, insert_statement, listing_outcome, schema_statement, select_statement,
    statement_outcome,
};

fn pairs(entries: &[TodoEntry]) -> Vec<(i64, String)> {
    entries.iter().map(|e| (e.id(), e.text().to_string())).collect()
}

#[test]
fn rows_come_out_in_ascending_id_order() {
    let rows = vec![(3, "c".to_string()), (1, "a".to_string()), (2, "b".to_string())];
    assert_eq!(
        pairs(&entries_in_id_order(&rows)),
        vec![(1, "a".to_string()), (2, "b".to_string()), (3, "c".to_string())]
    );
}

#[test]
fn ordered_rows_stay_as_they_are() {
    let rows = vec![(1, "a".to_string()), (5, "e".to_string()), (9, "i".to_string())];
    assert_eq!(pairs(&entries_in_id_order(&rows)), rows);
}

#[test]
fn equal_ids_are_all_kept() {
    let rows = vec![(2, "x".to_string()), (1, "y".to_string()), (2, "z".to_string())];
    let mut out = pairs(&entries_in_id_order(&rows));
    assert_eq!(out.iter().map(|p| p.0).collect::<Vec<i64>>(), vec![1, 2, 2]);
    out.sort();
    assert_eq!(out, vec![(1, "y".to_string()), (2, "x".to_string()), (2, "z".to_string())]);
}

#[test]
fn no_rows_give_no_entries() {
    assert!(entries_in_id_order(&Vec::new()).is_empty());
}

#[test]
fn extreme_ids_are_ordered() {
    let rows = vec![(i64::MAX, "max".to_string()), (i64::MIN, "min".to_string()), (0, "zero".to_string())];
    assert_eq!(
        pairs(&entries_in_id_order(&rows)),
        vec![(i64::MIN, "min".to_string()), (0, "zero".to_string()), (i64::MAX, "max".to_string())]
    );
}

#[test]
fn listing_outcome_orders_read_rows() {
    let rows = vec![(7, "late".to_string()), (2, "early".to_string())];
    let listed = listing_outcome(Ok(rows)).unwrap();
    assert_eq!(pairs(&listed), vec![(2, "early".to_string()), (7, "late".to_string())]);
}

#[test]
fn listing_outcome_failed_read_is_query_error() {
    let r = listing_outcome(Err(rusqlite::Error::InvalidQuery));
    assert_eq!(r.err(), Some(DataAccessError::QueryError));
}

#[test]
fn statement_outcome_maps_each_result() {
    assert_eq!(statement_outcome::<usize>(Ok(0)), Ok(()));
    assert_eq!(statement_outcome::<usize>(Ok(1)), Ok(()));
    assert_eq!(
        statement_outcome::<usize>(Err(rusqlite::Error::QueryReturnedNoRows)),
        Err(DataAccessError::QueryError)
    );
}

#[test]
fn error_kinds_report_status_and_message() {
    assert_eq!(DataAccessError::PoolError.status_code(), 500);
    assert_eq!(DataAccessError::QueryError.status_code(), 500);
    assert_eq!(DataAccessError::RenderError.status_code(), 500);
    assert_eq!(DataAccessError::PoolError.message(), "Failed to get a database connection");
    assert_eq!(DataAccessError::QueryError.message(), "Database query failed");
    assert_eq!(DataAccessError::RenderError.message(), "Failed to render HTML");
}

#[test]
fn statements_are_the_table_operations() {
    assert_eq!(
        schema_statement(),
        "CREATE TABLE IF NOT EXISTS todo (id INTEGER PRIMARY KEY AUTOINCREMENT, text TEXT NOT NULL)"
    );
    assert_eq!(select_statement(), "SELECT id, text FROM todo ORDER BY id");
    assert_eq!(insert_statement("buy milk"), ("INSERT INTO todo (text) VALUES (?1)", "buy milk"));
    assert_eq!(insert_statement(""), ("INSERT INTO todo (text) VALUES (?1)", ""));
    assert_eq!(delete_statement(7), ("DELETE FROM todo WHERE id = ?1", 7));
}
