use std::time::Instant;
use todo_store::entry::TodoEntry;
use todo_store::error::DataAccessError;
use todo_store::sqlite::{
    acquire_connection, add_entry, create_schema, delete_entry, list_entries, TodoPool,
};

fn pairs(entries: &[TodoEntry]) -> Vec<(i64, String)> {
    entries.iter().map(|e| (e.id, e.text.clone())).collect()
}

fn fresh_pool(max_size: u32, timeout_ms: u64) -> TodoPool {
    let pool = TodoPool::open_memory(max_size, timeout_ms).expect("pool");
    create_schema(&pool).expect("schema");
    pool
}

#[test]
fn sqlite_scenario_add_add_delete() {
    let pool = fresh_pool(2, 2000);
    add_entry(&pool, "a").unwrap();
    add_entry(&pool, "b").unwrap();
    assert_eq!(
        pairs(&list_entries(&pool).unwrap()),
        vec![(1, "a".to_string()), (2, "b".to_string())]
    );
    delete_entry(&pool, 1).unwrap();
    assert_eq!(pairs(&list_entries(&pool).unwrap()), vec![(2, "b".to_string())]);
}

#[test]
fn sqlite_round_trip_keeps_text_exactly() {
    let pool = fresh_pool(2, 2000);
    add_entry(&pool, "buy milk").unwrap();
    add_entry(&pool, " 'quoted'; DROP TABLE todo; -- ").unwrap();
    add_entry(&pool, "").unwrap();
    let listed = pairs(&list_entries(&pool).unwrap());
    assert_eq!(
        listed,
        vec![
            (1, "buy milk".to_string()),
            (2, " 'quoted'; DROP TABLE todo; -- ".to_string()),
            (3, String::new()),
        ]
    );
}

#[test]
fn sqlite_delete_unknown_id_is_silent() {
    let pool = fresh_pool(2, 2000);
    add_entry(&pool, "keep").unwrap();
    assert_eq!(delete_entry(&pool, 77), Ok(()));
    assert_eq!(pairs(&list_entries(&pool).unwrap()), vec![(1, "keep".to_string())]);
}

#[test]
fn sqlite_ids_are_not_reused() {
    let pool = fresh_pool(2, 2000);
    add_entry(&pool, "p").unwrap();
    add_entry(&pool, "q").unwrap();
    delete_entry(&pool, 2).unwrap();
    add_entry(&pool, "r").unwrap();
    assert_eq!(
        pairs(&list_entries(&pool).unwrap()),
        vec![(1, "p".to_string()), (3, "r".to_string())]
    );
}

#[test]
fn sqlite_list_twice_is_identical() {
    let pool = fresh_pool(2, 2000);
    add_entry(&pool, "one").unwrap();
    add_entry(&pool, "two").unwrap();
    let first = pairs(&list_entries(&pool).unwrap());
    let second = pairs(&list_entries(&pool).unwrap());
    assert_eq!(first, second);
}

#[test]
fn sqlite_many_adds_get_distinct_ids() {
    let pool = fresh_pool(4, 2000);
    for k in 0..20 {
        add_entry(&pool, &format!("task {}", k)).unwrap();
    }
    let listed = pairs(&list_entries(&pool).unwrap());
    assert_eq!(listed.len(), 20);
    for (k, (id, text)) in listed.iter().enumerate() {
        assert_eq!(*id, k as i64 + 1);
        assert_eq!(*text, format!("task {}", k));
    }
}

#[test]
fn sqlite_exhausted_pool_fails_after_timeout() {
    let pool = fresh_pool(1, 200);
    let held = acquire_connection(&pool).unwrap();
    let start = Instant::now();
    assert_eq!(list_entries(&pool).err(), Some(DataAccessError::PoolError));
    assert_eq!(add_entry(&pool, "late").err(), Some(DataAccessError::PoolError));
    assert!(start.elapsed().as_millis() >= 300);
    drop(held);
    assert_eq!(add_entry(&pool, "after release"), Ok(()));
    assert_eq!(pairs(&list_entries(&pool).unwrap()), vec![(1, "after release".to_string())]);
}

#[test]
fn sqlite_zero_size_or_timeout_is_pool_error() {
    assert_eq!(TodoPool::open_memory(0, 1000).err(), Some(DataAccessError::PoolError));
    assert_eq!(TodoPool::open_memory(1, 0).err(), Some(DataAccessError::PoolError));
    assert_eq!(TodoPool::open_file("unused.db", 0, 1000).err(), Some(DataAccessError::PoolError));
}

#[test]
fn sqlite_unopenable_file_is_pool_error() {
    let r = TodoPool::open_file("/nonexistent-directory/sub/todo.db", 1, 300);
    assert_eq!(r.err(), Some(DataAccessError::PoolError));
}

#[test]
fn sqlite_query_without_table_is_query_error() {
    let pool = TodoPool::open_memory(1, 2000).expect("pool");
    assert_eq!(list_entries(&pool).err(), Some(DataAccessError::QueryError));
    assert_eq!(add_entry(&pool, "x").err(), Some(DataAccessError::QueryError));
    assert_eq!(delete_entry(&pool, 1).err(), Some(DataAccessError::QueryError));
}

#[test]
fn sqlite_delete_twice_is_once() {
    let pool = fresh_pool(2, 2000);
    for t in ["a", "b", "c"].iter() {
        add_entry(&pool, t).unwrap();
    }
    delete_entry(&pool, 2).unwrap();
    let once = pairs(&list_entries(&pool).unwrap());
    delete_entry(&pool, 2).unwrap();
    assert_eq!(pairs(&list_entries(&pool).unwrap()), once);
    assert_eq!(once, vec![(1, "a".to_string()), (3, "c".to_string())]);
}

#[test]
fn sqlite_add_then_delete_keeps_id_used() {
    let pool = fresh_pool(2, 2000);
    add_entry(&pool, "a").unwrap();
    let before = pairs(&list_entries(&pool).unwrap());
    add_entry(&pool, "temp").unwrap();
    delete_entry(&pool, 2).unwrap();
    assert_eq!(pairs(&list_entries(&pool).unwrap()), before);
    add_entry(&pool, "next").unwrap();
    assert_eq!(
        pairs(&list_entries(&pool).unwrap()),
        vec![(1, "a".to_string()), (3, "next".to_string())]
    );
}

#[test]
fn sqlite_deletes_commute() {
    let first = fresh_pool(2, 2000);
    let second = fresh_pool(2, 2000);
    for pool in [&first, &second] {
        for t in ["a", "b", "c", "d"].iter() {
            add_entry(pool, t).unwrap();
        }
    }
    delete_entry(&first, 1).unwrap();
    delete_entry(&first, 3).unwrap();
    delete_entry(&second, 3).unwrap();
    delete_entry(&second, 1).unwrap();
    let a = pairs(&list_entries(&first).unwrap());
    assert_eq!(a, pairs(&list_entries(&second).unwrap()));
    assert_eq!(a, vec![(2, "b".to_string()), (4, "d".to_string())]);
}
