//! Idempotency, foreign keys and aggregation of the event store.

use selfspy_core::Database;
use selfspy_core::StorageError;

#[test]
fn insert_process_twice_returns_same_id_once_stored() {
    let mut db = Database::new();
    let first = db.insert_process("Chrome", None).unwrap();
    let second = db.insert_process("Chrome", None).unwrap();
    assert_eq!(first, second);
    assert_eq!(db.processes().len(), 1);
    assert_eq!(db.processes()[0].name, "Chrome");
}

#[test]
fn distinct_names_get_distinct_sequential_ids() {
    let mut db = Database::new();
    let a = db.insert_process("Alpha", None).unwrap();
    let b = db.insert_process("Beta", Some("com.example.beta")).unwrap();
    assert_eq!(a, 1);
    assert_eq!(b, 2);
    assert_eq!(db.processes()[1].bundle_id.as_deref(), Some("com.example.beta"));
}

#[test]
fn fresh_store_reports_all_zeroes_and_no_most_active() {
    let db = Database::new();
    let stats = db.get_stats();
    assert_eq!(stats.total_keystrokes, 0);
    assert_eq!(stats.total_clicks, 0);
    assert_eq!(stats.total_windows, 0);
    assert_eq!(stats.total_processes, 0);
    assert_eq!(stats.session_duration, 0);
    assert_eq!(stats.most_active_process, None);
    assert_eq!(stats.most_active_window, None);
}

#[test]
fn insert_window_requires_existing_process() {
    let mut db = Database::new();
    assert_eq!(
        db.insert_window(1, "no owner", None, None, None, None),
        Err(StorageError::WriteFailed)
    );
    let pid = db.insert_process("Editor", None).unwrap();
    let wid = db.insert_window(pid, "main", Some(0), Some(0), Some(800), Some(600)).unwrap();
    assert_eq!(wid, 1);
    assert_eq!(db.windows()[0].title, "main");
    assert_eq!(db.windows()[0].width, Some(800));
}

#[test]
fn insert_keys_and_clicks_require_existing_window() {
    let mut db = Database::new();
    assert_eq!(db.insert_keys(1, vec![1, 2, 3], 3), Err(StorageError::WriteFailed));
    assert_eq!(
        db.insert_click(1, 10, 20, "left", false),
        Err(StorageError::WriteFailed)
    );
    let pid = db.insert_process("Editor", None).unwrap();
    let wid = db.insert_window(pid, "main", None, None, None, None).unwrap();
    let kid = db.insert_keys(wid, vec![9, 9], 2).unwrap();
    let cid = db.insert_click(wid, 10, 20, "left", false).unwrap();
    assert_eq!(kid, 1);
    assert_eq!(cid, 1);
    assert_eq!(db.keys()[0].key_count, 2);
    assert_eq!(db.clicks()[0].button, "left");
    assert!(!db.clicks()[0].double_click);
}

#[test]
fn stats_aggregate_counts_and_keystroke_sum() {
    let mut db = Database::new();
    let pid = db.insert_process("Editor", None).unwrap();
    let wid = db.insert_window(pid, "main", None, None, None, None).unwrap();
    db.insert_keys(wid, vec![0; 5], 5).unwrap();
    db.insert_keys(wid, vec![0; 7], 7).unwrap();
    db.insert_click(wid, 1, 1, "left", false).unwrap();
    db.insert_click(wid, 2, 2, "right", true).unwrap();
    db.insert_click(wid, 3, 3, "middle", false).unwrap();
    let stats = db.get_stats();
    assert_eq!(stats.total_keystrokes, 12);
    assert_eq!(stats.total_clicks, 3);
    assert_eq!(stats.total_windows, 1);
    assert_eq!(stats.total_processes, 1);
    assert_eq!(stats.most_active_process.as_deref(), Some("Editor"));
}

#[test]
fn most_active_process_is_the_one_with_most_windows() {
    let mut db = Database::new();
    let quiet = db.insert_process("Quiet", None).unwrap();
    let busy = db.insert_process("Busy", None).unwrap();
    db.insert_window(quiet, "only", None, None, None, None).unwrap();
    db.insert_window(busy, "one", None, None, None, None).unwrap();
    db.insert_window(busy, "two", None, None, None, None).unwrap();
    let stats = db.get_stats();
    assert_eq!(stats.most_active_process.as_deref(), Some("Busy"));
}

#[test]
fn most_active_tie_goes_to_the_earliest_process() {
    let mut db = Database::new();
    let zeta = db.insert_process("Zeta", None).unwrap();
    let alpha = db.insert_process("Alpha", None).unwrap();
    db.insert_window(zeta, "z", None, None, None, None).unwrap();
    db.insert_window(alpha, "a", None, None, None, None).unwrap();
    let stats = db.get_stats();
    assert_eq!(stats.most_active_process.as_deref(), Some("Zeta"));
}

#[test]
fn processes_without_windows_yield_no_most_active() {
    let mut db = Database::new();
    db.insert_process("Idle", None).unwrap();
    let stats = db.get_stats();
    assert_eq!(stats.most_active_process, None);
}

#[test]
fn rows_are_stamped_with_the_store_clock() {
    let mut db = Database::new();
    db.set_clock(1_700_000_000);
    let pid = db.insert_process("Editor", None).unwrap();
    db.set_clock(1_700_000_005);
    let wid = db.insert_window(pid, "main", None, None, None, None).unwrap();
    db.insert_keys(wid, vec![1], 1).unwrap();
    assert_eq!(db.processes()[0].created_at, 1_700_000_000);
    assert_eq!(db.windows()[0].created_at, 1_700_000_005);
    assert_eq!(db.keys()[0].created_at, 1_700_000_005);
}
