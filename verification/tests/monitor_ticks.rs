//! The monitor's per-tick behaviour: window reconciliation, the
//! exclusion set, input draining and the periodic flush.

use selfspy_core::ActivityMonitor;
use selfspy_core::Config;
use selfspy_core::InputEvent;
use selfspy_core::MouseButton;
use selfspy_core::WindowInfo;

fn window(process: &str, title: &str) -> WindowInfo {
    WindowInfo {
        process_name: process.to_string(),
        window_title: title.to_string(),
        bundle_id: None,
        x: None,
        y: None,
        width: None,
        height: None,
    }
}

fn plain_monitor() -> ActivityMonitor {
    let mut config = Config::new();
    config.encryption_enabled = false;
    ActivityMonitor::new(config, None).unwrap()
}

#[test]
fn window_transition_inserts_exactly_one_new_row() {
    let mut monitor = plain_monitor();
    monitor.tick(Some(window("A", "t1")), Vec::new());
    assert_eq!(monitor.store().windows().len(), 1);
    monitor.tick(Some(window("B", "t2")), Vec::new());
    assert_eq!(monitor.store().windows().len(), 2);
    let current = monitor.current_window().as_ref().unwrap();
    assert_eq!(current.window_id, 2);
    assert_eq!(current.process_name, "B");
    assert_eq!(current.window_title, "t2");
    let first = &monitor.store().windows()[0];
    assert_eq!(first.title, "t1");
    assert_eq!(first.process_id, 1);
}

#[test]
fn unchanged_identity_inserts_nothing() {
    let mut monitor = plain_monitor();
    monitor.tick(Some(window("A", "t1")), Vec::new());
    monitor.tick(Some(window("A", "t1")), Vec::new());
    assert_eq!(monitor.store().windows().len(), 1);
    assert_eq!(monitor.store().processes().len(), 1);
}

#[test]
fn same_process_new_title_gets_a_new_window_row_only() {
    let mut monitor = plain_monitor();
    monitor.tick(Some(window("A", "t1")), Vec::new());
    monitor.tick(Some(window("A", "t2")), Vec::new());
    assert_eq!(monitor.store().processes().len(), 1);
    assert_eq!(monitor.store().windows().len(), 2);
}

#[test]
fn excluded_process_writes_no_rows_and_clears_the_pointer() {
    let mut monitor = plain_monitor();
    monitor.tick(Some(window("A", "t1")), Vec::new());
    assert!(monitor.current_window().is_some());
    monitor.tick(Some(window("Bitwarden", "vault")), Vec::new());
    assert_eq!(monitor.store().processes().len(), 1);
    assert_eq!(monitor.store().windows().len(), 1);
    assert!(monitor.current_window().is_none());
}

#[test]
fn buffered_text_flushes_as_one_encrypted_batch() {
    let config = Config::new();
    let mut monitor = ActivityMonitor::new(config, Some("pw".to_string())).unwrap();
    monitor.tick(
        None,
        vec![InputEvent::KeyPress { key: "ab".to_string() }],
    );
    assert_eq!(monitor.store().keys().len(), 0);
    monitor.tick(
        None,
        vec![InputEvent::KeyPress { key: "c".to_string() }],
    );
    assert_eq!(monitor.store().keys().len(), 0);
    monitor.tick(Some(window("Editor", "main")), Vec::new());
    assert_eq!(monitor.store().keys().len(), 1);
    let batch = &monitor.store().keys()[0];
    assert_eq!(batch.key_count, 3);
    let enc = monitor.encryptor().as_ref().unwrap();
    assert_eq!(enc.decrypt(&batch.encrypted_keys).unwrap(), b"abc".to_vec());
}

#[test]
fn flush_without_encryption_stores_plaintext() {
    let mut monitor = plain_monitor();
    monitor.tick(
        Some(window("Editor", "main")),
        vec![InputEvent::KeyPress { key: "hi".to_string() }],
    );
    assert_eq!(monitor.store().keys().len(), 1);
    let batch = &monitor.store().keys()[0];
    assert_eq!(batch.key_count, 2);
    assert_eq!(batch.encrypted_keys, b"hi".to_vec());
}

#[test]
fn key_count_counts_characters_not_bytes() {
    let mut monitor = plain_monitor();
    monitor.tick(
        Some(window("Editor", "main")),
        vec![InputEvent::KeyPress { key: "\u{e9}".to_string() }],
    );
    assert_eq!(monitor.store().keys().len(), 1);
    let batch = &monitor.store().keys()[0];
    assert_eq!(batch.key_count, 1);
    assert_eq!(batch.encrypted_keys, "\u{e9}".as_bytes().to_vec());
    assert_eq!(monitor.store().get_stats().total_keystrokes, 1);
}

#[test]
fn clicks_are_written_under_the_current_window() {
    let mut monitor = plain_monitor();
    monitor.tick(
        Some(window("Editor", "main")),
        vec![
            InputEvent::MouseClick { x: 10, y: 20, button: MouseButton::Left },
            InputEvent::MouseClick { x: 30, y: 40, button: MouseButton::Right },
        ],
    );
    let clicks = monitor.store().clicks();
    assert_eq!(clicks.len(), 2);
    assert_eq!(clicks[0].x, 10);
    assert_eq!(clicks[0].button, "left");
    assert_eq!(clicks[1].button, "right");
    assert_eq!(clicks[0].window_id, 1);
}

#[test]
fn clicks_without_a_current_window_are_dropped() {
    let mut monitor = plain_monitor();
    monitor.tick(
        None,
        vec![InputEvent::MouseClick { x: 1, y: 2, button: MouseButton::Left }],
    );
    assert_eq!(monitor.store().clicks().len(), 0);
}

#[test]
fn other_events_are_ignored() {
    let mut monitor = plain_monitor();
    monitor.tick(
        Some(window("Editor", "main")),
        vec![
            InputEvent::KeyRelease { key: "a".to_string() },
            InputEvent::MouseMove { x: 5, y: 5 },
            InputEvent::MouseScroll { delta_x: 0, delta_y: -3 },
        ],
    );
    assert_eq!(monitor.store().keys().len(), 0);
    assert_eq!(monitor.store().clicks().len(), 0);
}

#[test]
fn stop_clears_the_running_flag_and_loses_no_batch() {
    let mut monitor = plain_monitor();
    monitor.start();
    assert!(monitor.is_running());
    monitor.tick(Some(window("Editor", "main")), Vec::new());
    monitor.tick(
        None,
        vec![InputEvent::KeyPress { key: "bye".to_string() }],
    );
    assert_eq!(monitor.store().keys().len(), 1);
    monitor.stop();
    assert!(!monitor.is_running());
    assert_eq!(monitor.store().keys().len(), 1);
    assert_eq!(monitor.store().keys()[0].encrypted_keys, b"bye".to_vec());
}

#[test]
fn persisted_salt_reopens_batches_across_monitors() {
    let enc = selfspy_core::Encryptor::new("pw").unwrap();
    let salt = enc.salt().clone();
    let mut monitor = ActivityMonitor::with_encryptor(Config::new(), Some(enc));
    monitor.tick(
        Some(window("Editor", "main")),
        vec![InputEvent::KeyPress { key: "abc".to_string() }],
    );
    let payload = monitor.store().keys()[0].encrypted_keys.clone();
    let revived = selfspy_core::Encryptor::from_salt("pw", &salt).unwrap();
    assert_eq!(revived.decrypt(&payload).unwrap(), b"abc".to_vec());
}

#[test]
fn monitor_rows_are_stamped_with_the_clock() {
    let mut monitor = plain_monitor();
    monitor.set_clock(42);
    monitor.tick(Some(window("Editor", "main")), Vec::new());
    assert_eq!(monitor.store().processes()[0].created_at, 42);
    assert_eq!(monitor.store().windows()[0].created_at, 42);
}
