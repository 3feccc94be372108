use sqlite_watcher::app::{remaining_timeout_ms, tick_due, App, KeyEvent};
use sqlite_watcher::db::schema_table::{SQLiteSchema, SchemaType};
use sqlite_watcher::db::SQLiteConnectionPool;

fn memory_pool() -> SQLiteConnectionPool {
    SQLiteConnectionPool::new(r2d2_sqlite::SqliteConnectionManager::memory()).unwrap()
}

fn table_entry(name: &str) -> SQLiteSchema {
    SQLiteSchema {
        schema_type: SchemaType::Table,
        name: name.to_string(),
        tbl_name: name.to_string(),
    }
}

fn app_with_tabs(names: &[&str]) -> App {
    let tables: Vec<SQLiteSchema> = names.iter().map(|n| table_entry(n)).collect();
    App::new("Test TUI".to_string(), memory_pool(), tables)
}

#[test]
fn new_app_starts_running_on_the_first_tab_with_no_rows() {
    let app = app_with_tabs(&["alpha", "beta"]);
    assert!(app.is_running);
    assert_eq!(app.tabs, vec!["alpha".to_string(), "beta".to_string()]);
    assert_eq!(app.tab_idx, 0);
    assert_eq!(app.scroll, 0);
    assert!(app.rows.is_empty());
    assert_eq!(app.title, "Test TUI");
}

#[test]
fn prev_tab_at_the_first_tab_changes_nothing() {
    let mut app = app_with_tabs(&["alpha", "beta"]);
    app.rows = vec!["r|".to_string(), "s|".to_string()];
    app.scroll = 1;
    app.on_left();
    assert_eq!(app.tab_idx, 0);
    assert_eq!(app.scroll, 1);
}

#[test]
fn next_tab_at_the_last_tab_changes_nothing() {
    let mut app = app_with_tabs(&["alpha", "beta"]);
    app.tab_idx = 1;
    app.rows = vec!["r|".to_string(), "s|".to_string()];
    app.scroll = 1;
    app.on_right();
    assert_eq!(app.tab_idx, 1);
    assert_eq!(app.scroll, 1);
}

#[test]
fn tab_changes_reset_the_scroll_offset() {
    let mut app = app_with_tabs(&["alpha", "beta", "gamma"]);
    app.rows = (0..9).map(|i| format!("{}|", i)).collect();
    app.scroll = 7;
    app.on_right();
    assert_eq!(app.tab_idx, 1);
    assert_eq!(app.scroll, 0);
    app.scroll = 5;
    app.on_left();
    assert_eq!(app.tab_idx, 0);
    assert_eq!(app.scroll, 0);
}

#[test]
fn scroll_down_on_an_empty_snapshot_is_a_no_op() {
    let mut app = app_with_tabs(&["alpha"]);
    app.on_down();
    assert_eq!(app.scroll, 0);
}

#[test]
fn scroll_never_exceeds_the_last_row() {
    let mut app = app_with_tabs(&["alpha"]);
    app.rows = vec!["a|".to_string(), "b|".to_string(), "c|".to_string()];
    app.on_down();
    app.on_down();
    assert_eq!(app.scroll, 2);
    app.on_down();
    assert_eq!(app.scroll, 2);
}

#[test]
fn scroll_up_stops_at_the_top() {
    let mut app = app_with_tabs(&["alpha"]);
    app.rows = vec!["a|".to_string(), "b|".to_string()];
    app.scroll = 1;
    app.on_up();
    assert_eq!(app.scroll, 0);
    app.on_up();
    assert_eq!(app.scroll, 0);
}

#[test]
fn character_keys_toggle_the_title() {
    let mut app = app_with_tabs(&["alpha"]);
    app.on_key('a');
    assert_eq!(app.title, "ABC");
    app.on_key('x');
    assert_eq!(app.title, "Test TUI");
}

#[test]
fn key_events_dispatch_to_their_transitions() {
    let mut app = app_with_tabs(&["alpha", "beta"]);
    app.rows = vec!["a|".to_string(), "b|".to_string()];
    app.on_event(KeyEvent::Down);
    assert_eq!(app.scroll, 1);
    app.on_event(KeyEvent::Up);
    assert_eq!(app.scroll, 0);
    app.on_event(KeyEvent::Right);
    assert_eq!(app.tab_idx, 1);
    app.on_event(KeyEvent::Left);
    assert_eq!(app.tab_idx, 0);
    app.on_event(KeyEvent::Other);
    assert_eq!(app.tab_idx, 0);
    assert!(app.is_running);
    app.on_event(KeyEvent::Quit);
    assert!(!app.is_running);
}

#[test]
fn quit_stops_the_loop_within_one_iteration() {
    let mut app = app_with_tabs(&["alpha"]);
    let cont = app.loop_step(Some(KeyEvent::Quit), false);
    assert!(!cont);
    assert!(!app.is_running);
}

#[test]
fn quit_stops_the_loop_even_when_a_tick_is_due() {
    let mut app = app_with_tabs(&["alpha"]);
    let cont = app.loop_step(Some(KeyEvent::Quit), true);
    assert!(!cont);
    assert!(!app.is_running);
}

#[test]
fn remaining_timeout_is_clamped_at_zero() {
    assert_eq!(remaining_timeout_ms(250, 0), 250);
    assert_eq!(remaining_timeout_ms(250, 100), 150);
    assert_eq!(remaining_timeout_ms(250, 250), 0);
    assert_eq!(remaining_timeout_ms(250, 400), 0);
}

#[test]
fn tick_is_due_once_the_interval_has_elapsed() {
    assert!(!tick_due(250, 0));
    assert!(!tick_due(250, 249));
    assert!(tick_due(250, 250));
    assert!(tick_due(250, 400));
}
