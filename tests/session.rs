use pgtui::dispatch::{Action, Key, KeyEvent, Modifiers};
use pgtui::frame::{column_widths, compose, Area, ResultBody, MIN_COLUMN_WIDTH};
use pgtui::state::{AppState, Pane, QueryResult};

fn names(v: &[&str]) -> Vec<String> {
    v.iter().map(|s| s.to_string()).collect()
}

fn plain(c: char) -> KeyEvent {
    KeyEvent { key: Key::Char(c), modifiers: Modifiers::Plain }
}

fn ctrl(c: char) -> KeyEvent {
    KeyEvent { key: Key::Char(c), modifiers: Modifiers::Control }
}

fn key(k: Key) -> KeyEvent {
    KeyEvent { key: k, modifiers: Modifiers::Plain }
}

fn query_text(s: &AppState) -> String {
    s.query.iter().collect()
}

const SCREEN: Area = Area { x: 0, y: 0, width: 100, height: 50 };

#[test]
fn new_selects_first_database() {
    let s = AppState::new(names(&["app", "app_test"]));
    assert_eq!(s.selected_database, Some(0));
    assert!(s.tables.is_empty());
    assert_eq!(s.selected_table, None);
    assert!(s.query.is_empty());
    assert!(matches!(s.query_result, QueryResult::Empty));
    assert_eq!(s.focused_pane, Pane::DatabaseList);
}

#[test]
fn new_with_no_databases_selects_nothing() {
    let mut s = AppState::new(vec![]);
    assert_eq!(s.selected_database, None);
    s.next_database();
    s.previous_database();
    assert_eq!(s.selected_database, None);
    assert_eq!(s.dispatch(plain('j')), Action::Continue);
}

#[test]
fn database_moves_clamp_at_both_ends() {
    let mut s = AppState::new(names(&["a", "b", "c"]));
    s.previous_database();
    assert_eq!(s.selected_database, Some(0));
    for _ in 0..5 {
        s.next_database();
    }
    assert_eq!(s.selected_database, Some(2));
    s.next_database();
    assert_eq!(s.selected_database, Some(2));
    s.previous_database();
    assert_eq!(s.selected_database, Some(1));
}

#[test]
fn table_moves_clamp_at_both_ends() {
    let mut s = AppState::new(names(&["a"]));
    s.set_tables(names(&["t1", "t2"]));
    assert_eq!(s.selected_table, Some(0));
    s.previous_table();
    assert_eq!(s.selected_table, Some(0));
    s.next_table();
    s.next_table();
    s.next_table();
    assert_eq!(s.selected_table, Some(1));
    s.set_tables(vec![]);
    assert_eq!(s.selected_table, None);
    s.next_table();
    assert_eq!(s.selected_table, None);
}

#[test]
fn set_tables_resets_selection() {
    let mut s = AppState::new(names(&["a"]));
    s.set_tables(names(&["x", "y", "z"]));
    s.next_table();
    s.next_table();
    assert_eq!(s.selected_table, Some(2));
    s.set_tables(names(&["p", "q"]));
    assert_eq!(s.tables, names(&["p", "q"]));
    assert_eq!(s.selected_table, Some(0));
}

#[test]
fn pop_on_empty_query_is_noop() {
    let mut s = AppState::new(names(&["a"]));
    s.pop_query_char();
    assert!(s.query.is_empty());
}

#[test]
fn push_then_pop_restores_query() {
    let mut s = AppState::new(names(&["a"]));
    for c in "SELé".chars() {
        s.push_query_char(c);
    }
    let before = s.query.clone();
    s.push_query_char('ß');
    assert_eq!(query_text(&s), "SELéß");
    s.pop_query_char();
    assert_eq!(s.query, before);
    s.pop_query_char();
    assert_eq!(query_text(&s), "SEL");
}

#[test]
fn focus_chords_switch_from_any_pane() {
    let mut s = AppState::new(names(&["a"]));
    s.set_focus(Pane::QueryEditor);
    assert_eq!(s.dispatch(ctrl('h')), Action::Continue);
    assert_eq!(s.focused_pane, Pane::DatabaseList);
    s.dispatch(ctrl('j'));
    assert_eq!(s.focused_pane, Pane::TableList);
    s.dispatch(ctrl('k'));
    assert_eq!(s.focused_pane, Pane::ResultView);
    s.dispatch(ctrl('l'));
    assert_eq!(s.focused_pane, Pane::QueryEditor);
    assert!(s.query.is_empty());
}

#[test]
fn editor_captures_shortcut_characters() {
    let mut s = AppState::new(names(&["a", "b"]));
    s.dispatch(ctrl('l'));
    for c in ['q', 'j', 'k', 'h', 'l'] {
        assert_eq!(s.dispatch(plain(c)), Action::Continue);
    }
    assert_eq!(query_text(&s), "qjkhl");
    assert_eq!(s.focused_pane, Pane::QueryEditor);
    assert_eq!(s.selected_database, Some(0));
    s.dispatch(key(Key::Backspace));
    assert_eq!(query_text(&s), "qjkh");
}

#[test]
fn quit_key_outside_editor() {
    let mut s = AppState::new(names(&["a"]));
    assert_eq!(s.dispatch(plain('q')), Action::Quit);
    s.dispatch(ctrl('k'));
    assert_eq!(s.dispatch(plain('q')), Action::Quit);
}

#[test]
fn table_list_moves_without_fetch() {
    let mut s = AppState::new(names(&["a"]));
    s.set_tables(names(&["t1", "t2"]));
    s.dispatch(ctrl('j'));
    assert_eq!(s.dispatch(plain('j')), Action::Continue);
    assert_eq!(s.selected_table, Some(1));
    assert_eq!(s.dispatch(plain('k')), Action::Continue);
    assert_eq!(s.selected_table, Some(0));
}

#[test]
fn switching_database_refetches_tables() {
    let mut s = AppState::new(names(&["app", "app_test"]));
    s.finish_fetch(Ok(names(&["users", "orders"])));
    assert_eq!(s.tables, names(&["users", "orders"]));
    assert_eq!(s.selected_table, Some(0));
    let action = s.dispatch(plain('j'));
    assert_eq!(action, Action::FetchTables(1));
    assert_eq!(s.databases[1], "app_test");
    s.finish_fetch(Ok(vec![]));
    assert!(s.tables.is_empty());
    assert_eq!(s.selected_table, None);
}

#[test]
fn failed_table_fetch_empties_list() {
    let mut s = AppState::new(names(&["app", "app_test"]));
    s.finish_fetch(Ok(names(&["users"])));
    assert_eq!(s.dispatch(plain('j')), Action::FetchTables(1));
    s.finish_fetch(Err("connection refused".to_string()));
    assert!(s.tables.is_empty());
    assert_eq!(s.selected_table, None);
    assert!(matches!(&s.query_result, QueryResult::Failure(m) if m == "connection refused"));
}

#[test]
fn confirm_runs_query_and_shows_single_cell() {
    let mut s = AppState::new(names(&["app"]));
    s.dispatch(ctrl('l'));
    for c in "SELECT 1".chars() {
        s.dispatch(plain(c));
    }
    assert_eq!(s.dispatch(key(Key::Enter)), Action::RunQuery(0));
    s.finish_query(Ok(vec![names(&["1"])]));
    match &s.query_result {
        QueryResult::Table(rows) => assert_eq!(rows, &vec![names(&["1"])]),
        _ => panic!("expected a table"),
    }
    let f = compose(&s, SCREEN);
    match &f.results.body {
        ResultBody::Grid { rows, widths } => {
            assert_eq!(rows.len(), 1);
            assert_eq!(rows[0], names(&["1"]));
            assert_eq!(widths, &vec![MIN_COLUMN_WIDTH]);
        }
        _ => panic!("expected a grid"),
    }
}

#[test]
fn confirm_with_connection_error_keeps_focus_and_query() {
    let mut s = AppState::new(names(&["app"]));
    s.dispatch(ctrl('l'));
    for c in "SELECT 1".chars() {
        s.dispatch(plain(c));
    }
    assert_eq!(s.dispatch(key(Key::Enter)), Action::RunQuery(0));
    s.finish_query(Err("timeout".to_string()));
    assert!(matches!(&s.query_result, QueryResult::Failure(m) if m == "timeout"));
    assert_eq!(s.focused_pane, Pane::QueryEditor);
    assert_eq!(query_text(&s), "SELECT 1");
    let f = compose(&s, SCREEN);
    assert!(matches!(f.results.body, ResultBody::Failure(m) if m == "timeout"));
}

#[test]
fn confirm_without_database_does_nothing() {
    let mut s = AppState::new(vec![]);
    s.dispatch(ctrl('l'));
    s.dispatch(plain('x'));
    assert_eq!(s.dispatch(key(Key::Enter)), Action::Continue);
    assert!(matches!(s.query_result, QueryResult::Empty));
}

#[test]
fn column_widths_fit_widest_cell() {
    let rows = vec![names(&["id", "name"]), names(&["1", "Zoë Ångström"]), names(&["12345"])];
    assert_eq!(column_widths(&rows), vec![5, 12]);
    assert_eq!(column_widths(&vec![]), Vec::<usize>::new());
}

#[test]
fn compose_lays_out_four_panels() {
    let mut s = AppState::new(names(&["app", "app_test"]));
    s.set_tables(names(&["users"]));
    s.set_focus(Pane::TableList);
    let f = compose(&s, SCREEN);
    assert_eq!(f.databases.area, Area { x: 0, y: 0, width: 20, height: 25 });
    assert_eq!(f.tables.area, Area { x: 0, y: 25, width: 20, height: 25 });
    assert_eq!(f.results.area, Area { x: 20, y: 0, width: 80, height: 45 });
    assert_eq!(f.query.area, Area { x: 20, y: 45, width: 80, height: 5 });
    assert_eq!(f.databases.items, &names(&["app", "app_test"]));
    assert_eq!(f.databases.highlighted, Some(0));
    assert!(!f.databases.focused);
    assert!(f.tables.focused);
    assert_eq!(f.tables.highlighted, Some(0));
    assert!(matches!(f.results.body, ResultBody::Blank));
    assert!(!f.query.focused);
}

#[test]
fn compose_is_deterministic() {
    let mut s = AppState::new(names(&["a", "b"]));
    s.finish_query(Ok(vec![names(&["x", "yy"])]));
    let f1 = compose(&s, SCREEN);
    let f2 = compose(&s, SCREEN);
    assert_eq!(f1.databases.area, f2.databases.area);
    assert_eq!(f1.tables.area, f2.tables.area);
    assert_eq!(f1.results.area, f2.results.area);
    assert_eq!(f1.query.area, f2.query.area);
    match (&f1.results.body, &f2.results.body) {
        (ResultBody::Grid { rows: r1, widths: w1 }, ResultBody::Grid { rows: r2, widths: w2 }) => {
            assert_eq!(r1, r2);
            assert_eq!(w1, w2);
        }
        _ => panic!("expected grids"),
    }
}
