use sqlite_browser::data::sqlite_database::{
    tables, Action, EngineReply, Key, KeyPress, SqliteDatabaseState, SqliteDatabaseStateMode,
};
use sqlite_browser::data::sqlite_value::SqliteValue;
use sqlite_browser::tui::app::{database_name, is_quit, AppState, FrameStep, NANOS_PER_SEC};

fn app(sync_rate: u16, now: u64) -> AppState {
    AppState::new(tables(vec!["users".to_string()]), sync_rate, now)
}

#[test]
fn control_q_quits() {
    assert!(is_quit(&KeyPress { code: Key::Char('q'), control: true }));
    assert!(!is_quit(&KeyPress { code: Key::Char('q'), control: false }));
    assert!(!is_quit(&KeyPress { code: Key::Char('Q'), control: true }));
    assert!(!is_quit(&KeyPress { code: Key::Char('c'), control: true }));
    assert!(!is_quit(&KeyPress { code: Key::Esc, control: true }));
    assert!(!is_quit(&KeyPress { code: Key::Enter, control: true }));
}

#[test]
fn a_new_app_state_holds_a_fresh_session() {
    let state = app(3, 42);
    assert_eq!(state.sync_rate, 3);
    assert_eq!(state.last_sync, 42);
    assert_eq!(state.database_state, SqliteDatabaseState::new(tables(vec!["users".to_string()])));
}

#[test]
fn a_key_goes_on_to_the_session() {
    let mut state = app(3, 0);
    let step = state.read_key(&KeyPress { code: Key::Down, control: false });
    assert_eq!(step, FrameStep { render_next: true, action: Action::Idle });
    assert_eq!(state.database_state.selected_table, Some(0));
    let step = state.read_key(&KeyPress { code: Key::Enter, control: false });
    assert_eq!(step, FrameStep { render_next: true, action: Action::Execute });
    assert_eq!(state.database_state.mode, SqliteDatabaseStateMode::QUERY_TOOL);
    assert_eq!(state.last_sync, 0);
    assert_eq!(state.sync_rate, 3);
}

#[test]
fn the_quit_key_ends_the_loop_and_still_reaches_the_session() {
    let mut state = app(3, 0);
    let quit = KeyPress { code: Key::Char('q'), control: true };
    let step = state.read_key(&quit);
    assert_eq!(step, FrameStep { render_next: false, action: Action::Idle });
    assert_eq!(state, app(3, 0));
    state.database_state.mode = SqliteDatabaseStateMode::QUERY_TOOL;
    let step = state.read_key(&quit);
    assert!(!step.render_next);
    assert_eq!(state.database_state.current_query, "q");
}

#[test]
fn the_catalog_is_due_once_the_interval_has_passed() {
    let state = app(3, 10 * NANOS_PER_SEC);
    assert!(!state.sync_due(10 * NANOS_PER_SEC));
    assert!(!state.sync_due(12 * NANOS_PER_SEC));
    assert!(!state.sync_due(13 * NANOS_PER_SEC - 1));
    assert!(state.sync_due(13 * NANOS_PER_SEC));
    assert!(state.sync_due(14 * NANOS_PER_SEC));
    assert!(state.sync_due(u64::MAX));
}

#[test]
fn a_clock_that_ran_backwards_counts_as_no_time() {
    let state = app(3, 10 * NANOS_PER_SEC);
    assert!(!state.sync_due(0));
    assert!(app(0, 10).sync_due(0));
    assert_eq!(
        state.footer(0, Some("db"), "p"),
        "Last sync: 0s ago | Database name: db | Database path: p"
    );
}

#[test]
fn an_interval_of_nothing_is_always_due() {
    assert!(app(0, 5).sync_due(5));
    assert!(app(0, 5).sync_due(6));
    assert!(!app(u16::MAX, 0).sync_due(65534 * NANOS_PER_SEC));
    assert!(app(u16::MAX, 0).sync_due(65535 * NANOS_PER_SEC));
}

#[test]
fn sync_replaces_the_catalog_and_notes_the_time() {
    let mut state = app(3, 0);
    state.read_key(&KeyPress { code: Key::Down, control: false });
    state.database_state.execute(EngineReply::Read {
        column_names: vec!["n".to_string()],
        rows: vec![vec![SqliteValue::Integer(1)]],
    });
    state.sync(tables(vec!["a".to_string(), "b".to_string()]), 7 * NANOS_PER_SEC);
    assert_eq!(state.last_sync, 7 * NANOS_PER_SEC);
    assert_eq!(state.sync_rate, 3);
    assert_eq!(state.database_state.tables.len(), 2);
    assert_eq!(state.database_state.tables[1].name, "b");
    assert_eq!(state.database_state.selected_table, Some(0));
    assert_eq!(state.database_state.queried_table_state.as_ref().unwrap().rows.len(), 1);
    assert!(!state.sync_due(9 * NANOS_PER_SEC));
    assert!(state.sync_due(10 * NANOS_PER_SEC));
}

#[test]
fn the_database_name_ends_at_the_first_full_stop() {
    assert_eq!(database_name("test.db"), "test");
    assert_eq!(database_name("a.b.c"), "a");
    assert_eq!(database_name(".hidden"), "");
    assert_eq!(database_name("trailing."), "trailing");
    assert_eq!(database_name("päths.sqlite"), "päths");
}

#[test]
fn a_file_name_without_a_full_stop_is_the_name() {
    assert_eq!(database_name("nodot"), "nodot");
    assert_eq!(database_name(""), "");
    assert_eq!(
        app(3, 0).footer(0, Some("plain"), "\"plain\""),
        "Last sync: 0s ago | Database name: plain | Database path: \"plain\""
    );
}

#[test]
fn a_path_without_a_file_name_shows_no_name() {
    assert_eq!(
        app(3, 0).footer(2 * NANOS_PER_SEC, None, "\"..\""),
        "Last sync: 2s ago | Database name:  | Database path: \"..\""
    );
}

#[test]
fn sync_drops_a_selection_behind_the_catalog() {
    let mut state = AppState::new(
        tables(vec!["a".to_string(), "b".to_string(), "c".to_string()]),
        3,
        0,
    );
    state.database_state.selected_table = Some(2);
    state.sync(tables(vec!["a".to_string(), "b".to_string(), "c".to_string()]), 1);
    assert_eq!(state.database_state.selected_table, Some(2));
    state.sync(tables(vec!["a".to_string(), "b".to_string()]), 2);
    assert_eq!(state.database_state.selected_table, None);
    state.database_state.selected_table = Some(1);
    state.sync(tables(vec!["z".to_string(), "y".to_string()]), 3);
    assert_eq!(state.database_state.selected_table, Some(1));
    state.sync(Vec::new(), 4);
    assert_eq!(state.database_state.selected_table, None);
    assert!(state.database_state.accepts_key(&KeyPress { code: Key::Enter, control: false }));
    let step = state.read_key(&KeyPress { code: Key::Enter, control: false });
    assert_eq!(step.action, Action::Idle);
}

#[test]
fn the_footer_names_time_database_and_path() {
    let state = app(3, NANOS_PER_SEC);
    assert_eq!(
        state.footer(9421 * NANOS_PER_SEC, Some("test.db"), "\"/tmp/test.db\""),
        "Last sync: 2h 37m ago | Database name: test | Database path: \"/tmp/test.db\""
    );
    assert_eq!(
        state.footer(NANOS_PER_SEC, Some(""), ""),
        "Last sync: 0s ago | Database name:  | Database path: "
    );
    assert_eq!(
        state.footer(62 * NANOS_PER_SEC + 999_999_999, Some("db.sqlite.bak"), "p"),
        "Last sync: 1m 1s ago | Database name: db | Database path: p"
    );
}
