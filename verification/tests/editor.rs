use sqlite_browser::data::sqlite_database::{
    tables, Action, Key, KeyPress, SqliteDatabaseState, SqliteDatabaseStateMode,
};

fn editor(text: &str, cursor: usize) -> SqliteDatabaseState {
    let mut state = SqliteDatabaseState::new(tables(vec!["users".to_string()]));
    state.mode = SqliteDatabaseStateMode::QUERY_TOOL;
    state.current_query = text.to_string();
    state.current_query_cursor = (cursor, 0);
    state
}

fn press(code: Key) -> KeyPress {
    KeyPress { code, control: false }
}

#[test]
fn a_character_goes_in_at_the_cursor() {
    let mut state = editor("SELCT", 3);
    assert_eq!(state.read_keys(&press(Key::Char('E'))), Action::Idle);
    assert_eq!(state.current_query, "SELECT");
    assert_eq!(state.current_query_cursor, (4, 0));
}

#[test]
fn a_character_goes_in_at_both_ends() {
    let mut state = editor("bc", 0);
    state.read_keys(&press(Key::Char('a')));
    assert_eq!(state.current_query, "abc");
    assert_eq!(state.current_query_cursor, (1, 0));
    let mut state = editor("ab", 2);
    state.read_keys(&press(Key::Char('c')));
    assert_eq!(state.current_query, "abc");
    assert_eq!(state.current_query_cursor, (3, 0));
}

#[test]
fn typing_into_an_empty_buffer() {
    let mut state = editor("", 0);
    for c in "SELECT 1".chars() {
        state.read_keys(&press(Key::Char(c)));
    }
    assert_eq!(state.current_query, "SELECT 1");
    assert_eq!(state.current_query_cursor, (8, 0));
}

#[test]
fn backspace_takes_out_the_character_before_the_cursor() {
    let mut state = editor("SELEECT", 5);
    assert_eq!(state.read_keys(&press(Key::Backspace)), Action::Idle);
    assert_eq!(state.current_query, "SELECT");
    assert_eq!(state.current_query_cursor, (4, 0));
}

#[test]
fn backspace_at_the_start_does_nothing() {
    let mut state = editor("abc", 0);
    state.read_keys(&press(Key::Backspace));
    assert_eq!(state, editor("abc", 0));
    let mut state = editor("", 0);
    state.read_keys(&press(Key::Backspace));
    assert_eq!(state, editor("", 0));
}

#[test]
fn insert_then_delete_restores_the_buffer() {
    let text = "héllo wörld";
    let len = text.chars().count();
    for cursor in 0..=len {
        let mut state = editor(text, cursor);
        state.read_keys(&press(Key::Char('ß')));
        assert_eq!(state.current_query.chars().count(), len + 1);
        assert_eq!(state.current_query_cursor, (cursor + 1, 0));
        state.read_keys(&press(Key::Backspace));
        assert_eq!(state.current_query, text);
        assert_eq!(state.current_query_cursor, (cursor, 0));
    }
}

#[test]
fn the_cursor_counts_characters_not_bytes() {
    let mut state = editor("äö", 1);
    state.read_keys(&press(Key::Char('x')));
    assert_eq!(state.current_query, "äxö");
    state.read_keys(&press(Key::Backspace));
    state.read_keys(&press(Key::Backspace));
    assert_eq!(state.current_query, "ö");
    assert_eq!(state.current_query_cursor, (0, 0));
}

#[test]
fn enter_asks_for_the_statement_to_be_run() {
    let mut state = editor("SELECT 1", 8);
    assert_eq!(state.read_keys(&press(Key::Enter)), Action::Execute);
    assert_eq!(state, editor("SELECT 1", 8));
}

#[test]
fn escape_goes_back_and_keeps_the_buffer() {
    let mut state = editor("SELECT 1", 4);
    assert_eq!(state.read_keys(&press(Key::Esc)), Action::Idle);
    assert_eq!(state.mode, SqliteDatabaseStateMode::TABLE_SELECTION);
    assert_eq!(state.current_query, "SELECT 1");
    assert_eq!(state.current_query_cursor, (4, 0));
}

#[test]
fn other_keys_leave_the_editor_alone() {
    let mut state = editor("abc", 1);
    for key in [Key::Up, Key::Down, Key::Other] {
        assert_eq!(state.read_keys(&press(key)), Action::Idle);
        assert_eq!(state, editor("abc", 1));
    }
}

#[test]
fn a_cursor_behind_the_buffer_is_not_well_formed() {
    let state = editor("abc", 4);
    assert!(!state.is_wf());
    assert!(!state.accepts_key(&press(Key::Char('x'))));
    let mut state = editor("abc", 3);
    assert!(state.is_wf());
    state.current_query_cursor = (3, 1);
    assert!(!state.is_wf());
}
