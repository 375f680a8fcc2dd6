use sqlite_browser::data::sqlite_database::{
    tables, EngineError, EngineReply, SqliteDatabaseState, SqliteDatabaseStateMode,
};
use sqlite_browser::data::sqlite_query::SqliteQueryResult;
use sqlite_browser::data::sqlite_value::SqliteValue;
use sqlite_browser::tui::widgets::database_state::{
    format_row, header_row, ResultPane, TableListItem, MAX_SPACING,
};
use sqlite_browser::tui::widgets::highlight::{highlight, SpanStyle, StyledSpan};

fn names(columns: &[&str]) -> Vec<String> {
    columns.iter().map(|c| c.to_string()).collect()
}

fn state() -> SqliteDatabaseState {
    SqliteDatabaseState::new(tables(names(&["users", "orders"])))
}

fn span(content: &str, style: SpanStyle) -> StyledSpan {
    StyledSpan { content: content.to_string(), style }
}

fn item(name: &str, selected: bool, accented: bool) -> TableListItem {
    TableListItem { name: name.to_string(), selected, accented }
}

fn cell(content: &str) -> String {
    format!("{:<29}|", content)
}

#[test]
fn a_fresh_session_highlights_the_table_list() {
    let state = state();
    let layout = state.widget().render();
    assert!(layout.list_highlighted);
    assert!(!layout.query_highlighted);
    assert_eq!(layout.tables, vec![item("users", false, false), item("orders", false, false)]);
    assert_eq!(layout.query, vec![span("█", SpanStyle::EndCursor)]);
    assert_eq!(layout.result, ResultPane::Empty);
}

#[test]
fn the_selected_table_is_marked() {
    let mut state = state();
    state.selected_table = Some(1);
    let layout = state.widget().render();
    assert_eq!(layout.tables, vec![item("users", false, false), item("orders", true, false)]);
}

#[test]
fn the_selection_stays_visible_while_editing() {
    let mut state = state();
    state.selected_table = Some(0);
    state.mode = SqliteDatabaseStateMode::QUERY_TOOL;
    let layout = state.widget().render();
    assert!(!layout.list_highlighted);
    assert!(layout.query_highlighted);
    assert_eq!(layout.tables, vec![item("users", true, true), item("orders", false, false)]);
}

#[test]
fn a_stale_selection_marks_nothing() {
    let mut state = state();
    state.selected_table = Some(2);
    let layout = state.widget().render();
    assert_eq!(layout.tables, vec![item("users", false, false), item("orders", false, false)]);
}

#[test]
fn the_reserved_mode_highlights_no_border() {
    let mut state = state();
    state.mode = SqliteDatabaseStateMode::TABLE_OPTION_SELECTION;
    let layout = state.widget().render();
    assert!(!layout.list_highlighted);
    assert!(!layout.query_highlighted);
}

#[test]
fn the_editor_shows_the_highlighted_buffer() {
    let mut state = state();
    state.mode = SqliteDatabaseStateMode::QUERY_TOOL;
    state.current_query = "SELECT * FROM users".to_string();
    state.current_query_cursor = (3, 0);
    let layout = state.widget().render();
    assert_eq!(layout.query, highlight("SELECT * FROM users", 3, &state.tables));
    assert_eq!(layout.query[0], span("SEL", SpanStyle::Keyword));
    assert_eq!(layout.query[1], span("E", SpanStyle::Cursor));
    assert_eq!(layout.query[2], span("CT", SpanStyle::Keyword));
    assert_eq!(layout.query[8], span("users", SpanStyle::TableName));
}

#[test]
fn an_error_is_shown_with_its_marker() {
    let mut state = state();
    state.execute(EngineReply::Refused { message: "near \"SELEC\": syntax error".to_string() });
    let layout = state.widget().render();
    assert_eq!(
        layout.result,
        ResultPane::Line(vec![
            span("ERROR", SpanStyle::Failure),
            span(": ", SpanStyle::Plain),
            span("near \"SELEC\": syntax error", SpanStyle::Plain),
        ])
    );
}

#[test]
fn an_error_goes_before_a_stale_result() {
    let mut state = state();
    state.queried_table_state = Some(SqliteQueryResult::mutated(2));
    state.error = Some(EngineError::ExecutionError("no such table: x".to_string()));
    let layout = state.widget().render();
    assert_eq!(
        layout.result,
        ResultPane::Line(vec![
            span("ERROR", SpanStyle::Failure),
            span(": ", SpanStyle::Plain),
            span("no such table: x", SpanStyle::Plain),
        ])
    );
}

#[test]
fn a_mutation_shows_its_count() {
    let mut state = state();
    state.execute(EngineReply::Mutated { rows_affected: 12 });
    assert_eq!(
        state.widget().render().result,
        ResultPane::Paragraph("QUERY OK: 12 rows affected".to_string())
    );
    state.execute(EngineReply::Mutated { rows_affected: 0 });
    assert_eq!(
        state.widget().render().result,
        ResultPane::Paragraph("QUERY OK: 0 rows affected".to_string())
    );
}

#[test]
fn a_statement_without_rows_shows_a_line_of_its_own() {
    let mut state = state();
    state.execute(EngineReply::Read { column_names: names(&["id"]), rows: Vec::new() });
    assert_eq!(
        state.widget().render().result,
        ResultPane::Line(vec![
            span("QUERY ", SpanStyle::Plain),
            span("OK", SpanStyle::Success),
            span(": 0 Rows returned", SpanStyle::Plain),
        ])
    );
}

#[test]
fn rows_are_shown_as_a_table() {
    let mut state = state();
    state.execute(EngineReply::Read {
        column_names: names(&["id", "name", "score", "photo", "note"]),
        rows: vec![
            vec![
                SqliteValue::Integer(1),
                SqliteValue::Text("ann".to_string()),
                SqliteValue::Real("9.5".to_string()),
                SqliteValue::Blob(vec![1, 2]),
                SqliteValue::Null,
            ],
            vec![
                SqliteValue::Integer(-2),
                SqliteValue::Text("".to_string()),
                SqliteValue::Real("0".to_string()),
                SqliteValue::Blob(Vec::new()),
                SqliteValue::Text("a note that is longer than the column".to_string()),
            ],
        ],
    });
    assert_eq!(
        state.widget().render().result,
        ResultPane::Table {
            header: names(&["id", "name", "score", "photo", "note"]),
            rows: vec![
                vec![cell("1"), cell("ann"), cell("9.5"), cell("$$BIN$$"), cell("NULL")],
                vec![
                    cell("-2"),
                    cell(""),
                    cell("0"),
                    cell("$$BIN$$"),
                    "a note that is longer than th|".to_string(),
                ],
            ],
        }
    );
}

#[test]
fn every_cell_has_the_column_width() {
    let result = SqliteQueryResult::new(
        vec![vec![
            SqliteValue::Text("x".repeat(29)),
            SqliteValue::Text("y".repeat(30)),
            SqliteValue::Text("ä".repeat(40)),
            SqliteValue::Integer(i64::MIN),
        ]],
        names(&["a", "b", "c", "d"]),
    );
    let cells = format_row(&result.rows[0]);
    assert_eq!(cells.len(), 4);
    for cell in &cells {
        assert_eq!(cell.chars().count(), MAX_SPACING);
        assert!(cell.ends_with('|'));
    }
    assert_eq!(cells[0], format!("{}|", "x".repeat(29)));
    assert_eq!(cells[1], format!("{}|", "y".repeat(29)));
    assert_eq!(cells[2], format!("{}|", "ä".repeat(29)));
    assert_eq!(cells[3], format!("{}         |", i64::MIN));
}

#[test]
fn the_header_follows_the_first_row() {
    let result = SqliteQueryResult::new(
        vec![vec![SqliteValue::Integer(1), SqliteValue::Integer(2), SqliteValue::Integer(3)]],
        names(&["b", "a", "b"]),
    );
    assert_eq!(header_row(&result.rows[0]), names(&["b", "a"]));
    assert_eq!(format_row(&result.rows[0]), vec![cell("3"), cell("2")]);
}

#[test]
fn render_leaves_the_state_alone() {
    let mut state = state();
    state.selected_table = Some(1);
    state.current_query = "SELECT 1".to_string();
    state.current_query_cursor = (8, 0);
    state.execute(EngineReply::Mutated { rows_affected: 1 });
    let first = state.widget().render();
    let second = state.widget().render();
    assert_eq!(first, second);
    assert_eq!(state.current_query, "SELECT 1");
    assert_eq!(state.selected_table, Some(1));
}
