//! The frame of a session: the table list, the query editor and the result
//! area, computed from the state without changing it.

use crate::data::row::{row_entries, row_items, row_keys, Entry};
use crate::data::sqlite_database::{SqliteDatabaseState, SqliteDatabaseStateMode};
use crate::data::sqlite_value::{value_text, SqliteValue, SqliteValueView};
use crate::text::{fit, fit_text, format_nat, nat_text};
use crate::data::sqlite_table::table_names;
use crate::tui::widgets::highlight::{
    cursor_count, highlight, highlight_spans, lemma_highlight_draws_the_cursor, spans_view,
    SpanStyle, StyledSpan, StyledSpanView,
};
use indexmap::IndexMap;
use vstd::prelude::*;
use vstd::string::*;

verus! {

/// The width of a column of the result table, its delimiter included.
pub const MAX_SPACING: usize = 30;

/// One line of the table list.
#[derive(Debug, PartialEq, Eq)]
pub struct TableListItem {
    pub name: String,
    /// The selected table is drawn inverted.
    pub selected: bool,
    /// While the editor has the keys, the selected table is drawn in the
    /// accent colour as well.
    pub accented: bool,
}

/// The mathematical content of a [`TableListItem`].
pub struct TableListItemView {
    pub name: Seq<char>,
    pub selected: bool,
    pub accented: bool,
}

impl View for TableListItem {
    type V = TableListItemView;

    open spec fn view(&self) -> TableListItemView {
        TableListItemView { name: self.name@, selected: self.selected, accented: self.accented }
    }
}

/// What the area below the editor shows.
#[derive(Debug, PartialEq, Eq)]
pub enum ResultPane {
    /// Nothing: no statement has run.
    Empty,
    /// One line of styled spans.
    Line(Vec<StyledSpan>),
    /// A plain text.
    Paragraph(String),
    /// A bordered table: the column names, and the cells of each row.
    Table { header: Vec<String>, rows: Vec<Vec<String>> },
}

/// The mathematical content of a [`ResultPane`].
pub enum ResultPaneView {
    Empty,
    Line(Seq<StyledSpanView>),
    Paragraph(Seq<char>),
    Table { header: Seq<Seq<char>>, rows: Seq<Seq<Seq<char>>> },
}

/// The characters of each text.
pub open spec fn texts_view(texts: Seq<String>) -> Seq<Seq<char>> {
    Seq::new(texts.len(), |i: int| texts[i]@)
}

/// The characters of each cell of each row.
pub open spec fn grid_view(rows: Seq<Vec<String>>) -> Seq<Seq<Seq<char>>> {
    Seq::new(rows.len(), |i: int| texts_view(rows[i]@))
}

/// The content of each item.
pub open spec fn items_view(items: Seq<TableListItem>) -> Seq<TableListItemView> {
    Seq::new(items.len(), |i: int| items[i]@)
}

impl View for ResultPane {
    type V = ResultPaneView;

    open spec fn view(&self) -> ResultPaneView {
        match self {
            ResultPane::Empty => ResultPaneView::Empty,
            ResultPane::Line(spans) => ResultPaneView::Line(spans_view(spans@)),
            ResultPane::Paragraph(text) => ResultPaneView::Paragraph(text@),
            ResultPane::Table { header, rows } => ResultPaneView::Table {
                header: texts_view(header@),
                rows: grid_view(rows@),
            },
        }
    }
}

/// The three panes of a frame.
#[derive(Debug, PartialEq, Eq)]
pub struct DatabaseLayout {
    /// Whether the border of the table list is highlighted.
    pub list_highlighted: bool,
    pub tables: Vec<TableListItem>,
    /// Whether the border of the query editor is highlighted.
    pub query_highlighted: bool,
    pub query: Vec<StyledSpan>,
    pub result: ResultPane,
}

/// The line of the table list for the table at `index`.
pub open spec fn list_item(state: &SqliteDatabaseState, index: int) -> TableListItemView {
    let selected = state.selected_table matches Some(chosen) && chosen == index;
    TableListItemView {
        name: state.tables@[index].name@,
        selected,
        accented: selected && state.mode == SqliteDatabaseStateMode::QUERY_TOOL,
    }
}

/// The lines of the table list.
pub open spec fn table_list(state: &SqliteDatabaseState) -> Seq<TableListItemView> {
    Seq::new(state.tables@.len(), |i: int| list_item(state, i))
}

/// A cell of the result table: the value's text cut or filled to one less
/// than the column width, then the delimiter.
pub open spec fn cell_text(value: SqliteValueView) -> Seq<char> {
    fit_text(value_text(value), (MAX_SPACING - 1) as nat).push('|')
}

/// The cells of a row.
pub open spec fn row_cells(entries: Seq<Entry>) -> Seq<Seq<char>> {
    Seq::new(entries.len(), |j: int| cell_text(entries[j].1))
}

/// The column names of a row.
pub open spec fn row_header(entries: Seq<Entry>) -> Seq<Seq<char>> {
    Seq::new(entries.len(), |j: int| entries[j].0)
}

/// The line that reports an error.
pub open spec fn error_line(message: Seq<char>) -> Seq<StyledSpanView> {
    seq![
        StyledSpanView { content: "ERROR"@, style: SpanStyle::Failure },
        StyledSpanView { content: ": "@, style: SpanStyle::Plain },
        StyledSpanView { content: message, style: SpanStyle::Plain },
    ]
}

/// The line that reports a statement without rows.
pub open spec fn no_rows_line() -> Seq<StyledSpanView> {
    seq![
        StyledSpanView { content: "QUERY "@, style: SpanStyle::Plain },
        StyledSpanView { content: "OK"@, style: SpanStyle::Success },
        StyledSpanView { content: ": 0 Rows returned"@, style: SpanStyle::Plain },
    ]
}

/// The text that reports how many rows a statement changed.
pub open spec fn affected_text(affected: nat) -> Seq<char> {
    "QUERY OK: "@ + nat_text(affected) + " rows affected"@
}

/// What the result area shows: an error before anything else; the count of
/// a mutating statement; the table of a statement with rows, headed by the
/// column names of its first row; a line of its own for one without rows.
pub open spec fn result_pane(state: &SqliteDatabaseState) -> ResultPaneView {
    match state.error {
        Some(error) => ResultPaneView::Line(error_line(error.message_view())),
        None => match state.queried_table_state {
            None => ResultPaneView::Empty,
            Some(queried) => match queried.rows_affected {
                Some(affected) => ResultPaneView::Paragraph(affected_text(affected as nat)),
                None => if queried.rows@.len() > 0 {
                    ResultPaneView::Table {
                        header: row_header(queried.rows_view()[0]),
                        rows: Seq::new(
                            queried.rows@.len(),
                            |i: int| row_cells(queried.rows_view()[i]),
                        ),
                    }
                } else {
                    ResultPaneView::Line(no_rows_line())
                },
            },
        },
    }
}

/// The view of a session that draws it.
pub struct SqliteDatabaseStateWidget<'a> {
    database_state: &'a SqliteDatabaseState,
}

impl SqliteDatabaseState {
    /// The widget that draws this state.
    pub fn widget(&self) -> (widget: SqliteDatabaseStateWidget<'_>)
        ensures
            widget.state() == self,
    {
        SqliteDatabaseStateWidget { database_state: self }
    }
}

/// The cells of one row of the result table.
pub fn format_row(row: &IndexMap<String, SqliteValue>) -> (cells: Vec<String>)
    ensures
        texts_view(cells@) == row_cells(row_entries(*row)),
{
    let items = row_items(row);
    let mut cells: Vec<String> = Vec::new();
    let mut at: usize = 0;
    while at < items.len()
        invariant
            at <= items@.len(),
            items@.len() == row_entries(*row).len(),
            forall|i: int|
                0 <= i < items@.len() ==> (#[trigger] items@[i]).1@ == row_entries(*row)[i].1,
            cells@.len() == at,
            forall|i: int|
                0 <= i < at ==> (#[trigger] cells@[i])@ == cell_text(row_entries(*row)[i].1),
        decreases items@.len() - at,
    {
        let content = items[at].1.display_text();
        let mut cell = fit(content.as_str(), MAX_SPACING - 1);
        cell.push('|');
        cells.push(cell);
        at = at + 1;
    }
    assert(texts_view(cells@) =~= row_cells(row_entries(*row)));
    cells
}

/// The column names of one row.
pub fn header_row(row: &IndexMap<String, SqliteValue>) -> (header: Vec<String>)
    ensures
        texts_view(header@) == row_header(row_entries(*row)),
{
    let keys = row_keys(row);
    let mut header: Vec<String> = Vec::new();
    let mut at: usize = 0;
    while at < keys.len()
        invariant
            at <= keys@.len(),
            keys@.len() == row_entries(*row).len(),
            forall|i: int|
                0 <= i < keys@.len() ==> (#[trigger] keys@[i])@ == row_entries(*row)[i].0,
            header@.len() == at,
            forall|i: int| 0 <= i < at ==> (#[trigger] header@[i])@ == row_entries(*row)[i].0,
        decreases keys@.len() - at,
    {
        header.push(keys[at].clone());
        at = at + 1;
    }
    assert(texts_view(header@) =~= row_header(row_entries(*row)));
    header
}

impl<'a> SqliteDatabaseStateWidget<'a> {
    /// The state that is drawn.
    pub closed spec fn state(&self) -> &SqliteDatabaseState {
        self.database_state
    }

    /// The lines of the table list.
    fn render_list(&self) -> (items: Vec<TableListItem>)
        ensures
            items_view(items@) == table_list(self.state()),
    {
        let state = self.database_state;
        let mut items: Vec<TableListItem> = Vec::new();
        let mut at: usize = 0;
        while at < state.tables.len()
            invariant
                at <= state.tables@.len(),
                state == self.state(),
                items@.len() == at,
                forall|i: int| 0 <= i < at ==> (#[trigger] items@[i])@ == list_item(state, i),
            decreases state.tables@.len() - at,
        {
            let selected = match state.selected_table {
                Some(chosen) => chosen == at,
                None => false,
            };
            let accented = match state.mode {
                SqliteDatabaseStateMode::QUERY_TOOL => selected,
                _ => false,
            };
            items.push(TableListItem { name: state.tables[at].name.clone(), selected, accented });
            at = at + 1;
        }
        assert(items_view(items@) =~= table_list(state));
        items
    }

    /// What the result area shows.
    fn render_result(&self) -> (pane: ResultPane)
        ensures
            pane@ == result_pane(self.state()),
    {
        let state = self.database_state;
        if let Some(error) = &state.error {
            let mut line: Vec<StyledSpan> = Vec::new();
            line.push(StyledSpan { content: String::from_str("ERROR"), style: SpanStyle::Failure });
            line.push(StyledSpan { content: String::from_str(": "), style: SpanStyle::Plain });
            line.push(StyledSpan { content: error.message(), style: SpanStyle::Plain });
            assert(spans_view(line@) =~= error_line(error.message_view()));
            return ResultPane::Line(line);
        }
        match &state.queried_table_state {
            None => ResultPane::Empty,
            Some(queried) => {
                if let Some(affected) = queried.rows_affected {
                    let mut text = String::from_str("QUERY OK: ");
                    text.append(format_nat(affected as u64).as_str());
                    text.append(" rows affected");
                    ResultPane::Paragraph(text)
                } else if queried.rows.len() > 0 {
                    let mut rows: Vec<Vec<String>> = Vec::new();
                    let mut at: usize = 0;
                    while at < queried.rows.len()
                        invariant
                            at <= queried.rows@.len(),
                            rows@.len() == at,
                            forall|i: int|
                                0 <= i < at ==> texts_view((#[trigger] rows@[i])@) == row_cells(
                                    queried.rows_view()[i],
                                ),
                        decreases queried.rows@.len() - at,
                    {
                        rows.push(format_row(&queried.rows[at]));
                        at = at + 1;
                    }
                    let header = header_row(&queried.rows[0]);
                    assert(grid_view(rows@) =~= Seq::new(
                        queried.rows@.len(),
                        |i: int| row_cells(queried.rows_view()[i]),
                    ));
                    ResultPane::Table { header, rows }
                } else {
                    let mut line: Vec<StyledSpan> = Vec::new();
                    line.push(
                        StyledSpan { content: String::from_str("QUERY "), style: SpanStyle::Plain },
                    );
                    line.push(
                        StyledSpan { content: String::from_str("OK"), style: SpanStyle::Success },
                    );
                    line.push(
                        StyledSpan {
                            content: String::from_str(": 0 Rows returned"),
                            style: SpanStyle::Plain,
                        },
                    );
                    assert(spans_view(line@) =~= no_rows_line());
                    ResultPane::Line(line)
                }
            },
        }
    }

    /// The frame of the state. The border of the pane that has the keys is
    /// highlighted; the table list marks the selected table; the editor shows
    /// the highlighted buffer with its cursor, which a well-formed state
    /// draws exactly once; the result area shows the last error, or else
    /// what the last statement gave.
    pub fn render(&self) -> (layout: DatabaseLayout)
        ensures
            layout.list_highlighted == (self.state().mode
                == SqliteDatabaseStateMode::TABLE_SELECTION),
            layout.query_highlighted == (self.state().mode == SqliteDatabaseStateMode::QUERY_TOOL),
            items_view(layout.tables@) == table_list(self.state()),
            spans_view(layout.query@) == highlight_spans(
                self.state().current_query@,
                self.state().current_query_cursor.0 as int,
                table_names(self.state().tables@),
            ),
            layout.result@ == result_pane(self.state()),
            self.state().wf() ==> cursor_count(spans_view(layout.query@)) == 1,
    {
        let state = self.database_state;
        proof {
            if state.wf() {
                lemma_highlight_draws_the_cursor(
                    state.current_query@,
                    state.current_query_cursor.0 as int,
                    table_names(state.tables@),
                );
            }
        }
        let list_highlighted = match state.mode {
            SqliteDatabaseStateMode::TABLE_SELECTION => true,
            _ => false,
        };
        let query_highlighted = match state.mode {
            SqliteDatabaseStateMode::QUERY_TOOL => true,
            _ => false,
        };
        let tables = self.render_list();
        let query = highlight(
            state.current_query.as_str(),
            state.current_query_cursor.0,
            &state.tables,
        );
        let result = self.render_result();
        DatabaseLayout { list_highlighted, tables, query_highlighted, query, result }
    }
}

} // verus!
