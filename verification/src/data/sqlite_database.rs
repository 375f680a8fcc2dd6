//! The session: the table catalog, the selection, the query buffer and what
//! the last statement left behind.

use crate::data::row::{names_view, row_of, values_view};
use crate::data::sqlite_query::SqliteQueryResult;
use crate::data::sqlite_table::{is_internal, table_names, user_names, SqliteTable};
use crate::data::sqlite_value::SqliteValue;
use vstd::arithmetic::div_mod::{
    lemma_add_mod_noop, lemma_fundamental_div_mod, lemma_fundamental_div_mod_converse,
    lemma_mod_bound, lemma_mod_pos_bound, lemma_small_mod,
};
use vstd::prelude::*;
use vstd::string::*;

verus! {

/// Which pane takes the keys.
#[allow(non_camel_case_types)]
#[derive(Debug, Clone, Copy, PartialEq, Eq)]
pub enum SqliteDatabaseStateMode {
    /// The table list: arrows move the selection, Enter opens the table.
    TABLE_SELECTION,
    /// Reserved: nothing leads here yet.
    TABLE_OPTION_SELECTION,
    /// The query editor.
    QUERY_TOOL,
}

/// What can be done with a table besides a query. Reserved.
#[derive(Debug, Clone, Copy, PartialEq, Eq)]
pub enum TableOption {
    CREATE,
    CUSTOM,
}

/// The keys that the session tells apart.
#[derive(Debug, Clone, Copy, PartialEq, Eq)]
pub enum Key {
    Up,
    Down,
    Enter,
    Backspace,
    Esc,
    Char(char),
    /// Any other key.
    Other,
}

/// One key press: the key, and whether Control was held.
#[derive(Debug, Clone, Copy, PartialEq, Eq)]
pub struct KeyPress {
    pub code: Key,
    pub control: bool,
}

/// What the caller has to do after a key was handled.
#[derive(Debug, Clone, Copy, PartialEq, Eq)]
pub enum Action {
    /// Nothing.
    Idle,
    /// Run the statement in the query buffer and hand the reply to
    /// [`SqliteDatabaseState::execute`].
    Execute,
}

/// Why a statement left no result.
#[derive(Debug, PartialEq, Eq)]
pub enum EngineError {
    /// The text is no statement that the engine can prepare.
    ParseError(String),
    /// The engine prepared the statement and failed while running it.
    ExecutionError(String),
}

impl EngineError {
    /// The engine's own words.
    pub open spec fn message_view(&self) -> Seq<char> {
        match self {
            EngineError::ParseError(message) => message@,
            EngineError::ExecutionError(message) => message@,
        }
    }

    /// The engine's own words.
    pub fn message(&self) -> (message: String)
        ensures
            message@ == self.message_view(),
    {
        match self {
            EngineError::ParseError(message) => message.clone(),
            EngineError::ExecutionError(message) => message.clone(),
        }
    }
}

/// What the engine answered to one statement.
#[derive(Debug, PartialEq, Eq)]
pub enum EngineReply {
    /// The statement could not be prepared.
    Refused { message: String },
    /// A read-only statement ran: its column names, and the values of each row.
    Read { column_names: Vec<String>, rows: Vec<Vec<SqliteValue>> },
    /// A read-only statement failed, before its first row or between two rows.
    ReadFailed { message: String },
    /// A mutating statement ran and touched this many rows.
    Mutated { rows_affected: usize },
    /// A mutating statement failed.
    MutationFailed { message: String },
}

/// Whether every row has `width` values.
fn rows_fill(rows: &Vec<Vec<SqliteValue>>, width: usize) -> (ok: bool)
    ensures
        ok == forall|i: int| 0 <= i < rows@.len() ==> (#[trigger] rows@[i])@.len() == width,
{
    let mut at: usize = 0;
    while at < rows.len()
        invariant
            at <= rows@.len(),
            forall|i: int| 0 <= i < at ==> (#[trigger] rows@[i])@.len() == width,
        decreases rows@.len() - at,
    {
        if rows[at].len() != width {
            assert(rows@[at as int]@.len() != width);
            return false;
        }
        at = at + 1;
    }
    true
}

impl EngineReply {
    /// Every row has one value for each column.
    pub open spec fn wf(&self) -> bool {
        match self {
            EngineReply::Read { column_names, rows } => forall|i: int|
                0 <= i < rows@.len() ==> (#[trigger] rows@[i])@.len() == column_names@.len(),
            _ => true,
        }
    }

    /// Whether every row has one value for each column.
    pub fn is_wf(&self) -> (ok: bool)
        ensures
            ok == self.wf(),
    {
        match self {
            EngineReply::Read { column_names, rows } => rows_fill(rows, column_names.len()),
            _ => true,
        }
    }

    /// How the engine classified the statement: `Some(true)` read-only,
    /// `Some(false)` mutating, `None` where it never got that far.
    pub open spec fn classified_readonly(&self) -> Option<bool> {
        match self {
            EngineReply::Refused { .. } => None,
            EngineReply::Read { .. } => Some(true),
            EngineReply::ReadFailed { .. } => Some(true),
            EngineReply::Mutated { .. } => Some(false),
            EngineReply::MutationFailed { .. } => Some(false),
        }
    }
}

/// The state of one session.
#[derive(Debug, PartialEq)]
pub struct SqliteDatabaseState {
    pub tables: Vec<SqliteTable>,
    pub queried_table_state: Option<SqliteQueryResult>,
    pub current_query: String,
    /// Column and row of the cursor in the query buffer; the row is always 0.
    pub current_query_cursor: (usize, usize),
    pub selected_table: Option<usize>,
    pub selected_table_option: Option<TableOption>,
    pub error: Option<EngineError>,
    pub mode: SqliteDatabaseStateMode,
}

/// The index `x + delta` folded into `0 .. n`.
pub open spec fn wrap_index(x: int, delta: int, n: int) -> int
    recommends
        n >= 1,
{
    (((x + delta) % n) + n) % n
}

/// The selection after one arrow key over a catalog of `n` tables: nothing
/// moves over an empty catalog, the first press selects the first table, and
/// every later one steps by `delta` and wraps at both ends.
pub open spec fn moved_selection(selected: Option<usize>, delta: int, n: int) -> Option<usize> {
    if n <= 0 {
        selected
    } else {
        match selected {
            None => Some(0),
            Some(x) => Some(wrap_index(x as int, delta, n) as usize),
        }
    }
}

/// The selection after a run of arrow keys, each `1` (down) or `-1` (up),
/// that starts with nothing selected.
pub open spec fn selection_after(presses: Seq<int>, n: int) -> Option<usize>
    decreases presses.len(),
{
    if presses.len() == 0 {
        None
    } else {
        moved_selection(selection_after(presses.drop_last(), n), presses.last(), n)
    }
}

/// A selection held against a catalog of `n` tables: one that points behind
/// the last table is dropped.
pub open spec fn revalidated(selected: Option<usize>, n: int) -> Option<usize> {
    match selected {
        Some(index) if index >= n => None,
        _ => selected,
    }
}

/// The statement that previews the table `name`.
pub open spec fn preview_text(name: Seq<char>) -> Seq<char> {
    "SELECT * FROM "@ + name
}

/// A wrapped index is the remainder of the step, and lies in `0 .. n`.
pub proof fn lemma_wrap_index(x: int, delta: int, n: int)
    requires
        n >= 1,
    ensures
        wrap_index(x, delta, n) == (x + delta) % n,
        0 <= wrap_index(x, delta, n) < n,
{
    let r = (x + delta) % n;
    lemma_mod_bound(x + delta, n);
    lemma_fundamental_div_mod_converse(r + n, n, 1, r);
}

/// Folds `x` into the closed range from `min` to `max`: what is `k` places
/// above `max` lands `k` places above `min - 1`, and the other way round.
pub fn wrap_in_range(x: usize, min: usize, max: usize) -> (wrapped: usize)
    requires
        min <= max,
    ensures
        wrapped as int == min + (x - min) % (max - min + 1),
        min <= wrapped <= max,
{
    let span: usize = max - min;
    if x >= min {
        let offset: usize = x - min;
        if span == usize::MAX {
            proof {
                lemma_small_mod(offset as nat, (span + 1) as nat);
            }
            x
        } else {
            proof {
                lemma_mod_pos_bound(offset as int, span + 1);
            }
            min + offset % (span + 1)
        }
    } else {
        let range: usize = span + 1;
        let below: usize = (min - x) % range;
        proof {
            let d = min - x;
            let q = d / (range as int);
            lemma_fundamental_div_mod(d, range as int);
            lemma_mod_pos_bound(d, range as int);
            assert(d == range * q + below);
            if below == 0 {
                assert(x - min == (-q) * range + 0) by (nonlinear_arith)
                    requires
                        min - x == range * q,
                ;
                lemma_fundamental_div_mod_converse(x - min, range as int, -q, 0);
            } else {
                assert(x - min == (-q - 1) * range + (range - below)) by (nonlinear_arith)
                    requires
                        min - x == range * q + below,
                ;
                lemma_fundamental_div_mod_converse(x - min, range as int, -q - 1, range - below);
            }
        }
        if below == 0 {
            min
        } else {
            max - below + 1
        }
    }
}

/// The catalog of a database whose tables have these names: one table for
/// each name, in the order of the names, without the engine's own tables.
pub fn tables(names: Vec<String>) -> (catalog: Vec<SqliteTable>)
    ensures
        table_names(catalog@) == user_names(names_view(names@)),
{
    let ghost all = names_view(names@);
    let mut catalog: Vec<SqliteTable> = Vec::new();
    let mut at: usize = 0;
    assert(table_names(catalog@) =~= user_names(all.take(0)));
    while at < names.len()
        invariant
            at <= names@.len(),
            all == names_view(names@),
            table_names(catalog@) == user_names(all.take(at as int)),
        decreases names@.len() - at,
    {
        let ghost before = table_names(catalog@);
        proof {
            assert(all.take(at + 1).drop_last() =~= all.take(at as int));
            assert(all.take(at + 1).last() == names@[at as int]@);
        }
        if !is_internal(names[at].as_str()) {
            catalog.push(SqliteTable::new(names[at].clone()));
            assert(table_names(catalog@) =~= before.push(names@[at as int]@));
        }
        at = at + 1;
    }
    assert(all.take(at as int) =~= all);
    catalog
}

impl SqliteDatabaseState {
    /// The cursor stands inside the buffer or at its end, in row 0; a result
    /// and an error never stand together.
    pub open spec fn wf(&self) -> bool {
        &&& self.current_query_cursor.0 <= self.current_query@.len()
        &&& self.current_query_cursor.1 == 0
        &&& !(self.queried_table_state is Some && self.error is Some)
        &&& (self.queried_table_state matches Some(result) ==> result.wf())
    }

    /// Whether the last statement left rows.
    pub open spec fn holds_rows(&self) -> bool {
        self.queried_table_state matches Some(result) && result.rows_affected is None
    }

    /// Whether the last statement left the count of the rows it changed.
    pub open spec fn holds_count(&self) -> bool {
        self.queried_table_state matches Some(result) && result.rows_affected is Some
    }

    /// The selection, where there is one, names a table of the catalog.
    pub open spec fn selection_in_range(&self) -> bool {
        self.selected_table matches Some(index) ==> index < self.tables@.len()
    }

    /// A table can be opened without reading behind the catalog: the
    /// catalog is empty, so that nothing is opened, or the selection names
    /// one of its tables.
    pub open spec fn can_open(&self) -> bool {
        self.tables@.len() == 0 || self.selection_in_range()
    }

    /// Whether everything but the selection is as in `before`.
    pub open spec fn same_but_selection(&self, before: &Self) -> bool {
        &&& self.tables == before.tables
        &&& self.queried_table_state == before.queried_table_state
        &&& self.current_query == before.current_query
        &&& self.current_query_cursor == before.current_query_cursor
        &&& self.selected_table_option == before.selected_table_option
        &&& self.error == before.error
        &&& self.mode == before.mode
    }

    /// Whether everything but the query buffer and its cursor is as in `before`.
    pub open spec fn same_but_buffer(&self, before: &Self) -> bool {
        &&& self.tables == before.tables
        &&& self.queried_table_state == before.queried_table_state
        &&& self.selected_table == before.selected_table
        &&& self.selected_table_option == before.selected_table_option
        &&& self.error == before.error
        &&& self.mode == before.mode
    }

    /// Whether the state is `before` after the selected table was opened: the
    /// editor has the keys and holds the preview statement, the cursor behind it.
    pub open spec fn opened_from(&self, before: &Self) -> bool {
        let index = match before.selected_table {
            Some(index) => index as int,
            None => 0,
        };
        &&& self.tables == before.tables
        &&& self.queried_table_state == before.queried_table_state
        &&& self.selected_table == before.selected_table
        &&& self.selected_table_option == before.selected_table_option
        &&& self.error == before.error
        &&& self.mode == SqliteDatabaseStateMode::QUERY_TOOL
        &&& self.current_query@ == preview_text(before.tables@[index].name@)
        &&& self.current_query_cursor == (self.current_query@.len() as usize, 0usize)
    }

    /// A session over `tables`: the table list has the keys, nothing is
    /// selected, the buffer is empty, and no statement has run.
    pub fn new(tables: Vec<SqliteTable>) -> (state: Self)
        ensures
            state.wf(),
            state.tables == tables,
            state.queried_table_state is None,
            state.current_query@.len() == 0,
            state.current_query_cursor == (0usize, 0usize),
            state.selected_table is None,
            state.selected_table_option is None,
            state.error is None,
            state.mode == SqliteDatabaseStateMode::TABLE_SELECTION,
    {
        SqliteDatabaseState {
            tables,
            queried_table_state: None,
            current_query: String::new(),
            current_query_cursor: (0, 0),
            selected_table: None,
            selected_table_option: None,
            mode: SqliteDatabaseStateMode::TABLE_SELECTION,
            error: None,
        }
    }

    /// Moves the selection by one arrow key.
    fn move_selection(&mut self, down: bool)
        ensures
            final(self).same_but_selection(old(self)),
            final(self).selected_table == moved_selection(
                old(self).selected_table,
                if down {
                    1
                } else {
                    -1
                },
                old(self).tables@.len() as int,
            ),
    {
        let count: usize = self.tables.len();
        if count == 0 {
            return ;
        }
        match self.selected_table {
            None => {
                self.selected_table = Some(0);
            },
            Some(current_selected) => {
                let base: usize = current_selected % count;
                proof {
                    let x = current_selected as int;
                    let n = count as int;
                    lemma_mod_pos_bound(x, n);
                    if down {
                        lemma_wrap_index(x, 1, n);
                        if n == 1 {
                            lemma_fundamental_div_mod_converse(x + 1, n, x + 1, 0);
                            lemma_fundamental_div_mod_converse(base + 1, n, base + 1, 0);
                        } else {
                            lemma_small_mod(1, n as nat);
                            lemma_add_mod_noop(x, 1, n);
                        }
                    } else {
                        lemma_wrap_index(x, -1, n);
                        lemma_fundamental_div_mod(x, n);
                        let q = x / n;
                        if base == 0 {
                            assert(x - 1 == (q - 1) * n + (n - 1)) by (nonlinear_arith)
                                requires
                                    x == n * q,
                            ;
                            lemma_fundamental_div_mod_converse(x - 1, n, q - 1, n - 1);
                            lemma_fundamental_div_mod_converse(-1, n, -1, n - 1);
                        } else {
                            assert(x - 1 == q * n + (base - 1)) by (nonlinear_arith)
                                requires
                                    x == n * q + base,
                            ;
                            lemma_fundamental_div_mod_converse(x - 1, n, q, base - 1);
                            lemma_small_mod((base - 1) as nat, n as nat);
                        }
                    }
                }
                if down {
                    self.selected_table = Some(wrap_in_range(base + 1, 0, count - 1));
                } else {
                    self.selected_table = Some(wrap_in_range(base, 1, count) - 1);
                }
            },
        }
    }

    /// Puts a character at the cursor and moves the cursor behind it.
    fn insert_at_cursor(&mut self, c: char)
        requires
            old(self).wf(),
        ensures
            final(self).wf(),
            final(self).same_but_buffer(old(self)),
            final(self).current_query@ == old(self).current_query@.insert(
                old(self).current_query_cursor.0 as int,
                c,
            ),
            final(self).current_query_cursor == (
                (old(self).current_query_cursor.0 + 1) as usize,
                0usize,
            ),
            old(self).current_query_cursor.0 < usize::MAX,
    {
        let cursor: usize = self.current_query_cursor.0;
        let text = self.current_query.as_str();
        let len: usize = text.unicode_len();
        let mut edited = String::from_str(text.substring_char(0, cursor));
        edited.push(c);
        edited.append(text.substring_char(cursor, len));
        let edited_len: usize = edited.as_str().unicode_len();
        assert(edited@ =~= self.current_query@.insert(cursor as int, c));
        assert(edited_len == len + 1);
        self.current_query = edited;
        self.current_query_cursor = (cursor + 1, 0);
    }

    /// Takes out the character before the cursor and moves the cursor onto
    /// its place; at the start of the buffer nothing happens.
    fn delete_before_cursor(&mut self)
        requires
            old(self).wf(),
        ensures
            final(self).wf(),
            final(self).same_but_buffer(old(self)),
            old(self).current_query_cursor.0 == 0 ==> *final(self) == *old(self),
            old(self).current_query_cursor.0 > 0 ==> {
                &&& final(self).current_query@ == old(self).current_query@.remove(
                    old(self).current_query_cursor.0 - 1,
                )
                &&& final(self).current_query_cursor == (
                    (old(self).current_query_cursor.0 - 1) as usize,
                    0usize,
                )
            },
    {
        let cursor: usize = self.current_query_cursor.0;
        if cursor == 0 {
            return ;
        }
        let text = self.current_query.as_str();
        let len: usize = text.unicode_len();
        let mut edited = String::from_str(text.substring_char(0, cursor - 1));
        edited.append(text.substring_char(cursor, len));
        assert(edited@ =~= self.current_query@.remove(cursor - 1));
        self.current_query = edited;
        self.current_query_cursor = (cursor - 1, 0);
    }

    /// Whether this state and `action` are what one key makes of `before`.
    ///
    /// Over the table list, the arrows move the selection and Enter opens
    /// the selected table. In the editor, a character goes in at the cursor,
    /// Backspace takes out the one before it, Enter asks for the statement
    /// to be run, and Esc goes back to the table list with buffer and result
    /// as they are. Every other key leaves the state as it is.
    pub open spec fn handled(&self, before: &Self, event: KeyPress, action: Action) -> bool {
        match (before.mode, event.code) {
            (SqliteDatabaseStateMode::TABLE_SELECTION, Key::Up) => {
                &&& action == Action::Idle
                &&& self.same_but_selection(before)
                &&& self.selected_table == moved_selection(
                    before.selected_table,
                    -1,
                    before.tables@.len() as int,
                )
            },
            (SqliteDatabaseStateMode::TABLE_SELECTION, Key::Down) => {
                &&& action == Action::Idle
                &&& self.same_but_selection(before)
                &&& self.selected_table == moved_selection(
                    before.selected_table,
                    1,
                    before.tables@.len() as int,
                )
            },
            (SqliteDatabaseStateMode::TABLE_SELECTION, Key::Enter) => {
                if before.selected_table is Some && before.tables@.len() > 0 {
                    action == Action::Execute && self.opened_from(before)
                } else {
                    action == Action::Idle && *self == *before
                }
            },
            (SqliteDatabaseStateMode::QUERY_TOOL, Key::Char(c)) => {
                &&& action == Action::Idle
                &&& self.same_but_buffer(before)
                &&& self.current_query@ == before.current_query@.insert(
                    before.current_query_cursor.0 as int,
                    c,
                )
                &&& self.current_query_cursor.0 == before.current_query_cursor.0 + 1
            },
            (SqliteDatabaseStateMode::QUERY_TOOL, Key::Backspace) => {
                &&& action == Action::Idle
                &&& self.same_but_buffer(before)
                &&& if before.current_query_cursor.0 == 0 {
                    *self == *before
                } else {
                    &&& self.current_query@ == before.current_query@.remove(
                        before.current_query_cursor.0 - 1,
                    )
                    &&& self.current_query_cursor.0 == before.current_query_cursor.0
                        - 1
                }
            },
            (SqliteDatabaseStateMode::QUERY_TOOL, Key::Enter) => {
                action == Action::Execute && *self == *before
            },
            (SqliteDatabaseStateMode::QUERY_TOOL, Key::Esc) => {
                &&& action == Action::Idle
                &&& self.mode == SqliteDatabaseStateMode::TABLE_SELECTION
                &&& self.tables == before.tables
                &&& self.queried_table_state == before.queried_table_state
                &&& self.current_query == before.current_query
                &&& self.current_query_cursor == before.current_query_cursor
                &&& self.selected_table == before.selected_table
                &&& self.selected_table_option == before.selected_table_option
                &&& self.error == before.error
            },
            _ => action == Action::Idle && *self == *before,
        }
    }

    /// Whether the state can take this key: it is well formed, the reserved
    /// mode is not on, and Enter over the table list finds its selection
    /// inside the catalog, unless the catalog is empty.
    pub open spec fn accepts(&self, event: KeyPress) -> bool {
        &&& self.wf()
        &&& self.mode != SqliteDatabaseStateMode::TABLE_OPTION_SELECTION
        &&& (self.mode == SqliteDatabaseStateMode::TABLE_SELECTION && event.code == Key::Enter
            ==> self.can_open())
    }

    /// Whether the state is well formed.
    pub fn is_wf(&self) -> (ok: bool)
        ensures
            ok == self.wf(),
    {
        let len: usize = self.current_query.as_str().unicode_len();
        let exclusive = !(self.queried_table_state.is_some() && self.error.is_some());
        let result_ok = match &self.queried_table_state {
            Some(result) => result.rows_affected.is_none() || result.rows.len() == 0,
            None => true,
        };
        self.current_query_cursor.0 <= len && self.current_query_cursor.1 == 0 && exclusive
            && result_ok
    }

    /// Whether the state can take this key.
    pub fn accepts_key(&self, event: &KeyPress) -> (ok: bool)
        ensures
            ok == self.accepts(*event),
    {
        let in_range = match self.selected_table {
            Some(index) => self.tables.len() == 0 || index < self.tables.len(),
            None => true,
        };
        let wf = self.is_wf();
        match self.mode {
            SqliteDatabaseStateMode::TABLE_OPTION_SELECTION => false,
            SqliteDatabaseStateMode::TABLE_SELECTION => match event.code {
                Key::Enter => wf && in_range,
                _ => wf,
            },
            SqliteDatabaseStateMode::QUERY_TOOL => wf,
        }
    }

    /// Handles one key: see [`Self::handled`].
    pub fn read_keys(&mut self, event: &KeyPress) -> (action: Action)
        requires
            old(self).accepts(*event),
        ensures
            final(self).wf(),
            final(self).handled(old(self), *event, action),
    {
        match self.mode {
            SqliteDatabaseStateMode::TABLE_SELECTION => match event.code {
                Key::Up => {
                    self.move_selection(false);
                    Action::Idle
                },
                Key::Down => {
                    self.move_selection(true);
                    Action::Idle
                },
                Key::Enter => {
                    if self.selected_table.is_some() {
                        self.select_table()
                    } else {
                        Action::Idle
                    }
                },
                _ => Action::Idle,
            },
            SqliteDatabaseStateMode::QUERY_TOOL => match event.code {
                Key::Backspace => {
                    self.delete_before_cursor();
                    Action::Idle
                },
                Key::Enter => Action::Execute,
                Key::Char(c) => {
                    self.insert_at_cursor(c);
                    Action::Idle
                },
                Key::Esc => {
                    self.mode = SqliteDatabaseStateMode::TABLE_SELECTION;
                    Action::Idle
                },
                _ => Action::Idle,
            },
            SqliteDatabaseStateMode::TABLE_OPTION_SELECTION => Action::Idle,
        }
    }

    /// Whether this state is `before` after the engine's reply to the
    /// statement in the buffer was taken in. Whatever the last statement left
    /// is gone: a reply that failed leaves its error and no result, one that
    /// ran leaves its result and no error. Nothing else changes.
    pub open spec fn executed(&self, before: &Self, reply: EngineReply) -> bool {
        &&& self.tables == before.tables
        &&& self.current_query == before.current_query
        &&& self.current_query_cursor == before.current_query_cursor
        &&& self.selected_table == before.selected_table
        &&& self.selected_table_option == before.selected_table_option
        &&& self.mode == before.mode
        &&& match reply {
            EngineReply::Refused { message } => {
                &&& self.queried_table_state is None
                &&& self.error == Some(EngineError::ParseError(message))
            },
            EngineReply::Read { column_names, rows } => {
                &&& self.error is None
                &&& self.queried_table_state matches Some(result)
                &&& result.rows_affected is None
                &&& result.rows_view().len() == rows@.len()
                &&& forall|i: int|
                    0 <= i < rows@.len() ==> (#[trigger] result.rows_view()[i]) == row_of(
                        names_view(column_names@),
                        values_view(rows@[i]@),
                    )
            },
            EngineReply::ReadFailed { message } => {
                &&& self.queried_table_state is None
                &&& self.error == Some(EngineError::ExecutionError(message))
            },
            EngineReply::Mutated { rows_affected } => {
                &&& self.error is None
                &&& self.queried_table_state matches Some(result)
                &&& result.rows_affected == Some(rows_affected)
                &&& result.rows@.len() == 0
            },
            EngineReply::MutationFailed { message } => {
                &&& self.queried_table_state is None
                &&& self.error == Some(EngineError::ExecutionError(message))
            },
        }
    }

    /// Takes in the engine's reply to the statement in the buffer: see
    /// [`Self::executed`]. A statement that the engine classified as
    /// read-only never leaves a count, and one that it classified as
    /// mutating never leaves rows.
    pub fn execute(&mut self, reply: EngineReply)
        requires
            old(self).wf(),
            reply.wf(),
        ensures
            final(self).wf(),
            final(self).executed(old(self), reply),
            reply.classified_readonly() == Some(true) ==> !final(self).holds_count(),
            reply.classified_readonly() == Some(false) ==> !final(self).holds_rows(),
    {
        self.error = None;
        self.queried_table_state = None;
        match reply {
            EngineReply::Refused { message } => {
                self.error = Some(EngineError::ParseError(message));
            },
            EngineReply::Read { column_names, rows } => {
                self.queried_table_state = Some(SqliteQueryResult::new(rows, column_names));
            },
            EngineReply::ReadFailed { message } => {
                self.error = Some(EngineError::ExecutionError(message));
            },
            EngineReply::Mutated { rows_affected } => {
                self.queried_table_state = Some(SqliteQueryResult::mutated(rows_affected));
            },
            EngineReply::MutationFailed { message } => {
                self.error = Some(EngineError::ExecutionError(message));
            },
        }
    }

    /// Opens the selected table, or the first one where none is selected:
    /// the editor takes the keys and its buffer holds the statement that
    /// previews the table, which the caller is asked to run. Over an empty
    /// catalog nothing happens.
    pub fn select_table(&mut self) -> (action: Action)
        requires
            old(self).wf(),
            old(self).can_open(),
        ensures
            final(self).wf(),
            old(self).tables@.len() == 0 ==> action == Action::Idle && *final(self) == *old(self),
            old(self).tables@.len() > 0 ==> action == Action::Execute && final(self).opened_from(
                old(self),
            ),
    {
        if self.tables.len() == 0 {
            return Action::Idle;
        }
        self.mode = SqliteDatabaseStateMode::QUERY_TOOL;
        let index: usize = match self.selected_table {
            Some(index) => index,
            None => 0,
        };
        let mut statement = String::from_str("SELECT * FROM ");
        statement.append(self.tables[index].name.as_str());
        let len: usize = statement.as_str().unicode_len();
        self.current_query = statement;
        self.current_query_cursor = (len, 0);
        Action::Execute
    }

    /// Replaces the catalog. The selection stays as it is, so it may point
    /// behind the last table afterwards.
    pub fn sync(&mut self, tables: Vec<SqliteTable>)
        ensures
            final(self).tables == tables,
            final(self).queried_table_state == old(self).queried_table_state,
            final(self).current_query == old(self).current_query,
            final(self).current_query_cursor == old(self).current_query_cursor,
            final(self).selected_table == old(self).selected_table,
            final(self).selected_table_option == old(self).selected_table_option,
            final(self).error == old(self).error,
            final(self).mode == old(self).mode,
            old(self).wf() ==> final(self).wf(),
    {
        self.tables = tables;
    }

    /// Drops a selection that points behind the last table; one that names
    /// a table of the catalog stays.
    pub fn revalidate_selection(&mut self)
        ensures
            final(self).same_but_selection(old(self)),
            final(self).selected_table == revalidated(
                old(self).selected_table,
                old(self).tables@.len() as int,
            ),
            final(self).selection_in_range(),
            old(self).wf() ==> final(self).wf(),
    {
        if let Some(index) = self.selected_table {
            if index >= self.tables.len() {
                self.selected_table = None;
            }
        }
    }
}

/// After one arrow key or more over a catalog that is not empty, a table of
/// the catalog is selected, whichever way the arrows went.
pub proof fn lemma_selection_stays_in_range(presses: Seq<int>, n: int)
    requires
        1 <= n <= usize::MAX,
        presses.len() >= 1,
    ensures
        selection_after(presses, n) matches Some(index) && index < n,
    decreases presses.len(),
{
    let earlier = selection_after(presses.drop_last(), n);
    if presses.len() > 1 {
        lemma_selection_stays_in_range(presses.drop_last(), n);
    }
    if let Some(x) = earlier {
        lemma_wrap_index(x as int, presses.last(), n);
    }
}

/// Down from the last table leads to the first, and up from the first to the last.
pub proof fn lemma_selection_wraps(n: int)
    requires
        1 <= n <= usize::MAX,
    ensures
        moved_selection(Some((n - 1) as usize), 1, n) == Some(0usize),
        moved_selection(Some(0usize), -1, n) == Some((n - 1) as usize),
{
    lemma_wrap_index(n - 1, 1, n);
    lemma_wrap_index(0, -1, n);
    lemma_fundamental_div_mod_converse(n, n, 1, 0);
    lemma_fundamental_div_mod_converse(-1, n, -1, n - 1);
}

/// A character put into a text and taken out again leaves the text as it was.
pub proof fn lemma_insert_then_remove(text: Seq<char>, cursor: int, c: char)
    requires
        0 <= cursor <= text.len(),
    ensures
        text.insert(cursor, c).remove(cursor) == text,
{
    assert(text.insert(cursor, c).remove(cursor) =~= text);
}

/// In the editor, a character key followed by Backspace leaves the buffer
/// and the cursor where they were.
pub proof fn lemma_type_then_backspace(
    start: &SqliteDatabaseState,
    typed: &SqliteDatabaseState,
    erased: &SqliteDatabaseState,
    c: char,
    control: bool,
)
    requires
        start.wf(),
        typed.wf(),
        erased.wf(),
        start.mode == SqliteDatabaseStateMode::QUERY_TOOL,
        typed.handled(start, KeyPress { code: Key::Char(c), control }, Action::Idle),
        erased.handled(typed, KeyPress { code: Key::Backspace, control }, Action::Idle),
    ensures
        erased.current_query@ == start.current_query@,
        erased.current_query_cursor == start.current_query_cursor,
{
    lemma_insert_then_remove(start.current_query@, start.current_query_cursor.0 as int, c);
}

/// Over a catalog that is not empty, an arrow key always leaves a table of
/// the catalog selected, wherever the selection stood before.
pub proof fn lemma_arrow_selects_a_table(
    before: &SqliteDatabaseState,
    after: &SqliteDatabaseState,
    event: KeyPress,
    action: Action,
)
    requires
        before.mode == SqliteDatabaseStateMode::TABLE_SELECTION,
        event.code == Key::Up || event.code == Key::Down,
        before.tables@.len() >= 1,
        after.handled(before, event, action),
    ensures
        after.selected_table matches Some(index) && index < after.tables@.len(),
{
    let n = before.tables@.len() as int;
    if let Some(x) = before.selected_table {
        lemma_wrap_index(x as int, 1, n);
        lemma_wrap_index(x as int, -1, n);
    }
}

/// No key leads into the reserved mode.
pub proof fn lemma_reserved_mode_unreachable(
    before: &SqliteDatabaseState,
    after: &SqliteDatabaseState,
    event: KeyPress,
    action: Action,
)
    requires
        before.mode != SqliteDatabaseStateMode::TABLE_OPTION_SELECTION,
        after.handled(before, event, action),
    ensures
        after.mode != SqliteDatabaseStateMode::TABLE_OPTION_SELECTION,
{
}

/// Opening a table and taking in the engine's reply to its preview leaves
/// the editor with the preview statement and, unless the engine classified
/// that statement as mutating, either the rows that it read and no error, or
/// an error and no result: never a count.
pub proof fn lemma_opened_table_shows_rows_or_error(
    start: &SqliteDatabaseState,
    opened: &SqliteDatabaseState,
    shown: &SqliteDatabaseState,
    control: bool,
    reply: EngineReply,
)
    requires
        start.mode == SqliteDatabaseStateMode::TABLE_SELECTION,
        start.selected_table matches Some(index) && index < start.tables@.len(),
        opened.handled(start, KeyPress { code: Key::Enter, control }, Action::Execute),
        shown.executed(opened, reply),
        reply.classified_readonly() != Some(false),
    ensures
        shown.mode == SqliteDatabaseStateMode::QUERY_TOOL,
        shown.current_query@ == preview_text(
            start.tables@[start.selected_table->0 as int].name@,
        ),
        !shown.holds_count(),
        (shown.error is None && shown.holds_rows()) || (shown.error is Some
            && shown.queried_table_state is None),
        reply matches EngineReply::Read { column_names, rows } ==> {
            &&& shown.error is None
            &&& shown.queried_table_state matches Some(result)
            &&& result.rows_view().len() == rows@.len()
            &&& forall|i: int|
                0 <= i < rows@.len() ==> (#[trigger] result.rows_view()[i]) == row_of(
                    names_view(column_names@),
                    values_view(rows@[i]@),
                )
        },
{
}

} // verus!
