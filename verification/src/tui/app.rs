//! The state behind the frame loop, and what the loop decides from it: when
//! to quit, when to refresh the catalog, and what the footer says.

use crate::data::sqlite_database::{
    revalidated, Action, Key, KeyPress, SqliteDatabaseState, SqliteDatabaseStateMode,
};
use crate::data::sqlite_table::SqliteTable;
use humantime::format_duration;
use std::time::Duration;
use vstd::prelude::*;
use vstd::string::*;

verus! {

/// The nanoseconds in a second.
pub const NANOS_PER_SEC: u64 = 1_000_000_000;

/// What the loop does after a key.
#[derive(Debug, Clone, Copy, PartialEq, Eq)]
pub struct FrameStep {
    /// Whether another frame is to be drawn.
    pub render_next: bool,
    /// What the session asks for.
    pub action: Action,
}

/// The session with the timing of its catalog. Times are nanoseconds on a
/// clock of the caller's that never runs backwards.
#[derive(Debug, PartialEq)]
pub struct AppState {
    /// The seconds between two refreshes of the catalog.
    pub sync_rate: u16,
    /// When the catalog was last refreshed.
    pub last_sync: u64,
    pub database_state: SqliteDatabaseState,
}

/// A span of whole seconds in words, as `humantime` writes it.
pub uninterp spec fn duration_text(secs: nat) -> Seq<char>;

/// Whether the key asks to quit: `q` with Control held.
pub open spec fn quits(event: KeyPress) -> bool {
    event.code == Key::Char('q') && event.control
}

/// The time from `since` to `now`; none where the clock ran backwards.
pub open spec fn elapsed(since: u64, now: u64) -> nat {
    if now >= since {
        (now - since) as nat
    } else {
        0
    }
}

/// The line at the foot of the frame.
pub open spec fn footer_line(elapsed_secs: nat, name: Seq<char>, path: Seq<char>) -> Seq<char> {
    "Last sync: "@ + duration_text(elapsed_secs) + " ago | Database name: "@ + name
        + " | Database path: "@ + path
}

/// Whether `at` is the place of the first full stop in `text`.
pub open spec fn first_stop(text: Seq<char>, at: int) -> bool {
    &&& 0 <= at < text.len()
    &&& text[at] == '.'
    &&& forall|j: int| 0 <= j < at ==> text[j] != '.'
}

/// Whether the text holds a full stop.
pub open spec fn has_stop(text: Seq<char>) -> bool {
    exists|at: int| first_stop(text, at)
}

/// The name of the database in the file `file_name`: the file name up to
/// its first full stop, or all of it where it has none.
pub open spec fn name_of(file_name: Seq<char>) -> Seq<char> {
    if has_stop(file_name) {
        file_name.take(choose|at: int| first_stop(file_name, at))
    } else {
        file_name
    }
}

/// The name that the footer shows: that of the file, or none where the path
/// ends in no file name.
pub open spec fn shown_name(file_name: Option<Seq<char>>) -> Seq<char> {
    match file_name {
        Some(file_name) => name_of(file_name),
        None => Seq::empty(),
    }
}

/// The name of a file ends at its first full stop, wherever that is found.
pub proof fn lemma_first_stop(text: Seq<char>, at: int)
    requires
        first_stop(text, at),
    ensures
        has_stop(text),
        name_of(text) == text.take(at),
{
    let chosen = choose|at: int| first_stop(text, at);
    assert(chosen == at) by {
        if chosen < at {
            assert(text[chosen] != '.');
        }
        if at < chosen {
            assert(text[at] != '.');
        }
    }
}

/// `humantime::format_duration`, written out through `Display`, for a span
/// of whole seconds.
#[verifier::external_body]
fn format_elapsed(secs: u64) -> (text: String)
    ensures
        text@ == duration_text(secs as nat),
{
    format_duration(Duration::from_secs(secs)).to_string()
}

/// Whether the key asks to quit.
pub fn is_quit(event: &KeyPress) -> (quit: bool)
    ensures
        quit == quits(*event),
{
    match event.code {
        Key::Char(c) => c == 'q' && event.control,
        _ => false,
    }
}

/// The name of a database: its file name up to the first full stop, or the
/// whole file name where it has none.
pub fn database_name(file_name: &str) -> (name: String)
    ensures
        name@ == name_of(file_name@),
{
    let len: usize = file_name.unicode_len();
    let mut at: usize = 0;
    while at < len
        invariant
            at <= len,
            len == file_name@.len(),
            forall|j: int| 0 <= j < at ==> file_name@[j] != '.',
        decreases len - at,
    {
        if file_name.get_char(at) == '.' {
            proof {
                lemma_first_stop(file_name@, at as int);
            }
            return String::from_str(file_name.substring_char(0, at));
        }
        at = at + 1;
    }
    String::from_str(file_name)
}

impl AppState {
    /// A fresh session over `tables`, whose catalog counts as refreshed at `now`.
    pub fn new(tables: Vec<SqliteTable>, sync_rate: u16, now: u64) -> (state: Self)
        ensures
            state.sync_rate == sync_rate,
            state.last_sync == now,
            state.database_state.wf(),
            state.database_state.tables == tables,
            state.database_state.queried_table_state is None,
            state.database_state.current_query@.len() == 0,
            state.database_state.current_query_cursor == (0usize, 0usize),
            state.database_state.selected_table is None,
            state.database_state.selected_table_option is None,
            state.database_state.error is None,
            state.database_state.mode == SqliteDatabaseStateMode::TABLE_SELECTION,
    {
        AppState { sync_rate, last_sync: now, database_state: SqliteDatabaseState::new(tables) }
    }

    /// Takes one key of a frame: the quit key ends the loop after this frame,
    /// and every key, that one too, goes on to the session.
    pub fn read_key(&mut self, event: &KeyPress) -> (step: FrameStep)
        requires
            old(self).database_state.accepts(*event),
        ensures
            step.render_next == !quits(*event),
            final(self).sync_rate == old(self).sync_rate,
            final(self).last_sync == old(self).last_sync,
            final(self).database_state.wf(),
            final(self).database_state.handled(&old(self).database_state, *event, step.action),
    {
        let render_next = !is_quit(event);
        let action = self.database_state.read_keys(event);
        FrameStep { render_next, action }
    }

    /// Whether the catalog is due for a refresh: the time since the last one
    /// has reached the interval.
    pub fn sync_due(&self, now: u64) -> (due: bool)
        ensures
            due == (elapsed(self.last_sync, now) >= self.sync_rate * NANOS_PER_SEC),
    {
        let passed: u64 = if now >= self.last_sync {
            now - self.last_sync
        } else {
            0
        };
        passed >= self.sync_rate as u64 * NANOS_PER_SEC
    }

    /// Replaces the catalog, drops a selection that points behind its last
    /// table, and notes the time.
    pub fn sync(&mut self, tables: Vec<SqliteTable>, now: u64)
        ensures
            final(self).sync_rate == old(self).sync_rate,
            final(self).last_sync == now,
            final(self).database_state.tables == tables,
            final(self).database_state.selected_table == revalidated(
                old(self).database_state.selected_table,
                tables@.len() as int,
            ),
            final(self).database_state.selection_in_range(),
            final(self).database_state.queried_table_state
                == old(self).database_state.queried_table_state,
            final(self).database_state.current_query == old(self).database_state.current_query,
            final(self).database_state.current_query_cursor
                == old(self).database_state.current_query_cursor,
            final(self).database_state.selected_table_option
                == old(self).database_state.selected_table_option,
            final(self).database_state.error == old(self).database_state.error,
            final(self).database_state.mode == old(self).database_state.mode,
            old(self).database_state.wf() ==> final(self).database_state.wf(),
    {
        self.database_state.sync(tables);
        self.database_state.revalidate_selection();
        self.last_sync = now;
    }

    /// The line at the foot of the frame: the whole seconds since the last
    /// refresh, the name of the database and its path. A path that ends in
    /// no file name shows an empty name.
    pub fn footer(&self, now: u64, file_name: Option<&str>, path: &str) -> (line: String)
        ensures
            line@ == footer_line(
                elapsed(self.last_sync, now) / (NANOS_PER_SEC as nat),
                shown_name(
                    match file_name {
                        Some(file_name) => Some(file_name@),
                        None => None,
                    },
                ),
                path@,
            ),
    {
        let passed: u64 = if now >= self.last_sync {
            now - self.last_sync
        } else {
            0
        };
        let name = match file_name {
            Some(file_name) => database_name(file_name),
            None => String::new(),
        };
        let mut line = String::from_str("Last sync: ");
        line.append(format_elapsed(passed / NANOS_PER_SEC).as_str());
        line.append(" ago | Database name: ");
        line.append(name.as_str());
        line.append(" | Database path: ");
        line.append(path);
        line
    }
}

} // verus!
