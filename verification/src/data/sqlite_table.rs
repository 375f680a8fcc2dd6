//! Tables of the catalog and the description of their columns.

use crate::data::row::keyed_insert;
use crate::data::sqlite_value::SqliteValue;
use indexmap::IndexMap;
use vstd::prelude::*;
use vstd::string::*;

verus! {

/// A table of the database, known by its name.
#[derive(Debug, PartialEq, Eq)]
pub struct SqliteTable {
    pub name: String,
}

/// One column of a table, as the engine describes it.
#[derive(Debug, PartialEq, Eq)]
pub struct SqliteColumn {
    pub name: String,
    pub declared_type: String,
    pub not_null: bool,
    pub default_value: SqliteValue,
    pub pk: usize,
}

/// The statement that lists every table of a database, the engine's own
/// among them.
pub open spec fn table_list_text() -> Seq<char> {
    "SELECT name FROM sqlite_master WHERE type='table';"@
}

/// The names of the tables.
pub open spec fn table_names(tables: Seq<SqliteTable>) -> Seq<Seq<char>> {
    Seq::new(tables.len(), |i: int| tables[i].name@)
}

/// Whether a table is one of the engine's own: its name begins with `sqlite_`.
pub open spec fn is_internal_name(name: Seq<char>) -> bool {
    "sqlite_"@.is_prefix_of(name)
}

/// The names without those of the engine's own tables, in their order.
pub open spec fn user_names(names: Seq<Seq<char>>) -> Seq<Seq<char>>
    decreases names.len(),
{
    if names.len() == 0 {
        Seq::empty()
    } else if is_internal_name(names.last()) {
        user_names(names.drop_last())
    } else {
        user_names(names.drop_last()).push(names.last())
    }
}

/// The statement that describes the columns of the table `name`.
pub open spec fn columns_query_text(name: Seq<char>) -> Seq<char> {
    "PRAGMA table_info("@ + name + ")"@
}

/// The columns of a map, each under its key, in the order in which the map
/// walks them.
pub uninterp spec fn column_entries(columns: IndexMap<String, SqliteColumn>) -> Seq<
    (Seq<char>, SqliteColumn),
>;

/// The entries of the map that takes in the columns one after the other,
/// each under its name.
pub open spec fn columns_by_name(columns: Seq<SqliteColumn>) -> Seq<(Seq<char>, SqliteColumn)>
    decreases columns.len(),
{
    if columns.len() == 0 {
        Seq::empty()
    } else {
        keyed_insert(columns_by_name(columns.drop_last()), columns.last().name@, columns.last())
    }
}

/// `IndexMap::new` makes a map without entries.
#[verifier::external_body]
fn columns_new() -> (columns: IndexMap<String, SqliteColumn>)
    ensures
        column_entries(columns) == Seq::<(Seq<char>, SqliteColumn)>::empty(),
{
    IndexMap::new()
}

/// `IndexMap::insert` replaces the value of a key that the map holds, which
/// keeps its place, and puts a new key with its value behind the last entry.
#[verifier::external_body]
fn columns_insert(columns: &mut IndexMap<String, SqliteColumn>, key: String, column: SqliteColumn)
    ensures
        column_entries(*final(columns)) == keyed_insert(
            column_entries(*old(columns)),
            key@,
            column,
        ),
{
    columns.insert(key, column);
}

/// The statement that lists every table of a database, the engine's own
/// among them: [`crate::data::sqlite_database::tables`] leaves those out.
pub fn table_list_query() -> (statement: &'static str)
    ensures
        statement@ == table_list_text(),
{
    "SELECT name FROM sqlite_master WHERE type='table';"
}

/// Whether a table is one of the engine's own.
pub fn is_internal(name: &str) -> (internal: bool)
    ensures
        internal == is_internal_name(name@),
{
    proof {
        reveal_strlit("sqlite_");
    }
    let len: usize = name.unicode_len();
    if len < 7 {
        return false;
    }
    let head = String::from_str(name.substring_char(0, 7));
    let prefix = String::from_str("sqlite_");
    head == prefix
}

/// None of the engine's own tables is among the names that stay, and where
/// none is among the names, all of them stay.
pub proof fn lemma_user_names(names: Seq<Seq<char>>)
    ensures
        forall|i: int|
            0 <= i < user_names(names).len() ==> !is_internal_name(
                #[trigger] user_names(names)[i],
            ),
        (forall|i: int| 0 <= i < names.len() ==> !is_internal_name(#[trigger] names[i]))
            ==> user_names(names) == names,
    decreases names.len(),
{
    if names.len() == 0 {
        assert(user_names(names) =~= names);
    } else {
        let rest = user_names(names.drop_last());
        lemma_user_names(names.drop_last());
        assert forall|i: int| 0 <= i < user_names(names).len() implies !is_internal_name(
            #[trigger] user_names(names)[i],
        ) by {
            if !is_internal_name(names.last()) && i < rest.len() {
                assert(user_names(names)[i] == rest[i]);
            }
        }
        if forall|i: int| 0 <= i < names.len() ==> !is_internal_name(#[trigger] names[i]) {
            assert forall|i: int| 0 <= i < names.drop_last().len() implies !is_internal_name(
                #[trigger] names.drop_last()[i],
            ) by {
                assert(names.drop_last()[i] == names[i]);
            }
            assert(!is_internal_name(names[names.len() - 1]));
            assert(user_names(names) =~= names);
        }
    }
}

impl SqliteColumn {
    /// A column with these properties.
    pub fn new(
        name: String,
        declared_type: String,
        not_null: bool,
        default_value: SqliteValue,
        pk: usize,
    ) -> (column: Self)
        ensures
            column.name == name,
            column.declared_type == declared_type,
            column.not_null == not_null,
            column.default_value == default_value,
            column.pk == pk,
    {
        SqliteColumn { name, declared_type, not_null, default_value, pk }
    }
}


impl SqliteTable {
    /// The table of this name.
    pub fn new(name: String) -> (table: Self)
        ensures
            table.name == name,
    {
        SqliteTable { name }
    }

    /// The statement whose rows describe the columns of this table.
    pub fn columns_query(&self) -> (statement: String)
        ensures
            statement@ == columns_query_text(self.name@),
    {
        let mut statement = String::from_str("PRAGMA table_info(");
        statement.append(self.name.as_str());
        statement.append(")");
        statement
    }

    /// The columns of this table by name, built from what the engine said
    /// of them when asked with [`Self::columns_query`], in that order.
    pub fn columns(&self, described: Vec<SqliteColumn>) -> (columns: IndexMap<String, SqliteColumn>)
        ensures
            column_entries(columns) == columns_by_name(described@),
    {
        let mut rest = described;
        let mut columns = columns_new();
        let ghost mut done: Seq<SqliteColumn> = Seq::empty();
        while rest.len() > 0
            invariant
                described@ == done + rest@,
                column_entries(columns) == columns_by_name(done),
            decreases rest@.len(),
        {
            let ghost before = rest@;
            let column = rest.remove(0);
            let key = column.name.clone();
            proof {
                assert(done.push(column).drop_last() =~= done);
                assert(done.push(column) + rest@ =~= done + before);
                done = done.push(column);
            }
            columns_insert(&mut columns, key, column);
        }
        assert(done =~= described@);
        columns
    }
}

} // verus!
