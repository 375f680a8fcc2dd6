//! A result row: column names and their values, in the order of the columns.

use crate::data::sqlite_value::{SqliteValue, SqliteValueView};
use indexmap::IndexMap;
use vstd::prelude::*;

verus! {

/// `indexmap::IndexMap`, a hash map that keeps its entries in the order of insertion.
#[verifier::external_type_specification]
#[verifier::external_body]
#[verifier::reject_recursive_types(K)]
#[verifier::reject_recursive_types(V)]
#[verifier::reject_recursive_types(S)]
pub struct ExIndexMap<K, V, S>(IndexMap<K, V, S>);

/// A column name with the value in that column.
pub type Entry = (Seq<char>, SqliteValueView);

/// The entries of a row, in the order in which the map walks them.
pub uninterp spec fn row_entries(row: IndexMap<String, SqliteValue>) -> Seq<Entry>;

/// Whether some entry has this key.
pub open spec fn has_key<V>(entries: Seq<(Seq<char>, V)>, key: Seq<char>) -> bool {
    exists|i: int| 0 <= i < entries.len() && (#[trigger] entries[i]).0 == key
}

/// The place of an entry with this key.
pub open spec fn key_index<V>(entries: Seq<(Seq<char>, V)>, key: Seq<char>) -> int {
    choose|i: int| 0 <= i < entries.len() && (#[trigger] entries[i]).0 == key
}

/// The entries after an insertion: a key that is present keeps its place and
/// takes the new value, a new key goes to the end.
pub open spec fn keyed_insert<V>(entries: Seq<(Seq<char>, V)>, key: Seq<char>, value: V) -> Seq<
    (Seq<char>, V),
> {
    if has_key(entries, key) {
        entries.update(key_index(entries, key), (key, value))
    } else {
        entries.push((key, value))
    }
}

/// The entries of the row that holds `values` under `columns`, inserted from
/// the first column to the last.
pub open spec fn row_of(columns: Seq<Seq<char>>, values: Seq<SqliteValueView>) -> Seq<Entry>
    recommends
        columns.len() == values.len(),
    decreases columns.len(),
{
    if columns.len() == 0 || values.len() == 0 {
        Seq::empty()
    } else {
        keyed_insert(
            row_of(columns.drop_last(), values.drop_last()),
            columns.last(),
            values.last(),
        )
    }
}

/// Whether no name occurs twice.
pub open spec fn distinct_names(names: Seq<Seq<char>>) -> bool {
    forall|i: int, j: int| 0 <= i < j < names.len() ==> names[i] != names[j]
}

/// The names paired with the values, place by place.
pub open spec fn paired(columns: Seq<Seq<char>>, values: Seq<SqliteValueView>) -> Seq<Entry>
    recommends
        columns.len() == values.len(),
{
    Seq::new(columns.len(), |i: int| (columns[i], values[i]))
}

/// The characters of each name.
pub open spec fn names_view(names: Seq<String>) -> Seq<Seq<char>> {
    Seq::new(names.len(), |i: int| names[i]@)
}

/// The content of each value.
pub open spec fn values_view(values: Seq<SqliteValue>) -> Seq<SqliteValueView> {
    Seq::new(values.len(), |i: int| values[i]@)
}

/// `IndexMap::new` makes a map without entries.
#[verifier::external_body]
fn row_new() -> (row: IndexMap<String, SqliteValue>)
    ensures
        row_entries(row) == Seq::<Entry>::empty(),
{
    IndexMap::new()
}

/// `IndexMap::insert` replaces the value of a key that the map holds, which
/// keeps its place, and puts a new key with its value behind the last entry.
#[verifier::external_body]
fn row_insert(row: &mut IndexMap<String, SqliteValue>, key: String, value: SqliteValue)
    ensures
        row_entries(*final(row)) == keyed_insert(row_entries(*old(row)), key@, value@),
{
    row.insert(key, value);
}

/// `IndexMap::iter` hands out the entries in their order.
#[verifier::external_body]
pub(crate) fn row_items(row: &IndexMap<String, SqliteValue>) -> (items: Vec<
    (&String, &SqliteValue),
>)
    ensures
        items@.len() == row_entries(*row).len(),
        forall|i: int|
            0 <= i < items@.len() ==> (#[trigger] items@[i]).0@ == row_entries(*row)[i].0
                && items@[i].1@ == row_entries(*row)[i].1,
{
    row.iter().collect()
}

/// `IndexMap::keys` hands out the keys in the order of the entries.
#[verifier::external_body]
pub(crate) fn row_keys(row: &IndexMap<String, SqliteValue>) -> (keys: Vec<&String>)
    ensures
        keys@.len() == row_entries(*row).len(),
        forall|i: int| 0 <= i < keys@.len() ==> (#[trigger] keys@[i])@ == row_entries(*row)[i].0,
{
    row.keys().collect()
}

/// Builds the row that holds `values` under `columns`.
pub fn make_row(columns: &Vec<String>, values: &Vec<SqliteValue>) -> (row: IndexMap<
    String,
    SqliteValue,
>)
    requires
        columns@.len() == values@.len(),
    ensures
        row_entries(row) == row_of(names_view(columns@), values_view(values@)),
{
    let mut row = row_new();
    let mut col: usize = 0;
    while col < columns.len()
        invariant
            col <= columns@.len(),
            columns@.len() == values@.len(),
            row_entries(row) == row_of(
                names_view(columns@).take(col as int),
                values_view(values@).take(col as int),
            ),
        decreases columns@.len() - col,
    {
        let ghost names = names_view(columns@).take(col + 1);
        let ghost cells = values_view(values@).take(col + 1);
        row_insert(&mut row, columns[col].clone(), values[col].clone());
        proof {
            assert(names.drop_last() =~= names_view(columns@).take(col as int));
            assert(cells.drop_last() =~= values_view(values@).take(col as int));
        }
        col = col + 1;
    }
    proof {
        assert(names_view(columns@).take(col as int) =~= names_view(columns@));
        assert(values_view(values@).take(col as int) =~= values_view(values@));
    }
    row
}

/// Where no column name occurs twice, a row holds each name with its value,
/// in the order of the columns.
pub proof fn lemma_distinct_columns_row(columns: Seq<Seq<char>>, values: Seq<SqliteValueView>)
    requires
        columns.len() == values.len(),
        distinct_names(columns),
    ensures
        row_of(columns, values) == paired(columns, values),
    decreases columns.len(),
{
    if columns.len() == 0 {
        assert(row_of(columns, values) =~= paired(columns, values));
    } else {
        let before = row_of(columns.drop_last(), values.drop_last());
        lemma_distinct_columns_row(columns.drop_last(), values.drop_last());
        assert(!has_key(before, columns.last())) by {
            if has_key(before, columns.last()) {
                let i = key_index(before, columns.last());
                assert(before[i].0 == columns[i]);
                assert(columns[i] != columns[columns.len() - 1]);
            }
        }
        assert(before.push((columns.last(), values.last())) =~= paired(columns, values));
    }
}

} // verus!
