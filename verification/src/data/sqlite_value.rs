//! One cell of a result row.

use crate::text::{format_int, int_text};
use vstd::prelude::*;
use vstd::string::*;

verus! {

/// A value as the database stores it.
#[derive(Debug, PartialEq, Eq)]
pub enum SqliteValue {
    /// No value.
    Null,
    /// A signed integer.
    Integer(i64),
    /// A floating-point number, held as its decimal text.
    Real(String),
    /// A text.
    Text(String),
    /// Raw bytes.
    Blob(Vec<u8>),
}

/// The mathematical content of a [`SqliteValue`].
pub enum SqliteValueView {
    Null,
    Integer(int),
    Real(Seq<char>),
    Text(Seq<char>),
    Blob(Seq<u8>),
}

impl View for SqliteValue {
    type V = SqliteValueView;

    open spec fn view(&self) -> SqliteValueView {
        match self {
            SqliteValue::Null => SqliteValueView::Null,
            SqliteValue::Integer(i) => SqliteValueView::Integer(*i as int),
            SqliteValue::Real(text) => SqliteValueView::Real(text@),
            SqliteValue::Text(text) => SqliteValueView::Text(text@),
            SqliteValue::Blob(bytes) => SqliteValueView::Blob(bytes@),
        }
    }
}

/// What stands in a cell for a value: blobs show a placeholder, never their bytes.
pub open spec fn value_text(value: SqliteValueView) -> Seq<char> {
    match value {
        SqliteValueView::Null => "NULL"@,
        SqliteValueView::Integer(i) => int_text(i),
        SqliteValueView::Real(text) => text,
        SqliteValueView::Text(text) => text,
        SqliteValueView::Blob(_) => "$$BIN$$"@,
    }
}

impl Clone for SqliteValue {
    fn clone(&self) -> (copy: Self)
        ensures
            copy@ == self@,
    {
        match self {
            SqliteValue::Null => SqliteValue::Null,
            SqliteValue::Integer(i) => SqliteValue::Integer(*i),
            SqliteValue::Real(text) => SqliteValue::Real(text.clone()),
            SqliteValue::Text(text) => SqliteValue::Text(text.clone()),
            SqliteValue::Blob(bytes) => SqliteValue::Blob(bytes.clone()),
        }
    }
}

impl SqliteValue {
    /// The text that a result table shows for this value.
    pub fn display_text(&self) -> (text: String)
        ensures
            text@ == value_text(self@),
    {
        match self {
            SqliteValue::Null => String::from_str("NULL"),
            SqliteValue::Integer(i) => format_int(*i),
            SqliteValue::Real(text) => text.clone(),
            SqliteValue::Text(text) => text.clone(),
            SqliteValue::Blob(_) => String::from_str("$$BIN$$"),
        }
    }
}

} // verus!
