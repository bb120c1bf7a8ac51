//! The dynamically typed values that the engine takes and returns.

use vstd::prelude::*;

verus! {

/// What one column of a fetched row holds, in one of the five storage classes
/// of SQLite.
#[derive(Debug, Clone, PartialEq, Eq)]
pub enum SqlValue {
    /// The SQL `NULL`.
    Null,
    /// A signed 64-bit integer.
    Integer(i64),
    /// A floating-point number, held as the 64 bits of its IEEE-754 encoding.
    /// The library never looks inside: none of its columns holds one.
    Real(u64),
    /// A text string.
    Text(String),
    /// A sequence of bytes.
    Blob(Vec<u8>),
}

/// What a [`SqlValue`] is, with strings and byte vectors as sequences.
pub enum ValueView {
    Null,
    Integer(i64),
    Real(u64),
    Text(Seq<char>),
    Blob(Seq<u8>),
}

impl View for SqlValue {
    type V = ValueView;

    open spec fn view(&self) -> ValueView {
        match *self {
            SqlValue::Null => ValueView::Null,
            SqlValue::Integer(i) => ValueView::Integer(i),
            SqlValue::Real(bits) => ValueView::Real(bits),
            SqlValue::Text(s) => ValueView::Text(s@),
            SqlValue::Blob(b) => ValueView::Blob(b@),
        }
    }
}

/// The views of a sequence of values, in the same order.
pub open spec fn views(values: Seq<SqlValue>) -> Seq<ValueView> {
    values.map_values(|v: SqlValue| v@)
}

/// A value bound to one placeholder of a statement. The statements of this
/// library bind integers, text and `NULL` only.
#[derive(Debug, Clone, PartialEq, Eq)]
pub enum Param {
    /// The SQL `NULL`.
    Null,
    /// A signed 64-bit integer.
    Integer(i64),
    /// A text string.
    Text(String),
}

impl View for Param {
    type V = ValueView;

    /// The value that a column holds once this parameter has been written to
    /// it unchanged.
    open spec fn view(&self) -> ValueView {
        match *self {
            Param::Null => ValueView::Null,
            Param::Integer(i) => ValueView::Integer(i),
            Param::Text(s) => ValueView::Text(s@),
        }
    }
}

/// The views of a sequence of parameters, in the same order.
pub open spec fn param_views(params: Seq<Param>) -> Seq<ValueView> {
    params.map_values(|p: Param| p@)
}

} // verus!
