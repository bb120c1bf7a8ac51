//! Decoding of fetched rows, column by column.
//!
//! A row is a sequence of values, one per selected column. A field of a
//! record takes the value at a fixed position and accepts some storage classes
//! only: an identifier takes an integer, a text field takes text, an optional
//! text field takes text or `NULL`.

use vstd::prelude::*;
use crate::value::SqlValue;
use crate::value::ValueView;

verus! {

/// The storage class of a value.
#[derive(Debug, Clone, Copy, PartialEq, Eq, Structural)]
pub enum StorageClass {
    Null,
    Integer,
    Real,
    Text,
    Blob,
}

/// A column of the two tables, by its name.
#[derive(Debug, Clone, Copy, PartialEq, Eq, Structural)]
pub enum Column {
    Id,
    Name,
    ShaderCode,
    Language,
    Uniforms,
    Shaders,
    AudioSettings,
    CreatedAt,
    UpdatedAt,
}

/// Why a row does not decode.
#[derive(Debug, Clone, Copy, PartialEq, Eq, Structural)]
pub enum RowError {
    /// The row has no column at `index`.
    MissingColumn { index: usize },
    /// The column at `index`, which the query selected as `column`, holds a
    /// value of class `found`, which the field read from it does not accept.
    WrongType { index: usize, column: Column, found: StorageClass },
}

/// The storage class of a value.
pub open spec fn class_of(value: ValueView) -> StorageClass {
    match value {
        ValueView::Null => StorageClass::Null,
        ValueView::Integer(_) => StorageClass::Integer,
        ValueView::Real(_) => StorageClass::Real,
        ValueView::Text(_) => StorageClass::Text,
        ValueView::Blob(_) => StorageClass::Blob,
    }
}

/// The integer in column `index` of `row`, which the query selected as
/// `column`.
pub open spec fn integer_column(row: Seq<ValueView>, index: usize, column: Column) -> Result<i64, RowError> {
    if index >= row.len() {
        Err(RowError::MissingColumn { index })
    } else {
        match row[index as int] {
            ValueView::Integer(i) => Ok(i),
            other => Err(RowError::WrongType { index, column, found: class_of(other) }),
        }
    }
}

/// The text in column `index` of `row`.
pub open spec fn text_column(row: Seq<ValueView>, index: usize, column: Column) -> Result<Seq<char>, RowError> {
    if index >= row.len() {
        Err(RowError::MissingColumn { index })
    } else {
        match row[index as int] {
            ValueView::Text(s) => Ok(s),
            other => Err(RowError::WrongType { index, column, found: class_of(other) }),
        }
    }
}

/// The text in column `index` of `row`, or `None` where the column holds
/// `NULL`.
pub open spec fn optional_text_column(row: Seq<ValueView>, index: usize, column: Column) -> Result<
    Option<Seq<char>>,
    RowError,
> {
    if index >= row.len() {
        Err(RowError::MissingColumn { index })
    } else {
        match row[index as int] {
            ValueView::Null => Ok(None),
            ValueView::Text(s) => Ok(Some(s)),
            other => Err(RowError::WrongType { index, column, found: class_of(other) }),
        }
    }
}

impl SqlValue {
    /// The storage class of this value.
    pub fn class(&self) -> (class: StorageClass)
        ensures
            class == class_of(self@),
    {
        match self {
            SqlValue::Null => StorageClass::Null,
            SqlValue::Integer(_) => StorageClass::Integer,
            SqlValue::Real(_) => StorageClass::Real,
            SqlValue::Text(_) => StorageClass::Text,
            SqlValue::Blob(_) => StorageClass::Blob,
        }
    }
}

/// Reads the integer in column `index` of `row`.
pub fn integer_at(row: &Vec<SqlValue>, index: usize, column: Column) -> (read: Result<i64, RowError>)
    ensures
        read == integer_column(crate::value::views(row@), index, column),
{
    if index >= row.len() {
        return Err(RowError::MissingColumn { index });
    }
    match &row[index] {
        SqlValue::Integer(i) => Ok(*i),
        other => Err(RowError::WrongType { index, column, found: other.class() }),
    }
}

/// Reads the text in column `index` of `row`.
pub fn text_at(row: &Vec<SqlValue>, index: usize, column: Column) -> (read: Result<String, RowError>)
    ensures
        match read {
            Ok(s) => text_column(crate::value::views(row@), index, column) == Ok::<Seq<char>, RowError>(s@),
            Err(e) => text_column(crate::value::views(row@), index, column) == Err::<Seq<char>, RowError>(e),
        },
{
    if index >= row.len() {
        return Err(RowError::MissingColumn { index });
    }
    match &row[index] {
        SqlValue::Text(s) => Ok(s.clone()),
        other => Err(RowError::WrongType { index, column, found: other.class() }),
    }
}

/// Reads the text in column `index` of `row`, or `None` where the column
/// holds `NULL`.
pub fn optional_text_at(row: &Vec<SqlValue>, index: usize, column: Column) -> (read: Result<
    Option<String>,
    RowError,
>)
    ensures
        match read {
            Ok(s) => optional_text_column(crate::value::views(row@), index, column) == Ok::<
                Option<Seq<char>>,
                RowError,
            >(crate::record::optional_text(s)),
            Err(e) => optional_text_column(crate::value::views(row@), index, column) == Err::<
                Option<Seq<char>>,
                RowError,
            >(e),
        },
{
    if index >= row.len() {
        return Err(RowError::MissingColumn { index });
    }
    match &row[index] {
        SqlValue::Null => Ok(None),
        SqlValue::Text(s) => Ok(Some(s.clone())),
        other => Err(RowError::WrongType { index, column, found: other.class() }),
    }
}

} // verus!
