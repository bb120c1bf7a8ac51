//! The failures of the store, and their descriptions.

use vstd::prelude::*;
use vstd::string::StringExecFns;
use crate::row::Column;
use crate::row::RowError;
use crate::row::StorageClass;

verus! {

/// Why an operation of the store failed. A record that is not there is no
/// failure: fetching it gives `None`, removing it and overwriting it succeed.
#[derive(Debug, Clone, PartialEq, Eq)]
pub enum StoreError {
    /// The database could not be opened or its schema could not be set up.
    /// The store is not usable. Holds the engine's description.
    Init(String),
    /// The engine refused a statement. Holds the engine's description.
    Statement(String),
    /// A fetched row does not decode into a record.
    MalformedRow(RowError),
    /// The clock gave no time that can be written as a timestamp: it reads
    /// before 1970, or too far ahead.
    Clock,
}

/// A [`StoreError`] with its strings as sequences of characters.
pub enum Failure {
    Init(Seq<char>),
    Statement(Seq<char>),
    MalformedRow(RowError),
    Clock,
}

impl View for StoreError {
    type V = Failure;

    open spec fn view(&self) -> Failure {
        match *self {
            StoreError::Init(text) => Failure::Init(text@),
            StoreError::Statement(text) => Failure::Statement(text@),
            StoreError::MalformedRow(fault) => Failure::MalformedRow(fault),
            StoreError::Clock => Failure::Clock,
        }
    }
}

/// The description of a failure: the engine's own words where it has given
/// any, else the description of the row fault.
pub open spec fn failure_text(failure: Failure) -> Seq<char> {
    match failure {
        Failure::Init(text) => text,
        Failure::Statement(text) => text,
        Failure::MalformedRow(fault) => row_error_text(fault),
        Failure::Clock => "The system clock is out of range"@,
    }
}

/// The decimal digit of a number below ten.
pub open spec fn digit(d: nat) -> char {
    if d == 0 {
        '0'
    } else if d == 1 {
        '1'
    } else if d == 2 {
        '2'
    } else if d == 3 {
        '3'
    } else if d == 4 {
        '4'
    } else if d == 5 {
        '5'
    } else if d == 6 {
        '6'
    } else if d == 7 {
        '7'
    } else if d == 8 {
        '8'
    } else {
        '9'
    }
}

/// A number in decimal, without leading zeros.
pub open spec fn decimal(n: nat) -> Seq<char>
    decreases n,
{
    if n < 10 {
        seq![digit(n)]
    } else {
        decimal(n / 10).push(digit(n % 10))
    }
}

/// The name of a storage class.
pub open spec fn class_name(class: StorageClass) -> Seq<char> {
    match class {
        StorageClass::Null => "Null"@,
        StorageClass::Integer => "Integer"@,
        StorageClass::Real => "Real"@,
        StorageClass::Text => "Text"@,
        StorageClass::Blob => "Blob"@,
    }
}

/// The name of a column, as the queries select it.
pub open spec fn column_name(column: Column) -> Seq<char> {
    match column {
        Column::Id => "id"@,
        Column::Name => "name"@,
        Column::ShaderCode => "shader_code"@,
        Column::Language => "language"@,
        Column::Uniforms => "uniforms"@,
        Column::Shaders => "shaders"@,
        Column::AudioSettings => "audio_settings"@,
        Column::CreatedAt => "created_at"@,
        Column::UpdatedAt => "updated_at"@,
    }
}

/// The description of a row that does not decode: the position of the column
/// at fault and, where it holds a value, the storage class of that value and
/// the name of the column.
pub open spec fn row_error_text(error: RowError) -> Seq<char> {
    match error {
        RowError::MissingColumn { index } => "Invalid column index: "@ + decimal(index as nat),
        RowError::WrongType { index, column, found } => "Invalid column type "@ + class_name(found)
            + " at index: "@ + decimal(index as nat) + ", name: "@ + column_name(column),
    }
}

/// The description of a failure.
pub open spec fn error_text(error: StoreError) -> Seq<char> {
    failure_text(error@)
}

/// The decimal digit of a number below ten, as a string.
fn digit_text(d: usize) -> (text: &'static str)
    requires
        d < 10,
    ensures
        text@ == seq![digit(d as nat)],
{
    proof {
        reveal_strlit("0");
        reveal_strlit("1");
        reveal_strlit("2");
        reveal_strlit("3");
        reveal_strlit("4");
        reveal_strlit("5");
        reveal_strlit("6");
        reveal_strlit("7");
        reveal_strlit("8");
        reveal_strlit("9");
    }
    let text = if d == 0 {
        "0"
    } else if d == 1 {
        "1"
    } else if d == 2 {
        "2"
    } else if d == 3 {
        "3"
    } else if d == 4 {
        "4"
    } else if d == 5 {
        "5"
    } else if d == 6 {
        "6"
    } else if d == 7 {
        "7"
    } else if d == 8 {
        "8"
    } else {
        "9"
    };
    assert(text@ =~= seq![digit(d as nat)]);
    text
}

/// Writes a number in decimal.
pub fn decimal_text(n: usize) -> (text: String)
    ensures
        text@ == decimal(n as nat),
    decreases n,
{
    if n < 10 {
        String::from_str(digit_text(n))
    } else {
        let text = decimal_text(n / 10).concat(digit_text(n % 10));
        assert(text@ =~= decimal(n as nat));
        text
    }
}

impl StorageClass {
    /// The name of this storage class.
    pub fn name(&self) -> (name: &'static str)
        ensures
            name@ == class_name(*self),
    {
        match self {
            StorageClass::Null => "Null",
            StorageClass::Integer => "Integer",
            StorageClass::Real => "Real",
            StorageClass::Text => "Text",
            StorageClass::Blob => "Blob",
        }
    }
}

impl Column {
    /// The name of this column, as the queries select it.
    pub fn name(&self) -> (name: &'static str)
        ensures
            name@ == column_name(*self),
    {
        match self {
            Column::Id => "id",
            Column::Name => "name",
            Column::ShaderCode => "shader_code",
            Column::Language => "language",
            Column::Uniforms => "uniforms",
            Column::Shaders => "shaders",
            Column::AudioSettings => "audio_settings",
            Column::CreatedAt => "created_at",
            Column::UpdatedAt => "updated_at",
        }
    }
}

impl RowError {
    /// A description of the fault for a human reader.
    pub fn message(&self) -> (text: String)
        ensures
            text@ == row_error_text(*self),
    {
        match self {
            RowError::MissingColumn { index } => {
                let number = decimal_text(*index);
                String::from_str("Invalid column index: ").concat(number.as_str())
            },
            RowError::WrongType { index, column, found } => {
                let number = decimal_text(*index);
                String::from_str("Invalid column type ").concat(found.name()).concat(
                    " at index: ",
                ).concat(number.as_str()).concat(", name: ").concat(column.name())
            },
        }
    }
}

impl StoreError {
    /// A description of the failure for a human reader.
    pub fn message(&self) -> (text: String)
        ensures
            text@ == error_text(*self),
    {
        match self {
            StoreError::Init(text) => text.clone(),
            StoreError::Statement(text) => text.clone(),
            StoreError::MalformedRow(fault) => fault.message(),
            StoreError::Clock => String::from_str("The system clock is out of range"),
        }
    }
}

} // verus!
