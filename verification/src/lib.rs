//! A store of shader presets and projects kept in an embedded SQLite database.
//!
//! Each operation of the store is made of three steps. The library plans the
//! statement ([`statement`]), hands it to the engine ([`engine`]), and turns
//! the engine's answer into the result ([`record`], [`row`], [`database`]).
//! The first and the last step are verified, over sequences of dynamically
//! typed values ([`value`]); [`lemmas`] shows that they agree with each
//! other. The step in the middle is the engine's own: the store records what
//! it asked and what it was answered ([`transcript`]), and the contract of
//! each operation is stated over that record.

pub mod commands;
pub mod database;
pub mod engine;
pub mod error;
pub mod lemmas;
pub mod record;
pub mod row;
pub mod statement;
pub mod transcript;
pub mod value;

pub use database::Database;
pub use error::StoreError;
pub use record::Preset;
pub use record::PresetView;
pub use record::Project;
pub use record::ProjectView;
pub use row::Column;
pub use row::RowError;
pub use row::StorageClass;
pub use statement::Statement;
pub use value::Param;
pub use value::SqlValue;
pub use value::ValueView;
