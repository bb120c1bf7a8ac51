//! The fixed statements of the store and the parameters that each takes.
//!
//! Every statement that the store sends to the engine is planned here: a SQL
//! text, which is one of the constants below, and the values bound to its
//! placeholders `?1`, `?2`, ... in that order.

use vstd::prelude::*;
use crate::record::optional_text;
use crate::record::Preset;
use crate::record::PresetView;
use crate::record::Project;
use crate::record::ProjectView;
use crate::value::param_views;
use crate::value::Param;
use crate::value::ValueView;

verus! {

/// Creates the table of presets where it does not exist.
pub const CREATE_PRESETS: &'static str =
    "CREATE TABLE IF NOT EXISTS presets (id INTEGER PRIMARY KEY AUTOINCREMENT, name TEXT NOT NULL, shader_code TEXT NOT NULL, language TEXT NOT NULL, uniforms TEXT, created_at TEXT DEFAULT CURRENT_TIMESTAMP, updated_at TEXT DEFAULT CURRENT_TIMESTAMP)";

/// Creates the table of projects where it does not exist.
pub const CREATE_PROJECTS: &'static str =
    "CREATE TABLE IF NOT EXISTS projects (id INTEGER PRIMARY KEY AUTOINCREMENT, name TEXT NOT NULL, shaders TEXT NOT NULL, audio_settings TEXT, created_at TEXT DEFAULT CURRENT_TIMESTAMP, updated_at TEXT DEFAULT CURRENT_TIMESTAMP)";

/// Creates the index of presets on `updated_at` where it does not exist.
pub const INDEX_PRESETS: &'static str =
    "CREATE INDEX IF NOT EXISTS idx_presets_updated_at ON presets(updated_at)";

/// Creates the index of projects on `updated_at` where it does not exist.
pub const INDEX_PROJECTS: &'static str =
    "CREATE INDEX IF NOT EXISTS idx_projects_updated_at ON projects(updated_at)";

/// Inserts a preset: `name`, `shader_code`, `language`, `uniforms`, `created_at`,
/// `updated_at`.
pub const INSERT_PRESET: &'static str =
    "INSERT INTO presets (name, shader_code, language, uniforms, created_at, updated_at) VALUES (?1, ?2, ?3, ?4, ?5, ?6)";

/// Overwrites a preset: `name`, `shader_code`, `language`, `uniforms`,
/// `updated_at`, then the identifier of the row. `created_at` stays.
pub const UPDATE_PRESET: &'static str =
    "UPDATE presets SET name = ?1, shader_code = ?2, language = ?3, uniforms = ?4, updated_at = ?5 WHERE id = ?6";

/// Fetches the preset of one identifier.
pub const SELECT_PRESET: &'static str =
    "SELECT id, name, shader_code, language, uniforms, created_at, updated_at FROM presets WHERE id = ?1";

/// Fetches all presets, the one with the greatest `updated_at` first.
pub const LIST_PRESETS: &'static str =
    "SELECT id, name, shader_code, language, uniforms, created_at, updated_at FROM presets ORDER BY updated_at DESC";

/// Removes the preset of one identifier.
pub const DELETE_PRESET: &'static str = "DELETE FROM presets WHERE id = ?1";

/// Inserts a project: `name`, `shaders`, `audio_settings`, `created_at`,
/// `updated_at`.
pub const INSERT_PROJECT: &'static str =
    "INSERT INTO projects (name, shaders, audio_settings, created_at, updated_at) VALUES (?1, ?2, ?3, ?4, ?5)";

/// Overwrites a project: `name`, `shaders`, `audio_settings`, `updated_at`, then
/// the identifier of the row. `created_at` stays.
pub const UPDATE_PROJECT: &'static str =
    "UPDATE projects SET name = ?1, shaders = ?2, audio_settings = ?3, updated_at = ?4 WHERE id = ?5";

/// Fetches the project of one identifier.
pub const SELECT_PROJECT: &'static str =
    "SELECT id, name, shaders, audio_settings, created_at, updated_at FROM projects WHERE id = ?1";

/// Fetches all projects, the one with the greatest `updated_at` first.
pub const LIST_PROJECTS: &'static str =
    "SELECT id, name, shaders, audio_settings, created_at, updated_at FROM projects ORDER BY updated_at DESC";

/// Removes the project of one identifier.
pub const DELETE_PROJECT: &'static str = "DELETE FROM projects WHERE id = ?1";

/// One statement, ready for the engine.
#[derive(Debug, Clone, PartialEq, Eq)]
pub struct Statement {
    /// The SQL text.
    pub sql: &'static str,
    /// The values of the placeholders `?1`, `?2`, ... in this order.
    pub params: Vec<Param>,
}

/// What a [`Statement`] is: its text and the values it binds.
pub struct StatementView {
    pub sql: Seq<char>,
    pub params: Seq<ValueView>,
}

impl View for Statement {
    type V = StatementView;

    open spec fn view(&self) -> StatementView {
        StatementView { sql: self.sql@, params: param_views(self.params@) }
    }
}

/// The value bound for an optional text: the text, or `NULL`.
pub open spec fn optional_text_value(text: Option<Seq<char>>) -> ValueView {
    match text {
        Some(s) => ValueView::Text(s),
        None => ValueView::Null,
    }
}

/// The statement that binds nothing.
pub open spec fn plain(sql: Seq<char>) -> StatementView {
    StatementView { sql, params: seq![] }
}

/// The statement that binds one identifier.
pub open spec fn by_id(sql: Seq<char>, id: i64) -> StatementView {
    StatementView { sql, params: seq![ValueView::Integer(id)] }
}

/// The insert of a new preset at the time `now`: the caller's fields, then
/// `now` for both `created_at` and `updated_at`.
pub open spec fn preset_insert(preset: PresetView, now: Seq<char>) -> StatementView {
    StatementView {
        sql: INSERT_PRESET@,
        params: seq![
            ValueView::Text(preset.name),
            ValueView::Text(preset.shader_code),
            ValueView::Text(preset.language),
            optional_text_value(preset.uniforms),
            ValueView::Text(now),
            ValueView::Text(now),
        ],
    }
}

/// The overwrite of the preset `id` at the time `now`: the caller's fields,
/// then `now` for `updated_at`, then the identifier of the row.
pub open spec fn preset_update(preset: PresetView, now: Seq<char>, id: i64) -> StatementView {
    StatementView {
        sql: UPDATE_PRESET@,
        params: seq![
            ValueView::Text(preset.name),
            ValueView::Text(preset.shader_code),
            ValueView::Text(preset.language),
            optional_text_value(preset.uniforms),
            ValueView::Text(now),
            ValueView::Integer(id),
        ],
    }
}

/// The statement that saves a preset: an overwrite of its row where it has an
/// identifier, an insert where it has none.
pub open spec fn preset_save(preset: PresetView, now: Seq<char>) -> StatementView {
    match preset.id {
        Some(id) => preset_update(preset, now, id),
        None => preset_insert(preset, now),
    }
}

/// The insert of a new project at the time `now`.
pub open spec fn project_insert(project: ProjectView, now: Seq<char>) -> StatementView {
    StatementView {
        sql: INSERT_PROJECT@,
        params: seq![
            ValueView::Text(project.name),
            ValueView::Text(project.shaders),
            optional_text_value(project.audio_settings),
            ValueView::Text(now),
            ValueView::Text(now),
        ],
    }
}

/// The overwrite of the project `id` at the time `now`.
pub open spec fn project_update(project: ProjectView, now: Seq<char>, id: i64) -> StatementView {
    StatementView {
        sql: UPDATE_PROJECT@,
        params: seq![
            ValueView::Text(project.name),
            ValueView::Text(project.shaders),
            optional_text_value(project.audio_settings),
            ValueView::Text(now),
            ValueView::Integer(id),
        ],
    }
}

/// The statement that saves a project: an overwrite of its row where it has
/// an identifier, an insert where it has none.
pub open spec fn project_save(project: ProjectView, now: Seq<char>) -> StatementView {
    match project.id {
        Some(id) => project_update(project, now, id),
        None => project_insert(project, now),
    }
}

/// The statements that set up the schema, in the order in which they run:
/// the two tables, then the index of each on `updated_at`.
pub open spec fn schema() -> Seq<StatementView> {
    seq![
        plain(CREATE_PRESETS@),
        plain(CREATE_PROJECTS@),
        plain(INDEX_PRESETS@),
        plain(INDEX_PROJECTS@),
    ]
}

/// The parameter that binds an optional text.
fn optional_text_param(text: &Option<String>) -> (param: Param)
    ensures
        param@ == optional_text_value(optional_text(*text)),
{
    match text {
        Some(s) => Param::Text(s.clone()),
        None => Param::Null,
    }
}

impl Statement {
    /// The statement `sql` with nothing bound.
    pub fn plain(sql: &'static str) -> (statement: Statement)
        ensures
            statement@ == plain(sql@),
    {
        let statement = Statement { sql, params: Vec::new() };
        assert(param_views(statement.params@) =~= Seq::<ValueView>::empty());
        statement
    }

    /// The statement `sql` with `id` bound to its one placeholder.
    pub fn by_id(sql: &'static str, id: i64) -> (statement: Statement)
        ensures
            statement@ == by_id(sql@, id),
    {
        let mut params: Vec<Param> = Vec::new();
        params.push(Param::Integer(id));
        assert(param_views(params@) =~= seq![ValueView::Integer(id)]);
        Statement { sql, params }
    }

    /// The statements that set up the schema, in the order in which they run.
    pub fn schema() -> (statements: Vec<Statement>)
        ensures
            statements@.map_values(|s: Statement| s@) == schema(),
    {
        let mut statements: Vec<Statement> = Vec::new();
        statements.push(Statement::plain(CREATE_PRESETS));
        statements.push(Statement::plain(CREATE_PROJECTS));
        statements.push(Statement::plain(INDEX_PRESETS));
        statements.push(Statement::plain(INDEX_PROJECTS));
        assert(statements@.map_values(|s: Statement| s@) =~= schema());
        statements
    }
}

impl Preset {
    /// Plans the save of this preset at the time `now`.
    pub fn save_statement(&self, now: &str) -> (statement: Statement)
        ensures
            statement@ == preset_save(self@, now@),
    {
        let mut params: Vec<Param> = Vec::new();
        params.push(Param::Text(self.name.clone()));
        params.push(Param::Text(self.shader_code.clone()));
        params.push(Param::Text(self.language.clone()));
        params.push(optional_text_param(&self.uniforms));
        params.push(Param::Text(now.to_owned()));
        match self.id {
            Some(id) => {
                params.push(Param::Integer(id));
                assert(param_views(params@) =~= preset_update(self@, now@, id).params);
                Statement { sql: UPDATE_PRESET, params }
            },
            None => {
                params.push(Param::Text(now.to_owned()));
                assert(param_views(params@) =~= preset_insert(self@, now@).params);
                Statement { sql: INSERT_PRESET, params }
            },
        }
    }

    /// Plans the removal of the preset `id`.
    pub fn delete_statement(id: i64) -> (statement: Statement)
        ensures
            statement@ == by_id(DELETE_PRESET@, id),
    {
        Statement::by_id(DELETE_PRESET, id)
    }
}

impl Project {
    /// Plans the save of this project at the time `now`.
    pub fn save_statement(&self, now: &str) -> (statement: Statement)
        ensures
            statement@ == project_save(self@, now@),
    {
        let mut params: Vec<Param> = Vec::new();
        params.push(Param::Text(self.name.clone()));
        params.push(Param::Text(self.shaders.clone()));
        params.push(optional_text_param(&self.audio_settings));
        params.push(Param::Text(now.to_owned()));
        match self.id {
            Some(id) => {
                params.push(Param::Integer(id));
                assert(param_views(params@) =~= project_update(self@, now@, id).params);
                Statement { sql: UPDATE_PROJECT, params }
            },
            None => {
                params.push(Param::Text(now.to_owned()));
                assert(param_views(params@) =~= project_insert(self@, now@).params);
                Statement { sql: INSERT_PROJECT, params }
            },
        }
    }

    /// Plans the removal of the project `id`.
    pub fn delete_statement(id: i64) -> (statement: Statement)
        ensures
            statement@ == by_id(DELETE_PROJECT@, id),
    {
        Statement::by_id(DELETE_PROJECT, id)
    }
}

} // verus!
