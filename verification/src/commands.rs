//! The operations of the store as a caller outside the process sees them:
//! each failure is reduced to its description by [`reported`].

use vstd::prelude::*;
use crate::database::fetched_preset;
use crate::database::fetched_project;
use crate::database::listed_presets;
use crate::database::listed_projects;
use crate::database::Database;
use crate::error::error_text;
use crate::error::StoreError;
use crate::record::Preset;
use crate::record::Project;
use crate::record::optional_preset;
use crate::record::optional_project;
use crate::record::preset_views;
use crate::record::project_views;
use crate::record::PresetView;
use crate::record::ProjectView;
use crate::statement::by_id;
use crate::statement::plain;
use crate::statement::preset_save;
use crate::statement::project_save;
use crate::statement::DELETE_PRESET;
use crate::statement::DELETE_PROJECT;
use crate::statement::LIST_PRESETS;
use crate::statement::LIST_PROJECTS;
use crate::statement::SELECT_PRESET;
use crate::statement::SELECT_PROJECT;
use crate::transcript::described;
use crate::transcript::extends;
use crate::transcript::one_execution;
use crate::transcript::one_fetch;
use crate::transcript::one_listing;
use crate::transcript::preset_fetch_report;
use crate::transcript::preset_list_report;
use crate::transcript::project_fetch_report;
use crate::transcript::project_list_report;
use crate::transcript::removal_report;
use crate::transcript::since;
use crate::transcript::timed_save_calls;
use crate::transcript::timed_save_report;

verus! {

/// Reduces the failure of an operation to its description and leaves its
/// success as it is.
pub fn reported<T>(result: Result<T, StoreError>) -> (outcome: Result<T, String>)
    ensures
        match result {
            Ok(value) => outcome == Ok::<T, String>(value),
            Err(e) => outcome matches Err(text) && text@ == error_text(e),
        },
{
    match result {
        Ok(value) => Ok(value),
        Err(e) => Err(e.message()),
    }
}

/// Whether `result` can come out of a save of a record that came with the
/// identifier `given`.
pub open spec fn save_result(given: Option<i64>, result: Result<i64, String>) -> bool {
    given matches Some(own) ==> (result matches Ok(id) ==> id == own)
}

/// A result of text failures with that text as a sequence of characters.
pub open spec fn text_view<T>(result: Result<T, String>) -> Result<T, Seq<char>> {
    match result {
        Ok(value) => Ok(value),
        Err(text) => Err(text@),
    }
}

/// The result of the fetch of one preset, as views.
pub open spec fn preset_text_view(result: Result<Option<Preset>, String>) -> Result<
    Option<PresetView>,
    Seq<char>,
> {
    match result {
        Ok(preset) => Ok(optional_preset(preset)),
        Err(text) => Err(text@),
    }
}

/// The result of the fetch of one project, as views.
pub open spec fn project_text_view(result: Result<Option<Project>, String>) -> Result<
    Option<ProjectView>,
    Seq<char>,
> {
    match result {
        Ok(project) => Ok(optional_project(project)),
        Err(text) => Err(text@),
    }
}

/// The result of the fetch of all presets, as views.
pub open spec fn presets_text_view(result: Result<Vec<Preset>, String>) -> Result<
    Seq<PresetView>,
    Seq<char>,
> {
    match result {
        Ok(presets) => Ok(preset_views(presets@)),
        Err(text) => Err(text@),
    }
}

/// The result of the fetch of all projects, as views.
pub open spec fn projects_text_view(result: Result<Vec<Project>, String>) -> Result<
    Seq<ProjectView>,
    Seq<char>,
> {
    match result {
        Ok(projects) => Ok(project_views(projects@)),
        Err(text) => Err(text@),
    }
}

/// Saves `preset` at the current time and returns its identifier: the clock
/// is read, the statement that saves the preset at that time is run, and the
/// result is what the save reports for the engine's answer, a failure as its
/// description.
pub fn save_preset(db: &mut Database, preset: Preset) -> (saved: Result<i64, String>)
    ensures
        save_result(preset.id, saved),
        extends(old(db).transcript(), final(db).transcript()),
        timed_save_calls(
            since(old(db).transcript(), final(db).transcript()),
            |now: Seq<char>| preset_save(preset@, now),
            preset.id,
        ),
        text_view(saved) == described(
            timed_save_report(preset.id, since(old(db).transcript(), final(db).transcript())),
        ),
{
    reported(db.save_preset(preset))
}

/// Fetches the preset `id`; `None` where there is none: the query for the
/// preset of that identifier is run, and the result is what the fetch reports
/// for the engine's answer, a failure as its description.
pub fn get_preset(db: &mut Database, id: i64) -> (found: Result<Option<Preset>, String>)
    ensures
        found matches Ok(preset) ==> fetched_preset(preset),
        extends(old(db).transcript(), final(db).transcript()),
        one_fetch(since(old(db).transcript(), final(db).transcript()), by_id(SELECT_PRESET@, id)),
        preset_text_view(found) == described(
            preset_fetch_report(since(old(db).transcript(), final(db).transcript())[0].answer),
        ),
{
    reported(db.get_preset(id))
}

/// Fetches all presets, most recently saved first: the query for all presets
/// is run, and the result is what the listing reports for the engine's
/// answer, a failure as its description.
pub fn list_presets(db: &mut Database) -> (listed: Result<Vec<Preset>, String>)
    ensures
        listed matches Ok(presets) ==> listed_presets(presets@),
        extends(old(db).transcript(), final(db).transcript()),
        one_listing(since(old(db).transcript(), final(db).transcript()), plain(LIST_PRESETS@)),
        presets_text_view(listed) == described(
            preset_list_report(since(old(db).transcript(), final(db).transcript())[0].answer),
        ),
{
    reported(db.list_presets())
}

/// Removes the preset `id`, if there is one: the statement that removes the
/// preset of that identifier is run, and the result is what the removal
/// reports for the engine's answer, a failure as its description.
pub fn delete_preset(db: &mut Database, id: i64) -> (deleted: Result<(), String>)
    ensures
        extends(old(db).transcript(), final(db).transcript()),
        one_execution(
            since(old(db).transcript(), final(db).transcript()),
            by_id(DELETE_PRESET@, id),
        ),
        text_view(deleted) == described(
            removal_report(since(old(db).transcript(), final(db).transcript())[0].answer),
        ),
{
    reported(db.delete_preset(id))
}

/// Saves `project` at the current time and returns its identifier: the clock
/// is read, the statement that saves the project at that time is run, and the
/// result is what the save reports for the engine's answer, a failure as its
/// description.
pub fn save_project(db: &mut Database, project: Project) -> (saved: Result<i64, String>)
    ensures
        save_result(project.id, saved),
        extends(old(db).transcript(), final(db).transcript()),
        timed_save_calls(
            since(old(db).transcript(), final(db).transcript()),
            |now: Seq<char>| project_save(project@, now),
            project.id,
        ),
        text_view(saved) == described(
            timed_save_report(project.id, since(old(db).transcript(), final(db).transcript())),
        ),
{
    reported(db.save_project(project))
}

/// Fetches the project `id`; `None` where there is none: the query for the
/// project of that identifier is run, and the result is what the fetch reports
/// for the engine's answer, a failure as its description.
pub fn get_project(db: &mut Database, id: i64) -> (found: Result<Option<Project>, String>)
    ensures
        found matches Ok(project) ==> fetched_project(project),
        extends(old(db).transcript(), final(db).transcript()),
        one_fetch(since(old(db).transcript(), final(db).transcript()), by_id(SELECT_PROJECT@, id)),
        project_text_view(found) == described(
            project_fetch_report(since(old(db).transcript(), final(db).transcript())[0].answer),
        ),
{
    reported(db.get_project(id))
}

/// Fetches all projects, most recently saved first: the query for all projects
/// is run, and the result is what the listing reports for the engine's
/// answer, a failure as its description.
pub fn list_projects(db: &mut Database) -> (listed: Result<Vec<Project>, String>)
    ensures
        listed matches Ok(projects) ==> listed_projects(projects@),
        extends(old(db).transcript(), final(db).transcript()),
        one_listing(since(old(db).transcript(), final(db).transcript()), plain(LIST_PROJECTS@)),
        projects_text_view(listed) == described(
            project_list_report(since(old(db).transcript(), final(db).transcript())[0].answer),
        ),
{
    reported(db.list_projects())
}

/// Removes the project `id`, if there is one: the statement that removes the
/// project of that identifier is run, and the result is what the removal
/// reports for the engine's answer, a failure as its description.
pub fn delete_project(db: &mut Database, id: i64) -> (deleted: Result<(), String>)
    ensures
        extends(old(db).transcript(), final(db).transcript()),
        one_execution(
            since(old(db).transcript(), final(db).transcript()),
            by_id(DELETE_PROJECT@, id),
        ),
        text_view(deleted) == described(
            removal_report(since(old(db).transcript(), final(db).transcript())[0].answer),
        ),
{
    reported(db.delete_project(id))
}

} // verus!
