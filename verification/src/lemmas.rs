//! What the planning of statements and the decoding of rows guarantee
//! together.
//!
//! The store writes a record as the values that a statement binds and reads
//! it as a row. The proofs here show that the two sides agree: on the order
//! of the columns, on who sets the timestamps, and on what a record looks
//! like once it has been read. What the engine does between the two is not
//! within their reach.

use vstd::prelude::*;
use crate::database::fetched_preset;
use crate::database::fetched_project;
use crate::database::listed_presets;
use crate::database::listed_projects;
use crate::record::first_preset_fault;
use crate::record::first_project_fault;
use crate::record::preset_of_row;
use crate::record::preset_views;
use crate::record::presets_of_rows;
use crate::record::project_of_row;
use crate::record::project_views;
use crate::record::projects_of_rows;
use crate::record::Preset;
use crate::record::PresetView;
use crate::record::Project;
use crate::record::ProjectView;
use crate::row::RowError;
use crate::statement::optional_text_value;
use crate::statement::preset_insert;
use crate::statement::preset_save;
use crate::statement::preset_update;
use crate::statement::project_insert;
use crate::statement::project_save;
use crate::statement::project_update;
use crate::error::Failure;
use crate::transcript::preset_fetch_report;
use crate::transcript::project_fetch_report;
use crate::transcript::preset_list_report;
use crate::transcript::project_list_report;
use crate::transcript::removal_report;
use crate::transcript::save_report;
use crate::transcript::timed_save_calls;
use crate::transcript::timed_save_report;
use crate::transcript::Exchange;
use crate::transcript::Answer;
use crate::value::ValueView;

verus! {

/// A row that holds an identifier followed by the values that the insert of
/// a preset binds decodes to that preset, with the identifier filled in and
/// with both timestamps equal to the time of the save.
pub proof fn lemma_inserted_preset_reads_back(preset: PresetView, now: Seq<char>, id: i64)
    ensures
        preset_of_row(seq![ValueView::Integer(id)] + preset_insert(preset, now).params) == Ok::<
            PresetView,
            RowError,
        >(
            PresetView {
                id: Some(id),
                name: preset.name,
                shader_code: preset.shader_code,
                language: preset.language,
                uniforms: preset.uniforms,
                created_at: Some(now),
                updated_at: Some(now),
            },
        ),
{
}

/// A row that holds an identifier followed by the values that the insert of
/// a project binds decodes to that project, with the identifier filled in and
/// with both timestamps equal to the time of the save.
pub proof fn lemma_inserted_project_reads_back(project: ProjectView, now: Seq<char>, id: i64)
    ensures
        project_of_row(seq![ValueView::Integer(id)] + project_insert(project, now).params) == Ok::<
            ProjectView,
            RowError,
        >(
            ProjectView {
                id: Some(id),
                name: project.name,
                shaders: project.shaders,
                audio_settings: project.audio_settings,
                created_at: Some(now),
                updated_at: Some(now),
            },
        ),
{
}

/// A row that holds, in the order of the columns that a fetch selects, the
/// identifier that the overwrite of a preset names, the values that it binds
/// for `name`, `shader_code`, `language` and `uniforms`, any `created_at`, and
/// the value that it binds for `updated_at`, decodes to the preset that was
/// saved, with that `created_at` and with the time of the save as
/// `updated_at`.
pub proof fn lemma_overwritten_preset_reads_back(
    preset: PresetView,
    now: Seq<char>,
    id: i64,
    created_at: Option<Seq<char>>,
)
    ensures
        ({
            let bound = preset_update(preset, now, id).params;
            preset_of_row(
                seq![
                    bound[5],
                    bound[0],
                    bound[1],
                    bound[2],
                    bound[3],
                    optional_text_value(created_at),
                    bound[4],
                ],
            ) == Ok::<PresetView, RowError>(
                PresetView {
                    id: Some(id),
                    name: preset.name,
                    shader_code: preset.shader_code,
                    language: preset.language,
                    uniforms: preset.uniforms,
                    created_at,
                    updated_at: Some(now),
                },
            )
        }),
{
}

/// A row that holds, in the order of the columns that a fetch selects, the
/// identifier that the overwrite of a project names, the values that it binds
/// for `name`, `shaders` and `audio_settings`, any `created_at`, and the value
/// that it binds for `updated_at`, decodes to the project that was saved, with
/// that `created_at` and with the time of the save as `updated_at`.
pub proof fn lemma_overwritten_project_reads_back(
    project: ProjectView,
    now: Seq<char>,
    id: i64,
    created_at: Option<Seq<char>>,
)
    ensures
        ({
            let bound = project_update(project, now, id).params;
            project_of_row(
                seq![
                    bound[4],
                    bound[0],
                    bound[1],
                    bound[2],
                    optional_text_value(created_at),
                    bound[3],
                ],
            ) == Ok::<ProjectView, RowError>(
                ProjectView {
                    id: Some(id),
                    name: project.name,
                    shaders: project.shaders,
                    audio_settings: project.audio_settings,
                    created_at,
                    updated_at: Some(now),
                },
            )
        }),
{
}

/// The timestamps of a save are the store's: two presets that differ in
/// `created_at` and `updated_at` only are saved by the same statement.
pub proof fn lemma_preset_timestamps_are_not_the_callers(
    preset: PresetView,
    other: PresetView,
    now: Seq<char>,
)
    requires
        other.id == preset.id,
        other.name == preset.name,
        other.shader_code == preset.shader_code,
        other.language == preset.language,
        other.uniforms == preset.uniforms,
    ensures
        preset_save(other, now) == preset_save(preset, now),
{
}

/// The timestamps of a save are the store's: two projects that differ in
/// `created_at` and `updated_at` only are saved by the same statement.
pub proof fn lemma_project_timestamps_are_not_the_callers(
    project: ProjectView,
    other: ProjectView,
    now: Seq<char>,
)
    requires
        other.id == project.id,
        other.name == project.name,
        other.shaders == project.shaders,
        other.audio_settings == project.audio_settings,
    ensures
        project_save(other, now) == project_save(project, now),
{
}

/// A fetch sees what an insert wrote, as far as the store decides. Where a
/// save at the current time of a preset without an identifier reported the
/// identifier `id`, and the engine answers a fetch with a row of that
/// identifier followed by the values that the save bound, the fetch reports
/// the preset as it was saved, with the identifier filled in and with the time
/// that the save read as both timestamps.
pub proof fn lemma_fetch_after_insert_of_preset(preset: PresetView, added: Seq<Exchange>, id: i64)
    requires
        preset.id is None,
        timed_save_calls(added, |now: Seq<char>| preset_save(preset, now), preset.id),
        timed_save_report(preset.id, added) == Ok::<i64, Failure>(id),
    ensures
        ({
            let now = added[0].answer->Time_0;
            let bound = added[1].call->Execute_0.params;
            preset_fetch_report(Answer::Row(Some(seq![ValueView::Integer(id)] + bound))) == Ok::<
                Option<PresetView>,
                Failure,
            >(Some(PresetView { id: Some(id), created_at: Some(now), updated_at: Some(now), ..preset }))
        }),
{
    let now = added[0].answer->Time_0;
    assert(added.skip(1)[0] == added[1]);
    lemma_inserted_preset_reads_back(preset, now, id);
}

/// A fetch sees what an overwrite wrote, as far as the store decides. Where
/// a save at the current time of a preset with the identifier `id` was not
/// refused, and the engine answers a fetch with a row that holds, in the
/// order of the columns that the fetch selects, the identifier and the values
/// that the save bound, with any `created_at` in its place, the fetch reports
/// the preset as it was saved, with that `created_at` and with the time that
/// the save read as `updated_at`.
pub proof fn lemma_fetch_after_overwrite_of_preset(
    preset: PresetView,
    added: Seq<Exchange>,
    id: i64,
    created_at: Option<Seq<char>>,
)
    requires
        preset.id == Some(id),
        timed_save_calls(added, |now: Seq<char>| preset_save(preset, now), preset.id),
        timed_save_report(preset.id, added) is Ok,
    ensures
        timed_save_report(preset.id, added) == Ok::<i64, Failure>(id),
        ({
            let now = added[0].answer->Time_0;
            let bound = added[1].call->Execute_0.params;
            preset_fetch_report(Answer::Row(Some(seq![
                ValueView::Integer(id),
                bound[0],
                bound[1],
                bound[2],
                bound[3],
                optional_text_value(created_at),
                bound[4],
            ]))) == Ok::<Option<PresetView>, Failure>(
                Some(PresetView { id: Some(id), created_at, updated_at: Some(now), ..preset }),
            )
        }),
{
    let now = added[0].answer->Time_0;
    assert(added.skip(1)[0] == added[1]);
    lemma_overwritten_preset_reads_back(preset, now, id, created_at);
}

/// A listing is in the order of the rows, as far as the store decides. Where
/// the engine answers a listing with rows of which each stands in the relation
/// `before` to every later one by the value of its `updated_at` column, and
/// the listing reports presets, each of them stands in `before` to every later
/// one by its `updated_at`.
pub proof fn lemma_preset_listing_report_keeps_recency_order(
    rows: Seq<Seq<ValueView>>,
    presets: Seq<PresetView>,
    before: spec_fn(ValueView, ValueView) -> bool,
)
    requires
        preset_list_report(Answer::Rows(rows)) == Ok::<Seq<PresetView>, Failure>(presets),
        forall|i: int, j: int|
            0 <= i < j < rows.len() ==> before(#[trigger] rows[i][6], #[trigger] rows[j][6]),
    ensures
        presets.len() == rows.len(),
        forall|i: int, j: int|
            0 <= i < j < presets.len() ==> before(
                optional_text_value((#[trigger] presets[i]).updated_at),
                optional_text_value((#[trigger] presets[j]).updated_at),
            ),
{
    lemma_preset_listing_keeps_row_order(rows, presets);
    lemma_preset_listing_keeps_recency_order(rows, presets, before);
}

/// A fetch sees what an insert wrote, as far as the store decides. Where a
/// save at the current time of a project without an identifier reported the
/// identifier `id`, and the engine answers a fetch with a row of that
/// identifier followed by the values that the save bound, the fetch reports
/// the project as it was saved, with the identifier filled in and with the time
/// that the save read as both timestamps.
pub proof fn lemma_fetch_after_insert_of_project(project: ProjectView, added: Seq<Exchange>, id: i64)
    requires
        project.id is None,
        timed_save_calls(added, |now: Seq<char>| project_save(project, now), project.id),
        timed_save_report(project.id, added) == Ok::<i64, Failure>(id),
    ensures
        ({
            let now = added[0].answer->Time_0;
            let bound = added[1].call->Execute_0.params;
            project_fetch_report(Answer::Row(Some(seq![ValueView::Integer(id)] + bound))) == Ok::<
                Option<ProjectView>,
                Failure,
            >(Some(ProjectView { id: Some(id), created_at: Some(now), updated_at: Some(now), ..project }))
        }),
{
    let now = added[0].answer->Time_0;
    assert(added.skip(1)[0] == added[1]);
    lemma_inserted_project_reads_back(project, now, id);
}

/// A fetch sees what an overwrite wrote, as far as the store decides. Where
/// a save at the current time of a project with the identifier `id` was not
/// refused, and the engine answers a fetch with a row that holds, in the
/// order of the columns that the fetch selects, the identifier and the values
/// that the save bound, with any `created_at` in its place, the fetch reports
/// the project as it was saved, with that `created_at` and with the time that
/// the save read as `updated_at`.
pub proof fn lemma_fetch_after_overwrite_of_project(
    project: ProjectView,
    added: Seq<Exchange>,
    id: i64,
    created_at: Option<Seq<char>>,
)
    requires
        project.id == Some(id),
        timed_save_calls(added, |now: Seq<char>| project_save(project, now), project.id),
        timed_save_report(project.id, added) is Ok,
    ensures
        timed_save_report(project.id, added) == Ok::<i64, Failure>(id),
        ({
            let now = added[0].answer->Time_0;
            let bound = added[1].call->Execute_0.params;
            project_fetch_report(Answer::Row(Some(seq![
                ValueView::Integer(id),
                bound[0],
                bound[1],
                bound[2],
                optional_text_value(created_at),
                bound[3],
            ]))) == Ok::<Option<ProjectView>, Failure>(
                Some(ProjectView { id: Some(id), created_at, updated_at: Some(now), ..project }),
            )
        }),
{
    let now = added[0].answer->Time_0;
    assert(added.skip(1)[0] == added[1]);
    lemma_overwritten_project_reads_back(project, now, id, created_at);
}

/// A listing is in the order of the rows, as far as the store decides. Where
/// the engine answers a listing with rows of which each stands in the relation
/// `before` to every later one by the value of its `updated_at` column, and
/// the listing reports projects, each of them stands in `before` to every later
/// one by its `updated_at`.
pub proof fn lemma_project_listing_report_keeps_recency_order(
    rows: Seq<Seq<ValueView>>,
    projects: Seq<ProjectView>,
    before: spec_fn(ValueView, ValueView) -> bool,
)
    requires
        project_list_report(Answer::Rows(rows)) == Ok::<Seq<ProjectView>, Failure>(projects),
        forall|i: int, j: int|
            0 <= i < j < rows.len() ==> before(#[trigger] rows[i][5], #[trigger] rows[j][5]),
    ensures
        projects.len() == rows.len(),
        forall|i: int, j: int|
            0 <= i < j < projects.len() ==> before(
                optional_text_value((#[trigger] projects[i]).updated_at),
                optional_text_value((#[trigger] projects[j]).updated_at),
            ),
{
    lemma_project_listing_keeps_row_order(rows, projects);
    lemma_project_listing_keeps_recency_order(rows, projects, before);
}

/// A fetch that the engine answers with no row reports no record, and no
/// failure.
pub proof fn lemma_no_row_is_no_record()
    ensures
        preset_fetch_report(Answer::Row(None)) == Ok::<Option<PresetView>, Failure>(None),
        project_fetch_report(Answer::Row(None)) == Ok::<Option<ProjectView>, Failure>(None),
{
}

/// A removal that the engine does not refuse reports success, whatever the
/// number of rows removed, zero too.
pub proof fn lemma_removal_succeeds_for_every_count(removed: usize)
    ensures
        removal_report(Answer::Changed(removed)) == Ok::<(), Failure>(()),
{
}

/// A record that has an identifier keeps it through a save: where the
/// engine did not refuse the statement, the save reports that identifier,
/// whatever the number of rows changed.
pub proof fn lemma_save_keeps_identifier(id: i64, added: Seq<Exchange>)
    requires
        !(added[0].answer is Refused),
    ensures
        save_report(Some(id), added) == Ok::<i64, Failure>(id),
{
}

/// A preset that a fetch hands out has an identifier.
pub proof fn lemma_fetched_preset_has_identifier(preset: Preset)
    requires
        fetched_preset(Some(preset)),
    ensures
        preset.id is Some,
{
}

/// A project that a fetch hands out has an identifier.
pub proof fn lemma_fetched_project_has_identifier(project: Project)
    requires
        fetched_project(Some(project)),
    ensures
        project.id is Some,
{
}

/// Where some row holds no preset, some row is the first that holds none.
proof fn lemma_preset_fault_has_first(rows: Seq<Seq<ValueView>>, i: int)
    requires
        0 <= i < rows.len(),
        preset_of_row(rows[i]) is Err,
    ensures
        exists|k: int| first_preset_fault(rows, k),
    decreases i,
{
    if exists|j: int| 0 <= j < i && (#[trigger] preset_of_row(rows[j])) is Err {
        let j = choose|j: int| 0 <= j < i && (#[trigger] preset_of_row(rows[j])) is Err;
        lemma_preset_fault_has_first(rows, j);
    } else {
        assert(first_preset_fault(rows, i));
    }
}

/// Where some row holds no project, some row is the first that holds none.
proof fn lemma_project_fault_has_first(rows: Seq<Seq<ValueView>>, i: int)
    requires
        0 <= i < rows.len(),
        project_of_row(rows[i]) is Err,
    ensures
        exists|k: int| first_project_fault(rows, k),
    decreases i,
{
    if exists|j: int| 0 <= j < i && (#[trigger] project_of_row(rows[j])) is Err {
        let j = choose|j: int| 0 <= j < i && (#[trigger] project_of_row(rows[j])) is Err;
        lemma_project_fault_has_first(rows, j);
    } else {
        assert(first_project_fault(rows, i));
    }
}

/// A listing of presets keeps the order of the rows: it holds one preset for
/// each row, and the preset at each place is the one that the row at that
/// place holds.
pub proof fn lemma_preset_listing_keeps_row_order(
    rows: Seq<Seq<ValueView>>,
    presets: Seq<PresetView>,
)
    requires
        presets_of_rows(rows) == Ok::<Seq<PresetView>, RowError>(presets),
    ensures
        presets.len() == rows.len(),
        forall|i: int|
            0 <= i < rows.len() ==> #[trigger] preset_of_row(rows[i]) == Ok::<PresetView, RowError>(
                presets[i],
            ),
{
    assert forall|i: int| 0 <= i < rows.len() implies #[trigger] preset_of_row(rows[i]) == Ok::<
        PresetView,
        RowError,
    >(presets[i]) by {
        if preset_of_row(rows[i]) is Err {
            lemma_preset_fault_has_first(rows, i);
        }
    }
}

/// A listing of projects keeps the order of the rows: it holds one project
/// for each row, and the project at each place is the one that the row at
/// that place holds.
pub proof fn lemma_project_listing_keeps_row_order(
    rows: Seq<Seq<ValueView>>,
    projects: Seq<ProjectView>,
)
    requires
        projects_of_rows(rows) == Ok::<Seq<ProjectView>, RowError>(projects),
    ensures
        projects.len() == rows.len(),
        forall|i: int|
            0 <= i < rows.len() ==> #[trigger] project_of_row(rows[i]) == Ok::<
                ProjectView,
                RowError,
            >(projects[i]),
{
    assert forall|i: int| 0 <= i < rows.len() implies #[trigger] project_of_row(rows[i]) == Ok::<
        ProjectView,
        RowError,
    >(projects[i]) by {
        if project_of_row(rows[i]) is Err {
            lemma_project_fault_has_first(rows, i);
        }
    }
}

/// A listing of presets is ordered by `updated_at` as its rows are: where
/// each row stands in the relation `before` to every later row by the value of
/// its `updated_at` column, each preset stands in `before` to every later
/// preset by its `updated_at`.
pub proof fn lemma_preset_listing_keeps_recency_order(
    rows: Seq<Seq<ValueView>>,
    presets: Seq<PresetView>,
    before: spec_fn(ValueView, ValueView) -> bool,
)
    requires
        presets_of_rows(rows) == Ok::<Seq<PresetView>, RowError>(presets),
        forall|i: int, j: int|
            0 <= i < j < rows.len() ==> before(#[trigger] rows[i][6], #[trigger] rows[j][6]),
    ensures
        forall|i: int, j: int|
            0 <= i < j < presets.len() ==> before(
                optional_text_value((#[trigger] presets[i]).updated_at),
                optional_text_value((#[trigger] presets[j]).updated_at),
            ),
{
    lemma_preset_listing_keeps_row_order(rows, presets);
    assert forall|i: int, j: int| 0 <= i < j < presets.len() implies before(
        optional_text_value((#[trigger] presets[i]).updated_at),
        optional_text_value((#[trigger] presets[j]).updated_at),
    ) by {
        assert(preset_of_row(rows[i]) == Ok::<PresetView, RowError>(presets[i]));
        assert(preset_of_row(rows[j]) == Ok::<PresetView, RowError>(presets[j]));
        assert(optional_text_value(presets[i].updated_at) == rows[i][6]);
        assert(optional_text_value(presets[j].updated_at) == rows[j][6]);
    }
}

/// A listing of projects is ordered by `updated_at` as its rows are: where
/// each row stands in the relation `before` to every later row by the value of
/// its `updated_at` column, each project stands in `before` to every later
/// project by its `updated_at`.
pub proof fn lemma_project_listing_keeps_recency_order(
    rows: Seq<Seq<ValueView>>,
    projects: Seq<ProjectView>,
    before: spec_fn(ValueView, ValueView) -> bool,
)
    requires
        projects_of_rows(rows) == Ok::<Seq<ProjectView>, RowError>(projects),
        forall|i: int, j: int|
            0 <= i < j < rows.len() ==> before(#[trigger] rows[i][5], #[trigger] rows[j][5]),
    ensures
        forall|i: int, j: int|
            0 <= i < j < projects.len() ==> before(
                optional_text_value((#[trigger] projects[i]).updated_at),
                optional_text_value((#[trigger] projects[j]).updated_at),
            ),
{
    lemma_project_listing_keeps_row_order(rows, projects);
    assert forall|i: int, j: int| 0 <= i < j < projects.len() implies before(
        optional_text_value((#[trigger] projects[i]).updated_at),
        optional_text_value((#[trigger] projects[j]).updated_at),
    ) by {
        assert(project_of_row(rows[i]) == Ok::<ProjectView, RowError>(projects[i]));
        assert(project_of_row(rows[j]) == Ok::<ProjectView, RowError>(projects[j]));
        assert(optional_text_value(projects[i].updated_at) == rows[i][5]);
        assert(optional_text_value(projects[j].updated_at) == rows[j][5]);
    }
}

/// Every preset of a listing has an identifier.
pub proof fn lemma_listed_presets_have_identifiers(presets: Seq<Preset>)
    requires
        listed_presets(presets),
    ensures
        forall|i: int| 0 <= i < presets.len() ==> (#[trigger] presets[i]).id is Some,
{
    let rows = choose|rows: Seq<Seq<ValueView>>| #[trigger]
        presets_of_rows(rows) == Ok::<Seq<PresetView>, RowError>(preset_views(presets));
    lemma_preset_listing_keeps_row_order(rows, preset_views(presets));
    assert forall|i: int| 0 <= i < presets.len() implies (#[trigger] presets[i]).id is Some by {
        assert(preset_views(presets)[i] == presets[i]@);
        assert(preset_of_row(rows[i]) is Ok);
    }
}

/// Every project of a listing has an identifier.
pub proof fn lemma_listed_projects_have_identifiers(projects: Seq<Project>)
    requires
        listed_projects(projects),
    ensures
        forall|i: int| 0 <= i < projects.len() ==> (#[trigger] projects[i]).id is Some,
{
    let rows = choose|rows: Seq<Seq<ValueView>>| #[trigger]
        projects_of_rows(rows) == Ok::<Seq<ProjectView>, RowError>(project_views(projects));
    lemma_project_listing_keeps_row_order(rows, project_views(projects));
    assert forall|i: int| 0 <= i < projects.len() implies (#[trigger] projects[i]).id is Some by {
        assert(project_views(projects)[i] == projects[i]@);
        assert(project_of_row(rows[i]) is Ok);
    }
}

} // verus!
