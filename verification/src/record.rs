//! The two kinds of record that the store keeps.

use vstd::prelude::*;
use crate::row::integer_at;
use crate::row::integer_column;
use crate::row::optional_text_at;
use crate::row::optional_text_column;
use crate::row::text_at;
use crate::row::text_column;
use crate::row::Column;
use crate::row::RowError;
use crate::value::views;
use crate::value::SqlValue;
use crate::value::ValueView;

verus! {

/// A saved shader program with its language tag and optional uniform values.
#[derive(Debug, Clone)]
pub struct Preset {
    /// The identifier; `None` until the preset has been saved once.
    pub id: Option<i64>,
    /// The display name.
    pub name: String,
    /// The full source text of the shader program.
    pub shader_code: String,
    /// The tag of the shading language or dialect.
    pub language: String,
    /// Serialized uniform parameter values, if any.
    pub uniforms: Option<String>,
    /// Set by the store at the first save, never by the caller.
    pub created_at: Option<String>,
    /// Set by the store at every save.
    pub updated_at: Option<String>,
}

/// A saved bundle of shader definitions with optional audio configuration.
#[derive(Debug, Clone)]
pub struct Project {
    /// The identifier; `None` until the project has been saved once.
    pub id: Option<i64>,
    /// The display name.
    pub name: String,
    /// Serialized shader definitions.
    pub shaders: String,
    /// Serialized audio configuration, if any.
    pub audio_settings: Option<String>,
    /// Set by the store at the first save, never by the caller.
    pub created_at: Option<String>,
    /// Set by the store at every save.
    pub updated_at: Option<String>,
}

/// A [`Preset`] with its strings as sequences of characters.
pub struct PresetView {
    pub id: Option<i64>,
    pub name: Seq<char>,
    pub shader_code: Seq<char>,
    pub language: Seq<char>,
    pub uniforms: Option<Seq<char>>,
    pub created_at: Option<Seq<char>>,
    pub updated_at: Option<Seq<char>>,
}

/// A [`Project`] with its strings as sequences of characters.
pub struct ProjectView {
    pub id: Option<i64>,
    pub name: Seq<char>,
    pub shaders: Seq<char>,
    pub audio_settings: Option<Seq<char>>,
    pub created_at: Option<Seq<char>>,
    pub updated_at: Option<Seq<char>>,
}

/// The characters of an optional string.
pub open spec fn optional_text(text: Option<String>) -> Option<Seq<char>> {
    match text {
        Some(s) => Some(s@),
        None => None,
    }
}

impl View for Preset {
    type V = PresetView;

    open spec fn view(&self) -> PresetView {
        PresetView {
            id: self.id,
            name: self.name@,
            shader_code: self.shader_code@,
            language: self.language@,
            uniforms: optional_text(self.uniforms),
            created_at: optional_text(self.created_at),
            updated_at: optional_text(self.updated_at),
        }
    }
}

impl View for Project {
    type V = ProjectView;

    open spec fn view(&self) -> ProjectView {
        ProjectView {
            id: self.id,
            name: self.name@,
            shaders: self.shaders@,
            audio_settings: optional_text(self.audio_settings),
            created_at: optional_text(self.created_at),
            updated_at: optional_text(self.updated_at),
        }
    }
}

/// The preset that a row of the columns `id`, `name`, `shader_code`,
/// `language`, `uniforms`, `created_at`, `updated_at` holds, or the fault of
/// the first column that has one. Columns after these seven are ignored.
pub open spec fn preset_of_row(row: Seq<ValueView>) -> Result<PresetView, RowError> {
    match integer_column(row, 0, Column::Id) {
        Err(e) => Err(e),
        Ok(id) => match text_column(row, 1, Column::Name) {
            Err(e) => Err(e),
            Ok(name) => match text_column(row, 2, Column::ShaderCode) {
                Err(e) => Err(e),
                Ok(shader_code) => match text_column(row, 3, Column::Language) {
                    Err(e) => Err(e),
                    Ok(language) => match optional_text_column(row, 4, Column::Uniforms) {
                        Err(e) => Err(e),
                        Ok(uniforms) => match optional_text_column(row, 5, Column::CreatedAt) {
                            Err(e) => Err(e),
                            Ok(created_at) => match optional_text_column(row, 6, Column::UpdatedAt) {
                                Err(e) => Err(e),
                                Ok(updated_at) => Ok(
                                    PresetView {
                                        id: Some(id),
                                        name,
                                        shader_code,
                                        language,
                                        uniforms,
                                        created_at,
                                        updated_at,
                                    },
                                ),
                            },
                        },
                    },
                },
            },
        },
    }
}

/// The project that a row of the columns `id`, `name`, `shaders`,
/// `audio_settings`, `created_at`, `updated_at` holds, or the fault of the
/// first column that has one. Columns after these six are ignored.
pub open spec fn project_of_row(row: Seq<ValueView>) -> Result<ProjectView, RowError> {
    match integer_column(row, 0, Column::Id) {
        Err(e) => Err(e),
        Ok(id) => match text_column(row, 1, Column::Name) {
            Err(e) => Err(e),
            Ok(name) => match text_column(row, 2, Column::Shaders) {
                Err(e) => Err(e),
                Ok(shaders) => match optional_text_column(row, 3, Column::AudioSettings) {
                    Err(e) => Err(e),
                    Ok(audio_settings) => match optional_text_column(row, 4, Column::CreatedAt) {
                        Err(e) => Err(e),
                        Ok(created_at) => match optional_text_column(row, 5, Column::UpdatedAt) {
                            Err(e) => Err(e),
                            Ok(updated_at) => Ok(
                                ProjectView {
                                    id: Some(id),
                                    name,
                                    shaders,
                                    audio_settings,
                                    created_at,
                                    updated_at,
                                },
                            ),
                        },
                    },
                },
            },
        },
    }
}

/// The view of an optional preset.
pub open spec fn optional_preset(preset: Option<Preset>) -> Option<PresetView> {
    match preset {
        Some(p) => Some(p@),
        None => None,
    }
}

/// The view of an optional project.
pub open spec fn optional_project(project: Option<Project>) -> Option<ProjectView> {
    match project {
        Some(p) => Some(p@),
        None => None,
    }
}

/// The view of what the fetch of one row gave: the row, or nothing.
pub open spec fn fetched_view(fetched: Option<Vec<SqlValue>>) -> Option<Seq<ValueView>> {
    match fetched {
        Some(row) => Some(views(row@)),
        None => None,
    }
}

/// The preset that the fetch of one row gave: none where there was no row,
/// else the preset that the row holds, or its fault.
pub open spec fn preset_of_fetched(fetched: Option<Seq<ValueView>>) -> Result<
    Option<PresetView>,
    RowError,
> {
    match fetched {
        None => Ok(None),
        Some(row) => match preset_of_row(row) {
            Ok(preset) => Ok(Some(preset)),
            Err(e) => Err(e),
        },
    }
}

/// The project that the fetch of one row gave: none where there was no row,
/// else the project that the row holds, or its fault.
pub open spec fn project_of_fetched(fetched: Option<Seq<ValueView>>) -> Result<
    Option<ProjectView>,
    RowError,
> {
    match fetched {
        None => Ok(None),
        Some(row) => match project_of_row(row) {
            Ok(project) => Ok(Some(project)),
            Err(e) => Err(e),
        },
    }
}

/// The views of fetched rows, in the same order.
pub open spec fn row_views(rows: Seq<Vec<SqlValue>>) -> Seq<Seq<ValueView>> {
    rows.map_values(|row: Vec<SqlValue>| views(row@))
}

/// The views of presets, in the same order.
pub open spec fn preset_views(presets: Seq<Preset>) -> Seq<PresetView> {
    presets.map_values(|p: Preset| p@)
}

/// The views of projects, in the same order.
pub open spec fn project_views(projects: Seq<Project>) -> Seq<ProjectView> {
    projects.map_values(|p: Project| p@)
}

/// Whether row `i` is the first of `rows` that holds no preset.
pub open spec fn first_preset_fault(rows: Seq<Seq<ValueView>>, i: int) -> bool {
    &&& 0 <= i < rows.len()
    &&& preset_of_row(rows[i]) is Err
    &&& forall|j: int| 0 <= j < i ==> (#[trigger] preset_of_row(rows[j])) is Ok
}

/// The presets that `rows` hold, in the order of the rows, or the fault of
/// the first row that holds none.
pub open spec fn presets_of_rows(rows: Seq<Seq<ValueView>>) -> Result<Seq<PresetView>, RowError> {
    if exists|i: int| first_preset_fault(rows, i) {
        Err(preset_of_row(rows[choose|i: int| first_preset_fault(rows, i)])->Err_0)
    } else {
        Ok(Seq::new(rows.len(), |i: int| preset_of_row(rows[i])->Ok_0))
    }
}

/// Whether row `i` is the first of `rows` that holds no project.
pub open spec fn first_project_fault(rows: Seq<Seq<ValueView>>, i: int) -> bool {
    &&& 0 <= i < rows.len()
    &&& project_of_row(rows[i]) is Err
    &&& forall|j: int| 0 <= j < i ==> (#[trigger] project_of_row(rows[j])) is Ok
}

/// The projects that `rows` hold, in the order of the rows, or the fault of
/// the first row that holds none.
pub open spec fn projects_of_rows(rows: Seq<Seq<ValueView>>) -> Result<
    Seq<ProjectView>,
    RowError,
> {
    if exists|i: int| first_project_fault(rows, i) {
        Err(project_of_row(rows[choose|i: int| first_project_fault(rows, i)])->Err_0)
    } else {
        Ok(Seq::new(rows.len(), |i: int| project_of_row(rows[i])->Ok_0))
    }
}

impl Preset {
    /// Decodes one fetched row into a preset.
    pub fn from_row(row: &Vec<SqlValue>) -> (decoded: Result<Preset, RowError>)
        ensures
            match decoded {
                Ok(preset) => preset_of_row(views(row@)) == Ok::<PresetView, RowError>(preset@),
                Err(e) => preset_of_row(views(row@)) == Err::<PresetView, RowError>(e),
            },
    {
        let id = match integer_at(row, 0, Column::Id) {
            Ok(id) => id,
            Err(e) => return Err(e),
        };
        let name = match text_at(row, 1, Column::Name) {
            Ok(name) => name,
            Err(e) => return Err(e),
        };
        let shader_code = match text_at(row, 2, Column::ShaderCode) {
            Ok(shader_code) => shader_code,
            Err(e) => return Err(e),
        };
        let language = match text_at(row, 3, Column::Language) {
            Ok(language) => language,
            Err(e) => return Err(e),
        };
        let uniforms = match optional_text_at(row, 4, Column::Uniforms) {
            Ok(uniforms) => uniforms,
            Err(e) => return Err(e),
        };
        let created_at = match optional_text_at(row, 5, Column::CreatedAt) {
            Ok(created_at) => created_at,
            Err(e) => return Err(e),
        };
        let updated_at = match optional_text_at(row, 6, Column::UpdatedAt) {
            Ok(updated_at) => updated_at,
            Err(e) => return Err(e),
        };
        Ok(Preset { id: Some(id), name, shader_code, language, uniforms, created_at, updated_at })
    }

    /// Decodes what the fetch of one row gave: no row is no preset, and no
    /// failure.
    pub fn from_fetched(fetched: &Option<Vec<SqlValue>>) -> (decoded: Result<
        Option<Preset>,
        RowError,
    >)
        ensures
            *fetched is None ==> decoded matches Ok(None),
            match decoded {
                Ok(preset) => preset_of_fetched(fetched_view(*fetched)) == Ok::<
                    Option<PresetView>,
                    RowError,
                >(optional_preset(preset)),
                Err(e) => preset_of_fetched(fetched_view(*fetched)) == Err::<
                    Option<PresetView>,
                    RowError,
                >(e),
            },
    {
        match fetched {
            None => Ok(None),
            Some(row) => match Preset::from_row(row) {
                Ok(preset) => Ok(Some(preset)),
                Err(e) => Err(e),
            },
        }
    }

    /// Decodes fetched rows into presets, in the order of the rows. The first
    /// row that does not decode ends the work with its fault.
    pub fn from_rows(rows: &Vec<Vec<SqlValue>>) -> (decoded: Result<Vec<Preset>, RowError>)
        ensures
            match decoded {
                Ok(presets) => presets_of_rows(row_views(rows@)) == Ok::<
                    Seq<PresetView>,
                    RowError,
                >(preset_views(presets@)),
                Err(e) => presets_of_rows(row_views(rows@)) == Err::<Seq<PresetView>, RowError>(e),
            },
    {
        let ghost all = row_views(rows@);
        let mut presets: Vec<Preset> = Vec::new();
        let mut at: usize = 0;
        while at < rows.len()
            invariant
                at <= rows.len(),
                all == row_views(rows@),
                presets@.len() == at,
                forall|i: int|
                    0 <= i < at ==> #[trigger] preset_of_row(all[i]) == Ok::<PresetView, RowError>(
                        presets@[i]@,
                    ),
            decreases rows.len() - at,
        {
            match Preset::from_row(&rows[at]) {
                Ok(preset) => presets.push(preset),
                Err(e) => {
                    proof {
                        assert(first_preset_fault(all, at as int));
                        let first = choose|i: int| first_preset_fault(all, i);
                        assert(first == at) by {
                            if first < at {
                                assert(preset_of_row(all[first]) is Ok);
                            } else if first > at {
                                assert(preset_of_row(all[at as int]) is Ok);
                            }
                        }
                    }
                    return Err(e);
                },
            }
            at += 1;
        }
        proof {
            assert forall|i: int| !first_preset_fault(all, i) by {
                if 0 <= i < all.len() {
                    assert(preset_of_row(all[i]) is Ok);
                }
            }
            assert(preset_views(presets@) =~= Seq::new(
                all.len(),
                |i: int| preset_of_row(all[i])->Ok_0,
            ));
        }
        Ok(presets)
    }
}

impl Project {
    /// Decodes one fetched row into a project.
    pub fn from_row(row: &Vec<SqlValue>) -> (decoded: Result<Project, RowError>)
        ensures
            match decoded {
                Ok(project) => project_of_row(views(row@)) == Ok::<ProjectView, RowError>(
                    project@,
                ),
                Err(e) => project_of_row(views(row@)) == Err::<ProjectView, RowError>(e),
            },
    {
        let id = match integer_at(row, 0, Column::Id) {
            Ok(id) => id,
            Err(e) => return Err(e),
        };
        let name = match text_at(row, 1, Column::Name) {
            Ok(name) => name,
            Err(e) => return Err(e),
        };
        let shaders = match text_at(row, 2, Column::Shaders) {
            Ok(shaders) => shaders,
            Err(e) => return Err(e),
        };
        let audio_settings = match optional_text_at(row, 3, Column::AudioSettings) {
            Ok(audio_settings) => audio_settings,
            Err(e) => return Err(e),
        };
        let created_at = match optional_text_at(row, 4, Column::CreatedAt) {
            Ok(created_at) => created_at,
            Err(e) => return Err(e),
        };
        let updated_at = match optional_text_at(row, 5, Column::UpdatedAt) {
            Ok(updated_at) => updated_at,
            Err(e) => return Err(e),
        };
        Ok(Project { id: Some(id), name, shaders, audio_settings, created_at, updated_at })
    }

    /// Decodes what the fetch of one row gave: no row is no project, and no
    /// failure.
    pub fn from_fetched(fetched: &Option<Vec<SqlValue>>) -> (decoded: Result<
        Option<Project>,
        RowError,
    >)
        ensures
            *fetched is None ==> decoded matches Ok(None),
            match decoded {
                Ok(project) => project_of_fetched(fetched_view(*fetched)) == Ok::<
                    Option<ProjectView>,
                    RowError,
                >(optional_project(project)),
                Err(e) => project_of_fetched(fetched_view(*fetched)) == Err::<
                    Option<ProjectView>,
                    RowError,
                >(e),
            },
    {
        match fetched {
            None => Ok(None),
            Some(row) => match Project::from_row(row) {
                Ok(project) => Ok(Some(project)),
                Err(e) => Err(e),
            },
        }
    }

    /// Decodes fetched rows into projects, in the order of the rows. The
    /// first row that does not decode ends the work with its fault.
    pub fn from_rows(rows: &Vec<Vec<SqlValue>>) -> (decoded: Result<Vec<Project>, RowError>)
        ensures
            match decoded {
                Ok(projects) => projects_of_rows(row_views(rows@)) == Ok::<
                    Seq<ProjectView>,
                    RowError,
                >(project_views(projects@)),
                Err(e) => projects_of_rows(row_views(rows@)) == Err::<Seq<ProjectView>, RowError>(e),
            },
    {
        let ghost all = row_views(rows@);
        let mut projects: Vec<Project> = Vec::new();
        let mut at: usize = 0;
        while at < rows.len()
            invariant
                at <= rows.len(),
                all == row_views(rows@),
                projects@.len() == at,
                forall|i: int|
                    0 <= i < at ==> #[trigger] project_of_row(all[i]) == Ok::<ProjectView, RowError>(
                        projects@[i]@,
                    ),
            decreases rows.len() - at,
        {
            match Project::from_row(&rows[at]) {
                Ok(project) => projects.push(project),
                Err(e) => {
                    proof {
                        assert(first_project_fault(all, at as int));
                        let first = choose|i: int| first_project_fault(all, i);
                        assert(first == at) by {
                            if first < at {
                                assert(project_of_row(all[first]) is Ok);
                            } else if first > at {
                                assert(project_of_row(all[at as int]) is Ok);
                            }
                        }
                    }
                    return Err(e);
                },
            }
            at += 1;
        }
        proof {
            assert forall|i: int| !first_project_fault(all, i) by {
                if 0 <= i < all.len() {
                    assert(project_of_row(all[i]) is Ok);
                }
            }
            assert(project_views(projects@) =~= Seq::new(
                all.len(),
                |i: int| project_of_row(all[i])->Ok_0,
            ));
        }
        Ok(projects)
    }
}

} // verus!
