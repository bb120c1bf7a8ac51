use shader_store::commands::delete_preset;
use shader_store::commands::delete_project;
use shader_store::commands::get_preset;
use shader_store::commands::get_project;
use shader_store::commands::list_presets;
use shader_store::commands::list_projects;
use shader_store::commands::reported;
use shader_store::commands::save_preset;
use shader_store::commands::save_project;
use std::path::Path;

use shader_store::database::Database;
use shader_store::error::StoreError;
use shader_store::row::RowError;
use shader_store::record::Preset;
use shader_store::record::Project;

fn ripple() -> Preset {
    Preset {
        id: None,
        name: "ripple".to_string(),
        shader_code: "void main() {}".to_string(),
        language: "glsl".to_string(),
        uniforms: Some("{}".to_string()),
        created_at: None,
        updated_at: None,
    }
}

fn jam() -> Project {
    Project {
        id: None,
        name: "jam".to_string(),
        shaders: "[]".to_string(),
        audio_settings: None,
        created_at: None,
        updated_at: None,
    }
}

#[test]
fn preset_commands_round_trip() {
    let mut db = Database::in_memory().unwrap();
    let id = save_preset(&mut db, ripple()).unwrap();
    assert_eq!(id, 1);
    let read = get_preset(&mut db, id).unwrap().unwrap();
    assert_eq!(read.name, "ripple");
    assert_eq!(read.uniforms, Some("{}".to_string()));
    assert_eq!(read.created_at, read.updated_at);
    assert_eq!(list_presets(&mut db).unwrap().len(), 1);
    assert_eq!(delete_preset(&mut db, id), Ok(()));
    assert_eq!(get_preset(&mut db, id).unwrap().map(|p| p.name), None);
    assert_eq!(delete_preset(&mut db, id), Ok(()));
    assert!(list_presets(&mut db).unwrap().is_empty());
}

#[test]
fn project_commands_round_trip() {
    let mut db = Database::in_memory().unwrap();
    let id = save_project(&mut db, jam()).unwrap();
    assert_eq!(id, 1);
    let mut renamed = jam();
    renamed.id = Some(id);
    renamed.name = "jam 2".to_string();
    assert_eq!(save_project(&mut db, renamed), Ok(id));
    let read = get_project(&mut db, id).unwrap().unwrap();
    assert_eq!(read.name, "jam 2");
    assert!(read.updated_at >= read.created_at);
    assert_eq!(list_projects(&mut db).unwrap().len(), 1);
    assert_eq!(delete_project(&mut db, id), Ok(()));
    assert!(get_project(&mut db, id).unwrap().is_none());
}

#[test]
fn commands_report_failures_as_text() {
    let path = "file:commands_fail?mode=memory&cache=shared";
    let mut db = Database::new(Path::new(path)).unwrap();
    let outside = rusqlite::Connection::open(path).unwrap();
    outside.execute("DROP TABLE presets", ()).unwrap();
    outside.execute("DROP TABLE projects", ()).unwrap();
    assert_eq!(save_preset(&mut db, ripple()), Err("no such table: presets".to_string()));
    assert_eq!(get_preset(&mut db, 1).unwrap_err(), "no such table: presets");
    assert_eq!(list_presets(&mut db).unwrap_err(), "no such table: presets");
    assert_eq!(delete_preset(&mut db, 1), Err("no such table: presets".to_string()));
    assert_eq!(save_project(&mut db, jam()), Err("no such table: projects".to_string()));
    assert_eq!(get_project(&mut db, 1).unwrap_err(), "no such table: projects");
    assert_eq!(list_projects(&mut db).unwrap_err(), "no such table: projects");
    assert_eq!(delete_project(&mut db, 1), Err("no such table: projects".to_string()));
}

#[test]
fn commands_report_malformed_rows_as_text() {
    let path = "file:commands_malformed?mode=memory&cache=shared";
    let mut db = Database::new(Path::new(path)).unwrap();
    let outside = rusqlite::Connection::open(path).unwrap();
    outside
        .execute("INSERT INTO projects (name, shaders) VALUES ('n', x'00')", ())
        .unwrap();
    assert_eq!(get_project(&mut db, 1).unwrap_err(), "Invalid column type Blob at index: 2, name: shaders");
    assert_eq!(list_projects(&mut db).unwrap_err(), "Invalid column type Blob at index: 2, name: shaders");
}

#[test]
fn success_is_kept_and_failure_becomes_its_text() {
    assert_eq!(reported(Ok::<i64, StoreError>(7)), Ok(7));
    assert_eq!(reported(Ok::<(), StoreError>(())), Ok(()));
    assert_eq!(
        reported::<i64>(Err(StoreError::Statement("database is locked".to_string()))),
        Err("database is locked".to_string())
    );
    assert_eq!(
        reported::<()>(Err(StoreError::Init("unable to open database file".to_string()))),
        Err("unable to open database file".to_string())
    );
    assert_eq!(
        reported::<()>(Err(StoreError::MalformedRow(RowError::MissingColumn { index: 4 }))),
        Err("Invalid column index: 4".to_string())
    );
}
