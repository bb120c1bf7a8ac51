use std::path::Path;

use shader_store::database::Database;
use shader_store::error::StoreError;
use shader_store::record::Preset;
use shader_store::record::Project;
use shader_store::row::Column;
use shader_store::row::RowError;
use shader_store::row::StorageClass;

const T1: &str = "2024-01-01T10:00:00+00:00";
const T2: &str = "2024-01-01T10:00:01+00:00";
const T3: &str = "2024-01-01T10:00:02+00:00";
const T4: &str = "2024-01-01T10:00:03+00:00";

fn preset(name: &str) -> Preset {
    Preset {
        id: None,
        name: name.to_string(),
        shader_code: "void main() {}".to_string(),
        language: "glsl".to_string(),
        uniforms: None,
        created_at: None,
        updated_at: None,
    }
}

fn project(name: &str) -> Project {
    Project {
        id: None,
        name: name.to_string(),
        shaders: "[{\"code\":\"void main() {}\"}]".to_string(),
        audio_settings: None,
        created_at: None,
        updated_at: None,
    }
}

fn preset_names(db: &mut Database) -> Vec<String> {
    db.list_presets().unwrap().into_iter().map(|p| p.name).collect()
}

fn project_names(db: &mut Database) -> Vec<String> {
    db.list_projects().unwrap().into_iter().map(|p| p.name).collect()
}

fn shared(name: &str) -> String {
    format!("file:{}?mode=memory&cache=shared", name)
}

#[test]
fn preset_lives_through_save_update_delete() {
    let mut db = Database::in_memory().unwrap();
    let mut glow = preset("glow");
    glow.shader_code = "...".to_string();
    let id = db.save_preset(glow).unwrap();
    assert_eq!(id, 1);
    let first = db.get_preset(1).unwrap().unwrap();
    assert_eq!(first.id, Some(1));
    assert_eq!(first.name, "glow");
    assert_eq!(first.shader_code, "...");
    assert_eq!(first.language, "glsl");
    assert_eq!(first.uniforms, None);
    assert!(first.created_at.is_some());
    assert_eq!(first.created_at, first.updated_at);

    let mut renamed = preset("glow2");
    renamed.id = Some(1);
    assert_eq!(db.save_preset(renamed).unwrap(), 1);
    let second = db.get_preset(1).unwrap().unwrap();
    assert_eq!(second.name, "glow2");
    assert_eq!(second.created_at, first.created_at);
    assert!(second.updated_at > first.updated_at);

    db.delete_preset(1).unwrap();
    assert!(db.get_preset(1).unwrap().is_none());
}

#[test]
fn saved_preset_reads_back_as_given() {
    let mut db = Database::in_memory().unwrap();
    let mut given = preset("plasma");
    given.uniforms = Some("{\"speed\":0.5}".to_string());
    given.created_at = Some("not the caller's to set".to_string());
    let id = db.save_preset_at(&given, T1).unwrap();
    let read = db.get_preset(id).unwrap().unwrap();
    assert_eq!(read.id, Some(id));
    assert_eq!(read.name, given.name);
    assert_eq!(read.shader_code, given.shader_code);
    assert_eq!(read.language, given.language);
    assert_eq!(read.uniforms, given.uniforms);
    assert_eq!(read.created_at, Some(T1.to_string()));
    assert_eq!(read.updated_at, Some(T1.to_string()));
}

#[test]
fn saved_project_reads_back_as_given() {
    let mut db = Database::in_memory().unwrap();
    let mut given = project("live set");
    given.audio_settings = Some("{\"fft\":1024}".to_string());
    let id = db.save_project_at(&given, T1).unwrap();
    assert_eq!(id, 1);
    let read = db.get_project(id).unwrap().unwrap();
    assert_eq!(read.id, Some(1));
    assert_eq!(read.name, given.name);
    assert_eq!(read.shaders, given.shaders);
    assert_eq!(read.audio_settings, given.audio_settings);
    assert_eq!(read.created_at, Some(T1.to_string()));
    assert_eq!(read.updated_at, Some(T1.to_string()));
}

#[test]
fn text_is_stored_unchanged() {
    let mut db = Database::in_memory().unwrap();
    let mut given = preset("日本語 ' \" ; -- \u{0} é");
    given.shader_code = "line one\nline two\t\u{1F600}".to_string();
    given.language = String::new();
    given.uniforms = Some(String::new());
    let id = db.save_preset_at(&given, T1).unwrap();
    let read = db.get_preset(id).unwrap().unwrap();
    assert_eq!(read.name, given.name);
    assert_eq!(read.shader_code, given.shader_code);
    assert_eq!(read.language, "");
    assert_eq!(read.uniforms, Some(String::new()));
}

#[test]
fn overwrite_keeps_created_at_and_moves_updated_at() {
    let mut db = Database::in_memory().unwrap();
    let id = db.save_preset_at(&preset("before"), T1).unwrap();
    let mut changed = preset("after");
    changed.id = Some(id);
    changed.shader_code = "void main() { discard; }".to_string();
    changed.language = "hlsl".to_string();
    changed.uniforms = Some("{}".to_string());
    changed.created_at = Some(T4.to_string());
    assert_eq!(db.save_preset_at(&changed, T2).unwrap(), id);
    let read = db.get_preset(id).unwrap().unwrap();
    assert_eq!(read.id, Some(id));
    assert_eq!(read.name, "after");
    assert_eq!(read.shader_code, "void main() { discard; }");
    assert_eq!(read.language, "hlsl");
    assert_eq!(read.uniforms, Some("{}".to_string()));
    assert_eq!(read.created_at, Some(T1.to_string()));
    assert_eq!(read.updated_at, Some(T2.to_string()));
    assert_eq!(db.list_presets().unwrap().len(), 1);
}

#[test]
fn overwrite_of_a_project_keeps_created_at_and_moves_updated_at() {
    let mut db = Database::in_memory().unwrap();
    let id = db.save_project_at(&project("before"), T1).unwrap();
    let mut changed = project("after");
    changed.id = Some(id);
    changed.shaders = "[]".to_string();
    changed.audio_settings = Some("{}".to_string());
    assert_eq!(db.save_project_at(&changed, T3).unwrap(), id);
    let read = db.get_project(id).unwrap().unwrap();
    assert_eq!(read.name, "after");
    assert_eq!(read.shaders, "[]");
    assert_eq!(read.audio_settings, Some("{}".to_string()));
    assert_eq!(read.created_at, Some(T1.to_string()));
    assert_eq!(read.updated_at, Some(T3.to_string()));
}

#[test]
fn overwrite_can_clear_an_optional_field() {
    let mut db = Database::in_memory().unwrap();
    let mut given = preset("tuned");
    given.uniforms = Some("{\"a\":1}".to_string());
    let id = db.save_preset_at(&given, T1).unwrap();
    given.id = Some(id);
    given.uniforms = None;
    db.save_preset_at(&given, T2).unwrap();
    assert_eq!(db.get_preset(id).unwrap().unwrap().uniforms, None);
}

#[test]
fn overwrite_of_a_missing_row_returns_the_id_and_writes_nothing() {
    let mut db = Database::in_memory().unwrap();
    let mut ghost = preset("ghost");
    ghost.id = Some(77);
    assert_eq!(db.save_preset_at(&ghost, T1).unwrap(), 77);
    assert!(db.get_preset(77).unwrap().is_none());
    assert!(db.list_presets().unwrap().is_empty());
    let mut ghost = project("ghost");
    ghost.id = Some(-1);
    assert_eq!(db.save_project(ghost).unwrap(), -1);
    assert!(db.get_project(-1).unwrap().is_none());
    assert!(db.list_projects().unwrap().is_empty());
}

#[test]
fn presets_list_most_recently_saved_first() {
    let mut db = Database::in_memory().unwrap();
    let a = db.save_preset_at(&preset("a"), T1).unwrap();
    db.save_preset_at(&preset("b"), T2).unwrap();
    db.save_preset_at(&preset("c"), T3).unwrap();
    assert_eq!(preset_names(&mut db), vec!["c", "b", "a"]);
    let listed = db.list_presets().unwrap();
    assert!(listed.windows(2).all(|pair| pair[0].updated_at >= pair[1].updated_at));

    let mut again = preset("a again");
    again.id = Some(a);
    db.save_preset_at(&again, T4).unwrap();
    assert_eq!(preset_names(&mut db), vec!["a again", "c", "b"]);
    assert_eq!(db.list_presets().unwrap()[0].id, Some(a));
}

#[test]
fn projects_list_most_recently_saved_first() {
    let mut db = Database::in_memory().unwrap();
    db.save_project_at(&project("old"), T1).unwrap();
    let mid = db.save_project_at(&project("mid"), T2).unwrap();
    db.save_project_at(&project("new"), T3).unwrap();
    assert_eq!(project_names(&mut db), vec!["new", "mid", "old"]);
    let mut again = project("mid again");
    again.id = Some(mid);
    db.save_project_at(&again, T4).unwrap();
    assert_eq!(project_names(&mut db), vec!["mid again", "new", "old"]);
}

#[test]
fn listing_follows_the_timestamps_not_the_order_of_the_saves() {
    let mut db = Database::in_memory().unwrap();
    db.save_preset_at(&preset("late"), T3).unwrap();
    db.save_preset_at(&preset("early"), T1).unwrap();
    db.save_preset_at(&preset("middle"), T2).unwrap();
    assert_eq!(preset_names(&mut db), vec!["late", "middle", "early"]);
}

#[test]
fn empty_store_lists_nothing() {
    let mut db = Database::in_memory().unwrap();
    assert!(db.list_presets().unwrap().is_empty());
    assert!(db.list_projects().unwrap().is_empty());
}

#[test]
fn deleted_record_is_gone() {
    let mut db = Database::in_memory().unwrap();
    let keep = db.save_preset_at(&preset("keep"), T1).unwrap();
    let drop = db.save_preset_at(&preset("drop"), T2).unwrap();
    db.delete_preset(drop).unwrap();
    assert!(db.get_preset(drop).unwrap().is_none());
    assert_eq!(db.get_preset(keep).unwrap().unwrap().name, "keep");
    assert_eq!(preset_names(&mut db), vec!["keep"]);

    let id = db.save_project_at(&project("drop"), T1).unwrap();
    db.delete_project(id).unwrap();
    assert!(db.get_project(id).unwrap().is_none());
    assert!(db.list_projects().unwrap().is_empty());
}

#[test]
fn deleting_what_is_not_there_succeeds() {
    let mut db = Database::in_memory().unwrap();
    assert_eq!(db.delete_preset(5), Ok(()));
    assert_eq!(db.delete_project(5), Ok(()));
    let id = db.save_preset_at(&preset("once"), T1).unwrap();
    assert_eq!(db.delete_preset(id), Ok(()));
    assert_eq!(db.delete_preset(id), Ok(()));
}

#[test]
fn fetching_what_is_not_there_gives_none() {
    let mut db = Database::in_memory().unwrap();
    assert!(db.get_preset(1).unwrap().is_none());
    assert!(db.get_project(1).unwrap().is_none());
    db.save_preset_at(&preset("one"), T1).unwrap();
    assert!(db.get_preset(2).unwrap().is_none());
    assert!(db.get_preset(0).unwrap().is_none());
    assert!(db.get_preset(-1).unwrap().is_none());
    assert!(db.get_preset(i64::MAX).unwrap().is_none());
}

#[test]
fn the_two_kinds_number_their_records_apart() {
    let mut db = Database::in_memory().unwrap();
    assert_eq!(db.save_preset_at(&preset("sun"), T1).unwrap(), 1);
    assert_eq!(db.save_project_at(&project("dawn"), T1).unwrap(), 1);
    assert_eq!(db.save_preset_at(&preset("moon"), T2).unwrap(), 2);
    assert_eq!(db.save_project_at(&project("dusk"), T2).unwrap(), 2);
    assert_eq!(db.get_preset(1).unwrap().unwrap().name, "sun");
    assert_eq!(db.get_project(1).unwrap().unwrap().name, "dawn");
    db.delete_preset(1).unwrap();
    assert!(db.get_preset(1).unwrap().is_none());
    assert_eq!(db.get_project(1).unwrap().unwrap().name, "dawn");
}

#[test]
fn an_identifier_is_not_given_out_twice() {
    let mut db = Database::in_memory().unwrap();
    let first = db.save_preset_at(&preset("first"), T1).unwrap();
    db.delete_preset(first).unwrap();
    let second = db.save_preset_at(&preset("second"), T2).unwrap();
    assert!(second > first);
    assert_eq!(db.get_preset(second).unwrap().unwrap().name, "second");
}

#[test]
fn setting_up_the_schema_again_changes_nothing() {
    let mut db = Database::in_memory().unwrap();
    let id = db.save_preset_at(&preset("kept"), T1).unwrap();
    assert_eq!(db.create_tables(), Ok(()));
    assert_eq!(db.create_tables(), Ok(()));
    assert_eq!(db.get_preset(id).unwrap().unwrap().name, "kept");
    assert_eq!(db.list_presets().unwrap().len(), 1);
}

#[test]
fn reopening_a_database_keeps_its_records() {
    let path = shared("reopen");
    let mut first = Database::new(Path::new(&path)).unwrap();
    let id = first.save_project_at(&project("kept"), T1).unwrap();
    let mut second = Database::new(Path::new(&path)).unwrap();
    assert_eq!(second.get_project(id).unwrap().unwrap().name, "kept");
    second.save_project_at(&project("more"), T2).unwrap();
    assert_eq!(project_names(&mut first), vec!["more", "kept"]);
}

#[test]
fn a_path_that_cannot_be_opened_is_an_init_failure() {
    match Database::new(Path::new("/no/such/directory/anywhere/store.db")) {
        Err(StoreError::Init(text)) => assert!(!text.is_empty()),
        other => panic!("expected an init failure, got {:?}", other.map(|_| ())),
    }
}

#[test]
fn a_schema_that_cannot_be_set_up_is_an_init_failure() {
    let path = shared("clash");
    let outside = rusqlite::Connection::open(&path).unwrap();
    outside.execute("CREATE TABLE idx_presets_updated_at (x)", ()).unwrap();
    match Database::new(Path::new(&path)) {
        Err(StoreError::Init(text)) => assert!(text.contains("idx_presets_updated_at")),
        other => panic!("expected an init failure, got {:?}", other.map(|_| ())),
    }
}

#[test]
fn a_refused_statement_is_a_statement_failure() {
    let path = shared("refused");
    let mut db = Database::new(Path::new(&path)).unwrap();
    let outside = rusqlite::Connection::open(&path).unwrap();
    outside.execute("DROP TABLE presets", ()).unwrap();
    outside.execute("DROP TABLE projects", ()).unwrap();
    for failure in [
        db.save_preset_at(&preset("lost"), T1).unwrap_err(),
        db.get_preset(1).unwrap_err(),
        db.list_presets().unwrap_err(),
        db.delete_preset(1).unwrap_err(),
        db.save_project(project("lost")).unwrap_err(),
        db.get_project(1).unwrap_err(),
        db.list_projects().unwrap_err(),
        db.delete_project(1).unwrap_err(),
    ] {
        match failure {
            StoreError::Statement(text) => assert!(text.contains("no such table")),
            other => panic!("expected a statement failure, got {:?}", other),
        }
    }
    let mut known = preset("lost");
    known.id = Some(1);
    assert!(matches!(db.save_preset(known), Err(StoreError::Statement(_))));
}

#[test]
fn a_row_of_the_wrong_shape_is_a_malformed_row() {
    let path = shared("malformed");
    let mut db = Database::new(Path::new(&path)).unwrap();
    let outside = rusqlite::Connection::open(&path).unwrap();
    outside
        .execute(
            "INSERT INTO presets (id, name, shader_code, language, updated_at) VALUES (9, x'00ff', 's', 'l', 'A')",
            (),
        )
        .unwrap();
    let fault = RowError::WrongType { index: 1, column: Column::Name, found: StorageClass::Blob };
    assert_eq!(db.get_preset(9).unwrap_err(), StoreError::MalformedRow(fault));
    assert_eq!(db.list_presets().unwrap_err(), StoreError::MalformedRow(fault));
    outside
        .execute(
            "INSERT INTO projects (id, name, shaders, audio_settings) VALUES (4, 'n', 's', x'01')",
            (),
        )
        .unwrap();
    let fault =
        RowError::WrongType { index: 3, column: Column::AudioSettings, found: StorageClass::Blob };
    assert_eq!(db.get_project(4).unwrap_err(), StoreError::MalformedRow(fault));
    assert_eq!(db.list_projects().unwrap_err(), StoreError::MalformedRow(fault));
}

#[test]
fn rows_written_by_others_read_with_their_own_timestamps() {
    let path = shared("foreign");
    let mut db = Database::new(Path::new(&path)).unwrap();
    let outside = rusqlite::Connection::open(&path).unwrap();
    outside
        .execute(
            "INSERT INTO presets (name, shader_code, language, created_at, updated_at) VALUES ('n', 's', 'l', NULL, NULL)",
            (),
        )
        .unwrap();
    outside
        .execute("INSERT INTO presets (name, shader_code, language) VALUES ('m', 's', 'l')", ())
        .unwrap();
    let bare = db.get_preset(1).unwrap().unwrap();
    assert_eq!(bare.created_at, None);
    assert_eq!(bare.updated_at, None);
    let stamped = db.get_preset(2).unwrap().unwrap();
    assert!(stamped.created_at.is_some());
    assert_eq!(preset_names(&mut db), vec!["m", "n"]);
}

#[test]
fn every_storage_class_is_told_apart() {
    let path = shared("classes");
    let outside = rusqlite::Connection::open(&path).unwrap();
    outside
        .execute(
            "CREATE TABLE presets (id, name, shader_code, language, uniforms, created_at, updated_at)",
            (),
        )
        .unwrap();
    let mut db = Database::new(Path::new(&path)).unwrap();
    outside
        .execute("INSERT INTO presets VALUES (1, 1.5, 's', 'l', NULL, NULL, NULL)", ())
        .unwrap();
    outside
        .execute("INSERT INTO presets VALUES (2, 'n', 7, 'l', NULL, NULL, NULL)", ())
        .unwrap();
    outside
        .execute("INSERT INTO presets VALUES (3, 'n', 's', NULL, NULL, NULL, NULL)", ())
        .unwrap();
    outside
        .execute("INSERT INTO presets VALUES (4, 'n', 's', 'l', x'', NULL, NULL)", ())
        .unwrap();
    outside
        .execute("INSERT INTO presets VALUES ('five', 'n', 's', 'l', NULL, NULL, NULL)", ())
        .unwrap();
    let wrong = |index, column, found| {
        StoreError::MalformedRow(RowError::WrongType { index, column, found })
    };
    assert_eq!(db.get_preset(1).unwrap_err(), wrong(1, Column::Name, StorageClass::Real));
    assert_eq!(db.get_preset(2).unwrap_err(), wrong(2, Column::ShaderCode, StorageClass::Integer));
    assert_eq!(db.get_preset(3).unwrap_err(), wrong(3, Column::Language, StorageClass::Null));
    assert_eq!(db.get_preset(4).unwrap_err(), wrong(4, Column::Uniforms, StorageClass::Blob));
    outside.execute("DELETE FROM presets WHERE id IN (1, 2, 3, 4)", ()).unwrap();
    assert_eq!(db.list_presets().unwrap_err(), wrong(0, Column::Id, StorageClass::Text));
}

#[test]
fn malformed_rows_are_described_as_the_engine_describes_them() {
    let path = shared("wording");
    let mut db = Database::new(Path::new(&path)).unwrap();
    let outside = rusqlite::Connection::open(&path).unwrap();
    outside
        .execute("INSERT INTO presets (name, shader_code, language) VALUES ('n', x'00', 'l')", ())
        .unwrap();
    let engine_says = outside
        .query_row("SELECT id, name, shader_code FROM presets", (), |row| {
            row.get::<usize, String>(2)
        })
        .unwrap_err()
        .to_string();
    assert_eq!(engine_says, "Invalid column type Blob at index: 2, name: shader_code");
    assert_eq!(db.get_preset(1).unwrap_err().message(), engine_says);
}

#[test]
fn a_save_reads_the_clock_as_an_rfc_3339_time_in_utc() {
    let mut db = Database::in_memory().unwrap();
    let id = db.save_preset(preset("timed")).unwrap();
    let stamp = db.get_preset(id).unwrap().unwrap().updated_at.unwrap();
    assert!(stamp.ends_with("+00:00"));
    assert_eq!(&stamp[4..5], "-");
    assert_eq!(&stamp[10..11], "T");
    assert!(stamp.as_str() > "2024-01-01T00:00:00+00:00");
}

#[test]
fn a_refused_opening_is_an_init_failure_with_the_engines_words() {
    match Database::connected(Err("unable to open database file".to_string())) {
        Err(StoreError::Init(text)) => assert_eq!(text, "unable to open database file"),
        other => panic!("expected an init failure, got {:?}", other.map(|_| ())),
    }
}

#[test]
fn a_store_on_a_connection_works_once_its_schema_is_set_up() {
    let conn = rusqlite::Connection::open_in_memory().unwrap();
    let mut db = match Database::connected(Ok(conn)) {
        Ok(db) => db,
        Err(e) => panic!("expected a store, got {:?}", e),
    };
    assert!(matches!(db.list_presets(), Err(StoreError::Statement(_))));
    let created = db.create_tables();
    assert_eq!(created, Ok(()));
    let mut db = match Database::opening_outcome(db, created) {
        Ok(db) => db,
        Err(e) => panic!("expected a store, got {:?}", e),
    };
    let id = db.save_preset_at(&preset("kept"), T1).unwrap();
    assert_eq!(db.get_preset(id).unwrap().unwrap().name, "kept");
}

#[test]
fn a_failed_set_up_hands_out_no_store() {
    let db = Database::in_memory().unwrap();
    let failure = StoreError::Init("table idx_presets_updated_at already exists".to_string());
    match Database::opening_outcome(db, Err(failure.clone())) {
        Err(e) => assert_eq!(e, failure),
        Ok(_) => panic!("expected the failure of the set-up"),
    }
}

#[test]
fn opening_a_database_that_holds_records_hands_them_out() {
    let path = shared("holds_records");
    let mut first = Database::new(Path::new(&path)).unwrap();
    let a = first.save_preset_at(&preset("a"), T1).unwrap();
    first.save_preset_at(&preset("b"), T2).unwrap();
    first.save_project_at(&project("q"), T3).unwrap();
    let mut second = Database::new(Path::new(&path)).unwrap();
    assert_eq!(preset_names(&mut second), vec!["b", "a"]);
    assert_eq!(project_names(&mut second), vec!["q"]);
    let read = second.get_preset(a).unwrap().unwrap();
    assert_eq!(read.created_at, Some(T1.to_string()));
    assert_eq!(read.updated_at, Some(T1.to_string()));
}

#[test]
fn an_overwrite_returns_its_own_identifier_after_an_insert_elsewhere() {
    let mut db = Database::in_memory().unwrap();
    let first = db.save_preset_at(&preset("first"), T1).unwrap();
    let second = db.save_preset_at(&preset("second"), T2).unwrap();
    assert_ne!(first, second);
    let mut again = preset("first again");
    again.id = Some(first);
    assert_eq!(db.save_preset_at(&again, T3).unwrap(), first);
    assert_eq!(db.get_preset(second).unwrap().unwrap().name, "second");
}
