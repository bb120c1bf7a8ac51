use shader_store::record::Preset;
use shader_store::record::Project;
use shader_store::row::integer_at;
use shader_store::row::optional_text_at;
use shader_store::row::text_at;
use shader_store::row::Column;
use shader_store::row::RowError;
use shader_store::row::StorageClass;
use shader_store::value::SqlValue;

const PRESET_COLUMNS: [Column; 7] = [
    Column::Id,
    Column::Name,
    Column::ShaderCode,
    Column::Language,
    Column::Uniforms,
    Column::CreatedAt,
    Column::UpdatedAt,
];

fn text(s: &str) -> SqlValue {
    SqlValue::Text(s.to_string())
}

fn preset_row() -> Vec<SqlValue> {
    vec![
        SqlValue::Integer(7),
        text("glow"),
        text("void main() {}"),
        text("glsl"),
        text("{\"gain\":1}"),
        text("2024-01-01T00:00:00+00:00"),
        text("2024-01-02T00:00:00+00:00"),
    ]
}

fn project_row() -> Vec<SqlValue> {
    vec![
        SqlValue::Integer(3),
        text("demo"),
        text("[]"),
        SqlValue::Null,
        text("2024-01-01T00:00:00+00:00"),
        text("2024-01-02T00:00:00+00:00"),
    ]
}

#[test]
fn preset_row_decodes_field_by_field() {
    let preset = Preset::from_row(&preset_row()).unwrap();
    assert_eq!(preset.id, Some(7));
    assert_eq!(preset.name, "glow");
    assert_eq!(preset.shader_code, "void main() {}");
    assert_eq!(preset.language, "glsl");
    assert_eq!(preset.uniforms, Some("{\"gain\":1}".to_string()));
    assert_eq!(preset.created_at, Some("2024-01-01T00:00:00+00:00".to_string()));
    assert_eq!(preset.updated_at, Some("2024-01-02T00:00:00+00:00".to_string()));
}

#[test]
fn project_row_decodes_field_by_field() {
    let project = Project::from_row(&project_row()).unwrap();
    assert_eq!(project.id, Some(3));
    assert_eq!(project.name, "demo");
    assert_eq!(project.shaders, "[]");
    assert_eq!(project.audio_settings, None);
    assert_eq!(project.created_at, Some("2024-01-01T00:00:00+00:00".to_string()));
    assert_eq!(project.updated_at, Some("2024-01-02T00:00:00+00:00".to_string()));
}

#[test]
fn null_in_optional_columns_is_none() {
    let mut row = preset_row();
    row[4] = SqlValue::Null;
    row[5] = SqlValue::Null;
    row[6] = SqlValue::Null;
    let preset = Preset::from_row(&row).unwrap();
    assert_eq!(preset.uniforms, None);
    assert_eq!(preset.created_at, None);
    assert_eq!(preset.updated_at, None);
}

#[test]
fn columns_after_the_last_field_are_ignored() {
    let mut row = preset_row();
    row.push(SqlValue::Blob(vec![1, 2, 3]));
    let preset = Preset::from_row(&row).unwrap();
    assert_eq!(preset.id, Some(7));
    let mut row = project_row();
    row.push(SqlValue::Integer(9));
    assert_eq!(Project::from_row(&row).unwrap().id, Some(3));
}

#[test]
fn short_row_reports_the_first_missing_column() {
    let mut row = preset_row();
    row.truncate(5);
    assert_eq!(Preset::from_row(&row).unwrap_err(), RowError::MissingColumn { index: 5 });
    assert_eq!(Preset::from_row(&Vec::new()).unwrap_err(), RowError::MissingColumn { index: 0 });
    let mut row = project_row();
    row.truncate(2);
    assert_eq!(Project::from_row(&row).unwrap_err(), RowError::MissingColumn { index: 2 });
}

#[test]
fn identifier_must_be_an_integer() {
    let mut row = preset_row();
    row[0] = text("7");
    assert_eq!(
        Preset::from_row(&row).unwrap_err(),
        RowError::WrongType { index: 0, column: Column::Id, found: StorageClass::Text }
    );
    row[0] = SqlValue::Null;
    assert_eq!(
        Preset::from_row(&row).unwrap_err(),
        RowError::WrongType { index: 0, column: Column::Id, found: StorageClass::Null }
    );
}

#[test]
fn required_text_rejects_null_and_other_classes() {
    for index in 1..4 {
        let mut row = preset_row();
        row[index] = SqlValue::Null;
        assert_eq!(
            Preset::from_row(&row).unwrap_err(),
            RowError::WrongType { index, column: PRESET_COLUMNS[index], found: StorageClass::Null }
        );
        row[index] = SqlValue::Integer(1);
        assert_eq!(
            Preset::from_row(&row).unwrap_err(),
            RowError::WrongType { index, column: PRESET_COLUMNS[index], found: StorageClass::Integer }
        );
    }
}

#[test]
fn optional_text_rejects_what_is_neither_text_nor_null() {
    for index in 4..7 {
        let mut row = preset_row();
        row[index] = SqlValue::Blob(vec![0, 255]);
        assert_eq!(
            Preset::from_row(&row).unwrap_err(),
            RowError::WrongType { index, column: PRESET_COLUMNS[index], found: StorageClass::Blob }
        );
        row[index] = SqlValue::Real(4607182418800017408);
        assert_eq!(
            Preset::from_row(&row).unwrap_err(),
            RowError::WrongType { index, column: PRESET_COLUMNS[index], found: StorageClass::Real }
        );
    }
    let mut row = project_row();
    row[3] = SqlValue::Integer(0);
    assert_eq!(
        Project::from_row(&row).unwrap_err(),
        RowError::WrongType { index: 3, column: Column::AudioSettings, found: StorageClass::Integer }
    );
}

#[test]
fn the_first_faulty_column_decides_the_fault() {
    let mut row = preset_row();
    row[2] = SqlValue::Integer(1);
    row[5] = SqlValue::Blob(Vec::new());
    assert_eq!(
        Preset::from_row(&row).unwrap_err(),
        RowError::WrongType { index: 2, column: Column::ShaderCode, found: StorageClass::Integer }
    );
    row.truncate(1);
    assert_eq!(Preset::from_row(&row).unwrap_err(), RowError::MissingColumn { index: 1 });
}

#[test]
fn single_columns_read_as_their_field_kind() {
    let row = vec![SqlValue::Integer(-4), text("a"), SqlValue::Null];
    assert_eq!(integer_at(&row, 0, Column::Id), Ok(-4));
    assert_eq!(
        integer_at(&row, 1, Column::Id),
        Err(RowError::WrongType { index: 1, column: Column::Id, found: StorageClass::Text })
    );
    assert_eq!(integer_at(&row, 3, Column::Id), Err(RowError::MissingColumn { index: 3 }));
    assert_eq!(text_at(&row, 1, Column::Name), Ok("a".to_string()));
    assert_eq!(
        text_at(&row, 2, Column::Name),
        Err(RowError::WrongType { index: 2, column: Column::Name, found: StorageClass::Null })
    );
    assert_eq!(optional_text_at(&row, 1, Column::Uniforms), Ok(Some("a".to_string())));
    assert_eq!(optional_text_at(&row, 2, Column::Uniforms), Ok(None));
    assert_eq!(
        optional_text_at(&row, 0, Column::Uniforms),
        Err(RowError::WrongType { index: 0, column: Column::Uniforms, found: StorageClass::Integer })
    );
    assert_eq!(optional_text_at(&row, 9, Column::Uniforms), Err(RowError::MissingColumn { index: 9 }));
}

#[test]
fn storage_class_of_each_value() {
    assert_eq!(SqlValue::Null.class(), StorageClass::Null);
    assert_eq!(SqlValue::Integer(0).class(), StorageClass::Integer);
    assert_eq!(SqlValue::Real(0).class(), StorageClass::Real);
    assert_eq!(text("").class(), StorageClass::Text);
    assert_eq!(SqlValue::Blob(Vec::new()).class(), StorageClass::Blob);
}

#[test]
fn no_row_is_no_record_and_no_failure() {
    assert!(Preset::from_fetched(&None).unwrap().is_none());
    assert!(Project::from_fetched(&None).unwrap().is_none());
}

#[test]
fn fetched_row_is_decoded() {
    let preset = Preset::from_fetched(&Some(preset_row())).unwrap().unwrap();
    assert_eq!(preset.id, Some(7));
    assert_eq!(preset.name, "glow");
    let project = Project::from_fetched(&Some(project_row())).unwrap().unwrap();
    assert_eq!(project.id, Some(3));
    let mut bad = preset_row();
    bad[3] = SqlValue::Null;
    assert_eq!(
        Preset::from_fetched(&Some(bad)).unwrap_err(),
        RowError::WrongType { index: 3, column: Column::Language, found: StorageClass::Null }
    );
}

#[test]
fn rows_decode_in_their_order() {
    let mut second = preset_row();
    second[0] = SqlValue::Integer(2);
    second[1] = text("second");
    let mut third = preset_row();
    third[0] = SqlValue::Integer(9);
    third[1] = text("third");
    let presets = Preset::from_rows(&vec![preset_row(), second, third]).unwrap();
    assert_eq!(presets.len(), 3);
    assert_eq!(presets[0].id, Some(7));
    assert_eq!(presets[1].id, Some(2));
    assert_eq!(presets[2].id, Some(9));
    assert_eq!(presets[1].name, "second");
    assert_eq!(presets[2].name, "third");
    assert!(Preset::from_rows(&Vec::new()).unwrap().is_empty());
    assert!(Project::from_rows(&Vec::new()).unwrap().is_empty());
}

#[test]
fn the_first_faulty_row_decides_the_fault() {
    let mut second = project_row();
    second[1] = SqlValue::Integer(5);
    let mut third = project_row();
    third.truncate(0);
    let rows = vec![project_row(), second, third];
    assert_eq!(
        Project::from_rows(&rows).unwrap_err(),
        RowError::WrongType { index: 1, column: Column::Name, found: StorageClass::Integer }
    );
    let mut bad = preset_row();
    bad[6] = SqlValue::Integer(5);
    assert_eq!(
        Preset::from_rows(&vec![preset_row(), preset_row(), bad]).unwrap_err(),
        RowError::WrongType { index: 6, column: Column::UpdatedAt, found: StorageClass::Integer }
    );
}

#[test]
fn rows_in_recency_order_decode_in_recency_order() {
    let stamps = ["2024-03-03T00:00:00+00:00", "2024-02-02T00:00:00+00:00", "2024-01-01T00:00:00+00:00"];
    let rows: Vec<Vec<SqlValue>> = stamps
        .iter()
        .map(|stamp| {
            let mut row = preset_row();
            row[6] = text(stamp);
            row
        })
        .collect();
    let presets = Preset::from_rows(&rows).unwrap();
    let read: Vec<Option<String>> = presets.into_iter().map(|p| p.updated_at).collect();
    assert_eq!(read, stamps.iter().map(|s| Some(s.to_string())).collect::<Vec<_>>());
    assert!(read.windows(2).all(|pair| pair[0] >= pair[1]));
}
