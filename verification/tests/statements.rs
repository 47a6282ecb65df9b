use bulkpixel::db::{SqlType, SqlValue};
use bulkpixel::magic::{
    delete_magic_directory_through, get_magic_directory_through, list_magic_directories_through,
    write_magic_directory_through,
};
use bulkpixel::models::{ExportFormat, SavePresetRequest, SaveMagicDirectoryRequest};
use bulkpixel::pipeline::ConversionTotals;
use bulkpixel::presets::{
    delete_preset_through, get_preset_by_name_through, list_presets_through,
    record_cli_usage_through, record_conversion_statistics_through, save_preset_through,
    get_presets_by_ids_through,
};
use std::cell::RefCell;

fn preset_row(id: i64, name: &str) -> Vec<SqlValue> {
    vec![
        SqlValue::Integer(id),
        SqlValue::Text(name.into()),
        SqlValue::Text("webp".into()),
        SqlValue::Text("width".into()),
        SqlValue::Integer(1200),
        SqlValue::Null,
        SqlValue::Integer(300),
        SqlValue::Text("_w".into()),
        SqlValue::Text("postfix".into()),
        SqlValue::Text("/out".into()),
        SqlValue::Text("2026-07-03 10:00:00".into()),
        SqlValue::Text("2026-07-05 10:00:00".into()),
    ]
}

#[test]
fn hands_the_fixed_statements_to_the_database() {
    let seen: RefCell<Vec<(String, Vec<SqlValue>)>> = RefCell::new(Vec::new());
    let run = |sql: String, params: Vec<SqlValue>| {
        seen.borrow_mut().push((sql, params));
        Ok(1)
    };
    record_cli_usage_through(&run).expect("counted");
    delete_preset_through(&run, 7).expect("deleted");
    delete_magic_directory_through(&run, 9).expect("deleted");
    let totals = ConversionTotals {
        success_count: 2,
        failure_count: 0,
        total_original_size: 10,
        total_converted_size: u64::MAX,
        total_delta_bytes: 0,
    };
    record_conversion_statistics_through(&run, &ExportFormat::Png, &totals, 5).expect("recorded");
    let seen = seen.into_inner();
    assert_eq!(seen[0], ("UPDATE statistics SET cli_uses = cli_uses + 1 WHERE id = 1".to_string(), vec![]));
    assert_eq!(seen[1], ("DELETE FROM presets WHERE id = ?1".to_string(), vec![SqlValue::Integer(7)]));
    assert_eq!(seen[2], ("DELETE FROM magic_directories WHERE id = ?1".to_string(), vec![SqlValue::Integer(9)]));
    assert!(seen[3].0.starts_with("UPDATE statistics\n         SET png = png + ?1,"));
    assert_eq!(
        seen[3].1,
        vec![SqlValue::Integer(2), SqlValue::Integer(10), SqlValue::Integer(i64::MAX), SqlValue::Integer(5)]
    );
}

#[test]
fn reports_missing_rows() {
    let none = |_: String, _: Vec<SqlValue>| Ok(0);
    assert_eq!(delete_preset_through(none, 7).expect_err("missing").message(), "Preset not found.");
    assert_eq!(
        delete_magic_directory_through(none, 7).expect_err("missing").message(),
        "Magic directory not found."
    );
    let empty = |_: String, _: Vec<SqlValue>, _: Vec<SqlType>| Ok(Vec::new());
    assert_eq!(
        get_preset_by_name_through(empty, "  Blog ").expect_err("missing").message(),
        "Preset not found: Blog"
    );
}

#[test]
fn reads_presets_from_the_rows_answered() {
    let asked: RefCell<Vec<Vec<SqlValue>>> = RefCell::new(Vec::new());
    let query = |sql: String, params: Vec<SqlValue>, types: Vec<SqlType>| {
        assert!(sql.starts_with("SELECT id, name, format"));
        assert_eq!(types.len(), 12);
        asked.borrow_mut().push(params);
        Ok(vec![preset_row(1, "Blog Header"), preset_row(2, "Open Graph")])
    };
    let presets = list_presets_through(&query).expect("listed");
    assert_eq!(presets.len(), 2);
    assert_eq!(presets[1].name, "Open Graph");
    assert_eq!((presets[0].width, presets[0].height, presets[0].quality), (Some(1200), None, 100));
    let found = get_preset_by_name_through(&query, " blog header ").expect("found");
    assert_eq!(found.id, 1);
    assert_eq!(asked.into_inner()[1], vec![SqlValue::Text("blog header".into())]);
}

fn save_request(id: Option<i64>) -> SavePresetRequest {
    SavePresetRequest {
        id,
        name: "  Blog Header ".into(),
        format: " WEBP ".into(),
        resize_mode: "Width".into(),
        width: Some(1200),
        height: Some(600),
        quality: 80,
        filename_component: "_w".into(),
        filename_mode: "POSTFIX".into(),
        output_directory: " /out ".into(),
    }
}

fn normalized_values() -> Vec<SqlValue> {
    vec![
        SqlValue::Text("Blog Header".into()),
        SqlValue::Text("webp".into()),
        SqlValue::Text("width".into()),
        SqlValue::Integer(1200),
        SqlValue::Null,
        SqlValue::Integer(80),
        SqlValue::Text("_w".into()),
        SqlValue::Text("postfix".into()),
        SqlValue::Text("/out".into()),
    ]
}

#[test]
fn updates_a_preset_and_reads_it_back() {
    let seen: RefCell<Vec<(String, Vec<SqlValue>)>> = RefCell::new(Vec::new());
    let run = |sql: String, params: Vec<SqlValue>| {
        seen.borrow_mut().push((sql, params));
        Ok(1)
    };
    let asked: RefCell<Vec<Vec<SqlValue>>> = RefCell::new(Vec::new());
    let query = |sql: String, params: Vec<SqlValue>, _: Vec<SqlType>| {
        assert!(sql.starts_with("SELECT id, name, format"));
        asked.borrow_mut().push(params);
        Ok(vec![preset_row(4, "Blog Header")])
    };
    let last_id = || -> i64 { panic!("an update asks for no new id") };
    let saved = save_preset_through(&run, &query, last_id, save_request(Some(4))).expect("saved");
    assert_eq!((saved.id, saved.name.as_str()), (4, "Blog Header"));
    let seen = seen.into_inner();
    assert_eq!(seen.len(), 1);
    assert!(seen[0].0.starts_with("UPDATE presets"));
    let mut values = normalized_values();
    values.push(SqlValue::Integer(4));
    assert_eq!(seen[0].1, values);
    assert_eq!(asked.into_inner(), vec![vec![SqlValue::Integer(4)]]);
}

#[test]
fn inserts_a_preset_and_reads_back_the_new_row() {
    let seen: RefCell<Vec<(String, Vec<SqlValue>)>> = RefCell::new(Vec::new());
    let run = |sql: String, params: Vec<SqlValue>| {
        seen.borrow_mut().push((sql, params));
        Ok(1)
    };
    let asked: RefCell<Vec<Vec<SqlValue>>> = RefCell::new(Vec::new());
    let query = |_: String, params: Vec<SqlValue>, _: Vec<SqlType>| {
        asked.borrow_mut().push(params);
        Ok(vec![preset_row(31, "Blog Header")])
    };
    let saved = save_preset_through(&run, &query, || 31, save_request(None)).expect("saved");
    assert_eq!(saved.id, 31);
    let seen = seen.into_inner();
    assert!(seen[0].0.starts_with("INSERT INTO presets"));
    assert_eq!(seen[0].1, normalized_values());
    assert_eq!(asked.into_inner(), vec![vec![SqlValue::Integer(31)]]);
}

#[test]
fn reports_a_missing_preset_on_update() {
    let none = |_: String, _: Vec<SqlValue>| Ok(0);
    let query = |_: String, _: Vec<SqlValue>, _: Vec<SqlType>| -> Result<Vec<Vec<SqlValue>>, rusqlite::Error> {
        panic!("nothing is read back")
    };
    let err = save_preset_through(none, query, || 0, save_request(Some(4))).expect_err("missing");
    assert_eq!(err.message(), "Preset not found.");
}

fn directory_request(id: Option<i64>) -> SaveMagicDirectoryRequest {
    SaveMagicDirectoryRequest {
        id,
        path: "/watch".into(),
        formats: vec!["svg".into(), "png".into()],
        preset_ids: vec![5, 3],
        enabled: true,
    }
}

#[test]
fn writes_a_magic_directory_statement_by_statement() {
    let seen: RefCell<Vec<(String, Vec<SqlValue>)>> = RefCell::new(Vec::new());
    let run = |sql: String, params: Vec<SqlValue>| {
        seen.borrow_mut().push((sql, params));
        Ok(1)
    };
    let id = write_magic_directory_through(&run, || 12, &directory_request(None)).expect("written");
    assert_eq!(id, 12);
    let seen = seen.into_inner();
    let texts: Vec<&str> = seen.iter().map(|(sql, _)| sql.split_whitespace().take(3).last().unwrap_or("")).collect();
    assert_eq!(
        texts,
        vec![
            "magic_directories",
            "magic_directory_formats",
            "magic_directory_presets",
            "magic_directory_formats",
            "magic_directory_formats",
            "magic_directory_presets",
            "magic_directory_presets",
        ]
    );
    assert!(seen[0].0.starts_with("INSERT INTO magic_directories"));
    assert_eq!(seen[0].1, vec![SqlValue::Text("/watch".into()), SqlValue::Boolean(true)]);
    assert!(seen[1].0.starts_with("DELETE FROM magic_directory_formats"));
    assert_eq!(seen[1].1, vec![SqlValue::Integer(12)]);
    assert!(seen[2].0.starts_with("DELETE FROM magic_directory_presets"));
    assert_eq!(seen[3].1, vec![SqlValue::Integer(12), SqlValue::Text("svg".into())]);
    assert_eq!(seen[4].1, vec![SqlValue::Integer(12), SqlValue::Text("png".into())]);
    assert_eq!(seen[5].1, vec![SqlValue::Integer(12), SqlValue::Integer(5), SqlValue::Integer(0)]);
    assert_eq!(seen[6].1, vec![SqlValue::Integer(12), SqlValue::Integer(3), SqlValue::Integer(1)]);
}

#[test]
fn stops_a_magic_directory_write_at_the_first_failure() {
    let seen: RefCell<Vec<String>> = RefCell::new(Vec::new());
    let run = |sql: String, _: Vec<SqlValue>| {
        let failing = sql.starts_with("DELETE FROM magic_directory_presets");
        seen.borrow_mut().push(sql);
        if failing {
            Err(rusqlite::Error::QueryReturnedNoRows)
        } else {
            Ok(1)
        }
    };
    let err = write_magic_directory_through(&run, || 0, &directory_request(Some(7))).expect_err("failed");
    assert!(matches!(err, bulkpixel::presets::PresetError::Database(_)));
    let seen = seen.into_inner();
    assert_eq!(seen.len(), 3);
    assert!(seen[0].starts_with("UPDATE magic_directories"));
    let missing = |_: String, _: Vec<SqlValue>| Ok(0);
    let err = write_magic_directory_through(missing, || 0, &directory_request(Some(7))).expect_err("missing");
    assert_eq!(err.message(), "Magic directory not found.");
}

fn directory_row(id: i64, path: &str, enabled: bool) -> Vec<SqlValue> {
    vec![
        SqlValue::Integer(id),
        SqlValue::Text(path.into()),
        SqlValue::Boolean(enabled),
        SqlValue::Text("2026-07-03 10:00:00".into()),
        SqlValue::Text("2026-07-05 10:00:00".into()),
    ]
}

#[test]
fn reads_magic_directories_with_their_formats_and_presets() {
    let query = |sql: String, params: Vec<SqlValue>, _: Vec<SqlType>| {
        if sql.contains("FROM magic_directory_formats") {
            let id = params[0].clone();
            Ok(vec![vec![SqlValue::Text(if id == SqlValue::Integer(1) { "svg" } else { "png" }.into())]])
        } else if sql.contains("FROM magic_directory_presets") {
            Ok(vec![vec![SqlValue::Integer(8)], vec![SqlValue::Integer(2)]])
        } else if sql.contains("WHERE id = ?1") {
            Ok(if params == vec![SqlValue::Integer(2)] { vec![directory_row(2, "/b", false)] } else { vec![] })
        } else {
            Ok(vec![directory_row(1, "/a", true), directory_row(2, "/b", false)])
        }
    };
    let all = list_magic_directories_through(&query).expect("listed");
    assert_eq!(all.len(), 2);
    assert_eq!((all[0].id, all[0].path.as_str(), all[0].enabled), (1, "/a", true));
    assert_eq!(all[0].formats, vec!["svg".to_string()]);
    assert_eq!(all[1].formats, vec!["png".to_string()]);
    assert_eq!(all[1].preset_ids, vec![8, 2]);
    let one = get_magic_directory_through(&query, 2).expect("found");
    assert_eq!((one.id, one.path.as_str(), one.enabled), (2, "/b", false));
    assert_eq!(
        get_magic_directory_through(&query, 3).expect_err("missing").message(),
        "Magic directory not found."
    );
}

#[test]
fn reads_presets_in_the_order_of_their_ids() {
    let query = |_: String, params: Vec<SqlValue>, _: Vec<SqlType>| {
        Ok(match params[0] {
            SqlValue::Integer(3) => vec![preset_row(3, "Third")],
            SqlValue::Integer(1) => vec![preset_row(1, "First")],
            _ => vec![],
        })
    };
    let found = get_presets_by_ids_through(&query, &[3, 1]).expect("found");
    assert_eq!((found[0].id, found[1].id), (3, 1));
    assert_eq!(found[1].name, "First");
    assert!(get_presets_by_ids_through(&query, &[3, 9]).is_err());
}
