use bulkpixel::cli::parse_preset_options;
use bulkpixel::commands::{
    create_preset_lines, delete_preset_lines, list_presets_lines, load_requested_presets,
    load_requested_presets_through,
    stats_lines, update_preset_lines,
};
use bulkpixel::magic::{
    delete_magic_directory_for_cli, list_magic_directories_for_cli, save_magic_directory_for_cli,
};
use bulkpixel::models::{ConversionPreset, ExportFormat, SaveMagicDirectoryRequest};
use bulkpixel::pipeline::ConversionTotals;
use bulkpixel::presets::{
    PresetError, find_preset_by_name_for_cli, list_presets_for_cli, load_statistics_for_cli,
    record_cli_usage_for_cli, record_conversion_statistics_for_cli,
};
use rusqlite::Connection;

fn args(v: &[&str]) -> Vec<String> {
    v.iter().map(|s| s.to_string()).collect()
}

fn options(v: &[&str]) -> bulkpixel::cli::PresetOptions {
    parse_preset_options(&args(v)).expect("options")
}

#[test]
fn manages_presets_from_the_command_line() {
    let database = "file:bulkpixel_commands_presets?mode=memory&cache=shared";
    let _keep_open = Connection::open(database).expect("shared database");

    assert_eq!(
        create_preset_lines(
            database,
            options(&["--name", "Blog Header", "--width", "1200", "--output-dir", "./exports", "--postfix", "_1200", "--format", "webp"]),
        ),
        Ok(args(&["Preset created: Blog Header"]))
    );
    assert_eq!(
        list_presets_lines(database),
        Ok(args(&[
            "BulkPixel Presets (1)",
            "-----------------",
            "Name: Blog Header",
            "Export Format: WEBP",
            "Width: 1200",
            "Height: Auto",
            "Quality: 100%",
            "Postfix: _1200",
            "Output Folder: ./exports",
        ]))
    );
    assert_eq!(
        update_preset_lines(database, options(&["--name", "blog header", "--height", "800", "--quality", "90"])),
        Ok(args(&["Preset updated: Blog Header"]))
    );
    let stored = find_preset_by_name_for_cli(database, "BLOG HEADER").expect("stored");
    assert_eq!((stored.resize_mode.as_str(), stored.width, stored.height), ("height", None, Some(800)));
    assert_eq!(stored.quality, 90);
    assert_eq!(stored.filename_component, "_1200");

    let found = load_requested_presets(database, &args(&[" Blog Header "])).expect("found");
    assert_eq!(found.len(), 1);
    assert_eq!(
        load_requested_presets(database, &args(&[])).expect_err("no names"),
        "--preset expects at least one preset name."
    );
    assert_eq!(
        load_requested_presets(database, &args(&["Open Graph"])).expect_err("missing"),
        "Preset not found: Open Graph"
    );
    assert_eq!(
        update_preset_lines(database, options(&["--quality", "90"])).expect_err("no name"),
        "--name is required."
    );
    assert_eq!(
        create_preset_lines(
            database,
            options(&["--name", "Blog Header", "--output-dir", "o", "--format", "png"]),
        )
        .expect_err("duplicate name")
        .starts_with("Preset database error: "),
        true
    );

    assert_eq!(delete_preset_lines(database, "Blog Header"), Ok(args(&["Preset deleted: Blog Header"])));
    assert_eq!(
        delete_preset_lines(database, "Blog Header").expect_err("gone"),
        "Preset not found: Blog Header"
    );
    assert!(list_presets_for_cli(database).expect("listed").is_empty());
}

#[test]
fn counts_statistics_from_the_command_line() {
    let database = "file:bulkpixel_commands_stats?mode=memory&cache=shared";
    let _keep_open = Connection::open(database).expect("shared database");

    record_cli_usage_for_cli(database).expect("use counted");
    let totals = ConversionTotals {
        success_count: 2,
        failure_count: 0,
        total_original_size: 2048,
        total_converted_size: 1024,
        total_delta_bytes: 1024,
    };
    record_conversion_statistics_for_cli(database, &ExportFormat::Webp, &totals, 61_000).expect("recorded");
    let st = load_statistics_for_cli(database).expect("statistics");
    assert_eq!((st.cli_uses, st.amount, st.webp, st.saved_bytes), (1, 2, 2, 1024));

    let lines = stats_lines(database).expect("report").expect("dates");
    assert_eq!(lines[3], "Total: 2");
    assert_eq!(lines[4], "WEBP: 2");
    assert_eq!(lines[12], "Saved: 1.0 KB");
    assert_eq!(lines[15], "Processing Time: 1min 1sec");
    assert!(lines[18].starts_with("First Conversion: "));
    assert_eq!(lines[18].len(), "First Conversion: DD.MM.YYYY".len());
}

#[test]
fn manages_magic_directories_from_the_command_line() {
    let database = "file:bulkpixel_commands_magic?mode=memory&cache=shared";
    let keep_open = Connection::open(database).expect("shared database");
    create_preset_lines(
        database,
        options(&["--name", "Watcher Preset", "--output-dir", "/out", "--format", "png", "--prefix", "w_"]),
    )
    .expect("preset");
    let preset_id: i64 = keep_open
        .query_row("SELECT id FROM presets", [], |row| row.get(0))
        .expect("preset id");

    let saved = save_magic_directory_for_cli(
        database,
        SaveMagicDirectoryRequest {
            id: None,
            path: "/tmp/bulkpixel-commands-magic".into(),
            formats: vec!["webp".into()],
            preset_ids: vec![preset_id],
            enabled: true,
        },
        Ok(("/tmp/bulkpixel-commands-magic".into(), true)),
    )
    .expect("saved");
    assert_eq!(list_magic_directories_for_cli(database).expect("listed").len(), 1);
    delete_magic_directory_for_cli(database, saved.id).expect("deleted");
    assert!(list_magic_directories_for_cli(database).expect("listed").is_empty());
    assert_eq!(
        delete_magic_directory_for_cli(database, saved.id).expect_err("gone").message(),
        "Magic directory not found."
    );
}

fn named(id: i64, name: &str) -> ConversionPreset {
    ConversionPreset {
        id,
        name: name.into(),
        format: "png".into(),
        resize_mode: "none".into(),
        width: None,
        height: None,
        quality: 90,
        filename_component: "_x".into(),
        filename_mode: "postfix".into(),
        output_directory: "/out".into(),
        created_at: String::new(),
        updated_at: String::new(),
    }
}

#[test]
fn looks_presets_up_in_the_order_named() {
    let find = |name: String| match name.as_str() {
        "Blog" => Ok(named(1, "Blog")),
        "Thumb" => Ok(named(2, "Thumb")),
        other => Err(PresetError::Validation(format!("Preset not found: {other}"))),
    };
    let found = load_requested_presets_through(&find, &vec!["Thumb".to_string(), "Blog".to_string()]).expect("found");
    assert_eq!((found[0].id, found[1].id), (2, 1));
    assert_eq!(
        load_requested_presets_through(&find, &vec!["Blog".to_string(), "Gone".to_string()]).expect_err("missing"),
        "Preset not found: Gone"
    );
    assert_eq!(
        load_requested_presets_through(&find, &Vec::new()).expect_err("none"),
        "--preset expects at least one preset name."
    );
}
