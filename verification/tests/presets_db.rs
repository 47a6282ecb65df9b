use bulkpixel::models::{ExportFormat, SavePresetRequest};
use bulkpixel::pipeline::ConversionTotals;
use bulkpixel::presets::{
    app_data_directory, database_file_in, delete_preset_with_connection, get_preset_by_name,
    get_presets_by_ids_with_connection, initialize_schema, initialize_statistics_schema,
    list_presets_with_connection, load_statistics_with_connection, normalize_request,
    record_cli_usage_with_connection, record_conversion_statistics_with_connection,
    save_preset_with_connection, statistics_update_sql, validate_request, PresetError,
};
use rusqlite::Connection;

fn message(e: PresetError) -> String {
    e.message()
}

#[test]
fn migrates_cli_usage_without_resetting_existing_statistics() {
    let connection = Connection::open_in_memory().expect("database");
    connection
        .execute_batch(
            "CREATE TABLE statistics (
                id INTEGER PRIMARY KEY CHECK (id = 1),
                amount INTEGER GENERATED ALWAYS AS (
                    webp + avif + jpeg + png
                ) STORED,
                webp INTEGER NOT NULL DEFAULT 0 CHECK (webp >= 0),
                avif INTEGER NOT NULL DEFAULT 0 CHECK (avif >= 0),
                jpeg INTEGER NOT NULL DEFAULT 0 CHECK (jpeg >= 0),
                png INTEGER NOT NULL DEFAULT 0 CHECK (png >= 0),
                input_bytes INTEGER NOT NULL DEFAULT 0 CHECK (input_bytes >= 0),
                output_bytes INTEGER NOT NULL DEFAULT 0 CHECK (output_bytes >= 0),
                processing_time_ms INTEGER NOT NULL DEFAULT 0
                    CHECK (processing_time_ms >= 0),
                saved_bytes INTEGER GENERATED ALWAYS AS (
                    CASE
                        WHEN input_bytes > output_bytes THEN input_bytes - output_bytes
                        ELSE 0
                    END
                ) STORED,
                created_at TEXT NOT NULL DEFAULT CURRENT_TIMESTAMP,
                last_conversion_at TEXT NOT NULL DEFAULT CURRENT_TIMESTAMP
            );
            INSERT INTO statistics (
                id, webp, avif, jpeg, png, input_bytes, output_bytes, processing_time_ms
            ) VALUES (1, 4, 3, 2, 1, 1000, 600, 250);",
        )
        .expect("legacy statistics");

    initialize_statistics_schema(&connection).expect("migration");
    let statistics = load_statistics_with_connection(&connection).expect("statistics");

    assert_eq!(statistics.amount, 10);
    assert_eq!(statistics.cli_uses, 0);
    assert_eq!(statistics.saved_bytes, 400);

    record_cli_usage_with_connection(&connection).expect("first CLI use");
    record_cli_usage_with_connection(&connection).expect("second CLI use");

    let statistics = load_statistics_with_connection(&connection).expect("updated statistics");
    assert_eq!(statistics.amount, 10);
    assert_eq!(statistics.cli_uses, 2);
}

fn fresh() -> Connection {
    let mut connection = Connection::open_in_memory().expect("database");
    initialize_schema(&mut connection).expect("schema");
    connection
}

fn request(name: &str) -> SavePresetRequest {
    SavePresetRequest {
        id: None,
        name: name.into(),
        format: " WEBP ".into(),
        resize_mode: "Width".into(),
        width: Some(1200),
        height: Some(600),
        quality: 90,
        filename_component: "_1200".into(),
        filename_mode: "POSTFIX".into(),
        output_directory: " /exports ".into(),
    }
}

#[test]
fn saves_normalized_presets_and_reads_them_back() {
    let connection = fresh();
    let saved = save_preset_with_connection(&connection, request("  Blog Header ")).expect("saved");
    assert_eq!(saved.name, "Blog Header");
    assert_eq!(saved.format, "webp");
    assert_eq!(saved.resize_mode, "width");
    assert_eq!((saved.width, saved.height), (Some(1200), None));
    assert_eq!(saved.filename_mode, "postfix");
    assert_eq!(saved.output_directory, "/exports");

    let found = get_preset_by_name(&connection, "  blog HEADER ").expect("found");
    assert_eq!(found.id, saved.id);

    let mut update = request("Blog Header");
    update.id = Some(saved.id);
    update.quality = 75;
    let updated = save_preset_with_connection(&connection, update).expect("updated");
    assert_eq!(updated.quality, 75);
    assert_eq!(list_presets_with_connection(&connection).expect("listed").len(), 1);

    let by_ids = get_presets_by_ids_with_connection(&connection, &[saved.id, saved.id]).expect("by ids");
    assert_eq!(by_ids.len(), 2);

    delete_preset_with_connection(&connection, saved.id).expect("deleted");
    assert_eq!(
        message(delete_preset_with_connection(&connection, saved.id).expect_err("gone")),
        "Preset not found."
    );
    assert_eq!(
        message(get_preset_by_name(&connection, " Blog Header ").expect_err("gone")),
        "Preset not found: Blog Header"
    );
}

#[test]
fn refuses_invalid_presets() {
    let connection = fresh();
    let cases: Vec<(SavePresetRequest, &str)> = vec![
        (request(" abc "), "Preset name must be longer than 3 characters."),
        (SavePresetRequest { format: "gif".into(), ..request("Name") }, "Choose a valid export format."),
        (SavePresetRequest { resize_mode: "fit".into(), ..request("Name") }, "Choose a valid resolution mode."),
        (SavePresetRequest { width: Some(0), ..request("Name") }, "Preset width must be between 1 and 9999."),
        (
            SavePresetRequest { resize_mode: "height".into(), height: None, ..request("Name") },
            "Preset height must be between 1 and 9999.",
        ),
        (SavePresetRequest { quality: 101, ..request("Name") }, "Preset quality must be between 1 and 100."),
        (SavePresetRequest { filename_mode: "suffix".into(), ..request("Name") }, "Choose prefix or postfix."),
        (SavePresetRequest { output_directory: "  ".into(), ..request("Name") }, "Choose an output folder."),
    ];
    for (r, expected) in cases {
        assert_eq!(message(save_preset_with_connection(&connection, r).expect_err("refused")), expected);
    }
    let mut missing = request("Missing preset");
    missing.id = Some(4242);
    assert_eq!(
        message(save_preset_with_connection(&connection, missing).expect_err("missing")),
        "Preset not found."
    );
}

#[test]
fn normalizes_before_checking() {
    let mut r = request("  Ünïcode name ");
    normalize_request(&mut r);
    assert_eq!(r.name, "Ünïcode name");
    assert_eq!(r.format, "webp");
    assert_eq!((r.width, r.height), (Some(1200), None));
    assert!(validate_request(&r).is_ok());
    let mut short = request("äö");
    normalize_request(&mut short);
    assert!(validate_request(&short).is_ok());
}

#[test]
fn records_conversion_statistics() {
    let connection = fresh();
    let totals = ConversionTotals {
        success_count: 3,
        failure_count: 1,
        total_original_size: 5000,
        total_converted_size: 2000,
        total_delta_bytes: 3000,
    };
    record_conversion_statistics_with_connection(&connection, &ExportFormat::Avif, &totals, 1500)
        .expect("recorded");
    let empty = ConversionTotals { success_count: 0, ..totals };
    record_conversion_statistics_with_connection(&connection, &ExportFormat::Png, &empty, 99)
        .expect("nothing recorded");
    let st = load_statistics_with_connection(&connection).expect("statistics");
    assert_eq!((st.amount, st.avif, st.png), (3, 3, 0));
    assert_eq!((st.input_bytes, st.output_bytes, st.saved_bytes), (5000, 2000, 3000));
    assert_eq!(st.processing_time_ms, 1500);
    assert!(statistics_update_sql(&ExportFormat::Jpeg).starts_with("UPDATE statistics\n         SET jpeg = jpeg + ?1,"));
}

#[test]
fn rebuilds_an_older_presets_table() {
    let mut connection = Connection::open_in_memory().expect("database");
    connection.execute_batch(
        "CREATE TABLE presets (
            id INTEGER PRIMARY KEY AUTOINCREMENT,
            name TEXT NOT NULL,
            format TEXT NOT NULL,
            resize_mode TEXT NOT NULL,
            width INTEGER,
            height INTEGER,
            quality INTEGER NOT NULL,
            filename_component TEXT,
            filename_mode TEXT NOT NULL,
            output_directory TEXT NOT NULL,
            created_at TEXT,
            updated_at TEXT
        );
        INSERT INTO presets (name, format, resize_mode, quality, filename_mode, output_directory)
            VALUES (' Kept Preset ', 'PNG', 'none', 80, 'prefix', ' /out ');
        INSERT INTO presets (name, format, resize_mode, quality, filename_mode, output_directory)
            VALUES ('abc', 'png', 'none', 80, 'prefix', '/out');",
    )
    .expect("legacy presets");
    initialize_schema(&mut connection).expect("rebuilt");
    let presets = list_presets_with_connection(&connection).expect("listed");
    assert_eq!(presets.len(), 1);
    assert_eq!(presets[0].name, "Kept Preset");
    assert_eq!(presets[0].format, "png");
    assert_eq!(presets[0].filename_component, "");
    assert_eq!(presets[0].output_directory, "/out");
}

#[test]
fn places_the_database_in_the_data_folder() {
    let dir = app_data_directory(Some("/home/oli/.local/share".into())).expect("folder");
    assert_eq!(dir, "/home/oli/.local/share/com.oli.bulkpixel");
    assert_eq!(database_file_in(&dir), "/home/oli/.local/share/com.oli.bulkpixel/presets.sqlite3");
    assert_eq!(
        message(app_data_directory(None).expect_err("no folder")),
        "Preset storage error: Unable to resolve the data directory."
    );
}
