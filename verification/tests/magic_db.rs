use bulkpixel::magic::{
    accept_directory, dedup_preset_ids, delete_magic_directory_with_connection, list_magic_directories_with_connection,
    magic_outcome, magic_presets_problem, matching_directory, normalize_watch_formats, preset_run_request,
    processing_message, ready_step, readiness_start_state, save_magic_directory_with_connection,
    tally_run, watch_failure_message, watched_directories, watched_extension, watcher_error_message,
};
use bulkpixel::models::{CollisionMode, ConversionPreset, ExportFormat, MagicDirectory, SaveMagicDirectoryRequest};
use bulkpixel::presets::{initialize_schema, PresetError};
use rusqlite::Connection;

fn insert_preset(connection: &Connection, name: &str, component: &str) -> i64 {
    connection
        .execute(
            "INSERT INTO presets (
                name, format, resize_mode, width, height, quality, filename_component,
                filename_mode, output_directory
             ) VALUES (?1, 'webp', 'none', NULL, NULL, 90, ?2, 'postfix', '/tmp')",
            (name, component),
        )
        .expect("insert preset");
    connection.last_insert_rowid()
}

fn save(
    connection: &mut Connection,
    request: SaveMagicDirectoryRequest,
) -> Result<MagicDirectory, PresetError> {
    let folder = request.path.clone();
    save_magic_directory_with_connection(connection, request, Ok((folder, true)))
}

fn message(e: PresetError) -> String {
    e.message()
}

#[test]
fn persists_formats_and_presets_for_a_magic_directory() {
    let mut connection = Connection::open_in_memory().expect("in-memory database");
    initialize_schema(&mut connection).expect("schema");
    let preset_id = insert_preset(&connection, "Watcher WEBP", "_webp");

    let saved = save(
        &mut connection,
        SaveMagicDirectoryRequest {
            id: None,
            path: "/tmp/bulkpixel-magic-persists".into(),
            formats: vec!["SVG".into(), "png".into(), "svg".into()],
            preset_ids: vec![preset_id, preset_id],
            enabled: true,
        },
    )
    .expect("saved magic directory");

    assert_eq!(saved.formats, vec!["svg", "png"]);
    assert_eq!(saved.preset_ids, vec![preset_id]);
    assert!(saved.enabled);
    assert_eq!(
        list_magic_directories_with_connection(&connection)
            .expect("listed magic directories")
            .len(),
        1
    );
}

#[test]
fn rejects_multiple_presets_without_unique_filename_markers() {
    let mut connection = Connection::open_in_memory().expect("in-memory database");
    initialize_schema(&mut connection).expect("schema");
    let first_id = insert_preset(&connection, "First Preset", "");
    let second_id = insert_preset(&connection, "Second Preset", "_second");

    let error = save(
        &mut connection,
        SaveMagicDirectoryRequest {
            id: None,
            path: "/tmp/bulkpixel-magic-collision".into(),
            formats: vec!["svg".into()],
            preset_ids: vec![first_id, second_id],
            enabled: true,
        },
    )
    .expect_err("collision validation");

    assert!(message(error).contains("has no prefix or postfix"));
}

#[test]
fn migrates_legacy_preset_links_without_losing_data() {
    let mut connection = Connection::open_in_memory().expect("in-memory database");
    initialize_schema(&mut connection).expect("initial schema");
    let first_id = insert_preset(&connection, "First Legacy", "_first");
    let second_id = insert_preset(&connection, "Second Legacy", "_second");
    connection
        .execute_batch(
            "DROP TABLE magic_directory_presets;
             CREATE TABLE magic_directory_presets (
                magic_directory_id INTEGER NOT NULL,
                preset_id INTEGER NOT NULL,
                PRIMARY KEY (magic_directory_id, preset_id),
                FOREIGN KEY (magic_directory_id) REFERENCES magic_directories(id) ON DELETE CASCADE,
                FOREIGN KEY (preset_id) REFERENCES presets(id) ON DELETE CASCADE
             );
             INSERT INTO magic_directories (path, enabled) VALUES ('/tmp/legacy-magic', 1);",
        )
        .expect("legacy schema");
    let directory_id = connection.last_insert_rowid();
    connection
        .execute(
            "INSERT INTO magic_directory_presets (magic_directory_id, preset_id)
             VALUES (?1, ?2), (?1, ?3)",
            (directory_id, second_id, first_id),
        )
        .expect("legacy preset links");

    initialize_schema(&mut connection).expect("migrated schema");

    let directory = list_magic_directories_with_connection(&connection)
        .expect("magic directories")
        .into_iter()
        .next()
        .expect("legacy magic directory");
    assert_eq!(directory.preset_ids, vec![first_id, second_id]);
    let positions = connection
        .prepare(
            "SELECT position FROM magic_directory_presets
             WHERE magic_directory_id = ?1 ORDER BY position",
        )
        .expect("position query")
        .query_map([directory_id], |row| row.get::<_, i64>(0))
        .expect("positions")
        .collect::<Result<Vec<_>, _>>()
        .expect("collected positions");
    assert_eq!(positions, vec![0, 1]);
}

#[test]
fn refuses_bad_magic_requests() {
    let mut connection = Connection::open_in_memory().expect("in-memory database");
    initialize_schema(&mut connection).expect("schema");
    let id = insert_preset(&connection, "Only Preset", "_x");
    let base = SaveMagicDirectoryRequest {
        id: None,
        path: "/tmp/bulkpixel-magic-refused".into(),
        formats: vec![" ".into()],
        preset_ids: vec![id],
        enabled: true,
    };
    let mut r = base.clone();
    r.formats = vec![];
    assert_eq!(
        message(save(&mut connection, r).expect_err("no format")),
        "Choose at least one file format to watch."
    );
    let mut r = base.clone();
    r.formats = vec!["png".into(), "gif".into()];
    assert_eq!(
        message(save(&mut connection, r).expect_err("bad format")),
        "Choose only SVG, PNG, WEBP, or AVIF as watched formats."
    );
    let mut r = base.clone();
    r.formats = vec!["png".into()];
    r.preset_ids = vec![];
    assert_eq!(
        message(save(&mut connection, r).expect_err("no preset")),
        "Choose at least one preset to run."
    );
    let mut r = base.clone();
    r.formats = vec!["png".into()];
    r.id = Some(999);
    assert_eq!(
        message(save(&mut connection, r).expect_err("missing")),
        "Magic directory not found."
    );
    assert_eq!(
        message(delete_magic_directory_with_connection(&connection, 999).expect_err("missing")),
        "Magic directory not found."
    );
}

#[test]
fn updates_and_deletes_magic_directories() {
    let mut connection = Connection::open_in_memory().expect("in-memory database");
    initialize_schema(&mut connection).expect("schema");
    let a = insert_preset(&connection, "Preset A", "_a");
    let b = insert_preset(&connection, "Preset B", "_b");
    let saved = save(
        &mut connection,
        SaveMagicDirectoryRequest {
            id: None,
            path: "/tmp/bulkpixel-magic-update".into(),
            formats: vec!["avif".into()],
            preset_ids: vec![a],
            enabled: true,
        },
    )
    .expect("saved");
    let updated = save(
        &mut connection,
        SaveMagicDirectoryRequest {
            id: Some(saved.id),
            path: "/tmp/bulkpixel-magic-update".into(),
            formats: vec!["webp".into(), " SVG".into()],
            preset_ids: vec![b, a, b],
            enabled: false,
        },
    )
    .expect("updated");
    assert_eq!(updated.id, saved.id);
    assert_eq!(updated.formats, vec!["svg", "webp"]);
    assert_eq!(updated.preset_ids, vec![b, a]);
    assert!(!updated.enabled);
    delete_magic_directory_with_connection(&connection, saved.id).expect("deleted");
    assert!(list_magic_directories_with_connection(&connection).expect("listed").is_empty());
}

#[test]
fn normalizes_formats_and_presets() {
    let formats = vec![" PNG ".to_string(), "svg".into(), "png".into(), "Svg".into()];
    assert_eq!(normalize_watch_formats(&formats), vec!["png", "svg"]);
    assert_eq!(dedup_preset_ids(&vec![3, 1, 3, 2, 1]), vec![3, 1, 2]);
    assert_eq!(watched_extension("/in/Logo.SVG").as_deref(), Some("svg"));
    assert_eq!(watched_extension("/in/photo.jpg"), None);
    assert_eq!(watched_extension("/in/.png"), None);
}

#[test]
fn accepts_only_existing_folders() {
    assert_eq!(accept_directory(Ok(("/data/in".into(), true))).expect("accepted"), "/data/in");
    assert_eq!(
        message(accept_directory(Ok(("/data/file.txt".into(), false))).expect_err("file")),
        "Choose an existing directory to watch."
    );
    assert_eq!(
        message(accept_directory(Err("No such file or directory (os error 2)".into())).expect_err("missing")),
        "Unable to access the magic directory: No such file or directory (os error 2)"
    );
}

fn directory(path: &str, formats: &[&str], enabled: bool) -> MagicDirectory {
    MagicDirectory {
        id: 1,
        path: path.into(),
        formats: formats.iter().map(|f| f.to_string()).collect(),
        preset_ids: vec![1],
        enabled,
        created_at: String::new(),
        updated_at: String::new(),
    }
}

#[test]
fn finds_the_directory_of_a_new_image() {
    let dirs = vec![
        directory("/a", &["png"], false),
        directory("/a", &["svg"], true),
        directory("/a", &["png", "svg"], true),
    ];
    let resolved = vec!["/a".to_string(), "/a".into(), "/a".into()];
    assert_eq!(matching_directory(&dirs, &resolved, "png", &Some("/a".into())), Some(2));
    assert_eq!(matching_directory(&dirs, &resolved, "svg", &Some("/a".into())), Some(1));
    assert_eq!(matching_directory(&dirs, &resolved, "png", &Some("/b".into())), None);
    assert_eq!(matching_directory(&dirs, &resolved, "png", &None), None);
}

fn preset(component: &str, mode: &str) -> ConversionPreset {
    ConversionPreset {
        id: 1,
        name: "Watcher".into(),
        format: "avif".into(),
        resize_mode: "height".into(),
        width: None,
        height: Some(300),
        quality: 70,
        filename_component: component.into(),
        filename_mode: mode.into(),
        output_directory: "/out".into(),
        created_at: String::new(),
        updated_at: String::new(),
    }
}

#[test]
fn checks_the_presets_of_a_new_image() {
    assert_eq!(
        magic_presets_problem(&vec![]).as_deref(),
        Some("Magic directory has no available presets. Edit the rule before using it.")
    );
    assert_eq!(magic_presets_problem(&vec![preset("", "prefix")]), None);
    assert_eq!(
        magic_presets_problem(&vec![preset("_a", "postfix"), preset(" _a ", "postfix")]).as_deref(),
        Some("Preset collision risk: multiple presets use the same prefix/postfix.")
    );
    assert_eq!(magic_presets_problem(&vec![preset("_a", "postfix"), preset("_a", "prefix")]), None);
}

#[test]
fn builds_the_request_of_a_preset_run() {
    let q = preset_run_request("/in/new.png", &preset("_x", "postfix")).expect("request");
    assert_eq!(q.images.len(), 1);
    assert_eq!(q.images[0].path, "/in/new.png");
    assert!(matches!(q.format, ExportFormat::Avif));
    assert_eq!((q.resize.width, q.resize.height), (None, Some(300)));
    assert_eq!(q.collision_mode, CollisionMode::Rename);
    let mut bad = preset("_x", "postfix");
    bad.format = "tiff".into();
    assert_eq!(preset_run_request("/in/new.png", &bad).expect_err("format"), "Unsupported preset format: tiff");
    let mut bad = preset("_x", "postfix");
    bad.resize_mode = "Width".into();
    assert_eq!(
        preset_run_request("/in/new.png", &bad).expect_err("mode"),
        "Unsupported preset resize mode: Width"
    );
}

#[test]
fn tells_the_outcome_of_a_new_image() {
    assert_eq!(processing_message("new.png", 2), "Processing new.png with 2 preset(s)...");
    assert_eq!(magic_outcome(3, 0), ("success".into(), "Magic directory converted 3 output(s).".into()));
    assert_eq!(
        magic_outcome(2, 1),
        ("warning".into(), "Magic directory created 2 output(s); 1 failed.".into())
    );
    assert_eq!(magic_outcome(0, 2), ("error".into(), "Magic directory conversion failed.".into()));
    assert_eq!(tally_run((1, 0), &Ok((2, 1))), (3, 1));
    assert_eq!(tally_run((1, 0), &Err("broken".into())), (1, 1));
}

#[test]
fn waits_for_a_file_to_settle() {
    let s = readiness_start_state();
    let (s, ready) = ready_step(s, Some(10));
    assert!(!ready);
    let (s, ready) = ready_step(s, Some(10));
    assert!(!ready);
    let (s, ready) = ready_step(s, Some(12));
    assert!(!ready);
    let (s, ready) = ready_step(s, Some(12));
    assert!(!ready);
    let (_, ready) = ready_step(s, Some(12));
    assert!(ready);
    let (s, _) = ready_step(readiness_start_state(), Some(5));
    let (s, _) = ready_step(s, None);
    assert_eq!((s.stable_observations, s.previous_size), (0, None));
}

#[test]
fn refuses_folders_that_are_not_directories() {
    let mut connection = Connection::open_in_memory().expect("in-memory database");
    initialize_schema(&mut connection).expect("schema");
    let id = insert_preset(&connection, "Only Preset", "_x");
    let request = SaveMagicDirectoryRequest {
        id: None,
        path: " /tmp/notes.txt ".into(),
        formats: vec!["png".into()],
        preset_ids: vec![id],
        enabled: true,
    };
    assert_eq!(
        message(
            save_magic_directory_with_connection(&mut connection, request.clone(), Ok(("/tmp/notes.txt".into(), false)))
                .expect_err("not a folder")
        ),
        "Choose an existing directory to watch."
    );
    assert_eq!(
        message(
            save_magic_directory_with_connection(&mut connection, request.clone(), Err("No such file or directory (os error 2)".into()))
                .expect_err("missing")
        ),
        "Unable to access the magic directory: No such file or directory (os error 2)"
    );
    let saved = save_magic_directory_with_connection(&mut connection, request, Ok(("/private/tmp/in".into(), true)))
        .expect("saved");
    assert_eq!(saved.path, "/private/tmp/in");
    assert!(list_magic_directories_with_connection(&connection).expect("listed").len() == 1);
}

#[test]
fn watches_only_enabled_directories_in_order() {
    let directories = vec![directory("/a", &["png"], true), directory("/b", &["png"], false), directory("/c", &["svg"], true)];
    assert_eq!(watched_directories(&directories), vec!["/a".to_string(), "/c".to_string()]);
    assert!(watched_directories(&vec![directory("/d", &["png"], false)]).is_empty());
    assert_eq!(watch_failure_message("/a", "denied"), "Unable to watch /a: denied");
    assert_eq!(watcher_error_message("gone"), "Magic directory watcher error: gone");
}
