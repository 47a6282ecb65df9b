//! The SQL statements that presets, statistics and magic directories run,
//! each fixed by the contract of the function that gives it.

use vstd::prelude::*;
use crate::db::SqlValue;

verus! {

/// Creates the presets table, with the checks on its values.
pub open spec fn create_presets_table_text() -> Seq<char> {
    "
    CREATE TABLE IF NOT EXISTS presets (
        id INTEGER PRIMARY KEY AUTOINCREMENT,

        name TEXT NOT NULL UNIQUE
            CHECK (length(trim(name)) > 3),

        format TEXT NOT NULL
            CHECK (format IN ('png', 'jpeg', 'avif', 'webp')),

        resize_mode TEXT NOT NULL,

        width INTEGER
            CHECK (width IS NULL OR width BETWEEN 1 AND 9999),

        height INTEGER
            CHECK (height IS NULL OR height BETWEEN 1 AND 9999),

        quality INTEGER NOT NULL
            CHECK (quality BETWEEN 1 AND 100),

        filename_component TEXT NOT NULL DEFAULT '',

        filename_mode TEXT NOT NULL,

        output_directory TEXT NOT NULL
            CHECK (length(trim(output_directory)) > 0),

        created_at TEXT NOT NULL DEFAULT CURRENT_TIMESTAMP,
        updated_at TEXT NOT NULL DEFAULT CURRENT_TIMESTAMP
    );
"@
}

/// The statement of `create_presets_table_text`.
pub fn create_presets_table_sql() -> (r: &'static str)
    ensures
        r@ == create_presets_table_text(),
{
    "
    CREATE TABLE IF NOT EXISTS presets (
        id INTEGER PRIMARY KEY AUTOINCREMENT,

        name TEXT NOT NULL UNIQUE
            CHECK (length(trim(name)) > 3),

        format TEXT NOT NULL
            CHECK (format IN ('png', 'jpeg', 'avif', 'webp')),

        resize_mode TEXT NOT NULL,

        width INTEGER
            CHECK (width IS NULL OR width BETWEEN 1 AND 9999),

        height INTEGER
            CHECK (height IS NULL OR height BETWEEN 1 AND 9999),

        quality INTEGER NOT NULL
            CHECK (quality BETWEEN 1 AND 100),

        filename_component TEXT NOT NULL DEFAULT '',

        filename_mode TEXT NOT NULL,

        output_directory TEXT NOT NULL
            CHECK (length(trim(output_directory)) > 0),

        created_at TEXT NOT NULL DEFAULT CURRENT_TIMESTAMP,
        updated_at TEXT NOT NULL DEFAULT CURRENT_TIMESTAMP
    );
"
}

/// Creates the statistics table, with its computed total and saved bytes.
pub open spec fn create_statistics_table_text() -> Seq<char> {
    "
    CREATE TABLE IF NOT EXISTS statistics (
        id INTEGER PRIMARY KEY CHECK (id = 1),

        amount INTEGER GENERATED ALWAYS AS (
            webp + avif + jpeg + png
        ) STORED,

        cli_uses INTEGER NOT NULL DEFAULT 0
            CHECK (cli_uses >= 0),

        webp INTEGER NOT NULL DEFAULT 0
            CHECK (webp >= 0),

        avif INTEGER NOT NULL DEFAULT 0
            CHECK (avif >= 0),

        jpeg INTEGER NOT NULL DEFAULT 0
            CHECK (jpeg >= 0),

        png INTEGER NOT NULL DEFAULT 0
            CHECK (png >= 0),

        input_bytes INTEGER NOT NULL DEFAULT 0 CHECK (input_bytes >= 0),
        output_bytes INTEGER NOT NULL DEFAULT 0 CHECK (output_bytes >= 0),
        processing_time_ms INTEGER NOT NULL DEFAULT 0
            CHECK (processing_time_ms >= 0),

        saved_bytes INTEGER GENERATED ALWAYS AS (
            CASE
                WHEN input_bytes > output_bytes THEN input_bytes - output_bytes
                ELSE 0
            END
        ) STORED,

        created_at TEXT NOT NULL DEFAULT CURRENT_TIMESTAMP,
        last_conversion_at TEXT NOT NULL DEFAULT CURRENT_TIMESTAMP
    );
"@
}

/// The statement of `create_statistics_table_text`.
pub fn create_statistics_table_sql() -> (r: &'static str)
    ensures
        r@ == create_statistics_table_text(),
{
    "
    CREATE TABLE IF NOT EXISTS statistics (
        id INTEGER PRIMARY KEY CHECK (id = 1),

        amount INTEGER GENERATED ALWAYS AS (
            webp + avif + jpeg + png
        ) STORED,

        cli_uses INTEGER NOT NULL DEFAULT 0
            CHECK (cli_uses >= 0),

        webp INTEGER NOT NULL DEFAULT 0
            CHECK (webp >= 0),

        avif INTEGER NOT NULL DEFAULT 0
            CHECK (avif >= 0),

        jpeg INTEGER NOT NULL DEFAULT 0
            CHECK (jpeg >= 0),

        png INTEGER NOT NULL DEFAULT 0
            CHECK (png >= 0),

        input_bytes INTEGER NOT NULL DEFAULT 0 CHECK (input_bytes >= 0),
        output_bytes INTEGER NOT NULL DEFAULT 0 CHECK (output_bytes >= 0),
        processing_time_ms INTEGER NOT NULL DEFAULT 0
            CHECK (processing_time_ms >= 0),

        saved_bytes INTEGER GENERATED ALWAYS AS (
            CASE
                WHEN input_bytes > output_bytes THEN input_bytes - output_bytes
                ELSE 0
            END
        ) STORED,

        created_at TEXT NOT NULL DEFAULT CURRENT_TIMESTAMP,
        last_conversion_at TEXT NOT NULL DEFAULT CURRENT_TIMESTAMP
    );
"
}

/// Creates the tables of magic directories and their formats.
pub open spec fn create_magic_directories_tables_text() -> Seq<char> {
    "
    CREATE TABLE IF NOT EXISTS magic_directories (
        id INTEGER PRIMARY KEY AUTOINCREMENT,
        path TEXT NOT NULL UNIQUE
            CHECK (length(trim(path)) > 0),
        enabled INTEGER NOT NULL DEFAULT 1
            CHECK (enabled IN (0, 1)),
        created_at TEXT NOT NULL DEFAULT CURRENT_TIMESTAMP,
        updated_at TEXT NOT NULL DEFAULT CURRENT_TIMESTAMP
    );

    CREATE TABLE IF NOT EXISTS magic_directory_formats (
        magic_directory_id INTEGER NOT NULL,
        format TEXT NOT NULL
            CHECK (format IN ('svg', 'png', 'webp', 'avif')),
        PRIMARY KEY (magic_directory_id, format),
        FOREIGN KEY (magic_directory_id) REFERENCES magic_directories(id) ON DELETE CASCADE
    );

"@
}

/// The statement of `create_magic_directories_tables_text`.
pub fn create_magic_directories_tables_sql() -> (r: &'static str)
    ensures
        r@ == create_magic_directories_tables_text(),
{
    "
    CREATE TABLE IF NOT EXISTS magic_directories (
        id INTEGER PRIMARY KEY AUTOINCREMENT,
        path TEXT NOT NULL UNIQUE
            CHECK (length(trim(path)) > 0),
        enabled INTEGER NOT NULL DEFAULT 1
            CHECK (enabled IN (0, 1)),
        created_at TEXT NOT NULL DEFAULT CURRENT_TIMESTAMP,
        updated_at TEXT NOT NULL DEFAULT CURRENT_TIMESTAMP
    );

    CREATE TABLE IF NOT EXISTS magic_directory_formats (
        magic_directory_id INTEGER NOT NULL,
        format TEXT NOT NULL
            CHECK (format IN ('svg', 'png', 'webp', 'avif')),
        PRIMARY KEY (magic_directory_id, format),
        FOREIGN KEY (magic_directory_id) REFERENCES magic_directories(id) ON DELETE CASCADE
    );

"
}

/// Creates the table of the presets of magic directories, with their positions.
pub open spec fn create_magic_directory_presets_table_text() -> Seq<char> {
    "
    CREATE TABLE IF NOT EXISTS magic_directory_presets (
        magic_directory_id INTEGER NOT NULL,
        preset_id INTEGER NOT NULL,
        position INTEGER NOT NULL CHECK (position >= 0),
        PRIMARY KEY (magic_directory_id, preset_id),
        UNIQUE (magic_directory_id, position),
        FOREIGN KEY (magic_directory_id) REFERENCES magic_directories(id) ON DELETE CASCADE,
        FOREIGN KEY (preset_id) REFERENCES presets(id) ON DELETE CASCADE
    );
"@
}

/// The statement of `create_magic_directory_presets_table_text`.
pub fn create_magic_directory_presets_table_sql() -> (r: &'static str)
    ensures
        r@ == create_magic_directory_presets_table_text(),
{
    "
    CREATE TABLE IF NOT EXISTS magic_directory_presets (
        magic_directory_id INTEGER NOT NULL,
        preset_id INTEGER NOT NULL,
        position INTEGER NOT NULL CHECK (position >= 0),
        PRIMARY KEY (magic_directory_id, preset_id),
        UNIQUE (magic_directory_id, position),
        FOREIGN KEY (magic_directory_id) REFERENCES magic_directories(id) ON DELETE CASCADE,
        FOREIGN KEY (preset_id) REFERENCES presets(id) ON DELETE CASCADE
    );
"
}

/// Adds the count of command line uses to an older statistics table.
pub open spec fn add_cli_uses_column_text() -> Seq<char> {
    "ALTER TABLE statistics
             ADD COLUMN cli_uses INTEGER NOT NULL DEFAULT 0 CHECK (cli_uses >= 0)"@
}

/// The statement of `add_cli_uses_column_text`.
pub fn add_cli_uses_column_sql() -> (r: &'static str)
    ensures
        r@ == add_cli_uses_column_text(),
{
    "ALTER TABLE statistics
             ADD COLUMN cli_uses INTEGER NOT NULL DEFAULT 0 CHECK (cli_uses >= 0)"
}

/// Creates the single statistics row when it is missing.
pub open spec fn insert_statistics_row_text() -> Seq<char> {
    "INSERT OR IGNORE INTO statistics (id) VALUES (1)"@
}

/// The statement of `insert_statistics_row_text`.
pub fn insert_statistics_row_sql() -> (r: &'static str)
    ensures
        r@ == insert_statistics_row_text(),
{
    "INSERT OR IGNORE INTO statistics (id) VALUES (1)"
}

/// Moves an older table of preset links aside.
pub open spec fn rename_legacy_preset_links_text() -> Seq<char> {
    "ALTER TABLE magic_directory_presets RENAME TO magic_directory_presets_legacy;"@
}

/// The statement of `rename_legacy_preset_links_text`.
pub fn rename_legacy_preset_links_sql() -> (r: &'static str)
    ensures
        r@ == rename_legacy_preset_links_text(),
{
    "ALTER TABLE magic_directory_presets RENAME TO magic_directory_presets_legacy;"
}

/// Copies older preset links, numbering the presets of each directory from 0 by id.
pub open spec fn copy_legacy_preset_links_text() -> Seq<char> {
    "INSERT INTO magic_directory_presets (magic_directory_id, preset_id, position)
         SELECT
            magic_directory_id,
            preset_id,
            ROW_NUMBER() OVER (
                PARTITION BY magic_directory_id
                ORDER BY preset_id ASC
            ) - 1
         FROM magic_directory_presets_legacy"@
}

/// The statement of `copy_legacy_preset_links_text`.
pub fn copy_legacy_preset_links_sql() -> (r: &'static str)
    ensures
        r@ == copy_legacy_preset_links_text(),
{
    "INSERT INTO magic_directory_presets (magic_directory_id, preset_id, position)
         SELECT
            magic_directory_id,
            preset_id,
            ROW_NUMBER() OVER (
                PARTITION BY magic_directory_id
                ORDER BY preset_id ASC
            ) - 1
         FROM magic_directory_presets_legacy"
}

/// Drops the older table of preset links.
pub open spec fn drop_legacy_preset_links_text() -> Seq<char> {
    "DROP TABLE magic_directory_presets_legacy;"@
}

/// The statement of `drop_legacy_preset_links_text`.
pub fn drop_legacy_preset_links_sql() -> (r: &'static str)
    ensures
        r@ == drop_legacy_preset_links_text(),
{
    "DROP TABLE magic_directory_presets_legacy;"
}

/// Moves an older presets table aside.
pub open spec fn rename_legacy_presets_text() -> Seq<char> {
    "ALTER TABLE presets RENAME TO presets_legacy;"@
}

/// The statement of `rename_legacy_presets_text`.
pub fn rename_legacy_presets_sql() -> (r: &'static str)
    ensures
        r@ == rename_legacy_presets_text(),
{
    "ALTER TABLE presets RENAME TO presets_legacy;"
}

/// Copies the older presets that meet the current rules, trimmed and lowercased.
pub open spec fn copy_legacy_presets_text() -> Seq<char> {
    "INSERT OR IGNORE INTO presets (
            id, name, format, resize_mode, width, height, quality, filename_component,
            filename_mode, output_directory, created_at, updated_at
         )
         SELECT
            id,
            trim(name),
            lower(format),
            resize_mode,
            width,
            height,
            quality,
            COALESCE(filename_component, ''),
            filename_mode,
            trim(output_directory),
            COALESCE(created_at, CURRENT_TIMESTAMP),
            COALESCE(updated_at, CURRENT_TIMESTAMP)
         FROM presets_legacy
         WHERE length(trim(name)) > 3
            AND lower(format) IN ('png', 'jpeg', 'avif', 'webp')
            AND resize_mode IN ('none', 'width', 'height')
            AND (width IS NULL OR width BETWEEN 1 AND 9999)
            AND (height IS NULL OR height BETWEEN 1 AND 9999)
            AND quality BETWEEN 1 AND 100
            AND filename_mode IN ('prefix', 'postfix')
            AND length(trim(output_directory)) > 0"@
}

/// The statement of `copy_legacy_presets_text`.
pub fn copy_legacy_presets_sql() -> (r: &'static str)
    ensures
        r@ == copy_legacy_presets_text(),
{
    "INSERT OR IGNORE INTO presets (
            id, name, format, resize_mode, width, height, quality, filename_component,
            filename_mode, output_directory, created_at, updated_at
         )
         SELECT
            id,
            trim(name),
            lower(format),
            resize_mode,
            width,
            height,
            quality,
            COALESCE(filename_component, ''),
            filename_mode,
            trim(output_directory),
            COALESCE(created_at, CURRENT_TIMESTAMP),
            COALESCE(updated_at, CURRENT_TIMESTAMP)
         FROM presets_legacy
         WHERE length(trim(name)) > 3
            AND lower(format) IN ('png', 'jpeg', 'avif', 'webp')
            AND resize_mode IN ('none', 'width', 'height')
            AND (width IS NULL OR width BETWEEN 1 AND 9999)
            AND (height IS NULL OR height BETWEEN 1 AND 9999)
            AND quality BETWEEN 1 AND 100
            AND filename_mode IN ('prefix', 'postfix')
            AND length(trim(output_directory)) > 0"
}

/// Drops the older presets table.
pub open spec fn drop_legacy_presets_text() -> Seq<char> {
    "DROP TABLE presets_legacy;"@
}

/// The statement of `drop_legacy_presets_text`.
pub fn drop_legacy_presets_sql() -> (r: &'static str)
    ensures
        r@ == drop_legacy_presets_text(),
{
    "DROP TABLE presets_legacy;"
}

/// Turns on foreign keys.
pub open spec fn enable_foreign_keys_text() -> Seq<char> {
    "PRAGMA foreign_keys = ON;"@
}

/// The statement of `enable_foreign_keys_text`.
pub fn enable_foreign_keys_sql() -> (r: &'static str)
    ensures
        r@ == enable_foreign_keys_text(),
{
    "PRAGMA foreign_keys = ON;"
}

/// Reads the SQL that the presets table was created with.
pub open spec fn select_presets_schema_text() -> Seq<char> {
    "SELECT sql FROM sqlite_master WHERE type = 'table' AND name = 'presets'"@
}

/// The statement of `select_presets_schema_text`.
pub fn select_presets_schema_sql() -> (r: &'static str)
    ensures
        r@ == select_presets_schema_text(),
{
    "SELECT sql FROM sqlite_master WHERE type = 'table' AND name = 'presets'"
}

/// Reads all presets, sorted by name without regard to case, then by id.
pub open spec fn select_presets_text() -> Seq<char> {
    "SELECT id, name, format, resize_mode, width, height, quality, filename_component,
                filename_mode, output_directory, created_at, updated_at
         FROM presets
         ORDER BY lower(name) ASC, id ASC"@
}

/// The statement of `select_presets_text`.
pub fn select_presets_sql() -> (r: &'static str)
    ensures
        r@ == select_presets_text(),
{
    "SELECT id, name, format, resize_mode, width, height, quality, filename_component,
                filename_mode, output_directory, created_at, updated_at
         FROM presets
         ORDER BY lower(name) ASC, id ASC"
}

/// Reads the preset with id `?1`.
pub open spec fn select_preset_by_id_text() -> Seq<char> {
    "SELECT id, name, format, resize_mode, width, height, quality, filename_component,
                    filename_mode, output_directory, created_at, updated_at
             FROM presets
             WHERE id = ?1"@
}

/// The statement of `select_preset_by_id_text`.
pub fn select_preset_by_id_sql() -> (r: &'static str)
    ensures
        r@ == select_preset_by_id_text(),
{
    "SELECT id, name, format, resize_mode, width, height, quality, filename_component,
                    filename_mode, output_directory, created_at, updated_at
             FROM presets
             WHERE id = ?1"
}

/// Reads the first preset whose name equals `?1` without regard to case.
pub open spec fn select_preset_by_name_text() -> Seq<char> {
    "SELECT id, name, format, resize_mode, width, height, quality, filename_component,
                    filename_mode, output_directory, created_at, updated_at
             FROM presets
             WHERE lower(name) = lower(?1)
             LIMIT 1"@
}

/// The statement of `select_preset_by_name_text`.
pub fn select_preset_by_name_sql() -> (r: &'static str)
    ensures
        r@ == select_preset_by_name_text(),
{
    "SELECT id, name, format, resize_mode, width, height, quality, filename_component,
                    filename_mode, output_directory, created_at, updated_at
             FROM presets
             WHERE lower(name) = lower(?1)
             LIMIT 1"
}

/// Changes the preset with id `?10` to the values `?1` to `?9`.
pub open spec fn update_preset_text() -> Seq<char> {
    "UPDATE presets
                 SET name = ?1,
                     format = ?2,
                     resize_mode = ?3,
                     width = ?4,
                     height = ?5,
                     quality = ?6,
                     filename_component = ?7,
                     filename_mode = ?8,
                     output_directory = ?9,
                     updated_at = CURRENT_TIMESTAMP
                 WHERE id = ?10"@
}

/// The statement of `update_preset_text`.
pub fn update_preset_sql() -> (r: &'static str)
    ensures
        r@ == update_preset_text(),
{
    "UPDATE presets
                 SET name = ?1,
                     format = ?2,
                     resize_mode = ?3,
                     width = ?4,
                     height = ?5,
                     quality = ?6,
                     filename_component = ?7,
                     filename_mode = ?8,
                     output_directory = ?9,
                     updated_at = CURRENT_TIMESTAMP
                 WHERE id = ?10"
}

/// Stores a new preset with the values `?1` to `?9`.
pub open spec fn insert_preset_text() -> Seq<char> {
    "INSERT INTO presets (
                    name, format, resize_mode, width, height, quality, filename_component,
                    filename_mode, output_directory
                 )
                 VALUES (?1, ?2, ?3, ?4, ?5, ?6, ?7, ?8, ?9)"@
}

/// The statement of `insert_preset_text`.
pub fn insert_preset_sql() -> (r: &'static str)
    ensures
        r@ == insert_preset_text(),
{
    "INSERT INTO presets (
                    name, format, resize_mode, width, height, quality, filename_component,
                    filename_mode, output_directory
                 )
                 VALUES (?1, ?2, ?3, ?4, ?5, ?6, ?7, ?8, ?9)"
}

/// Deletes the preset with id `?1`.
pub open spec fn delete_preset_text() -> Seq<char> {
    "DELETE FROM presets WHERE id = ?1"@
}

/// The statement of `delete_preset_text`.
pub fn delete_preset_sql() -> (r: &'static str)
    ensures
        r@ == delete_preset_text(),
{
    "DELETE FROM presets WHERE id = ?1"
}

/// Counts one use of the command line.
pub open spec fn record_cli_usage_text() -> Seq<char> {
    "UPDATE statistics SET cli_uses = cli_uses + 1 WHERE id = 1"@
}

/// The statement of `record_cli_usage_text`.
pub fn record_cli_usage_sql() -> (r: &'static str)
    ensures
        r@ == record_cli_usage_text(),
{
    "UPDATE statistics SET cli_uses = cli_uses + 1 WHERE id = 1"
}

/// Reads the statistics row.
pub open spec fn select_statistics_text() -> Seq<char> {
    "SELECT amount, cli_uses, webp, avif, jpeg, png, input_bytes, output_bytes,
                    processing_time_ms, saved_bytes, created_at, last_conversion_at
             FROM statistics
             WHERE id = 1"@
}

/// The statement of `select_statistics_text`.
pub fn select_statistics_sql() -> (r: &'static str)
    ensures
        r@ == select_statistics_text(),
{
    "SELECT amount, cli_uses, webp, avif, jpeg, png, input_bytes, output_bytes,
                    processing_time_ms, saved_bytes, created_at, last_conversion_at
             FROM statistics
             WHERE id = 1"
}

/// Lists the columns of the statistics table.
pub open spec fn statistics_columns_text() -> Seq<char> {
    "PRAGMA table_info(statistics)"@
}

/// The statement of `statistics_columns_text`.
pub fn statistics_columns_sql() -> (r: &'static str)
    ensures
        r@ == statistics_columns_text(),
{
    "PRAGMA table_info(statistics)"
}

/// Lists the columns of the table of preset links.
pub open spec fn preset_links_columns_text() -> Seq<char> {
    "PRAGMA table_info(magic_directory_presets)"@
}

/// The statement of `preset_links_columns_text`.
pub fn preset_links_columns_sql() -> (r: &'static str)
    ensures
        r@ == preset_links_columns_text(),
{
    "PRAGMA table_info(magic_directory_presets)"
}

/// Reads the formats of directory `?1`: svg, png, webp, avif first.
pub open spec fn select_directory_formats_text() -> Seq<char> {
    "SELECT format FROM magic_directory_formats
         WHERE magic_directory_id = ?1
         ORDER BY CASE format
            WHEN 'svg' THEN 1 WHEN 'png' THEN 2 WHEN 'webp' THEN 3 WHEN 'avif' THEN 4 END"@
}

/// The statement of `select_directory_formats_text`.
pub fn select_directory_formats_sql() -> (r: &'static str)
    ensures
        r@ == select_directory_formats_text(),
{
    "SELECT format FROM magic_directory_formats
         WHERE magic_directory_id = ?1
         ORDER BY CASE format
            WHEN 'svg' THEN 1 WHEN 'png' THEN 2 WHEN 'webp' THEN 3 WHEN 'avif' THEN 4 END"
}

/// Reads the presets of directory `?1` in the order they run.
pub open spec fn select_directory_presets_text() -> Seq<char> {
    "SELECT preset_id FROM magic_directory_presets
         WHERE magic_directory_id = ?1 ORDER BY position ASC"@
}

/// The statement of `select_directory_presets_text`.
pub fn select_directory_presets_sql() -> (r: &'static str)
    ensures
        r@ == select_directory_presets_text(),
{
    "SELECT preset_id FROM magic_directory_presets
         WHERE magic_directory_id = ?1 ORDER BY position ASC"
}

/// Reads all magic directories, sorted by path without regard to case, then by id.
pub open spec fn select_directories_text() -> Seq<char> {
    "SELECT id, path, enabled, created_at, updated_at
         FROM magic_directories
         ORDER BY lower(path) ASC, id ASC"@
}

/// The statement of `select_directories_text`.
pub fn select_directories_sql() -> (r: &'static str)
    ensures
        r@ == select_directories_text(),
{
    "SELECT id, path, enabled, created_at, updated_at
         FROM magic_directories
         ORDER BY lower(path) ASC, id ASC"
}

/// Reads the magic directory with id `?1`.
pub open spec fn select_directory_by_id_text() -> Seq<char> {
    "SELECT id, path, enabled, created_at, updated_at
             FROM magic_directories WHERE id = ?1"@
}

/// The statement of `select_directory_by_id_text`.
pub fn select_directory_by_id_sql() -> (r: &'static str)
    ensures
        r@ == select_directory_by_id_text(),
{
    "SELECT id, path, enabled, created_at, updated_at
             FROM magic_directories WHERE id = ?1"
}

/// Changes the path and state of directory `?3` to `?1` and `?2`.
pub open spec fn update_directory_text() -> Seq<char> {
    "UPDATE magic_directories
                 SET path = ?1, enabled = ?2, updated_at = CURRENT_TIMESTAMP
                 WHERE id = ?3"@
}

/// The statement of `update_directory_text`.
pub fn update_directory_sql() -> (r: &'static str)
    ensures
        r@ == update_directory_text(),
{
    "UPDATE magic_directories
                 SET path = ?1, enabled = ?2, updated_at = CURRENT_TIMESTAMP
                 WHERE id = ?3"
}

/// Stores a new magic directory with path `?1` and state `?2`.
pub open spec fn insert_directory_text() -> Seq<char> {
    "INSERT INTO magic_directories (path, enabled) VALUES (?1, ?2)"@
}

/// The statement of `insert_directory_text`.
pub fn insert_directory_sql() -> (r: &'static str)
    ensures
        r@ == insert_directory_text(),
{
    "INSERT INTO magic_directories (path, enabled) VALUES (?1, ?2)"
}

/// Deletes the formats of directory `?1`.
pub open spec fn delete_directory_formats_text() -> Seq<char> {
    "DELETE FROM magic_directory_formats WHERE magic_directory_id = ?1"@
}

/// The statement of `delete_directory_formats_text`.
pub fn delete_directory_formats_sql() -> (r: &'static str)
    ensures
        r@ == delete_directory_formats_text(),
{
    "DELETE FROM magic_directory_formats WHERE magic_directory_id = ?1"
}

/// Deletes the presets of directory `?1`.
pub open spec fn delete_directory_presets_text() -> Seq<char> {
    "DELETE FROM magic_directory_presets WHERE magic_directory_id = ?1"@
}

/// The statement of `delete_directory_presets_text`.
pub fn delete_directory_presets_sql() -> (r: &'static str)
    ensures
        r@ == delete_directory_presets_text(),
{
    "DELETE FROM magic_directory_presets WHERE magic_directory_id = ?1"
}

/// Adds format `?2` to directory `?1`.
pub open spec fn insert_directory_format_text() -> Seq<char> {
    "INSERT INTO magic_directory_formats (magic_directory_id, format) VALUES (?1, ?2)"@
}

/// The statement of `insert_directory_format_text`.
pub fn insert_directory_format_sql() -> (r: &'static str)
    ensures
        r@ == insert_directory_format_text(),
{
    "INSERT INTO magic_directory_formats (magic_directory_id, format) VALUES (?1, ?2)"
}

/// Adds preset `?2` at position `?3` to directory `?1`.
pub open spec fn insert_directory_preset_text() -> Seq<char> {
    "INSERT INTO magic_directory_presets (magic_directory_id, preset_id, position)
             VALUES (?1, ?2, ?3)"@
}

/// The statement of `insert_directory_preset_text`.
pub fn insert_directory_preset_sql() -> (r: &'static str)
    ensures
        r@ == insert_directory_preset_text(),
{
    "INSERT INTO magic_directory_presets (magic_directory_id, preset_id, position)
             VALUES (?1, ?2, ?3)"
}

/// Deletes the magic directory with id `?1`.
pub open spec fn delete_directory_text() -> Seq<char> {
    "DELETE FROM magic_directories WHERE id = ?1"@
}

/// The statement of `delete_directory_text`.
pub fn delete_directory_sql() -> (r: &'static str)
    ensures
        r@ == delete_directory_text(),
{
    "DELETE FROM magic_directories WHERE id = ?1"
}

/// Whether a value is the text `s`.
pub open spec fn is_text(v: SqlValue, s: Seq<char>) -> bool {
    v matches SqlValue::Text(t) && t@ == s
}

/// The values bound to a statement about one row id: `?1` is the id.
pub fn id_params(id: i64) -> (r: Vec<SqlValue>)
    ensures
        r@ == seq![SqlValue::Integer(id)],
{
    let mut r: Vec<SqlValue> = Vec::new();
    r.push(SqlValue::Integer(id));
    r
}

/// The values bound to the lookup of a preset by name: `?1` is the name.
pub fn name_params(name: &str) -> (r: Vec<SqlValue>)
    ensures
        r@.len() == 1,
        is_text(r@[0], name@),
{
    let mut r: Vec<SqlValue> = Vec::new();
    r.push(SqlValue::Text(name.to_owned()));
    r
}

/// The values bound to the insert (`?1` path, `?2` state) or, with an id,
/// the update (`?3` id) of a magic directory.
pub fn directory_params(path: &str, enabled: bool, id: Option<i64>) -> (r: Vec<SqlValue>)
    ensures
        r@.len() == (if id is Some { 3nat } else { 2nat }),
        is_text(r@[0], path@),
        r@[1] == SqlValue::Boolean(enabled),
        id matches Some(i) ==> r@[2] == SqlValue::Integer(i),
{
    let mut r: Vec<SqlValue> = Vec::new();
    r.push(SqlValue::Text(path.to_owned()));
    r.push(SqlValue::Boolean(enabled));
    if let Some(i) = id {
        r.push(SqlValue::Integer(i));
    }
    r
}

/// The values bound to adding a watched format: `?1` the directory, `?2`
/// the format.
pub fn directory_format_params(id: i64, format: &str) -> (r: Vec<SqlValue>)
    ensures
        r@.len() == 2,
        r@[0] == SqlValue::Integer(id),
        is_text(r@[1], format@),
{
    let mut r: Vec<SqlValue> = Vec::new();
    r.push(SqlValue::Integer(id));
    r.push(SqlValue::Text(format.to_owned()));
    r
}

/// The values bound to adding a preset to a directory: `?1` the directory,
/// `?2` the preset, `?3` its position (capped at `i64::MAX`).
pub fn directory_preset_params(id: i64, preset_id: i64, position: usize) -> (r: Vec<SqlValue>)
    ensures
        r@ == seq![
            SqlValue::Integer(id),
            SqlValue::Integer(preset_id),
            SqlValue::Integer(
                if position as int <= i64::MAX {
                    position as i64
                } else {
                    i64::MAX
                },
            ),
        ],
{
    let mut r: Vec<SqlValue> = Vec::new();
    r.push(SqlValue::Integer(id));
    r.push(SqlValue::Integer(preset_id));
    r.push(SqlValue::Integer(crate::presets::saturating_i64_from_usize(position)));
    r
}

} // verus!
