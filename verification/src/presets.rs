//! Presets and conversion statistics: the rules a preset must meet, how it is
//! normalized, stored and read back, and how statistics are counted.

use vstd::prelude::*;
use crate::statements::{
    select_preset_by_id_text, update_preset_text, insert_preset_text, record_cli_usage_text, select_presets_text, select_statistics_text, select_preset_by_name_text, delete_preset_text, is_text, id_params, name_params, create_presets_table_sql, create_statistics_table_sql, create_magic_directories_tables_sql, create_magic_directory_presets_table_sql, add_cli_uses_column_sql, insert_statistics_row_sql, rename_legacy_preset_links_sql, copy_legacy_preset_links_sql, drop_legacy_preset_links_sql, rename_legacy_presets_sql, copy_legacy_presets_sql, drop_legacy_presets_sql, enable_foreign_keys_sql, select_presets_schema_sql, select_presets_sql, select_preset_by_id_sql, select_preset_by_name_sql, update_preset_sql, insert_preset_sql, delete_preset_sql, record_cli_usage_sql, select_statistics_sql, statistics_columns_sql, preset_links_columns_sql,
};
use crate::db::{
    executed, queried, ran, well_typed_query, rows_typed,
    SqlType, SqlValue, begin_transaction, commit, error_text, execute, execute_batch,
    int_at, int_value, last_insert_rowid, no_rows_error, open_file, optional_int_at,
    optional_int_value, query_all, row_has_types, set_busy_timeout, text_at, text_value,
    transaction_connection,
};
use crate::models::{
    ConversionPreset, ConversionStatistics, ExportFormat, SavePresetRequest, SavePresetRequestView,
    stored_name_spec,
};
use crate::pipeline::ConversionTotals;
use crate::paths::{join, join_spec};
use crate::text::{
    ascii_case, ascii_lower, chars_of, contains_spec, contains_text, str_eq, trim, trim_spec,
};
use vstd::utf8::encode_utf8;

verus! {

broadcast use vstd::string::group_string_axioms;

/// Why a preset or statistics operation failed.
#[derive(Debug)]
pub enum PresetError {
    /// The data folder could not be found or created.
    Storage(String),
    /// SQLite reported an error.
    Database(rusqlite::Error),
    /// The request was refused; the text says why.
    Validation(String),
}

/// Whether a message is that of a SQLite error: `Preset database error: `
/// followed by SQLite's text.
pub open spec fn database_message(m: Seq<char>) -> bool {
    exists|t: Seq<char>| m == "Preset database error: "@ + t
}

impl PresetError {
    /// The text that this error shows.
    pub fn message(&self) -> (r: String)
        ensures
            self matches PresetError::Storage(m) ==> r@ == "Preset storage error: "@ + m@,
            self is Database ==> database_message(r@),
            self matches PresetError::Validation(m) ==> r@ == m@,
    {
        match self {
            PresetError::Storage(m) => {
                let mut r = String::from_str("Preset storage error: ");
                r.append(m.as_str());
                r
            },
            PresetError::Database(e) => {
                let mut r = String::from_str("Preset database error: ");
                let text = error_text(e);
                r.append(text.as_str());
                assert(r@ == "Preset database error: "@ + text@);
                r
            },
            PresetError::Validation(m) => m.clone(),
        }
    }
}

/// The number of bytes in the UTF-8 text of a character.
pub open spec fn utf8_width(c: char) -> nat {
    if (c as u32) < 0x80 {
        1
    } else if (c as u32) < 0x800 {
        2
    } else if (c as u32) < 0x10000 {
        3
    } else {
        4
    }
}

proof fn lemma_encode_len_step(s: Seq<char>)
    requires
        s.len() > 0,
    ensures
        encode_utf8(s).len() == utf8_width(s[0]) + encode_utf8(s.drop_first()).len(),
{
    let u = s[0] as u32;
    vstd::utf8::char_is_scalar(s[0]);
    assert(vstd::utf8::is_scalar(u));
    assert(encode_utf8(s) == vstd::utf8::encode_scalar(u) + encode_utf8(s.drop_first()));
    if vstd::utf8::has_width_1_encoding(u) {
        assert(vstd::utf8::encode_scalar(u).len() == 1);
    } else if vstd::utf8::has_width_2_encoding(u) {
        assert(vstd::utf8::encode_scalar(u).len() == 2);
    } else if vstd::utf8::has_width_3_encoding(u) {
        assert(vstd::utf8::encode_scalar(u).len() == 3);
    } else {
        assert(vstd::utf8::encode_scalar(u).len() == 4);
    }
}

/// Whether the UTF-8 text of `s` is longer than `limit` bytes, reading only
/// as far as needed.
fn utf8_longer_than(s: &str, limit: usize) -> (b: bool)
    requires
        limit <= 16,
    ensures
        b == (encode_utf8(s@).len() > limit),
{
    let v = chars_of(s);
    let mut total: usize = 0;
    let mut i: usize = 0;
    proof {
        assert(v@.subrange(0, v@.len() as int) =~= v@);
    }
    while i < v.len()
        invariant
            i <= v.len(),
            v@ == s@,
            limit <= 16,
            total <= limit,
            encode_utf8(s@).len() == total + encode_utf8(v@.subrange(i as int, v@.len() as int)).len(),
        decreases v.len() - i,
    {
        let c = v[i];
        let w: usize = if (c as u32) < 0x80 {
            1
        } else if (c as u32) < 0x800 {
            2
        } else if (c as u32) < 0x10000 {
            3
        } else {
            4
        };
        proof {
            let rest = v@.subrange(i as int, v@.len() as int);
            lemma_encode_len_step(rest);
            assert(rest.drop_first() =~= v@.subrange(i + 1, v@.len() as int));
            assert(rest[0] == c);
        }
        if total + w > limit {
            return true;
        }
        total = total + w;
        i = i + 1;
    }
    proof {
        assert(v@.subrange(v@.len() as int, v@.len() as int) =~= Seq::<char>::empty());
    }
    false
}

/// A preset request as it is checked and stored: name, format, modes and
/// folder trimmed; format and modes in small letters; a width only in
/// `width` mode and a height only in `height` mode.
///
/// The format and modes are lowercased by ASCII rules. Every value that is
/// accepted afterwards is ASCII, and no non-ASCII character lowercases to a
/// letter of an accepted value, so this selects the same requests as full
/// Unicode lowercasing and stores the same text.
pub open spec fn normalize_spec(r: SavePresetRequestView) -> SavePresetRequestView {
    let resize_mode = ascii_lower(trim_spec(r.resize_mode));
    SavePresetRequestView {
        id: r.id,
        name: trim_spec(r.name),
        format: ascii_lower(trim_spec(r.format)),
        resize_mode,
        width: if resize_mode == "width"@ {
            r.width
        } else {
            None
        },
        height: if resize_mode == "height"@ {
            r.height
        } else {
            None
        },
        quality: r.quality,
        filename_component: r.filename_component,
        filename_mode: ascii_lower(trim_spec(r.filename_mode)),
        output_directory: trim_spec(r.output_directory),
    }
}

/// Normalizes a preset request before it is checked (see `normalize_spec`).
pub fn normalize_request(request: &mut SavePresetRequest)
    ensures
        final(request)@ == normalize_spec(old(request)@),
{
    request.name = trim(request.name.as_str());
    let format = trim(request.format.as_str());
    request.format = ascii_case(format.as_str(), false);
    let mode = trim(request.resize_mode.as_str());
    request.resize_mode = ascii_case(mode.as_str(), false);
    let filename_mode = trim(request.filename_mode.as_str());
    request.filename_mode = ascii_case(filename_mode.as_str(), false);
    request.output_directory = trim(request.output_directory.as_str());
    if !str_eq(request.resize_mode.as_str(), "width") {
        request.width = None;
    }
    if !str_eq(request.resize_mode.as_str(), "height") {
        request.height = None;
    }
    assert(request@ =~= normalize_spec(old(request)@));
}

/// Whether a preset width or height is present and within 1..=9999.
pub open spec fn valid_dimension_spec(value: Option<u32>) -> bool {
    match value {
        Some(d) => 1 <= d <= 9999,
        None => false,
    }
}

/// Returns whether a preset width or height is present and within 1..=9999.
pub fn is_valid_dimension(value: Option<u32>) -> (b: bool)
    ensures
        b == valid_dimension_spec(value),
{
    match value {
        Some(d) => 1 <= d && d <= 9999,
        None => false,
    }
}

/// Why a (normalized) preset request is refused, if it is.
pub open spec fn preset_problem(r: SavePresetRequestView) -> Option<Seq<char>> {
    if encode_utf8(r.name).len() <= 3 {
        Some("Preset name must be longer than 3 characters."@)
    } else if !(r.format == "jpeg"@ || r.format == "png"@ || r.format == "webp"@ || r.format
        == "avif"@) {
        Some("Choose a valid export format."@)
    } else if !(r.resize_mode == "none"@ || r.resize_mode == "width"@ || r.resize_mode
        == "height"@) {
        Some("Choose a valid resolution mode."@)
    } else if r.resize_mode == "width"@ && !valid_dimension_spec(r.width) {
        Some("Preset width must be between 1 and 9999."@)
    } else if r.resize_mode == "height"@ && !valid_dimension_spec(r.height) {
        Some("Preset height must be between 1 and 9999."@)
    } else if !(1 <= r.quality <= 100) {
        Some("Preset quality must be between 1 and 100."@)
    } else if !(r.filename_mode == "prefix"@ || r.filename_mode == "postfix"@) {
        Some("Choose prefix or postfix."@)
    } else if r.output_directory.len() == 0 {
        Some("Choose an output folder."@)
    } else {
        None
    }
}

/// Checks a normalized preset request: a name of more than 3 bytes, a known
/// format and resize mode, a width or height in 1..=9999 when the mode needs
/// one, a quality in 1..=100, a filename mode, and an output folder.
pub fn validate_request(request: &SavePresetRequest) -> (r: Result<(), PresetError>)
    ensures
        match (r, preset_problem(request@)) {
            (Ok(()), None) => true,
            (Err(PresetError::Validation(m)), Some(p)) => m@ == p,
            _ => false,
        },
{
    if !utf8_longer_than(request.name.as_str(), 3) {
        return Err(PresetError::Validation(String::from_str("Preset name must be longer than 3 characters.")));
    }
    let format = request.format.as_str();
    if !(str_eq(format, "jpeg") || str_eq(format, "png") || str_eq(format, "webp") || str_eq(
        format,
        "avif",
    )) {
        return Err(PresetError::Validation(String::from_str("Choose a valid export format.")));
    }
    let mode = request.resize_mode.as_str();
    if !(str_eq(mode, "none") || str_eq(mode, "width") || str_eq(mode, "height")) {
        return Err(PresetError::Validation(String::from_str("Choose a valid resolution mode.")));
    }
    if str_eq(mode, "width") && !is_valid_dimension(request.width) {
        return Err(PresetError::Validation(String::from_str("Preset width must be between 1 and 9999.")));
    }
    if str_eq(mode, "height") && !is_valid_dimension(request.height) {
        return Err(PresetError::Validation(String::from_str("Preset height must be between 1 and 9999.")));
    }
    if !(1 <= request.quality && request.quality <= 100) {
        return Err(PresetError::Validation(String::from_str("Preset quality must be between 1 and 100.")));
    }
    let filename_mode = request.filename_mode.as_str();
    if !(str_eq(filename_mode, "prefix") || str_eq(filename_mode, "postfix")) {
        return Err(PresetError::Validation(String::from_str("Choose prefix or postfix.")));
    }
    if request.output_directory.as_str().unicode_len() == 0 {
        return Err(PresetError::Validation(String::from_str("Choose an output folder.")));
    }
    Ok(())
}

/// The statistics column that counts conversions to a format.
pub fn statistics_format_column(format: &ExportFormat) -> (r: &'static str)
    ensures
        r@ == stored_name_spec(*format),
{
    format.stored_name()
}

/// `value` as `i64`, or `i64::MAX` when it does not fit.
pub fn saturating_i64_from_u64(value: u64) -> (r: i64)
    ensures
        r == (if value as int <= i64::MAX {
            value as i64
        } else {
            i64::MAX
        }),
{
    if value <= i64::MAX as u64 {
        value as i64
    } else {
        i64::MAX
    }
}

/// `value` as `i64`, or `i64::MAX` when it does not fit.
pub fn saturating_i64_from_u128(value: u128) -> (r: i64)
    ensures
        r == (if value as int <= i64::MAX {
            value as i64
        } else {
            i64::MAX
        }),
{
    if value <= i64::MAX as u128 {
        value as i64
    } else {
        i64::MAX
    }
}

/// `value` as `i64`, or `i64::MAX` when it does not fit.
pub fn saturating_i64_from_usize(value: usize) -> (r: i64)
    ensures
        r == (if value as int <= i64::MAX {
            value as i64
        } else {
            i64::MAX
        }),
{
    if value as u64 <= i64::MAX as u64 {
        value as i64
    } else {
        i64::MAX
    }
}

/// The folder under the user's data folder that holds the database.
pub const APP_DATA_DIR_NAME: &'static str = "com.oli.bulkpixel";

/// The name of the database file.
pub const DATABASE_FILE: &'static str = "presets.sqlite3";

/// The text of the check that the current presets table has on names; an
/// older table without it is rebuilt.
pub const PRESETS_NAME_CHECK: &'static str = "CHECK (length(trim(name)) > 3)";

/// A SQLite error as a preset error.
pub fn stored<T>(r: Result<T, rusqlite::Error>) -> (out: Result<T, PresetError>)
    ensures
        match r {
            Ok(v) => out matches Ok(w) && w == v,
            Err(_) => out matches Err(PresetError::Database(_)),
        },
{
    match r {
        Ok(v) => Ok(v),
        Err(e) => Err(PresetError::Database(e)),
    }
}

/// The user's data folder (`dirs::data_dir`), as text. It depends on the
/// platform and the environment, so nothing is stated of it.
#[verifier::external_body]
fn user_data_dir() -> Option<String> {
    match dirs::data_dir() {
        Some(path) => Some(path.to_string_lossy().into_owned()),
        None => None,
    }
}

/// The folder of the application's data under the user's data folder, or
/// a storage error when there is no data folder.
pub fn app_data_directory(base: Option<String>) -> (r: Result<String, PresetError>)
    ensures
        match base {
            Some(b) => r matches Ok(d) && d@ == join_spec(b@, APP_DATA_DIR_NAME@),
            None => r matches Err(PresetError::Storage(m)) && m@
                == "Unable to resolve the data directory."@,
        },
{
    match base {
        Some(b) => Ok(join(b.as_str(), APP_DATA_DIR_NAME)),
        None => Err(PresetError::Storage(String::from_str("Unable to resolve the data directory."))),
    }
}

/// The folder of the application's data for the command line: the
/// application's folder under the user's data folder.
pub fn cli_data_directory() -> (r: Result<String, PresetError>)
    ensures
        r matches Ok(d) ==> exists|b: Seq<char>| d@ == join_spec(b, APP_DATA_DIR_NAME@),
        r matches Err(e) ==> e matches PresetError::Storage(m) && m@
            == "Unable to resolve the data directory."@,
{
    let base = user_data_dir();
    let ghost g = base;
    let r = app_data_directory(base);
    proof {
        if let Some(b) = g {
            assert(r matches Ok(d) && d@ == join_spec(b@, APP_DATA_DIR_NAME@));
        }
    }
    r
}

/// The path of the database file in a data folder.
pub fn database_file_in(directory: &str) -> (r: String)
    ensures
        r@ == join_spec(directory@, DATABASE_FILE@),
{
    join(directory, DATABASE_FILE)
}

/// Opens the database file at `path`, waits up to 5 seconds on a locked
/// database, and brings its tables up to date (see `initialize_schema`).
pub fn open_database(path: &str) -> (r: Result<rusqlite::Connection, PresetError>)
    ensures
        r matches Err(e) ==> e is Database,
{
    let mut connection = stored(open_file(path))?;
    stored(set_busy_timeout(&connection, 5))?;
    initialize_schema(&mut connection)?;
    Ok(connection)
}

/// What to do with the presets table, given the SQL it was created with.
#[derive(Debug, Clone, Copy, PartialEq, Eq, Structural)]
pub enum SchemaAction {
    /// The table is current.
    Keep,
    /// The table predates the check on names: copy the valid rows into a new one.
    Rebuild,
    /// There is no table yet.
    Create,
}

/// The current table has the check on names; an older one does not.
pub open spec fn schema_action_spec(existing: Option<Seq<char>>) -> SchemaAction {
    match existing {
        Some(sql) => if contains_spec(sql, PRESETS_NAME_CHECK@) {
            SchemaAction::Keep
        } else {
            SchemaAction::Rebuild
        },
        None => SchemaAction::Create,
    }
}

/// Decides what to do with the presets table from the SQL it was created
/// with, if there is one.
pub fn schema_action(existing: &Option<String>) -> (a: SchemaAction)
    ensures
        a == schema_action_spec(
            match existing {
                Some(s) => Some(s@),
                None => None,
            },
        ),
{
    match existing {
        Some(sql) => if contains_text(sql.as_str(), PRESETS_NAME_CHECK) {
            SchemaAction::Keep
        } else {
            SchemaAction::Rebuild
        },
        None => SchemaAction::Create,
    }
}

/// Whether one of the column names is `name`.
pub fn has_column(columns: &Vec<String>, name: &str) -> (b: bool)
    ensures
        b == exists|i: int| 0 <= i < columns@.len() && #[trigger] columns@[i]@ == name@,
{
    let mut i: usize = 0;
    while i < columns.len()
        invariant
            i <= columns@.len(),
            forall|k: int| 0 <= k < i ==> #[trigger] columns@[k]@ != name@,
        decreases columns@.len() - i,
    {
        if str_eq(columns[i].as_str(), name) {
            return true;
        }
        i = i + 1;
    }
    false
}

/// The names of the columns of a table, from a `PRAGMA table_info` query.
fn table_columns(conn: &rusqlite::Connection, pragma: &str) -> (r: Result<Vec<String>, PresetError>)
    ensures
        r matches Err(e) ==> e is Database,
{
    let types: Vec<SqlType> = vec![SqlType::Integer, SqlType::Text];
    let rows = stored(query_all(conn, pragma, &Vec::new(), &types))?;
    let mut names: Vec<String> = Vec::new();
    let mut i: usize = 0;
    while i < rows.len()
        invariant
            i <= rows@.len(),
            types@.len() == 2,
            forall|k: int| 0 <= k < rows@.len() ==> row_has_types(#[trigger] rows@[k]@, types@),
        decreases rows@.len() - i,
    {
        assert(row_has_types(rows@[i as int]@, types@));
        names.push(text_at(&rows[i], 1));
        i = i + 1;
    }
    Ok(names)
}

/// Makes sure the statistics table and its single row exist, adding the
/// column that counts command line uses to an older table without touching
/// its counts.
pub fn initialize_statistics_schema(conn: &rusqlite::Connection) -> (r: Result<(), PresetError>)
    ensures
        r matches Err(e) ==> e is Database,
{
    stored(execute_batch(conn, create_statistics_table_sql()))?;
    let columns = table_columns(conn, statistics_columns_sql())?;
    if !has_column(&columns, "cli_uses") {
        stored(
            execute(
                conn,
                add_cli_uses_column_sql(),
                &Vec::new(),
            ),
        )?;
    }
    stored(execute(conn, insert_statistics_row_sql(), &Vec::new()))?;
    Ok(())
}

/// Gives an older table of preset links a `position` column, numbering the
/// presets of each magic directory from 0 in the order of their ids.
pub fn migrate_magic_directory_presets_schema(conn: &mut rusqlite::Connection) -> (r: Result<(), PresetError>)
    ensures
        r matches Err(e) ==> e is Database,
{
    let columns = table_columns(conn, preset_links_columns_sql())?;
    if has_column(&columns, "position") {
        return Ok(());
    }
    let transaction = stored(begin_transaction(conn))?;
    let tx = transaction_connection(&transaction);
    stored(
        execute_batch(
            tx,
            rename_legacy_preset_links_sql(),
        ),
    )?;
    stored(execute_batch(tx, create_magic_directory_presets_table_sql()))?;
    stored(
        execute(
            tx,
            copy_legacy_preset_links_sql(),
            &Vec::new(),
        ),
    )?;
    stored(execute_batch(tx, drop_legacy_preset_links_sql()))?;
    stored(commit(transaction))?;
    Ok(())
}

/// Replaces an older presets table by a current one, keeping the rows that
/// meet the current rules (names and folders trimmed, formats lowercased).
pub fn rebuild_presets_table(conn: &mut rusqlite::Connection) -> (r: Result<(), PresetError>)
    ensures
        r matches Err(e) ==> e is Database,
{
    let transaction = stored(begin_transaction(conn))?;
    let tx = transaction_connection(&transaction);
    stored(execute_batch(tx, rename_legacy_presets_sql()))?;
    stored(execute_batch(tx, create_presets_table_sql()))?;
    stored(
        execute(
            tx,
            copy_legacy_presets_sql(),
            &Vec::new(),
        ),
    )?;
    stored(execute_batch(tx, drop_legacy_presets_sql()))?;
    stored(commit(transaction))?;
    Ok(())
}

/// Turns on foreign keys and creates or brings up to date the tables of
/// presets, statistics and magic directories.
pub fn initialize_schema(conn: &mut rusqlite::Connection) -> (r: Result<(), PresetError>)
    ensures
        r matches Err(e) ==> e is Database,
{
    stored(execute_batch(conn, enable_foreign_keys_sql()))?;
    let types: Vec<SqlType> = vec![SqlType::Text];
    let rows = stored(
        query_all(
            conn,
            select_presets_schema_sql(),
            &Vec::new(),
            &types,
        ),
    )?;
    let existing: Option<String> = if rows.len() == 0 {
        None
    } else {
        assert(row_has_types(rows@[0]@, types@));
        Some(text_at(&rows[0], 0))
    };
    match schema_action(&existing) {
        SchemaAction::Keep => {},
        SchemaAction::Rebuild => {
            rebuild_presets_table(conn)?;
        },
        SchemaAction::Create => {
            stored(execute_batch(conn, create_presets_table_sql()))?;
        },
    }
    initialize_statistics_schema(conn)?;
    stored(execute_batch(conn, create_magic_directories_tables_sql()))?;
    stored(execute_batch(conn, create_magic_directory_presets_table_sql()))?;
    migrate_magic_directory_presets_schema(conn)?;
    Ok(())
}

/// The columns of a preset row, in the order the queries select them:
/// id, name, format, resize mode, width, height, quality, filename
/// component, filename mode, output folder, creation and update times.
pub open spec fn preset_columns() -> Seq<SqlType> {
    seq![
        SqlType::Integer,
        SqlType::Text,
        SqlType::Text,
        SqlType::Text,
        SqlType::OptionalInteger,
        SqlType::OptionalInteger,
        SqlType::Integer,
        SqlType::Text,
        SqlType::Text,
        SqlType::Text,
        SqlType::Text,
        SqlType::Text,
    ]
}

fn preset_column_types() -> (r: Vec<SqlType>)
    ensures
        r@ == preset_columns(),
{
    vec![
        SqlType::Integer,
        SqlType::Text,
        SqlType::Text,
        SqlType::Text,
        SqlType::OptionalInteger,
        SqlType::OptionalInteger,
        SqlType::Integer,
        SqlType::Text,
        SqlType::Text,
        SqlType::Text,
        SqlType::Text,
        SqlType::Text,
    ]
}

/// A stored width or height: kept when it fits in a `u32`, dropped otherwise.
pub open spec fn stored_dimension(v: Option<i64>) -> Option<u32> {
    match v {
        Some(x) => if 0 <= x <= u32::MAX {
            Some(x as u32)
        } else {
            None
        },
        None => None,
    }
}

/// A stored quality: kept when it fits in a `u8`, 100 otherwise.
pub open spec fn stored_quality(x: i64) -> u8 {
    if 0 <= x <= u8::MAX {
        x as u8
    } else {
        100
    }
}

/// Whether `p` is the preset that a row holds.
pub open spec fn preset_read_from(p: ConversionPreset, row: Seq<SqlValue>) -> bool {
    &&& p.id == int_value(row[0])
    &&& p.name@ == text_value(row[1])
    &&& p.format@ == text_value(row[2])
    &&& p.resize_mode@ == text_value(row[3])
    &&& p.width == stored_dimension(optional_int_value(row[4]))
    &&& p.height == stored_dimension(optional_int_value(row[5]))
    &&& p.quality == stored_quality(int_value(row[6]))
    &&& p.filename_component@ == text_value(row[7])
    &&& p.filename_mode@ == text_value(row[8])
    &&& p.output_directory@ == text_value(row[9])
    &&& p.created_at@ == text_value(row[10])
    &&& p.updated_at@ == text_value(row[11])
}

fn dimension_from(v: Option<i64>) -> (r: Option<u32>)
    ensures
        r == stored_dimension(v),
{
    match v {
        Some(x) => if 0 <= x && x <= u32::MAX as i64 {
            Some(x as u32)
        } else {
            None
        },
        None => None,
    }
}

fn quality_from(x: i64) -> (r: u8)
    ensures
        r == stored_quality(x),
{
    if 0 <= x && x <= u8::MAX as i64 {
        x as u8
    } else {
        100
    }
}

/// The preset that a row of the presets table holds.
pub fn preset_from_row(row: &Vec<SqlValue>) -> (p: ConversionPreset)
    requires
        row_has_types(row@, preset_columns()),
    ensures
        preset_read_from(p, row@),
{
    ConversionPreset {
        id: int_at(row, 0),
        name: text_at(row, 1),
        format: text_at(row, 2),
        resize_mode: text_at(row, 3),
        width: dimension_from(optional_int_at(row, 4)),
        height: dimension_from(optional_int_at(row, 5)),
        quality: quality_from(int_at(row, 6)),
        filename_component: text_at(row, 7),
        filename_mode: text_at(row, 8),
        output_directory: text_at(row, 9),
        created_at: text_at(row, 10),
        updated_at: text_at(row, 11),
    }
}

/// The presets that the rows hold, in order.
pub fn presets_from_rows(rows: &Vec<Vec<SqlValue>>) -> (ps: Vec<ConversionPreset>)
    requires
        forall|i: int| 0 <= i < rows@.len() ==> row_has_types(#[trigger] rows@[i]@, preset_columns()),
    ensures
        ps@.len() == rows@.len(),
        forall|i: int| 0 <= i < rows@.len() ==> preset_read_from(#[trigger] ps@[i], rows@[i]@),
{
    let mut ps: Vec<ConversionPreset> = Vec::new();
    let mut i: usize = 0;
    while i < rows.len()
        invariant
            i <= rows@.len(),
            ps@.len() == i,
            forall|k: int| 0 <= k < rows@.len() ==> row_has_types(#[trigger] rows@[k]@, preset_columns()),
            forall|k: int| 0 <= k < i ==> preset_read_from(#[trigger] ps@[k], rows@[k]@),
        decreases rows@.len() - i,
    {
        assert(row_has_types(rows@[i as int]@, preset_columns()));
        ps.push(preset_from_row(&rows[i]));
        i = i + 1;
    }
    ps
}

/// Lists the stored presets, sorted by name without regard to case, then by id.
pub fn list_presets_with_connection(conn: &rusqlite::Connection) -> (r: Result<Vec<ConversionPreset>, PresetError>)
    ensures
        r matches Err(e) ==> e is Database,
{
    let query = |sql: String, params: Vec<SqlValue>, types: Vec<SqlType>| -> (r: Result<
        Vec<Vec<SqlValue>>,
        rusqlite::Error,
    >)
        ensures
            rows_typed(r, types@),
        { query_all(conn, sql.as_str(), &params, &types) };
    list_presets_through(query)
}

/// No values bound to a statement.
pub open spec fn no_params() -> spec_fn(Seq<SqlValue>) -> bool {
    |p: Seq<SqlValue>| p.len() == 0
}

/// The single value `?1`, the text `name`.
pub open spec fn name_param(name: Seq<char>) -> spec_fn(Seq<SqlValue>) -> bool {
    |p: Seq<SqlValue>| p.len() == 1 && is_text(p[0], name)
}

/// Whether `ps` are the presets that `rows` hold, in order.
pub open spec fn presets_read_from(ps: Seq<ConversionPreset>, rows: Seq<Vec<SqlValue>>) -> bool {
    &&& ps.len() == rows.len()
    &&& forall|i: int| 0 <= i < rows.len() ==> preset_read_from(#[trigger] ps[i], rows[i]@)
}

/// Lists the stored presets through `query`, which reads rows: it hands on
/// `select_presets_text` without values and returns the presets of the rows
/// answered, in order.
pub fn list_presets_through<Q: Fn(String, Vec<SqlValue>, Vec<SqlType>) -> Result<Vec<Vec<SqlValue>>, rusqlite::Error>>(query: Q) -> (r: Result<Vec<ConversionPreset>, PresetError>)
    requires
        well_typed_query(query),
    ensures
        r matches Ok(ps) ==> exists|rows: Vec<Vec<SqlValue>>|
            queried(query, select_presets_text(), no_params(), preset_columns(), Ok(rows))
                && presets_read_from(ps@, rows@),
        r matches Err(e) ==> e matches PresetError::Database(d) && queried(
            query,
            select_presets_text(),
            no_params(),
            preset_columns(),
            Err(d),
        ),
{
    let types = preset_column_types();
    let sql = select_presets_sql().to_owned();
    let params: Vec<SqlValue> = Vec::new();
    let ghost (s, p, t) = (sql, params, types);
    let out = query(sql, params, types);
    assert(call_ensures(query, (s, p, t), out));
    match out {
        Ok(rows) => {
            assert(queried(query, select_presets_text(), no_params(), preset_columns(), Ok(rows)));
            let ps = presets_from_rows(&rows);
            assert(presets_read_from(ps@, rows@));
            Ok(ps)
        },
        Err(d) => {
            assert(queried(query, select_presets_text(), no_params(), preset_columns(), Err(d)));
            Err(PresetError::Database(d))
        },
    }
}

/// The preset of the first row, or the error that a query for one row
/// without rows gives.
pub fn first_preset(rows: &Vec<Vec<SqlValue>>) -> (r: Result<ConversionPreset, PresetError>)
    requires
        forall|i: int| 0 <= i < rows@.len() ==> row_has_types(#[trigger] rows@[i]@, preset_columns()),
    ensures
        rows@.len() == 0 ==> (r matches Err(e) && e is Database),
        rows@.len() > 0 ==> (r matches Ok(p) && preset_read_from(p, rows@[0]@)),
{
    if rows.len() == 0 {
        Err(PresetError::Database(no_rows_error()))
    } else {
        assert(row_has_types(rows@[0]@, preset_columns()));
        Ok(preset_from_row(&rows[0]))
    }
}

/// Reads the preset with the given id; a missing preset is a database error.
pub fn get_preset(conn: &rusqlite::Connection, id: i64) -> (r: Result<ConversionPreset, PresetError>)
    ensures
        r matches Err(e) ==> e is Database,
{
    let query = |sql: String, params: Vec<SqlValue>, types: Vec<SqlType>| -> (r: Result<
        Vec<Vec<SqlValue>>,
        rusqlite::Error,
    >)
        ensures
            rows_typed(r, types@),
        { query_all(conn, sql.as_str(), &params, &types) };
    get_preset_through(query, id)
}

/// The single value `?1`, the integer `id`.
pub open spec fn id_param(id: i64) -> spec_fn(Seq<SqlValue>) -> bool {
    |p: Seq<SqlValue>| p == seq![SqlValue::Integer(id)]
}

/// Reads the preset with the given id through `query`, which reads rows: it
/// hands on `select_preset_by_id_text` with the id as `?1`; the first row
/// answered is the preset, and no row is the error of a query for one row.
pub fn get_preset_through<Q: Fn(String, Vec<SqlValue>, Vec<SqlType>) -> Result<Vec<Vec<SqlValue>>, rusqlite::Error>>(query: Q, id: i64) -> (r: Result<ConversionPreset, PresetError>)
    requires
        well_typed_query(query),
    ensures
        r matches Ok(p) ==> exists|rows: Vec<Vec<SqlValue>>|
            queried(query, select_preset_by_id_text(), id_param(id), preset_columns(), Ok(rows))
                && rows@.len() > 0 && preset_read_from(p, rows@[0]@),
        r matches Err(e) ==> e is Database,
        r is Err ==> (exists|d: rusqlite::Error|
            queried(query, select_preset_by_id_text(), id_param(id), preset_columns(), Err(d)))
            || (exists|rows: Vec<Vec<SqlValue>>|
            queried(query, select_preset_by_id_text(), id_param(id), preset_columns(), Ok(rows))
                && rows@.len() == 0),
{
    let types = preset_column_types();
    let params = id_params(id);
    let sql = select_preset_by_id_sql().to_owned();
    let ghost (s, p, t) = (sql, params, types);
    let out = query(sql, params, types);
    assert(call_ensures(query, (s, p, t), out));
    assert((id_param(id))(p@));
    match out {
        Ok(rows) => {
            assert(queried(query, select_preset_by_id_text(), id_param(id), preset_columns(), Ok(rows)));
            first_preset(&rows)
        },
        Err(d) => {
            assert(queried(query, select_preset_by_id_text(), id_param(id), preset_columns(), Err(d)));
            Err(PresetError::Database(d))
        },
    }
}

/// The message for a name that no preset has.
pub open spec fn preset_not_found_message(name: Seq<char>) -> Seq<char> {
    "Preset not found: "@ + name
}

/// The preset of the first row, or the message that no preset has the name.
pub fn preset_named(rows: &Vec<Vec<SqlValue>>, name: &str) -> (r: Result<ConversionPreset, PresetError>)
    requires
        forall|i: int| 0 <= i < rows@.len() ==> row_has_types(#[trigger] rows@[i]@, preset_columns()),
    ensures
        rows@.len() == 0 ==> (r matches Err(PresetError::Validation(m)) && m@
            == preset_not_found_message(name@)),
        rows@.len() > 0 ==> (r matches Ok(p) && preset_read_from(p, rows@[0]@)),
{
    if rows.len() == 0 {
        let mut m = String::from_str("Preset not found: ");
        m.append(name);
        Err(PresetError::Validation(m))
    } else {
        assert(row_has_types(rows@[0]@, preset_columns()));
        Ok(preset_from_row(&rows[0]))
    }
}

/// Finds a preset by its name, trimmed and compared without regard to case.
pub fn get_preset_by_name(conn: &rusqlite::Connection, name: &str) -> (r: Result<ConversionPreset, PresetError>)
    ensures
        r matches Err(PresetError::Validation(m)) ==> m@ == preset_not_found_message(trim_spec(name@)),
        r matches Err(e) ==> !(e is Storage),
{
    let query = |sql: String, params: Vec<SqlValue>, types: Vec<SqlType>| -> (r: Result<
        Vec<Vec<SqlValue>>,
        rusqlite::Error,
    >)
        ensures
            rows_typed(r, types@),
        { query_all(conn, sql.as_str(), &params, &types) };
    get_preset_by_name_through(query, name)
}

/// Finds a preset by name through `query`, which reads rows: it hands on
/// `select_preset_by_name_text` with the trimmed name as `?1`; the first row
/// answered is the preset, and no row means no preset has the name.
pub fn get_preset_by_name_through<Q: Fn(String, Vec<SqlValue>, Vec<SqlType>) -> Result<Vec<Vec<SqlValue>>, rusqlite::Error>>(query: Q, name: &str) -> (r: Result<ConversionPreset, PresetError>)
    requires
        well_typed_query(query),
    ensures
        r matches Ok(p) ==> exists|rows: Vec<Vec<SqlValue>>|
            queried(
                query,
                select_preset_by_name_text(),
                name_param(trim_spec(name@)),
                preset_columns(),
                Ok(rows),
            ) && rows@.len() > 0 && preset_read_from(p, rows@[0]@),
        r matches Err(PresetError::Validation(m)) ==> m@ == preset_not_found_message(trim_spec(name@))
            && exists|rows: Vec<Vec<SqlValue>>|
            queried(
                query,
                select_preset_by_name_text(),
                name_param(trim_spec(name@)),
                preset_columns(),
                Ok(rows),
            ) && rows@.len() == 0,
        r matches Err(PresetError::Database(d)) ==> queried(
            query,
            select_preset_by_name_text(),
            name_param(trim_spec(name@)),
            preset_columns(),
            Err(d),
        ),
        r matches Err(e) ==> !(e is Storage),
{
    let normalized = trim(name);
    let types = preset_column_types();
    let params = name_params(normalized.as_str());
    let sql = select_preset_by_name_sql().to_owned();
    let ghost (s, p, t) = (sql, params, types);
    let out = query(sql, params, types);
    assert(call_ensures(query, (s, p, t), out));
    assert((name_param(trim_spec(name@)))(p@));
    match out {
        Ok(rows) => {
            assert(queried(query, select_preset_by_name_text(), name_param(trim_spec(name@)), preset_columns(), Ok(rows)));
            preset_named(&rows, normalized.as_str())
        },
        Err(d) => {
            assert(queried(query, select_preset_by_name_text(), name_param(trim_spec(name@)), preset_columns(), Err(d)));
            Err(PresetError::Database(d))
        },
    }
}

/// Reads the presets with the given ids, in the order of the ids.
pub fn get_presets_by_ids_with_connection(conn: &rusqlite::Connection, ids: &[i64]) -> (r: Result<Vec<ConversionPreset>, PresetError>)
    ensures
        r matches Ok(ps) ==> ps@.len() == ids@.len(),
        r matches Err(e) ==> e is Database,
{
    let query = |sql: String, params: Vec<SqlValue>, types: Vec<SqlType>| -> (r: Result<
        Vec<Vec<SqlValue>>,
        rusqlite::Error,
    >)
        ensures
            rows_typed(r, types@),
        { query_all(conn, sql.as_str(), &params, &types) };
    get_presets_by_ids_through(&query, ids)
}

/// Reads the presets with the given ids through `query`, which reads rows:
/// each id in turn is read back as `get_preset_through` reads it, and the
/// first that cannot be read ends the reading.
pub fn get_presets_by_ids_through<Q: Fn(String, Vec<SqlValue>, Vec<SqlType>) -> Result<Vec<Vec<SqlValue>>, rusqlite::Error>>(query: &Q, ids: &[i64]) -> (r: Result<Vec<ConversionPreset>, PresetError>)
    requires
        well_typed_query(*query),
    ensures
        r matches Ok(ps) ==> ps@.len() == ids@.len() && forall|i: int|
            0 <= i < ids@.len() ==> preset_read_back(query, ids@[i], #[trigger] ps@[i]),
        r matches Err(e) ==> e is Database && exists|i: int|
            0 <= i < ids@.len() && #[trigger] preset_read_failed(query, ids@[i]),
{
    let mut ps: Vec<ConversionPreset> = Vec::new();
    let mut i: usize = 0;
    while i < ids.len()
        invariant
            well_typed_query(*query),
            i <= ids@.len(),
            ps@.len() == i,
            forall|k: int| 0 <= k < i ==> preset_read_back(query, ids@[k], #[trigger] ps@[k]),
        decreases ids@.len() - i,
    {
        let id = ids[i];
        let read = get_preset_through(query, id);
        match read {
            Ok(p) => {
                assert(preset_read_back(query, id, p));
                ps.push(p);
            },
            Err(e) => {
                assert(preset_read_failed(query, ids@[i as int]));
                return Err(e);
            },
        }
        i = i + 1;
    }
    Ok(ps)
}

/// Whether a value is the text `s`.
pub open spec fn text_param(v: SqlValue, s: Seq<char>) -> bool {
    v matches SqlValue::Text(t) && t@ == s
}

/// Whether a value is the optional width or height `d`.
pub open spec fn dimension_param(v: SqlValue, d: Option<u32>) -> bool {
    match d {
        Some(x) => v == SqlValue::Integer(x as i64),
        None => v == SqlValue::Null,
    }
}

/// Whether `params` are the values of a preset request, in the order the
/// insert and update statements bind them (`?1` to `?9`).
pub open spec fn preset_params_spec(params: Seq<SqlValue>, r: SavePresetRequestView) -> bool {
    &&& params.len() == 9
    &&& text_param(params[0], r.name)
    &&& text_param(params[1], r.format)
    &&& text_param(params[2], r.resize_mode)
    &&& dimension_param(params[3], r.width)
    &&& dimension_param(params[4], r.height)
    &&& params[5] == SqlValue::Integer(r.quality as i64)
    &&& text_param(params[6], r.filename_component)
    &&& text_param(params[7], r.filename_mode)
    &&& text_param(params[8], r.output_directory)
}

fn dimension_value(d: Option<u32>) -> (v: SqlValue)
    ensures
        dimension_param(v, d),
{
    match d {
        Some(x) => SqlValue::Integer(x as i64),
        None => SqlValue::Null,
    }
}

/// The values that the insert and update statements bind for a request.
pub fn preset_params(request: &SavePresetRequest) -> (params: Vec<SqlValue>)
    ensures
        preset_params_spec(params@, request@),
{
    let mut params: Vec<SqlValue> = Vec::new();
    params.push(SqlValue::Text(request.name.clone()));
    params.push(SqlValue::Text(request.format.clone()));
    params.push(SqlValue::Text(request.resize_mode.clone()));
    params.push(dimension_value(request.width));
    params.push(dimension_value(request.height));
    params.push(SqlValue::Integer(request.quality as i64));
    params.push(SqlValue::Text(request.filename_component.clone()));
    params.push(SqlValue::Text(request.filename_mode.clone()));
    params.push(SqlValue::Text(request.output_directory.clone()));
    params
}

/// The outcome of an update or delete that changed `changed` rows: none
/// changed means the preset does not exist.
pub fn preset_changed(changed: usize) -> (r: Result<(), PresetError>)
    ensures
        changed == 0 ==> (r matches Err(PresetError::Validation(m)) && m@ == "Preset not found."@),
        changed > 0 ==> r is Ok,
{
    if changed == 0 {
        Err(PresetError::Validation(String::from_str("Preset not found.")))
    } else {
        Ok(())
    }
}

/// Normalizes and checks a preset request, then stores it: an update of the
/// preset with its id, or a new preset. Returns the preset as stored.
pub fn save_preset_with_connection(conn: &rusqlite::Connection, request: SavePresetRequest) -> (r: Result<ConversionPreset, PresetError>)
    ensures
        preset_problem(normalize_spec(request@)) matches Some(p) ==> (r matches Err(
            PresetError::Validation(m),
        ) && m@ == p),
        preset_problem(normalize_spec(request@)) is None ==> (r matches Err(
            PresetError::Validation(m),
        ) ==> request.id is Some && m@ == "Preset not found."@),
        r matches Err(e) ==> !(e is Storage),
{
    let run = |sql: String, params: Vec<SqlValue>| -> (r: Result<usize, rusqlite::Error>)
        { execute(conn, sql.as_str(), &params) };
    let query = |sql: String, params: Vec<SqlValue>, types: Vec<SqlType>| -> (r: Result<
        Vec<Vec<SqlValue>>,
        rusqlite::Error,
    >)
        ensures
            rows_typed(r, types@),
        { query_all(conn, sql.as_str(), &params, &types) };
    let last_id = || -> (r: i64) { last_insert_rowid(conn) };
    save_preset_through(run, query, last_id, request)
}

/// The values that the insert of a preset binds: `?1` to `?9`.
pub open spec fn insert_values(r: SavePresetRequestView) -> spec_fn(Seq<SqlValue>) -> bool {
    |p: Seq<SqlValue>| preset_params_spec(p, r)
}

/// The values that the update of preset `id` binds: `?1` to `?9` as the
/// insert binds them, then the id as `?10`.
pub open spec fn update_values(r: SavePresetRequestView, id: i64) -> spec_fn(Seq<SqlValue>) -> bool {
    |p: Seq<SqlValue>| p.len() == 10 && preset_params_spec(p.subrange(0, 9), r) && p[9] == SqlValue::Integer(id)
}

/// Whether `p` is the preset that `query` read back for id `id`.
pub open spec fn preset_read_back<Q: Fn(String, Vec<SqlValue>, Vec<SqlType>) -> Result<Vec<Vec<SqlValue>>, rusqlite::Error>>(query: Q, id: i64, p: ConversionPreset) -> bool {
    exists|rows: Vec<Vec<SqlValue>>|
        queried(query, select_preset_by_id_text(), id_param(id), preset_columns(), Ok(rows))
            && rows@.len() > 0 && preset_read_from(p, rows@[0]@)
}

/// Whether reading back preset `id` through `query` failed: the query
/// failed, or answered no row.
pub open spec fn preset_read_failed<Q: Fn(String, Vec<SqlValue>, Vec<SqlType>) -> Result<Vec<Vec<SqlValue>>, rusqlite::Error>>(query: Q, id: i64) -> bool {
    ||| exists|d: rusqlite::Error| queried(query, select_preset_by_id_text(), id_param(id), preset_columns(), Err(d))
    ||| exists|rows: Vec<Vec<SqlValue>>|
        queried(query, select_preset_by_id_text(), id_param(id), preset_columns(), Ok(rows))
            && rows@.len() == 0
}

/// Normalizes and checks a preset request, then stores it through `run`,
/// which runs a statement, and reads it back through `query`, which reads
/// rows. With an id, `run` is handed `update_preset_text` with the values of
/// the normalized request and the id; no row changed means the preset does
/// not exist; otherwise the preset with that id is read back. Without one,
/// `run` is handed `insert_preset_text` with the values of the normalized
/// request, and the preset with the id that `last_id` then gives is read
/// back.
pub fn save_preset_through<
    E: Fn(String, Vec<SqlValue>) -> Result<usize, rusqlite::Error>,
    Q: Fn(String, Vec<SqlValue>, Vec<SqlType>) -> Result<Vec<Vec<SqlValue>>, rusqlite::Error>,
    L: Fn() -> i64,
>(run: E, query: Q, last_id: L, request: SavePresetRequest) -> (r: Result<ConversionPreset, PresetError>)
    requires
        forall|s: String, p: Vec<SqlValue>| call_requires(run, (s, p)),
        well_typed_query(query),
        call_requires(last_id, ()),
    ensures
        preset_problem(normalize_spec(request@)) matches Some(p) ==> (r matches Err(
            PresetError::Validation(m),
        ) && m@ == p),
        preset_problem(normalize_spec(request@)) is None ==> match request.id {
            Some(id) => {
                &&& r matches Ok(p) ==> (exists|n: usize|
                    n > 0 && ran(run, update_preset_text(), update_values(normalize_spec(request@), id), Ok(n)))
                    && preset_read_back(query, id, p)
                &&& r matches Err(PresetError::Validation(m)) ==> m@ == "Preset not found."@ && ran(
                    run,
                    update_preset_text(),
                    update_values(normalize_spec(request@), id),
                    Ok(0),
                )
                &&& r matches Err(PresetError::Database(d)) ==> ran(
                    run,
                    update_preset_text(),
                    update_values(normalize_spec(request@), id),
                    Err(d),
                ) || ((exists|n: usize|
                    n > 0 && ran(run, update_preset_text(), update_values(normalize_spec(request@), id), Ok(n)))
                    && preset_read_failed(query, id))
            },
            None => {
                &&& r matches Ok(p) ==> (exists|n: usize|
                    ran(run, insert_preset_text(), insert_values(normalize_spec(request@)), Ok(n)))
                    && exists|id: i64| call_ensures(last_id, (), id) && preset_read_back(query, id, p)
                &&& !(r matches Err(PresetError::Validation(_)))
                &&& r matches Err(PresetError::Database(d)) ==> ran(
                    run,
                    insert_preset_text(),
                    insert_values(normalize_spec(request@)),
                    Err(d),
                ) || ((exists|n: usize|
                    ran(run, insert_preset_text(), insert_values(normalize_spec(request@)), Ok(n)))
                    && exists|id: i64| call_ensures(last_id, (), id) && preset_read_failed(query, id))
            },
        },
        r matches Err(e) ==> !(e is Storage),
{
    let mut request = request;
    normalize_request(&mut request);
    validate_request(&request)?;
    let params = preset_params(&request);
    let ghost values = params@;
    match request.id {
        Some(id) => {
            let mut update = params;
            update.push(SqlValue::Integer(id));
            assert(update@.subrange(0, 9) =~= values);
            let sql = update_preset_sql().to_owned();
            let ghost (s, p) = (sql, update);
            let out = run(sql, update);
            assert(call_ensures(run, (s, p), out));
            assert((update_values(request@, id))(p@));
            match out {
                Err(d) => {
                    assert(ran(run, update_preset_text(), update_values(request@, id), Err(d)));
                    Err(PresetError::Database(d))
                },
                Ok(n) => {
                    assert(ran(run, update_preset_text(), update_values(request@, id), Ok(n)));
                    preset_changed(n)?;
                    let r = get_preset_through(query, id);
                    assert(r matches Ok(p) ==> preset_read_back(query, id, p));
                    assert(r is Err ==> preset_read_failed(query, id));
                    r
                },
            }
        },
        None => {
            let sql = insert_preset_sql().to_owned();
            let ghost (s, p) = (sql, params);
            let out = run(sql, params);
            assert(call_ensures(run, (s, p), out));
            assert((insert_values(request@))(p@));
            match out {
                Err(d) => {
                    assert(ran(run, insert_preset_text(), insert_values(request@), Err(d)));
                    Err(PresetError::Database(d))
                },
                Ok(n) => {
                    assert(ran(run, insert_preset_text(), insert_values(request@), Ok(n)));
                    let id = last_id();
                    let r = get_preset_through(query, id);
                    assert(r matches Ok(p) ==> preset_read_back(query, id, p));
                    assert(r is Err ==> preset_read_failed(query, id));
                    r
                },
            }
        },
    }
}

/// Deletes the preset with the given id.
pub fn delete_preset_with_connection(conn: &rusqlite::Connection, id: i64) -> (r: Result<(), PresetError>)
    ensures
        r matches Err(PresetError::Validation(m)) ==> m@ == "Preset not found."@,
        r matches Err(e) ==> !(e is Storage),
{
    let run = |sql: String, params: Vec<SqlValue>| -> (r: Result<usize, rusqlite::Error>)
        { execute(conn, sql.as_str(), &params) };
    delete_preset_through(run, id)
}

/// Deletes the preset with the given id through `run`, which runs a
/// statement: it hands on `delete_preset_text` with the id as `?1`; no row
/// changed means the preset does not exist.
pub fn delete_preset_through<E: Fn(String, Vec<SqlValue>) -> Result<usize, rusqlite::Error>>(run: E, id: i64) -> (r: Result<(), PresetError>)
    requires
        forall|s: String, p: Vec<SqlValue>| call_requires(run, (s, p)),
    ensures
        r is Ok ==> exists|n: usize| n > 0 && executed(run, delete_preset_text(), seq![SqlValue::Integer(id)], Ok(n)),
        r matches Err(PresetError::Validation(m)) ==> m@ == "Preset not found."@ && executed(
            run,
            delete_preset_text(),
            seq![SqlValue::Integer(id)],
            Ok(0),
        ),
        r matches Err(PresetError::Database(d)) ==> executed(
            run,
            delete_preset_text(),
            seq![SqlValue::Integer(id)],
            Err(d),
        ),
        r matches Err(e) ==> !(e is Storage),
{
    let params = id_params(id);
    let sql = delete_preset_sql().to_owned();
    let ghost (s, p) = (sql, params);
    let out = run(sql, params);
    assert(call_ensures(run, (s, p), out));
    match out {
        Ok(n) => {
            assert(executed(run, delete_preset_text(), seq![SqlValue::Integer(id)], Ok(n)));
            preset_changed(n)
        },
        Err(d) => {
            assert(executed(run, delete_preset_text(), seq![SqlValue::Integer(id)], Err(d)));
            Err(PresetError::Database(d))
        },
    }
}

/// The statement that adds a batch to the statistics: the count of the
/// batch's format in column `column`, the bytes read and written and the time.
pub open spec fn statistics_update_sql_spec(column: Seq<char>) -> Seq<char> {
    "UPDATE statistics\n         SET "@ + column + " = "@ + column
        + " + ?1,\n             input_bytes = input_bytes + ?2,\n             output_bytes = output_bytes + ?3,\n             processing_time_ms = processing_time_ms + ?4,\n             last_conversion_at = CURRENT_TIMESTAMP\n         WHERE id = 1"@
}

/// Builds the statement that adds a batch of `format` to the statistics.
pub fn statistics_update_sql(format: &ExportFormat) -> (r: String)
    ensures
        r@ == statistics_update_sql_spec(stored_name_spec(*format)),
{
    let column = statistics_format_column(format);
    let mut r = String::from_str("UPDATE statistics\n         SET ");
    r.append(column);
    r.append(" = ");
    r.append(column);
    r.append(
        " + ?1,\n             input_bytes = input_bytes + ?2,\n             output_bytes = output_bytes + ?3,\n             processing_time_ms = processing_time_ms + ?4,\n             last_conversion_at = CURRENT_TIMESTAMP\n         WHERE id = 1",
    );
    r
}

/// The values bound to the statistics update: the number of converted
/// images, the bytes read and written, and the time, each capped at `i64::MAX`.
pub open spec fn statistics_params_spec(params: Seq<SqlValue>, totals: ConversionTotals, processing_time_ms: u128) -> bool {
    &&& params.len() == 4
    &&& params[0] == SqlValue::Integer(
        if totals.success_count as int <= i64::MAX {
            totals.success_count as i64
        } else {
            i64::MAX
        },
    )
    &&& params[1] == SqlValue::Integer(
        if totals.total_original_size as int <= i64::MAX {
            totals.total_original_size as i64
        } else {
            i64::MAX
        },
    )
    &&& params[2] == SqlValue::Integer(
        if totals.total_converted_size as int <= i64::MAX {
            totals.total_converted_size as i64
        } else {
            i64::MAX
        },
    )
    &&& params[3] == SqlValue::Integer(
        if processing_time_ms as int <= i64::MAX {
            processing_time_ms as i64
        } else {
            i64::MAX
        },
    )
}

/// The values bound to the statistics update for a batch.
pub fn statistics_params(totals: &ConversionTotals, processing_time_ms: u128) -> (params: Vec<SqlValue>)
    ensures
        statistics_params_spec(params@, *totals, processing_time_ms),
{
    let mut params: Vec<SqlValue> = Vec::new();
    params.push(SqlValue::Integer(saturating_i64_from_usize(totals.success_count)));
    params.push(SqlValue::Integer(saturating_i64_from_u64(totals.total_original_size)));
    params.push(SqlValue::Integer(saturating_i64_from_u64(totals.total_converted_size)));
    params.push(SqlValue::Integer(saturating_i64_from_u128(processing_time_ms)));
    params
}

/// Adds a batch to the statistics. A batch without a converted image
/// changes nothing and touches no table.
pub fn record_conversion_statistics_with_connection(
    conn: &rusqlite::Connection,
    format: &ExportFormat,
    totals: &ConversionTotals,
    processing_time_ms: u128,
) -> (r: Result<(), PresetError>)
    ensures
        totals.success_count == 0 ==> r is Ok,
        r matches Err(e) ==> e is Database,
{
    let run = |sql: String, params: Vec<SqlValue>| -> (r: Result<usize, rusqlite::Error>)
        { execute(conn, sql.as_str(), &params) };
    record_conversion_statistics_through(run, format, totals, processing_time_ms)
}

/// The values bound to the statistics update for a batch (see
/// `statistics_params_spec`).
pub open spec fn statistics_params_seq(totals: ConversionTotals, processing_time_ms: u128) -> Seq<SqlValue> {
    seq![
        SqlValue::Integer(
            if totals.success_count as int <= i64::MAX {
                totals.success_count as i64
            } else {
                i64::MAX
            },
        ),
        SqlValue::Integer(
            if totals.total_original_size as int <= i64::MAX {
                totals.total_original_size as i64
            } else {
                i64::MAX
            },
        ),
        SqlValue::Integer(
            if totals.total_converted_size as int <= i64::MAX {
                totals.total_converted_size as i64
            } else {
                i64::MAX
            },
        ),
        SqlValue::Integer(
            if processing_time_ms as int <= i64::MAX {
                processing_time_ms as i64
            } else {
                i64::MAX
            },
        ),
    ]
}

/// Adds a batch to the statistics through `run`, which runs a statement. A
/// batch without a converted image succeeds and runs nothing; otherwise it
/// hands on the update for the batch's format (`statistics_update_sql_spec`)
/// with its counts, and succeeds exactly when the statement ran.
pub fn record_conversion_statistics_through<E: Fn(String, Vec<SqlValue>) -> Result<usize, rusqlite::Error>>(
    run: E,
    format: &ExportFormat,
    totals: &ConversionTotals,
    processing_time_ms: u128,
) -> (r: Result<(), PresetError>)
    requires
        forall|s: String, p: Vec<SqlValue>| call_requires(run, (s, p)),
    ensures
        totals.success_count == 0 ==> r is Ok,
        totals.success_count > 0 ==> (r is Ok ==> exists|n: usize|
            executed(
                run,
                statistics_update_sql_spec(stored_name_spec(*format)),
                statistics_params_seq(*totals, processing_time_ms),
                Ok(n),
            )),
        r matches Err(e) ==> e matches PresetError::Database(d) && executed(
            run,
            statistics_update_sql_spec(stored_name_spec(*format)),
            statistics_params_seq(*totals, processing_time_ms),
            Err(d),
        ),
{
    if totals.success_count == 0 {
        return Ok(());
    }
    let statement = statistics_update_sql(format);
    let params = statistics_params(totals, processing_time_ms);
    assert(params@ =~= statistics_params_seq(*totals, processing_time_ms));
    let ghost (s, p) = (statement, params);
    let out = run(statement, params);
    assert(call_ensures(run, (s, p), out));
    match out {
        Ok(n) => {
            assert(executed(
                run,
                statistics_update_sql_spec(stored_name_spec(*format)),
                statistics_params_seq(*totals, processing_time_ms),
                Ok(n),
            ));
            Ok(())
        },
        Err(d) => {
            assert(executed(
                run,
                statistics_update_sql_spec(stored_name_spec(*format)),
                statistics_params_seq(*totals, processing_time_ms),
                Err(d),
            ));
            Err(PresetError::Database(d))
        },
    }
}

/// Counts one use of the command line.
pub fn record_cli_usage_with_connection(conn: &rusqlite::Connection) -> (r: Result<(), PresetError>)
    ensures
        r matches Err(e) ==> e is Database,
{
    let run = |sql: String, params: Vec<SqlValue>| -> (r: Result<usize, rusqlite::Error>)
        { execute(conn, sql.as_str(), &params) };
    record_cli_usage_through(run)
}

/// Counts one use of the command line through `run`, which runs a statement:
/// it hands on `record_cli_usage_text` without values, and succeeds exactly
/// when the statement ran.
pub fn record_cli_usage_through<E: Fn(String, Vec<SqlValue>) -> Result<usize, rusqlite::Error>>(run: E) -> (r: Result<(), PresetError>)
    requires
        forall|s: String, p: Vec<SqlValue>| call_requires(run, (s, p)),
    ensures
        r is Ok ==> exists|n: usize| executed(run, record_cli_usage_text(), Seq::empty(), Ok(n)),
        r matches Err(e) ==> e matches PresetError::Database(d) && executed(
            run,
            record_cli_usage_text(),
            Seq::empty(),
            Err(d),
        ),
{
    let sql = record_cli_usage_sql().to_owned();
    let params: Vec<SqlValue> = Vec::new();
    let ghost s = sql;
    let ghost p = params;
    let out = run(sql, params);
    assert(call_ensures(run, (s, p), out));
    match out {
        Ok(n) => {
            assert(executed(run, record_cli_usage_text(), Seq::empty(), Ok(n)));
            Ok(())
        },
        Err(e) => {
            assert(executed(run, record_cli_usage_text(), Seq::empty(), Err(e)));
            Err(PresetError::Database(e))
        },
    }
}

/// The columns of the statistics row: ten counts, then the creation time
/// and the time of the last conversion.
pub open spec fn statistics_columns() -> Seq<SqlType> {
    seq![
        SqlType::Integer,
        SqlType::Integer,
        SqlType::Integer,
        SqlType::Integer,
        SqlType::Integer,
        SqlType::Integer,
        SqlType::Integer,
        SqlType::Integer,
        SqlType::Integer,
        SqlType::Integer,
        SqlType::Text,
        SqlType::Text,
    ]
}

/// Whether `s` is the statistics that a row holds.
pub open spec fn statistics_read_from(s: ConversionStatistics, row: Seq<SqlValue>) -> bool {
    &&& s.amount == int_value(row[0])
    &&& s.cli_uses == int_value(row[1])
    &&& s.webp == int_value(row[2])
    &&& s.avif == int_value(row[3])
    &&& s.jpeg == int_value(row[4])
    &&& s.png == int_value(row[5])
    &&& s.input_bytes == int_value(row[6])
    &&& s.output_bytes == int_value(row[7])
    &&& s.processing_time_ms == int_value(row[8])
    &&& s.saved_bytes == int_value(row[9])
    &&& s.created_at@ == text_value(row[10])
    &&& s.last_conversion_at@ == text_value(row[11])
}

/// The statistics of the first row, or the error that a query for one row
/// without rows gives.
pub fn statistics_from_rows(rows: &Vec<Vec<SqlValue>>) -> (r: Result<ConversionStatistics, PresetError>)
    requires
        forall|i: int| 0 <= i < rows@.len() ==> row_has_types(#[trigger] rows@[i]@, statistics_columns()),
    ensures
        rows@.len() == 0 ==> (r matches Err(e) && e is Database),
        rows@.len() > 0 ==> (r matches Ok(s) && statistics_read_from(s, rows@[0]@)),
{
    if rows.len() == 0 {
        return Err(PresetError::Database(no_rows_error()));
    }
    let row = &rows[0];
    assert(row_has_types(row@, statistics_columns()));
    Ok(
        ConversionStatistics {
            amount: int_at(row, 0),
            cli_uses: int_at(row, 1),
            webp: int_at(row, 2),
            avif: int_at(row, 3),
            jpeg: int_at(row, 4),
            png: int_at(row, 5),
            input_bytes: int_at(row, 6),
            output_bytes: int_at(row, 7),
            processing_time_ms: int_at(row, 8),
            saved_bytes: int_at(row, 9),
            created_at: text_at(row, 10),
            last_conversion_at: text_at(row, 11),
        },
    )
}

/// Reads the statistics row.
pub fn load_statistics_with_connection(conn: &rusqlite::Connection) -> (r: Result<ConversionStatistics, PresetError>)
    ensures
        r matches Err(e) ==> e is Database,
{
    let query = |sql: String, params: Vec<SqlValue>, types: Vec<SqlType>| -> (r: Result<
        Vec<Vec<SqlValue>>,
        rusqlite::Error,
    >)
        ensures
            rows_typed(r, types@),
        { query_all(conn, sql.as_str(), &params, &types) };
    load_statistics_through(query)
}

fn statistics_column_types() -> (r: Vec<SqlType>)
    ensures
        r@ == statistics_columns(),
{
    let types: Vec<SqlType> = vec![
        SqlType::Integer,
        SqlType::Integer,
        SqlType::Integer,
        SqlType::Integer,
        SqlType::Integer,
        SqlType::Integer,
        SqlType::Integer,
        SqlType::Integer,
        SqlType::Integer,
        SqlType::Integer,
        SqlType::Text,
        SqlType::Text,
    ];
    assert(types@ == statistics_columns());
    types
}

/// Reads the statistics row through `query`, which reads rows: it hands on
/// `select_statistics_text` without values; the first row answered is the
/// statistics, and no row is the error of a query for one row.
pub fn load_statistics_through<Q: Fn(String, Vec<SqlValue>, Vec<SqlType>) -> Result<Vec<Vec<SqlValue>>, rusqlite::Error>>(query: Q) -> (r: Result<ConversionStatistics, PresetError>)
    requires
        well_typed_query(query),
    ensures
        r matches Ok(st) ==> exists|rows: Vec<Vec<SqlValue>>|
            queried(query, select_statistics_text(), no_params(), statistics_columns(), Ok(rows))
                && rows@.len() > 0 && statistics_read_from(st, rows@[0]@),
        r matches Err(e) ==> e is Database,
        r is Err ==> (exists|d: rusqlite::Error|
            queried(query, select_statistics_text(), no_params(), statistics_columns(), Err(d)))
            || (exists|rows: Vec<Vec<SqlValue>>|
            queried(query, select_statistics_text(), no_params(), statistics_columns(), Ok(rows))
                && rows@.len() == 0),
{
    let types = statistics_column_types();
    let sql = select_statistics_sql().to_owned();
    let params: Vec<SqlValue> = Vec::new();
    let ghost (s, p, t) = (sql, params, types);
    let out = query(sql, params, types);
    assert(call_ensures(query, (s, p, t), out));
    match out {
        Ok(rows) => {
            assert(queried(query, select_statistics_text(), no_params(), statistics_columns(), Ok(rows)));
            statistics_from_rows(&rows)
        },
        Err(d) => {
            assert(queried(query, select_statistics_text(), no_params(), statistics_columns(), Err(d)));
            Err(PresetError::Database(d))
        },
    }
}

/// Lists the stored presets of the database at `database_path`.
pub fn list_presets_for_cli(database_path: &str) -> (r: Result<Vec<ConversionPreset>, PresetError>)
    ensures
        r matches Err(e) ==> e is Database,
{
    let conn = open_database(database_path)?;
    list_presets_with_connection(&conn)
}

/// Stores a preset in the database at `database_path` (see
/// `save_preset_with_connection`).
pub fn save_preset_for_cli(database_path: &str, request: SavePresetRequest) -> (r: Result<ConversionPreset, PresetError>)
    ensures
        r matches Err(PresetError::Validation(m)) ==> preset_problem(normalize_spec(request@))
            == Some(m@) || (preset_problem(normalize_spec(request@)) is None && request.id is Some
            && m@ == "Preset not found."@),
        preset_problem(normalize_spec(request@)) matches Some(p) ==> (r matches Err(e) && (e is Database
            || (e matches PresetError::Validation(m) && m@ == p))),
        r matches Err(e) ==> !(e is Storage),
{
    let conn = open_database(database_path)?;
    save_preset_with_connection(&conn, request)
}

/// Deletes the preset with the given name (trimmed, without regard to case)
/// from the database at `database_path`.
pub fn delete_preset_by_name_for_cli(database_path: &str, name: &str) -> (r: Result<(), PresetError>)
    ensures
        r matches Err(PresetError::Validation(m)) ==> m@ == preset_not_found_message(trim_spec(name@))
            || m@ == "Preset not found."@,
        r matches Err(e) ==> !(e is Storage),
{
    let conn = open_database(database_path)?;
    let preset = get_preset_by_name(&conn, name)?;
    delete_preset_with_connection(&conn, preset.id)
}

/// Finds a preset by name (trimmed, without regard to case) in the database
/// at `database_path`.
pub fn find_preset_by_name_for_cli(database_path: &str, name: &str) -> (r: Result<ConversionPreset, PresetError>)
    ensures
        r matches Err(PresetError::Validation(m)) ==> m@ == preset_not_found_message(trim_spec(name@)),
        r matches Err(e) ==> !(e is Storage),
{
    let conn = open_database(database_path)?;
    get_preset_by_name(&conn, name)
}

/// Adds a batch to the statistics in the database at `database_path`.
pub fn record_conversion_statistics_for_cli(
    database_path: &str,
    format: &ExportFormat,
    totals: &ConversionTotals,
    processing_time_ms: u128,
) -> (r: Result<(), PresetError>)
    ensures
        r matches Err(e) ==> e is Database,
{
    let conn = open_database(database_path)?;
    record_conversion_statistics_with_connection(&conn, format, totals, processing_time_ms)
}

/// Counts one use of the command line in the database at `database_path`.
pub fn record_cli_usage_for_cli(database_path: &str) -> (r: Result<(), PresetError>)
    ensures
        r matches Err(e) ==> e is Database,
{
    let conn = open_database(database_path)?;
    record_cli_usage_with_connection(&conn)
}

/// Reads the statistics of the database at `database_path`.
pub fn load_statistics_for_cli(database_path: &str) -> (r: Result<ConversionStatistics, PresetError>)
    ensures
        r matches Err(e) ==> e is Database,
{
    let conn = open_database(database_path)?;
    load_statistics_with_connection(&conn)
}

} // verus!
