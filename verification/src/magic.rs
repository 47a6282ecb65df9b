//! Magic directories: watched folders whose new images are converted with a
//! list of presets. The rules a folder must meet, how it is stored and read
//! back, which folder an image belongs to, and what the user is told.

use vstd::prelude::*;
use crate::statements::{
    select_directory_formats_text, select_directory_presets_text, update_directory_text, insert_directory_text, delete_directory_formats_text, delete_directory_presets_text, insert_directory_format_text, insert_directory_preset_text, is_text, select_directories_text, select_directory_by_id_text, delete_directory_text, id_params, directory_params, directory_format_params, directory_preset_params, select_directory_formats_sql, select_directory_presets_sql, select_directories_sql, select_directory_by_id_sql, update_directory_sql, insert_directory_sql, delete_directory_formats_sql, delete_directory_presets_sql, insert_directory_format_sql, insert_directory_preset_sql, delete_directory_sql,
};
use crate::cli::views;
use crate::db::{
    executed, queried, ran, rows_typed, well_typed_query,
    SqlType, SqlValue, begin_transaction, bool_at, bool_value, commit, execute, int_at, int_value,
    last_insert_rowid, query_all, row_has_types, text_at, text_value, transaction_connection,
};
use crate::models::{
    CollisionMode, ConversionImageInput, ConversionPreset, ConversionRequest, ExportFormat,
    MagicDirectory, ResizeOptions, SaveMagicDirectoryRequest, format_from_value_spec,
    marker_problem, marker_problem_message, validate_multiple_preset_markers,
};
use crate::paths::extension;
use crate::presets::{
    PresetError, get_presets_by_ids_with_connection, id_param, no_params, open_database, stored,
};
use crate::text::{
    ascii_case, ascii_lower, decimal, push_decimal, str_eq, trim, trim_spec,
};

verus! {

broadcast use vstd::string::group_string_axioms;

/// Whether a (lowercased) extension is one that magic directories watch.
pub open spec fn is_watch_format(s: Seq<char>) -> bool {
    s == "svg"@ || s == "png"@ || s == "webp"@ || s == "avif"@
}

fn is_watch_format_text(s: &str) -> (b: bool)
    ensures
        b == is_watch_format(s@),
{
    str_eq(s, "svg") || str_eq(s, "png") || str_eq(s, "webp") || str_eq(s, "avif")
}

/// The watched extension of a path, in small letters, if it has one.
pub open spec fn watched_extension_spec(path: Seq<char>) -> Option<Seq<char>> {
    match crate::paths::extension_spec(path) {
        Some(e) => if is_watch_format(ascii_lower(e)) {
            Some(ascii_lower(e))
        } else {
            None
        },
        None => None,
    }
}

/// The extension of a path in small letters, when magic directories watch it.
pub fn watched_extension(path: &str) -> (r: Option<String>)
    ensures
        opt_text(r) == watched_extension_spec(path@),
{
    match extension(path) {
        Some(e) => {
            let lower = ascii_case(e.as_str(), false);
            if is_watch_format_text(lower.as_str()) {
                Some(lower)
            } else {
                None
            }
        },
        None => None,
    }
}

/// The view of an optional string.
pub open spec fn opt_text(o: Option<String>) -> Option<Seq<char>> {
    match o {
        Some(s) => Some(s@),
        None => None,
    }
}

/// The items of `s` without repeats, each where it first occurs.
pub open spec fn dedup_first<A>(s: Seq<A>) -> Seq<A>
    decreases s.len(),
{
    if s.len() == 0 {
        s
    } else {
        let d = dedup_first(s.drop_last());
        if d.contains(s.last()) {
            d
        } else {
            d.push(s.last())
        }
    }
}

pub proof fn lemma_dedup_contains<A>(s: Seq<A>, x: A)
    ensures
        dedup_first(s).contains(x) <==> s.contains(x),
    decreases s.len(),
{
    if s.len() > 0 {
        lemma_dedup_contains(s.drop_last(), x);
        if s.drop_last().contains(x) {
            let k = choose|k: int| 0 <= k < s.drop_last().len() && s.drop_last()[k] == x;
            assert(s[k] == x);
        }
        if s.contains(x) {
            let k = choose|k: int| 0 <= k < s.len() && s[k] == x;
            if k < s.len() - 1 {
                assert(s.drop_last()[k] == x);
            }
        }
        let d = dedup_first(s.drop_last());
        if !d.contains(s.last()) {
            if d.push(s.last()).contains(x) {
                let k = choose|k: int| 0 <= k < d.push(s.last()).len() && d.push(s.last())[k] == x;
                if k < d.len() {
                    assert(d[k] == x);
                }
            }
            if d.contains(x) {
                let k = choose|k: int| 0 <= k < d.len() && d[k] == x;
                assert(d.push(s.last())[k] == x);
            }
            assert(d.push(s.last())[d.len() as int] == s.last());
        }
    }
}

/// A watched format as it is stored: trimmed and in small letters.
pub open spec fn normalized_format(s: Seq<char>) -> Seq<char> {
    ascii_lower(trim_spec(s))
}

/// The formats of a request as they are stored: normalized, without repeats.
pub open spec fn normalized_formats(formats: Seq<Seq<char>>) -> Seq<Seq<char>> {
    dedup_first(formats.map_values(|f: Seq<char>| normalized_format(f)))
}

fn contains_text_value(items: &Vec<String>, s: &String) -> (b: bool)
    ensures
        b == views(items@).contains(s@),
{
    let mut i: usize = 0;
    while i < items.len()
        invariant
            i <= items@.len(),
            forall|k: int| 0 <= k < i ==> #[trigger] items@[k]@ != s@,
        decreases items@.len() - i,
    {
        if str_eq(items[i].as_str(), s.as_str()) {
            assert(views(items@)[i as int] == s@);
            return true;
        }
        i = i + 1;
    }
    proof {
        if views(items@).contains(s@) {
            let k = choose|k: int| 0 <= k < views(items@).len() && views(items@)[k] == s@;
            assert(items@[k]@ == s@);
        }
    }
    false
}

/// Trims and lowercases the formats of a request and drops repeats, keeping
/// the first of each.
pub fn normalize_watch_formats(formats: &Vec<String>) -> (r: Vec<String>)
    ensures
        views(r@) == normalized_formats(views(formats@)),
{
    let ghost f = views(formats@).map_values(|x: Seq<char>| normalized_format(x));
    let mut r: Vec<String> = Vec::new();
    let mut i: usize = 0;
    while i < formats.len()
        invariant
            i <= formats@.len(),
            f == views(formats@).map_values(|x: Seq<char>| normalized_format(x)),
            views(r@) == dedup_first(f.subrange(0, i as int)),
        decreases formats@.len() - i,
    {
        let t = trim(formats[i].as_str());
        let lower = ascii_case(t.as_str(), false);
        proof {
            let p = f.subrange(0, i + 1);
            assert(p.drop_last() =~= f.subrange(0, i as int));
            assert(p.last() == lower@);
        }
        if !contains_text_value(&r, &lower) {
            r.push(lower);
            assert(views(r@) =~= dedup_first(f.subrange(0, i as int)).push(f[i as int]));
        }
        i = i + 1;
    }
    assert(f.subrange(0, formats@.len() as int) =~= f);
    r
}

fn contains_id(ids: &Vec<i64>, id: i64) -> (b: bool)
    ensures
        b == ids@.contains(id),
{
    let mut i: usize = 0;
    while i < ids.len()
        invariant
            i <= ids@.len(),
            forall|k: int| 0 <= k < i ==> ids@[k] != id,
        decreases ids@.len() - i,
    {
        if ids[i] == id {
            assert(ids@[i as int] == id);
            return true;
        }
        i = i + 1;
    }
    false
}

/// The preset ids without repeats, keeping the first of each.
pub fn dedup_preset_ids(ids: &Vec<i64>) -> (r: Vec<i64>)
    ensures
        r@ == dedup_first(ids@),
{
    let mut r: Vec<i64> = Vec::new();
    let mut i: usize = 0;
    while i < ids.len()
        invariant
            i <= ids@.len(),
            r@ == dedup_first(ids@.subrange(0, i as int)),
        decreases ids@.len() - i,
    {
        proof {
            let p = ids@.subrange(0, i + 1);
            assert(p.drop_last() =~= ids@.subrange(0, i as int));
            assert(p.last() == ids@[i as int]);
        }
        if !contains_id(&r, ids[i]) {
            r.push(ids[i]);
        }
        i = i + 1;
    }
    assert(ids@.subrange(0, ids@.len() as int) =~= ids@);
    r
}

/// Why the formats and presets of a request are refused, if they are: no
/// format, a format that is not watched, or no preset.
pub open spec fn magic_request_problem(formats: Seq<Seq<char>>, preset_ids: Seq<i64>) -> Option<
    Seq<char>,
> {
    if formats.len() == 0 {
        Some("Choose at least one file format to watch."@)
    } else if exists|i: int| 0 <= i < formats.len() && !is_watch_format(#[trigger] formats[i]) {
        Some("Choose only SVG, PNG, WEBP, or AVIF as watched formats."@)
    } else if preset_ids.len() == 0 {
        Some("Choose at least one preset to run."@)
    } else {
        None
    }
}

/// Why the folder of a request is refused, given where it was looked up on
/// disk: the lookup failed, or it is not a folder.
pub open spec fn directory_problem(resolved: Result<(String, bool), String>) -> Option<Seq<char>> {
    match resolved {
        Err(e) => Some("Unable to access the magic directory: "@ + e@),
        Ok((_, is_dir)) => if is_dir {
            None
        } else {
            Some("Choose an existing directory to watch."@)
        },
    }
}

/// The stored folder of a request, from where it was looked up on disk: the
/// error text of a failed lookup, or the resolved path and whether it is a
/// folder.
pub fn accept_directory(resolved: Result<(String, bool), String>) -> (r: Result<String, PresetError>)
    ensures
        match resolved {
            Err(e) => r matches Err(PresetError::Validation(m)) && m@
                == "Unable to access the magic directory: "@ + e@,
            Ok((p, is_dir)) => if is_dir {
                r matches Ok(q) && q@ == p@
            } else {
                r matches Err(PresetError::Validation(m)) && m@
                    == "Choose an existing directory to watch."@
            },
        },
{
    match resolved {
        Err(e) => {
            let mut m = String::from_str("Unable to access the magic directory: ");
            m.append(e.as_str());
            Err(PresetError::Validation(m))
        },
        Ok((p, is_dir)) => if is_dir {
            Ok(p)
        } else {
            Err(PresetError::Validation(String::from_str("Choose an existing directory to watch.")))
        },
    }
}

fn all_watch_formats(formats: &Vec<String>) -> (b: bool)
    ensures
        b == forall|i: int| 0 <= i < formats@.len() ==> is_watch_format(#[trigger] views(formats@)[i]),
{
    let mut i: usize = 0;
    while i < formats.len()
        invariant
            i <= formats@.len(),
            forall|k: int| 0 <= k < i ==> is_watch_format(#[trigger] views(formats@)[k]),
        decreases formats@.len() - i,
    {
        if !is_watch_format_text(formats[i].as_str()) {
            assert(!is_watch_format(views(formats@)[i as int]));
            return false;
        }
        i = i + 1;
    }
    true
}

/// Normalizes and checks the formats and presets of a request whose folder
/// was already accepted (see `accept_directory`): the formats are trimmed,
/// lowercased and deduplicated, the preset ids deduplicated; then the
/// presets are read, and presets run together must write distinct outputs.
pub fn validate_magic_request(conn: &rusqlite::Connection, request: &mut SaveMagicDirectoryRequest) -> (r: Result<(), PresetError>)
    ensures
        views(final(request).formats@) == normalized_formats(views(old(request).formats@)),
        final(request).preset_ids@ == dedup_first(old(request).preset_ids@),
        final(request).id == old(request).id,
        final(request).path@ == old(request).path@,
        final(request).enabled == old(request).enabled,
        magic_request_problem(views(final(request).formats@), final(request).preset_ids@) matches Some(
            p,
        ) ==> (r matches Err(PresetError::Validation(m)) && m@ == p),
        r is Ok ==> magic_request_problem(views(final(request).formats@), final(request).preset_ids@)
            is None,
        magic_request_problem(views(final(request).formats@), final(request).preset_ids@) is None
            ==> (r matches Err(PresetError::Validation(m)) ==> exists|p: ConversionPreset|
            m@ == marker_problem_message(p)),
        r matches Err(e) ==> !(e is Storage),
{
    let formats = normalize_watch_formats(&request.formats);
    let ids = dedup_preset_ids(&request.preset_ids);
    request.formats = formats;
    request.preset_ids = ids;
    if request.formats.len() == 0 {
        return Err(PresetError::Validation(String::from_str("Choose at least one file format to watch.")));
    }
    if !all_watch_formats(&request.formats) {
        return Err(
            PresetError::Validation(
                String::from_str("Choose only SVG, PNG, WEBP, or AVIF as watched formats."),
            ),
        );
    }
    if request.preset_ids.len() == 0 {
        return Err(PresetError::Validation(String::from_str("Choose at least one preset to run.")));
    }
    let presets = get_presets_by_ids_with_connection(conn, request.preset_ids.as_slice())?;
    if presets.len() > 1 {
        match validate_multiple_preset_markers(presets.as_slice()) {
            Ok(()) => {},
            Err(m) => {
                return Err(PresetError::Validation(m));
            },
        }
    }
    Ok(())
}

/// The columns of a magic directory row: id, path, enabled, creation and
/// update times.
pub open spec fn directory_columns() -> Seq<SqlType> {
    seq![SqlType::Integer, SqlType::Text, SqlType::Boolean, SqlType::Text, SqlType::Text]
}

fn directory_column_types() -> (r: Vec<SqlType>)
    ensures
        r@ == directory_columns(),
{
    vec![SqlType::Integer, SqlType::Text, SqlType::Boolean, SqlType::Text, SqlType::Text]
}

/// Whether `d` is the magic directory that a row holds, with its formats
/// and presets.
pub open spec fn directory_read_from(d: MagicDirectory, row: Seq<SqlValue>, formats: Seq<Seq<char>>, preset_ids: Seq<i64>) -> bool {
    &&& d.id == int_value(row[0])
    &&& d.path@ == text_value(row[1])
    &&& d.enabled == bool_value(row[2])
    &&& d.created_at@ == text_value(row[3])
    &&& d.updated_at@ == text_value(row[4])
    &&& views(d.formats@) == formats
    &&& d.preset_ids@ == preset_ids
}

/// The magic directory that a row holds, with its formats and presets.
pub fn directory_from_row(row: &Vec<SqlValue>, formats: Vec<String>, preset_ids: Vec<i64>) -> (d: MagicDirectory)
    requires
        row_has_types(row@, directory_columns()),
    ensures
        directory_read_from(d, row@, views(formats@), preset_ids@),
{
    MagicDirectory {
        id: int_at(row, 0),
        path: text_at(row, 1),
        formats,
        preset_ids,
        enabled: bool_at(row, 2),
        created_at: text_at(row, 3),
        updated_at: text_at(row, 4),
    }
}

/// The texts in the first column of rows.
pub open spec fn texts_of(rows: Seq<Vec<SqlValue>>) -> Seq<Seq<char>> {
    rows.map_values(|row: Vec<SqlValue>| text_value(row@[0]))
}

/// The integers in the first column of rows.
pub open spec fn ints_of(rows: Seq<Vec<SqlValue>>) -> Seq<i64> {
    rows.map_values(|row: Vec<SqlValue>| int_value(row@[0]))
}

/// The watched formats of a magic directory, svg, png, webp, avif first.
pub fn load_formats(conn: &rusqlite::Connection, id: i64) -> (r: Result<Vec<String>, PresetError>)
    ensures
        r matches Err(e) ==> e is Database,
{
    let query = |sql: String, params: Vec<SqlValue>, types: Vec<SqlType>| -> (r: Result<
        Vec<Vec<SqlValue>>,
        rusqlite::Error,
    >)
        ensures
            rows_typed(r, types@),
        { query_all(conn, sql.as_str(), &params, &types) };
    load_formats_through(query, id)
}

/// The watched formats of directory `id`, through `query`, which reads rows:
/// it hands on `select_directory_formats_text` with the id as `?1` and
/// returns the texts of the rows answered, in order.
pub fn load_formats_through<Q: Fn(String, Vec<SqlValue>, Vec<SqlType>) -> Result<Vec<Vec<SqlValue>>, rusqlite::Error>>(query: Q, id: i64) -> (r: Result<Vec<String>, PresetError>)
    requires
        well_typed_query(query),
    ensures
        r matches Ok(fs) ==> exists|rows: Vec<Vec<SqlValue>>|
            queried(query, select_directory_formats_text(), id_param(id), seq![SqlType::Text], Ok(rows))
                && views(fs@) == texts_of(rows@),
        r matches Err(e) ==> e matches PresetError::Database(d) && queried(
            query,
            select_directory_formats_text(),
            id_param(id),
            seq![SqlType::Text],
            Err(d),
        ),
{
    let types: Vec<SqlType> = vec![SqlType::Text];
    let params = id_params(id);
    let sql = select_directory_formats_sql().to_owned();
    let ghost (s, p, t) = (sql, params, types);
    let out = query(sql, params, types);
    assert(call_ensures(query, (s, p, t), out));
    assert((id_param(id))(p@));
    assert(t@ == seq![SqlType::Text]);
    match out {
        Err(d) => {
            assert(queried(query, select_directory_formats_text(), id_param(id), seq![SqlType::Text], Err(d)));
            Err(PresetError::Database(d))
        },
        Ok(rows) => {
            assert(queried(query, select_directory_formats_text(), id_param(id), seq![SqlType::Text], Ok(rows)));
            let mut formats: Vec<String> = Vec::new();
            let mut i: usize = 0;
            while i < rows.len()
                invariant
                    i <= rows@.len(),
                    forall|k: int| 0 <= k < rows@.len() ==> row_has_types(#[trigger] rows@[k]@, t@),
                    t@ == seq![SqlType::Text],
                    formats@.len() == i,
                    forall|k: int| 0 <= k < i ==> #[trigger] formats@[k]@ == text_value(rows@[k]@[0]),
                decreases rows@.len() - i,
            {
                assert(row_has_types(rows@[i as int]@, t@));
                let f = text_at(&rows[i], 0);
                formats.push(f);
                i = i + 1;
            }
            assert(views(formats@) =~= texts_of(rows@));
            Ok(formats)
        },
    }
}

/// The presets of a magic directory, in the order they run.
pub fn load_preset_ids(conn: &rusqlite::Connection, id: i64) -> (r: Result<Vec<i64>, PresetError>)
    ensures
        r matches Err(e) ==> e is Database,
{
    let query = |sql: String, params: Vec<SqlValue>, types: Vec<SqlType>| -> (r: Result<
        Vec<Vec<SqlValue>>,
        rusqlite::Error,
    >)
        ensures
            rows_typed(r, types@),
        { query_all(conn, sql.as_str(), &params, &types) };
    load_preset_ids_through(query, id)
}

/// The presets of directory `id`, through `query`, which reads rows: it
/// hands on `select_directory_presets_text` with the id as `?1` and returns
/// the integers of the rows answered, in order.
pub fn load_preset_ids_through<Q: Fn(String, Vec<SqlValue>, Vec<SqlType>) -> Result<Vec<Vec<SqlValue>>, rusqlite::Error>>(query: Q, id: i64) -> (r: Result<Vec<i64>, PresetError>)
    requires
        well_typed_query(query),
    ensures
        r matches Ok(ids) ==> exists|rows: Vec<Vec<SqlValue>>|
            queried(query, select_directory_presets_text(), id_param(id), seq![SqlType::Integer], Ok(rows))
                && ids@ == ints_of(rows@),
        r matches Err(e) ==> e matches PresetError::Database(d) && queried(
            query,
            select_directory_presets_text(),
            id_param(id),
            seq![SqlType::Integer],
            Err(d),
        ),
{
    let types: Vec<SqlType> = vec![SqlType::Integer];
    let params = id_params(id);
    let sql = select_directory_presets_sql().to_owned();
    let ghost (s, p, t) = (sql, params, types);
    let out = query(sql, params, types);
    assert(call_ensures(query, (s, p, t), out));
    assert((id_param(id))(p@));
    assert(t@ == seq![SqlType::Integer]);
    match out {
        Err(d) => {
            assert(queried(query, select_directory_presets_text(), id_param(id), seq![SqlType::Integer], Err(d)));
            Err(PresetError::Database(d))
        },
        Ok(rows) => {
            assert(queried(query, select_directory_presets_text(), id_param(id), seq![SqlType::Integer], Ok(rows)));
            let mut ids: Vec<i64> = Vec::new();
            let mut i: usize = 0;
            while i < rows.len()
                invariant
                    i <= rows@.len(),
                    forall|k: int| 0 <= k < rows@.len() ==> row_has_types(#[trigger] rows@[k]@, t@),
                    t@ == seq![SqlType::Integer],
                    ids@.len() == i,
                    forall|k: int| 0 <= k < i ==> #[trigger] ids@[k] == int_value(rows@[k]@[0]),
                decreases rows@.len() - i,
            {
                assert(row_has_types(rows@[i as int]@, t@));
                ids.push(int_at(&rows[i], 0));
                i = i + 1;
            }
            assert(ids@ =~= ints_of(rows@));
            Ok(ids)
        },
    }
}

/// Whether `d` is the directory that `row` holds, with the formats and
/// presets that `query` answered for directory `id`.
pub open spec fn directory_loaded<Q: Fn(String, Vec<SqlValue>, Vec<SqlType>) -> Result<Vec<Vec<SqlValue>>, rusqlite::Error>>(query: Q, d: MagicDirectory, row: Seq<SqlValue>, id: i64) -> bool {
    exists|formats: Vec<Vec<SqlValue>>, presets: Vec<Vec<SqlValue>>|
        queried(query, select_directory_formats_text(), id_param(id), seq![SqlType::Text], Ok(formats))
            && queried(query, select_directory_presets_text(), id_param(id), seq![SqlType::Integer], Ok(presets))
            && #[trigger] directory_read_from(d, row, texts_of(formats@), ints_of(presets@))
}

/// Whether the formats or the presets of directory `id` could not be read.
pub open spec fn directory_load_failed<Q: Fn(String, Vec<SqlValue>, Vec<SqlType>) -> Result<Vec<Vec<SqlValue>>, rusqlite::Error>>(query: Q, id: i64, d: rusqlite::Error) -> bool {
    ||| queried(query, select_directory_formats_text(), id_param(id), seq![SqlType::Text], Err(d))
    ||| queried(query, select_directory_presets_text(), id_param(id), seq![SqlType::Integer], Err(d))
}

/// Reads directory `id`'s formats and presets and puts them with its row.
fn load_directory<Q: Fn(String, Vec<SqlValue>, Vec<SqlType>) -> Result<Vec<Vec<SqlValue>>, rusqlite::Error>>(query: &Q, row: &Vec<SqlValue>, id: i64) -> (r: Result<MagicDirectory, PresetError>)
    requires
        well_typed_query(*query),
        row_has_types(row@, directory_columns()),
    ensures
        r matches Ok(d) ==> directory_loaded(*query, d, row@, id),
        r matches Err(e) ==> e matches PresetError::Database(d) && directory_load_failed(*query, id, d),
{
    let formats = load_formats_through(query, id)?;
    let preset_ids = load_preset_ids_through(query, id)?;
    let d = directory_from_row(row, formats, preset_ids);
    assert(directory_read_from(d, row@, views(formats@), preset_ids@));
    Ok(d)
}

/// Lists the magic directories, sorted by path without regard to case, then by id.
pub fn list_magic_directories_with_connection(conn: &rusqlite::Connection) -> (r: Result<Vec<MagicDirectory>, PresetError>)
    ensures
        r matches Err(e) ==> e is Database,
{
    let query = |sql: String, params: Vec<SqlValue>, types: Vec<SqlType>| -> (r: Result<
        Vec<Vec<SqlValue>>,
        rusqlite::Error,
    >)
        ensures
            rows_typed(r, types@),
        { query_all(conn, sql.as_str(), &params, &types) };
    list_magic_directories_through(query)
}

/// Lists the magic directories through `query`, which reads rows: it hands
/// on `select_directories_text` without values, and for each row answered,
/// in order, reads that directory's formats and presets by its id.
pub fn list_magic_directories_through<Q: Fn(String, Vec<SqlValue>, Vec<SqlType>) -> Result<Vec<Vec<SqlValue>>, rusqlite::Error>>(query: Q) -> (r: Result<Vec<MagicDirectory>, PresetError>)
    requires
        well_typed_query(query),
    ensures
        r matches Ok(ds) ==> exists|rows: Vec<Vec<SqlValue>>|
            queried(query, select_directories_text(), no_params(), directory_columns(), Ok(rows))
                && ds@.len() == rows@.len() && forall|i: int|
                0 <= i < rows@.len() ==> directory_loaded(
                    query,
                    #[trigger] ds@[i],
                    rows@[i]@,
                    int_value(rows@[i]@[0]),
                ),
        r matches Err(e) ==> e is Database,
{
    let types = directory_column_types();
    let sql = select_directories_sql().to_owned();
    let params: Vec<SqlValue> = Vec::new();
    let ghost (s, p, t) = (sql, params, types);
    let out = query(sql, params, types);
    assert(call_ensures(query, (s, p, t), out));
    let rows = match out {
        Err(d) => {
            return Err(PresetError::Database(d));
        },
        Ok(rows) => rows,
    };
    assert(queried(query, select_directories_text(), no_params(), directory_columns(), Ok(rows)));
    let mut directories: Vec<MagicDirectory> = Vec::new();
    let mut i: usize = 0;
    while i < rows.len()
        invariant
            i <= rows@.len(),
            well_typed_query(query),
            forall|k: int| 0 <= k < rows@.len() ==> row_has_types(#[trigger] rows@[k]@, directory_columns()),
            directories@.len() == i,
            forall|k: int|
                0 <= k < i ==> directory_loaded(
                    query,
                    #[trigger] directories@[k],
                    rows@[k]@,
                    int_value(rows@[k]@[0]),
                ),
        decreases rows@.len() - i,
    {
        let row = &rows[i];
        assert(row_has_types(rows@[i as int]@, directory_columns()));
        let id = int_at(row, 0);
        let d = load_directory(&query, row, id)?;
        directories.push(d);
        i = i + 1;
    }
    Ok(directories)
}

/// Reads the magic directory with the given id.
pub fn get_magic_directory(conn: &rusqlite::Connection, id: i64) -> (r: Result<MagicDirectory, PresetError>)
    ensures
        r matches Err(PresetError::Validation(m)) ==> m@ == "Magic directory not found."@,
        r matches Err(e) ==> !(e is Storage),
{
    let query = |sql: String, params: Vec<SqlValue>, types: Vec<SqlType>| -> (r: Result<
        Vec<Vec<SqlValue>>,
        rusqlite::Error,
    >)
        ensures
            rows_typed(r, types@),
        { query_all(conn, sql.as_str(), &params, &types) };
    get_magic_directory_through(query, id)
}

/// Reads the magic directory with the given id through `query`, which reads
/// rows: it hands on `select_directory_by_id_text` with the id as `?1`; no
/// row means there is no such directory, and otherwise the first row, with
/// the formats and presets read for the id, is the directory.
pub fn get_magic_directory_through<Q: Fn(String, Vec<SqlValue>, Vec<SqlType>) -> Result<Vec<Vec<SqlValue>>, rusqlite::Error>>(query: Q, id: i64) -> (r: Result<MagicDirectory, PresetError>)
    requires
        well_typed_query(query),
    ensures
        r matches Ok(d) ==> exists|rows: Vec<Vec<SqlValue>>|
            queried(query, select_directory_by_id_text(), id_param(id), directory_columns(), Ok(rows))
                && rows@.len() > 0 && directory_loaded(query, d, rows@[0]@, id),
        r matches Err(PresetError::Validation(m)) ==> m@ == "Magic directory not found."@ && exists|
            rows: Vec<Vec<SqlValue>>,
        |
            queried(query, select_directory_by_id_text(), id_param(id), directory_columns(), Ok(rows))
                && rows@.len() == 0,
        r matches Err(PresetError::Database(d)) ==> queried(
            query,
            select_directory_by_id_text(),
            id_param(id),
            directory_columns(),
            Err(d),
        ) || directory_load_failed(query, id, d),
        r matches Err(e) ==> !(e is Storage),
{
    let types = directory_column_types();
    let params = id_params(id);
    let sql = select_directory_by_id_sql().to_owned();
    let ghost (s, p, t) = (sql, params, types);
    let out = query(sql, params, types);
    assert(call_ensures(query, (s, p, t), out));
    assert((id_param(id))(p@));
    let rows = match out {
        Err(d) => {
            assert(queried(query, select_directory_by_id_text(), id_param(id), directory_columns(), Err(d)));
            return Err(PresetError::Database(d));
        },
        Ok(rows) => rows,
    };
    assert(queried(query, select_directory_by_id_text(), id_param(id), directory_columns(), Ok(rows)));
    if rows.len() == 0 {
        return Err(PresetError::Validation(String::from_str("Magic directory not found.")));
    }
    assert(row_has_types(rows@[0]@, directory_columns()));
    load_directory(&query, &rows[0], id)
}

/// The outcome of an update or delete of a magic directory that changed
/// `changed` rows: none changed means it does not exist.
pub fn directory_changed(changed: usize) -> (r: Result<(), PresetError>)
    ensures
        changed == 0 ==> (r matches Err(PresetError::Validation(m)) && m@
            == "Magic directory not found."@),
        changed > 0 ==> r is Ok,
{
    if changed == 0 {
        Err(PresetError::Validation(String::from_str("Magic directory not found.")))
    } else {
        Ok(())
    }
}

/// Checks a request and stores it in one transaction: the folder (updated
/// by id, or new), its formats, and its presets with their positions (see
/// `write_magic_directory_through`), then commits and reads it back.
/// `resolved` is where the request's folder, trimmed, was looked up on disk:
/// the canonical path and whether it is a folder, or the error text of the
/// lookup. The folder is accepted first (see `accept_directory`), and the
/// canonical path is what is stored.
pub fn save_magic_directory_with_connection(
    conn: &mut rusqlite::Connection,
    request: SaveMagicDirectoryRequest,
    resolved: Result<(String, bool), String>,
) -> (r: Result<MagicDirectory, PresetError>)
    ensures
        directory_problem(resolved) matches Some(p) ==> (r matches Err(PresetError::Validation(m))
            && m@ == p),
        directory_problem(resolved) is None ==> (magic_request_problem(
            normalized_formats(views(request.formats@)),
            dedup_first(request.preset_ids@),
        ) matches Some(p) ==> (r matches Err(PresetError::Validation(m)) && m@ == p)),
        r matches Err(e) ==> !(e is Storage),
{
    let path = accept_directory(resolved)?;
    let mut req = request;
    req.path = path;
    validate_magic_request(conn, &mut req)?;
    let transaction = stored(begin_transaction(conn))?;
    let tx = transaction_connection(&transaction);
    let run = |sql: String, params: Vec<SqlValue>| -> (r: Result<usize, rusqlite::Error>)
        { execute(tx, sql.as_str(), &params) };
    let last_id = || -> (r: i64) { last_insert_rowid(tx) };
    let id = write_magic_directory_through(run, last_id, &req)?;
    stored(commit(transaction))?;
    get_magic_directory(conn, id)
}

/// The values bound to the update (with an id) or insert of a magic
/// directory's row: `?1` the folder, `?2` whether it is enabled, `?3` the id.
pub open spec fn directory_values(path: Seq<char>, enabled: bool, id: Option<i64>) -> spec_fn(Seq<SqlValue>) -> bool {
    |p: Seq<SqlValue>| {
        &&& p.len() == (if id is Some { 3nat } else { 2nat })
        &&& is_text(p[0], path)
        &&& p[1] == SqlValue::Boolean(enabled)
        &&& id matches Some(i) ==> p[2] == SqlValue::Integer(i)
    }
}

/// The values bound to adding a watched format: `?1` the directory, `?2` the format.
pub open spec fn format_values(id: i64, format: Seq<char>) -> spec_fn(Seq<SqlValue>) -> bool {
    |p: Seq<SqlValue>| p.len() == 2 && p[0] == SqlValue::Integer(id) && is_text(p[1], format)
}

/// The values bound to adding a preset at `position`: `?1` the directory,
/// `?2` the preset, `?3` the position (capped at `i64::MAX`).
pub open spec fn preset_link_values(id: i64, preset_id: i64, position: int) -> spec_fn(Seq<SqlValue>) -> bool {
    |p: Seq<SqlValue>|
        p == seq![
            SqlValue::Integer(id),
            SqlValue::Integer(preset_id),
            SqlValue::Integer(
                if position <= i64::MAX {
                    position as i64
                } else {
                    i64::MAX
                },
            ),
        ]
}

/// How many statements store the formats and presets of a directory.
pub open spec fn contents_len(formats: Seq<Seq<char>>, preset_ids: Seq<i64>) -> int {
    2 + formats.len() + preset_ids.len() as int
}

/// The text of statement `k` of those that store the formats and presets of
/// a directory: the old formats are deleted, then the old presets, then each
/// format is added, then each preset.
pub open spec fn contents_sql(formats: Seq<Seq<char>>, k: int) -> Seq<char> {
    if k == 0 {
        delete_directory_formats_text()
    } else if k == 1 {
        delete_directory_presets_text()
    } else if k < 2 + formats.len() {
        insert_directory_format_text()
    } else {
        insert_directory_preset_text()
    }
}

/// The values of statement `k` of those that store the formats and presets
/// of directory `id`: the id for both deletes, format `k - 2` for the
/// formats, and for the presets the preset at its position.
pub open spec fn contents_values(id: i64, formats: Seq<Seq<char>>, preset_ids: Seq<i64>, k: int) -> spec_fn(Seq<SqlValue>) -> bool {
    if k == 0 || k == 1 {
        id_param(id)
    } else if k < 2 + formats.len() {
        format_values(id, formats[k - 2])
    } else {
        preset_link_values(id, preset_ids[k - 2 - formats.len()], k - 2 - formats.len())
    }
}

/// Whether `run` ran statement `k` of those that store the contents of
/// directory `id`, and answered a count of rows.
pub open spec fn contents_ran<E: Fn(String, Vec<SqlValue>) -> Result<usize, rusqlite::Error>>(run: E, id: i64, formats: Seq<Seq<char>>, preset_ids: Seq<i64>, k: int) -> bool {
    exists|n: usize| ran(run, contents_sql(formats, k), contents_values(id, formats, preset_ids, k), Ok(n))
}

/// Whether `run` ran statement `k` of those that store the contents of
/// directory `id`, and answered the error `d`.
pub open spec fn contents_failed<E: Fn(String, Vec<SqlValue>) -> Result<usize, rusqlite::Error>>(run: E, id: i64, formats: Seq<Seq<char>>, preset_ids: Seq<i64>, k: int, d: rusqlite::Error) -> bool {
    ran(run, contents_sql(formats, k), contents_values(id, formats, preset_ids, k), Err(d))
}

/// Whether the statements that store the contents of directory `id` ran in
/// order up to one that failed with `d`.
pub open spec fn contents_stopped<E: Fn(String, Vec<SqlValue>) -> Result<usize, rusqlite::Error>>(run: E, id: i64, formats: Seq<Seq<char>>, preset_ids: Seq<i64>, d: rusqlite::Error) -> bool {
    exists|k: int|
        0 <= k < contents_len(formats, preset_ids) && (forall|j: int|
            0 <= j < k ==> contents_ran(run, id, formats, preset_ids, j)) && #[trigger] contents_failed(
            run,
            id,
            formats,
            preset_ids,
            k,
            d,
        )
}

/// Runs one statement of the contents of directory `id` through `run`.
fn run_contents_statement<E: Fn(String, Vec<SqlValue>) -> Result<usize, rusqlite::Error>>(
    run: &E,
    sql: String,
    params: Vec<SqlValue>,
    Ghost(id): Ghost<i64>,
    Ghost(formats): Ghost<Seq<Seq<char>>>,
    Ghost(preset_ids): Ghost<Seq<i64>>,
    Ghost(k): Ghost<int>,
) -> (r: Result<(), rusqlite::Error>)
    requires
        forall|s: String, p: Vec<SqlValue>| call_requires(*run, (s, p)),
        sql@ == contents_sql(formats, k),
        (contents_values(id, formats, preset_ids, k))(params@),
    ensures
        r is Ok ==> contents_ran(*run, id, formats, preset_ids, k),
        r matches Err(d) ==> contents_failed(*run, id, formats, preset_ids, k, d),
{
    let ghost (s, p) = (sql, params);
    let out = run(sql, params);
    assert(call_ensures(*run, (s, p), out));
    match out {
        Ok(n) => {
            assert(ran(*run, contents_sql(formats, k), contents_values(id, formats, preset_ids, k), Ok(n)));
            Ok(())
        },
        Err(d) => Err(d),
    }
}

/// Stores the formats and presets of directory `id` through `run`, which
/// runs a statement: the statements of `contents_sql` and
/// `contents_values`, in order, stopping at the first that fails.
pub fn write_directory_contents<E: Fn(String, Vec<SqlValue>) -> Result<usize, rusqlite::Error>>(
    run: &E,
    id: i64,
    formats: &Vec<String>,
    preset_ids: &Vec<i64>,
) -> (r: Result<(), rusqlite::Error>)
    requires
        forall|s: String, p: Vec<SqlValue>| call_requires(*run, (s, p)),
    ensures
        r is Ok ==> forall|k: int|
            0 <= k < contents_len(views(formats@), preset_ids@) ==> #[trigger] contents_ran(
                *run,
                id,
                views(formats@),
                preset_ids@,
                k,
            ),
        r matches Err(d) ==> contents_stopped(*run, id, views(formats@), preset_ids@, d),
{
    let ghost fs = views(formats@);
    let ghost ps = preset_ids@;
    let r0 = run_contents_statement(run, delete_directory_formats_sql().to_owned(), id_params(id), Ghost(id), Ghost(fs), Ghost(ps), Ghost(0));
    if let Err(d) = r0 {
        assert(contents_failed(*run, id, fs, ps, 0, d));
        return Err(d);
    }
    let r1 = run_contents_statement(run, delete_directory_presets_sql().to_owned(), id_params(id), Ghost(id), Ghost(fs), Ghost(ps), Ghost(1));
    if let Err(d) = r1 {
        assert(contents_failed(*run, id, fs, ps, 1, d));
        return Err(d);
    }
    let mut i: usize = 0;
    while i < formats.len()
        invariant
            forall|s: String, p: Vec<SqlValue>| call_requires(*run, (s, p)),
            i <= formats@.len(),
            fs == views(formats@),
            ps == preset_ids@,
            forall|j: int| 0 <= j < 2 + i ==> #[trigger] contents_ran(*run, id, fs, ps, j),
        decreases formats@.len() - i,
    {
        let ghost k = 2 + i;
        assert(fs[k - 2] == formats@[i as int]@);
        let params = directory_format_params(id, formats[i].as_str());
        let ri = run_contents_statement(run, insert_directory_format_sql().to_owned(), params, Ghost(id), Ghost(fs), Ghost(ps), Ghost(k));
        if let Err(d) = ri {
            assert(contents_failed(*run, id, fs, ps, k, d));
            return Err(d);
        }
        i = i + 1;
    }
    let mut position: usize = 0;
    while position < preset_ids.len()
        invariant
            forall|s: String, p: Vec<SqlValue>| call_requires(*run, (s, p)),
            position <= preset_ids@.len(),
            fs == views(formats@),
            ps == preset_ids@,
            forall|j: int| 0 <= j < 2 + fs.len() + position ==> #[trigger] contents_ran(*run, id, fs, ps, j),
        decreases preset_ids@.len() - position,
    {
        let ghost k = 2 + fs.len() + position;
        let params = directory_preset_params(id, preset_ids[position], position);
        let rp = run_contents_statement(run, insert_directory_preset_sql().to_owned(), params, Ghost(id), Ghost(fs), Ghost(ps), Ghost(k));
        if let Err(d) = rp {
            assert(contents_failed(*run, id, fs, ps, k, d));
            return Err(d);
        }
        position = position + 1;
    }
    Ok(())
}

/// Whether `run` wrote the row of a magic directory with id `id`: with the
/// request's id, an update by that id that changed a row; without one, an
/// insert, after which `last_id` gave `id`.
pub open spec fn directory_row_written<E: Fn(String, Vec<SqlValue>) -> Result<usize, rusqlite::Error>, L: Fn() -> i64>(run: E, last_id: L, request: SaveMagicDirectoryRequest, id: i64) -> bool {
    match request.id {
        Some(x) => id == x && exists|n: usize|
            n > 0 && ran(run, update_directory_text(), directory_values(request.path@, request.enabled, Some(x)), Ok(n)),
        None => (exists|n: usize|
            ran(run, insert_directory_text(), directory_values(request.path@, request.enabled, None), Ok(n)))
            && call_ensures(last_id, (), id),
    }
}

/// Whether the update or insert of a magic directory's row failed with `d`.
pub open spec fn directory_row_failed<E: Fn(String, Vec<SqlValue>) -> Result<usize, rusqlite::Error>>(run: E, request: SaveMagicDirectoryRequest, d: rusqlite::Error) -> bool {
    match request.id {
        Some(x) => ran(run, update_directory_text(), directory_values(request.path@, request.enabled, Some(x)), Err(d)),
        None => ran(run, insert_directory_text(), directory_values(request.path@, request.enabled, None), Err(d)),
    }
}

/// Writes a checked request through `run`, which runs a statement, and
/// returns the directory's id: first its row (an update by the request's id,
/// where no row changed means the directory does not exist, or an insert,
/// whose id `last_id` then gives), then its formats and presets
/// (`write_directory_contents`), stopping at the first statement that fails.
pub fn write_magic_directory_through<E: Fn(String, Vec<SqlValue>) -> Result<usize, rusqlite::Error>, L: Fn() -> i64>(
    run: E,
    last_id: L,
    request: &SaveMagicDirectoryRequest,
) -> (r: Result<i64, PresetError>)
    requires
        forall|s: String, p: Vec<SqlValue>| call_requires(run, (s, p)),
        call_requires(last_id, ()),
    ensures
        r matches Ok(id) ==> directory_row_written(run, last_id, *request, id) && forall|k: int|
            0 <= k < contents_len(views(request.formats@), request.preset_ids@) ==> #[trigger] contents_ran(
                run,
                id,
                views(request.formats@),
                request.preset_ids@,
                k,
            ),
        r matches Err(PresetError::Validation(m)) ==> m@ == "Magic directory not found."@ && (
        request.id matches Some(x) && ran(
            run,
            update_directory_text(),
            directory_values(request.path@, request.enabled, Some(x)),
            Ok(0),
        )),
        r matches Err(PresetError::Database(d)) ==> directory_row_failed(run, *request, d) || exists|id: i64|
            #[trigger] directory_row_written(run, last_id, *request, id) && contents_stopped(
                run,
                id,
                views(request.formats@),
                request.preset_ids@,
                d,
            ),
        r matches Err(e) ==> e is Database || e is Validation,
{
    let id = match request.id {
        Some(x) => {
            let params = directory_params(request.path.as_str(), request.enabled, Some(x));
            let sql = update_directory_sql().to_owned();
            let ghost (s, p) = (sql, params);
            let out = run(sql, params);
            assert(call_ensures(run, (s, p), out));
            assert((directory_values(request.path@, request.enabled, Some(x)))(p@));
            match out {
                Err(d) => {
                    assert(ran(run, update_directory_text(), directory_values(request.path@, request.enabled, Some(x)), Err(d)));
                    return Err(PresetError::Database(d));
                },
                Ok(n) => {
                    assert(ran(run, update_directory_text(), directory_values(request.path@, request.enabled, Some(x)), Ok(n)));
                    directory_changed(n)?;
                },
            }
            x
        },
        None => {
            let params = directory_params(request.path.as_str(), request.enabled, None);
            let sql = insert_directory_sql().to_owned();
            let ghost (s, p) = (sql, params);
            let out = run(sql, params);
            assert(call_ensures(run, (s, p), out));
            assert((directory_values(request.path@, request.enabled, None))(p@));
            match out {
                Err(d) => {
                    assert(ran(run, insert_directory_text(), directory_values(request.path@, request.enabled, None), Err(d)));
                    return Err(PresetError::Database(d));
                },
                Ok(n) => {
                    assert(ran(run, insert_directory_text(), directory_values(request.path@, request.enabled, None), Ok(n)));
                },
            }
            last_id()
        },
    };
    assert(directory_row_written(run, last_id, *request, id));
    match write_directory_contents(&run, id, &request.formats, &request.preset_ids) {
        Ok(()) => Ok(id),
        Err(d) => Err(PresetError::Database(d)),
    }
}

/// Deletes the magic directory with the given id, with its formats and presets.
pub fn delete_magic_directory_with_connection(conn: &rusqlite::Connection, id: i64) -> (r: Result<(), PresetError>)
    ensures
        r matches Err(PresetError::Validation(m)) ==> m@ == "Magic directory not found."@,
        r matches Err(e) ==> e is Database || e is Validation,
{
    let run = |sql: String, params: Vec<SqlValue>| -> (r: Result<usize, rusqlite::Error>)
        { execute(conn, sql.as_str(), &params) };
    delete_magic_directory_through(run, id)
}

/// Deletes the magic directory with the given id through `run`, which runs
/// a statement: it hands on `delete_directory_text` with the id as `?1`; no
/// row changed means the directory does not exist.
pub fn delete_magic_directory_through<E: Fn(String, Vec<SqlValue>) -> Result<usize, rusqlite::Error>>(run: E, id: i64) -> (r: Result<(), PresetError>)
    requires
        forall|s: String, p: Vec<SqlValue>| call_requires(run, (s, p)),
    ensures
        r is Ok ==> exists|n: usize| n > 0 && executed(run, delete_directory_text(), seq![SqlValue::Integer(id)], Ok(n)),
        r matches Err(PresetError::Validation(m)) ==> m@ == "Magic directory not found."@ && executed(
            run,
            delete_directory_text(),
            seq![SqlValue::Integer(id)],
            Ok(0),
        ),
        r matches Err(PresetError::Database(d)) ==> executed(
            run,
            delete_directory_text(),
            seq![SqlValue::Integer(id)],
            Err(d),
        ),
        r matches Err(e) ==> e is Database || e is Validation,
{
    let params = id_params(id);
    let sql = delete_directory_sql().to_owned();
    let ghost (s, p) = (sql, params);
    let out = run(sql, params);
    assert(call_ensures(run, (s, p), out));
    match out {
        Ok(n) => {
            assert(executed(run, delete_directory_text(), seq![SqlValue::Integer(id)], Ok(n)));
            directory_changed(n)
        },
        Err(d) => {
            assert(executed(run, delete_directory_text(), seq![SqlValue::Integer(id)], Err(d)));
            Err(PresetError::Database(d))
        },
    }
}

/// Lists the magic directories of the database at `database_path`.
pub fn list_magic_directories_for_cli(database_path: &str) -> (r: Result<Vec<MagicDirectory>, PresetError>)
    ensures
        r matches Err(e) ==> e is Database,
{
    let conn = open_database(database_path)?;
    list_magic_directories_with_connection(&conn)
}

/// Stores a magic directory in the database at `database_path`;
/// `resolved` is where its folder was looked up on disk (see
/// `save_magic_directory_with_connection`).
pub fn save_magic_directory_for_cli(
    database_path: &str,
    request: SaveMagicDirectoryRequest,
    resolved: Result<(String, bool), String>,
) -> (r: Result<MagicDirectory, PresetError>)
    ensures
        directory_problem(resolved) matches Some(p) ==> (r matches Err(e) && (e is Database || (
        e matches PresetError::Validation(m) && m@ == p))),
        directory_problem(resolved) is None ==> (magic_request_problem(
            normalized_formats(views(request.formats@)),
            dedup_first(request.preset_ids@),
        ) matches Some(p) ==> (r matches Err(e) && (e is Database || (e matches PresetError::Validation(
            m,
        ) && m@ == p)))),
        r matches Err(e) ==> !(e is Storage),
{
    let mut conn = open_database(database_path)?;
    save_magic_directory_with_connection(&mut conn, request, resolved)
}

/// Deletes the magic directory with the given id from the database at
/// `database_path`.
pub fn delete_magic_directory_for_cli(database_path: &str, id: i64) -> (r: Result<(), PresetError>)
    ensures
        r matches Err(PresetError::Validation(m)) ==> m@ == "Magic directory not found."@,
        r matches Err(e) ==> !(e is Storage),
{
    let conn = open_database(database_path)?;
    delete_magic_directory_with_connection(&conn, id)
}

/// The folders that the watcher watches: those of the enabled directories,
/// in order.
pub open spec fn enabled_paths(directories: Seq<MagicDirectory>) -> Seq<Seq<char>>
    decreases directories.len(),
{
    if directories.len() == 0 {
        Seq::empty()
    } else {
        let rest = enabled_paths(directories.drop_last());
        if directories.last().enabled {
            rest.push(directories.last().path@)
        } else {
            rest
        }
    }
}

/// The folders to watch: those of the enabled directories, in order.
pub fn watched_directories(directories: &Vec<MagicDirectory>) -> (r: Vec<String>)
    ensures
        views(r@) == enabled_paths(directories@),
{
    let mut paths: Vec<String> = Vec::new();
    let mut i: usize = 0;
    while i < directories.len()
        invariant
            i <= directories@.len(),
            views(paths@) == enabled_paths(directories@.subrange(0, i as int)),
        decreases directories@.len() - i,
    {
        assert(directories@.subrange(0, i + 1).drop_last() =~= directories@.subrange(0, i as int));
        if directories[i].enabled {
            paths.push(directories[i].path.clone());
            assert(views(paths@) =~= views(paths@.drop_last()).push(paths@.last()@));
        }
        i = i + 1;
    }
    assert(directories@.subrange(0, directories@.len() as int) =~= directories@);
    paths
}

/// What the user is told when folder `path` cannot be watched, `error`
/// being the watcher's own message.
pub fn watch_failure_message(path: &str, error: &str) -> (r: String)
    ensures
        r@ == "Unable to watch "@ + path@ + ": "@ + error@,
{
    let mut m = String::from_str("Unable to watch ");
    m.append(path);
    m.append(": ");
    m.append(error);
    m
}

/// What the user is told when the watcher reports an error, `error` being
/// its own message.
pub fn watcher_error_message(error: &str) -> (r: String)
    ensures
        r@ == "Magic directory watcher error: "@ + error@,
{
    let mut m = String::from_str("Magic directory watcher error: ");
    m.append(error);
    m
}

/// Whether a new image with extension `extension` in folder `parent`
/// belongs to magic directory `d`, whose folder resolves to `resolved`: the
/// directory is enabled, watches the extension, and is the image's folder.
pub open spec fn directory_matches(d: MagicDirectory, resolved: Seq<char>, extension: Seq<char>, parent: Option<Seq<char>>) -> bool {
    &&& d.enabled
    &&& views(d.formats@).contains(extension)
    &&& parent == Some(resolved)
}

/// The first magic directory that a new image belongs to, if any. The
/// folders of the directories, resolved on disk, are given in the same order.
pub fn matching_directory(
    directories: &Vec<MagicDirectory>,
    resolved_paths: &Vec<String>,
    extension: &str,
    parent: &Option<String>,
) -> (r: Option<usize>)
    requires
        resolved_paths@.len() == directories@.len(),
    ensures
        match r {
            Some(i) => i < directories@.len() && directory_matches(
                directories@[i as int],
                resolved_paths@[i as int]@,
                extension@,
                opt_text(*parent),
            ) && forall|j: int|
                0 <= j < i ==> !directory_matches(
                    #[trigger] directories@[j],
                    resolved_paths@[j]@,
                    extension@,
                    opt_text(*parent),
                ),
            None => forall|j: int|
                0 <= j < directories@.len() ==> !directory_matches(
                    #[trigger] directories@[j],
                    resolved_paths@[j]@,
                    extension@,
                    opt_text(*parent),
                ),
        },
{
    let wanted = extension.to_owned();
    let mut i: usize = 0;
    while i < directories.len()
        invariant
            i <= directories@.len(),
            resolved_paths@.len() == directories@.len(),
            wanted@ == extension@,
            forall|j: int|
                0 <= j < i ==> !directory_matches(
                    #[trigger] directories@[j],
                    resolved_paths@[j]@,
                    extension@,
                    opt_text(*parent),
                ),
        decreases directories@.len() - i,
    {
        let d = &directories[i];
        let same_folder = match parent {
            Some(p) => str_eq(resolved_paths[i].as_str(), p.as_str()),
            None => false,
        };
        if d.enabled && same_folder && contains_text_value(&d.formats, &wanted) {
            return Some(i);
        }
        i = i + 1;
    }
    None
}

/// What keeps the presets of a magic directory from running, if anything:
/// none are left, or several would write the same outputs.
pub fn magic_presets_problem(presets: &Vec<ConversionPreset>) -> (r: Option<String>)
    ensures
        presets@.len() == 0 ==> (r matches Some(m) && m@
            == "Magic directory has no available presets. Edit the rule before using it."@),
        presets@.len() == 1 ==> r is None,
        presets@.len() > 1 ==> (r is None <==> forall|i: int|
            0 <= i < presets@.len() ==> !marker_problem(presets@, i)),
        presets@.len() > 1 ==> (r matches Some(m) ==> exists|f: int|
            0 <= f < presets@.len() && marker_problem(presets@, f) && (forall|i: int|
                0 <= i < f ==> !marker_problem(presets@, i)) && m@ == marker_problem_message(
                presets@[f],
            )),
{
    if presets.len() == 0 {
        return Some(
            String::from_str("Magic directory has no available presets. Edit the rule before using it."),
        );
    }
    if presets.len() > 1 {
        match validate_multiple_preset_markers(presets.as_slice()) {
            Ok(()) => {},
            Err(m) => {
                return Some(m);
            },
        }
    }
    None
}

/// The notice shown when a new image starts converting.
pub open spec fn processing_message_spec(name: Seq<char>, count: nat) -> Seq<char> {
    "Processing "@ + name + " with "@ + decimal(count) + " preset(s)..."@
}

/// The notice shown when a new image starts converting with `count` presets.
pub fn processing_message(name: &str, count: usize) -> (r: String)
    ensures
        r@ == processing_message_spec(name@, count as nat),
{
    let mut r = String::from_str("Processing ");
    r.append(name);
    r.append(" with ");
    push_decimal(&mut r, count as u64);
    r.append(" preset(s)...");
    r
}

/// The kind and text of the notice after all presets ran on an image.
pub open spec fn magic_outcome_spec(success_count: nat, failure_count: nat) -> (Seq<char>, Seq<char>) {
    if failure_count == 0 {
        ("success"@, "Magic directory converted "@ + decimal(success_count) + " output(s)."@)
    } else if success_count > 0 {
        (
            "warning"@,
            "Magic directory created "@ + decimal(success_count) + " output(s); "@ + decimal(
                failure_count,
            ) + " failed."@,
        )
    } else {
        ("error"@, "Magic directory conversion failed."@)
    }
}

/// The kind (`success`, `warning` or `error`) and text of the notice after
/// all presets ran on an image.
pub fn magic_outcome(success_count: usize, failure_count: usize) -> (r: (String, String))
    ensures
        (r.0@, r.1@) == magic_outcome_spec(success_count as nat, failure_count as nat),
{
    if failure_count == 0 {
        let mut m = String::from_str("Magic directory converted ");
        push_decimal(&mut m, success_count as u64);
        m.append(" output(s).");
        (String::from_str("success"), m)
    } else if success_count > 0 {
        let mut m = String::from_str("Magic directory created ");
        push_decimal(&mut m, success_count as u64);
        m.append(" output(s); ");
        push_decimal(&mut m, failure_count as u64);
        m.append(" failed.");
        (String::from_str("warning"), m)
    } else {
        (String::from_str("error"), String::from_str("Magic directory conversion failed."))
    }
}

/// The counts of converted and failed outputs after one more preset ran:
/// its own counts, or one failure when it could not run at all.
pub open spec fn tally_spec(counts: (usize, usize), outcome: Result<(usize, usize), String>) -> (int, int) {
    match outcome {
        Ok((s, f)) => (counts.0 + s, counts.1 + f),
        Err(_) => (counts.0 as int, counts.1 + 1),
    }
}

/// Adds the outcome of one preset to the counts of an image.
pub fn tally_run(counts: (usize, usize), outcome: &Result<(usize, usize), String>) -> (r: (usize, usize))
    requires
        tally_spec(counts, *outcome).0 <= usize::MAX,
        tally_spec(counts, *outcome).1 <= usize::MAX,
    ensures
        (r.0 as int, r.1 as int) == tally_spec(counts, *outcome),
{
    match outcome {
        Ok((s, f)) => (counts.0 + *s, counts.1 + *f),
        Err(_) => (counts.0, counts.1 + 1),
    }
}

/// What the conversion of a new image with a preset asks for, or why the
/// preset cannot run: its format is unknown, or its resize mode is not
/// `width`, `height` or `none`.
pub open spec fn preset_run_problem(preset: ConversionPreset) -> Option<Seq<char>> {
    if format_from_value_spec(preset.format@) is None {
        Some("Unsupported preset format: "@ + preset.format@)
    } else if !(preset.resize_mode@ == "width"@ || preset.resize_mode@ == "height"@
        || preset.resize_mode@ == "none"@) {
        Some("Unsupported preset resize mode: "@ + preset.resize_mode@)
    } else {
        None
    }
}

/// The resize of a preset run: the preset's width in `width` mode, its
/// height in `height` mode, nothing in `none` mode.
pub open spec fn preset_run_resize(preset: ConversionPreset) -> ResizeOptions {
    if preset.resize_mode@ == "width"@ {
        ResizeOptions { width: preset.width, height: None }
    } else if preset.resize_mode@ == "height"@ {
        ResizeOptions { width: None, height: preset.height }
    } else {
        ResizeOptions { width: None, height: None }
    }
}

/// The conversion of one new image with a preset: the image alone, the
/// preset's settings, and a free name when an output exists.
pub fn preset_run_request(path: &str, preset: &ConversionPreset) -> (r: Result<ConversionRequest, String>)
    ensures
        match preset_run_problem(*preset) {
            Some(p) => r matches Err(m) && m@ == p,
            None => r matches Ok(q) && {
                &&& q.images@.len() == 1
                &&& q.images@[0].path@ == path@
                &&& Some(q.format) == format_from_value_spec(preset.format@)
                &&& q.resize == preset_run_resize(*preset)
                &&& q.quality == preset.quality
                &&& q.filename_component@ == preset.filename_component@
                &&& q.filename_mode@ == preset.filename_mode@
                &&& q.output_dir@ == preset.output_directory@
                &&& q.collision_mode == CollisionMode::Rename
            },
        },
{
    let format = match ExportFormat::from_value(preset.format.as_str()) {
        Some(f) => f,
        None => {
            let mut m = String::from_str("Unsupported preset format: ");
            m.append(preset.format.as_str());
            return Err(m);
        },
    };
    let mode = preset.resize_mode.as_str();
    let resize = if str_eq(mode, "width") {
        ResizeOptions { width: preset.width, height: None }
    } else if str_eq(mode, "height") {
        ResizeOptions { width: None, height: preset.height }
    } else if str_eq(mode, "none") {
        ResizeOptions { width: None, height: None }
    } else {
        let mut m = String::from_str("Unsupported preset resize mode: ");
        m.append(mode);
        return Err(m);
    };
    let mut images: Vec<ConversionImageInput> = Vec::new();
    images.push(ConversionImageInput { path: path.to_owned() });
    Ok(
        ConversionRequest {
            images,
            format,
            resize,
            quality: preset.quality,
            filename_component: preset.filename_component.clone(),
            filename_mode: preset.filename_mode.clone(),
            output_dir: preset.output_directory.clone(),
            collision_mode: CollisionMode::Rename,
        },
    )
}

/// How far a new file has settled: how many checks in a row saw the size
/// of the last check, and that size.
#[derive(Debug, Clone, Copy)]
pub struct FileReadiness {
    pub stable_observations: usize,
    pub previous_size: Option<u64>,
}

/// The state before the first check.
pub open spec fn readiness_start() -> FileReadiness {
    FileReadiness { stable_observations: 0, previous_size: None }
}

/// One check of a new file: `size` is its size when it is a regular file,
/// `None` otherwise. The file is ready when two checks in a row after the
/// first saw the same size; any other observation starts counting again.
pub open spec fn ready_step_spec(state: FileReadiness, size: Option<u64>) -> (FileReadiness, bool) {
    match size {
        Some(n) => if state.previous_size == Some(n) {
            let stable = (state.stable_observations + 1) as usize;
            (FileReadiness { stable_observations: stable, previous_size: state.previous_size }, stable >= 2)
        } else {
            (FileReadiness { stable_observations: 0, previous_size: Some(n) }, false)
        },
        None => (FileReadiness { stable_observations: 0, previous_size: None }, false),
    }
}

/// The state before the first check of a new file.
pub fn readiness_start_state() -> (r: FileReadiness)
    ensures
        r == readiness_start(),
{
    FileReadiness { stable_observations: 0, previous_size: None }
}

/// Takes one check of a new file into account and says whether it is ready.
pub fn ready_step(state: FileReadiness, size: Option<u64>) -> (r: (FileReadiness, bool))
    requires
        state.stable_observations < usize::MAX,
    ensures
        r == ready_step_spec(state, size),
{
    match size {
        Some(n) => {
            let same = match state.previous_size {
                Some(p) => p == n,
                None => false,
            };
            if same {
                let stable = state.stable_observations + 1;
                (FileReadiness { stable_observations: stable, previous_size: state.previous_size }, stable >= 2)
            } else {
                (FileReadiness { stable_observations: 0, previous_size: Some(n) }, false)
            }
        },
        None => (FileReadiness { stable_observations: 0, previous_size: None }, false),
    }
}

} // verus!
