//! The command line's work on the preset database: finding the presets a
//! conversion names, and the `presets` and `stats` commands, each returning
//! the lines it prints.

use vstd::prelude::*;
use crate::cli::{PresetOptions, apply_preset_updates, build_create_preset_request, create_preset_spec};
use crate::text::trim_spec;
use crate::models::{ConversionPreset, ConversionStatistics, SavePresetRequest};
use crate::presets::{
    PresetError, database_message, normalize_spec, preset_not_found_message, preset_problem,
    delete_preset_by_name_for_cli, find_preset_by_name_for_cli, list_presets_for_cli,
    load_statistics_for_cli, save_preset_for_cli,
};
use crate::report::{
    presets_list_lines, render_presets, render_statistics, statistics_lines, views,
};
use crate::units::{date_cuttable, date_is_cuttable};
use vstd::utf8::encode_utf8;

verus! {

broadcast use vstd::string::group_string_axioms;

/// The presets that a conversion names, in the order of the names. Each
/// name is looked up trimmed and without regard to case.
pub fn load_requested_presets(database_path: &str, names: &Vec<String>) -> (r: Result<
    Vec<ConversionPreset>,
    String,
>)
    ensures
        names@.len() == 0 ==> (r matches Err(m) && m@
            == "--preset expects at least one preset name."@),
        r matches Ok(ps) ==> ps@.len() == names@.len(),
{
    let find = |name: String| -> (r: Result<ConversionPreset, PresetError>)
        { find_preset_by_name_for_cli(database_path, name.as_str()) };
    load_requested_presets_through(find, names)
}

/// Whether `m` is the text that error `e` shows (see `PresetError::message`).
pub open spec fn shown_as(e: PresetError, m: Seq<char>) -> bool {
    match e {
        PresetError::Storage(s) => m == "Preset storage error: "@ + s@,
        PresetError::Database(_) => database_message(m),
        PresetError::Validation(v) => m == v@,
    }
}

/// The presets that a conversion names, through `find`, which looks a preset
/// up by name: each name in turn is handed to `find`, and the first that it
/// cannot find ends the lookup with the text of its error.
pub fn load_requested_presets_through<F: Fn(String) -> Result<ConversionPreset, PresetError>>(find: F, names: &Vec<String>) -> (r: Result<
    Vec<ConversionPreset>,
    String,
>)
    requires
        forall|name: String| call_requires(find, (name,)),
    ensures
        names@.len() == 0 ==> (r matches Err(m) && m@
            == "--preset expects at least one preset name."@),
        r matches Ok(ps) ==> ps@.len() == names@.len() && forall|i: int|
            0 <= i < names@.len() ==> call_ensures(find, (names@[i],), Ok::<ConversionPreset, PresetError>(#[trigger] ps@[i])),
        names@.len() > 0 ==> (r matches Err(m) ==> exists|i: int, e: PresetError|
            0 <= i < names@.len() && #[trigger] call_ensures(find, (names@[i],), Err::<ConversionPreset, PresetError>(e))
                && shown_as(e, m@)),
{
    if names.len() == 0 {
        return Err(String::from_str("--preset expects at least one preset name."));
    }
    let mut presets: Vec<ConversionPreset> = Vec::new();
    let mut i: usize = 0;
    while i < names.len()
        invariant
            forall|name: String| call_requires(find, (name,)),
            i <= names@.len(),
            presets@.len() == i,
            forall|k: int| 0 <= k < i ==> call_ensures(find, (names@[k],), Ok::<ConversionPreset, PresetError>(#[trigger] presets@[k])),
        decreases names@.len() - i,
    {
        let name = names[i].clone();
        match find(name) {
            Ok(p) => presets.push(p),
            Err(e) => {
                let m = e.message();
                assert(shown_as(e, m@));
                return Err(m);
            },
        }
        i = i + 1;
    }
    Ok(presets)
}

/// The request that `bulkpixel presets update` stores: the stored preset of
/// the given name with the options applied (see `apply_preset_updates`).
pub fn update_preset_request(database_path: &str, options: PresetOptions) -> (r: Result<
    SavePresetRequest,
    String,
>)
    ensures
        options.name is None ==> (r matches Err(m) && m@ == "--name is required."@),
        r matches Ok(q) ==> q.id is Some,
{
    let name = match &options.name {
        Some(n) => n.clone(),
        None => {
            return Err(String::from_str("--name is required."));
        },
    };
    let existing = match find_preset_by_name_for_cli(database_path, name.as_str()) {
        Ok(p) => p,
        Err(e) => {
            return Err(e.message());
        },
    };
    apply_preset_updates(options, existing)
}

/// The line printed after a preset was stored or deleted.
pub open spec fn preset_notice(verb: Seq<char>, name: Seq<char>) -> Seq<char> {
    "Preset "@ + verb + ": "@ + name
}

fn notice(verb: &str, name: &str) -> (r: Vec<String>)
    ensures
        views(r@) == seq![preset_notice(verb@, name@)],
{
    let mut line = String::from_str("Preset ");
    line.append(verb);
    line.append(": ");
    line.append(name);
    let mut r: Vec<String> = Vec::new();
    r.push(line);
    assert(views(r@) =~= seq![preset_notice(verb@, name@)]);
    r
}

/// `bulkpixel presets list`: the listing of the stored presets.
pub fn list_presets_lines(database_path: &str) -> (r: Result<Vec<String>, String>)
    ensures
        r matches Ok(lines) ==> exists|ps: Seq<ConversionPreset>| views(lines@)
            == presets_list_lines(ps),
        r matches Err(m) ==> database_message(m@),
{
    match list_presets_for_cli(database_path) {
        Ok(presets) => {
            let lines = render_presets(&presets);
            assert(views(lines@) == presets_list_lines(presets@));
            Ok(lines)
        },
        Err(e) => Err(e.message()),
    }
}

/// `bulkpixel presets create`: stores the new preset and reports its name.
pub fn create_preset_lines(database_path: &str, options: PresetOptions) -> (r: Result<
    Vec<String>,
    String,
>)
    ensures
        r matches Ok(lines) ==> exists|name: Seq<char>| views(lines@) == seq![
            preset_notice("created"@, name),
        ],
        create_preset_spec(options@) matches Err(sm) ==> (r matches Err(m) && m@ == sm),
        create_preset_spec(options@) matches Ok(q) ==> (r matches Err(m) ==> preset_problem(
            normalize_spec(q),
        ) == Some(m@) || database_message(m@)),
        create_preset_spec(options@) matches Ok(q) ==> (preset_problem(normalize_spec(q)) matches Some(
            p,
        ) ==> (r matches Err(m) && (m@ == p || database_message(m@)))),
{
    let request = build_create_preset_request(options)?;
    match save_preset_for_cli(database_path, request) {
        Ok(p) => Ok(notice("created", p.name.as_str())),
        Err(e) => Err(e.message()),
    }
}

/// `bulkpixel presets update`: stores the changed preset and reports its name.
pub fn update_preset_lines(database_path: &str, options: PresetOptions) -> (r: Result<
    Vec<String>,
    String,
>)
    ensures
        options.name is None ==> (r matches Err(m) && m@ == "--name is required."@),
        r matches Ok(lines) ==> exists|name: Seq<char>| views(lines@) == seq![
            preset_notice("updated"@, name),
        ],
{
    let request = update_preset_request(database_path, options)?;
    match save_preset_for_cli(database_path, request) {
        Ok(p) => Ok(notice("updated", p.name.as_str())),
        Err(e) => Err(e.message()),
    }
}

/// `bulkpixel presets delete`: deletes the preset of the given name and
/// reports the name as given.
pub fn delete_preset_lines(database_path: &str, name: &str) -> (r: Result<Vec<String>, String>)
    ensures
        r matches Ok(lines) ==> views(lines@) == seq![preset_notice("deleted"@, name@)],
        r matches Err(m) ==> m@ == preset_not_found_message(trim_spec(name@)) || m@
            == "Preset not found."@ || database_message(m@),
{
    match delete_preset_by_name_for_cli(database_path, name) {
        Ok(()) => Ok(notice("deleted", name)),
        Err(e) => Err(e.message()),
    }
}

/// `bulkpixel stats`: the statistics report, or `None` when a stored date
/// cannot be cut where the report cuts it (see `render_statistics`).
pub fn stats_lines(database_path: &str) -> (r: Result<Option<Vec<String>>, String>)
    ensures
        r matches Ok(Some(lines)) ==> exists|st: ConversionStatistics| views(lines@)
            == statistics_lines(st),
        r matches Ok(None) ==> exists|st: ConversionStatistics|
            !date_cuttable(encode_utf8(st.created_at@)) || !date_cuttable(
                encode_utf8(st.last_conversion_at@),
            ),
        r matches Err(m) ==> database_message(m@),
{
    let statistics = match load_statistics_for_cli(database_path) {
        Ok(s) => s,
        Err(e) => {
            return Err(e.message());
        },
    };
    if date_is_cuttable(statistics.created_at.as_str()) && date_is_cuttable(
        statistics.last_conversion_at.as_str(),
    ) {
        let lines = render_statistics(&statistics);
        Ok(Some(lines))
    } else {
        Ok(None)
    }
}

} // verus!
