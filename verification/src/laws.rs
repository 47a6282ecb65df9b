//! Properties of the library as a whole: what resizing keeps, what a batch
//! never does to its outputs, what presets and magic directories keep.

use vstd::prelude::*;
use crate::cli::{
    ConversionPlan, ConvertOptionsView, PresetOptionsView, filename_options_spec, parse_format_spec, parse_quality_spec,
    convert_flag_step, convert_options_start, is_convert_value_flag, is_flag, parse_convert_from, set_convert_value,
    value_run_end, parse_preset_from, preset_options_start, is_preset_flag, set_preset_value, take_one_value_spec,
    plan_matches_preset, preset_resize_spec, resize_from_preset_spec, update_preset_spec, views,
};
use crate::models::{ConversionRequest, ResizeOptions, stored_name_spec};
use crate::pipeline::{input_extension_problem, request_problem};
use crate::paths::extension_spec;
use crate::magic::{preset_run_problem, preset_run_resize};
use crate::models::ConversionImageInput;
use crate::opened::queued;
use crate::magic::dedup_first;
use crate::models::{ConversionPreset, SavePresetRequestView};
use crate::presets::{normalize_spec, statistics_params_spec};
use crate::db::SqlValue;
use crate::pipeline::ConversionTotals;
use crate::text::{
    ascii_lower, is_whitespace_spec, lemma_lower_trim_idempotent, lemma_trim_by_ends, lemma_trim_by_fixed,
    lemma_trim_by_subrange, lemma_trim_idempotent, trim_by, trim_spec,
};
use crate::pipeline::{
    base_name_spec, reserved_contains, resize_dimensions_spec, round_div, sanitize_char_spec, sanitize_spec,
};
use crate::models::{ExportFormat, format_from_value_spec, label_spec};

verus! {

/// Resizing to a width keeps the aspect ratio: the new height is the
/// source's height scaled by the same factor as the width, off by at most
/// half a pixel (when the scaled height is at least one and fits in a `u32`).
pub proof fn law_width_resize_keeps_aspect_ratio(source_width: u32, source_height: u32, width: u32)
    requires
        source_width > 0,
        width > 0,
        1 <= round_div(source_height as nat * width as nat, source_width as nat) <= u32::MAX,
    ensures
        ({
            let (w, h) = resize_dimensions_spec(source_width, source_height, Some(width), None);
            &&& w == width
            &&& 2 * h * source_width <= 2 * source_height * width + source_width
            &&& 2 * source_height * width < 2 * h * source_width + source_width
        }),
{
    let a = source_height as nat * width as nat;
    let b = source_width as nat;
    lemma_round_div_bounds(a, b);
    let h = round_div(a, b);
    assert(crate::pipeline::scaled_side(source_height as nat, width as nat, source_width as nat) == h);
    assert(resize_dimensions_spec(source_width, source_height, Some(width), None) == (width as nat, h));
    assert(2 * h * b <= 2 * a + b);
    assert(2 * a + b < 2 * h * b + 2 * b);
    assert(2 * source_height * width == 2 * a) by (nonlinear_arith)
        requires
            a == source_height as nat * width as nat,
    ;
}

/// Resizing to a height keeps the aspect ratio: the new width is the
/// source's width scaled by the same factor as the height, off by at most
/// half a pixel (when the scaled width is at least one and fits in a `u32`).
pub proof fn law_height_resize_keeps_aspect_ratio(source_width: u32, source_height: u32, height: u32)
    requires
        source_height > 0,
        height > 0,
        1 <= round_div(source_width as nat * height as nat, source_height as nat) <= u32::MAX,
    ensures
        ({
            let (w, h) = resize_dimensions_spec(source_width, source_height, None, Some(height));
            &&& h == height
            &&& 2 * w * source_height <= 2 * source_width * height + source_height
            &&& 2 * source_width * height < 2 * w * source_height + source_height
        }),
{
    let a = source_width as nat * height as nat;
    let b = source_height as nat;
    lemma_round_div_bounds(a, b);
    let w = round_div(a, b);
    assert(crate::pipeline::scaled_side(source_width as nat, height as nat, source_height as nat) == w);
    assert(resize_dimensions_spec(source_width, source_height, None, Some(height)) == (w, height as nat));
    assert(2 * w * b <= 2 * a + b);
    assert(2 * a + b < 2 * w * b + 2 * b);
    assert(2 * source_width * height == 2 * a) by (nonlinear_arith)
        requires
            a == source_width as nat * height as nat,
    ;
}

proof fn lemma_round_div_bounds(a: nat, b: nat)
    requires
        b > 0,
    ensures
        2 * round_div(a, b) * b <= 2 * a + b,
        2 * a + b < 2 * round_div(a, b) * b + 2 * b,
{
    let q = (2 * a + b) / (2 * b);
    let r = (2 * a + b) % (2 * b);
    vstd::arithmetic::div_mod::lemma_fundamental_div_mod((2 * a + b) as int, (2 * b) as int);
    assert(0 <= r < 2 * b);
    assert(2 * a + b == 2 * b * q + r);
    assert(2 * q * b == 2 * b * q) by (nonlinear_arith);
}

/// Whether no two paths in a list are the same.
pub open spec fn distinct_paths(paths: Seq<String>) -> bool {
    forall|i: int, j: int| 0 <= i < j < paths.len() ==> paths[i]@ != paths[j]@
}

/// A batch never writes two outputs to one path: every output path is taken
/// only when it is not taken yet (as `next_available_output_path` and
/// `reserve_checked_output_path` ensure), so the taken paths stay distinct.
pub proof fn law_batch_paths_stay_distinct(taken: Seq<String>, path: String)
    requires
        distinct_paths(taken),
        !reserved_contains(taken, path@),
    ensures
        distinct_paths(taken.push(path)),
{
    let t = taken.push(path);
    assert forall|i: int, j: int| 0 <= i < j < t.len() implies t[i]@ != t[j]@ by {
        if j == taken.len() {
            assert(t[i] == taken[i]);
        } else {
            assert(t[i] == taken[i] && t[j] == taken[j]);
        }
    }
}

/// Presets with the same filename mode whose prefixes (or postfixes) differ
/// once sanitized give every source image different output names.
pub proof fn law_distinct_markers_separate_outputs(
    first: Seq<char>,
    second: Seq<char>,
    mode: Seq<char>,
    source: Seq<char>,
)
    requires
        sanitize_spec(first) != sanitize_spec(second),
    ensures
        base_name_spec(first, mode, source) != base_name_spec(second, mode, source),
{
    let c1 = sanitize_spec(first);
    let c2 = sanitize_spec(second);
    let stem = match crate::paths::file_stem_spec(source) {
        Some(s) => s,
        None => "image"@,
    };
    let st = sanitize_spec(stem);
    let name = if st.len() == 0 {
        "image"@
    } else {
        st
    };
    let b1 = base_name_spec(first, mode, source);
    let b2 = base_name_spec(second, mode, source);
    assert(b1.len() == name.len() + c1.len());
    assert(b2.len() == name.len() + c2.len());
    if b1 == b2 {
        assert(c1.len() == c2.len());
        let n = name.len() as int;
        if c1.len() > 0 {
            if mode == "postfix"@ {
                assert(c1 =~= b1.subrange(n, b1.len() as int));
                assert(c2 =~= b2.subrange(n, b2.len() as int));
            } else {
                assert(c1 =~= b1.subrange(0, c1.len() as int));
                assert(c2 =~= b2.subrange(0, c2.len() as int));
            }
        } else {
            assert(c1 =~= c2);
        }
    }
}

/// Whether a sequence holds no item twice.
pub open spec fn no_repeats<A>(s: Seq<A>) -> bool {
    forall|i: int, j: int| 0 <= i < j < s.len() ==> s[i] != s[j]
}

/// The formats and presets of a saved magic directory are those of the
/// request, each kept once: deduplication leaves no repeats and drops no item.
pub proof fn law_dedup_keeps_each_item_once<A>(s: Seq<A>)
    ensures
        no_repeats(dedup_first(s)),
        forall|x: A| dedup_first(s).contains(x) <==> s.contains(x),
    decreases s.len(),
{
    assert forall|x: A| dedup_first(s).contains(x) <==> s.contains(x) by {
        crate::magic::lemma_dedup_contains(s, x);
    }
    if s.len() > 0 {
        law_dedup_keeps_each_item_once(s.drop_last());
        let d = dedup_first(s.drop_last());
        if !d.contains(s.last()) {
            let e = d.push(s.last());
            assert forall|i: int, j: int| 0 <= i < j < e.len() implies e[i] != e[j] by {
                if j == d.len() {
                    assert(e[i] == d[i]);
                    if e[i] == e[j] {
                        assert(d.contains(s.last()));
                    }
                } else {
                    assert(e[i] == d[i] && e[j] == d[j]);
                }
            }
        }
    }
}

/// Updating a preset changes only the values that were passed: the id and
/// name stay, and each setting without its flag keeps its stored value.
pub proof fn law_update_changes_only_passed_values(o: PresetOptionsView, existing: ConversionPreset)
    requires
        update_preset_spec(o, existing) is Ok,
    ensures
        ({
            let q = update_preset_spec(o, existing)->Ok_0;
            &&& q.id == Some(existing.id)
            &&& q.name == existing.name@
            &&& o.format is None ==> q.format == existing.format@
            &&& o.width is None && o.height is None ==> q.resize_mode == existing.resize_mode@
                && q.width == existing.width && q.height == existing.height
            &&& o.quality is None ==> q.quality == existing.quality
            &&& o.output_dir is None ==> q.output_directory == existing.output_directory@
            &&& o.prefix is None && o.postfix is None ==> q.filename_mode
                == existing.filename_mode@ && q.filename_component == existing.filename_component@
        }),
{
}

/// Normalizing a preset request twice is normalizing it once: a stored
/// preset saved again unchanged is stored as it was.
pub proof fn law_normalize_is_idempotent(r: SavePresetRequestView)
    ensures
        normalize_spec(normalize_spec(r)) == normalize_spec(r),
{
    lemma_trim_idempotent(r.name);
    lemma_trim_idempotent(r.output_directory);
    lemma_lower_trim_idempotent(r.format);
    lemma_lower_trim_idempotent(r.resize_mode);
    lemma_lower_trim_idempotent(r.filename_mode);
    assert(normalize_spec(normalize_spec(r)) =~= normalize_spec(r));
}

/// A conversion with presets takes its settings from the presets alone:
/// two command lines with the same inputs and presets give plans that agree
/// on everything the run uses, whatever output folder, size, format,
/// quality, prefix, postfix or overwrite flag they also name.
pub proof fn law_preset_run_ignores_direct_options(
    first: ConvertOptionsView,
    second: ConvertOptionsView,
    preset: ConversionPreset,
    first_plan: ConversionPlan,
    second_plan: ConversionPlan,
)
    requires
        first.inputs == second.inputs,
        plan_matches_preset(first_plan, preset, first.inputs),
        plan_matches_preset(second_plan, preset, second.inputs),
    ensures
        views(first_plan.request.images@.map_values(|i: ConversionImageInput| i.path)) == views(
            second_plan.request.images@.map_values(|i: ConversionImageInput| i.path),
        ),
        first_plan.request.format == second_plan.request.format,
        first_plan.request.resize.width == second_plan.request.resize.width,
        first_plan.request.resize.height == second_plan.request.resize.height,
        first_plan.request.quality == second_plan.request.quality,
        first_plan.request.filename_component@ == second_plan.request.filename_component@,
        first_plan.request.filename_mode@ == second_plan.request.filename_mode@,
        first_plan.request.output_dir@ == second_plan.request.output_dir@,
        first_plan.request.collision_mode == second_plan.request.collision_mode,
        first_plan.input_format@ == second_plan.input_format@,
        first_plan.output_format@ == second_plan.output_format@,
        first_plan.output_folder@ == second_plan.output_folder@,
{
}

/// The queue of files opened before the window is ready never holds a file
/// twice: adding files to a queue without repeats leaves none.
pub proof fn law_opened_queue_keeps_no_duplicates(pending: Seq<Seq<char>>, paths: Seq<Seq<char>>)
    requires
        no_repeats(pending),
    ensures
        no_repeats(queued(pending, paths)),
    decreases paths.len(),
{
    if paths.len() > 0 {
        law_opened_queue_keeps_no_duplicates(pending, paths.drop_last());
        let before = queued(pending, paths.drop_last());
        if !before.contains(paths.last()) {
            let after = before.push(paths.last());
            assert forall|i: int, j: int| 0 <= i < j < after.len() implies after[i] != after[j] by {
                if j == before.len() {
                    assert(after[i] == before[i]);
                    if after[i] == after[j] {
                        assert(before.contains(paths.last()));
                    }
                } else {
                    assert(after[i] == before[i] && after[j] == before[j]);
                }
            }
        }
    }
}

/// Sanitizing a file name part twice gives what sanitizing it once gives,
/// for a part whose only white space is ASCII white space.
pub proof fn law_sanitize_idempotent(s: Seq<char>)
    requires
        forall|i: int| 0 <= i < s.len() && is_whitespace_spec(#[trigger] s[i]) ==> (s[i] as u32) < 0x80,
    ensures
        sanitize_spec(sanitize_spec(s)) == sanitize_spec(s),
{
    let t = trim_spec(s);
    let m = t.map_values(|c: char| sanitize_char_spec(c));
    let x = sanitize_spec(s);
    lemma_trim_by_subrange(s, false);
    let (a, b) = choose|a: int, b: int| 0 <= a <= b <= s.len() && trim_by(s, false) == s.subrange(a, b);
    lemma_trim_by_subrange(m, true);
    let (c, d) = choose|c: int, d: int| 0 <= c <= d <= m.len() && trim_by(m, true) == m.subrange(c, d);
    // Each character of `x` is a sanitized character of `s`.
    assert forall|i: int| 0 <= i < x.len() implies #[trigger] x[i] == sanitize_char_spec(s[a + c + i]) by {
        assert(x[i] == m[c + i]);
        assert(m[c + i] == sanitize_char_spec(t[c + i]));
        assert(t[c + i] == s[a + c + i]);
    }
    assert forall|i: int| 0 <= i < x.len() implies sanitize_char_spec(#[trigger] x[i]) == x[i] by {
        assert(x[i] == sanitize_char_spec(s[a + c + i]));
    }
    lemma_trim_by_ends(m, true);
    if x.len() > 0 {
        let first = s[a + c];
        let last = s[a + c + x.len() - 1];
        assert(x[0] == sanitize_char_spec(first));
        assert(x.last() == sanitize_char_spec(last));
        assert(!is_whitespace_spec(x[0]));
        assert(!is_whitespace_spec(x.last()));
    }
    lemma_trim_by_fixed(x, false);
    assert(trim_spec(x) == x);
    assert(x.map_values(|c: char| sanitize_char_spec(c)) =~= x);
    lemma_trim_by_fixed(x, true);
}

/// A format's label, read back as a format name, gives the format.
pub proof fn law_label_names_its_format(f: ExportFormat)
    ensures
        format_from_value_spec(label_spec(f)) == Some(f),
{
    reveal_strlit("JPEG");
    reveal_strlit("PNG");
    reveal_strlit("WEBP");
    reveal_strlit("AVIF");
    reveal_strlit("jpeg");
    reveal_strlit("png");
    reveal_strlit("webp");
    reveal_strlit("avif");
    reveal_strlit("jpg");
    let l = label_spec(f);
    lemma_trim_by_fixed(l, false);
    assert(trim_spec(l) == l);
    match f {
        ExportFormat::Jpeg => {
            assert(ascii_lower(l) =~= "jpeg"@);
        },
        ExportFormat::Png => {
            assert(ascii_lower(l) =~= "png"@);
            assert("png"@[0] != "jpeg"@[0] && "png"@[0] != "jpg"@[0]);
        },
        ExportFormat::Webp => {
            assert(ascii_lower(l) =~= "webp"@);
            assert("webp"@[0] != "jpeg"@[0] && "webp"@[0] != "jpg"@[0] && "webp"@[0] != "png"@[0]);
        },
        ExportFormat::Avif => {
            assert(ascii_lower(l) =~= "avif"@);
            assert("avif"@[0] != "jpeg"@[0] && "avif"@[0] != "jpg"@[0] && "avif"@[0] != "png"@[0]
                && "avif"@[0] != "webp"@[0]);
        },
    }
}

/// What a batch adds to the statistics is never negative: every value
/// bound to the statistics update is an integer of at least zero, so the
/// counters, which start at zero, only grow.
pub proof fn law_statistics_increments_are_not_negative(params: Seq<SqlValue>, totals: ConversionTotals, processing_time_ms: u128)
    requires
        statistics_params_spec(params, totals, processing_time_ms),
    ensures
        forall|i: int| 0 <= i < params.len() ==> (#[trigger] params[i] matches SqlValue::Integer(v) && v >= 0),
{
    assert forall|i: int| 0 <= i < params.len() implies (#[trigger] params[i] matches SqlValue::Integer(v) && v >= 0) by {
        assert(0 <= i < 4);
    }
}

/// A conversion request is accepted exactly when it has images, a
/// non-blank output folder, a quality in 1..=100, and at most one resize
/// target, which lies in 1..=9999. So a request that resizes by width alone
/// or by height alone is accepted, and "not both" is the answer only when
/// both a width and a height are given.
pub proof fn law_conversion_request_accepted_when_valid(request: ConversionRequest)
    ensures
        request_problem(request) is None <==> {
            &&& request.images@.len() > 0
            &&& trim_spec(request.output_dir@).len() > 0
            &&& 1 <= request.quality <= 100
            &&& !(request.resize.width is Some && request.resize.height is Some)
            &&& request.resize.width matches Some(w) ==> 1 <= w <= 9999
            &&& request.resize.height matches Some(h) ==> 1 <= h <= 9999
        },
        request_problem(request) == Some("Enter either width or height, not both."@) ==> (
        request.resize.width is Some && request.resize.height is Some),
        request_problem(request) == Some("Width must be between 1 and 9999."@) ==> (request.resize.width matches Some(
            w,
        ) && !(1 <= w <= 9999)),
        request_problem(request) == Some("Height must be between 1 and 9999."@) ==> (
        request.resize.height matches Some(h) && !(1 <= h <= 9999)),
        request_problem(request) == Some("Quality must be between 1 and 100."@) ==> !(1 <= request.quality
            <= 100),
        request_problem(request) == Some("Add at least one image before converting."@) ==> request.images@.len()
            == 0,
        request_problem(request) == Some("Choose an output folder before converting."@) ==> trim_spec(
            request.output_dir@,
        ).len() == 0,
{
    reveal_strlit("Add at least one image before converting.");
    reveal_strlit("Choose an output folder before converting.");
    reveal_strlit("Width must be between 1 and 9999.");
    reveal_strlit("Height must be between 1 and 9999.");
    reveal_strlit("Enter either width or height, not both.");
    reveal_strlit("Quality must be between 1 and 100.");
    let e = "Enter either width or height, not both."@;
    assert("Add at least one image before converting."@[0] != e[0]);
    assert("Choose an output folder before converting."@[0] != e[0]);
    assert("Width must be between 1 and 9999."@[0] != e[0]);
    assert("Height must be between 1 and 9999."@[0] != e[0]);
    assert("Quality must be between 1 and 100."@[0] != e[0]);
    let msgs = seq![
        "Add at least one image before converting."@,
        "Choose an output folder before converting."@,
        "Width must be between 1 and 9999."@,
        "Height must be between 1 and 9999."@,
        "Quality must be between 1 and 100."@,
    ];
    assert forall|a: int, b: int| 0 <= a < b < 5 implies msgs[a] != msgs[b] by {
        assert(msgs[a][0] != msgs[b][0]);
    }
}

/// An input path is accepted exactly when it has an extension that,
/// ASCII-lowercased, is one of jpg, jpeg, png, webp, avif and svg.
pub proof fn law_input_accepted_for_image_extensions(path: Seq<char>)
    ensures
        input_extension_problem(path) is None <==> (extension_spec(path) matches Some(e) && {
            let l = ascii_lower(e);
            ||| l == "jpg"@
            ||| l == "jpeg"@
            ||| l == "png"@
            ||| l == "webp"@
            ||| l == "avif"@
            ||| l == "svg"@
        }),
{
}

/// Updating a preset applies every value passed, and keeps what was not
/// passed: the output folder, format, quality, resize and file name part of
/// the request are the passed ones (as read by the option parsers), else
/// the stored preset's. The update succeeds exactly when each passed value
/// can be read.
pub proof fn law_preset_update_applies_passed_values(o: PresetOptionsView, existing: ConversionPreset)
    ensures
        update_preset_spec(o, existing) is Ok <==> {
            &&& o.format matches Some(f) ==> parse_format_spec(f) is Ok
            &&& (o.width is Some || o.height is Some) ==> preset_resize_spec(o.width, o.height) is Ok
            &&& o.quality matches Some(v) ==> parse_quality_spec(v) is Ok
            &&& (o.prefix is Some || o.postfix is Some) ==> filename_options_spec(o.prefix, o.postfix) is Ok
        },
        update_preset_spec(o, existing) matches Ok(q) ==> {
            &&& q.id == Some(existing.id)
            &&& q.name == existing.name@
            &&& q.output_directory == (match o.output_dir {
                Some(d) => d,
                None => existing.output_directory@,
            })
            &&& q.format == (match o.format {
                Some(f) => stored_name_spec(parse_format_spec(f)->Ok_0),
                None => existing.format@,
            })
            &&& q.quality == (match o.quality {
                Some(v) => parse_quality_spec(v)->Ok_0,
                None => existing.quality,
            })
            &&& (q.resize_mode, q.width, q.height) == (if o.width is Some || o.height is Some {
                preset_resize_spec(o.width, o.height)->Ok_0
            } else {
                (existing.resize_mode@, existing.width, existing.height)
            })
            &&& (q.filename_mode, q.filename_component) == (if o.prefix is Some || o.postfix is Some {
                filename_options_spec(o.prefix, o.postfix)->Ok_0
            } else {
                (existing.filename_mode@, existing.filename_component@)
            })
        },
{
}

/// A preset run on a new image resizes as the preset says: in `width` mode
/// to the preset's width (no height), in `height` mode to its height (no
/// width), and only in `none` mode keeps the size. This is the resize that
/// the command line's preset runs take from the same preset.
pub proof fn law_preset_run_resizes_as_the_preset_says(preset: ConversionPreset)
    requires
        preset_run_problem(preset) is None,
    ensures
        preset.resize_mode@ == "width"@ ==> preset_run_resize(preset) == (ResizeOptions {
            width: preset.width,
            height: None,
        }),
        preset.resize_mode@ == "height"@ ==> preset_run_resize(preset) == (ResizeOptions {
            width: None,
            height: preset.height,
        }),
        preset.resize_mode@ == "none"@ ==> preset_run_resize(preset) == (ResizeOptions {
            width: None,
            height: None,
        }),
        resize_from_preset_spec(preset) == Ok::<(Option<u32>, Option<u32>), Seq<char>>(
            (preset_run_resize(preset).width, preset_run_resize(preset).height),
        ),
{
    reveal_strlit("width");
    reveal_strlit("height");
    reveal_strlit("none");
    assert("width"@[0] != "height"@[0]);
    assert("width"@[0] != "none"@[0]);
    assert("height"@[0] != "none"@[0]);
}

/// The argument that follows the last `flag` in `args`, or `d` where no
/// `flag` is followed by an argument.
pub open spec fn last_flag_value(args: Seq<Seq<char>>, flag: Seq<char>, d: Option<Seq<char>>) -> Option<Seq<char>>
    decreases args.len(),
{
    if args.len() < 2 {
        d
    } else if args[args.len() - 2] == flag {
        Some(args.last())
    } else {
        last_flag_value(args.drop_last(), flag, d)
    }
}

/// The option that a one-value flag of `bulkpixel convert` names.
pub open spec fn convert_option_named(o: ConvertOptionsView, flag: Seq<char>) -> Option<Seq<char>> {
    if flag == "--output-dir"@ {
        o.output_dir
    } else if flag == "--width"@ {
        o.width
    } else if flag == "--height"@ {
        o.height
    } else if flag == "--format"@ {
        o.format
    } else if flag == "--quality"@ {
        o.quality
    } else if flag == "--prefix"@ {
        o.prefix
    } else {
        o.postfix
    }
}

/// The flags of the command line are different texts, and they all start
/// with `--`.
proof fn lemma_flags_distinct()
    ensures
        "--input"@ != "--preset"@,
        "--input"@ != "--output-dir"@,
        "--input"@ != "--width"@,
        "--input"@ != "--height"@,
        "--input"@ != "--format"@,
        "--input"@ != "--quality"@,
        "--input"@ != "--prefix"@,
        "--input"@ != "--postfix"@,
        "--input"@ != "--overwrite"@,
        "--input"@ != "--silent"@,
        "--input"@ != "--name"@,
        "--preset"@ != "--output-dir"@,
        "--preset"@ != "--width"@,
        "--preset"@ != "--height"@,
        "--preset"@ != "--format"@,
        "--preset"@ != "--quality"@,
        "--preset"@ != "--prefix"@,
        "--preset"@ != "--postfix"@,
        "--preset"@ != "--overwrite"@,
        "--preset"@ != "--silent"@,
        "--preset"@ != "--name"@,
        "--output-dir"@ != "--width"@,
        "--output-dir"@ != "--height"@,
        "--output-dir"@ != "--format"@,
        "--output-dir"@ != "--quality"@,
        "--output-dir"@ != "--prefix"@,
        "--output-dir"@ != "--postfix"@,
        "--output-dir"@ != "--overwrite"@,
        "--output-dir"@ != "--silent"@,
        "--output-dir"@ != "--name"@,
        "--width"@ != "--height"@,
        "--width"@ != "--format"@,
        "--width"@ != "--quality"@,
        "--width"@ != "--prefix"@,
        "--width"@ != "--postfix"@,
        "--width"@ != "--overwrite"@,
        "--width"@ != "--silent"@,
        "--width"@ != "--name"@,
        "--height"@ != "--format"@,
        "--height"@ != "--quality"@,
        "--height"@ != "--prefix"@,
        "--height"@ != "--postfix"@,
        "--height"@ != "--overwrite"@,
        "--height"@ != "--silent"@,
        "--height"@ != "--name"@,
        "--format"@ != "--quality"@,
        "--format"@ != "--prefix"@,
        "--format"@ != "--postfix"@,
        "--format"@ != "--overwrite"@,
        "--format"@ != "--silent"@,
        "--format"@ != "--name"@,
        "--quality"@ != "--prefix"@,
        "--quality"@ != "--postfix"@,
        "--quality"@ != "--overwrite"@,
        "--quality"@ != "--silent"@,
        "--quality"@ != "--name"@,
        "--prefix"@ != "--postfix"@,
        "--prefix"@ != "--overwrite"@,
        "--prefix"@ != "--silent"@,
        "--prefix"@ != "--name"@,
        "--postfix"@ != "--overwrite"@,
        "--postfix"@ != "--silent"@,
        "--postfix"@ != "--name"@,
        "--overwrite"@ != "--silent"@,
        "--overwrite"@ != "--name"@,
        "--silent"@ != "--name"@,
        is_flag("--input"@),
        is_flag("--preset"@),
        is_flag("--output-dir"@),
        is_flag("--width"@),
        is_flag("--height"@),
        is_flag("--format"@),
        is_flag("--quality"@),
        is_flag("--prefix"@),
        is_flag("--postfix"@),
        is_flag("--overwrite"@),
        is_flag("--silent"@),
        is_flag("--name"@),
{
    reveal_strlit("--input");
    reveal_strlit("--preset");
    reveal_strlit("--output-dir");
    reveal_strlit("--width");
    reveal_strlit("--height");
    reveal_strlit("--format");
    reveal_strlit("--quality");
    reveal_strlit("--prefix");
    reveal_strlit("--postfix");
    reveal_strlit("--overwrite");
    reveal_strlit("--silent");
    reveal_strlit("--name");
    assert("--input"@[2] != "--preset"@[2]);
    assert("--input"@[2] != "--output-dir"@[2]);
    assert("--input"@[2] != "--width"@[2]);
    assert("--input"@[2] != "--height"@[2]);
    assert("--input"@[2] != "--format"@[2]);
    assert("--input"@[2] != "--quality"@[2]);
    assert("--input"@[2] != "--prefix"@[2]);
    assert("--input"@[2] != "--postfix"@[2]);
    assert("--input"@[2] != "--overwrite"@[2]);
    assert("--input"@[2] != "--silent"@[2]);
    assert("--input"@[2] != "--name"@[2]);
    assert("--preset"@[2] != "--output-dir"@[2]);
    assert("--preset"@[2] != "--width"@[2]);
    assert("--preset"@[2] != "--height"@[2]);
    assert("--preset"@[2] != "--format"@[2]);
    assert("--preset"@[2] != "--quality"@[2]);
    assert("--preset"@[5] != "--prefix"@[5]);
    assert("--preset"@[3] != "--postfix"@[3]);
    assert("--preset"@[2] != "--overwrite"@[2]);
    assert("--preset"@[2] != "--silent"@[2]);
    assert("--preset"@[2] != "--name"@[2]);
    assert("--output-dir"@[2] != "--width"@[2]);
    assert("--output-dir"@[2] != "--height"@[2]);
    assert("--output-dir"@[2] != "--format"@[2]);
    assert("--output-dir"@[2] != "--quality"@[2]);
    assert("--output-dir"@[2] != "--prefix"@[2]);
    assert("--output-dir"@[2] != "--postfix"@[2]);
    assert("--output-dir"@[3] != "--overwrite"@[3]);
    assert("--output-dir"@[2] != "--silent"@[2]);
    assert("--output-dir"@[2] != "--name"@[2]);
    assert("--width"@[2] != "--height"@[2]);
    assert("--width"@[2] != "--format"@[2]);
    assert("--width"@[2] != "--quality"@[2]);
    assert("--width"@[2] != "--prefix"@[2]);
    assert("--width"@[2] != "--postfix"@[2]);
    assert("--width"@[2] != "--overwrite"@[2]);
    assert("--width"@[2] != "--silent"@[2]);
    assert("--width"@[2] != "--name"@[2]);
    assert("--height"@[2] != "--format"@[2]);
    assert("--height"@[2] != "--quality"@[2]);
    assert("--height"@[2] != "--prefix"@[2]);
    assert("--height"@[2] != "--postfix"@[2]);
    assert("--height"@[2] != "--overwrite"@[2]);
    assert("--height"@[2] != "--silent"@[2]);
    assert("--height"@[2] != "--name"@[2]);
    assert("--format"@[2] != "--quality"@[2]);
    assert("--format"@[2] != "--prefix"@[2]);
    assert("--format"@[2] != "--postfix"@[2]);
    assert("--format"@[2] != "--overwrite"@[2]);
    assert("--format"@[2] != "--silent"@[2]);
    assert("--format"@[2] != "--name"@[2]);
    assert("--quality"@[2] != "--prefix"@[2]);
    assert("--quality"@[2] != "--postfix"@[2]);
    assert("--quality"@[2] != "--overwrite"@[2]);
    assert("--quality"@[2] != "--silent"@[2]);
    assert("--quality"@[2] != "--name"@[2]);
    assert("--prefix"@[3] != "--postfix"@[3]);
    assert("--prefix"@[2] != "--overwrite"@[2]);
    assert("--prefix"@[2] != "--silent"@[2]);
    assert("--prefix"@[2] != "--name"@[2]);
    assert("--postfix"@[2] != "--overwrite"@[2]);
    assert("--postfix"@[2] != "--silent"@[2]);
    assert("--postfix"@[2] != "--name"@[2]);
    assert("--overwrite"@[2] != "--silent"@[2]);
    assert("--overwrite"@[2] != "--name"@[2]);
    assert("--silent"@[2] != "--name"@[2]);
    assert("--input"@[0] == '-' && "--input"@[1] == '-');
    assert("--preset"@[0] == '-' && "--preset"@[1] == '-');
    assert("--output-dir"@[0] == '-' && "--output-dir"@[1] == '-');
    assert("--width"@[0] == '-' && "--width"@[1] == '-');
    assert("--height"@[0] == '-' && "--height"@[1] == '-');
    assert("--format"@[0] == '-' && "--format"@[1] == '-');
    assert("--quality"@[0] == '-' && "--quality"@[1] == '-');
    assert("--prefix"@[0] == '-' && "--prefix"@[1] == '-');
    assert("--postfix"@[0] == '-' && "--postfix"@[1] == '-');
    assert("--overwrite"@[0] == '-' && "--overwrite"@[1] == '-');
    assert("--silent"@[0] == '-' && "--silent"@[1] == '-');
    assert("--name"@[0] == '-' && "--name"@[1] == '-');
}

proof fn lemma_value_run_holds_no_flag(args: Seq<Seq<char>>, j: int)
    requires
        0 <= j,
    ensures
        j <= value_run_end(args, j),
        j <= args.len() ==> value_run_end(args, j) <= args.len(),
        forall|k: int| j <= k < value_run_end(args, j) ==> !is_flag(#[trigger] args[k]),
    decreases args.len() - j,
{
    if !(j >= args.len() || is_flag(args[j])) {
        lemma_value_run_holds_no_flag(args, j + 1);
    }
}

proof fn lemma_last_flag_value_extend(args: Seq<Seq<char>>, j: int, flag: Seq<char>, d: Option<Seq<char>>)
    requires
        0 <= j < args.len(),
    ensures
        last_flag_value(args.subrange(0, j + 1), flag, d) == (if j >= 1 && args[j - 1] == flag {
            Some(args[j])
        } else {
            last_flag_value(args.subrange(0, j), flag, d)
        }),
{
    let t = args.subrange(0, j + 1);
    assert(t.drop_last() =~= args.subrange(0, j));
    if j >= 1 {
        assert(t[t.len() - 2] == args[j - 1]);
        assert(t.last() == args[j]);
    } else {
        assert(args.subrange(0, 0).len() == 0);
    }
}

proof fn lemma_last_flag_value_skip(args: Seq<Seq<char>>, i: int, n: int, flag: Seq<char>, d: Option<Seq<char>>)
    requires
        0 <= i <= n <= args.len(),
        forall|k: int| i - 1 <= k < n - 1 && 0 <= k ==> #[trigger] args[k] != flag,
    ensures
        last_flag_value(args.subrange(0, n), flag, d) == last_flag_value(args.subrange(0, i), flag, d),
    decreases n - i,
{
    if n > i {
        lemma_last_flag_value_skip(args, i, n - 1, flag, d);
        lemma_last_flag_value_extend(args, n - 1, flag, d);
        if n - 1 >= 1 {
            assert(args[n - 2] != flag);
        }
    }
}

proof fn lemma_convert_step_tracks(
    args: Seq<Seq<char>>,
    i: int,
    acc: ConvertOptionsView,
    flag: Seq<char>,
    d: Option<Seq<char>>,
    next: ConvertOptionsView,
    n: int,
)
    requires
        0 <= i < args.len(),
        convert_flag_step(args, i, acc) == Ok::<(ConvertOptionsView, int), Seq<char>>((next, n)),
        is_convert_value_flag(flag),
        convert_option_named(acc, flag) == last_flag_value(args.subrange(0, i), flag, d),
        i > 0 ==> args[i - 1] != flag,
    ensures
        i < n <= args.len(),
        convert_option_named(next, flag) == last_flag_value(args.subrange(0, n), flag, d),
        args[n - 1] != flag,
{
    lemma_flags_distinct();
    assert(is_flag(flag));
    let a = args[i];
    lemma_value_run_holds_no_flag(args, i + 1);
    let end = value_run_end(args, i + 1);
    if a == "--input"@ || a == "--preset"@ {
        assert(end > i + 1);
        assert(n == end);
        assert(convert_option_named(next, flag) == convert_option_named(acc, flag));
        assert forall|k: int| i - 1 <= k < n - 1 && 0 <= k implies #[trigger] args[k] != flag by {
            if k >= i + 1 {
                assert(!is_flag(args[k]));
            }
        }
        lemma_last_flag_value_skip(args, i, n, flag, d);
        assert(!is_flag(args[n - 1]));
    } else if is_convert_value_flag(a) {
        assert(end == i + 2);
        assert(n == i + 2);
        let v = args[i + 1];
        assert(args.subrange(i + 1, end)[0] == v);
        assert(next == set_convert_value(acc, a, v));
        lemma_last_flag_value_skip(args, i, i + 1, flag, d);
        lemma_last_flag_value_extend(args, i + 1, flag, d);
        assert(!is_flag(args[i + 1]));
        if a == flag {
            assert(convert_option_named(next, flag) == Some(v));
        } else {
            assert(convert_option_named(next, flag) == convert_option_named(acc, flag));
        }
    } else {
        assert(a == "--overwrite"@ || a == "--silent"@);
        assert(n == i + 1);
        assert(convert_option_named(next, flag) == convert_option_named(acc, flag));
        lemma_last_flag_value_skip(args, i, i + 1, flag, d);
    }
}

proof fn lemma_convert_parse_tracks(
    args: Seq<Seq<char>>,
    i: int,
    acc: ConvertOptionsView,
    flag: Seq<char>,
    d: Option<Seq<char>>,
    o: ConvertOptionsView,
)
    requires
        0 <= i <= args.len(),
        parse_convert_from(args, i, acc) == Ok::<ConvertOptionsView, Seq<char>>(o),
        is_convert_value_flag(flag),
        convert_option_named(acc, flag) == last_flag_value(args.subrange(0, i), flag, d),
        i > 0 ==> args[i - 1] != flag,
    ensures
        convert_option_named(o, flag) == last_flag_value(args, flag, d),
    decreases args.len() - i,
{
    if i >= args.len() {
        assert(args.subrange(0, i) =~= args);
    } else {
        match convert_flag_step(args, i, acc) {
            Ok((next, n)) => {
                lemma_convert_step_tracks(args, i, acc, flag, d, next, n);
                lemma_convert_parse_tracks(args, n, next, flag, d, o);
            },
            Err(_) => {},
        }
    }
}

/// The list that a many-value flag of `bulkpixel convert` names.
pub open spec fn convert_list_named(o: ConvertOptionsView, flag: Seq<char>) -> Seq<Seq<char>> {
    if flag == "--input"@ {
        o.inputs
    } else {
        o.preset_names
    }
}

/// Whether `values` are the arguments right after the one at `k`, up to the
/// next flag or the end.
pub open spec fn values_after(args: Seq<Seq<char>>, k: int, values: Seq<Seq<char>>) -> bool {
    &&& k + 1 + values.len() <= args.len()
    &&& forall|j: int| 0 <= j < values.len() ==> args[k + 1 + j] == #[trigger] values[j] && !is_flag(values[j])
    &&& (k + 1 + values.len() == args.len() || is_flag(args[k + 1 + values.len()]))
}

proof fn lemma_convert_parse_tracks_list(
    args: Seq<Seq<char>>,
    i: int,
    acc: ConvertOptionsView,
    flag: Seq<char>,
    o: ConvertOptionsView,
)
    requires
        0 <= i <= args.len(),
        parse_convert_from(args, i, acc) == Ok::<ConvertOptionsView, Seq<char>>(o),
        flag == "--input"@ || flag == "--preset"@,
        (forall|k: int| 0 <= k < i ==> args[k] != flag) ==> convert_list_named(acc, flag).len() == 0,
        forall|k: int|
            0 <= k < i && #[trigger] args[k] == flag && (forall|m: int| k < m < i ==> args[m] != flag)
                ==> values_after(args, k, convert_list_named(acc, flag)),
    ensures
        (forall|k: int| 0 <= k < args.len() ==> args[k] != flag) ==> convert_list_named(o, flag).len() == 0,
        forall|k: int|
            0 <= k < args.len() && #[trigger] args[k] == flag && (forall|m: int| k < m < args.len() ==> args[m] != flag)
                ==> values_after(args, k, convert_list_named(o, flag)),
    decreases args.len() - i,
{
    lemma_flags_distinct();
    assert(is_flag(flag));
    if i < args.len() {
        match convert_flag_step(args, i, acc) {
            Ok((next, n)) => {
                let a = args[i];
                lemma_value_run_holds_no_flag(args, i + 1);
                let end = value_run_end(args, i + 1);
                if a == "--input"@ || a == "--preset"@ {
                    assert(n == end && n > i + 1);
                } else if is_convert_value_flag(a) {
                    assert(end == i + 2 && n == i + 2);
                } else {
                    assert(n == i + 1);
                }
                assert(i < n <= args.len());
                assert forall|k: int| i + 1 <= k < n implies !is_flag(#[trigger] args[k]) by {}
                if a == flag {
                    let vs = args.subrange(i + 1, end);
                    assert(convert_list_named(next, flag) == vs);
                    assert(end == args.len() || is_flag(args[end]));
                    assert(values_after(args, i, vs)) by {
                        assert forall|j: int| 0 <= j < vs.len() implies args[i + 1 + j] == #[trigger] vs[j]
                            && !is_flag(vs[j]) by {
                            assert(!is_flag(args[i + 1 + j]));
                        }
                    }
                    assert forall|k: int|
                        0 <= k < n && #[trigger] args[k] == flag && (forall|m: int| k < m < n ==> args[m] != flag)
                            implies values_after(args, k, convert_list_named(next, flag)) by {
                        if k < i {
                            assert(args[i] == flag);
                        } else if k > i {
                            assert(!is_flag(args[k]));
                        }
                    }
                } else {
                    assert(convert_list_named(next, flag) == convert_list_named(acc, flag));
                    assert forall|k: int| 0 <= k < n && #[trigger] args[k] == flag && (forall|m: int|
                        k < m < n ==> args[m] != flag) implies values_after(
                        args,
                        k,
                        convert_list_named(next, flag),
                    ) by {
                        if k >= i + 1 {
                            assert(!is_flag(args[k]));
                        }
                    }
                    if forall|k: int| 0 <= k < n ==> args[k] != flag {
                        assert forall|k: int| 0 <= k < i implies args[k] != flag by {}
                    }
                    assert forall|k: int| i <= k < n implies args[k] != flag by {
                        if k > i {
                            assert(!is_flag(args[k]));
                        }
                    }
                }
                lemma_convert_parse_tracks_list(args, n, next, flag, o);
            },
            Err(_) => {},
        }
    }
}

/// The lists of `bulkpixel convert`: the inputs are the arguments that
/// follow the last `--input` up to the next flag, and the preset names
/// those that follow the last `--preset`; each is empty when its flag is
/// not given.
pub proof fn law_convert_lists_follow_their_flags(args: Seq<Seq<char>>)
    ensures
        parse_convert_from(args, 0, convert_options_start()) matches Ok(o) ==> {
            &&& (forall|k: int| 0 <= k < args.len() ==> args[k] != "--input"@) ==> o.inputs.len() == 0
            &&& forall|k: int|
                0 <= k < args.len() && #[trigger] args[k] == "--input"@ && (forall|m: int|
                    k < m < args.len() ==> args[m] != "--input"@) ==> values_after(args, k, o.inputs)
            &&& (forall|k: int| 0 <= k < args.len() ==> args[k] != "--preset"@) ==> o.preset_names.len() == 0
            &&& forall|k: int|
                0 <= k < args.len() && #[trigger] args[k] == "--preset"@ && (forall|m: int|
                    k < m < args.len() ==> args[m] != "--preset"@) ==> values_after(args, k, o.preset_names)
        },
{
    lemma_flags_distinct();
    let start = convert_options_start();
    if parse_convert_from(args, 0, start) is Ok {
        let o = parse_convert_from(args, 0, start)->Ok_0;
        lemma_convert_parse_tracks_list(args, 0, start, "--input"@, o);
        lemma_convert_parse_tracks_list(args, 0, start, "--preset"@, o);
    }
}

/// The switch that a no-value flag of `bulkpixel convert` names.
pub open spec fn convert_switch_named(o: ConvertOptionsView, flag: Seq<char>) -> bool {
    if flag == "--overwrite"@ {
        o.overwrite
    } else {
        o.silent
    }
}

proof fn lemma_convert_parse_tracks_switch(
    args: Seq<Seq<char>>,
    i: int,
    acc: ConvertOptionsView,
    flag: Seq<char>,
    o: ConvertOptionsView,
)
    requires
        0 <= i <= args.len(),
        parse_convert_from(args, i, acc) == Ok::<ConvertOptionsView, Seq<char>>(o),
        flag == "--overwrite"@ || flag == "--silent"@,
        convert_switch_named(acc, flag) == args.subrange(0, i).contains(flag),
    ensures
        convert_switch_named(o, flag) == args.contains(flag),
    decreases args.len() - i,
{
    lemma_flags_distinct();
    assert(is_flag(flag));
    if i >= args.len() {
        assert(args.subrange(0, i) =~= args);
    } else {
        match convert_flag_step(args, i, acc) {
            Ok((next, n)) => {
                let a = args[i];
                lemma_value_run_holds_no_flag(args, i + 1);
                let end = value_run_end(args, i + 1);
                if a == "--input"@ || a == "--preset"@ {
                    assert(n == end && n > i + 1);
                } else if is_convert_value_flag(a) {
                    assert(end == i + 2 && n == i + 2);
                } else {
                    assert(n == i + 1);
                }
                assert(i < n <= args.len());
                assert(convert_switch_named(next, flag) == (convert_switch_named(acc, flag) || a == flag));
                assert forall|k: int| i + 1 <= k < n implies #[trigger] args[k] != flag by {
                    assert(!is_flag(args[k]));
                }
                assert(args.subrange(0, n).contains(flag) == (args.subrange(0, i).contains(flag) || a == flag))
                    by {
                    if args.subrange(0, n).contains(flag) {
                        let k = choose|k: int| 0 <= k < n && args.subrange(0, n)[k] == flag;
                        if k < i {
                            assert(args.subrange(0, i)[k] == flag);
                        }
                    }
                    if args.subrange(0, i).contains(flag) {
                        let k = choose|k: int| 0 <= k < i && args.subrange(0, i)[k] == flag;
                        assert(args.subrange(0, n)[k] == flag);
                    }
                    if a == flag {
                        assert(args.subrange(0, n)[i] == flag);
                    }
                }
                lemma_convert_parse_tracks_switch(args, n, next, flag, o);
            },
            Err(_) => {},
        }
    }
}

/// The switches of `bulkpixel convert`: `--overwrite` is on exactly when it
/// is given, and `--silent` exactly when it is given.
pub proof fn law_convert_switches_follow_their_flags(args: Seq<Seq<char>>)
    ensures
        parse_convert_from(args, 0, convert_options_start()) matches Ok(o) ==> {
            &&& o.overwrite == args.contains("--overwrite"@)
            &&& o.silent == args.contains("--silent"@)
        },
{
    lemma_flags_distinct();
    let start = convert_options_start();
    if parse_convert_from(args, 0, start) is Ok {
        let o = parse_convert_from(args, 0, start)->Ok_0;
        assert(!args.subrange(0, 0).contains("--overwrite"@));
        assert(!args.subrange(0, 0).contains("--silent"@));
        lemma_convert_parse_tracks_switch(args, 0, start, "--overwrite"@, o);
        lemma_convert_parse_tracks_switch(args, 0, start, "--silent"@, o);
    }
}

/// Each one-value flag of `bulkpixel convert` sets exactly the option of
/// its own name: after parsing, each option is the argument that follows
/// the last of its flags, and its default (none, or `webp` and `100` for the
/// format and quality) when the flag is not given. So `--height` sets the
/// height and never the width, and the reverse.
pub proof fn law_convert_flags_set_their_own_options(args: Seq<Seq<char>>)
    ensures
        parse_convert_from(args, 0, convert_options_start()) matches Ok(o) ==> {
            &&& o.output_dir == last_flag_value(args, "--output-dir"@, None)
            &&& o.width == last_flag_value(args, "--width"@, None)
            &&& o.height == last_flag_value(args, "--height"@, None)
            &&& o.format == last_flag_value(args, "--format"@, Some("webp"@))
            &&& o.quality == last_flag_value(args, "--quality"@, Some("100"@))
            &&& o.prefix == last_flag_value(args, "--prefix"@, None)
            &&& o.postfix == last_flag_value(args, "--postfix"@, None)
        },
{
    lemma_flags_distinct();
    let start = convert_options_start();
    if parse_convert_from(args, 0, start) is Ok {
        let o = parse_convert_from(args, 0, start)->Ok_0;
        assert(args.subrange(0, 0).len() == 0);
        lemma_convert_parse_tracks(args, 0, start, "--output-dir"@, None, o);
        lemma_convert_parse_tracks(args, 0, start, "--width"@, None, o);
        lemma_convert_parse_tracks(args, 0, start, "--height"@, None, o);
        lemma_convert_parse_tracks(args, 0, start, "--format"@, Some("webp"@), o);
        lemma_convert_parse_tracks(args, 0, start, "--quality"@, Some("100"@), o);
        lemma_convert_parse_tracks(args, 0, start, "--prefix"@, None, o);
        lemma_convert_parse_tracks(args, 0, start, "--postfix"@, None, o);
    }
}

/// The option that a flag of `bulkpixel presets` names.
pub open spec fn preset_option_named(o: PresetOptionsView, flag: Seq<char>) -> Option<Seq<char>> {
    if flag == "--name"@ {
        o.name
    } else if flag == "--output-dir"@ {
        o.output_dir
    } else if flag == "--width"@ {
        o.width
    } else if flag == "--height"@ {
        o.height
    } else if flag == "--format"@ {
        o.format
    } else if flag == "--quality"@ {
        o.quality
    } else if flag == "--prefix"@ {
        o.prefix
    } else {
        o.postfix
    }
}

proof fn lemma_preset_parse_tracks(
    args: Seq<Seq<char>>,
    i: int,
    acc: PresetOptionsView,
    flag: Seq<char>,
    o: PresetOptionsView,
)
    requires
        0 <= i <= args.len(),
        parse_preset_from(args, i, acc) == Ok::<PresetOptionsView, Seq<char>>(o),
        is_preset_flag(flag),
        preset_option_named(acc, flag) == last_flag_value(args.subrange(0, i), flag, None),
        i > 0 ==> args[i - 1] != flag,
    ensures
        preset_option_named(o, flag) == last_flag_value(args, flag, None),
    decreases args.len() - i,
{
    lemma_flags_distinct();
    assert(is_flag(flag));
    if i >= args.len() {
        assert(args.subrange(0, i) =~= args);
    } else {
        let a = args[i];
        lemma_value_run_holds_no_flag(args, i + 1);
        let end = value_run_end(args, i + 1);
        match take_one_value_spec(args, i) {
            Ok((v, n)) => {
                assert(end == i + 2 && n == i + 2);
                assert(args.subrange(i + 1, end)[0] == v);
                let next = set_preset_value(acc, a, v);
                lemma_last_flag_value_skip(args, i, i + 1, flag, None);
                lemma_last_flag_value_extend(args, i + 1, flag, None);
                assert(!is_flag(args[i + 1]));
                if a == flag {
                    assert(preset_option_named(next, flag) == Some(v));
                } else {
                    assert(preset_option_named(next, flag) == preset_option_named(acc, flag));
                }
                lemma_preset_parse_tracks(args, n, next, flag, o);
            },
            Err(_) => {},
        }
    }
}

/// Each flag of `bulkpixel presets` sets exactly the option of its own
/// name: after parsing, each option is the argument that follows the last
/// of its flags, and none when the flag is not given.
pub proof fn law_preset_flags_set_their_own_options(args: Seq<Seq<char>>)
    ensures
        parse_preset_from(args, 0, preset_options_start()) matches Ok(o) ==> {
            &&& o.name == last_flag_value(args, "--name"@, None)
            &&& o.output_dir == last_flag_value(args, "--output-dir"@, None)
            &&& o.width == last_flag_value(args, "--width"@, None)
            &&& o.height == last_flag_value(args, "--height"@, None)
            &&& o.format == last_flag_value(args, "--format"@, None)
            &&& o.quality == last_flag_value(args, "--quality"@, None)
            &&& o.prefix == last_flag_value(args, "--prefix"@, None)
            &&& o.postfix == last_flag_value(args, "--postfix"@, None)
        },
{
    lemma_flags_distinct();
    let start = preset_options_start();
    if parse_preset_from(args, 0, start) is Ok {
        let o = parse_preset_from(args, 0, start)->Ok_0;
        assert(args.subrange(0, 0).len() == 0);
        lemma_preset_parse_tracks(args, 0, start, "--name"@, o);
        lemma_preset_parse_tracks(args, 0, start, "--output-dir"@, o);
        lemma_preset_parse_tracks(args, 0, start, "--width"@, o);
        lemma_preset_parse_tracks(args, 0, start, "--height"@, o);
        lemma_preset_parse_tracks(args, 0, start, "--format"@, o);
        lemma_preset_parse_tracks(args, 0, start, "--quality"@, o);
        lemma_preset_parse_tracks(args, 0, start, "--prefix"@, o);
        lemma_preset_parse_tracks(args, 0, start, "--postfix"@, o);
    }
}

} // verus!
