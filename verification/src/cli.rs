//! The command line: reading the arguments, turning options into conversion
//! requests and presets, and the text of the reports.

use vstd::prelude::*;
use crate::models::{
    CollisionMode, ConversionImageInput, ConversionPreset, ConversionRequest, ExportFormat,
    ResizeOptions, SavePresetRequest, SavePresetRequestView, format_from_value_spec, label_spec,
    stored_name_spec,
};
use crate::paths::extension;
use crate::paths::extension_spec;
use crate::text::{ascii_case, ascii_lower};
use crate::text::{chars_of, parse_unsigned, parse_unsigned_spec, str_eq, trim, trim_spec};

verus! {

broadcast use vstd::string::group_string_axioms;

/// The views of a list of strings.
pub open spec fn views(args: Seq<String>) -> Seq<Seq<char>> {
    args.map_values(|s: String| s@)
}

/// The view of an optional string.
pub open spec fn opt_view(o: Option<String>) -> Option<Seq<char>> {
    match o {
        Some(s) => Some(s@),
        None => None,
    }
}

/// Whether an argument is a flag: it starts with `--`.
pub open spec fn is_flag(a: Seq<char>) -> bool {
    a.len() >= 2 && a[0] == '-' && a[1] == '-'
}

/// Returns whether an argument starts with `--`.
pub fn is_flag_arg(a: &String) -> (b: bool)
    ensures
        b == is_flag(a@),
{
    let v = chars_of(a.as_str());
    v.len() >= 2 && v[0] == '-' && v[1] == '-'
}

/// The index of the first flag at or after `j`, or the number of arguments.
pub open spec fn value_run_end(args: Seq<Seq<char>>, j: int) -> int
    decreases args.len() - j,
{
    if j >= args.len() || is_flag(args[j]) {
        j
    } else {
        value_run_end(args, j + 1)
    }
}

/// The values after the flag at `flag_index`: the arguments up to the next
/// flag, and the index of that flag. At least one value is needed.
pub open spec fn take_values_spec(args: Seq<Seq<char>>, flag_index: int) -> Result<
    (Seq<Seq<char>>, int),
    Seq<char>,
> {
    let end = value_run_end(args, flag_index + 1);
    if end == flag_index + 1 {
        Err(args[flag_index] + " expects at least one value."@)
    } else {
        Ok((args.subrange(flag_index + 1, end), end))
    }
}

/// The single value after the flag at `flag_index`.
pub open spec fn take_one_value_spec(args: Seq<Seq<char>>, flag_index: int) -> Result<
    (Seq<char>, int),
    Seq<char>,
> {
    match take_values_spec(args, flag_index) {
        Err(m) => Err(m),
        Ok((vs, next)) => if vs.len() != 1 {
            Err(args[flag_index] + " expects exactly one value."@)
        } else {
            Ok((vs[0], next))
        },
    }
}

proof fn lemma_value_run_end_bounds(args: Seq<Seq<char>>, j: int)
    requires
        0 <= j,
    ensures
        j <= value_run_end(args, j),
        j <= args.len() ==> value_run_end(args, j) <= args.len(),
    decreases args.len() - j,
{
    if !(j >= args.len() || is_flag(args[j])) {
        lemma_value_run_end_bounds(args, j + 1);
    }
}

/// Reads the values after the flag at `flag_index`, up to the next argument
/// that starts with `--`; there must be at least one.
pub fn take_values(args: &[String], flag_index: usize) -> (r: Result<(Vec<String>, usize), String>)
    requires
        flag_index < args@.len(),
    ensures
        match (r, take_values_spec(views(args@), flag_index as int)) {
            (Ok((vals, next)), Ok((vs, n))) => views(vals@) == vs && next == n,
            (Err(m), Err(sm)) => m@ == sm,
            _ => false,
        },
        r matches Ok((vals, next)) ==> flag_index < next <= args@.len(),
{
    let ghost a = views(args@);
    let flag = &args[flag_index];
    let mut index = flag_index + 1;
    let mut values: Vec<String> = Vec::new();
    while index < args.len() && !is_flag_arg(&args[index])
        invariant
            a == views(args@),
            flag_index < index <= args@.len(),
            value_run_end(a, flag_index + 1) == value_run_end(a, index as int),
            views(values@) == a.subrange(flag_index + 1, index as int),
        decreases args@.len() - index,
    {
        let ghost old_values = values@;
        let v = args[index].clone();
        values.push(v);
        assert(values@ == old_values.push(args@[index as int]));
        assert(views(values@) =~= views(old_values).push(a[index as int]));
        assert(views(values@) =~= a.subrange(flag_index + 1, index + 1));
        index = index + 1;
    }
    assert(value_run_end(a, index as int) == index);
    if values.len() == 0 {
        let mut m = flag.clone();
        m.append(" expects at least one value.");
        return Err(m);
    }
    Ok((values, index))
}

/// Reads the single value after the flag at `flag_index`.
pub fn take_one_value(args: &[String], flag_index: usize) -> (r: Result<(String, usize), String>)
    requires
        flag_index < args@.len(),
    ensures
        match (r, take_one_value_spec(views(args@), flag_index as int)) {
            (Ok((v, next)), Ok((sv, n))) => v@ == sv && next == n,
            (Err(m), Err(sm)) => m@ == sm,
            _ => false,
        },
        r matches Ok((v, next)) ==> flag_index < next <= args@.len(),
{
    let flag = &args[flag_index];
    let (values, next_index) = take_values(args, flag_index)?;
    if values.len() != 1 {
        let mut m = flag.clone();
        m.append(" expects exactly one value.");
        return Err(m);
    }
    assert(values@[0]@ == views(values@)[0]);
    Ok((values[0].clone(), next_index))
}

/// The options of `bulkpixel convert`, as given on the command line.
#[derive(Debug)]
pub struct ConvertOptions {
    pub inputs: Vec<String>,
    pub preset_names: Vec<String>,
    pub output_dir: Option<String>,
    pub width: Option<String>,
    pub height: Option<String>,
    pub format: Option<String>,
    pub quality: Option<String>,
    pub prefix: Option<String>,
    pub postfix: Option<String>,
    pub overwrite: bool,
    pub silent: bool,
}

/// The options of `bulkpixel convert` as text.
#[verifier::ext_equal]
pub struct ConvertOptionsView {
    pub inputs: Seq<Seq<char>>,
    pub preset_names: Seq<Seq<char>>,
    pub output_dir: Option<Seq<char>>,
    pub width: Option<Seq<char>>,
    pub height: Option<Seq<char>>,
    pub format: Option<Seq<char>>,
    pub quality: Option<Seq<char>>,
    pub prefix: Option<Seq<char>>,
    pub postfix: Option<Seq<char>>,
    pub overwrite: bool,
    pub silent: bool,
}

impl View for ConvertOptions {
    type V = ConvertOptionsView;

    open spec fn view(&self) -> ConvertOptionsView {
        ConvertOptionsView {
            inputs: views(self.inputs@),
            preset_names: views(self.preset_names@),
            output_dir: opt_view(self.output_dir),
            width: opt_view(self.width),
            height: opt_view(self.height),
            format: opt_view(self.format),
            quality: opt_view(self.quality),
            prefix: opt_view(self.prefix),
            postfix: opt_view(self.postfix),
            overwrite: self.overwrite,
            silent: self.silent,
        }
    }
}

/// The options of `bulkpixel convert` before any flag is read: format
/// `webp`, quality `100`, nothing else set.
pub open spec fn convert_options_start() -> ConvertOptionsView {
    ConvertOptionsView {
        inputs: Seq::empty(),
        preset_names: Seq::empty(),
        output_dir: None,
        width: None,
        height: None,
        format: Some("webp"@),
        quality: Some("100"@),
        prefix: None,
        postfix: None,
        overwrite: false,
        silent: false,
    }
}

/// Whether a convert flag takes exactly one value.
pub open spec fn is_convert_value_flag(a: Seq<char>) -> bool {
    a == "--output-dir"@ || a == "--width"@ || a == "--height"@ || a == "--format"@ || a
        == "--quality"@ || a == "--prefix"@ || a == "--postfix"@
}

/// The options with the value of a one-value convert flag set.
pub open spec fn set_convert_value(acc: ConvertOptionsView, flag: Seq<char>, v: Seq<char>) -> ConvertOptionsView {
    if flag == "--output-dir"@ {
        ConvertOptionsView { output_dir: Some(v), ..acc }
    } else if flag == "--width"@ {
        ConvertOptionsView { width: Some(v), ..acc }
    } else if flag == "--height"@ {
        ConvertOptionsView { height: Some(v), ..acc }
    } else if flag == "--format"@ {
        ConvertOptionsView { format: Some(v), ..acc }
    } else if flag == "--quality"@ {
        ConvertOptionsView { quality: Some(v), ..acc }
    } else if flag == "--prefix"@ {
        ConvertOptionsView { prefix: Some(v), ..acc }
    } else {
        ConvertOptionsView { postfix: Some(v), ..acc }
    }
}

/// Reads the convert flag at `i`: the options after it and the index of
/// the next flag. A later flag replaces what an earlier one set.
pub open spec fn convert_flag_step(args: Seq<Seq<char>>, i: int, acc: ConvertOptionsView) -> Result<
    (ConvertOptionsView, int),
    Seq<char>,
> {
    let a = args[i];
    if a == "--input"@ {
        match take_values_spec(args, i) {
            Ok((v, n)) => Ok((ConvertOptionsView { inputs: v, ..acc }, n)),
            Err(m) => Err(m),
        }
    } else if a == "--preset"@ {
        match take_values_spec(args, i) {
            Ok((v, n)) => Ok((ConvertOptionsView { preset_names: v, ..acc }, n)),
            Err(m) => Err(m),
        }
    } else if is_convert_value_flag(a) {
        match take_one_value_spec(args, i) {
            Ok((v, n)) => Ok((set_convert_value(acc, a, v), n)),
            Err(m) => Err(m),
        }
    } else if a == "--overwrite"@ {
        Ok((ConvertOptionsView { overwrite: true, ..acc }, i + 1))
    } else if a == "--silent"@ {
        Ok((ConvertOptionsView { silent: true, ..acc }, i + 1))
    } else {
        Err("Unknown convert flag: "@ + a)
    }
}

/// The options that the convert arguments from `i` on give, starting from `acc`.
pub open spec fn parse_convert_from(args: Seq<Seq<char>>, i: int, acc: ConvertOptionsView) -> Result<
    ConvertOptionsView,
    Seq<char>,
>
    decreases args.len() - i,
{
    if i < 0 || i >= args.len() {
        Ok(acc)
    } else {
        match convert_flag_step(args, i, acc) {
            Ok((next_acc, n)) => if i < n <= args.len() {
                parse_convert_from(args, n, next_acc)
            } else {
                Ok(next_acc)
            },
            Err(m) => Err(m),
        }
    }
}

/// Reads the arguments of `bulkpixel convert`.
pub fn parse_convert_options(args: &[String]) -> (r: Result<ConvertOptions, String>)
    ensures
        match (r, parse_convert_from(views(args@), 0, convert_options_start())) {
            (Ok(o), Ok(v)) => o@ == v,
            (Err(m), Err(sm)) => m@ == sm,
            _ => false,
        },
{
    let ghost a = views(args@);
    let mut options = ConvertOptions {
        inputs: Vec::new(),
        preset_names: Vec::new(),
        output_dir: None,
        width: None,
        height: None,
        format: Some(String::from_str("webp")),
        quality: Some(String::from_str("100")),
        prefix: None,
        postfix: None,
        overwrite: false,
        silent: false,
    };
    assert(options@ =~= convert_options_start());
    let mut index: usize = 0;
    while index < args.len()
        invariant
            a == views(args@),
            index <= args@.len(),
            parse_convert_from(a, 0, convert_options_start()) == parse_convert_from(
                a,
                index as int,
                options@,
            ),
        decreases args@.len() - index,
    {
        let ghost before = options@;
        let flag = &args[index];
        assert(a[index as int] == flag@);
        if str_eq(flag.as_str(), "--input") {
            let (values, next_index) = take_values(args, index)?;
            options.inputs = values;
            assert(options@ =~= ConvertOptionsView { inputs: views(values@), ..before });
            index = next_index;
        } else if str_eq(flag.as_str(), "--preset") {
            let (values, next_index) = take_values(args, index)?;
            options.preset_names = values;
            assert(options@ =~= ConvertOptionsView { preset_names: views(values@), ..before });
            index = next_index;
        } else if str_eq(flag.as_str(), "--output-dir") || str_eq(flag.as_str(), "--width")
            || str_eq(flag.as_str(), "--height") || str_eq(flag.as_str(), "--format") || str_eq(
            flag.as_str(),
            "--quality",
        ) || str_eq(flag.as_str(), "--prefix") || str_eq(flag.as_str(), "--postfix") {
            let (value, next_index) = take_one_value(args, index)?;
            let ghost v = value@;
            if str_eq(flag.as_str(), "--output-dir") {
                options.output_dir = Some(value);
            } else if str_eq(flag.as_str(), "--width") {
                options.width = Some(value);
            } else if str_eq(flag.as_str(), "--height") {
                options.height = Some(value);
            } else if str_eq(flag.as_str(), "--format") {
                options.format = Some(value);
            } else if str_eq(flag.as_str(), "--quality") {
                options.quality = Some(value);
            } else if str_eq(flag.as_str(), "--prefix") {
                options.prefix = Some(value);
            } else {
                options.postfix = Some(value);
            }
            assert(options@ =~= set_convert_value(before, flag@, v));
            index = next_index;
        } else if str_eq(flag.as_str(), "--overwrite") {
            options.overwrite = true;
            assert(options@ =~= ConvertOptionsView { overwrite: true, ..before });
            index = index + 1;
        } else if str_eq(flag.as_str(), "--silent") {
            options.silent = true;
            assert(options@ =~= ConvertOptionsView { silent: true, ..before });
            index = index + 1;
        } else {
            let mut m = String::from_str("Unknown convert flag: ");
            m.append(flag.as_str());
            return Err(m);
        }
    }
    Ok(options)
}

/// The options of `bulkpixel presets create|update|delete`, as given.
#[derive(Debug)]
pub struct PresetOptions {
    pub name: Option<String>,
    pub output_dir: Option<String>,
    pub width: Option<String>,
    pub height: Option<String>,
    pub format: Option<String>,
    pub quality: Option<String>,
    pub prefix: Option<String>,
    pub postfix: Option<String>,
}

/// The preset options as text.
#[verifier::ext_equal]
pub struct PresetOptionsView {
    pub name: Option<Seq<char>>,
    pub output_dir: Option<Seq<char>>,
    pub width: Option<Seq<char>>,
    pub height: Option<Seq<char>>,
    pub format: Option<Seq<char>>,
    pub quality: Option<Seq<char>>,
    pub prefix: Option<Seq<char>>,
    pub postfix: Option<Seq<char>>,
}

impl View for PresetOptions {
    type V = PresetOptionsView;

    open spec fn view(&self) -> PresetOptionsView {
        PresetOptionsView {
            name: opt_view(self.name),
            output_dir: opt_view(self.output_dir),
            width: opt_view(self.width),
            height: opt_view(self.height),
            format: opt_view(self.format),
            quality: opt_view(self.quality),
            prefix: opt_view(self.prefix),
            postfix: opt_view(self.postfix),
        }
    }
}

/// No preset option set.
pub open spec fn preset_options_start() -> PresetOptionsView {
    PresetOptionsView {
        name: None,
        output_dir: None,
        width: None,
        height: None,
        format: None,
        quality: None,
        prefix: None,
        postfix: None,
    }
}

/// Whether an argument is one of the preset flags.
pub open spec fn is_preset_flag(a: Seq<char>) -> bool {
    a == "--name"@ || a == "--output-dir"@ || a == "--width"@ || a == "--height"@ || a
        == "--format"@ || a == "--quality"@ || a == "--prefix"@ || a == "--postfix"@
}

/// The preset options with the value of a flag set.
pub open spec fn set_preset_value(acc: PresetOptionsView, flag: Seq<char>, v: Seq<char>) -> PresetOptionsView {
    if flag == "--name"@ {
        PresetOptionsView { name: Some(v), ..acc }
    } else if flag == "--output-dir"@ {
        PresetOptionsView { output_dir: Some(v), ..acc }
    } else if flag == "--width"@ {
        PresetOptionsView { width: Some(v), ..acc }
    } else if flag == "--height"@ {
        PresetOptionsView { height: Some(v), ..acc }
    } else if flag == "--format"@ {
        PresetOptionsView { format: Some(v), ..acc }
    } else if flag == "--quality"@ {
        PresetOptionsView { quality: Some(v), ..acc }
    } else if flag == "--prefix"@ {
        PresetOptionsView { prefix: Some(v), ..acc }
    } else {
        PresetOptionsView { postfix: Some(v), ..acc }
    }
}

/// The preset options that the arguments from `i` on give, starting from `acc`.
pub open spec fn parse_preset_from(args: Seq<Seq<char>>, i: int, acc: PresetOptionsView) -> Result<
    PresetOptionsView,
    Seq<char>,
>
    decreases args.len() - i,
{
    if i < 0 || i >= args.len() {
        Ok(acc)
    } else if !is_preset_flag(args[i]) {
        Err("Unknown presets flag: "@ + args[i])
    } else {
        match take_one_value_spec(args, i) {
            Ok((v, n)) => if i < n <= args.len() {
                parse_preset_from(args, n, set_preset_value(acc, args[i], v))
            } else {
                Ok(set_preset_value(acc, args[i], v))
            },
            Err(m) => Err(m),
        }
    }
}

/// Reads the arguments of `bulkpixel presets create|update|delete`.
pub fn parse_preset_options(args: &[String]) -> (r: Result<PresetOptions, String>)
    ensures
        match (r, parse_preset_from(views(args@), 0, preset_options_start())) {
            (Ok(o), Ok(v)) => o@ == v,
            (Err(m), Err(sm)) => m@ == sm,
            _ => false,
        },
{
    let ghost a = views(args@);
    let mut options = PresetOptions {
        name: None,
        output_dir: None,
        width: None,
        height: None,
        format: None,
        quality: None,
        prefix: None,
        postfix: None,
    };
    assert(options@ =~= preset_options_start());
    let mut index: usize = 0;
    while index < args.len()
        invariant
            a == views(args@),
            index <= args@.len(),
            parse_preset_from(a, 0, preset_options_start()) == parse_preset_from(
                a,
                index as int,
                options@,
            ),
        decreases args@.len() - index,
    {
        let ghost before = options@;
        let flag = &args[index];
        assert(a[index as int] == flag@);
        let f = flag.as_str();
        if str_eq(f, "--name") || str_eq(f, "--output-dir") || str_eq(f, "--width") || str_eq(
            f,
            "--height",
        ) || str_eq(f, "--format") || str_eq(f, "--quality") || str_eq(f, "--prefix") || str_eq(
            f,
            "--postfix",
        ) {
            let (value, next_index) = take_one_value(args, index)?;
            let ghost v = value@;
            if str_eq(f, "--name") {
                options.name = Some(value);
            } else if str_eq(f, "--output-dir") {
                options.output_dir = Some(value);
            } else if str_eq(f, "--width") {
                options.width = Some(value);
            } else if str_eq(f, "--height") {
                options.height = Some(value);
            } else if str_eq(f, "--format") {
                options.format = Some(value);
            } else if str_eq(f, "--quality") {
                options.quality = Some(value);
            } else if str_eq(f, "--prefix") {
                options.prefix = Some(value);
            } else {
                options.postfix = Some(value);
            }
            assert(options@ =~= set_preset_value(before, flag@, v));
            index = next_index;
        } else {
            let mut m = String::from_str("Unknown presets flag: ");
            m.append(f);
            return Err(m);
        }
    }
    Ok(options)
}

/// The format that a format name selects, or the message that refuses it.
pub open spec fn parse_format_spec(value: Seq<char>) -> Result<ExportFormat, Seq<char>> {
    match format_from_value_spec(value) {
        Some(f) => Ok(f),
        None => Err("Unsupported format: "@ + value),
    }
}

/// Reads a format name: jpeg (or jpg), png, webp or avif, trimmed and in
/// any ASCII case.
pub fn parse_format(value: &str) -> (r: Result<ExportFormat, String>)
    ensures
        match (r, parse_format_spec(value@)) {
            (Ok(f), Ok(g)) => f == g,
            (Err(m), Err(sm)) => m@ == sm,
            _ => false,
        },
{
    match ExportFormat::from_value(value) {
        Some(f) => Ok(f),
        None => {
            let mut m = String::from_str("Unsupported format: ");
            m.append(value);
            Err(m)
        },
    }
}

/// The name under which a preset stores a format.
pub fn format_to_preset_value(format: &ExportFormat) -> (r: String)
    ensures
        r@ == stored_name_spec(*format),
{
    String::from_str(format.stored_name())
}

/// A quality read from text, or the message that refuses it.
pub open spec fn parse_quality_spec(value: Seq<char>) -> Result<u8, Seq<char>> {
    match parse_unsigned_spec(value, u8::MAX as nat) {
        None => Err("Quality must be a number between 1 and 100."@),
        Some(q) => if 1 <= q <= 100 {
            Ok(q as u8)
        } else {
            Err("Quality must be between 1 and 100."@)
        },
    }
}

/// Reads a quality: a number (as `u8` parses it) between 1 and 100.
pub fn parse_quality(value: &str) -> (r: Result<u8, String>)
    ensures
        match (r, parse_quality_spec(value@)) {
            (Ok(q), Ok(p)) => q == p,
            (Err(m), Err(sm)) => m@ == sm,
            _ => false,
        },
{
    match parse_unsigned(value, 255) {
        None => Err(String::from_str("Quality must be a number between 1 and 100.")),
        Some(q) => {
            if 1 <= q && q <= 100 {
                Ok(q as u8)
            } else {
                Err(String::from_str("Quality must be between 1 and 100."))
            }
        },
    }
}

/// A width or height read from text, or the message that refuses it.
pub open spec fn parse_dimension_spec(value: Seq<char>) -> Result<u32, Seq<char>> {
    match parse_unsigned_spec(value, u32::MAX as nat) {
        None => Err("Width and height must be numbers between 1 and 9999."@),
        Some(d) => if 1 <= d <= 9999 {
            Ok(d as u32)
        } else {
            Err("Width and height must be between 1 and 9999."@)
        },
    }
}

/// Reads a width or height: a number (as `u32` parses it) between 1 and 9999.
pub fn parse_dimension(value: &str) -> (r: Result<u32, String>)
    ensures
        match (r, parse_dimension_spec(value@)) {
            (Ok(d), Ok(e)) => d == e,
            (Err(m), Err(sm)) => m@ == sm,
            _ => false,
        },
{
    match parse_unsigned(value, 0xffff_ffff) {
        None => Err(String::from_str("Width and height must be numbers between 1 and 9999.")),
        Some(d) => {
            if 1 <= d && d <= 9999 {
                Ok(d as u32)
            } else {
                Err(String::from_str("Width and height must be between 1 and 9999."))
            }
        },
    }
}

/// The width and height targets that the resize flags give, or the message
/// that refuses them.
pub open spec fn parse_resize_spec(width: Option<Seq<char>>, height: Option<Seq<char>>) -> Result<
    (Option<u32>, Option<u32>),
    Seq<char>,
> {
    if width is Some && height is Some {
        Err("Use either --width or --height, not both."@)
    } else {
        match width {
            Some(w) => match parse_dimension_spec(w) {
                Ok(d) => Ok((Some(d), None)),
                Err(m) => Err(m),
            },
            None => match height {
                Some(h) => match parse_dimension_spec(h) {
                    Ok(d) => Ok((None, Some(d))),
                    Err(m) => Err(m),
                },
                None => Ok((None, None)),
            },
        }
    }
}

/// Reads `--width` and `--height`: at most one of them, each a valid dimension.
pub fn parse_resize(width: Option<&str>, height: Option<&str>) -> (r: Result<ResizeOptions, String>)
    ensures
        match (r, parse_resize_spec(opt_str_view(width), opt_str_view(height))) {
            (Ok(o), Ok(p)) => (o.width, o.height) == p,
            (Err(m), Err(sm)) => m@ == sm,
            _ => false,
        },
{
    if width.is_some() && height.is_some() {
        return Err(String::from_str("Use either --width or --height, not both."));
    }
    match width {
        Some(w) => {
            let d = parse_dimension(w)?;
            Ok(ResizeOptions { width: Some(d), height: None })
        },
        None => match height {
            Some(h) => {
                let d = parse_dimension(h)?;
                Ok(ResizeOptions { width: None, height: Some(d) })
            },
            None => Ok(ResizeOptions { width: None, height: None }),
        },
    }
}

/// The view of an optional string slice.
pub open spec fn opt_str_view(o: Option<&str>) -> Option<Seq<char>> {
    match o {
        Some(s) => Some(s@),
        None => None,
    }
}

/// The resize mode, width and height that a preset stores for the resize flags.
pub open spec fn preset_resize_spec(width: Option<Seq<char>>, height: Option<Seq<char>>) -> Result<
    (Seq<char>, Option<u32>, Option<u32>),
    Seq<char>,
> {
    match parse_resize_spec(width, height) {
        Err(m) => Err(m),
        Ok((Some(w), None)) => Ok(("width"@, Some(w), None)),
        Ok((None, Some(h))) => Ok(("height"@, None, Some(h))),
        Ok(_) => Ok(("none"@, None, None)),
    }
}

/// The resize mode (`width`, `height` or `none`) and target that a preset
/// stores for the resize flags.
pub fn preset_resize_options(width: Option<&str>, height: Option<&str>) -> (r: Result<
    (String, Option<u32>, Option<u32>),
    String,
>)
    ensures
        match (r, preset_resize_spec(opt_str_view(width), opt_str_view(height))) {
            (Ok((m, w, h)), Ok((sm, sw, sh))) => m@ == sm && w == sw && h == sh,
            (Err(e), Err(se)) => e@ == se,
            _ => false,
        },
{
    let resize = parse_resize(width, height)?;
    match (resize.width, resize.height) {
        (Some(width), None) => Ok((String::from_str("width"), Some(width), None)),
        (None, Some(height)) => Ok((String::from_str("height"), None, Some(height))),
        _ => Ok((String::from_str("none"), None, None)),
    }
}

/// A trimmed flag value, when it is not empty.
pub open spec fn nonempty_trimmed(o: Option<Seq<char>>) -> Option<Seq<char>> {
    match o {
        Some(v) => if trim_spec(v).len() > 0 {
            Some(trim_spec(v))
        } else {
            None
        },
        None => None,
    }
}

/// The filename mode and text that `--prefix` and `--postfix` give.
pub open spec fn filename_options_spec(prefix: Option<Seq<char>>, postfix: Option<Seq<char>>) -> Result<
    (Seq<char>, Seq<char>),
    Seq<char>,
> {
    match (nonempty_trimmed(prefix), nonempty_trimmed(postfix)) {
        (Some(_), Some(_)) => Err("Use either --prefix or --postfix, not both."@),
        (Some(p), None) => Ok(("prefix"@, p)),
        (None, Some(p)) => Ok(("postfix"@, p)),
        (None, None) => Ok(("prefix"@, Seq::empty())),
    }
}

fn nonempty_trimmed_value(o: Option<&str>) -> (r: Option<String>)
    ensures
        opt_view(r) == nonempty_trimmed(opt_str_view(o)),
{
    match o {
        Some(v) => {
            let t = trim(v);
            if t.as_str().unicode_len() > 0 {
                Some(t)
            } else {
                None
            }
        },
        None => None,
    }
}

/// Reads `--prefix` and `--postfix`: blank values count as absent, at most
/// one may remain, and without either the mode is `prefix` with empty text.
pub fn parse_filename_options(prefix: Option<&str>, postfix: Option<&str>) -> (r: Result<
    (String, String),
    String,
>)
    ensures
        match (r, filename_options_spec(opt_str_view(prefix), opt_str_view(postfix))) {
            (Ok((m, c)), Ok((sm, sc))) => m@ == sm && c@ == sc,
            (Err(e), Err(se)) => e@ == se,
            _ => false,
        },
{
    let prefix = nonempty_trimmed_value(prefix);
    let postfix = nonempty_trimmed_value(postfix);
    match (prefix, postfix) {
        (Some(_), Some(_)) => Err(String::from_str("Use either --prefix or --postfix, not both.")),
        (Some(p), None) => Ok((String::from_str("prefix"), p)),
        (None, Some(p)) => Ok((String::from_str("postfix"), p)),
        (None, None) => Ok((String::from_str("prefix"), String::new())),
    }
}

/// The resize targets of a stored preset by its resize mode.
pub open spec fn resize_from_preset_spec(preset: ConversionPreset) -> Result<
    (Option<u32>, Option<u32>),
    Seq<char>,
> {
    let mode = preset.resize_mode@;
    if mode == "width"@ {
        Ok((preset.width, None))
    } else if mode == "height"@ {
        Ok((None, preset.height))
    } else if mode == "none"@ {
        Ok((None, None))
    } else {
        Err("Unsupported preset resize mode: "@ + mode)
    }
}

/// The resize targets of a stored preset: its width in `width` mode, its
/// height in `height` mode, none in `none` mode.
pub fn resize_from_preset(preset: &ConversionPreset) -> (r: Result<ResizeOptions, String>)
    ensures
        match (r, resize_from_preset_spec(*preset)) {
            (Ok(o), Ok(p)) => (o.width, o.height) == p,
            (Err(m), Err(sm)) => m@ == sm,
            _ => false,
        },
{
    let mode = preset.resize_mode.as_str();
    if str_eq(mode, "width") {
        Ok(ResizeOptions { width: preset.width, height: None })
    } else if str_eq(mode, "height") {
        Ok(ResizeOptions { width: None, height: preset.height })
    } else if str_eq(mode, "none") {
        Ok(ResizeOptions { width: None, height: None })
    } else {
        let mut m = String::from_str("Unsupported preset resize mode: ");
        m.append(mode);
        Err(m)
    }
}

/// The input list, which may not be empty.
pub fn require_inputs(inputs: &Vec<String>) -> (r: Result<Vec<String>, String>)
    ensures
        inputs@.len() == 0 ==> (r matches Err(m) && m@ == "--input is required."@),
        inputs@.len() != 0 ==> (r matches Ok(v) && v@ == inputs@),
{
    if inputs.len() == 0 {
        return Err(String::from_str("--input is required."));
    }
    Ok(inputs.clone())
}

/// The images of a conversion, one per input path, in order.
pub fn conversion_inputs(inputs: Vec<String>) -> (r: Vec<ConversionImageInput>)
    ensures
        r@.len() == inputs@.len(),
        forall|i: int| 0 <= i < r@.len() ==> #[trigger] r@[i].path == inputs@[i],
{
    let mut r: Vec<ConversionImageInput> = Vec::new();
    let mut i: usize = 0;
    while i < inputs.len()
        invariant
            i <= inputs@.len(),
            r@.len() == i,
            forall|k: int| 0 <= k < i ==> #[trigger] r@[k].path == inputs@[k],
        decreases inputs@.len() - i,
    {
        r.push(ConversionImageInput { path: inputs[i].clone() });
        i = i + 1;
    }
    r
}

/// The format name shown for a command line input, by its extension.
pub open spec fn format_label_from_path_spec(path: Seq<char>) -> Seq<char> {
    match extension_spec(path) {
        Some(e) => {
            let l = ascii_lower(e);
            if l == "jpg"@ || l == "jpeg"@ {
                "JPEG"@
            } else if l == "png"@ {
                "PNG"@
            } else if l == "webp"@ {
                "WEBP"@
            } else if l == "avif"@ {
                "AVIF"@
            } else {
                "IMAGE"@
            }
        },
        None => "IMAGE"@,
    }
}

/// The format name shown for a command line input.
pub fn format_label_from_path(path: &str) -> (r: String)
    ensures
        r@ == format_label_from_path_spec(path@),
{
    match extension(path) {
        Some(ext) => {
            let l = ascii_case(ext.as_str(), false);
            let l = l.as_str();
            if str_eq(l, "jpg") || str_eq(l, "jpeg") {
                String::from_str("JPEG")
            } else if str_eq(l, "png") {
                String::from_str("PNG")
            } else if str_eq(l, "webp") {
                String::from_str("WEBP")
            } else if str_eq(l, "avif") {
                String::from_str("AVIF")
            } else {
                String::from_str("IMAGE")
            }
        },
        None => String::from_str("IMAGE"),
    }
}

/// The input format shown for a batch: the common label of all inputs, or
/// `MIXED` when they differ (or there are none).
pub open spec fn input_format_label_spec(inputs: Seq<Seq<char>>) -> Seq<char> {
    if inputs.len() > 0 && forall|i: int|
        0 <= i < inputs.len() ==> #[trigger] format_label_from_path_spec(inputs[i])
            == format_label_from_path_spec(inputs[0]) {
        format_label_from_path_spec(inputs[0])
    } else {
        "MIXED"@
    }
}

/// The input format shown for a batch.
pub fn input_format_label(inputs: &Vec<String>) -> (r: String)
    ensures
        r@ == input_format_label_spec(views(inputs@)),
{
    let ghost a = views(inputs@);
    if inputs.len() == 0 {
        return String::from_str("MIXED");
    }
    let first = format_label_from_path(inputs[0].as_str());
    assert(a[0] == inputs@[0]@);
    let mut i: usize = 1;
    while i < inputs.len()
        invariant
            a == views(inputs@),
            1 <= i <= inputs@.len(),
            first@ == format_label_from_path_spec(a[0]),
            forall|k: int| 0 <= k < i ==> #[trigger] format_label_from_path_spec(a[k]) == first@,
        decreases inputs@.len() - i,
    {
        let label = format_label_from_path(inputs[i].as_str());
        assert(a[i as int] == inputs@[i as int]@);
        if !(label == first) {
            assert(format_label_from_path_spec(a[i as int]) != format_label_from_path_spec(a[0]));
            return String::from_str("MIXED");
        }
        i = i + 1;
    }
    first
}

/// The quality that an optional `--quality` gives: 100 when it is absent.
pub open spec fn optional_quality_spec(o: Option<Seq<char>>) -> Result<u8, Seq<char>> {
    match o {
        None => Ok(100),
        Some(v) => parse_quality_spec(v),
    }
}

/// The preset that `bulkpixel presets create` stores for its options: name,
/// output folder and format are required; quality defaults to 100.
pub open spec fn create_preset_spec(o: PresetOptionsView) -> Result<SavePresetRequestView, Seq<char>> {
    match o.name {
        None => Err("--name is required."@),
        Some(name) => match o.output_dir {
            None => Err("--output-dir is required."@),
            Some(dir) => match o.format {
                None => Err("--format is required."@),
                Some(f) => match parse_format_spec(f) {
                    Err(m) => Err(m),
                    Ok(format) => match optional_quality_spec(o.quality) {
                        Err(m) => Err(m),
                        Ok(q) => match preset_resize_spec(o.width, o.height) {
                            Err(m) => Err(m),
                            Ok((mode, w, h)) => match filename_options_spec(o.prefix, o.postfix) {
                                Err(m) => Err(m),
                                Ok((fm, fc)) => Ok(
                                    SavePresetRequestView {
                                        id: None,
                                        name,
                                        format: stored_name_spec(format),
                                        resize_mode: mode,
                                        width: w,
                                        height: h,
                                        quality: q,
                                        filename_component: fc,
                                        filename_mode: fm,
                                        output_directory: dir,
                                    },
                                ),
                            },
                        },
                    },
                },
            },
        },
    }
}

/// Reads an optional quality: 100 when absent.
pub fn parse_optional_quality(value: Option<&str>) -> (r: Result<u8, String>)
    ensures
        match (r, optional_quality_spec(opt_str_view(value))) {
            (Ok(q), Ok(p)) => q == p,
            (Err(m), Err(sm)) => m@ == sm,
            _ => false,
        },
{
    match value {
        None => Ok(100),
        Some(v) => parse_quality(v),
    }
}

/// Returns the string inside an option as a slice.
fn opt_as_str(o: &Option<String>) -> (r: Option<&str>)
    ensures
        opt_str_view(r) == opt_view(*o),
{
    match o {
        Some(s) => Some(s.as_str()),
        None => None,
    }
}

/// The preset that `bulkpixel presets create` asks to store.
pub fn build_create_preset_request(options: PresetOptions) -> (r: Result<SavePresetRequest, String>)
    ensures
        match (r, create_preset_spec(options@)) {
            (Ok(q), Ok(v)) => q@ == v,
            (Err(m), Err(sm)) => m@ == sm,
            _ => false,
        },
{
    let name = match options.name {
        Some(n) => n,
        None => {
            return Err(String::from_str("--name is required."));
        },
    };
    let output_directory = match options.output_dir {
        Some(d) => d,
        None => {
            return Err(String::from_str("--output-dir is required."));
        },
    };
    let format = match &options.format {
        Some(f) => parse_format(f.as_str())?,
        None => {
            return Err(String::from_str("--format is required."));
        },
    };
    let quality = parse_optional_quality(opt_as_str(&options.quality))?;
    let (resize_mode, width, height) = preset_resize_options(
        opt_as_str(&options.width),
        opt_as_str(&options.height),
    )?;
    let (filename_mode, filename_component) = parse_filename_options(
        opt_as_str(&options.prefix),
        opt_as_str(&options.postfix),
    )?;
    let r = SavePresetRequest {
        id: None,
        name,
        format: format_to_preset_value(&format),
        resize_mode,
        width,
        height,
        quality,
        filename_component,
        filename_mode,
        output_directory,
    };
    assert(r@ =~= create_preset_spec(options@)->Ok_0);
    Ok(r)
}

/// The preset request that `bulkpixel presets update` stores: the stored
/// preset with the given options replaced. A resize flag replaces mode,
/// width and height together; a prefix or postfix flag replaces mode and text
/// together.
pub open spec fn update_preset_spec(o: PresetOptionsView, existing: ConversionPreset) -> Result<
    SavePresetRequestView,
    Seq<char>,
> {
    let base = SavePresetRequestView {
        id: Some(existing.id),
        name: existing.name@,
        format: existing.format@,
        resize_mode: existing.resize_mode@,
        width: existing.width,
        height: existing.height,
        quality: existing.quality,
        filename_component: existing.filename_component@,
        filename_mode: existing.filename_mode@,
        output_directory: existing.output_directory@,
    };
    let with_format = match o.format {
        Some(f) => match parse_format_spec(f) {
            Ok(format) => Ok(SavePresetRequestView { format: stored_name_spec(format), ..base }),
            Err(m) => Err(m),
        },
        None => Ok(base),
    };
    match with_format {
        Err(m) => Err(m),
        Ok(r1) => {
            let with_resize = if o.width is Some || o.height is Some {
                match preset_resize_spec(o.width, o.height) {
                    Ok((mode, w, h)) => Ok(
                        SavePresetRequestView { resize_mode: mode, width: w, height: h, ..r1 },
                    ),
                    Err(m) => Err(m),
                }
            } else {
                Ok(r1)
            };
            match with_resize {
                Err(m) => Err(m),
                Ok(r2) => {
                    let with_quality = match o.quality {
                        Some(v) => match parse_quality_spec(v) {
                            Ok(q) => Ok(SavePresetRequestView { quality: q, ..r2 }),
                            Err(m) => Err(m),
                        },
                        None => Ok(r2),
                    };
                    match with_quality {
                        Err(m) => Err(m),
                        Ok(r3) => {
                            let r4 = match o.output_dir {
                                Some(d) => SavePresetRequestView { output_directory: d, ..r3 },
                                None => r3,
                            };
                            if o.prefix is Some || o.postfix is Some {
                                match filename_options_spec(o.prefix, o.postfix) {
                                    Ok((fm, fc)) => Ok(
                                        SavePresetRequestView {
                                            filename_mode: fm,
                                            filename_component: fc,
                                            ..r4
                                        },
                                    ),
                                    Err(m) => Err(m),
                                }
                            } else {
                                Ok(r4)
                            }
                        },
                    }
                },
            }
        },
    }
}

/// The preset request that `bulkpixel presets update` stores for a stored
/// preset and the given options.
pub fn apply_preset_updates(options: PresetOptions, existing: ConversionPreset) -> (r: Result<
    SavePresetRequest,
    String,
>)
    ensures
        match (r, update_preset_spec(options@, existing)) {
            (Ok(q), Ok(v)) => q@ == v,
            (Err(m), Err(sm)) => m@ == sm,
            _ => false,
        },
{
    let ghost o = options@;
    let mut request = SavePresetRequest {
        id: Some(existing.id),
        name: existing.name,
        format: existing.format,
        resize_mode: existing.resize_mode,
        width: existing.width,
        height: existing.height,
        quality: existing.quality,
        filename_component: existing.filename_component,
        filename_mode: existing.filename_mode,
        output_directory: existing.output_directory,
    };
    if let Some(format) = &options.format {
        let f = parse_format(format.as_str())?;
        request.format = format_to_preset_value(&f);
    }
    if options.width.is_some() || options.height.is_some() {
        let (resize_mode, width, height) = preset_resize_options(
            opt_as_str(&options.width),
            opt_as_str(&options.height),
        )?;
        request.resize_mode = resize_mode;
        request.width = width;
        request.height = height;
    }
    if let Some(q) = &options.quality {
        let quality = parse_quality(q.as_str())?;
        request.quality = quality;
    }
    if let Some(output_directory) = options.output_dir {
        request.output_directory = output_directory;
    }
    if options.prefix.is_some() || options.postfix.is_some() {
        let (filename_mode, filename_component) = parse_filename_options(
            opt_as_str(&options.prefix),
            opt_as_str(&options.postfix),
        )?;
        request.filename_mode = filename_mode;
        request.filename_component = filename_component;
    }
    assert(request@ =~= update_preset_spec(o, existing)->Ok_0);
    Ok(request)
}

/// A conversion that the command line runs, with what its report shows.
#[derive(Debug)]
pub struct ConversionPlan {
    pub request: ConversionRequest,
    pub label: Option<String>,
    pub input_format: String,
    pub output_format: String,
    pub output_folder: String,
}

/// Why a direct conversion (without presets) is refused, if it is.
pub open spec fn direct_plan_problem(o: ConvertOptionsView) -> Option<Seq<char>> {
    if o.inputs.len() == 0 {
        Some("--input is required."@)
    } else if o.output_dir is None {
        Some("--output-dir is required."@)
    } else if o.format matches Some(f) && parse_format_spec(f) is Err {
        Some(parse_format_spec(o.format->0)->Err_0)
    } else if o.quality matches Some(q) && parse_quality_spec(q) is Err {
        Some(parse_quality_spec(o.quality->0)->Err_0)
    } else if parse_resize_spec(o.width, o.height) is Err {
        Some(parse_resize_spec(o.width, o.height)->Err_0)
    } else if filename_options_spec(o.prefix, o.postfix) is Err {
        Some(filename_options_spec(o.prefix, o.postfix)->Err_0)
    } else {
        None
    }
}

/// The format of a direct conversion: the given one, else WEBP.
pub open spec fn direct_format(o: ConvertOptionsView) -> ExportFormat {
    match o.format {
        Some(f) => parse_format_spec(f)->Ok_0,
        None => ExportFormat::Webp,
    }
}

/// Turns the options of a direct conversion into its request: WEBP and
/// quality 100 unless given, collisions fail unless `--overwrite` is set.
pub fn plan_direct_conversion(options: &ConvertOptions) -> (r: Result<ConversionPlan, String>)
    ensures
        match (r, direct_plan_problem(options@)) {
            (Err(m), Some(p)) => m@ == p,
            (Ok(plan), None) => {
                let o = options@;
                &&& views(plan.request.images@.map_values(|i: ConversionImageInput| i.path))
                    == o.inputs
                &&& plan.request.format == direct_format(o)
                &&& plan.request.quality == optional_quality_spec(o.quality)->Ok_0
                &&& (plan.request.resize.width, plan.request.resize.height) == parse_resize_spec(
                    o.width,
                    o.height,
                )->Ok_0
                &&& plan.request.filename_mode@ == filename_options_spec(o.prefix, o.postfix)->Ok_0.0
                &&& plan.request.filename_component@ == filename_options_spec(
                    o.prefix,
                    o.postfix,
                )->Ok_0.1
                &&& plan.request.output_dir@ == o.output_dir->0
                &&& plan.request.collision_mode == (if o.overwrite {
                    CollisionMode::Overwrite
                } else {
                    CollisionMode::Error
                })
                &&& plan.label is None
                &&& plan.input_format@ == input_format_label_spec(o.inputs)
                &&& plan.output_format@ == label_spec(direct_format(o))
                &&& plan.output_folder@ == o.output_dir->0
            },
            _ => false,
        },
{
    let inputs = require_inputs(&options.inputs)?;
    let output_dir = match &options.output_dir {
        Some(d) => d.clone(),
        None => {
            return Err(String::from_str("--output-dir is required."));
        },
    };
    let format = match &options.format {
        Some(f) => parse_format(f.as_str())?,
        None => ExportFormat::Webp,
    };
    let quality = parse_optional_quality(opt_as_str(&options.quality))?;
    let resize = parse_resize(opt_as_str(&options.width), opt_as_str(&options.height))?;
    let (filename_mode, filename_component) = parse_filename_options(
        opt_as_str(&options.prefix),
        opt_as_str(&options.postfix),
    )?;
    let input_format = input_format_label(&inputs);
    let output_format = String::from_str(format.label());
    let collision_mode = if options.overwrite {
        CollisionMode::Overwrite
    } else {
        CollisionMode::Error
    };
    let images = conversion_inputs(inputs);
    let ghost o = options@;
    assert(views(images@.map_values(|i: ConversionImageInput| i.path)) =~= o.inputs);
    let request = ConversionRequest {
        images,
        format,
        resize,
        quality,
        filename_component,
        filename_mode,
        output_dir: output_dir.clone(),
        collision_mode,
    };
    Ok(
        ConversionPlan {
            request,
            label: None,
            input_format,
            output_format,
            output_folder: output_dir,
        },
    )
}

/// Whether `plan` runs `preset` on images with the paths `inputs`: its
/// format, resize, quality, file name rule and folder, one image per input,
/// collisions failing, and the report's label and formats.
pub open spec fn plan_matches_preset(plan: ConversionPlan, preset: ConversionPreset, inputs: Seq<Seq<char>>) -> bool {
    &&& views(plan.request.images@.map_values(|i: ConversionImageInput| i.path)) == inputs
    &&& plan.request.format == parse_format_spec(preset.format@)->Ok_0
    &&& (plan.request.resize.width, plan.request.resize.height) == resize_from_preset_spec(
        preset,
    )->Ok_0
    &&& plan.request.quality == preset.quality
    &&& plan.request.filename_component@ == preset.filename_component@
    &&& plan.request.filename_mode@ == preset.filename_mode@
    &&& plan.request.output_dir@ == preset.output_directory@
    &&& plan.request.collision_mode == CollisionMode::Error
    &&& plan.label matches Some(l) && l@ == preset.name@
    &&& plan.input_format@ == input_format_label_spec(inputs)
    &&& plan.output_format@ == label_spec(parse_format_spec(preset.format@)->Ok_0)
    &&& plan.output_folder@ == preset.output_directory@
}

/// Turns a stored preset into the request that runs it on the inputs:
/// its format, resize, quality, file name rule and folder; collisions fail.
pub fn plan_preset_conversion(preset: &ConversionPreset, inputs: &Vec<String>) -> (r: Result<
    ConversionPlan,
    String,
>)
    ensures
        parse_format_spec(preset.format@) matches Err(m) ==> (r matches Err(e) && e@ == m),
        parse_format_spec(preset.format@) is Ok ==> (resize_from_preset_spec(*preset) matches Err(m)
            ==> (r matches Err(e) && e@ == m)),
        parse_format_spec(preset.format@) is Ok && resize_from_preset_spec(*preset) is Ok ==> (
        r matches Ok(plan) && plan_matches_preset(plan, *preset, views(inputs@))),
{
    let format = parse_format(preset.format.as_str())?;
    let resize = resize_from_preset(preset)?;
    let input_format = input_format_label(inputs);
    let output_format = String::from_str(format.label());
    let images = conversion_inputs(inputs.clone());
    assert(views(images@.map_values(|i: ConversionImageInput| i.path)) =~= views(inputs@));
    let request = ConversionRequest {
        images,
        format,
        resize,
        quality: preset.quality,
        filename_component: preset.filename_component.clone(),
        filename_mode: preset.filename_mode.clone(),
        output_dir: preset.output_directory.clone(),
        collision_mode: CollisionMode::Error,
    };
    Ok(
        ConversionPlan {
            request,
            label: Some(preset.name.clone()),
            input_format,
            output_format,
            output_folder: preset.output_directory.clone(),
        },
    )
}

/// What a command line asks for.
#[derive(Debug)]
pub enum CliCommand {
    /// Print the usage text.
    Help,
    /// Print the version.
    Version,
    /// Convert images, directly or with presets.
    Convert(ConvertOptions),
    /// List the stored presets.
    ListPresets,
    /// Store a new preset.
    CreatePreset(PresetOptions),
    /// Change a stored preset.
    UpdatePreset(PresetOptions),
    /// Delete the preset of this name.
    DeletePreset(String),
    /// Print the statistics.
    Stats,
}

/// What a command line asks for, as text.
pub enum CliCommandView {
    Help,
    Version,
    Convert(ConvertOptionsView),
    ListPresets,
    CreatePreset(PresetOptionsView),
    UpdatePreset(PresetOptionsView),
    DeletePreset(Seq<char>),
    Stats,
}

impl View for CliCommand {
    type V = CliCommandView;

    open spec fn view(&self) -> CliCommandView {
        match self {
            CliCommand::Help => CliCommandView::Help,
            CliCommand::Version => CliCommandView::Version,
            CliCommand::Convert(o) => CliCommandView::Convert(o@),
            CliCommand::ListPresets => CliCommandView::ListPresets,
            CliCommand::CreatePreset(o) => CliCommandView::CreatePreset(o@),
            CliCommand::UpdatePreset(o) => CliCommandView::UpdatePreset(o@),
            CliCommand::DeletePreset(n) => CliCommandView::DeletePreset(n@),
            CliCommand::Stats => CliCommandView::Stats,
        }
    }
}

/// Whether an argument asks for help.
pub open spec fn is_help(a: Seq<char>) -> bool {
    a == "--help"@ || a == "-h"@
}

/// Whether any of the arguments asks for help.
pub open spec fn has_help(args: Seq<Seq<char>>) -> bool {
    exists|i: int| 0 <= i < args.len() && is_help(#[trigger] args[i])
}

/// What `bulkpixel presets ...` asks for, given the arguments after `presets`.
pub open spec fn presets_command_spec(args: Seq<Seq<char>>) -> Result<CliCommandView, Seq<char>> {
    if args.len() == 0 {
        Err("Missing presets command."@)
    } else if is_help(args[0]) {
        Ok(CliCommandView::Help)
    } else if args[0] == "list"@ {
        Ok(CliCommandView::ListPresets)
    } else if args[0] == "create"@ || args[0] == "update"@ || args[0] == "delete"@ {
        match parse_preset_from(args.subrange(1, args.len() as int), 0, preset_options_start()) {
            Err(m) => Err(m),
            Ok(o) => if args[0] == "create"@ {
                Ok(CliCommandView::CreatePreset(o))
            } else if args[0] == "update"@ {
                Ok(CliCommandView::UpdatePreset(o))
            } else {
                match o.name {
                    Some(n) => Ok(CliCommandView::DeletePreset(n)),
                    None => Err("--name is required."@),
                }
            },
        }
    } else {
        Err("Unknown presets command: "@ + args[0])
    }
}

/// What a command line asks for: help (no arguments, `--help` or `-h`),
/// the version (`--version` or `-V`), or one of `convert`, `presets`,
/// `stats`; `convert` and `stats` show help when any argument asks for it.
pub open spec fn command_spec(args: Seq<Seq<char>>) -> Result<CliCommandView, Seq<char>> {
    if args.len() == 0 || is_help(args[0]) {
        Ok(CliCommandView::Help)
    } else if args[0] == "--version"@ || args[0] == "-V"@ {
        Ok(CliCommandView::Version)
    } else {
        let rest = args.subrange(1, args.len() as int);
        if args[0] == "convert"@ {
            if has_help(rest) {
                Ok(CliCommandView::Help)
            } else {
                match parse_convert_from(rest, 0, convert_options_start()) {
                    Ok(o) => Ok(CliCommandView::Convert(o)),
                    Err(m) => Err(m),
                }
            }
        } else if args[0] == "presets"@ {
            presets_command_spec(rest)
        } else if args[0] == "stats"@ {
            if has_help(rest) {
                Ok(CliCommandView::Help)
            } else {
                Ok(CliCommandView::Stats)
            }
        } else {
            Err("Unknown command: "@ + args[0])
        }
    }
}

fn is_help_arg(a: &String) -> (b: bool)
    ensures
        b == is_help(a@),
{
    str_eq(a.as_str(), "--help") || str_eq(a.as_str(), "-h")
}

fn any_help(args: &[String]) -> (b: bool)
    ensures
        b == has_help(views(args@)),
{
    let ghost a = views(args@);
    let mut i: usize = 0;
    while i < args.len()
        invariant
            a == views(args@),
            i <= args@.len(),
            forall|k: int| 0 <= k < i ==> !is_help(#[trigger] a[k]),
        decreases args@.len() - i,
    {
        if is_help_arg(&args[i]) {
            assert(is_help(a[i as int]));
            return true;
        }
        i = i + 1;
    }
    false
}

/// Reads what a command line (without the program name) asks for.
pub fn parse_command(args: &[String]) -> (r: Result<CliCommand, String>)
    ensures
        match (r, command_spec(views(args@))) {
            (Ok(c), Ok(v)) => c@ == v,
            (Err(m), Err(sm)) => m@ == sm,
            _ => false,
        },
{
    let ghost a = views(args@);
    if args.len() == 0 || is_help_arg(&args[0]) {
        return Ok(CliCommand::Help);
    }
    let first = args[0].as_str();
    if str_eq(first, "--version") || str_eq(first, "-V") {
        return Ok(CliCommand::Version);
    }
    let rest = &args[1..args.len()];
    assert(views(rest@) =~= a.subrange(1, a.len() as int));
    if str_eq(first, "convert") {
        if any_help(rest) {
            return Ok(CliCommand::Help);
        }
        let options = parse_convert_options(rest)?;
        return Ok(CliCommand::Convert(options));
    }
    if str_eq(first, "presets") {
        return parse_presets_command(rest);
    }
    if str_eq(first, "stats") {
        if any_help(rest) {
            return Ok(CliCommand::Help);
        }
        return Ok(CliCommand::Stats);
    }
    let mut m = String::from_str("Unknown command: ");
    m.append(first);
    Err(m)
}

/// Reads what `bulkpixel presets ...` asks for.
pub fn parse_presets_command(args: &[String]) -> (r: Result<CliCommand, String>)
    ensures
        match (r, presets_command_spec(views(args@))) {
            (Ok(c), Ok(v)) => c@ == v,
            (Err(m), Err(sm)) => m@ == sm,
            _ => false,
        },
{
    let ghost a = views(args@);
    if args.len() == 0 {
        return Err(String::from_str("Missing presets command."));
    }
    let command = args[0].as_str();
    if is_help_arg(&args[0]) {
        return Ok(CliCommand::Help);
    }
    if str_eq(command, "list") {
        return Ok(CliCommand::ListPresets);
    }
    if str_eq(command, "create") || str_eq(command, "update") || str_eq(command, "delete") {
        let rest = &args[1..args.len()];
        assert(views(rest@) =~= a.subrange(1, a.len() as int));
        let options = parse_preset_options(rest)?;
        if str_eq(command, "create") {
            return Ok(CliCommand::CreatePreset(options));
        }
        if str_eq(command, "update") {
            return Ok(CliCommand::UpdatePreset(options));
        }
        return match options.name {
            Some(n) => Ok(CliCommand::DeletePreset(n)),
            None => Err(String::from_str("--name is required.")),
        };
    }
    let mut m = String::from_str("Unknown presets command: ");
    m.append(command);
    Err(m)
}

} // verus!
