//! The rules of a batch conversion: which requests are valid, which inputs are
//! images, how large an output is, what it is called and where it goes, and
//! the totals of a batch. Decoding, scaling and encoding pixels happen
//! outside this crate.

use vstd::prelude::*;
use crate::models::{CollisionMode, ConversionRequest};
use crate::paths::{extension, extension_spec, file_name, file_name_spec, file_stem, file_stem_spec, join, join_spec};
use crate::text::{
    lemma_decimal_digits, lemma_decimal_injective, lemma_trim_by_subrange, ascii_case, ascii_lower, chars_of, decimal, is_ascii_control_spec, push_char,
    push_decimal, str_eq, string_from_range, trim, trim_bounds, trim_by, trim_spec, is_ascii_control,
};

verus! {

broadcast use vstd::string::group_string_axioms;

/// The largest width or height that a resize may ask for.
pub const MAX_RESIZE_DIMENSION: u32 = 9999;

/// The box that previews are fitted into.
pub const THUMBNAIL_WIDTH: u32 = 220;

/// The box that previews are fitted into.
pub const THUMBNAIL_HEIGHT: u32 = 140;

/// Why a conversion, or a step of it, failed.
#[derive(Debug)]
pub enum AppError {
    /// The request or an input was refused; the text says why.
    Validation(String),
    /// A file could not be read or written.
    Io(String),
    /// An image could not be decoded or encoded.
    Image(String),
    /// An SVG could not be read or rendered.
    Svg(String),
}

/// The text that an error shows.
pub open spec fn app_error_message(e: AppError) -> Seq<char> {
    match e {
        AppError::Validation(m) => m@,
        AppError::Io(m) => "File system error: "@ + m@,
        AppError::Image(m) => "Image processing error: "@ + m@,
        AppError::Svg(m) => "SVG processing error: "@ + m@,
    }
}

impl AppError {
    /// The text that this error shows.
    pub fn message(&self) -> (r: String)
        ensures
            r@ == app_error_message(*self),
    {
        match self {
            AppError::Validation(m) => m.clone(),
            AppError::Io(m) => {
                let mut r = String::from_str("File system error: ");
                r.append(m.as_str());
                r
            },
            AppError::Image(m) => {
                let mut r = String::from_str("Image processing error: ");
                r.append(m.as_str());
                r
            },
            AppError::Svg(m) => {
                let mut r = String::from_str("SVG processing error: ");
                r.append(m.as_str());
                r
            },
        }
    }
}

/// Whether `value` is a width or height that a resize may ask for.
pub open spec fn valid_resize_dimension_spec(value: u32) -> bool {
    1 <= value <= MAX_RESIZE_DIMENSION
}

/// Returns whether `value` is a width or height that a resize may ask for.
pub fn is_valid_resize_dimension(value: u32) -> (b: bool)
    ensures
        b == valid_resize_dimension_spec(value),
{
    1 <= value && value <= MAX_RESIZE_DIMENSION
}

/// Why a conversion request is refused, if it is.
pub open spec fn request_problem(request: ConversionRequest) -> Option<Seq<char>> {
    if request.images@.len() == 0 {
        Some("Add at least one image before converting."@)
    } else if trim_spec(request.output_dir@).len() == 0 {
        Some("Choose an output folder before converting."@)
    } else if request.resize.width is Some && !valid_resize_dimension_spec(
        request.resize.width->0,
    ) {
        Some("Width must be between 1 and 9999."@)
    } else if request.resize.height is Some && !valid_resize_dimension_spec(
        request.resize.height->0,
    ) {
        Some("Height must be between 1 and 9999."@)
    } else if request.resize.width is Some && request.resize.height is Some {
        Some("Enter either width or height, not both."@)
    } else if !(1 <= request.quality <= 100) {
        Some("Quality must be between 1 and 100."@)
    } else {
        None
    }
}

/// Checks a conversion request before any image is touched: there are
/// images and an output folder, at most one of width and height is given and
/// it lies in 1..=9999, and the quality lies in 1..=100.
pub fn validate_request(request: &ConversionRequest) -> (r: Result<(), AppError>)
    ensures
        match (r, request_problem(*request)) {
            (Ok(()), None) => true,
            (Err(AppError::Validation(m)), Some(p)) => m@ == p,
            _ => false,
        },
{
    if request.images.len() == 0 {
        return Err(AppError::Validation(String::from_str("Add at least one image before converting.")));
    }
    let dir = trim(request.output_dir.as_str());
    if dir.as_str().unicode_len() == 0 {
        return Err(AppError::Validation(String::from_str("Choose an output folder before converting.")));
    }
    match (request.resize.width, request.resize.height) {
        (Some(width), _) if !is_valid_resize_dimension(width) => {
            return Err(AppError::Validation(String::from_str("Width must be between 1 and 9999.")));
        },
        (_, Some(height)) if !is_valid_resize_dimension(height) => {
            return Err(AppError::Validation(String::from_str("Height must be between 1 and 9999.")));
        },
        (Some(_), Some(_)) => {
            return Err(AppError::Validation(String::from_str("Enter either width or height, not both.")));
        },
        _ => {},
    }
    if !(1 <= request.quality && request.quality <= 100) {
        return Err(AppError::Validation(String::from_str("Quality must be between 1 and 100.")));
    }
    Ok(())
}

/// `a / b` rounded to the nearest integer, halves away from zero (`f64::round`).
pub open spec fn round_div(a: nat, b: nat) -> nat
    recommends
        b > 0,
{
    (2 * a + b) / (2 * b)
}

/// The other side of a resize: `side * target / source` rounded, as the float
/// computation gives it, saturated to `u32` (a zero source gives `0` for a
/// zero numerator and `u32::MAX` otherwise).
pub open spec fn scaled_side(side: nat, target: nat, source: nat) -> nat {
    if source == 0 {
        if side * target == 0 {
            0
        } else {
            u32::MAX as nat
        }
    } else if round_div(side * target, source) > u32::MAX {
        u32::MAX as nat
    } else {
        round_div(side * target, source)
    }
}

/// At least one.
pub open spec fn at_least_one(x: nat) -> nat {
    if x == 0 {
        1
    } else {
        x
    }
}

/// The size of a resized image: a target width fixes the height by the
/// source's aspect ratio, a target height fixes the width, and without a
/// single target the size stays.
pub open spec fn resize_dimensions_spec(
    source_width: u32,
    source_height: u32,
    width: Option<u32>,
    height: Option<u32>,
) -> (nat, nat) {
    match (width, height) {
        (Some(w), None) => (
            at_least_one(w as nat),
            at_least_one(scaled_side(source_height as nat, w as nat, source_width as nat)),
        ),
        (None, Some(h)) => (
            at_least_one(scaled_side(source_width as nat, h as nat, source_height as nat)),
            at_least_one(h as nat),
        ),
        _ => (source_width as nat, source_height as nat),
    }
}

/// `side * target / source`, rounded and saturated as `scaled_side` says.
fn scale_side(side: u32, target: u32, source: u32) -> (r: u32)
    requires
        target <= MAX_RESIZE_DIMENSION,
    ensures
        r as nat == scaled_side(side as nat, target as nat, source as nat),
{
    assert((side as u64) * (target as u64) <= 0xffff_ffff * 9999) by (nonlinear_arith)
        requires
            target <= 9999,
    ;
    let product: u64 = (side as u64) * (target as u64);
    if source == 0 {
        if product == 0 {
            0
        } else {
            u32::MAX
        }
    } else {
        let rounded: u64 = (2 * product + source as u64) / (2 * source as u64);
        if rounded > u32::MAX as u64 {
            u32::MAX
        } else {
            rounded as u32
        }
    }
}

/// The size of a resized image. Width and height targets are those that a
/// valid request carries (at most 9999), where the rounding matches the float
/// computation exactly.
pub fn resize_dimensions(
    source_width: u32,
    source_height: u32,
    width: Option<u32>,
    height: Option<u32>,
) -> (r: (u32, u32))
    requires
        width matches Some(w) ==> w <= MAX_RESIZE_DIMENSION,
        height matches Some(h) ==> h <= MAX_RESIZE_DIMENSION,
    ensures
        (r.0 as nat, r.1 as nat) == resize_dimensions_spec(source_width, source_height, width, height),
{
    match (width, height) {
        (Some(width), None) => {
            let computed_height = scale_side(source_height, width, source_width);
            (if width == 0 { 1 } else { width }, if computed_height == 0 { 1 } else { computed_height })
        },
        (None, Some(height)) => {
            let computed_width = scale_side(source_width, height, source_height);
            (if computed_width == 0 { 1 } else { computed_width }, if height == 0 { 1 } else { height })
        },
        _ => (source_width, source_height),
    }
}

/// The character that replaces `c` in a file name part: ASCII control
/// characters and `/ \ : * ? " < > |` become `_`.
pub open spec fn sanitize_char_spec(c: char) -> char {
    if is_ascii_control_spec(c) || c == '/' || c == '\\' || c == ':' || c == '*' || c == '?' || c
        == '"' || c == '<' || c == '>' || c == '|' {
        '_'
    } else {
        c
    }
}

/// A file name part made safe: trimmed, unsafe characters replaced by `_`,
/// and leading and trailing dots and spaces removed.
pub open spec fn sanitize_spec(s: Seq<char>) -> Seq<char> {
    trim_by(trim_spec(s).map_values(|c: char| sanitize_char_spec(c)), true)
}

fn sanitize_char(c: char) -> (r: char)
    ensures
        r == sanitize_char_spec(c),
{
    if is_ascii_control(c) || c == '/' || c == '\\' || c == ':' || c == '*' || c == '?' || c == '"'
        || c == '<' || c == '>' || c == '|' {
        '_'
    } else {
        c
    }
}

/// Makes a file name part safe to use: trims it, replaces ASCII control
/// characters and `/ \ : * ? " < > |` with `_`, and strips leading and
/// trailing dots and spaces.
pub fn sanitize_component(value: &str) -> (r: String)
    ensures
        r@ == sanitize_spec(value@),
{
    let trimmed = trim(value);
    let v = chars_of(trimmed.as_str());
    let mut mapped: Vec<char> = Vec::new();
    let mut i: usize = 0;
    while i < v.len()
        invariant
            i <= v.len(),
            mapped@ == v@.subrange(0, i as int).map_values(|c: char| sanitize_char_spec(c)),
        decreases v.len() - i,
    {
        mapped.push(sanitize_char(v[i]));
        assert(v@.subrange(0, i + 1).map_values(|c: char| sanitize_char_spec(c)) =~= v@.subrange(
            0,
            i as int,
        ).map_values(|c: char| sanitize_char_spec(c)).push(sanitize_char_spec(v@[i as int])));
        i = i + 1;
    }
    assert(v@.subrange(0, v.len() as int) =~= v@);
    let (a, b) = trim_bounds(&mapped, true);
    string_from_range(&mapped, a, b)
}

/// The name of an output without its extension: the sanitized stem of the
/// source (or `image` when that is empty or missing), with the sanitized
/// prefix before it or, in `postfix` mode, the postfix after it.
pub open spec fn base_name_spec(component: Seq<char>, mode: Seq<char>, source: Seq<char>) -> Seq<
    char,
> {
    let stem = match file_stem_spec(source) {
        Some(s) => s,
        None => "image"@,
    };
    let c = sanitize_spec(component);
    let st = sanitize_spec(stem);
    let name = if st.len() == 0 {
        "image"@
    } else {
        st
    };
    if c.len() == 0 {
        name
    } else if mode == "postfix"@ {
        name + c
    } else {
        c + name
    }
}

/// The file name tried at step `counter`: `base.ext`, then `base_1.ext`, `base_2.ext`, ...
pub open spec fn candidate_name(base: Seq<char>, ext: Seq<char>, counter: nat) -> Seq<char> {
    if counter == 0 {
        base + seq!['.'] + ext
    } else {
        base + seq!['_'] + decimal(counter) + seq!['.'] + ext
    }
}

/// The output path tried at step `counter`.
pub open spec fn candidate_path(dir: Seq<char>, base: Seq<char>, ext: Seq<char>, counter: nat) -> Seq<
    char,
> {
    join_spec(dir, candidate_name(base, ext, counter))
}

/// Whether `path` is among the output paths already taken in this batch.
pub open spec fn reserved_contains(reserved: Seq<String>, path: Seq<char>) -> bool {
    exists|i: int| 0 <= i < reserved.len() && reserved[i]@ == path
}

/// The output name without extension for a source image.
pub fn output_base_name(filename_component: &str, filename_mode: &str, source_path: &str) -> (r:
    String)
    ensures
        r@ == base_name_spec(filename_component@, filename_mode@, source_path@),
{
    let stem = match file_stem(source_path) {
        Some(s) => s,
        None => String::from_str("image"),
    };
    let component = sanitize_component(filename_component);
    let sanitized_stem = sanitize_component(stem.as_str());
    let name = if sanitized_stem.as_str().unicode_len() == 0 {
        String::from_str("image")
    } else {
        sanitized_stem
    };
    if component.as_str().unicode_len() == 0 {
        name
    } else if str_eq(filename_mode, "postfix") {
        let mut r = name;
        r.append(component.as_str());
        r
    } else {
        let mut r = component;
        r.append(name.as_str());
        r
    }
}

/// The file name tried at step `counter`.
pub fn candidate_file_name(base: &str, ext: &str, counter: usize) -> (r: String)
    ensures
        r@ == candidate_name(base@, ext@, counter as nat),
{
    let mut r = base.to_owned();
    if counter > 0 {
        push_char(&mut r, '_');
        push_decimal(&mut r, counter as u64);
    }
    push_char(&mut r, '.');
    r.append(ext);
    r
}

/// Returns whether `path` is among the output paths already taken.
pub fn contains_path(reserved: &Vec<String>, path: &String) -> (b: bool)
    ensures
        b == reserved_contains(reserved@, path@),
{
    let mut i: usize = 0;
    while i < reserved.len()
        invariant
            i <= reserved@.len(),
            forall|k: int| 0 <= k < i ==> reserved@[k]@ != path@,
        decreases reserved@.len() - i,
    {
        if reserved[i] == *path {
            return true;
        }
        i = i + 1;
    }
    false
}

/// Whether something is at `path` on disk (`Path::exists`). The answer
/// depends on the disk at the moment of the call, so nothing is stated of it.
#[verifier::external_body]
fn path_exists(path: &str) -> bool {
    std::path::Path::new(path).exists()
}

/// Takes `output_path` for this batch. A path already taken in the batch is
/// refused; so is one that exists on disk, unless `allow_existing` is set.
pub fn reserve_exact_output_path(
    output_path: String,
    reserved_names: &mut Vec<String>,
    allow_existing: bool,
) -> (r: Result<String, AppError>)
    ensures
        reserved_contains(old(reserved_names)@, output_path@) ==> (r matches Err(
            AppError::Validation(m),
        ) && m@ == "Output file would be written more than once: "@ + output_path@
            && final(reserved_names)@ == old(reserved_names)@),
        !reserved_contains(old(reserved_names)@, output_path@) && allow_existing ==> (r matches Ok(
            p,
        ) && p == output_path && final(reserved_names)@ == old(reserved_names)@.push(output_path)),
        !reserved_contains(old(reserved_names)@, output_path@) && !allow_existing ==> ((r matches Ok(
            p,
        ) && p == output_path && final(reserved_names)@ == old(reserved_names)@.push(output_path))
            || (r matches Err(AppError::Validation(m)) && m@ == "Output file already exists: "@
            + output_path@ && final(reserved_names)@ == old(reserved_names)@)),
{
    if contains_path(reserved_names, &output_path) {
        let mut m = String::from_str("Output file would be written more than once: ");
        m.append(output_path.as_str());
        return Err(AppError::Validation(m));
    }
    let exists = !allow_existing && path_exists(output_path.as_str());
    reserve_checked_output_path(output_path, reserved_names, allow_existing, exists)
}

/// Takes `output_path` for this batch, given whether a file is at that path
/// on disk (`exists_on_disk`). A path already taken in the batch is refused;
/// so is an existing file, unless `allow_existing` is set: no file is ever
/// overwritten without it.
pub fn reserve_checked_output_path(
    output_path: String,
    reserved_names: &mut Vec<String>,
    allow_existing: bool,
    exists_on_disk: bool,
) -> (r: Result<String, AppError>)
    ensures
        reserved_contains(old(reserved_names)@, output_path@) ==> (r matches Err(
            AppError::Validation(m),
        ) && m@ == "Output file would be written more than once: "@ + output_path@
            && final(reserved_names)@ == old(reserved_names)@),
        !reserved_contains(old(reserved_names)@, output_path@) && !allow_existing && exists_on_disk
            ==> (r matches Err(AppError::Validation(m)) && m@ == "Output file already exists: "@
            + output_path@ && final(reserved_names)@ == old(reserved_names)@),
        !reserved_contains(old(reserved_names)@, output_path@) && (allow_existing
            || !exists_on_disk) ==> (r matches Ok(p) && p == output_path && final(reserved_names)@
            == old(reserved_names)@.push(output_path)),
{
    if contains_path(reserved_names, &output_path) {
        let mut m = String::from_str("Output file would be written more than once: ");
        m.append(output_path.as_str());
        return Err(AppError::Validation(m));
    }
    if !allow_existing && exists_on_disk {
        let mut m = String::from_str("Output file already exists: ");
        m.append(output_path.as_str());
        return Err(AppError::Validation(m));
    }
    reserved_names.push(output_path.clone());
    Ok(output_path)
}

/// Whether `probe`, asked whether a file is at a path with the text `path`,
/// may have answered `answer`.
pub open spec fn reported<F: Fn(String) -> bool>(probe: F, path: Seq<char>, answer: bool) -> bool {
    exists|q: String| q@ == path && #[trigger] call_ensures(probe, (q,), answer)
}

/// Whether the candidate at step `counter` was unusable in `Rename` mode:
/// taken in the batch, or reported present on disk.
pub open spec fn candidate_taken<F: Fn(String) -> bool>(
    probe: F,
    reserved: Seq<String>,
    dir: Seq<char>,
    base: Seq<char>,
    ext: Seq<char>,
    counter: nat,
) -> bool {
    reserved_contains(reserved, candidate_path(dir, base, ext, counter)) || reported(
        probe,
        candidate_path(dir, base, ext, counter),
        true,
    )
}

/// Picks the output path for one source image and takes it for this batch,
/// asking `exists_on_disk` whether a file is at a path.
///
/// The name is `base_name_spec` with the format's extension, in
/// `output_dir`.
/// - `Rename`: the steps `name.ext`, `name_1.ext`, `name_2.ext`, ... are
///   tried in turn, each first on disk, and the first one that is neither
///   reported present nor taken in the batch is taken. Only when every step
///   below `usize::MAX` is unusable does it fail.
/// - `Error`: the exact name is refused when it is taken in the batch or
///   reported present on disk.
/// - `Overwrite`: the exact name is refused only when it is taken in the
///   batch; the disk is not asked.
pub fn next_output_path_probing<F: Fn(String) -> bool>(
    output_dir: &str,
    filename_component: &str,
    filename_mode: &str,
    source_path: &str,
    target_extension: &str,
    collision_mode: &CollisionMode,
    reserved_names: &mut Vec<String>,
    exists_on_disk: F,
) -> (r: Result<String, AppError>)
    requires
        forall|p: String| call_requires(exists_on_disk, (p,)),
    ensures
        ({
            let base = base_name_spec(filename_component@, filename_mode@, source_path@);
            let exact = candidate_path(output_dir@, base, target_extension@, 0);
            match *collision_mode {
                CollisionMode::Rename => match r {
                    Ok(p) => exists|k: nat|
                        {
                            &&& k < usize::MAX
                            &&& p@ == #[trigger] candidate_path(output_dir@, base, target_extension@, k)
                            &&& !reserved_contains(old(reserved_names)@, p@)
                            &&& reported(exists_on_disk, p@, false)
                            &&& forall|j: nat|
                                j < k ==> candidate_taken(
                                    exists_on_disk,
                                    old(reserved_names)@,
                                    output_dir@,
                                    base,
                                    target_extension@,
                                    j,
                                )
                            &&& final(reserved_names)@ == old(reserved_names)@.push(p)
                        },
                    Err(e) => e matches AppError::Validation(m) && m@
                        == "No free output file name is left."@ && final(reserved_names)@ == old(
                        reserved_names,
                    )@ && forall|j: nat|
                        j < usize::MAX ==> candidate_taken(
                            exists_on_disk,
                            old(reserved_names)@,
                            output_dir@,
                            base,
                            target_extension@,
                            j,
                        ),
                },
                CollisionMode::Overwrite => if reserved_contains(old(reserved_names)@, exact) {
                    r matches Err(AppError::Validation(m)) && m@
                        == "Output file would be written more than once: "@ + exact
                        && final(reserved_names)@ == old(reserved_names)@
                } else {
                    r matches Ok(p) && p@ == exact && final(reserved_names)@ == old(
                        reserved_names,
                    )@.push(p)
                },
                CollisionMode::Error => if reserved_contains(old(reserved_names)@, exact) {
                    r matches Err(AppError::Validation(m)) && m@
                        == "Output file would be written more than once: "@ + exact
                        && final(reserved_names)@ == old(reserved_names)@
                } else {
                    (r matches Ok(p) && p@ == exact && reported(exists_on_disk, exact, false)
                        && final(reserved_names)@ == old(reserved_names)@.push(p)) || (r matches Err(
                        AppError::Validation(m),
                    ) && m@ == "Output file already exists: "@ + exact && reported(
                        exists_on_disk,
                        exact,
                        true,
                    ) && final(reserved_names)@ == old(reserved_names)@)
                },
            }
        }),
{
    let base = output_base_name(filename_component, filename_mode, source_path);
    match collision_mode {
        CollisionMode::Overwrite => {
            let name = candidate_file_name(base.as_str(), target_extension, 0);
            let output_path = join(output_dir, name.as_str());
            reserve_checked_output_path(output_path, reserved_names, true, false)
        },
        CollisionMode::Error => {
            let name = candidate_file_name(base.as_str(), target_extension, 0);
            let output_path = join(output_dir, name.as_str());
            if contains_path(reserved_names, &output_path) {
                return reserve_checked_output_path(output_path, reserved_names, false, false);
            }
            let probe = output_path.clone();
            let ghost asked = probe;
            let on_disk = exists_on_disk(probe);
            assert(reported(exists_on_disk, output_path@, on_disk));
            reserve_checked_output_path(output_path, reserved_names, false, on_disk)
        },
        CollisionMode::Rename => {
            let ghost b = base@;
            let mut counter: usize = 0;
            while counter < usize::MAX
                invariant
                    base@ == base_name_spec(filename_component@, filename_mode@, source_path@),
                    b == base@,
                    reserved_names@ == old(reserved_names)@,
                    *collision_mode == CollisionMode::Rename,
                    forall|p: String| call_requires(exists_on_disk, (p,)),
                    forall|j: nat|
                        j < counter ==> candidate_taken(
                            exists_on_disk,
                            old(reserved_names)@,
                            output_dir@,
                            b,
                            target_extension@,
                            j,
                        ),
                decreases usize::MAX - counter,
            {
                let name = candidate_file_name(base.as_str(), target_extension, counter);
                let candidate = join(output_dir, name.as_str());
                assert(candidate@ == candidate_path(output_dir@, b, target_extension@, counter as nat));
                let probe = candidate.clone();
                let ghost asked = probe;
                let on_disk = exists_on_disk(probe);
                assert(reported(exists_on_disk, candidate@, on_disk));
                if !on_disk && !contains_path(reserved_names, &candidate) {
                    reserved_names.push(candidate.clone());
                    return Ok(candidate);
                }
                assert(candidate_taken(
                    exists_on_disk,
                    old(reserved_names)@,
                    output_dir@,
                    b,
                    target_extension@,
                    counter as nat,
                ));
                counter = counter + 1;
            }
            Err(AppError::Validation(String::from_str("No free output file name is left.")))
        },
    }
}

/// Picks the output path for one source image and takes it for this batch,
/// asking the disk whether a file is at a path (see `next_output_path_probing`).
pub fn next_available_output_path(
    output_dir: &str,
    filename_component: &str,
    filename_mode: &str,
    source_path: &str,
    target_extension: &str,
    collision_mode: &CollisionMode,
    reserved_names: &mut Vec<String>,
) -> (r: Result<String, AppError>)
    ensures
        ({
            let base = base_name_spec(filename_component@, filename_mode@, source_path@);
            let exact = candidate_path(output_dir@, base, target_extension@, 0);
            match *collision_mode {
                CollisionMode::Rename => match r {
                    Ok(p) => (exists|k: nat|
                        p@ == #[trigger] candidate_path(output_dir@, base, target_extension@, k))
                        && !reserved_contains(old(reserved_names)@, p@) && final(reserved_names)@
                        == old(reserved_names)@.push(p),
                    Err(e) => e matches AppError::Validation(m) && m@
                        == "No free output file name is left."@ && final(reserved_names)@ == old(
                        reserved_names,
                    )@,
                },
                CollisionMode::Overwrite => if reserved_contains(old(reserved_names)@, exact) {
                    r matches Err(AppError::Validation(m)) && m@
                        == "Output file would be written more than once: "@ + exact
                        && final(reserved_names)@ == old(reserved_names)@
                } else {
                    r matches Ok(p) && p@ == exact && final(reserved_names)@ == old(
                        reserved_names,
                    )@.push(p)
                },
                CollisionMode::Error => if reserved_contains(old(reserved_names)@, exact) {
                    r matches Err(AppError::Validation(m)) && m@
                        == "Output file would be written more than once: "@ + exact
                        && final(reserved_names)@ == old(reserved_names)@
                } else {
                    (r matches Ok(p) && p@ == exact && final(reserved_names)@ == old(
                        reserved_names,
                    )@.push(p)) || (r matches Err(AppError::Validation(m)) && m@
                        == "Output file already exists: "@ + exact && final(reserved_names)@
                        == old(reserved_names)@)
                },
            }
        }),
{
    let on_disk = |path: String| -> (b: bool) { path_exists(path.as_str()) };
    next_output_path_probing(
        output_dir,
        filename_component,
        filename_mode,
        source_path,
        target_extension,
        collision_mode,
        reserved_names,
        on_disk,
    )
}

/// Whether an extension names an input format that conversions read.
pub open spec fn supported_extension(ext: Seq<char>) -> bool {
    let e = ascii_lower(ext);
    e == "jpg"@ || e == "jpeg"@ || e == "png"@ || e == "webp"@ || e == "avif"@ || e == "svg"@
}

/// The file name of a path, or the whole path when it has none.
pub open spec fn name_or_path(path: Seq<char>) -> Seq<char> {
    match file_name_spec(path) {
        Some(n) => n,
        None => path,
    }
}

/// Why an input path is refused, if it is: it has no extension, or one that
/// conversions do not read.
pub open spec fn input_extension_problem(path: Seq<char>) -> Option<Seq<char>> {
    match extension_spec(path) {
        None => Some("Unsupported file type."@),
        Some(e) => if supported_extension(e) {
            None
        } else {
            Some(name_or_path(path) + " is not a supported image type."@)
        },
    }
}

/// The file name of a path, or the whole path when it has none.
pub fn original_name(path: &str) -> (r: String)
    ensures
        r@ == name_or_path(path@),
{
    match file_name(path) {
        Some(n) => n,
        None => path.to_owned(),
    }
}

/// Returns whether the ASCII-lowercased `ext` is one of the input formats.
fn is_supported_extension(ext: &str) -> (b: bool)
    ensures
        b == supported_extension(ext@),
{
    let e = ascii_case(ext, false);
    let e = e.as_str();
    str_eq(e, "jpg") || str_eq(e, "jpeg") || str_eq(e, "png") || str_eq(e, "webp") || str_eq(
        e,
        "avif",
    ) || str_eq(e, "svg")
}

/// Accepts a path whose extension is jpg, jpeg, png, webp, avif or svg, in
/// any ASCII case.
pub fn validate_input_extension(path: &str) -> (r: Result<(), AppError>)
    ensures
        match (r, input_extension_problem(path@)) {
            (Ok(()), None) => true,
            (Err(AppError::Validation(m)), Some(p)) => m@ == p,
            _ => false,
        },
{
    match extension(path) {
        None => Err(AppError::Validation(String::from_str("Unsupported file type."))),
        Some(ext) => {
            if is_supported_extension(ext.as_str()) {
                Ok(())
            } else {
                let mut m = original_name(path);
                m.append(" is not a supported image type.");
                Err(AppError::Validation(m))
            }
        },
    }
}

/// Whether a path has the extension `svg`, in any ASCII case.
pub open spec fn is_svg_spec(path: Seq<char>) -> bool {
    match extension_spec(path) {
        Some(e) => ascii_lower(e) == "svg"@,
        None => false,
    }
}

/// Returns whether a path names an SVG file.
pub fn is_svg(path: &str) -> (b: bool)
    ensures
        b == is_svg_spec(path@),
{
    match extension(path) {
        Some(ext) => {
            let e = ascii_case(ext.as_str(), false);
            str_eq(e.as_str(), "svg")
        },
        None => false,
    }
}

/// The format name shown for an input file, by its extension.
pub open spec fn format_label_from_extension_spec(path: Seq<char>) -> Seq<char> {
    match extension_spec(path) {
        Some(e) => {
            let l = ascii_lower(e);
            if l == "jpg"@ || l == "jpeg"@ {
                "JPEG"@
            } else if l == "png"@ {
                "PNG"@
            } else if l == "webp"@ {
                "WEBP"@
            } else if l == "avif"@ {
                "AVIF"@
            } else if l == "svg"@ {
                "SVG"@
            } else {
                "Image"@
            }
        },
        None => "Image"@,
    }
}

/// The format name shown for an input file.
pub fn format_label_from_extension(path: &str) -> (r: String)
    ensures
        r@ == format_label_from_extension_spec(path@),
{
    match extension(path) {
        Some(ext) => {
            let l = ascii_case(ext.as_str(), false);
            let l = l.as_str();
            if str_eq(l, "jpg") || str_eq(l, "jpeg") {
                String::from_str("JPEG")
            } else if str_eq(l, "png") {
                String::from_str("PNG")
            } else if str_eq(l, "webp") {
                String::from_str("WEBP")
            } else if str_eq(l, "avif") {
                String::from_str("AVIF")
            } else if str_eq(l, "svg") {
                String::from_str("SVG")
            } else {
                String::from_str("Image")
            }
        },
        None => String::from_str("Image"),
    }
}

/// `x` read as a 64-bit two's complement value, for `x` within `2^64` of zero.
pub open spec fn wrap_i64(x: int) -> int {
    if x > i64::MAX {
        x - 0x1_0000_0000_0000_0000
    } else if x < i64::MIN {
        x + 0x1_0000_0000_0000_0000
    } else {
        x
    }
}

/// How many bytes an output saves over its source (`original as i64 -
/// converted as i64`, wrapping); negative when it is larger.
pub fn size_delta(original: u64, converted: u64) -> (d: i64)
    ensures
        d as int == wrap_i64(original as int - converted as int),
{
    let diff: i128 = original as i128 - converted as i128;
    if diff > i64::MAX as i128 {
        (diff - 0x1_0000_0000_0000_0000i128) as i64
    } else if diff < i64::MIN as i128 {
        (diff + 0x1_0000_0000_0000_0000i128) as i64
    } else {
        diff as i64
    }
}

/// The sizes of a converted image and of its source, in bytes.
#[derive(Debug, Clone, Copy)]
pub struct ItemSizes {
    pub original_size: u64,
    pub converted_size: u64,
}

/// The counts and byte totals of a batch.
#[derive(Debug, Clone, Copy)]
pub struct ConversionTotals {
    pub success_count: usize,
    pub failure_count: usize,
    pub total_original_size: u64,
    pub total_converted_size: u64,
    pub total_delta_bytes: i64,
}

/// How many items of a batch were converted (`Some`) so far.
pub open spec fn count_successes(items: Seq<Option<ItemSizes>>) -> nat
    decreases items.len(),
{
    if items.len() == 0 {
        0
    } else {
        count_successes(items.drop_last()) + if items.last() is Some {
            1nat
        } else {
            0nat
        }
    }
}

/// The sum of the source sizes of the converted items, wrapping at `2^64`.
pub open spec fn total_original(items: Seq<Option<ItemSizes>>) -> u64
    decreases items.len(),
{
    if items.len() == 0 {
        0
    } else {
        match items.last() {
            Some(s) => vstd::wrapping::u64_specs::wrapping_add(
                total_original(items.drop_last()),
                s.original_size,
            ),
            None => total_original(items.drop_last()),
        }
    }
}

/// The sum of the output sizes of the converted items, wrapping at `2^64`.
pub open spec fn total_converted(items: Seq<Option<ItemSizes>>) -> u64
    decreases items.len(),
{
    if items.len() == 0 {
        0
    } else {
        match items.last() {
            Some(s) => vstd::wrapping::u64_specs::wrapping_add(
                total_converted(items.drop_last()),
                s.converted_size,
            ),
            None => total_converted(items.drop_last()),
        }
    }
}

/// Adds up a batch: each item is the sizes of a converted image, or `None`
/// for an image that failed.
pub fn summarize(items: &Vec<Option<ItemSizes>>) -> (t: ConversionTotals)
    ensures
        t.success_count == count_successes(items@),
        t.failure_count + t.success_count == items@.len(),
        t.total_original_size == total_original(items@),
        t.total_converted_size == total_converted(items@),
        t.total_delta_bytes as int == wrap_i64(t.total_original_size as int - t.total_converted_size as int),
{
    let mut success_count: usize = 0;
    let mut failure_count: usize = 0;
    let mut total_original_size: u64 = 0;
    let mut total_converted_size: u64 = 0;
    let mut i: usize = 0;
    while i < items.len()
        invariant
            i <= items@.len(),
            success_count + failure_count == i,
            success_count == count_successes(items@.subrange(0, i as int)),
            total_original_size == total_original(items@.subrange(0, i as int)),
            total_converted_size == total_converted(items@.subrange(0, i as int)),
        decreases items@.len() - i,
    {
        proof {
            let p = items@.subrange(0, i + 1);
            assert(p.drop_last() =~= items@.subrange(0, i as int));
            assert(p.last() == items@[i as int]);
        }
        match items[i] {
            Some(sizes) => {
                success_count = success_count + 1;
                total_original_size = total_original_size.wrapping_add(sizes.original_size);
                total_converted_size = total_converted_size.wrapping_add(sizes.converted_size);
            },
            None => {
                failure_count = failure_count + 1;
            },
        }
        i = i + 1;
    }
    assert(items@.subrange(0, items@.len() as int) =~= items@);
    ConversionTotals {
        success_count,
        failure_count,
        total_original_size,
        total_converted_size,
        total_delta_bytes: size_delta(total_original_size, total_converted_size),
    }
}

/// The names tried for one output never coincide: `base.ext`, `base_1.ext`,
/// `base_2.ext`, ... are pairwise distinct.
pub proof fn lemma_candidate_names_distinct(base: Seq<char>, ext: Seq<char>, j: nat, k: nat)
    requires
        j != k,
    ensures
        candidate_name(base, ext, j) != candidate_name(base, ext, k),
{
    let nj = candidate_name(base, ext, j);
    let nk = candidate_name(base, ext, k);
    let b = base.len() as int;
    if j == 0 || k == 0 {
        let (z, o) = if j == 0 {
            (nj, nk)
        } else {
            (nk, nj)
        };
        assert(z[b] == '.');
        assert(o[b] == '_');
    } else {
        let dj = decimal(j);
        let dk = decimal(k);
        lemma_decimal_digits(j);
        lemma_decimal_digits(k);
        if nj == nk {
            if dj.len() == dk.len() {
                assert(nj.subrange(b + 1, b + 1 + dj.len()) =~= dj);
                assert(nk.subrange(b + 1, b + 1 + dk.len()) =~= dk);
                lemma_decimal_injective(j, k);
            } else if dj.len() < dk.len() {
                let p = b + 1 + dj.len();
                assert(nj[p] == '.');
                assert(nk[p] == dk[dj.len() as int]);
            } else {
                let p = b + 1 + dk.len();
                assert(nk[p] == '.');
                assert(nj[p] == dj[dk.len() as int]);
            }
        }
    }
}

/// Joining two relative names onto one directory gives the same path only
/// for the same name.
pub proof fn lemma_join_injective(dir: Seq<char>, a: Seq<char>, b: Seq<char>)
    requires
        a.len() > 0 && a[0] != '/',
        b.len() > 0 && b[0] != '/',
        join_spec(dir, a) == join_spec(dir, b),
    ensures
        a == b,
{
    let p = if dir.len() > 0 && dir.last() != '/' {
        dir + seq!['/']
    } else {
        dir
    };
    assert(join_spec(dir, a) == p + a);
    assert(join_spec(dir, b) == p + b);
    assert((p + a).subrange(p.len() as int, (p + a).len() as int) =~= a);
    assert((p + b).subrange(p.len() as int, (p + b).len() as int) =~= b);
}

/// A sanitized name part holds no `/`.
pub proof fn lemma_sanitize_no_slash(s: Seq<char>)
    ensures
        forall|i: int| 0 <= i < sanitize_spec(s).len() ==> #[trigger] sanitize_spec(s)[i] != '/',
{
    let m = trim_spec(s).map_values(|c: char| sanitize_char_spec(c));
    lemma_trim_by_subrange(m, true);
    let (a, b) = choose|a: int, b: int|
        0 <= a <= b <= m.len() && trim_by(m, true) == m.subrange(a, b);
    assert forall|i: int| 0 <= i < sanitize_spec(s).len() implies #[trigger] sanitize_spec(s)[i]
        != '/' by {
        assert(sanitize_spec(s)[i] == m[a + i]);
    }
}

/// The base of an output name is never empty and holds no `/`.
pub proof fn lemma_base_name_shape(component: Seq<char>, mode: Seq<char>, source: Seq<char>)
    ensures
        base_name_spec(component, mode, source).len() > 0,
        forall|i: int|
            0 <= i < base_name_spec(component, mode, source).len() ==> #[trigger] base_name_spec(
                component,
                mode,
                source,
            )[i] != '/',
{
    reveal_strlit("image");
    let stem = match file_stem_spec(source) {
        Some(s) => s,
        None => "image"@,
    };
    lemma_sanitize_no_slash(component);
    lemma_sanitize_no_slash(stem);
    let c = sanitize_spec(component);
    let st = sanitize_spec(stem);
    let name = if st.len() == 0 {
        "image"@
    } else {
        st
    };
    assert(name.len() > 0);
    assert(forall|i: int| 0 <= i < name.len() ==> #[trigger] name[i] != '/');
    let base = base_name_spec(component, mode, source);
    assert forall|i: int| 0 <= i < base.len() implies #[trigger] base[i] != '/' by {
        if c.len() != 0 {
            if mode == "postfix"@ {
                if i < name.len() {
                    assert(base[i] == name[i]);
                } else {
                    assert(base[i] == c[i - name.len()]);
                }
            } else {
                if i < c.len() {
                    assert(base[i] == c[i]);
                } else {
                    assert(base[i] == name[i - c.len()]);
                }
            }
        }
    }
}

/// Collision-safe naming: in one output folder, the paths that renaming
/// tries for a source image (`name.ext`, `name_1.ext`, `name_2.ext`, ...) are
/// pairwise distinct.
pub proof fn law_renamed_paths_distinct(
    output_dir: Seq<char>,
    component: Seq<char>,
    mode: Seq<char>,
    source: Seq<char>,
    ext: Seq<char>,
    j: nat,
    k: nat,
)
    requires
        j != k,
    ensures
        candidate_path(output_dir, base_name_spec(component, mode, source), ext, j) != candidate_path(
            output_dir,
            base_name_spec(component, mode, source),
            ext,
            k,
        ),
{
    let base = base_name_spec(component, mode, source);
    lemma_base_name_shape(component, mode, source);
    lemma_candidate_names_distinct(base, ext, j, k);
    let a = candidate_name(base, ext, j);
    let b = candidate_name(base, ext, k);
    assert(a[0] == base[0]);
    assert(b[0] == base[0]);
    if candidate_path(output_dir, base, ext, j) == candidate_path(output_dir, base, ext, k) {
        lemma_join_injective(output_dir, a, b);
    }
}

/// The user's downloads folder (`dirs::download_dir`), as text. It depends
/// on the platform and the environment, so nothing is stated of it.
#[verifier::external_body]
fn user_download_dir() -> Option<String> {
    match dirs::download_dir() {
        Some(path) => Some(path.to_string_lossy().into_owned()),
        None => None,
    }
}

/// The user's home folder (`dirs::home_dir`), as text. It depends on the
/// platform and the environment, so nothing is stated of it.
#[verifier::external_body]
fn user_home_dir() -> Option<String> {
    match dirs::home_dir() {
        Some(path) => Some(path.to_string_lossy().into_owned()),
        None => None,
    }
}

/// The folder that conversions write to unless another is chosen: the
/// downloads folder, else the home folder, else the working folder.
pub fn choose_output_directory(downloads: Option<String>, home: Option<String>, working: String) -> (r: String)
    ensures
        r@ == (match (downloads, home) {
            (Some(d), _) => d@,
            (None, Some(h)) => h@,
            (None, None) => working@,
        }),
{
    match downloads {
        Some(d) => d,
        None => match home {
            Some(h) => h,
            None => working,
        },
    }
}

/// The folder that conversions write to unless another is chosen, given the
/// working folder: what `choose_output_directory` picks from the folders
/// that the platform reports at the time of the call.
pub fn default_output_directory(working: String) -> String {
    let downloads = user_download_dir();
    let home = if downloads.is_none() {
        user_home_dir()
    } else {
        None
    };
    choose_output_directory(downloads, home, working)
}

} // verus!
