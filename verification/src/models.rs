//! The data that conversions, presets, magic directories and statistics
//! exchange, and the rule that keeps the outputs of several presets apart.

use vstd::prelude::*;
use crate::text::{ascii_case, ascii_lower, str_eq, trim, trim_spec};

verus! {

broadcast use vstd::string::group_string_axioms;

/// An image format that conversions can write.
#[derive(Debug, Clone, Copy, PartialEq, Eq, Structural)]
pub enum ExportFormat {
    Jpeg,
    Png,
    Webp,
    Avif,
}

/// The format that a format name selects: the name is trimmed and compared
/// without regard to ASCII case; `jpg` is another name of JPEG.
pub open spec fn format_from_value_spec(value: Seq<char>) -> Option<ExportFormat> {
    let t = ascii_lower(trim_spec(value));
    if t == "jpeg"@ || t == "jpg"@ {
        Some(ExportFormat::Jpeg)
    } else if t == "png"@ {
        Some(ExportFormat::Png)
    } else if t == "webp"@ {
        Some(ExportFormat::Webp)
    } else if t == "avif"@ {
        Some(ExportFormat::Avif)
    } else {
        None
    }
}

/// The file extension that a format writes.
pub open spec fn extension_spec(format: ExportFormat) -> Seq<char> {
    match format {
        ExportFormat::Jpeg => "jpg"@,
        ExportFormat::Png => "png"@,
        ExportFormat::Webp => "webp"@,
        ExportFormat::Avif => "avif"@,
    }
}

/// The name under which a format is shown.
pub open spec fn label_spec(format: ExportFormat) -> Seq<char> {
    match format {
        ExportFormat::Jpeg => "JPEG"@,
        ExportFormat::Png => "PNG"@,
        ExportFormat::Webp => "WEBP"@,
        ExportFormat::Avif => "AVIF"@,
    }
}

/// The name under which presets and statistics store a format.
pub open spec fn stored_name_spec(format: ExportFormat) -> Seq<char> {
    match format {
        ExportFormat::Jpeg => "jpeg"@,
        ExportFormat::Png => "png"@,
        ExportFormat::Webp => "webp"@,
        ExportFormat::Avif => "avif"@,
    }
}

impl ExportFormat {
    /// The format that `value` names, if any.
    pub fn from_value(value: &str) -> (r: Option<Self>)
        ensures
            r == format_from_value_spec(value@),
    {
        let trimmed = trim(value);
        let t = ascii_case(trimmed.as_str(), false);
        if str_eq(t.as_str(), "jpeg") || str_eq(t.as_str(), "jpg") {
            Some(ExportFormat::Jpeg)
        } else if str_eq(t.as_str(), "png") {
            Some(ExportFormat::Png)
        } else if str_eq(t.as_str(), "webp") {
            Some(ExportFormat::Webp)
        } else if str_eq(t.as_str(), "avif") {
            Some(ExportFormat::Avif)
        } else {
            None
        }
    }

    /// The file extension that this format writes.
    pub fn extension(&self) -> (r: &'static str)
        ensures
            r@ == extension_spec(*self),
    {
        match self {
            ExportFormat::Jpeg => "jpg",
            ExportFormat::Png => "png",
            ExportFormat::Webp => "webp",
            ExportFormat::Avif => "avif",
        }
    }

    /// The name under which this format is shown.
    pub fn label(&self) -> (r: &'static str)
        ensures
            r@ == label_spec(*self),
    {
        match self {
            ExportFormat::Jpeg => "JPEG",
            ExportFormat::Png => "PNG",
            ExportFormat::Webp => "WEBP",
            ExportFormat::Avif => "AVIF",
        }
    }

    /// The name under which presets and statistics store this format.
    pub fn stored_name(&self) -> (r: &'static str)
        ensures
            r@ == stored_name_spec(*self),
    {
        match self {
            ExportFormat::Jpeg => "jpeg",
            ExportFormat::Png => "png",
            ExportFormat::Webp => "webp",
            ExportFormat::Avif => "avif",
        }
    }
}

/// What a conversion does when its output file is already taken.
#[derive(Debug, Clone, Copy, PartialEq, Eq, Structural)]
pub enum CollisionMode {
    /// Append `_1`, `_2`, ... to the name until it is free.
    Rename,
    /// Fail the image.
    Error,
    /// Replace the existing file (but never write one name twice in a batch).
    Overwrite,
}

impl Default for CollisionMode {
    fn default() -> (r: Self)
        ensures
            r == CollisionMode::Rename,
    {
        CollisionMode::Rename
    }
}

/// A target width or height; the other side follows the aspect ratio.
#[derive(Debug, Clone)]
pub struct ResizeOptions {
    pub width: Option<u32>,
    pub height: Option<u32>,
}

/// One image to convert.
#[derive(Debug, Clone)]
pub struct ConversionImageInput {
    pub path: String,
}

/// A batch conversion: the images and the settings that apply to all of them.
#[derive(Debug, Clone)]
pub struct ConversionRequest {
    pub images: Vec<ConversionImageInput>,
    pub format: ExportFormat,
    pub resize: ResizeOptions,
    pub quality: u8,
    pub filename_component: String,
    pub filename_mode: String,
    pub output_dir: String,
    pub collision_mode: CollisionMode,
}

/// An image that was read, with its size and a preview.
#[derive(Debug, Clone)]
pub struct LoadedImage {
    pub path: String,
    pub name: String,
    pub file_type: String,
    pub width: u32,
    pub height: u32,
    pub file_size: u64,
    pub preview_data_url: String,
}

/// An image that could not be read, and why.
#[derive(Debug, Clone)]
pub struct RejectedImage {
    pub path: String,
    pub reason: String,
}

/// The images that were read and those that were not.
#[derive(Debug, Clone)]
pub struct ProbeImagesResponse {
    pub loaded: Vec<LoadedImage>,
    pub rejected: Vec<RejectedImage>,
}

/// A preset as the user enters it, before it is checked and stored.
#[derive(Debug, Clone)]
pub struct SavePresetRequest {
    pub id: Option<i64>,
    pub name: String,
    pub format: String,
    pub resize_mode: String,
    pub width: Option<u32>,
    pub height: Option<u32>,
    pub quality: u8,
    pub filename_component: String,
    pub filename_mode: String,
    pub output_directory: String,
}

/// A preset request as text.
#[verifier::ext_equal]
pub struct SavePresetRequestView {
    pub id: Option<i64>,
    pub name: Seq<char>,
    pub format: Seq<char>,
    pub resize_mode: Seq<char>,
    pub width: Option<u32>,
    pub height: Option<u32>,
    pub quality: u8,
    pub filename_component: Seq<char>,
    pub filename_mode: Seq<char>,
    pub output_directory: Seq<char>,
}

impl View for SavePresetRequest {
    type V = SavePresetRequestView;

    open spec fn view(&self) -> SavePresetRequestView {
        SavePresetRequestView {
            id: self.id,
            name: self.name@,
            format: self.format@,
            resize_mode: self.resize_mode@,
            width: self.width,
            height: self.height,
            quality: self.quality,
            filename_component: self.filename_component@,
            filename_mode: self.filename_mode@,
            output_directory: self.output_directory@,
        }
    }
}

/// A stored preset.
#[derive(Debug, Clone)]
pub struct ConversionPreset {
    pub id: i64,
    pub name: String,
    pub format: String,
    pub resize_mode: String,
    pub width: Option<u32>,
    pub height: Option<u32>,
    pub quality: u8,
    pub filename_component: String,
    pub filename_mode: String,
    pub output_directory: String,
    pub created_at: String,
    pub updated_at: String,
}

/// The marker that tells the outputs of a preset apart: its filename mode and
/// its trimmed prefix or postfix.
pub open spec fn preset_marker(p: ConversionPreset) -> Seq<char> {
    p.filename_mode@ + seq![':'] + trim_spec(p.filename_component@)
}

/// Whether the preset at `i` breaks the rule for running several presets at
/// once: it has no prefix or postfix, or an earlier preset has its marker.
pub open spec fn marker_problem(ps: Seq<ConversionPreset>, i: int) -> bool {
    ||| trim_spec(ps[i].filename_component@).len() == 0
    ||| exists|j: int| 0 <= j < i && preset_marker(ps[j]) == preset_marker(ps[i])
}

/// The message for the first preset that breaks the rule.
pub open spec fn marker_problem_message(p: ConversionPreset) -> Seq<char> {
    if trim_spec(p.filename_component@).len() == 0 {
        "Preset collision risk: '"@ + p.name@ + "' has no prefix or postfix."@
    } else {
        "Preset collision risk: multiple presets use the same prefix/postfix."@
    }
}

/// Checks that presets run together write distinct outputs: each has a
/// non-empty prefix or postfix, and no two share mode and text. The error
/// names the first preset that breaks the rule.
pub fn validate_multiple_preset_markers(presets: &[ConversionPreset]) -> (r: Result<(), String>)
    ensures
        match r {
            Ok(()) => forall|i: int| 0 <= i < presets@.len() ==> !marker_problem(presets@, i),
            Err(m) => exists|f: int|
                0 <= f < presets@.len() && marker_problem(presets@, f) && (forall|i: int|
                    0 <= i < f ==> !marker_problem(presets@, i)) && m@ == marker_problem_message(
                    presets@[f],
                ),
        },
{
    let mut markers: Vec<String> = Vec::new();
    let mut i: usize = 0;
    while i < presets.len()
        invariant
            i <= presets@.len(),
            markers@.len() == i,
            forall|k: int| 0 <= k < i ==> #[trigger] markers@[k]@ == preset_marker(presets@[k]),
            forall|k: int| 0 <= k < i ==> !marker_problem(presets@, k),
        decreases presets@.len() - i,
    {
        let preset = &presets[i];
        let component = trim(preset.filename_component.as_str());
        if component.as_str().unicode_len() == 0 {
            let mut m = String::from_str("Preset collision risk: '");
            m.append(preset.name.as_str());
            m.append("' has no prefix or postfix.");
            assert(marker_problem(presets@, i as int));
            return Err(m);
        }
        let mut marker = preset.filename_mode.clone();
        marker.append(":");
        marker.append(component.as_str());
        proof {
            reveal_strlit(":");
            assert(marker@ =~= preset_marker(presets@[i as int]));
        }
        let mut j: usize = 0;
        while j < markers.len()
            invariant
                j <= markers@.len(),
                markers@.len() == i,
                i < presets@.len(),
                marker@ == preset_marker(presets@[i as int]),
                trim_spec(presets@[i as int].filename_component@).len() != 0,
                forall|k: int| 0 <= k < i ==> !marker_problem(presets@, k),
                forall|k: int| 0 <= k < i ==> #[trigger] markers@[k]@ == preset_marker(presets@[k]),
                forall|k: int| 0 <= k < j ==> preset_marker(presets@[k]) != marker@,
            decreases i - j,
        {
            if markers[j] == marker {
                assert(preset_marker(presets@[j as int]) == preset_marker(presets@[i as int]));
                let m = String::from_str(
                    "Preset collision risk: multiple presets use the same prefix/postfix.",
                );
                assert(marker_problem(presets@, i as int));
                assert(m@ == marker_problem_message(presets@[i as int]));
                return Err(m);
            }
            j = j + 1;
        }
        markers.push(marker);
        assert(!marker_problem(presets@, i as int));
        i = i + 1;
    }
    Ok(())
}

/// A folder that is watched for new images, with the formats it reacts to and
/// the presets it runs, in order.
#[derive(Debug, Clone)]
pub struct MagicDirectory {
    pub id: i64,
    pub path: String,
    pub formats: Vec<String>,
    pub preset_ids: Vec<i64>,
    pub enabled: bool,
    pub created_at: String,
    pub updated_at: String,
}

/// A magic directory as the user enters it.
#[derive(Debug, Clone)]
pub struct SaveMagicDirectoryRequest {
    pub id: Option<i64>,
    pub path: String,
    pub formats: Vec<String>,
    pub preset_ids: Vec<i64>,
    pub enabled: bool,
}

/// A notice about the work of a magic directory.
#[derive(Debug, Clone)]
pub struct MagicDirectoryEvent {
    pub kind: String,
    pub message: String,
    pub path: Option<String>,
    pub active: bool,
}

/// The running totals of all conversions.
#[derive(Debug, Clone)]
pub struct ConversionStatistics {
    pub amount: i64,
    pub cli_uses: i64,
    pub webp: i64,
    pub avif: i64,
    pub jpeg: i64,
    pub png: i64,
    pub input_bytes: i64,
    pub output_bytes: i64,
    pub processing_time_ms: i64,
    pub saved_bytes: i64,
    pub created_at: String,
    pub last_conversion_at: String,
}

} // verus!
