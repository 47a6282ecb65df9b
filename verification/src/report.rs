//! The text that the command line prints: conversion reports, the preset
//! list and the statistics, one string per line.

use vstd::prelude::*;
use crate::models::{ConversionPreset, ConversionStatistics};
use crate::text::{ascii_case, ascii_upper, decimal, push_decimal, push_signed_decimal, signed_decimal, str_eq, trim, trim_spec};
use crate::units::{
    date_cuttable, format_bytes, format_bytes_i64, format_bytes_i64_spec, format_bytes_spec,
    format_date, format_date_spec, format_duration, format_duration_spec,
};
use vstd::utf8::encode_utf8;

verus! {

broadcast use vstd::string::group_string_axioms;

/// An image that failed, as a report lists it.
#[derive(Debug)]
pub struct FailureLine {
    pub original_name: String,
    pub message: String,
}

/// What a report shows of one conversion batch.
#[derive(Debug)]
pub struct ConversionReport {
    pub label: Option<String>,
    pub input_format: String,
    pub output_format: String,
    pub output_folder: String,
    pub success_count: usize,
    pub result_count: usize,
    pub total_original_size: u64,
    pub total_converted_size: u64,
    pub failures: Vec<FailureLine>,
}

/// The arrow between input and output format.
pub fn format_arrow() -> (r: &'static str)
    ensures
        r@ == "\u{2192}"@,
{
    "\u{2192}"
}

/// The bytes saved: input minus output, never below zero.
pub open spec fn saved_spec(input: u64, output: u64) -> nat {
    if input > output {
        (input - output) as nat
    } else {
        0
    }
}

/// `Images: S/N converted`.
pub open spec fn images_line(success: nat, total: nat) -> Seq<char> {
    "Images: "@ + decimal(success) + "/"@ + decimal(total) + " converted"@
}

/// `Format: IN → OUT`.
pub open spec fn format_line(input: Seq<char>, output: Seq<char>) -> Seq<char> {
    "Format: "@ + input + " "@ + "\u{2192}"@ + " "@ + output
}

/// The lines that list failed images: none when nothing failed.
pub open spec fn failure_lines(failures: Seq<FailureLine>) -> Seq<Seq<char>> {
    if failures.len() == 0 {
        Seq::empty()
    } else {
        seq!["Failures:"@] + failures.map_values(
            |f: FailureLine| "- "@ + f.original_name@ + ": "@ + f.message@,
        )
    }
}

/// The lines of a report on a single batch.
pub open spec fn single_report_lines(r: ConversionReport) -> Seq<Seq<char>> {
    let head = seq!["BulkPixel Conversion Complete"@, "-----------------------------"@];
    let label = match r.label {
        Some(l) => seq!["Preset: "@ + l@],
        None => Seq::empty(),
    };
    head + label + seq![
        images_line(r.success_count as nat, r.result_count as nat),
        format_line(r.input_format@, r.output_format@),
        "Input: "@ + format_bytes_spec(r.total_original_size as nat),
        "Output: "@ + format_bytes_spec(r.total_converted_size as nat),
        "Saved: "@ + format_bytes_spec(saved_spec(r.total_original_size, r.total_converted_size)),
        "Output Folder: "@ + r.output_folder@,
    ] + failure_lines(r.failures@)
}

/// Builds `a` followed by `b`.
fn concat2(a: &str, b: &str) -> (r: String)
    ensures
        r@ == a@ + b@,
{
    let mut r = a.to_owned();
    r.append(b);
    r
}

/// Builds `Images: S/N converted`.
fn images_text(success: usize, total: usize) -> (r: String)
    ensures
        r@ == images_line(success as nat, total as nat),
{
    let mut r = String::from_str("Images: ");
    push_decimal(&mut r, success as u64);
    r.append("/");
    push_decimal(&mut r, total as u64);
    r.append(" converted");
    r
}

/// Builds `Format: IN → OUT`.
fn format_text(input: &str, output: &str) -> (r: String)
    ensures
        r@ == format_line(input@, output@),
{
    let mut r = String::from_str("Format: ");
    r.append(input);
    r.append(" ");
    r.append(format_arrow());
    r.append(" ");
    r.append(output);
    r
}

/// Appends the lines that list failed images.
fn push_failure_lines(lines: &mut Vec<String>, failures: &Vec<FailureLine>)
    ensures
        views(final(lines)@) == views(old(lines)@) + failure_lines(failures@),
{
    if failures.len() == 0 {
        assert(views(lines@) =~= views(old(lines)@) + failure_lines(failures@));
        return;
    }
    lines.push(String::from_str("Failures:"));
    let ghost start = views(lines@);
    let mut i: usize = 0;
    while i < failures.len()
        invariant
            i <= failures@.len(),
            failures@.len() > 0,
            start == views(old(lines)@) + seq!["Failures:"@],
            views(lines@) == start + failures@.subrange(0, i as int).map_values(
                |f: FailureLine| "- "@ + f.original_name@ + ": "@ + f.message@,
            ),
        decreases failures@.len() - i,
    {
        let f = &failures[i];
        let mut line = String::from_str("- ");
        line.append(f.original_name.as_str());
        line.append(": ");
        line.append(f.message.as_str());
        let ghost before = lines@;
        lines.push(line);
        assert(views(lines@) =~= views(before).push(line@));
        assert(failures@.subrange(0, i + 1).map_values(
            |f: FailureLine| "- "@ + f.original_name@ + ": "@ + f.message@,
        ) =~= failures@.subrange(0, i as int).map_values(
            |f: FailureLine| "- "@ + f.original_name@ + ": "@ + f.message@,
        ).push(line@));
        i = i + 1;
    }
    assert(failures@.subrange(0, failures@.len() as int) =~= failures@);
    assert(views(lines@) =~= views(old(lines)@) + failure_lines(failures@));
}

/// The views of a list of strings.
pub open spec fn views(v: Seq<String>) -> Seq<Seq<char>> {
    v.map_values(|s: String| s@)
}

/// Appends one line.
fn push_line(lines: &mut Vec<String>, line: String)
    ensures
        views(final(lines)@) == views(old(lines)@).push(line@),
{
    lines.push(line);
    assert(views(lines@) =~= views(old(lines)@).push(line@));
}

/// The lines of the report on a single batch (with its preset, if any).
pub fn render_single_conversion_report(report: &ConversionReport) -> (lines: Vec<String>)
    ensures
        views(lines@) == single_report_lines(*report),
{
    let mut lines: Vec<String> = Vec::new();
    push_line(&mut lines, String::from_str("BulkPixel Conversion Complete"));
    push_line(&mut lines, String::from_str("-----------------------------"));
    if let Some(label) = &report.label {
        push_line(&mut lines, concat2("Preset: ", label.as_str()));
    }
    push_line(&mut lines, images_text(report.success_count, report.result_count));
    push_line(&mut lines, format_text(report.input_format.as_str(), report.output_format.as_str()));
    let input = format_bytes(report.total_original_size);
    push_line(&mut lines, concat2("Input: ", input.as_str()));
    let output = format_bytes(report.total_converted_size);
    push_line(&mut lines, concat2("Output: ", output.as_str()));
    let saved = format_bytes(report.total_original_size.saturating_sub(report.total_converted_size));
    push_line(&mut lines, concat2("Saved: ", saved.as_str()));
    push_line(&mut lines, concat2("Output Folder: ", report.output_folder.as_str()));
    push_failure_lines(&mut lines, &report.failures);
    assert(views(lines@) =~= single_report_lines(*report));
    lines
}

/// The labels of the reports that have one, in order.
pub open spec fn labels_of(reports: Seq<ConversionReport>) -> Seq<Seq<char>>
    decreases reports.len(),
{
    if reports.len() == 0 {
        Seq::empty()
    } else {
        labels_of(reports.drop_last()) + match reports.last().label {
            Some(l) => seq![l@],
            None => Seq::empty(),
        }
    }
}

/// The parts joined with `sep` between them.
pub open spec fn join_with(parts: Seq<Seq<char>>, sep: Seq<char>) -> Seq<char>
    decreases parts.len(),
{
    if parts.len() == 0 {
        Seq::empty()
    } else if parts.len() == 1 {
        parts[0]
    } else {
        join_with(parts.drop_last(), sep) + sep + parts.last()
    }
}

/// The section of a multi-preset report for one preset.
pub open spec fn report_section(r: ConversionReport) -> Seq<Seq<char>> {
    let label = match r.label {
        Some(l) => seq![l@],
        None => Seq::empty(),
    };
    seq![Seq::empty()] + label + seq![
        images_line(r.success_count as nat, r.result_count as nat),
        format_line(r.input_format@, r.output_format@),
        "Saved: "@ + format_bytes_spec(saved_spec(r.total_original_size, r.total_converted_size)),
    ] + failure_lines(r.failures@)
}

/// The sections of all reports, in order.
pub open spec fn report_sections(reports: Seq<ConversionReport>) -> Seq<Seq<char>>
    decreases reports.len(),
{
    if reports.len() == 0 {
        Seq::empty()
    } else {
        report_sections(reports.drop_last()) + report_section(reports.last())
    }
}

/// The converted images of all reports (wrapping at the size of `usize`).
pub open spec fn sum_successes(reports: Seq<ConversionReport>) -> usize
    decreases reports.len(),
{
    if reports.len() == 0 {
        0
    } else {
        vstd::wrapping::usize_specs::wrapping_add(
            sum_successes(reports.drop_last()),
            reports.last().success_count,
        )
    }
}

/// The images of all reports (wrapping at the size of `usize`).
pub open spec fn sum_results(reports: Seq<ConversionReport>) -> usize
    decreases reports.len(),
{
    if reports.len() == 0 {
        0
    } else {
        vstd::wrapping::usize_specs::wrapping_add(
            sum_results(reports.drop_last()),
            reports.last().result_count,
        )
    }
}

/// The input bytes of all reports (wrapping at `2^64`).
pub open spec fn sum_inputs(reports: Seq<ConversionReport>) -> u64
    decreases reports.len(),
{
    if reports.len() == 0 {
        0
    } else {
        vstd::wrapping::u64_specs::wrapping_add(
            sum_inputs(reports.drop_last()),
            reports.last().total_original_size,
        )
    }
}

/// The output bytes of all reports (wrapping at `2^64`).
pub open spec fn sum_outputs(reports: Seq<ConversionReport>) -> u64
    decreases reports.len(),
{
    if reports.len() == 0 {
        0
    } else {
        vstd::wrapping::u64_specs::wrapping_add(
            sum_outputs(reports.drop_last()),
            reports.last().total_converted_size,
        )
    }
}

/// The lines of the report on several presets run together: the presets,
/// a section for each, and the totals.
pub open spec fn multi_report_lines(reports: Seq<ConversionReport>) -> Seq<Seq<char>> {
    let input = sum_inputs(reports);
    let output = sum_outputs(reports);
    seq![
        "BulkPixel Conversion Complete"@,
        "-----------------------------"@,
        "Presets: "@ + join_with(labels_of(reports), ", "@),
    ] + report_sections(reports) + seq![
        Seq::empty(),
        "Total"@,
        images_line(sum_successes(reports) as nat, sum_results(reports) as nat),
        "Input: "@ + format_bytes_spec(input as nat),
        "Output: "@ + format_bytes_spec(output as nat),
        "Saved: "@ + format_bytes_spec(saved_spec(input, output)),
    ]
}

/// The lines of the report on several presets run together.
pub fn render_multi_preset_report(reports: &Vec<ConversionReport>) -> (lines: Vec<String>)
    ensures
        views(lines@) == multi_report_lines(reports@),
{
    let mut lines: Vec<String> = Vec::new();
    push_line(&mut lines, String::from_str("BulkPixel Conversion Complete"));
    push_line(&mut lines, String::from_str("-----------------------------"));
    let mut joined = String::from_str("Presets: ");
    let mut first = true;
    let mut i: usize = 0;
    while i < reports.len()
        invariant
            i <= reports@.len(),
            first == (labels_of(reports@.subrange(0, i as int)).len() == 0),
            joined@ == "Presets: "@ + join_with(labels_of(reports@.subrange(0, i as int)), ", "@),
        decreases reports@.len() - i,
    {
        let ghost p = reports@.subrange(0, i + 1);
        let ghost l = labels_of(reports@.subrange(0, i as int));
        proof {
            assert(p.drop_last() =~= reports@.subrange(0, i as int));
            assert(p.last() == reports@[i as int]);
        }
        if let Some(label) = &reports[i].label {
            if !first {
                joined.append(", ");
            }
            joined.append(label.as_str());
            first = false;
            proof {
                assert(labels_of(p) =~= l + seq![label@]);
                if l.len() == 0 {
                    assert(l + seq![label@] =~= seq![label@]);
                } else {
                    assert((l + seq![label@]).drop_last() =~= l);
                    assert((l + seq![label@]).last() == label@);
                }
            }
        } else {
            assert(labels_of(p) =~= l);
        }
        i = i + 1;
    }
    assert(reports@.subrange(0, reports@.len() as int) =~= reports@);
    push_line(&mut lines, joined);
    let ghost head = views(lines@);
    let mut success_count: usize = 0;
    let mut total_count: usize = 0;
    let mut input_bytes: u64 = 0;
    let mut output_bytes: u64 = 0;
    let mut j: usize = 0;
    while j < reports.len()
        invariant
            j <= reports@.len(),
            views(lines@) == head + report_sections(reports@.subrange(0, j as int)),
            success_count == sum_successes(reports@.subrange(0, j as int)),
            total_count == sum_results(reports@.subrange(0, j as int)),
            input_bytes == sum_inputs(reports@.subrange(0, j as int)),
            output_bytes == sum_outputs(reports@.subrange(0, j as int)),
        decreases reports@.len() - j,
    {
        let report = &reports[j];
        let ghost before = views(lines@);
        push_line(&mut lines, String::new());
        if let Some(label) = &report.label {
            push_line(&mut lines, label.clone());
        }
        push_line(&mut lines, images_text(report.success_count, report.result_count));
        push_line(&mut lines, format_text(report.input_format.as_str(), report.output_format.as_str()));
        let saved = format_bytes(report.total_original_size.saturating_sub(report.total_converted_size));
        push_line(&mut lines, concat2("Saved: ", saved.as_str()));
        push_failure_lines(&mut lines, &report.failures);
        proof {
            let p = reports@.subrange(0, j + 1);
            assert(p.drop_last() =~= reports@.subrange(0, j as int));
            assert(p.last() == *report);
            assert(views(lines@) =~= before + report_section(*report));
        }
        success_count = success_count.wrapping_add(report.success_count);
        total_count = total_count.wrapping_add(report.result_count);
        input_bytes = input_bytes.wrapping_add(report.total_original_size);
        output_bytes = output_bytes.wrapping_add(report.total_converted_size);
        j = j + 1;
    }
    push_line(&mut lines, String::new());
    push_line(&mut lines, String::from_str("Total"));
    push_line(&mut lines, images_text(success_count, total_count));
    let input = format_bytes(input_bytes);
    push_line(&mut lines, concat2("Input: ", input.as_str()));
    let output = format_bytes(output_bytes);
    push_line(&mut lines, concat2("Output: ", output.as_str()));
    let saved = format_bytes(input_bytes.saturating_sub(output_bytes));
    push_line(&mut lines, concat2("Saved: ", saved.as_str()));
    assert(views(lines@) =~= multi_report_lines(reports@));
    lines
}

/// How a preset's width or height is shown: the number, else `Original`
/// when the preset does not resize, else `Auto`.
pub open spec fn dimension_label_spec(value: Option<u32>, is_original: bool) -> Seq<char> {
    match value {
        Some(v) => decimal(v as nat),
        None => if is_original {
            "Original"@
        } else {
            "Auto"@
        },
    }
}

/// Shows a preset's width or height.
pub fn preset_dimension_label(value: Option<u32>, is_original: bool) -> (r: String)
    ensures
        r@ == dimension_label_spec(value, is_original),
{
    match value {
        Some(v) => {
            let mut r = String::new();
            push_decimal(&mut r, v as u64);
            r
        },
        None => if is_original {
            String::from_str("Original")
        } else {
            String::from_str("Auto")
        },
    }
}

/// The lines that show one preset.
pub open spec fn preset_lines(p: ConversionPreset) -> Seq<Seq<char>> {
    let original = p.resize_mode@ == "none"@;
    let marker = if trim_spec(p.filename_component@).len() > 0 {
        if p.filename_mode@ == "postfix"@ {
            seq!["Postfix: "@ + p.filename_component@]
        } else {
            seq!["Prefix: "@ + p.filename_component@]
        }
    } else {
        Seq::empty()
    };
    seq![
        "Name: "@ + p.name@,
        "Export Format: "@ + ascii_upper(p.format@),
        "Width: "@ + dimension_label_spec(p.width, original),
        "Height: "@ + dimension_label_spec(p.height, original),
        "Quality: "@ + decimal(p.quality as nat) + "%"@,
    ] + marker + seq!["Output Folder: "@ + p.output_directory@]
}

/// The lines that show the presets, an empty line between two of them.
pub open spec fn presets_body(presets: Seq<ConversionPreset>) -> Seq<Seq<char>>
    decreases presets.len(),
{
    if presets.len() == 0 {
        Seq::empty()
    } else if presets.len() == 1 {
        preset_lines(presets[0])
    } else {
        presets_body(presets.drop_last()) + seq![Seq::empty()] + preset_lines(presets.last())
    }
}

/// The lines of `bulkpixel presets list`.
pub open spec fn presets_list_lines(presets: Seq<ConversionPreset>) -> Seq<Seq<char>> {
    seq![
        "BulkPixel Presets ("@ + decimal(presets.len()) + ")"@,
        "-----------------"@,
    ] + presets_body(presets)
}

/// Appends the lines that show one preset.
fn push_preset_lines(lines: &mut Vec<String>, preset: &ConversionPreset)
    ensures
        views(final(lines)@) == views(old(lines)@) + preset_lines(*preset),
{
    push_line(lines, concat2("Name: ", preset.name.as_str()));
    let upper = ascii_case(preset.format.as_str(), true);
    push_line(lines, concat2("Export Format: ", upper.as_str()));
    let original = str_eq(preset.resize_mode.as_str(), "none");
    let width = preset_dimension_label(preset.width, original);
    push_line(lines, concat2("Width: ", width.as_str()));
    let height = preset_dimension_label(preset.height, original);
    push_line(lines, concat2("Height: ", height.as_str()));
    let mut quality = String::from_str("Quality: ");
    push_decimal(&mut quality, preset.quality as u64);
    quality.append("%");
    push_line(lines, quality);
    let component = trim(preset.filename_component.as_str());
    if component.as_str().unicode_len() > 0 {
        if str_eq(preset.filename_mode.as_str(), "postfix") {
            push_line(lines, concat2("Postfix: ", preset.filename_component.as_str()));
        } else {
            push_line(lines, concat2("Prefix: ", preset.filename_component.as_str()));
        }
    }
    push_line(lines, concat2("Output Folder: ", preset.output_directory.as_str()));
    assert(views(lines@) =~= views(old(lines)@) + preset_lines(*preset));
}

/// The lines of `bulkpixel presets list`.
pub fn render_presets(presets: &Vec<ConversionPreset>) -> (lines: Vec<String>)
    ensures
        views(lines@) == presets_list_lines(presets@),
{
    let mut lines: Vec<String> = Vec::new();
    let mut title = String::from_str("BulkPixel Presets (");
    push_decimal(&mut title, presets.len() as u64);
    title.append(")");
    push_line(&mut lines, title);
    push_line(&mut lines, String::from_str("-----------------"));
    let ghost head = views(lines@);
    let mut i: usize = 0;
    while i < presets.len()
        invariant
            i <= presets@.len(),
            views(lines@) == head + presets_body(presets@.subrange(0, i as int)),
        decreases presets@.len() - i,
    {
        let preset = &presets[i];
        let ghost before = views(lines@);
        if i > 0 {
            push_line(&mut lines, String::new());
        }
        let ghost after_gap = views(lines@);
        push_preset_lines(&mut lines, preset);
        proof {
            let p = presets@.subrange(0, i + 1);
            assert(p.drop_last() =~= presets@.subrange(0, i as int));
            assert(p.last() == *preset);
            assert(views(lines@) =~= after_gap + preset_lines(*preset));
            if i == 0 {
                assert(p =~= seq![*preset]);
                assert(before =~= after_gap);
                assert(views(lines@) =~= head + presets_body(p));
            } else {
                assert(after_gap =~= before + seq![Seq::<char>::empty()]);
                assert(views(lines@) =~= head + presets_body(p));
            }
        }
        i = i + 1;
    }
    assert(presets@.subrange(0, presets@.len() as int) =~= presets@);
    lines
}

/// The lines of `bulkpixel stats`.
pub open spec fn statistics_lines(st: ConversionStatistics) -> Seq<Seq<char>> {
    seq![
        "BulkPixel Statistics"@,
        "--------------------"@,
        "Conversions"@,
        "Total: "@ + signed_decimal(st.amount as int),
        "WEBP: "@ + signed_decimal(st.webp as int),
        "PNG: "@ + signed_decimal(st.png as int),
        "AVIF: "@ + signed_decimal(st.avif as int),
        "JPEG: "@ + signed_decimal(st.jpeg as int),
        Seq::empty(),
        "Storage"@,
        "Input: "@ + format_bytes_i64_spec(st.input_bytes as int),
        "Output: "@ + format_bytes_i64_spec(st.output_bytes as int),
        "Saved: "@ + format_bytes_i64_spec(st.saved_bytes as int),
        Seq::empty(),
        "Performance"@,
        "Processing Time: "@ + format_duration_spec(st.processing_time_ms as int),
        Seq::empty(),
        "Timeline"@,
        "First Conversion: "@ + format_date_spec(encode_utf8(st.created_at@), st.created_at@),
        "Last Conversion: "@ + format_date_spec(
            encode_utf8(st.last_conversion_at@),
            st.last_conversion_at@,
        ),
    ]
}

/// Builds `label` followed by the decimal text of `n`.
fn count_text(label: &str, n: i64) -> (r: String)
    ensures
        r@ == label@ + signed_decimal(n as int),
{
    let mut r = label.to_owned();
    push_signed_decimal(&mut r, n);
    r
}

/// The lines of `bulkpixel stats`. The dates are cut at bytes 4, 5, 7, 8 and
/// 10, which must fall between characters.
pub fn render_statistics(statistics: &ConversionStatistics) -> (lines: Vec<String>)
    requires
        encode_utf8(statistics.created_at@).len() <= usize::MAX,
        encode_utf8(statistics.last_conversion_at@).len() <= usize::MAX,
        date_cuttable(encode_utf8(statistics.created_at@)),
        date_cuttable(encode_utf8(statistics.last_conversion_at@)),
    ensures
        views(lines@) == statistics_lines(*statistics),
{
    let mut lines: Vec<String> = Vec::new();
    push_line(&mut lines, String::from_str("BulkPixel Statistics"));
    push_line(&mut lines, String::from_str("--------------------"));
    push_line(&mut lines, String::from_str("Conversions"));
    push_line(&mut lines, count_text("Total: ", statistics.amount));
    push_line(&mut lines, count_text("WEBP: ", statistics.webp));
    push_line(&mut lines, count_text("PNG: ", statistics.png));
    push_line(&mut lines, count_text("AVIF: ", statistics.avif));
    push_line(&mut lines, count_text("JPEG: ", statistics.jpeg));
    push_line(&mut lines, String::new());
    push_line(&mut lines, String::from_str("Storage"));
    let input = format_bytes_i64(statistics.input_bytes);
    push_line(&mut lines, concat2("Input: ", input.as_str()));
    let output = format_bytes_i64(statistics.output_bytes);
    push_line(&mut lines, concat2("Output: ", output.as_str()));
    let saved = format_bytes_i64(statistics.saved_bytes);
    push_line(&mut lines, concat2("Saved: ", saved.as_str()));
    push_line(&mut lines, String::new());
    push_line(&mut lines, String::from_str("Performance"));
    let time = format_duration(statistics.processing_time_ms);
    push_line(&mut lines, concat2("Processing Time: ", time.as_str()));
    push_line(&mut lines, String::new());
    push_line(&mut lines, String::from_str("Timeline"));
    let first = format_date(statistics.created_at.as_str());
    push_line(&mut lines, concat2("First Conversion: ", first.as_str()));
    let last = format_date(statistics.last_conversion_at.as_str());
    push_line(&mut lines, concat2("Last Conversion: ", last.as_str()));
    assert(views(lines@) =~= statistics_lines(*statistics));
    lines
}

} // verus!
