use bulkpixel::models::{ConversionPreset, ConversionStatistics};
use bulkpixel::report::{
    preset_dimension_label, render_multi_preset_report, render_presets, render_single_conversion_report,
    render_statistics, ConversionReport, FailureLine,
};
use bulkpixel::units::{format_bytes, format_bytes_i64, format_date, format_duration};

fn human_size(bytes: u64) -> String {
    let units = ["B", "KB", "MB", "GB"];
    let mut value = bytes as f64;
    let mut unit_index = 0_usize;
    while value >= 1024.0 && unit_index < units.len() - 1 {
        value /= 1024.0;
        unit_index += 1;
    }
    if unit_index == 0 {
        format!("{} {}", bytes, units[unit_index])
    } else {
        format!("{value:.1} {}", units[unit_index])
    }
}

#[test]
fn formats_byte_counts() {
    assert_eq!(format_bytes(0), "0 B");
    assert_eq!(format_bytes(1023), "1023 B");
    assert_eq!(format_bytes(1024), "1.0 KB");
    assert_eq!(format_bytes(1280), "1.2 KB");
    assert_eq!(format_bytes(1536), "1.5 KB");
    assert_eq!(format_bytes(8_400_000), "8.0 MB");
    assert_eq!(format_bytes(5 * 1024 * 1024 * 1024 * 1024), "5120.0 GB");
    assert_eq!(format_bytes_i64(-5), "0 B");
    assert_eq!(format_bytes_i64(2048), "2.0 KB");
}

#[test]
fn byte_counts_match_float_formatting() {
    let mut samples: Vec<u64> = vec![u64::MAX, u64::MAX - 1, 1 << 53, (1 << 53) + 1, 1 << 63];
    let mut x: u64 = 1;
    while x < u64::MAX / 3 {
        samples.push(x);
        samples.push(x + 1);
        samples.push(x.wrapping_mul(7) / 5);
        x = x.wrapping_mul(3) + 17;
    }
    for k in 0..4000u64 {
        samples.push(k * 51);
        samples.push(1024 * 1024 * k + 52_429 * k);
    }
    for b in samples {
        assert_eq!(format_bytes(b), human_size(b), "bytes {b}");
    }
}

#[test]
fn formats_durations_and_dates() {
    assert_eq!(format_duration(210_000), "3min 30sec");
    assert_eq!(format_duration(59_999), "59sec");
    assert_eq!(format_duration(-10), "0sec");
    assert_eq!(format_date("2026-07-03 10:00:00"), "03.07.2026");
    assert_eq!(format_date("2026"), "2026");
}

fn report(label: Option<&str>, success: usize, total: usize, input: u64, output: u64) -> ConversionReport {
    ConversionReport {
        label: label.map(|l| l.to_string()),
        input_format: "PNG".into(),
        output_format: "WEBP".into(),
        output_folder: "./exports".into(),
        success_count: success,
        result_count: total,
        total_original_size: input,
        total_converted_size: output,
        failures: Vec::new(),
    }
}

#[test]
fn renders_a_single_report() {
    let mut r = report(Some("Blog Header"), 2, 3, 8_808_038, 6_396_314);
    r.failures.push(FailureLine { original_name: "c.png".into(), message: "broken".into() });
    let lines = render_single_conversion_report(&r);
    assert_eq!(lines[0], "BulkPixel Conversion Complete");
    assert_eq!(lines[1], "-----------------------------");
    assert_eq!(lines[2], "Preset: Blog Header");
    assert_eq!(lines[3], "Images: 2/3 converted");
    assert_eq!(lines[4], "Format: PNG \u{2192} WEBP");
    assert_eq!(lines[5], "Input: 8.4 MB");
    assert_eq!(lines[6], "Output: 6.1 MB");
    assert_eq!(lines[7], "Saved: 2.3 MB");
    assert_eq!(lines[8], "Output Folder: ./exports");
    assert_eq!(lines[9], "Failures:");
    assert_eq!(lines[10], "- c.png: broken");
    assert_eq!(lines.len(), 11);
}

#[test]
fn renders_a_multi_preset_report() {
    let reports = vec![
        report(Some("Blog Header"), 3, 3, 3000, 1000),
        report(Some("Open Graph"), 2, 3, 3000, 4000),
    ];
    let lines = render_multi_preset_report(&reports);
    assert_eq!(lines[2], "Presets: Blog Header, Open Graph");
    assert!(lines.contains(&"Total".to_string()));
    assert!(lines.contains(&"Images: 5/6 converted".to_string()));
    assert_eq!(lines.last().map(String::as_str), Some("Saved: 1000 B"));
}

fn preset(mode: &str, component: &str, resize_mode: &str) -> ConversionPreset {
    ConversionPreset {
        id: 1,
        name: "Blog Header".into(),
        format: "webp".into(),
        resize_mode: resize_mode.into(),
        width: Some(1200),
        height: None,
        quality: 100,
        filename_component: component.into(),
        filename_mode: mode.into(),
        output_directory: "/Users/oli/exports".into(),
        created_at: String::new(),
        updated_at: String::new(),
    }
}

#[test]
fn renders_presets() {
    let lines = render_presets(&vec![preset("postfix", "_1200", "width"), preset("prefix", "  ", "none")]);
    assert_eq!(
        lines,
        vec![
            "BulkPixel Presets (2)",
            "-----------------",
            "Name: Blog Header",
            "Export Format: WEBP",
            "Width: 1200",
            "Height: Auto",
            "Quality: 100%",
            "Postfix: _1200",
            "Output Folder: /Users/oli/exports",
            "",
            "Name: Blog Header",
            "Export Format: WEBP",
            "Width: 1200",
            "Height: Original",
            "Quality: 100%",
            "Output Folder: /Users/oli/exports",
        ]
    );
    assert_eq!(preset_dimension_label(None, true), "Original");
    assert_eq!(preset_dimension_label(Some(5), true), "5");
}

#[test]
fn renders_statistics() {
    let st = ConversionStatistics {
        amount: 134,
        cli_uses: 3,
        webp: 109,
        avif: 1,
        jpeg: 12,
        png: 12,
        input_bytes: 335_963_750,
        output_bytes: 105_067_315,
        processing_time_ms: 210_000,
        saved_bytes: 230_896_435,
        created_at: "2026-07-03 08:00:00".into(),
        last_conversion_at: "2026-07-05 09:00:00".into(),
    };
    assert_eq!(
        render_statistics(&st),
        vec![
            "BulkPixel Statistics",
            "--------------------",
            "Conversions",
            "Total: 134",
            "WEBP: 109",
            "PNG: 12",
            "AVIF: 1",
            "JPEG: 12",
            "",
            "Storage",
            "Input: 320.4 MB",
            "Output: 100.2 MB",
            "Saved: 220.2 MB",
            "",
            "Performance",
            "Processing Time: 3min 30sec",
            "",
            "Timeline",
            "First Conversion: 03.07.2026",
            "Last Conversion: 05.07.2026",
        ]
    );
}
