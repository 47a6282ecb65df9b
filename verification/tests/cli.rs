use bulkpixel::cli::{
    apply_preset_updates, build_create_preset_request, input_format_label, parse_command,
    parse_convert_options, parse_dimension, parse_filename_options, parse_format, parse_preset_options,
    parse_quality, parse_resize, plan_direct_conversion, plan_preset_conversion, take_one_value,
    take_values, CliCommand, PresetOptions,
};
use bulkpixel::models::{CollisionMode, ConversionPreset, ExportFormat};

fn args(v: &[&str]) -> Vec<String> {
    v.iter().map(|s| s.to_string()).collect()
}

fn err<T: std::fmt::Debug>(r: Result<T, String>) -> String {
    r.expect_err("an error")
}

#[test]
fn reads_top_level_commands() {
    assert!(matches!(parse_command(&args(&[])), Ok(CliCommand::Help)));
    assert!(matches!(parse_command(&args(&["-h"])), Ok(CliCommand::Help)));
    assert!(matches!(parse_command(&args(&["--version"])), Ok(CliCommand::Version)));
    assert!(matches!(parse_command(&args(&["-V"])), Ok(CliCommand::Version)));
    assert!(matches!(parse_command(&args(&["stats"])), Ok(CliCommand::Stats)));
    assert!(matches!(parse_command(&args(&["stats", "--help"])), Ok(CliCommand::Help)));
    assert!(matches!(
        parse_command(&args(&["convert", "--input", "a.png", "-h"])),
        Ok(CliCommand::Help)
    ));
    assert_eq!(err(parse_command(&args(&["resize"]))), "Unknown command: resize");
}

#[test]
fn reads_presets_commands() {
    assert!(matches!(parse_command(&args(&["presets", "list"])), Ok(CliCommand::ListPresets)));
    assert_eq!(err(parse_command(&args(&["presets"]))), "Missing presets command.");
    assert_eq!(
        err(parse_command(&args(&["presets", "rename"]))),
        "Unknown presets command: rename"
    );
    assert_eq!(err(parse_command(&args(&["presets", "delete"]))), "--name is required.");
    match parse_command(&args(&["presets", "delete", "--name", "Blog Header"])) {
        Ok(CliCommand::DeletePreset(n)) => assert_eq!(n, "Blog Header"),
        other => panic!("unexpected {other:?}"),
    }
    assert_eq!(
        err(parse_command(&args(&["presets", "create", "--colour", "red"]))),
        "Unknown presets flag: --colour"
    );
}

#[test]
fn reads_convert_flags() {
    let o = parse_convert_options(&args(&[
        "--input", "a.png", "b.jpg", "--output-dir", "out", "--width", "1200", "--overwrite",
        "--silent",
    ]))
    .expect("options");
    assert_eq!(o.inputs, args(&["a.png", "b.jpg"]));
    assert_eq!(o.output_dir.as_deref(), Some("out"));
    assert_eq!(o.width.as_deref(), Some("1200"));
    assert_eq!(o.format.as_deref(), Some("webp"));
    assert_eq!(o.quality.as_deref(), Some("100"));
    assert!(o.overwrite && o.silent);
    assert_eq!(
        err(parse_convert_options(&args(&["--input"]))),
        "--input expects at least one value."
    );
    assert_eq!(
        err(parse_convert_options(&args(&["--width", "1", "2"]))),
        "--width expects exactly one value."
    );
    assert_eq!(err(parse_convert_options(&args(&["photo.png"]))), "Unknown convert flag: photo.png");
    assert_eq!(take_values(&args(&["--preset", "a", "b", "--x"]), 0), Ok((args(&["a", "b"]), 3)));
    assert_eq!(take_one_value(&args(&["--name", "a"]), 0), Ok(("a".to_string(), 2)));
}

#[test]
fn reads_values() {
    assert!(matches!(parse_format(" JPG "), Ok(ExportFormat::Jpeg)));
    assert!(matches!(parse_format("avif"), Ok(ExportFormat::Avif)));
    assert_eq!(err(parse_format("gif")), "Unsupported format: gif");
    assert_eq!(parse_quality("90"), Ok(90));
    assert_eq!(err(parse_quality("0")), "Quality must be between 1 and 100.");
    assert_eq!(err(parse_quality("300")), "Quality must be a number between 1 and 100.");
    assert_eq!(err(parse_quality("x")), "Quality must be a number between 1 and 100.");
    assert_eq!(parse_dimension("9999"), Ok(9999));
    assert_eq!(err(parse_dimension("10000")), "Width and height must be between 1 and 9999.");
    assert_eq!(err(parse_dimension("-1")), "Width and height must be numbers between 1 and 9999.");
    assert_eq!(
        err(parse_resize(Some("1"), Some("2"))),
        "Use either --width or --height, not both."
    );
    let r = parse_resize(None, Some("480")).expect("resize");
    assert_eq!((r.width, r.height), (None, Some(480)));
    assert_eq!(parse_filename_options(Some("  "), Some(" _v2 ")), Ok(("postfix".into(), "_v2".into())));
    assert_eq!(parse_filename_options(None, None), Ok(("prefix".into(), String::new())));
    assert_eq!(
        err(parse_filename_options(Some("a"), Some("b"))),
        "Use either --prefix or --postfix, not both."
    );
}

#[test]
fn labels_input_formats() {
    assert_eq!(input_format_label(&args(&["a.png", "b.PNG"])), "PNG");
    assert_eq!(input_format_label(&args(&["a.png", "b.jpg"])), "MIXED");
    assert_eq!(input_format_label(&args(&["a.jpeg", "b.jpg"])), "JPEG");
    assert_eq!(input_format_label(&args(&["a.svg"])), "IMAGE");
}

#[test]
fn plans_direct_conversions() {
    let o = parse_convert_options(&args(&["--input", "a.png", "--output-dir", "out", "--postfix", "_1200"]))
        .expect("options");
    let plan = plan_direct_conversion(&o).expect("plan");
    assert!(matches!(plan.request.format, ExportFormat::Webp));
    assert_eq!(plan.request.quality, 100);
    assert_eq!(plan.request.collision_mode, CollisionMode::Error);
    assert_eq!(plan.request.filename_mode, "postfix");
    assert_eq!(plan.request.filename_component, "_1200");
    assert_eq!(plan.input_format, "PNG");
    assert_eq!(plan.output_format, "WEBP");
    assert_eq!(plan.output_folder, "out");
    let o = parse_convert_options(&args(&["--input", "a.png", "--output-dir", "out", "--overwrite"]))
        .expect("options");
    assert_eq!(plan_direct_conversion(&o).expect("plan").request.collision_mode, CollisionMode::Overwrite);
    let o = parse_convert_options(&args(&["--input", "a.png"])).expect("options");
    assert_eq!(err(plan_direct_conversion(&o)), "--output-dir is required.");
    let o = parse_convert_options(&args(&["--output-dir", "out"])).expect("options");
    assert_eq!(err(plan_direct_conversion(&o)), "--input is required.");
}

fn preset(mode: &str, component: &str, name: &str) -> ConversionPreset {
    ConversionPreset {
        id: 7,
        name: name.into(),
        format: "png".into(),
        resize_mode: "width".into(),
        width: Some(800),
        height: None,
        quality: 90,
        filename_component: component.into(),
        filename_mode: mode.into(),
        output_directory: "/exports".into(),
        created_at: "2026-07-03 10:00:00".into(),
        updated_at: "2026-07-05 10:00:00".into(),
    }
}

#[test]
fn plans_preset_conversions() {
    let plan = plan_preset_conversion(&preset("postfix", "_w", "Blog Header"), &args(&["a.jpg"]))
        .expect("plan");
    assert!(matches!(plan.request.format, ExportFormat::Png));
    assert_eq!((plan.request.resize.width, plan.request.resize.height), (Some(800), None));
    assert_eq!(plan.request.collision_mode, CollisionMode::Error);
    assert_eq!(plan.label.as_deref(), Some("Blog Header"));
    assert_eq!(plan.output_folder, "/exports");
    let mut bad = preset("postfix", "_w", "Odd");
    bad.resize_mode = "fit".into();
    assert_eq!(
        err(plan_preset_conversion(&bad, &args(&["a.jpg"]))),
        "Unsupported preset resize mode: fit"
    );
}

fn preset_options(v: &[&str]) -> PresetOptions {
    parse_preset_options(&args(v)).expect("preset options")
}

#[test]
fn builds_preset_requests() {
    let q = build_create_preset_request(preset_options(&[
        "--name", "Blog Header", "--width", "1200", "--output-dir", "./exports", "--postfix", "_1200",
        "--format", "WEBP",
    ]))
    .expect("request");
    assert_eq!(q.id, None);
    assert_eq!(q.format, "webp");
    assert_eq!(q.resize_mode, "width");
    assert_eq!((q.width, q.height), (Some(1200), None));
    assert_eq!(q.quality, 100);
    assert_eq!((q.filename_mode.as_str(), q.filename_component.as_str()), ("postfix", "_1200"));
    assert_eq!(
        err(build_create_preset_request(preset_options(&["--name", "X", "--output-dir", "o"]))),
        "--format is required."
    );
    assert_eq!(
        err(build_create_preset_request(preset_options(&["--name", "X", "--format", "png"]))),
        "--output-dir is required."
    );
}

#[test]
fn update_changes_only_passed_values() {
    let existing = preset("postfix", "_w", "Blog Header");
    let q = apply_preset_updates(preset_options(&["--name", "Blog Header", "--quality", "80"]), existing.clone())
        .expect("request");
    assert_eq!(q.id, Some(7));
    assert_eq!(q.name, "Blog Header");
    assert_eq!(q.quality, 80);
    assert_eq!(q.format, "png");
    assert_eq!((q.resize_mode.as_str(), q.width, q.height), ("width", Some(800), None));
    assert_eq!((q.filename_mode.as_str(), q.filename_component.as_str()), ("postfix", "_w"));
    assert_eq!(q.output_directory, "/exports");
    let q = apply_preset_updates(preset_options(&["--name", "Blog Header", "--height", "600"]), existing)
        .expect("request");
    assert_eq!((q.resize_mode.as_str(), q.width, q.height), ("height", None, Some(600)));
    assert_eq!(q.quality, 90);
}
