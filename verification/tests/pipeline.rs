use bulkpixel::models::{CollisionMode, ConversionImageInput, ConversionRequest, ExportFormat, ResizeOptions};
use bulkpixel::pipeline::{
    choose_output_directory, next_output_path_probing,
    format_label_from_extension, is_svg, next_available_output_path, original_name,
    reserve_checked_output_path, resize_dimensions, sanitize_component, size_delta, summarize,
    validate_input_extension, validate_request, AppError, ConversionTotals, ItemSizes,
};
use std::path::Path;

fn ends_with(path: &str, name: &str) -> bool {
    Path::new(path).ends_with(name)
}

#[test]
fn sanitizes_file_components() {
    assert_eq!(sanitize_component(" bulk:/demo* "), "bulk__demo_");
    assert_eq!(sanitize_component(".."), "");
}

#[test]
fn preserves_aspect_ratio_for_svg_resize_dimensions() {
    assert_eq!(resize_dimensions(100, 50, Some(350), None), (350, 175));
    assert_eq!(resize_dimensions(100, 50, None, Some(175)), (350, 175));
}

#[test]
fn increments_duplicate_names() {
    let mut reserved: Vec<String> = Vec::new();
    let first = next_available_output_path(
        "/tmp",
        "bulk_",
        "prefix",
        "/images/photo.png",
        "jpg",
        &CollisionMode::Rename,
        &mut reserved,
    )
    .expect("first output path");
    let second = next_available_output_path(
        "/tmp",
        "bulk_",
        "prefix",
        "/images/photo.png",
        "jpg",
        &CollisionMode::Rename,
        &mut reserved,
    )
    .expect("second output path");

    assert!(ends_with(&first, "bulk_photo.jpg"));
    assert!(ends_with(&second, "bulk_photo_1.jpg"));
}

#[test]
fn applies_postfix_mode() {
    let mut reserved: Vec<String> = Vec::new();
    let result = next_available_output_path(
        "/tmp",
        "_v1",
        "postfix",
        "/images/photo.png",
        "jpg",
        &CollisionMode::Rename,
        &mut reserved,
    )
    .expect("output path");

    assert!(ends_with(&result, "photo_v1.jpg"));
}

#[test]
fn rejects_duplicate_exact_names_when_requested() {
    let mut reserved: Vec<String> = Vec::new();
    let first = next_available_output_path(
        "/tmp",
        "bulk_",
        "prefix",
        "/images/photo.png",
        "jpg",
        &CollisionMode::Error,
        &mut reserved,
    );
    let second = next_available_output_path(
        "/tmp",
        "bulk_",
        "prefix",
        "/images/photo.png",
        "jpg",
        &CollisionMode::Error,
        &mut reserved,
    );

    assert!(first.is_ok());
    assert!(second.is_err());
}

#[test]
fn duplicate_exact_name_names_the_path() {
    let mut reserved: Vec<String> = Vec::new();
    let _ = next_available_output_path(
        "/no-such-folder-for-bulkpixel",
        "",
        "prefix",
        "/images/photo.png",
        "webp",
        &CollisionMode::Overwrite,
        &mut reserved,
    )
    .expect("first output path");
    let second = next_available_output_path(
        "/no-such-folder-for-bulkpixel",
        "",
        "prefix",
        "/images/photo.png",
        "webp",
        &CollisionMode::Overwrite,
        &mut reserved,
    );
    match second {
        Err(e) => assert_eq!(
            e.message(),
            "Output file would be written more than once: /no-such-folder-for-bulkpixel/photo.webp"
        ),
        Ok(p) => panic!("unexpected path {p}"),
    }
    assert_eq!(reserved, vec!["/no-such-folder-for-bulkpixel/photo.webp".to_string()]);
}

#[test]
fn existing_file_is_never_replaced_without_overwrite() {
    let mut reserved: Vec<String> = Vec::new();
    let refused = reserve_checked_output_path("/out/a.webp".into(), &mut reserved, false, true);
    match refused {
        Err(e) => assert_eq!(e.message(), "Output file already exists: /out/a.webp"),
        Ok(p) => panic!("unexpected path {p}"),
    }
    assert!(reserved.is_empty());
    let allowed = reserve_checked_output_path("/out/a.webp".into(), &mut reserved, true, true);
    assert_eq!(allowed.expect("overwrite allowed"), "/out/a.webp");
    assert_eq!(reserved, vec!["/out/a.webp".to_string()]);
}

#[test]
fn renamed_paths_of_a_batch_are_distinct() {
    let mut reserved: Vec<String> = Vec::new();
    for _ in 0..4 {
        next_available_output_path(
            "/no-such-folder-for-bulkpixel/",
            "x",
            "postfix",
            "/images/photo.PNG",
            "avif",
            &CollisionMode::Rename,
            &mut reserved,
        )
        .expect("free path");
    }
    assert_eq!(
        reserved,
        vec![
            "/no-such-folder-for-bulkpixel/photox.avif".to_string(),
            "/no-such-folder-for-bulkpixel/photox_1.avif".to_string(),
            "/no-such-folder-for-bulkpixel/photox_2.avif".to_string(),
            "/no-such-folder-for-bulkpixel/photox_3.avif".to_string(),
        ]
    );
    let mut sorted = reserved.clone();
    sorted.sort();
    sorted.dedup();
    assert_eq!(sorted.len(), reserved.len());
}

#[test]
fn names_without_stem_fall_back_to_image() {
    let mut reserved: Vec<String> = Vec::new();
    let p = next_available_output_path(
        "/out",
        " :: ",
        "prefix",
        "/images/...",
        "png",
        &CollisionMode::Overwrite,
        &mut reserved,
    )
    .expect("path");
    assert_eq!(p, "/out/__image.png");
}

#[test]
fn resize_rounds_halves_up_and_keeps_one_pixel() {
    assert_eq!(resize_dimensions(3, 1, Some(1), None), (1, 1));
    assert_eq!(resize_dimensions(4, 3, Some(2), None), (2, 2));
    assert_eq!(resize_dimensions(1000, 1, Some(10), None), (10, 1));
    assert_eq!(resize_dimensions(640, 480, None, None), (640, 480));
    assert_eq!(resize_dimensions(640, 480, Some(10), Some(10)), (640, 480));
    assert_eq!(resize_dimensions(1920, 1080, Some(1280), None), (1280, 720));
}

fn request(images: Vec<&str>) -> ConversionRequest {
    ConversionRequest {
        images: images
            .into_iter()
            .map(|p| ConversionImageInput { path: p.to_string() })
            .collect(),
        format: ExportFormat::Webp,
        resize: ResizeOptions { width: None, height: None },
        quality: 80,
        filename_component: String::new(),
        filename_mode: "prefix".into(),
        output_dir: "/out".into(),
        collision_mode: CollisionMode::Rename,
    }
}

fn validation_text(r: Result<(), AppError>) -> String {
    match r {
        Err(e) => e.message(),
        Ok(()) => "ok".into(),
    }
}

#[test]
fn validates_conversion_requests() {
    assert_eq!(validation_text(validate_request(&request(vec!["/a.png"]))), "ok");
    assert_eq!(
        validation_text(validate_request(&request(vec![]))),
        "Add at least one image before converting."
    );
    let mut r = request(vec!["/a.png"]);
    r.quality = 0;
    assert_eq!(validation_text(validate_request(&r)), "Quality must be between 1 and 100.");
    let mut r = request(vec!["/a.png"]);
    r.output_dir = "   ".into();
    assert_eq!(validation_text(validate_request(&r)), "Choose an output folder before converting.");
    let mut r = request(vec!["/a.png"]);
    r.resize = ResizeOptions { width: Some(10), height: Some(10) };
    assert_eq!(
        validation_text(validate_request(&r)),
        "Enter either width or height, not both."
    );
    let mut r = request(vec!["/a.png"]);
    r.resize = ResizeOptions { width: Some(10000), height: None };
    assert_eq!(validation_text(validate_request(&r)), "Width must be between 1 and 9999.");
    let mut r = request(vec!["/a.png"]);
    r.resize = ResizeOptions { width: None, height: Some(0) };
    assert_eq!(validation_text(validate_request(&r)), "Height must be between 1 and 9999.");
}

#[test]
fn input_extensions_are_checked() {
    assert!(validate_input_extension("/pics/a.JPG").is_ok());
    assert!(validate_input_extension("/pics/a.svg").is_ok());
    assert_eq!(
        validation_text(validate_input_extension("/pics/notes.txt")),
        "notes.txt is not a supported image type."
    );
    assert_eq!(original_name("/pics/a.png"), "a.png");
    assert!(is_svg("/x/Logo.SVG"));
    assert!(!is_svg("/x/logo.png"));
    assert_eq!(format_label_from_extension("/x/a.jpg"), "JPEG");
    assert_eq!(format_label_from_extension("/x/a.bmp"), "Image");
    assert_eq!(format_label_from_extension("/x/a.Svg"), "SVG");
    assert_eq!(
        validation_text(validate_input_extension("/x/noext")),
        "Unsupported file type."
    );
}

#[test]
fn sums_a_batch() {
    let items = vec![
        Some(ItemSizes { original_size: 1000, converted_size: 600 }),
        None,
        Some(ItemSizes { original_size: 50, converted_size: 80 }),
    ];
    let t: ConversionTotals = summarize(&items);
    assert_eq!(t.success_count, 2);
    assert_eq!(t.failure_count, 1);
    assert_eq!(t.total_original_size, 1050);
    assert_eq!(t.total_converted_size, 680);
    assert_eq!(t.total_delta_bytes, 370);
    assert_eq!(size_delta(50, 80), -30);
    assert_eq!(size_delta(u64::MAX, 0), -1);
}

#[test]
fn picks_the_default_output_folder() {
    assert_eq!(
        choose_output_directory(Some("/d".into()), Some("/h".into()), "/w".into()),
        "/d"
    );
    assert_eq!(choose_output_directory(None, Some("/h".into()), "/w".into()), "/h");
    assert_eq!(choose_output_directory(None, None, "/w".into()), "/w");
}

#[test]
fn renaming_skips_names_present_on_disk() {

    let on_disk = |p: String| p == "/tmp/bulk_photo.jpg" || p == "/tmp/bulk_photo_2.jpg";
    let mut reserved: Vec<String> = vec!["/tmp/bulk_photo_1.jpg".to_string()];
    let r = next_output_path_probing(
        "/tmp", "bulk_", "prefix", "/images/photo.png", "jpg", &CollisionMode::Rename, &mut reserved, on_disk,
    );
    assert_eq!(r.expect("free name"), "/tmp/bulk_photo_3.jpg");
    let free = |_: String| false;
    let mut reserved: Vec<String> = Vec::new();
    let first = next_output_path_probing(
        "/tmp", "_v1", "postfix", "/images/photo.png", "jpg", &CollisionMode::Rename, &mut reserved, free,
    );
    assert_eq!(first.expect("free name"), "/tmp/photo_v1.jpg");
    let taken = |_: String| true;
    let mut reserved: Vec<String> = Vec::new();
    let refused = next_output_path_probing(
        "/tmp", "", "prefix", "/images/photo.png", "jpg", &CollisionMode::Error, &mut reserved, taken,
    );
    assert_eq!(refused.expect_err("exists").message(), "Output file already exists: /tmp/photo.jpg");
    assert!(reserved.is_empty());
}

#[test]
fn sanitizing_twice_changes_nothing_more() {
    for part in [" bulk:/demo* ", ". .name. ", "\ta|b\n", "..", "plain", " _x_ "] {
        let once = sanitize_component(part);
        assert_eq!(sanitize_component(&once), once);
    }
}

#[test]
fn a_format_label_names_its_format() {
    for format in [ExportFormat::Jpeg, ExportFormat::Png, ExportFormat::Webp, ExportFormat::Avif] {
        assert_eq!(ExportFormat::from_value(format.label()), Some(format));
    }
    let labels: Vec<&str> =
        [ExportFormat::Jpeg, ExportFormat::Png, ExportFormat::Webp, ExportFormat::Avif].iter().map(|f| f.label()).collect();
    assert_eq!(labels, vec!["JPEG", "PNG", "WEBP", "AVIF"]);
}
