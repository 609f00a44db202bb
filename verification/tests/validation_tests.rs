use fontlift::bindings::{bindings_disabled_reason, PYTHON_BINDINGS_ENABLED};
use fontlift::validation_ext::{
    default_allow_collections, default_max_size, default_timeout_ms, introspect_outcome,
    introspect_outcomes, validate_single, ValidationStrictness, ValidatorConfig,
    DEFAULT_MAX_SIZE, DEFAULT_TIMEOUT_MS,
};
use fontlift::validation::PathFacts;
use fontlift::validator::{
    extract_names, extract_os2_info, find_name, format_label, inspect_font, precheck_font_file,
    remove_spaces, sanitize_error, timed_out, ValidationResult, ValidatorInput,
};
use fontlift::{FontError, FontliftFontFaceInfo, FontliftFontSource};

fn face(name: &str) -> FontliftFontFaceInfo {
    FontliftFontFaceInfo::new(
        FontliftFontSource::new(format!("/fonts/{name}.ttf")),
        name.to_string(),
        name.to_string(),
        "Family".to_string(),
        "Regular".to_string(),
    )
}

#[test]
fn strictness_presets_differ() {
    let lenient = ValidatorConfig::from_strictness(ValidationStrictness::Lenient);
    let normal = ValidatorConfig::from_strictness(ValidationStrictness::Normal);
    let paranoid = ValidatorConfig::from_strictness(ValidationStrictness::Paranoid);

    assert!(lenient.max_file_size_bytes > normal.max_file_size_bytes);
    assert!(normal.max_file_size_bytes > paranoid.max_file_size_bytes);
    assert!(lenient.timeout_ms > normal.timeout_ms);
    assert!(normal.timeout_ms > paranoid.timeout_ms);
}

#[test]
fn default_config_is_normal() {
    let default = ValidatorConfig::default();
    let normal = ValidatorConfig::from_strictness(ValidationStrictness::Normal);

    assert_eq!(default.max_file_size_bytes, normal.max_file_size_bytes);
    assert_eq!(default.timeout_ms, normal.timeout_ms);
    assert_eq!(default.allow_collections, normal.allow_collections);
}

#[test]
fn empty_paths_returns_empty() {
    let result = introspect_outcomes(Vec::new());
    assert!(result.is_empty());
    assert!(matches!(
        validate_single(Ok(Vec::new())),
        Err(FontError::InvalidFormat(m)) if m == "No validation result"
    ));
}

#[test]
fn sanitizes_long_errors() {
    let long_error = "x".repeat(300);
    let sanitized = sanitize_error(&long_error);
    assert!(sanitized.len() <= 203); // 200 + "..."
    assert!(sanitized.ends_with("..."));
}

#[test]
fn presets_have_the_documented_limits() {
    let lenient = ValidatorConfig::from_strictness(ValidationStrictness::Lenient);
    assert_eq!(lenient.max_file_size_bytes, 128 * 1024 * 1024);
    assert_eq!(lenient.timeout_ms, 10_000);
    assert!(lenient.allow_collections);
    let normal = ValidatorConfig::from_strictness(ValidationStrictness::Normal);
    assert_eq!(normal.max_file_size_bytes, 64 * 1024 * 1024);
    assert_eq!(normal.timeout_ms, 5_000);
    let paranoid = ValidatorConfig::from_strictness(ValidationStrictness::Paranoid);
    assert_eq!(paranoid.max_file_size_bytes, 32 * 1024 * 1024);
    assert_eq!(paranoid.timeout_ms, 2_000);
    assert!(paranoid.allow_collections);
    assert_eq!(default_max_size(), DEFAULT_MAX_SIZE);
    assert_eq!(default_timeout_ms(), DEFAULT_TIMEOUT_MS);
    assert_eq!(DEFAULT_MAX_SIZE, 67_108_864);
    assert_eq!(DEFAULT_TIMEOUT_MS, 5000);
    assert!(default_allow_collections());
}

#[test]
fn sanitizing_cuts_at_two_hundred_bytes() {
    assert_eq!(sanitize_error(r"C:\fonts\a.ttf"), "C:/fonts/a.ttf");
    assert_eq!(sanitize_error(""), "");
    let exact = "y".repeat(200);
    assert_eq!(sanitize_error(&exact), exact);
    let over = "y".repeat(201);
    assert_eq!(sanitize_error(&over), format!("{}...", "y".repeat(200)));
    // 100 characters of two bytes each fit exactly; one more byte does not.
    let wide = "é".repeat(100);
    assert_eq!(sanitize_error(&wide), wide);
    let wider = format!("{}z", "é".repeat(100));
    assert_eq!(sanitize_error(&wider), format!("{}...", "é".repeat(100)));
    // A character that would straddle the limit is left out whole.
    let straddle = format!("a{}", "é".repeat(100));
    assert_eq!(sanitize_error(&straddle), format!("a{}...", "é".repeat(99)));
    let mixed = format!("{}\\{}", "€".repeat(66), "𝄞".repeat(3));
    assert_eq!(sanitize_error(&mixed), format!("{}/...", "€".repeat(66)));
}

#[test]
fn answers_become_outcomes() {
    let passed = ValidationResult::success("/a.ttf".to_string(), face("A"));
    assert!(passed.ok);
    assert_eq!(passed.error, None);
    assert!(matches!(introspect_outcome(passed), Ok(info) if info.postscript_name == "A"));

    let failed = ValidationResult::failure("/b.ttf".to_string(), r"bad\table");
    assert!(!failed.ok);
    assert!(failed.info.is_none());
    assert_eq!(failed.error, Some("bad/table".to_string()));
    assert!(matches!(
        introspect_outcome(failed),
        Err(FontError::InvalidFormat(m)) if m == "bad/table"
    ));

    let silent = ValidationResult {
        path: "/c.ttf".to_string(),
        ok: false,
        info: None,
        error: None,
    };
    assert!(matches!(
        introspect_outcome(silent),
        Err(FontError::InvalidFormat(m)) if m == "Unknown validation error"
    ));
    let hollow = ValidationResult {
        path: "/d.ttf".to_string(),
        ok: true,
        info: None,
        error: Some("ignored".to_string()),
    };
    assert!(matches!(
        introspect_outcome(hollow),
        Err(FontError::InvalidFormat(m)) if m == "Missing font info"
    ));
}

#[test]
fn outcomes_keep_the_order_of_the_answers() {
    let results = vec![
        ValidationResult::success("/a.ttf".to_string(), face("A")),
        ValidationResult::failure("/b.ttf".to_string(), "broken"),
        ValidationResult::success("/c.ttf".to_string(), face("C")),
    ];
    let outcomes = introspect_outcomes(results);
    assert_eq!(outcomes.len(), 3);
    assert!(matches!(&outcomes[0], Ok(info) if info.postscript_name == "A"));
    assert!(matches!(&outcomes[1], Err(FontError::InvalidFormat(m)) if m == "broken"));
    assert!(matches!(&outcomes[2], Ok(info) if info.postscript_name == "C"));
}

#[test]
fn a_single_font_takes_the_first_answer() {
    let answer = Ok(vec![
        ValidationResult::failure("/a.ttf".to_string(), "first"),
        ValidationResult::success("/b.ttf".to_string(), face("B")),
    ]);
    assert!(matches!(
        validate_single(answer),
        Err(FontError::InvalidFormat(m)) if m == "first"
    ));
    assert!(matches!(
        validate_single(Err(FontError::UnsupportedOperation("no helper".to_string()))),
        Err(FontError::UnsupportedOperation(m)) if m == "no helper"
    ));
    assert!(matches!(
        validate_single(Ok(vec![ValidationResult::success("/b.ttf".to_string(), face("B"))])),
        Ok(info) if info.postscript_name == "B"
    ));
}

#[test]
fn validator_input_carries_paths_and_limits() {
    let input = ValidatorInput {
        paths: vec!["/a.ttf".to_string()],
        config: ValidatorConfig::default(),
    };
    assert_eq!(input.paths.len(), 1);
    assert_eq!(input.config, ValidatorConfig::from_strictness(ValidationStrictness::Normal));
}

#[test]
fn this_build_has_no_python_bindings() {
    assert!(!PYTHON_BINDINGS_ENABLED);
    assert!(bindings_disabled_reason().contains("python-bindings"));
}

fn facts(exists: bool, is_file: bool) -> PathFacts {
    PathFacts { exists, is_file }
}

fn now_ms() -> u64 {
    std::time::SystemTime::now()
        .duration_since(std::time::UNIX_EPOCH)
        .unwrap()
        .as_millis() as u64
}

#[test]
fn rejects_nonexistent_file() {
    let path = std::path::PathBuf::from("/nonexistent/font.ttf");
    let failure = precheck_font_file(
        path.to_str().unwrap(),
        facts(path.exists(), path.is_file()),
        None,
        &ValidatorConfig::default(),
    );
    let result = ValidationResult::failure("/nonexistent/font.ttf".to_string(), &failure.unwrap());
    assert!(!result.ok);
    assert!(result.error.as_ref().unwrap().contains("not found"));
}

#[test]
fn rejects_invalid_extension() {
    let failure = precheck_font_file(
        "/tmp/file.txt",
        facts(true, true),
        Some(10),
        &ValidatorConfig::default(),
    );
    let result = ValidationResult::failure("/tmp/file.txt".to_string(), &failure.unwrap());
    assert!(!result.ok);
    assert!(result.error.as_ref().unwrap().contains("extension"));
}

#[test]
fn rejects_oversized_file() {
    let config = ValidatorConfig {
        max_file_size_bytes: 5, // tiny limit
        ..Default::default()
    };
    let failure = precheck_font_file("/tmp/file.ttf", facts(true, true), Some(14), &config);
    let result = ValidationResult::failure("/tmp/file.ttf".to_string(), &failure.unwrap());
    assert!(!result.ok);
    assert!(result.error.as_ref().unwrap().contains("exceeds maximum size"));
    assert_eq!(
        result.error,
        Some("File exceeds maximum size (14 bytes > 5 bytes)".to_string())
    );
}

#[test]
fn rejects_malformed_font() {
    let result = inspect_font(
        "/tmp/file.ttf",
        "ttf",
        b"this is not a valid font file",
        &ValidatorConfig::default(),
        now_ms(),
    );
    assert!(!result.ok);
    assert!(result.error.as_ref().unwrap().contains("Invalid font structure"));
}

#[test]
fn precheck_goes_through_its_reasons_in_order() {
    let config = ValidatorConfig::default();
    let check = |path: &str, f: PathFacts, size: Option<u64>| precheck_font_file(path, f, size, &config);
    assert_eq!(check("/a.txt", facts(false, false), None), Some("File not found".to_string()));
    assert_eq!(check("/a.txt", facts(true, false), None), Some("Path is not a file".to_string()));
    assert_eq!(check("/a.txt", facts(true, true), None), Some("Invalid font extension".to_string()));
    assert_eq!(check("/a", facts(true, true), Some(1)), Some("Invalid font extension".to_string()));
    assert_eq!(check("/a.OTF", facts(true, true), None), Some("Cannot read file metadata".to_string()));
    assert_eq!(check("/a.otf", facts(true, true), Some(64 * 1024 * 1024)), None);
    assert_eq!(
        check("/a.otf", facts(true, true), Some(64 * 1024 * 1024 + 1)),
        Some("File exceeds maximum size (67108865 bytes > 67108864 bytes)".to_string())
    );
    assert_eq!(check("/a.otf", facts(true, true), Some(0)), None);
}

#[test]
fn format_labels_follow_the_extension() {
    assert_eq!(format_label("ttf"), "TrueType");
    assert_eq!(format_label("otf"), "OpenType");
    assert_eq!(format_label("ttc"), "Collection");
    assert_eq!(format_label("otc"), "Collection");
    assert_eq!(format_label("woff"), "WOFF");
    assert_eq!(format_label("woff2"), "WOFF2");
    assert_eq!(format_label("dfont"), "dfont");
    assert_eq!(format_label("TTF"), "Unknown");
    assert_eq!(format_label(""), "Unknown");
}

#[test]
fn names_fall_back_step_by_step() {
    let none = extract_names(&None);
    assert_eq!(none.postscript_name, "Unknown");
    assert_eq!(none.full_name, "Unknown");
    assert_eq!(none.family_name, "Unknown");
    assert_eq!(none.style, "Regular");

    let empty = extract_names(&Some(vec![]));
    assert_eq!(empty.family_name, "Unknown");
    assert_eq!(empty.style, "Regular");
    assert_eq!(empty.full_name, "Unknown Regular");
    assert_eq!(empty.postscript_name, "Unknown");

    let some = |s: &str| Some(s.to_string());
    let partial = extract_names(&Some(vec![(1, some("Open Sans Pro")), (2, some("Bold"))]));
    assert_eq!(partial.family_name, "Open Sans Pro");
    assert_eq!(partial.style, "Bold");
    assert_eq!(partial.full_name, "Open Sans Pro Bold");
    assert_eq!(partial.postscript_name, "OpenSansPro");

    let full = extract_names(&Some(vec![
        (6, some("OS-Bold")),
        (4, some("Open Sans Bold")),
        (1, None),
        (1, some("Ignored")),
        (2, some("Bold")),
        (2, some("Other")),
    ]));
    assert_eq!(full.postscript_name, "OS-Bold");
    assert_eq!(full.full_name, "Open Sans Bold");
    assert_eq!(full.family_name, "Unknown");
    assert_eq!(full.style, "Bold");

    assert_eq!(find_name(&vec![(3, some("x")), (4, some("y"))], 4), some("y"));
    assert_eq!(find_name(&vec![(3, some("x"))], 4), None);
    assert_eq!(remove_spaces(" a b  c "), "abc");
}

#[test]
fn weight_and_slant_come_from_the_os2_table() {
    assert_eq!(extract_os2_info(None, None), (400, false));
    assert_eq!(extract_os2_info(Some(700), Some(0b0010_0001)), (700, true));
    assert_eq!(extract_os2_info(Some(100), Some(0b0100_0000)), (100, false));
    assert_eq!(extract_os2_info(None, Some(1)), (400, true));
    assert!(timed_out(1_000, 7_000, 5_000));
    assert!(!timed_out(1_000, 6_000, 5_000));
    assert!(!timed_out(9_000, 1_000, 5_000));
}

#[test]
fn a_late_inspection_times_out() {
    let config = ValidatorConfig {
        timeout_ms: 10,
        ..Default::default()
    };
    let result = inspect_font("/tmp/file.ttf", "ttf", b"whatever", &config, now_ms() - 60_000);
    assert!(!result.ok);
    assert_eq!(result.error, Some("Validation timeout".to_string()));
    assert_eq!(result.path, "/tmp/file.ttf");
}

/// A font file with the tables `name` and `OS/2`.
fn tiny_font() -> Vec<u8> {
    fn be16(v: u16) -> [u8; 2] {
        v.to_be_bytes()
    }
    fn be32(v: u32) -> [u8; 4] {
        v.to_be_bytes()
    }
    // The name table: two records, family and style, in Windows Unicode.
    let family: Vec<u8> = "Tiny Sans".encode_utf16().flat_map(|u| u.to_be_bytes()).collect();
    let style: Vec<u8> = "Italic".encode_utf16().flat_map(|u| u.to_be_bytes()).collect();
    let mut name = Vec::new();
    name.extend(be16(0)); // version
    name.extend(be16(2)); // count
    name.extend(be16(6 + 2 * 12)); // storage offset
    for (id, offset, text) in [(1u16, 0usize, &family), (2u16, family.len(), &style)] {
        name.extend(be16(3)); // platform: Windows
        name.extend(be16(1)); // encoding: Unicode BMP
        name.extend(be16(0x0409)); // language
        name.extend(be16(id));
        name.extend(be16(text.len() as u16));
        name.extend(be16(offset as u16));
    }
    name.extend(&family);
    name.extend(&style);
    while name.len() % 4 != 0 {
        name.push(0);
    }
    // The OS/2 table, version 0: 78 bytes.
    let mut os2 = vec![0u8; 78];
    os2[4..6].copy_from_slice(&be16(650)); // usWeightClass
    os2[62..64].copy_from_slice(&be16(1)); // fsSelection: italic
    while os2.len() % 4 != 0 {
        os2.push(0);
    }
    let header_len = 12 + 2 * 16;
    let mut font = Vec::new();
    font.extend(be32(0x0001_0000));
    font.extend(be16(2));
    font.extend(be16(32));
    font.extend(be16(1));
    font.extend(be16(0));
    font.extend(b"OS/2");
    font.extend(be32(0));
    font.extend(be32(header_len as u32));
    font.extend(be32(78));
    font.extend(b"name");
    font.extend(be32(0));
    font.extend(be32((header_len + os2.len()) as u32));
    font.extend(be32(name.len() as u32));
    font.extend(&os2);
    font.extend(&name);
    font
}

#[test]
fn a_font_is_described_by_its_tables() {
    let result = inspect_font(
        "/fonts/tiny.otf",
        "otf",
        &tiny_font(),
        &ValidatorConfig::default(),
        now_ms(),
    );
    assert!(result.ok, "{:?}", result.error);
    assert_eq!(result.error, None);
    let info = result.info.unwrap();
    assert_eq!(info.family_name, "Tiny Sans");
    assert_eq!(info.style, "Italic");
    assert_eq!(info.full_name, "Tiny Sans Italic");
    assert_eq!(info.postscript_name, "TinySans");
    assert_eq!(info.weight, Some(650));
    assert_eq!(info.italic, Some(true));
    assert_eq!(info.source.path, "/fonts/tiny.otf");
    assert_eq!(info.source.format, Some("OpenType".to_string()));
    assert_eq!(info.source.face_index, Some(0));
    assert_eq!(info.source.is_collection, Some(false));
    assert_eq!(info.source.scope, None);
}
