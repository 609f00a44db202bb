use fontlift::platform_mac::{
    ct_scope, fake_registry_target, font_format_to_string, is_adobe_font_list, is_conflict_error,
    normalize_path, scope_from_path, MacFontManager,
};
use fontlift::platform_win::{
    adobe_cache_roots, path_starts_with_case_insensitive, WinEnvironment, WinFontManager,
};
use fontlift::validation::is_valid_font_extension;
use fontlift::validation_ext::ValidatorConfig;
use fontlift::{FontError, FontScope, FontliftFontSource};

fn join(parts: &[&str]) -> String {
    let mut path = std::path::PathBuf::from(parts[0]);
    for part in &parts[1..] {
        path = path.join(part);
    }
    path.to_str().unwrap().to_string()
}

fn win_env(windir: Option<&str>, local: Option<&str>) -> WinEnvironment {
    WinEnvironment {
        windir: windir.map(|s| s.to_string()),
        local_appdata: local.map(|s| s.to_string()),
        program_files: None,
        program_files_x86: None,
    }
}

#[test]
fn test_mac_font_manager_creation() {
    let manager = MacFontManager::new(None);
    assert!(!manager.is_fake_registry_enabled());
}

#[test]
fn test_system_font_detection() {
    let manager = MacFontManager::new(None);

    // Test system font paths
    assert!(manager.is_system_font_path("/System/Library/Fonts/Arial.ttf"));
    assert!(manager.is_system_font_path("/Library/Fonts/Helvetica.ttc"));

    // Test user font paths
    assert!(!manager.is_system_font_path("/Users/test/Library/Fonts/Custom.otf"));
    assert!(!manager.is_system_font_path("/tmp/test.ttf"));
}

#[test]
fn mac_test_font_validation() {
    let _manager = MacFontManager::new(None);
    assert!(is_valid_font_extension("/tmp/test.ttf"));
    assert!(!is_valid_font_extension("/tmp/test.txt"));
}

#[test]
fn scope_detection_maps_user_and_system_paths() {
    let home = Some("/Users/demo");
    assert_eq!(
        scope_from_path("/Users/demo/Library/Fonts/Custom.otf", None, home),
        FontScope::User
    );
    assert_eq!(
        scope_from_path("/Library/Fonts/SystemFont.ttf", None, home),
        FontScope::System
    );
    assert_eq!(scope_from_path("/tmp/random-font.ttf", None, home), FontScope::User);
}

#[test]
fn scope_detection_prefers_the_fake_registry() {
    let root = Some("/fake");
    assert_eq!(
        scope_from_path("/fake/System/Library/Fonts/a.ttf", root, None),
        FontScope::System
    );
    assert_eq!(scope_from_path("/fake/Library/Fonts/a.ttf", root, None), FontScope::User);
    assert_eq!(scope_from_path("/System/Library/Fonts/a.ttf", root, None), FontScope::System);
    assert_eq!(scope_from_path("/Library/FontsOther/a.ttf", None, None), FontScope::User);
    assert_eq!(normalize_path("/A//B"), "/a/b");
}

#[test]
fn fake_registry_targets_lie_below_the_root() {
    assert_eq!(
        fake_registry_target("/root", FontScope::User, "/src/dir/A.ttf").unwrap(),
        join(&["/root", "Library/Fonts", "A.ttf"])
    );
    assert_eq!(
        fake_registry_target("/root", FontScope::System, "B.otf").unwrap(),
        join(&["/root", "System/Library/Fonts", "B.otf"])
    );
    assert!(matches!(
        fake_registry_target("/root", FontScope::User, "/"),
        Err(FontError::InvalidFormat(m)) if m == "Font path must include a file name"
    ));

    let fake = MacFontManager::new(Some("/root".to_string()));
    assert!(fake.is_fake_registry_enabled());
    assert_eq!(
        fake.target_directory(FontScope::System, None).unwrap(),
        join(&["/root", "System/Library/Fonts"])
    );
    let source = FontliftFontSource::new("/x/Font.ttf".to_string());
    assert_eq!(
        fake.installed_target_path(&source, FontScope::User, None).unwrap(),
        join(&["/root", "Library/Fonts", "Font.ttf"])
    );

    let real = MacFontManager::new(None);
    assert_eq!(
        real.target_directory(FontScope::User, Some("/Users/me")).unwrap(),
        join(&["/Users/me", "Library/Fonts"])
    );
    assert_eq!(real.target_directory(FontScope::System, None).unwrap(), "/Library/Fonts");
    assert!(matches!(
        real.target_directory(FontScope::User, None),
        Err(FontError::PermissionDenied(m)) if m == "Cannot determine home directory"
    ));
    assert!(matches!(
        real.installed_target_path(&FontliftFontSource::new("..".to_string()), FontScope::System, None),
        Err(FontError::InvalidFormat(_))
    ));
}

#[test]
fn fake_registry_allows_system_scope_without_admin() {
    let fake = MacFontManager::new(Some("/root".to_string()));
    assert!(fake.validate_system_operation(FontScope::System, false).is_ok());
    assert!(fake.replaces_existing(FontScope::System));
    assert!(fake.copy_verdict(FontScope::System, false, "/t", true, true).is_ok());

    let real = MacFontManager::new(None);
    assert!(matches!(
        real.validate_system_operation(FontScope::System, false),
        Err(FontError::PermissionDenied(_))
    ));
    assert!(real.validate_system_operation(FontScope::System, true).is_ok());
    assert!(real.validate_system_operation(FontScope::User, false).is_ok());
    assert!(real.replaces_existing(FontScope::User));
    assert!(!real.replaces_existing(FontScope::System));
    assert!(matches!(
        real.copy_verdict(FontScope::System, false, "/t", false, true),
        Err(FontError::PermissionDenied(_))
    ));
    assert!(matches!(
        real.copy_verdict(FontScope::User, false, "/t", true, false),
        Err(FontError::AlreadyInstalled(t)) if t == "/t"
    ));
    assert!(real.copy_verdict(FontScope::User, false, "/t", true, true).is_ok());
    assert!(real.copy_verdict(FontScope::System, true, "/t", false, false).is_ok());
}

#[test]
fn core_text_values_are_named() {
    assert_eq!(ct_scope(FontScope::User), 2);
    assert_eq!(ct_scope(FontScope::System), 2);
    assert_eq!(font_format_to_string(0), None);
    assert_eq!(font_format_to_string(1), Some("OpenTypePostScript".to_string()));
    assert_eq!(font_format_to_string(2), Some("OpenTypeTrueType".to_string()));
    assert_eq!(font_format_to_string(3), Some("TrueType".to_string()));
    assert_eq!(font_format_to_string(4), Some("PostScript".to_string()));
    assert_eq!(font_format_to_string(5), Some("Bitmap".to_string()));
    assert_eq!(font_format_to_string(6), None);
    assert!(is_conflict_error("com.apple.CoreText.CTFontManagerErrorDomain", 105));
    assert!(is_conflict_error("CTFontManagerErrorDomain", 305));
    assert!(!is_conflict_error("CTFontManagerErrorDomain", 106));
    assert!(!is_conflict_error("NSCocoaErrorDomain", 105));
    assert!(!is_conflict_error("", 105));
    assert!(is_adobe_font_list("AdobeFnt23.lst"));
    assert!(is_adobe_font_list("AdobeFnt.lst"));
    assert!(!is_adobe_font_list("adobefnt.lst"));
    assert!(!is_adobe_font_list("AdobeFnt.lst.bak"));
    assert!(!is_adobe_font_list(".lst"));
}

#[test]
fn test_win_font_manager_creation() {
    let manager = WinFontManager::new();
    assert_eq!(manager.validation_config, None);
    let validating = WinFontManager::with_validation(ValidatorConfig::default());
    assert_eq!(validating.validation_config, Some(ValidatorConfig::default()));
    let mut changed = WinFontManager::default();
    changed.set_validation_config(Some(ValidatorConfig::default()));
    assert!(changed.validation_config.is_some());
    changed.set_validation_config(None);
    assert!(changed.validation_config.is_none());
}

#[test]
fn adobe_cache_roots_cover_common_type_support_paths() {
    let bases = vec!["C:/Program Files".to_string()];
    let roots = adobe_cache_roots(&bases);

    assert!(roots.iter().any(|p| p.ends_with("Adobe/TypeSpt")));
    assert!(roots.iter().any(|p| p.ends_with("Adobe/TypeSupport")));
    assert_eq!(roots.len(), 3);
    assert!(adobe_cache_roots(&vec![]).is_empty());
    assert_eq!(adobe_cache_roots(&vec!["/a".to_string(), "/b".to_string()]).len(), 6);
}

#[test]
fn program_files_roots_deduplicates_case_insensitive_paths() {
    let env = WinEnvironment {
        windir: None,
        local_appdata: None,
        program_files: Some("/tmp/Program".to_string()),
        program_files_x86: Some("/TMP/PROGRAM".to_string()),
    };
    let roots = env.program_files_roots();
    assert_eq!(roots.len(), 1);
    assert_eq!(roots[0], "/tmp/Program");

    let two = WinEnvironment {
        program_files_x86: Some("/tmp/Program (x86)".to_string()),
        ..env
    };
    assert_eq!(two.program_files_roots(), vec!["/tmp/Program", "/tmp/Program (x86)"]);
    let only_x86 = WinEnvironment {
        program_files: None,
        ..two
    };
    assert_eq!(only_x86.program_files_roots(), vec!["/tmp/Program (x86)"]);
    assert!(win_env(None, None).program_files_roots().is_empty());
}

#[test]
fn test_system_font_path_detection() {
    let env = win_env(Some(r"C:\Windows"), None);

    assert!(env.is_system_font_path(r"C:\Windows\\fonts\arial.ttf"));
    assert!(!env.is_system_font_path(r"C:\Users\Test\Fonts\custom.ttf"));
    assert!(env.is_system_font_path(r"c:\WINDOWS\\System32\font.ttf"));
    assert!(env.is_system_font_path(r"C:\Windows\\SysWOW64"));
    assert_eq!(env.scope_for_path(r"C:\Windows\\Fonts\a.ttf"), FontScope::System);
    assert_eq!(env.scope_for_path(r"D:\a.ttf"), FontScope::User);
    assert!(path_starts_with_case_insensitive("C:/Fonts", "c:/fonts/A.ttf"));
    assert!(!path_starts_with_case_insensitive("C:/Fonts", "c:/font"));
}

#[test]
fn test_fonts_directory() {
    let env = win_env(None, None);
    let fonts_dir = env.get_fonts_directory();
    assert!(fonts_dir.contains("Fonts"));
    assert_eq!(env.system_root(), r"C:\\Windows");
    assert!(matches!(
        env.user_fonts_directory(),
        Err(FontError::PermissionDenied(m)) if m == "Cannot determine LOCALAPPDATA directory for per-user fonts"
    ));
}

#[test]
fn non_windows_operations_return_unsupported() {
    assert!(matches!(
        WinFontManager::unsupported(),
        FontError::UnsupportedOperation(m) if m == "Windows font operations are only available on Windows"
    ));
    let manager = WinFontManager::new();
    assert!(matches!(
        manager.validate_system_operation(FontScope::System, false),
        Err(FontError::PermissionDenied(_))
    ));
    assert!(manager.validate_system_operation(FontScope::System, true).is_ok());
    assert!(manager.validate_system_operation(FontScope::User, false).is_ok());
}

#[test]
fn normalize_registry_path_resolves_relative_to_scope_roots() {
    let env = win_env(Some("/win"), Some("/local"));

    let system_path = env
        .normalize_registry_path("Arial.ttf", FontScope::System)
        .expect("system normalization should succeed");
    assert_eq!(system_path, join(&["/win", "Fonts/Arial.ttf"]));

    let user_path = env
        .normalize_registry_path("SegoeUI.ttf", FontScope::User)
        .expect("user normalization should succeed");
    assert_eq!(user_path, join(&["/local", "Microsoft/Windows/Fonts/SegoeUI.ttf"]));

    assert_eq!(
        env.normalize_registry_path("/abs/x.ttf", FontScope::User).unwrap(),
        "/abs/x.ttf"
    );
    assert!(win_env(Some("/win"), None)
        .normalize_registry_path("x.ttf", FontScope::User)
        .is_err());
    assert_eq!(
        env.target_path_for_scope("/src/New.ttf", FontScope::System).unwrap(),
        join(&["/win", "Fonts", "New.ttf"])
    );
    assert!(matches!(
        env.target_path_for_scope("/", FontScope::System),
        Err(FontError::InvalidFormat(m)) if m == "Font path missing file name"
    ));
}

#[test]
fn registry_value_matches_path_accepts_filename_only_entries() {
    let env = win_env(Some("/win"), Some("/local"));
    let target = join(&["/win", "Fonts/Arial.ttf"]);

    assert!(env.registry_value_matches_path("Arial.ttf", &target, FontScope::System));
    assert!(env.registry_value_matches_path("arial.TTF", &target, FontScope::User));
    assert!(!env.registry_value_matches_path("Other.ttf", &target, FontScope::System));
}

#[test]
fn registry_value_matches_path_handles_case_insensitive_absolute_paths() {
    let env = win_env(Some("/win"), Some("/local"));
    let target = join(&["/win", "Fonts/MyFont.TTF"]);

    let mixed_case = target.to_uppercase();
    assert!(env.registry_value_matches_path(&mixed_case, &target, FontScope::System));
}
