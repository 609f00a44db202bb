use fontlift::config::{
    default_system_library_path, default_user_library_path, parse_bool, parse_u64, parse_usize,
    split_nonempty, ConfigError, Environment, FontPaths, FontliftConfig, Logging, Performance,
    Permissions,
};
use fontlift::platform::Platform;

fn temp_root() -> String {
    "/tmp".to_string()
}

fn empty_env() -> Environment {
    Environment {
        override_user_library: None,
        override_system_library: None,
        additional_fonts: None,
        temp_dir: None,
        allow_system: None,
        require_confirmation: None,
        dry_run: None,
        max_batch_size: None,
        log_level: None,
        verbose: None,
        json: None,
        log_file: None,
        enable_cache: None,
        max_cache_size_mb: None,
        cache_timeout_secs: None,
        parallel: None,
        max_threads: None,
        system_temp_dir: temp_root(),
    }
}

#[test]
fn test_default_config() {
    let config = FontliftConfig::minimal(&temp_root());
    assert!(config.validate().is_ok());
}

#[test]
fn test_user_library_path() {
    let config = FontliftConfig::minimal(&temp_root());
    let path = config.user_library_path(Platform::Linux, Some("/home/user"), None);
    assert!(!path.is_empty());
}

#[test]
fn test_system_library_path() {
    let config = FontliftConfig::minimal(&temp_root());
    let path = config.system_library_path(Platform::Linux);
    assert!(!path.is_empty());
}

#[test]
fn test_env_override() {
    // Test environment variable override
    let mut env = empty_env();
    env.dry_run = Some("true".to_string());
    let permissions = Permissions::from_env(&env);
    assert!(permissions.dry_run_mode);
    env.dry_run = None;

    let permissions = Permissions::from_env(&env);
    assert!(!permissions.dry_run_mode);
}

#[test]
fn test_validation() {
    let mut config = FontliftConfig::minimal(&temp_root());
    assert!(config.validate().is_ok());

    // Test invalid cache size
    config.performance.max_cache_size_mb = 0;
    assert!(config.validate().is_err());
}

#[test]
fn minimal_settings_are_the_documented_defaults() {
    let config = FontliftConfig::minimal("/var/tmp");
    assert_eq!(config.font_paths.user_library_override, None);
    assert_eq!(config.font_paths.system_library_override, None);
    assert!(config.font_paths.additional_directories.is_empty());
    assert_eq!(
        config.font_paths.temp_directory,
        std::path::Path::new("/var/tmp").join("fontlift").to_str().unwrap()
    );
    assert_eq!(config.permissions, Permissions::minimal());
    assert!(!config.permissions.allow_system_operations);
    assert!(config.permissions.require_system_confirmation);
    assert!(!config.permissions.dry_run_mode);
    assert_eq!(config.permissions.max_batch_size, 1000);
    assert_eq!(config.logging.level, "info");
    assert!(!config.logging.verbose);
    assert!(!config.logging.json_output);
    assert_eq!(config.logging.log_file, None);
    assert_eq!(config.performance, Performance::minimal());
    assert!(config.performance.enable_cache);
    assert_eq!(config.performance.max_cache_size_mb, 100);
    assert_eq!(config.performance.cache_timeout_secs, 3600);
    assert!(config.performance.parallel_processing);
    assert_eq!(config.performance.max_threads, None);
    assert_eq!(Logging::minimal().level, "info");
    assert!(FontPaths::minimal("/t").additional_directories.is_empty());
}

#[test]
fn an_empty_environment_gives_the_defaults() {
    let config = FontliftConfig::from_env(&empty_env());
    let minimal = FontliftConfig::minimal(&temp_root());
    assert_eq!(config.permissions, minimal.permissions);
    assert_eq!(config.performance, minimal.performance);
    assert_eq!(config.logging.level, minimal.logging.level);
    assert_eq!(config.font_paths.temp_directory, minimal.font_paths.temp_directory);
    assert!(config.font_paths.additional_directories.is_empty());
}

#[test]
fn the_environment_overrides_the_defaults() {
    let mut env = empty_env();
    env.override_user_library = Some("/u".to_string());
    env.override_system_library = Some("/s".to_string());
    env.additional_fonts = Some(":/a::/b/c:".to_string());
    env.temp_dir = Some("/scratch".to_string());
    env.allow_system = Some("true".to_string());
    env.require_confirmation = Some("false".to_string());
    env.dry_run = Some("TRUE".to_string());
    env.max_batch_size = Some("25".to_string());
    env.log_level = Some("debug".to_string());
    env.verbose = Some("true".to_string());
    env.json = Some("yes".to_string());
    env.log_file = Some("/log".to_string());
    env.enable_cache = Some("false".to_string());
    env.max_cache_size_mb = Some("-3".to_string());
    env.cache_timeout_secs = Some("+60".to_string());
    env.parallel = Some("false".to_string());
    env.max_threads = Some("8".to_string());

    let config = FontliftConfig::from_env(&env);
    assert_eq!(config.font_paths.user_library_override, Some("/u".to_string()));
    assert_eq!(config.font_paths.system_library_override, Some("/s".to_string()));
    assert_eq!(config.font_paths.additional_directories, vec!["/a", "/b/c"]);
    assert_eq!(config.font_paths.temp_directory, "/scratch");
    assert!(config.permissions.allow_system_operations);
    assert!(!config.permissions.require_system_confirmation);
    assert!(!config.permissions.dry_run_mode);
    assert_eq!(config.permissions.max_batch_size, 25);
    assert_eq!(config.logging.level, "debug");
    assert!(config.logging.verbose);
    assert!(!config.logging.json_output);
    assert_eq!(config.logging.log_file, Some("/log".to_string()));
    assert!(!config.performance.enable_cache);
    assert_eq!(config.performance.max_cache_size_mb, 100);
    assert_eq!(config.performance.cache_timeout_secs, 60);
    assert!(!config.performance.parallel_processing);
    assert_eq!(config.performance.max_threads, Some(8));

    assert_eq!(config.user_library_path(Platform::MacOs, None, None), "/u");
    assert_eq!(config.system_library_path(Platform::MacOs), "/s");
    assert!(config.can_perform_system_operations(true));
    assert!(!config.can_perform_system_operations(false));
    assert!(!FontliftConfig::minimal("/t").can_perform_system_operations(true));
}

#[test]
fn words_are_parsed_as_the_standard_library_parses_them() {
    for word in [
        "true", "false", "True", "", " true", "1", "0", "+7", "007", "-1", "1_000", "12a", "+",
        "18446744073709551615", "18446744073709551616", "99999999999999999999999", " 5", "5 ",
    ] {
        assert_eq!(parse_bool(word), word.parse::<bool>().ok(), "bool {word:?}");
        assert_eq!(parse_u64(word), word.parse::<u64>().ok(), "u64 {word:?}");
        assert_eq!(parse_usize(word), word.parse::<usize>().ok(), "usize {word:?}");
    }
    assert_eq!(parse_u64("18446744073709551615"), Some(u64::MAX));
    assert_eq!(parse_u64("42"), Some(42));
}

#[test]
fn lists_are_split_at_the_separator_without_empty_pieces() {
    for list in ["", ":", "a", "a:b", ":a::b:", "a:", ":a", "::", "ab:c:def"] {
        let expected: Vec<String> = list
            .split(':')
            .filter(|s| !s.is_empty())
            .map(|s| s.to_string())
            .collect();
        assert_eq!(split_nonempty(list, ':'), expected, "{list:?}");
    }
}

#[test]
fn library_paths_follow_the_platform() {
    let join = |parts: &[&str]| -> String {
        let mut path = std::path::PathBuf::from(parts[0]);
        for part in &parts[1..] {
            path = path.join(part);
        }
        path.to_str().unwrap().to_string()
    };
    assert_eq!(
        default_user_library_path(Platform::MacOs, Some("/Users/me"), None),
        join(&["/Users/me", "Library", "Fonts"])
    );
    assert_eq!(
        default_user_library_path(Platform::MacOs, None, None),
        join(&["~", "Library", "Fonts"])
    );
    assert_eq!(
        default_user_library_path(Platform::Linux, Some("/home/me"), None),
        join(&["/home/me", ".local", "share", "fonts"])
    );
    assert_eq!(
        default_user_library_path(Platform::Windows, Some("C:\\Users\\me"), Some("D:\\Fonts")),
        "D:\\Fonts"
    );
    assert_eq!(
        default_user_library_path(Platform::Windows, None, None),
        "C:\\Windows\\Fonts"
    );
    assert_eq!(default_user_library_path(Platform::Other, Some("/h"), None), "/tmp/fonts");
    assert_eq!(default_system_library_path(Platform::MacOs), "/Library/Fonts");
    assert_eq!(default_system_library_path(Platform::Windows), "C:\\Windows\\Fonts");
    assert_eq!(default_system_library_path(Platform::Linux), "/usr/share/fonts");
    assert_eq!(default_system_library_path(Platform::Other), "/usr/share/fonts");
}

#[test]
fn validation_reports_the_first_thing_that_is_wrong() {
    let mut config = FontliftConfig::minimal("/t");
    config.font_paths.user_library_override = Some("/u".to_string());
    config.font_paths.system_library_override = Some("/s".to_string());
    config.performance.max_cache_size_mb = 0;
    config.permissions.max_batch_size = 0;

    assert!(matches!(
        config.validate_with(false, false),
        Err(ConfigError::MissingUserLibrary(p)) if p == "/u"
    ));
    assert!(matches!(
        config.validate_with(true, false),
        Err(ConfigError::MissingSystemLibrary(p)) if p == "/s"
    ));
    assert!(matches!(config.validate_with(true, true), Err(ConfigError::ZeroCacheSize)));
    config.performance.max_cache_size_mb = 1;
    assert!(matches!(config.validate_with(true, true), Err(ConfigError::ZeroBatchSize)));
    config.permissions.max_batch_size = 1;
    assert!(config.validate_with(true, true).is_ok());

    let dir = tempfile::TempDir::new().unwrap();
    config.font_paths.user_library_override = Some(dir.path().to_str().unwrap().to_string());
    config.font_paths.system_library_override =
        Some(dir.path().join("missing").to_str().unwrap().to_string());
    let err = config.validate().unwrap_err();
    assert_eq!(
        err.message(),
        format!(
            "System library override path does not exist: {}",
            dir.path().join("missing").to_str().unwrap()
        )
    );
    assert_eq!(ConfigError::ZeroCacheSize.message(), "Max cache size must be greater than 0");
    assert_eq!(ConfigError::ZeroBatchSize.message(), "Max batch size must be greater than 0");
}
