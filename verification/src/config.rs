//! Configuration: the settings, their defaults, and how they are read from
//! the values of environment variables. Reading the environment itself is
//! the caller's part.

use vstd::prelude::*;
use vstd::string::StringExecFns;
use crate::paths;
use crate::platform::Platform;
use crate::text;
use crate::{clone_opt_text, opt_text};

verus! {

/// The settings of the font manager.
#[derive(Debug)]
pub struct FontliftConfig {
    /// Font paths and directories.
    pub font_paths: FontPaths,
    /// Operation scopes and permissions.
    pub permissions: Permissions,
    /// Logging and output.
    pub logging: Logging,
    /// Cache and performance.
    pub performance: Performance,
}

/// Where fonts are kept.
#[derive(Debug)]
pub struct FontPaths {
    /// Overrides the user library.
    pub user_library_override: Option<String>,
    /// Overrides the system library.
    pub system_library_override: Option<String>,
    /// Further directories to scan.
    pub additional_directories: Vec<String>,
    /// Directory for temporary files.
    pub temp_directory: String,
}

/// What the font manager may do.
#[derive(Debug, Clone, Copy, PartialEq, Eq, Structural)]
pub struct Permissions {
    /// System-level operations are allowed (they still need the rights).
    pub allow_system_operations: bool,
    /// Changes to system fonts must be confirmed.
    pub require_system_confirmation: bool,
    /// Nothing is changed; intended actions are shown.
    pub dry_run_mode: bool,
    /// The most fonts handled in one batch.
    pub max_batch_size: usize,
}

/// Logging and output.
#[derive(Debug)]
pub struct Logging {
    /// Log level (trace, debug, info, warn, error).
    pub level: String,
    /// Verbose output.
    pub verbose: bool,
    /// Output as JSON.
    pub json_output: bool,
    /// The log file, if any.
    pub log_file: Option<String>,
}

/// Cache and performance.
#[derive(Debug, Clone, Copy, PartialEq, Eq, Structural)]
pub struct Performance {
    /// Results are cached.
    pub enable_cache: bool,
    /// Maximum cache size in MB.
    pub max_cache_size_mb: usize,
    /// Cache timeout in seconds.
    pub cache_timeout_secs: u64,
    /// Fonts are processed in parallel.
    pub parallel_processing: bool,
    /// The most threads used; none given means no limit set.
    pub max_threads: Option<usize>,
}

/// The values of the environment variables that configure the font manager,
/// each `None` where the variable is not set, and the system's directory for
/// temporary files.
#[derive(Debug)]
pub struct Environment {
    /// `FONTLIFT_OVERRIDE_USER_LIBRARY`
    pub override_user_library: Option<String>,
    /// `FONTLIFT_OVERRIDE_SYSTEM_LIBRARY`
    pub override_system_library: Option<String>,
    /// `FONTLIFT_ADDITIONAL_FONTS`
    pub additional_fonts: Option<String>,
    /// `FONTLIFT_TEMP_DIR`
    pub temp_dir: Option<String>,
    /// `FONTLIFT_ALLOW_SYSTEM`
    pub allow_system: Option<String>,
    /// `FONTLIFT_REQUIRE_CONFIRMATION`
    pub require_confirmation: Option<String>,
    /// `FONTLIFT_DRY_RUN`
    pub dry_run: Option<String>,
    /// `FONTLIFT_MAX_BATCH_SIZE`
    pub max_batch_size: Option<String>,
    /// `FONTLIFT_LOG_LEVEL`
    pub log_level: Option<String>,
    /// `FONTLIFT_VERBOSE`
    pub verbose: Option<String>,
    /// `FONTLIFT_JSON`
    pub json: Option<String>,
    /// `FONTLIFT_LOG_FILE`
    pub log_file: Option<String>,
    /// `FONTLIFT_ENABLE_CACHE`
    pub enable_cache: Option<String>,
    /// `FONTLIFT_MAX_CACHE_SIZE_MB`
    pub max_cache_size_mb: Option<String>,
    /// `FONTLIFT_CACHE_TIMEOUT_SECS`
    pub cache_timeout_secs: Option<String>,
    /// `FONTLIFT_PARALLEL`
    pub parallel: Option<String>,
    /// `FONTLIFT_MAX_THREADS`
    pub max_threads: Option<String>,
    /// The system's directory for temporary files.
    pub system_temp_dir: String,
}

/// The truth value that `word` writes: `true` or `false`, nothing else.
pub open spec fn bool_of(word: Seq<char>) -> Option<bool> {
    if word == "true"@ {
        Some(true)
    } else if word == "false"@ {
        Some(false)
    } else {
        None
    }
}

/// The setting that a variable gives: what its value writes, or `default`
/// where it is not set or writes no truth value.
pub open spec fn flag_of(value: Option<Seq<char>>, default: bool) -> bool {
    match value {
        Some(word) => match bool_of(word) {
            Some(b) => b,
            None => default,
        },
        None => default,
    }
}

/// The truth value that `word` writes.
pub fn parse_bool(word: &str) -> (parsed: Option<bool>)
    ensures
        parsed == bool_of(word@),
{
    if text::same_text(word, "true") {
        Some(true)
    } else if text::same_text(word, "false") {
        Some(false)
    } else {
        None
    }
}

/// The setting that a variable gives.
pub fn flag(value: &Option<String>, default: bool) -> (setting: bool)
    ensures
        setting == flag_of(opt_text(*value), default),
{
    match value {
        Some(word) => match parse_bool(word.as_str()) {
            Some(b) => b,
            None => default,
        },
        None => default,
    }
}

/// Whether `c` is a decimal digit.
pub open spec fn is_digit(c: char) -> bool {
    '0' <= c && c <= '9'
}

/// The value of the digit `c`.
pub open spec fn digit_value(c: char) -> nat {
    (c as u32 - '0' as u32) as nat
}

/// The value of a run of digits.
pub open spec fn digits_value(digits: Seq<char>) -> nat
    decreases digits.len(),
{
    if digits.len() == 0 {
        0
    } else {
        digits_value(digits.drop_last()) * 10 + digit_value(digits.last())
    }
}

/// The digits of a number as it is written: the text without a leading `+`.
pub open spec fn digits_part(word: Seq<char>) -> Seq<char> {
    if word.len() > 0 && word[0] == '+' {
        word.drop_first()
    } else {
        word
    }
}

/// The number that `word` writes: an optional `+` and then decimal digits
/// only, at least one, with a value of at most `max`.
pub open spec fn unsigned_of(word: Seq<char>, max: nat) -> Option<nat> {
    let digits = digits_part(word);
    if digits.len() > 0 && (forall|i: int| 0 <= i < digits.len() ==> is_digit(#[trigger] digits[i]))
        && digits_value(digits) <= max {
        Some(digits_value(digits))
    } else {
        None
    }
}

/// The value of a run of digits is at least that of any of its prefixes.
pub proof fn lemma_digits_value_grows(digits: Seq<char>, n: int)
    requires
        0 <= n <= digits.len(),
    ensures
        digits_value(digits.take(n)) <= digits_value(digits),
    decreases digits.len(),
{
    if n == digits.len() {
        assert(digits.take(n) =~= digits);
    } else {
        assert(digits.drop_last().take(n) =~= digits.take(n));
        lemma_digits_value_grows(digits.drop_last(), n);
    }
}

/// The number that `word` writes, if it writes one that fits into 64 bits.
pub fn parse_u64(word: &str) -> (parsed: Option<u64>)
    ensures
        match parsed {
            Some(n) => unsigned_of(word@, u64::MAX as nat) == Some(n as nat),
            None => unsigned_of(word@, u64::MAX as nat) is None,
        },
{
    let chars = text::chars_of(word);
    let start: usize = if chars.len() > 0 && chars[0] == '+' {
        1
    } else {
        0
    };
    let ghost digits = digits_part(word@);
    assert(digits =~= chars@.subrange(start as int, chars.len() as int));
    if start == chars.len() {
        return None;
    }
    let mut value: u64 = 0;
    let mut i: usize = start;
    assert(digits.take(0) =~= Seq::<char>::empty());
    while i < chars.len()
        invariant
            start <= i <= chars.len(),
            digits == digits_part(word@),
            digits == chars@.subrange(start as int, chars.len() as int),
            forall|j: int| 0 <= j < i - start ==> is_digit(#[trigger] digits[j]),
            value == digits_value(digits.take(i - start)),
        decreases chars.len() - i,
    {
        let c = chars[i];
        assert(digits[i - start] == c);
        if !('0' <= c && c <= '9') {
            assert(!is_digit(digits[i - start]));
            return None;
        }
        let d = (c as u32 - '0' as u32) as u64;
        proof {
            let longer = digits.take(i - start + 1);
            assert(longer.drop_last() =~= digits.take(i - start));
            assert(longer.last() == c);
            assert(digits_value(longer) == value * 10 + d);
            lemma_digits_value_grows(digits, i - start + 1);
        }
        if value > (u64::MAX - d) / 10 {
            assert(value * 10 + d > u64::MAX);
            return None;
        }
        value = value * 10 + d;
        i += 1;
    }
    assert(digits.take(i - start) =~= digits);
    Some(value)
}

/// The number that a variable gives: what its value writes, or `default`
/// where it is not set, writes no number, or one that does not fit.
pub open spec fn number_of(value: Option<Seq<char>>, max: nat, default: nat) -> nat {
    match value {
        Some(word) => match unsigned_of(word, max) {
            Some(n) => n,
            None => default,
        },
        None => default,
    }
}

/// The 64-bit number that a variable gives.
pub fn number_u64(value: &Option<String>, default: u64) -> (setting: u64)
    ensures
        setting == number_of(opt_text(*value), u64::MAX as nat, default as nat),
{
    match value {
        Some(word) => match parse_u64(word.as_str()) {
            Some(n) => n,
            None => default,
        },
        None => default,
    }
}

/// The number that `word` writes, if it writes one that fits into a `usize`.
pub fn parse_usize(word: &str) -> (parsed: Option<usize>)
    ensures
        match parsed {
            Some(n) => unsigned_of(word@, usize::MAX as nat) == Some(n as nat),
            None => unsigned_of(word@, usize::MAX as nat) is None,
        },
{
    match parse_u64(word) {
        Some(n) => if n <= usize::MAX as u64 {
            Some(n as usize)
        } else {
            None
        },
        None => None,
    }
}

/// The `usize` that a variable gives.
pub fn number_usize(value: &Option<String>, default: usize) -> (setting: usize)
    ensures
        setting == number_of(opt_text(*value), usize::MAX as nat, default as nat),
{
    match value {
        Some(word) => match parse_usize(word.as_str()) {
            Some(n) => n,
            None => default,
        },
        None => default,
    }
}

/// The pieces of `list` between the separators `sep`, without the empty ones.
pub open spec fn pieces_of(list: Seq<char>, sep: char) -> Seq<Seq<char>>
    decreases list.len(),
{
    if list.len() == 0 {
        Seq::empty()
    } else if list.last() == sep {
        pieces_of(list.drop_last(), sep)
    } else if list.len() >= 2 && list[list.len() - 2] != sep {
        // The last character goes on with the piece before it.
        let before = pieces_of(list.drop_last(), sep);
        before.drop_last().push(before.last().push(list.last()))
    } else {
        // The last character begins a piece.
        pieces_of(list.drop_last(), sep).push(seq![list.last()])
    }
}

/// The values of a sequence of strings.
pub open spec fn texts_view(texts: Seq<String>) -> Seq<Seq<char>> {
    texts.map_values(|t: String| t@)
}

/// The pieces of `list` between the separators `sep`, without the empty ones.
pub fn split_nonempty(list: &str, sep: char) -> (pieces: Vec<String>)
    ensures
        texts_view(pieces@) == pieces_of(list@, sep),
{
    let chars = text::chars_of(list);
    let mut done: Vec<String> = Vec::new();
    let mut current: Vec<char> = Vec::new();
    let mut i: usize = 0;
    assert(chars@.take(0) =~= Seq::<char>::empty());
    assert(texts_view(done@) =~= pieces_of(chars@.take(0), sep));
    // `done` holds the finished pieces; `current` the piece being read.
    while i < chars.len()
        invariant
            i <= chars.len(),
            chars@ == list@,
            current@.len() > 0 ==> i > 0 && chars@[i - 1] != sep,
            current@.len() == 0 ==> (i == 0 || chars@[i - 1] == sep),
            current@.len() == 0 ==> texts_view(done@) == pieces_of(chars@.take(i as int), sep),
            current@.len() > 0 ==> texts_view(done@).push(current@) == pieces_of(
                chars@.take(i as int),
                sep,
            ),
        decreases chars.len() - i,
    {
        let ghost prefix = chars@.take(i + 1);
        let ghost before = chars@.take(i as int);
        assert(prefix.drop_last() =~= before);
        assert(prefix.last() == chars@[i as int]);
        if i > 0 {
            assert(prefix[prefix.len() - 2] == chars@[i - 1]);
        }
        let c = chars[i];
        if c == sep {
            if current.len() > 0 {
                let ghost old_done = texts_view(done@);
                let piece = text::string_of(&current);
                done.push(piece);
                assert(texts_view(done@) =~= old_done.push(current@));
                current = Vec::new();
            }
        } else {
            let ghost old_current = current@;
            current.push(c);
            proof {
                if old_current.len() > 0 {
                    let earlier = pieces_of(before, sep);
                    assert(earlier.drop_last() =~= texts_view(done@));
                    assert(earlier.last() == old_current);
                    assert(pieces_of(prefix, sep) =~= texts_view(done@).push(current@));
                } else {
                    assert(current@ =~= seq![c]);
                }
            }
        }
        i += 1;
    }
    assert(chars@.take(i as int) =~= chars@);
    if current.len() > 0 {
        let ghost old_done = texts_view(done@);
        let piece = text::string_of(&current);
        done.push(piece);
        assert(texts_view(done@) =~= old_done.push(current@));
    }
    done
}

impl View for FontPaths {
    type V = FontPathsView;

    open spec fn view(&self) -> FontPathsView {
        FontPathsView {
            user_library_override: opt_text(self.user_library_override),
            system_library_override: opt_text(self.system_library_override),
            additional_directories: texts_view(self.additional_directories@),
            temp_directory: self.temp_directory@,
        }
    }
}

/// The mathematical value of [`FontPaths`].
pub struct FontPathsView {
    pub user_library_override: Option<Seq<char>>,
    pub system_library_override: Option<Seq<char>>,
    pub additional_directories: Seq<Seq<char>>,
    pub temp_directory: Seq<char>,
}

/// The mathematical value of [`Logging`].
pub struct LoggingView {
    pub level: Seq<char>,
    pub verbose: bool,
    pub json_output: bool,
    pub log_file: Option<Seq<char>>,
}

impl View for Logging {
    type V = LoggingView;

    open spec fn view(&self) -> LoggingView {
        LoggingView {
            level: self.level@,
            verbose: self.verbose,
            json_output: self.json_output,
            log_file: opt_text(self.log_file),
        }
    }
}

/// The mathematical value of a [`FontliftConfig`].
pub struct FontliftConfigView {
    pub font_paths: FontPathsView,
    pub permissions: Permissions,
    pub logging: LoggingView,
    pub performance: Performance,
}

impl View for FontliftConfig {
    type V = FontliftConfigView;

    open spec fn view(&self) -> FontliftConfigView {
        FontliftConfigView {
            font_paths: self.font_paths@,
            permissions: self.permissions,
            logging: self.logging@,
            performance: self.performance,
        }
    }
}

/// The directory for temporary files used where none is configured: the
/// folder `fontlift` in the system's.
pub open spec fn default_temp_directory_of(system_temp_dir: Seq<char>) -> Seq<char> {
    paths::joined(system_temp_dir, "fontlift"@)
}

/// The directory for temporary files used where none is configured.
pub fn default_temp_directory(system_temp_dir: &str) -> (dir: String)
    ensures
        dir@ == default_temp_directory_of(system_temp_dir@),
{
    paths::join(system_temp_dir, "fontlift")
}

impl FontPaths {
    /// The paths that the environment configures: the overrides as they are
    /// given, the additional directories split at colons, the temporary
    /// directory as given or else the default.
    pub open spec fn of_env(env: Environment) -> FontPathsView {
        FontPathsView {
            user_library_override: opt_text(env.override_user_library),
            system_library_override: opt_text(env.override_system_library),
            additional_directories: match env.additional_fonts {
                Some(list) => pieces_of(list@, ':'),
                None => Seq::empty(),
            },
            temp_directory: match env.temp_dir {
                Some(dir) => dir@,
                None => default_temp_directory_of(env.system_temp_dir@),
            },
        }
    }

    /// The paths that the environment configures.
    pub fn from_env(env: &Environment) -> (paths: Self)
        ensures
            paths@ == FontPaths::of_env(*env),
    {
        let additional_directories = match &env.additional_fonts {
            Some(list) => split_nonempty(list.as_str(), ':'),
            None => {
                let none: Vec<String> = Vec::new();
                assert(texts_view(none@) =~= Seq::<Seq<char>>::empty());
                none
            },
        };
        let temp_directory = match &env.temp_dir {
            Some(dir) => dir.clone(),
            None => default_temp_directory(env.system_temp_dir.as_str()),
        };
        FontPaths {
            user_library_override: clone_opt_text(&env.override_user_library),
            system_library_override: clone_opt_text(&env.override_system_library),
            additional_directories,
            temp_directory,
        }
    }

    /// The paths without any configuration: no overrides, no additional
    /// directories, the default temporary directory.
    pub fn minimal(system_temp_dir: &str) -> (paths: Self)
        ensures
            paths@ == (FontPathsView {
                user_library_override: None,
                system_library_override: None,
                additional_directories: Seq::empty(),
                temp_directory: default_temp_directory_of(system_temp_dir@),
            }),
    {
        let paths = FontPaths {
            user_library_override: None,
            system_library_override: None,
            additional_directories: Vec::new(),
            temp_directory: default_temp_directory(system_temp_dir),
        };
        assert(paths@.additional_directories =~= Seq::<Seq<char>>::empty());
        paths
    }
}

impl Permissions {
    /// The permissions that the environment configures.
    pub open spec fn of_env(env: Environment) -> Permissions {
        Permissions {
            allow_system_operations: flag_of(opt_text(env.allow_system), false),
            require_system_confirmation: flag_of(opt_text(env.require_confirmation), true),
            dry_run_mode: flag_of(opt_text(env.dry_run), false),
            max_batch_size: number_of(opt_text(env.max_batch_size), usize::MAX as nat, 1000) as usize,
        }
    }

    /// The permissions that the environment configures.
    pub fn from_env(env: &Environment) -> (permissions: Self)
        ensures
            permissions == Permissions::of_env(*env),
    {
        Permissions {
            allow_system_operations: flag(&env.allow_system, false),
            require_system_confirmation: flag(&env.require_confirmation, true),
            dry_run_mode: flag(&env.dry_run, false),
            max_batch_size: number_usize(&env.max_batch_size, 1000),
        }
    }

    /// The permissions without any configuration.
    pub fn minimal() -> (permissions: Self)
        ensures
            permissions == (Permissions {
                allow_system_operations: false,
                require_system_confirmation: true,
                dry_run_mode: false,
                max_batch_size: 1000,
            }),
    {
        Permissions {
            allow_system_operations: false,
            require_system_confirmation: true,
            dry_run_mode: false,
            max_batch_size: 1000,
        }
    }
}

impl Logging {
    /// The logging that the environment configures.
    pub open spec fn of_env(env: Environment) -> LoggingView {
        LoggingView {
            level: match env.log_level {
                Some(level) => level@,
                None => "info"@,
            },
            verbose: flag_of(opt_text(env.verbose), false),
            json_output: flag_of(opt_text(env.json), false),
            log_file: opt_text(env.log_file),
        }
    }

    /// The logging that the environment configures.
    pub fn from_env(env: &Environment) -> (logging: Self)
        ensures
            logging@ == Logging::of_env(*env),
    {
        Logging {
            level: match &env.log_level {
                Some(level) => level.clone(),
                None => String::from_str("info"),
            },
            verbose: flag(&env.verbose, false),
            json_output: flag(&env.json, false),
            log_file: clone_opt_text(&env.log_file),
        }
    }

    /// The logging without any configuration.
    pub fn minimal() -> (logging: Self)
        ensures
            logging@ == (LoggingView {
                level: "info"@,
                verbose: false,
                json_output: false,
                log_file: None,
            }),
    {
        Logging {
            level: String::from_str("info"),
            verbose: false,
            json_output: false,
            log_file: None,
        }
    }
}

impl Performance {
    /// The performance settings that the environment configures.
    pub open spec fn of_env(env: Environment) -> Performance {
        Performance {
            enable_cache: flag_of(opt_text(env.enable_cache), true),
            max_cache_size_mb: number_of(opt_text(env.max_cache_size_mb), usize::MAX as nat, 100) as usize,
            cache_timeout_secs: number_of(opt_text(env.cache_timeout_secs), u64::MAX as nat, 3600) as u64,
            parallel_processing: flag_of(opt_text(env.parallel), true),
            max_threads: match env.max_threads {
                Some(word) => match unsigned_of(word@, usize::MAX as nat) {
                    Some(n) => Some(n as usize),
                    None => None,
                },
                None => None,
            },
        }
    }

    /// The performance settings that the environment configures.
    pub fn from_env(env: &Environment) -> (performance: Self)
        ensures
            performance == Performance::of_env(*env),
    {
        Performance {
            enable_cache: flag(&env.enable_cache, true),
            max_cache_size_mb: number_usize(&env.max_cache_size_mb, 100),
            cache_timeout_secs: number_u64(&env.cache_timeout_secs, 3600),
            parallel_processing: flag(&env.parallel, true),
            max_threads: match &env.max_threads {
                Some(word) => parse_usize(word.as_str()),
                None => None,
            },
        }
    }

    /// The performance settings without any configuration.
    pub fn minimal() -> (performance: Self)
        ensures
            performance == (Performance {
                enable_cache: true,
                max_cache_size_mb: 100,
                cache_timeout_secs: 3600,
                parallel_processing: true,
                max_threads: None,
            }),
    {
        Performance {
            enable_cache: true,
            max_cache_size_mb: 100,
            cache_timeout_secs: 3600,
            parallel_processing: true,
            max_threads: None,
        }
    }
}

/// The user's font library where none is configured: `Library/Fonts` in the
/// home directory on macOS, the platform's font directory on Windows,
/// `.local/share/fonts` in the home directory on Linux.
pub open spec fn default_user_library_of(
    platform: Platform,
    home: Option<Seq<char>>,
    font_dir: Option<Seq<char>>,
) -> Seq<char> {
    let home_dir = match home {
        Some(dir) => dir,
        None => "~"@,
    };
    match platform {
        Platform::MacOs => paths::joined(paths::joined(home_dir, "Library"@), "Fonts"@),
        Platform::Windows => match font_dir {
            Some(dir) => dir,
            None => "C:\\Windows\\Fonts"@,
        },
        Platform::Linux => paths::joined(
            paths::joined(paths::joined(home_dir, ".local"@), "share"@),
            "fonts"@,
        ),
        Platform::Other => "/tmp/fonts"@,
    }
}

/// The system's font library where none is configured.
pub open spec fn default_system_library_of(platform: Platform) -> Seq<char> {
    match platform {
        Platform::MacOs => "/Library/Fonts"@,
        Platform::Windows => "C:\\Windows\\Fonts"@,
        Platform::Linux => "/usr/share/fonts"@,
        Platform::Other => "/usr/share/fonts"@,
    }
}

/// The user's font library where none is configured, given the home
/// directory and the platform's font directory, each where it is known.
pub fn default_user_library_path(platform: Platform, home: Option<&str>, font_dir: Option<&str>) -> (path:
    String)
    ensures
        path@ == default_user_library_of(
            platform,
            paths::opt_str_text(home),
            paths::opt_str_text(font_dir),
        ),
{
    let home_dir = match home {
        Some(dir) => dir,
        None => "~",
    };
    match platform {
        Platform::MacOs => {
            let library = paths::join(home_dir, "Library");
            paths::join(library.as_str(), "Fonts")
        },
        Platform::Windows => match font_dir {
            Some(dir) => String::from_str(dir),
            None => String::from_str("C:\\Windows\\Fonts"),
        },
        Platform::Linux => {
            let local = paths::join(home_dir, ".local");
            let share = paths::join(local.as_str(), "share");
            paths::join(share.as_str(), "fonts")
        },
        Platform::Other => String::from_str("/tmp/fonts"),
    }
}

/// The system's font library where none is configured.
pub fn default_system_library_path(platform: Platform) -> (path: String)
    ensures
        path@ == default_system_library_of(platform),
{
    match platform {
        Platform::MacOs => String::from_str("/Library/Fonts"),
        Platform::Windows => String::from_str("C:\\Windows\\Fonts"),
        Platform::Linux => String::from_str("/usr/share/fonts"),
        Platform::Other => String::from_str("/usr/share/fonts"),
    }
}

/// What is wrong with a configuration.
#[derive(Debug)]
pub enum ConfigError {
    /// The user library override names a path that does not exist.
    MissingUserLibrary(String),
    /// The system library override names a path that does not exist.
    MissingSystemLibrary(String),
    /// The maximum cache size is zero.
    ZeroCacheSize,
    /// The maximum batch size is zero.
    ZeroBatchSize,
}

/// The mathematical value of a [`ConfigError`].
pub enum ConfigErrorView {
    MissingUserLibrary(Seq<char>),
    MissingSystemLibrary(Seq<char>),
    ZeroCacheSize,
    ZeroBatchSize,
}

impl View for ConfigError {
    type V = ConfigErrorView;

    open spec fn view(&self) -> ConfigErrorView {
        match self {
            ConfigError::MissingUserLibrary(path) => ConfigErrorView::MissingUserLibrary(path@),
            ConfigError::MissingSystemLibrary(path) => ConfigErrorView::MissingSystemLibrary(path@),
            ConfigError::ZeroCacheSize => ConfigErrorView::ZeroCacheSize,
            ConfigError::ZeroBatchSize => ConfigErrorView::ZeroBatchSize,
        }
    }
}

impl ConfigError {
    /// The error in words.
    pub fn message(&self) -> (words: String)
        ensures
            words@ == match self@ {
                ConfigErrorView::MissingUserLibrary(path) =>
                    "User library override path does not exist: "@ + path,
                ConfigErrorView::MissingSystemLibrary(path) =>
                    "System library override path does not exist: "@ + path,
                ConfigErrorView::ZeroCacheSize => "Max cache size must be greater than 0"@,
                ConfigErrorView::ZeroBatchSize => "Max batch size must be greater than 0"@,
            },
    {
        match self {
            ConfigError::MissingUserLibrary(path) => {
                let mut words = String::from_str("User library override path does not exist: ");
                words.append(path.as_str());
                words
            },
            ConfigError::MissingSystemLibrary(path) => {
                let mut words = String::from_str("System library override path does not exist: ");
                words.append(path.as_str());
                words
            },
            ConfigError::ZeroCacheSize => String::from_str("Max cache size must be greater than 0"),
            ConfigError::ZeroBatchSize => String::from_str("Max batch size must be greater than 0"),
        }
    }
}

impl FontliftConfigView {
    /// The verdict on a configuration, given whether the overridden
    /// libraries exist: the first of these that is wrong is the error: a
    /// user library override that does not exist, a system library override
    /// that does not exist, a maximum cache size of zero, a maximum batch
    /// size of zero.
    pub open spec fn verdict(self, user_library_exists: bool, system_library_exists: bool) -> Result<
        (),
        ConfigErrorView,
    > {
        if self.font_paths.user_library_override is Some && !user_library_exists {
            Err(ConfigErrorView::MissingUserLibrary(self.font_paths.user_library_override->0))
        } else if self.font_paths.system_library_override is Some && !system_library_exists {
            Err(ConfigErrorView::MissingSystemLibrary(self.font_paths.system_library_override->0))
        } else if self.performance.max_cache_size_mb == 0 {
            Err(ConfigErrorView::ZeroCacheSize)
        } else if self.permissions.max_batch_size == 0 {
            Err(ConfigErrorView::ZeroBatchSize)
        } else {
            Ok(())
        }
    }
}

/// Whether `res` is the verdict `expected`, value for value.
pub open spec fn is_verdict(res: Result<(), ConfigError>, expected: Result<(), ConfigErrorView>) -> bool {
    match res {
        Ok(()) => expected == Ok::<(), ConfigErrorView>(()),
        Err(e) => expected == Err::<(), ConfigErrorView>(e@),
    }
}

impl FontliftConfig {
    /// The configuration that the environment gives.
    pub fn from_env(env: &Environment) -> (config: Self)
        ensures
            config@ == (FontliftConfigView {
                font_paths: FontPaths::of_env(*env),
                permissions: Permissions::of_env(*env),
                logging: Logging::of_env(*env),
                performance: Performance::of_env(*env),
            }),
    {
        FontliftConfig {
            font_paths: FontPaths::from_env(env),
            permissions: Permissions::from_env(env),
            logging: Logging::from_env(env),
            performance: Performance::from_env(env),
        }
    }

    /// The configuration without any settings from outside.
    pub fn minimal(system_temp_dir: &str) -> (config: Self)
        ensures
            config@.font_paths == (FontPathsView {
                user_library_override: None,
                system_library_override: None,
                additional_directories: Seq::empty(),
                temp_directory: default_temp_directory_of(system_temp_dir@),
            }),
            config.permissions == (Permissions {
                allow_system_operations: false,
                require_system_confirmation: true,
                dry_run_mode: false,
                max_batch_size: 1000,
            }),
            config@.logging == (LoggingView {
                level: "info"@,
                verbose: false,
                json_output: false,
                log_file: None,
            }),
            config.performance == (Performance {
                enable_cache: true,
                max_cache_size_mb: 100,
                cache_timeout_secs: 3600,
                parallel_processing: true,
                max_threads: None,
            }),
    {
        FontliftConfig {
            font_paths: FontPaths::minimal(system_temp_dir),
            permissions: Permissions::minimal(),
            logging: Logging::minimal(),
            performance: Performance::minimal(),
        }
    }

    /// The user's font library: the override, or the platform's default.
    pub fn user_library_path(&self, platform: Platform, home: Option<&str>, font_dir: Option<&str>) -> (path:
        String)
        ensures
            path@ == match self@.font_paths.user_library_override {
                Some(dir) => dir,
                None => default_user_library_of(
                    platform,
                    paths::opt_str_text(home),
                    paths::opt_str_text(font_dir),
                ),
            },
    {
        match &self.font_paths.user_library_override {
            Some(dir) => dir.clone(),
            None => default_user_library_path(platform, home, font_dir),
        }
    }

    /// The system's font library: the override, or the platform's default.
    pub fn system_library_path(&self, platform: Platform) -> (path: String)
        ensures
            path@ == match self@.font_paths.system_library_override {
                Some(dir) => dir,
                None => default_system_library_of(platform),
            },
    {
        match &self.font_paths.system_library_override {
            Some(dir) => dir.clone(),
            None => default_system_library_path(platform),
        }
    }

    /// System operations can be performed where they are allowed and the
    /// process has administrator rights.
    pub fn can_perform_system_operations(&self, is_admin: bool) -> (can: bool)
        ensures
            can == (self.permissions.allow_system_operations && is_admin),
    {
        self.permissions.allow_system_operations && is_admin
    }

    /// The verdict on the configuration, given whether the overridden
    /// libraries exist.
    pub fn validate_with(&self, user_library_exists: bool, system_library_exists: bool) -> (res:
        Result<(), ConfigError>)
        ensures
            is_verdict(res, self@.verdict(user_library_exists, system_library_exists)),
    {
        if let Some(path) = &self.font_paths.user_library_override {
            if !user_library_exists {
                return Err(ConfigError::MissingUserLibrary(path.clone()));
            }
        }
        if let Some(path) = &self.font_paths.system_library_override {
            if !system_library_exists {
                return Err(ConfigError::MissingSystemLibrary(path.clone()));
            }
        }
        if self.performance.max_cache_size_mb == 0 {
            return Err(ConfigError::ZeroCacheSize);
        }
        if self.permissions.max_batch_size == 0 {
            return Err(ConfigError::ZeroBatchSize);
        }
        Ok(())
    }

    /// Checks the configuration against the disk as it stands: the
    /// overridden libraries must exist, and the sizes must not be zero. The
    /// result is the verdict for what the disk showed.
    pub fn validate(&self) -> (res: Result<(), ConfigError>)
        ensures
            is_verdict(res, self@.verdict(true, true)) || is_verdict(res, self@.verdict(true, false))
                || is_verdict(res, self@.verdict(false, true)) || is_verdict(
                res,
                self@.verdict(false, false),
            ),
            self@.font_paths.user_library_override is None
                && self@.font_paths.system_library_override is None ==> is_verdict(
                res,
                self@.verdict(false, false),
            ),
    {
        let user_library_exists = match &self.font_paths.user_library_override {
            Some(path) => paths::is_present(path.as_str()),
            None => false,
        };
        let system_library_exists = match &self.font_paths.system_library_override {
            Some(path) => paths::is_present(path.as_str()),
            None => false,
        };
        self.validate_with(user_library_exists, system_library_exists)
    }
}

} // verus!
