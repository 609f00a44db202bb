//! What the Windows font manager decides: where fonts go, which paths are
//! the system's, and how registry values name files. The registry, GDI and
//! the disk are the caller's part.

use vstd::prelude::*;
use vstd::string::StringExecFns;
use crate::config::texts_view;
use crate::paths;
use crate::text;
use crate::validation_ext::ValidatorConfig;
use crate::{FontError, FontErrorView, FontScope};
use crate::platform_mac::{is_path_outcome, is_unit_outcome};

verus! {

/// The Windows font manager.
#[derive(Debug)]
pub struct WinFontManager {
    /// The limits for validation before installing, where it is wanted.
    pub validation_config: Option<ValidatorConfig>,
}

/// The values of the environment variables that the Windows font manager
/// goes by, each `None` where the variable is not set.
#[derive(Debug)]
pub struct WinEnvironment {
    /// `WINDIR`
    pub windir: Option<String>,
    /// `LOCALAPPDATA`
    pub local_appdata: Option<String>,
    /// `ProgramFiles`
    pub program_files: Option<String>,
    /// `ProgramFiles(x86)`
    pub program_files_x86: Option<String>,
}

/// The folders below a program files directory where Adobe keeps font caches.
pub open spec fn adobe_roots_of(bases: Seq<Seq<char>>) -> Seq<Seq<char>>
    decreases bases.len(),
{
    if bases.len() == 0 {
        Seq::empty()
    } else {
        adobe_roots_of(bases.drop_last()).push(
            paths::joined(bases.last(), "Common Files/Adobe/TypeSpt"@),
        ).push(paths::joined(bases.last(), "Common Files/Adobe/TypeSupport"@)).push(
            paths::joined(bases.last(), "Common Files/Adobe/PDFL"@),
        )
    }
}

/// The Adobe font cache folders below the given program files directories.
pub fn adobe_cache_roots(program_files_dirs: &Vec<String>) -> (roots: Vec<String>)
    ensures
        texts_view(roots@) == adobe_roots_of(texts_view(program_files_dirs@)),
{
    let ghost bases = texts_view(program_files_dirs@);
    let mut roots: Vec<String> = Vec::new();
    let mut i: usize = 0;
    assert(bases.take(0) =~= Seq::<Seq<char>>::empty());
    assert(texts_view(roots@) =~= adobe_roots_of(bases.take(0)));
    while i < program_files_dirs.len()
        invariant
            i <= program_files_dirs.len(),
            bases == texts_view(program_files_dirs@),
            texts_view(roots@) == adobe_roots_of(bases.take(i as int)),
        decreases program_files_dirs.len() - i,
    {
        let ghost before = texts_view(roots@);
        let base = program_files_dirs[i].as_str();
        assert(bases.take(i + 1).drop_last() =~= bases.take(i as int));
        assert(bases.take(i + 1).last() == base@);
        roots.push(paths::join(base, "Common Files/Adobe/TypeSpt"));
        roots.push(paths::join(base, "Common Files/Adobe/TypeSupport"));
        roots.push(paths::join(base, "Common Files/Adobe/PDFL"));
        assert(texts_view(roots@) =~= before.push(
            paths::joined(base@, "Common Files/Adobe/TypeSpt"@),
        ).push(paths::joined(base@, "Common Files/Adobe/TypeSupport"@)).push(
            paths::joined(base@, "Common Files/Adobe/PDFL"@),
        ));
        i += 1;
    }
    assert(bases.take(i as int) =~= bases);
    roots
}

/// The Windows directory: `WINDIR`, or `C:\\Windows` where it is not set.
pub open spec fn system_root_of(windir: Option<Seq<char>>) -> Seq<char> {
    match windir {
        Some(dir) => dir,
        None => "C:\\\\Windows"@,
    }
}

/// Whether a path in lower case lies in the fonts or system folders of the
/// Windows directory, whose path is given in lower case.
pub open spec fn in_system_folders(lower_path: Seq<char>, lower_root: Seq<char>) -> bool {
    text::begins_with(lower_path, lower_root + "\\\\fonts"@) || text::begins_with(
        lower_path,
        lower_root + "\\\\system32"@,
    ) || text::begins_with(lower_path, lower_root + "\\\\syswow64"@)
}

/// Whether `candidate`, in lower case, begins with `root` in lower case.
pub fn path_starts_with_case_insensitive(root: &str, candidate: &str) -> (begins: bool)
    ensures
        begins == text::begins_with(text::lowercase_of(candidate@), text::lowercase_of(root@)),
{
    let root_lower = text::lowercase(root);
    let candidate_lower = text::lowercase(candidate);
    text::begins(candidate_lower.as_str(), root_lower.as_str())
}

/// Whether two paths are the same file by name: both have a file name, and
/// the names are equal but for the case of ASCII letters.
pub open spec fn same_file_name(a: Seq<char>, b: Seq<char>) -> bool {
    match (paths::file_name_of(a), paths::file_name_of(b)) {
        (Some(x), Some(y)) => text::same_ignoring_ascii_case(x, y),
        _ => false,
    }
}

impl WinEnvironment {
    /// The Windows directory.
    pub fn system_root(&self) -> (root: String)
        ensures
            root@ == system_root_of(crate::opt_text(self.windir)),
    {
        match &self.windir {
            Some(dir) => dir.clone(),
            None => String::from_str("C:\\\\Windows"),
        }
    }

    /// The fonts directory of the system: `Fonts` in the Windows directory.
    pub fn get_fonts_directory(&self) -> (dir: String)
        ensures
            dir@ == paths::joined(system_root_of(crate::opt_text(self.windir)), "Fonts"@),
    {
        let root = self.system_root();
        paths::join(root.as_str(), "Fonts")
    }

    /// The fonts directory of the user: `Microsoft/Windows/Fonts` below
    /// `LOCALAPPDATA`, which must be set.
    pub open spec fn user_fonts_of(self) -> Result<Seq<char>, FontErrorView> {
        match self.local_appdata {
            Some(dir) => Ok(
                paths::joined(
                    paths::joined(paths::joined(dir@, "Microsoft"@), "Windows"@),
                    "Fonts"@,
                ),
            ),
            None => Err(
                FontErrorView::PermissionDenied(
                    "Cannot determine LOCALAPPDATA directory for per-user fonts"@,
                ),
            ),
        }
    }

    /// The fonts directory of the user.
    pub fn user_fonts_directory(&self) -> (res: Result<String, FontError>)
        ensures
            is_path_outcome(res, self.user_fonts_of()),
    {
        match &self.local_appdata {
            Some(dir) => {
                let microsoft = paths::join(dir.as_str(), "Microsoft");
                let windows = paths::join(microsoft.as_str(), "Windows");
                Ok(paths::join(windows.as_str(), "Fonts"))
            },
            None => Err(
                FontError::PermissionDenied(
                    String::from_str("Cannot determine LOCALAPPDATA directory for per-user fonts"),
                ),
            ),
        }
    }

    /// The fonts directory of a scope.
    pub open spec fn fonts_directory_of(self, scope: FontScope) -> Result<Seq<char>, FontErrorView> {
        match scope {
            FontScope::User => self.user_fonts_of(),
            FontScope::System => Ok(
                paths::joined(system_root_of(crate::opt_text(self.windir)), "Fonts"@),
            ),
        }
    }

    /// The fonts directory of a scope.
    pub fn fonts_directory_for_scope(&self, scope: FontScope) -> (res: Result<String, FontError>)
        ensures
            is_path_outcome(res, self.fonts_directory_of(scope)),
    {
        match scope {
            FontScope::User => self.user_fonts_directory(),
            FontScope::System => Ok(self.get_fonts_directory()),
        }
    }

    /// Whether the path lies in the fonts or system folders of Windows.
    pub fn is_system_font_path(&self, path: &str) -> (system: bool)
        ensures
            system == in_system_folders(
                text::lowercase_of(path@),
                text::lowercase_of(system_root_of(crate::opt_text(self.windir))),
            ),
    {
        let lower = text::lowercase(path);
        let chars = text::chars_of(lower.as_str());
        let root = self.system_root();
        let root_lower = text::lowercase(root.as_str());
        let mut fonts = root_lower.clone();
        fonts.append("\\\\fonts");
        let mut system32 = root_lower.clone();
        system32.append("\\\\system32");
        let mut syswow64 = root_lower;
        syswow64.append("\\\\syswow64");
        text::starts_with(&chars, fonts.as_str()) || text::starts_with(&chars, system32.as_str())
            || text::starts_with(&chars, syswow64.as_str())
    }

    /// The scope that a path belongs to: the system's where it is a system
    /// font path, else the user's.
    pub fn scope_for_path(&self, path: &str) -> (scope: FontScope)
        ensures
            scope == if in_system_folders(
                text::lowercase_of(path@),
                text::lowercase_of(system_root_of(crate::opt_text(self.windir))),
            ) {
                FontScope::System
            } else {
                FontScope::User
            },
    {
        if self.is_system_font_path(path) {
            FontScope::System
        } else {
            FontScope::User
        }
    }

    /// The file that a registry value names: the value itself where it is an
    /// absolute path, else the value in the fonts directory of the scope.
    pub open spec fn registry_path_of(self, raw: Seq<char>, scope: FontScope) -> Result<
        Seq<char>,
        FontErrorView,
    > {
        if paths::path_is_absolute(raw) {
            Ok(raw)
        } else {
            match self.fonts_directory_of(scope) {
                Ok(dir) => Ok(paths::joined(dir, raw)),
                Err(e) => Err(e),
            }
        }
    }

    /// The file that a registry value names.
    pub fn normalize_registry_path(&self, raw: &str, scope: FontScope) -> (res: Result<
        String,
        FontError,
    >)
        ensures
            is_path_outcome(res, self.registry_path_of(raw@, scope)),
    {
        if paths::is_absolute(raw) {
            return Ok(String::from_str(raw));
        }
        match self.fonts_directory_for_scope(scope) {
            Ok(dir) => Ok(paths::join(dir.as_str(), raw)),
            Err(e) => Err(e),
        }
    }

    /// Whether a registry value names the file at `path`: the file that the
    /// value names (or the value itself where that cannot be told) is the
    /// path but for case, or has its file name but for case.
    pub fn registry_value_matches_path(&self, registry_value: &str, path: &str, scope: FontScope) -> (matches:
        bool)
        ensures
            matches == {
                let named = match self.registry_path_of(registry_value@, scope) {
                    Ok(file) => file,
                    Err(_) => registry_value@,
                };
                text::same_ignoring_ascii_case(named, path@) || same_file_name(named, path@)
            },
    {
        let named = match self.normalize_registry_path(registry_value, scope) {
            Ok(file) => file,
            Err(_) => String::from_str(registry_value),
        };
        if text::eq_ignore_ascii_case(named.as_str(), path) {
            return true;
        }
        match (paths::file_name(named.as_str()), paths::file_name(path)) {
            (Some(existing), Some(target)) => text::eq_ignore_ascii_case(existing, target),
            _ => false,
        }
    }

    /// Where the font at `source_path` goes in `scope`: the fonts directory
    /// of the scope, joined with the file name, which the path must have.
    pub fn target_path_for_scope(&self, source_path: &str, scope: FontScope) -> (res: Result<
        String,
        FontError,
    >)
        ensures
            is_path_outcome(
                res,
                match paths::file_name_of(source_path@) {
                    None => Err(FontErrorView::InvalidFormat("Font path missing file name"@)),
                    Some(name) => match self.fonts_directory_of(scope) {
                        Ok(dir) => Ok(paths::joined(dir, name)),
                        Err(e) => Err(e),
                    },
                },
            ),
    {
        match paths::file_name(source_path) {
            None => Err(FontError::InvalidFormat(String::from_str("Font path missing file name"))),
            Some(name) => match self.fonts_directory_for_scope(scope) {
                Ok(dir) => Ok(paths::join(dir.as_str(), name)),
                Err(e) => Err(e),
            },
        }
    }

    /// The program files directories: `ProgramFiles`, and `ProgramFiles(x86)`
    /// unless it is the same directory but for case.
    pub fn program_files_roots(&self) -> (roots: Vec<String>)
        ensures
            texts_view(roots@) == match (self.program_files, self.program_files_x86) {
                (Some(pf), Some(pf86)) => if text::lowercase_of(pf@) == text::lowercase_of(pf86@) {
                    seq![pf@]
                } else {
                    seq![pf@, pf86@]
                },
                (Some(pf), None) => seq![pf@],
                (None, Some(pf86)) => seq![pf86@],
                (None, None) => Seq::<Seq<char>>::empty(),
            },
    {
        let mut roots: Vec<String> = Vec::new();
        let mut first_lower: Option<String> = None;
        if let Some(pf) = &self.program_files {
            first_lower = Some(text::lowercase(pf.as_str()));
            roots.push(pf.clone());
        }
        if let Some(pf86) = &self.program_files_x86 {
            let lower = text::lowercase(pf86.as_str());
            let already_present = match &first_lower {
                Some(first) => text::same_text(first.as_str(), lower.as_str()),
                None => false,
            };
            if !already_present {
                roots.push(pf86.clone());
            }
        }
        assert(texts_view(roots@) =~= match (self.program_files, self.program_files_x86) {
            (Some(pf), Some(pf86)) => if text::lowercase_of(pf@) == text::lowercase_of(pf86@) {
                seq![pf@]
            } else {
                seq![pf@, pf86@]
            },
            (Some(pf), None) => seq![pf@],
            (None, Some(pf86)) => seq![pf86@],
            (None, None) => Seq::<Seq<char>>::empty(),
        });
        roots
    }
}

impl WinFontManager {
    /// A manager that installs without validating first.
    pub fn new() -> (manager: Self)
        ensures
            manager.validation_config is None,
    {
        WinFontManager { validation_config: None }
    }

    /// A manager that validates fonts against `config` before installing.
    pub fn with_validation(config: ValidatorConfig) -> (manager: Self)
        ensures
            manager.validation_config == Some(config),
    {
        WinFontManager { validation_config: Some(config) }
    }

    /// Turns validation on, with the given limits, or off.
    pub fn set_validation_config(&mut self, config: Option<ValidatorConfig>)
        ensures
            final(self).validation_config == config,
    {
        self.validation_config = config;
    }

    /// Checks that the operation on `scope` is allowed: the system scope
    /// needs administrator rights.
    pub fn validate_system_operation(&self, scope: FontScope, is_admin: bool) -> (res: Result<
        (),
        FontError,
    >)
        ensures
            is_unit_outcome(
                res,
                if scope == FontScope::System && !is_admin {
                    Err(
                        FontErrorView::PermissionDenied(
                            "System-level font operations require administrator privileges. Run with --admin or as Administrator."@,
                        ),
                    )
                } else {
                    Ok(())
                },
            ),
    {
        if scope == FontScope::System && !is_admin {
            return Err(
                FontError::PermissionDenied(
                    String::from_str(
                        "System-level font operations require administrator privileges. Run with --admin or as Administrator.",
                    ),
                ),
            );
        }
        Ok(())
    }

    /// The error of every font operation where Windows is not the platform.
    pub fn unsupported() -> (err: FontError)
        ensures
            err@ == FontErrorView::UnsupportedOperation(
                "Windows font operations are only available on Windows"@,
            ),
    {
        FontError::UnsupportedOperation(
            String::from_str("Windows font operations are only available on Windows"),
        )
    }
}

impl Default for WinFontManager {
    fn default() -> (manager: Self)
        ensures
            manager.validation_config is None,
    {
        WinFontManager::new()
    }
}

} // verus!
