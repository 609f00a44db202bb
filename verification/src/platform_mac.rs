//! What the macOS font manager decides: where fonts go, which scope a path
//! belongs to, and what is allowed. Core Text and the disk are the caller's
//! part.

use vstd::prelude::*;
use vstd::string::StringExecFns;
use crate::paths;
use crate::protection;
use crate::text;
use crate::{opt_text, FontError, FontErrorView, FontScope, FontliftFontSource};

verus! {

/// The macOS font manager: it works against Core Text, or, where a fake
/// registry root is given, against plain directories below that root.
#[derive(Debug)]
pub struct MacFontManager {
    /// The root of the fake registry, if there is one.
    pub fake_root: Option<String>,
}

/// The scope value that Core Text gets for a font scope: the persistent one
/// for both.
pub fn ct_scope(scope: FontScope) -> (value: u32)
    ensures
        value == 2,
{
    match scope {
        FontScope::User => 2,
        FontScope::System => 2,
    }
}

/// The folder of a scope's fonts below a fake registry root.
pub open spec fn fake_fonts_folder(scope: FontScope) -> Seq<char> {
    match scope {
        FontScope::User => "Library/Fonts"@,
        FontScope::System => "System/Library/Fonts"@,
    }
}

/// The folder of a scope's fonts below a fake registry root.
pub fn fake_folder(scope: FontScope) -> (folder: &'static str)
    ensures
        folder@ == fake_fonts_folder(scope),
{
    match scope {
        FontScope::User => "Library/Fonts",
        FontScope::System => "System/Library/Fonts",
    }
}

/// Whether `res` is the outcome `expected`, value for value.
pub open spec fn is_path_outcome(
    res: Result<String, FontError>,
    expected: Result<Seq<char>, FontErrorView>,
) -> bool {
    match res {
        Ok(path) => expected == Ok::<Seq<char>, FontErrorView>(path@),
        Err(e) => expected == Err::<Seq<char>, FontErrorView>(e@),
    }
}

/// Where the font at `source` goes below the fake registry root: the
/// scope's folder, joined with the file name of the source.
pub open spec fn fake_target_of(root: Seq<char>, scope: FontScope, source: Seq<char>) -> Result<
    Seq<char>,
    FontErrorView,
> {
    match paths::file_name_of(source) {
        Some(name) => Ok(paths::joined(paths::joined(root, fake_fonts_folder(scope)), name)),
        None => Err(FontErrorView::InvalidFormat("Font path must include a file name"@)),
    }
}

/// Where the font at `source` goes below the fake registry root.
pub fn fake_registry_target(root: &str, scope: FontScope, source: &str) -> (res: Result<
    String,
    FontError,
>)
    ensures
        is_path_outcome(res, fake_target_of(root@, scope, source@)),
{
    match paths::file_name(source) {
        Some(name) => {
            let base = paths::join(root, fake_folder(scope));
            Ok(paths::join(base.as_str(), name))
        },
        None => Err(
            FontError::InvalidFormat(String::from_str("Font path must include a file name")),
        ),
    }
}

/// The scope that a path belongs to: that of the fake registry folder it
/// lies in, where there is a fake root; else the user's where it lies in the
/// user's font folder; else the system's where it lies in a system font
/// folder; else the user's.
pub open spec fn scope_of_path(
    path: Seq<char>,
    fake_root: Option<Seq<char>>,
    home: Option<Seq<char>>,
) -> FontScope {
    if fake_root is Some && paths::path_starts_with(
        path,
        paths::joined(fake_root->0, "Library/Fonts"@),
    ) {
        FontScope::User
    } else if fake_root is Some && paths::path_starts_with(
        path,
        paths::joined(fake_root->0, "System/Library/Fonts"@),
    ) {
        FontScope::System
    } else if home is Some && paths::path_starts_with(
        path,
        paths::joined(home->0, "Library/Fonts"@),
    ) {
        FontScope::User
    } else if paths::path_starts_with(path, "/System/Library/Fonts"@) || paths::path_starts_with(
        path,
        "/Library/Fonts"@,
    ) {
        FontScope::System
    } else {
        FontScope::User
    }
}

/// The scope that a path belongs to, given the fake registry root and the
/// home directory, each where there is one.
pub fn scope_from_path(path: &str, fake_root: Option<&str>, home: Option<&str>) -> (scope: FontScope)
    ensures
        scope == scope_of_path(path@, paths::opt_str_text(fake_root), paths::opt_str_text(home)),
{
    if let Some(root) = fake_root {
        let user_fonts = paths::join(root, "Library/Fonts");
        if paths::starts_with(path, user_fonts.as_str()) {
            return FontScope::User;
        }
        let system_fonts = paths::join(root, "System/Library/Fonts");
        if paths::starts_with(path, system_fonts.as_str()) {
            return FontScope::System;
        }
    }
    if let Some(dir) = home {
        let user_fonts = paths::join(dir, "Library/Fonts");
        if paths::starts_with(path, user_fonts.as_str()) {
            return FontScope::User;
        }
    }
    if paths::starts_with(path, "/System/Library/Fonts") || paths::starts_with(
        path,
        "/Library/Fonts",
    ) {
        FontScope::System
    } else {
        FontScope::User
    }
}

/// The path made comparable: as [`protection::normalize`] makes it.
pub fn normalize_path(path: &str) -> (normal: String)
    ensures
        normal@ == protection::normalized(path@),
{
    protection::normalize(path)
}

/// The name of a Core Text font format: 1 to 5 have one.
pub open spec fn font_format_name(format: u32) -> Option<Seq<char>> {
    if format == 1 {
        Some("OpenTypePostScript"@)
    } else if format == 2 {
        Some("OpenTypeTrueType"@)
    } else if format == 3 {
        Some("TrueType"@)
    } else if format == 4 {
        Some("PostScript"@)
    } else if format == 5 {
        Some("Bitmap"@)
    } else {
        None
    }
}

/// The name of a Core Text font format.
pub fn font_format_to_string(format: u32) -> (name: Option<String>)
    ensures
        opt_text(name) == font_format_name(format),
{
    if format == 1 {
        Some(String::from_str("OpenTypePostScript"))
    } else if format == 2 {
        Some(String::from_str("OpenTypeTrueType"))
    } else if format == 3 {
        Some(String::from_str("TrueType"))
    } else if format == 4 {
        Some(String::from_str("PostScript"))
    } else if format == 5 {
        Some(String::from_str("Bitmap"))
    } else {
        None
    }
}

/// Whether a Core Text error says that the font is registered already: it
/// comes from the font manager's domain with the code for "already
/// registered" (105) or "duplicated name" (305).
pub fn is_conflict_error(domain: &str, code: isize) -> (conflict: bool)
    ensures
        conflict == (text::has_part(domain@, "CTFontManagerErrorDomain"@) && (code == 105 || code
            == 305)),
{
    if !text::contains_text(domain, "CTFontManagerErrorDomain") {
        return false;
    }
    code == 105 || code == 305
}

/// Whether a file name is that of an Adobe font list: `AdobeFnt`, anything,
/// `.lst`.
pub fn is_adobe_font_list(name: &str) -> (is_list: bool)
    ensures
        is_list == (text::begins_with(name@, "AdobeFnt"@) && text::ends_in(name@, ".lst"@)),
{
    text::begins(name, "AdobeFnt") && text::ends_with(name, ".lst")
}

/// Whether `res` is the verdict `expected`, value for value.
pub open spec fn is_unit_outcome(res: Result<(), FontError>, expected: Result<(), FontErrorView>) -> bool {
    match res {
        Ok(()) => expected == Ok::<(), FontErrorView>(()),
        Err(e) => expected == Err::<(), FontErrorView>(e@),
    }
}

impl MacFontManager {
    /// A manager for the given fake registry root, or for Core Text where
    /// there is none.
    pub fn new(fake_root: Option<String>) -> (manager: Self)
        ensures
            manager.fake_root == fake_root,
    {
        MacFontManager { fake_root }
    }

    /// Whether the manager works against a fake registry root.
    pub fn is_fake_registry_enabled(&self) -> (enabled: bool)
        ensures
            enabled == self.fake_root is Some,
    {
        self.fake_root.is_some()
    }

    /// The directory of a scope's fonts: below the fake root where there is
    /// one; else `Library/Fonts` in the home directory for the user, which
    /// must be known, and `/Library/Fonts` for the system.
    pub open spec fn target_directory_of(
        self,
        scope: FontScope,
        home: Option<Seq<char>>,
    ) -> Result<Seq<char>, FontErrorView> {
        match self.fake_root {
            Some(root) => Ok(paths::joined(root@, fake_fonts_folder(scope))),
            None => match scope {
                FontScope::User => match home {
                    Some(dir) => Ok(paths::joined(dir, "Library/Fonts"@)),
                    None => Err(
                        FontErrorView::PermissionDenied("Cannot determine home directory"@),
                    ),
                },
                FontScope::System => Ok("/Library/Fonts"@),
            },
        }
    }

    /// The directory of a scope's fonts.
    pub fn target_directory(&self, scope: FontScope, home: Option<&str>) -> (res: Result<
        String,
        FontError,
    >)
        ensures
            is_path_outcome(res, self.target_directory_of(scope, paths::opt_str_text(home))),
    {
        if let Some(root) = &self.fake_root {
            return Ok(paths::join(root.as_str(), fake_folder(scope)));
        }
        match scope {
            FontScope::User => match home {
                Some(dir) => Ok(paths::join(dir, "Library/Fonts")),
                None => Err(
                    FontError::PermissionDenied(String::from_str("Cannot determine home directory")),
                ),
            },
            FontScope::System => Ok(String::from_str("/Library/Fonts")),
        }
    }

    /// Where an installed font lies: the directory of the scope, joined with
    /// the file name of the source, which it must have.
    pub open spec fn installed_target_of(
        self,
        source: Seq<char>,
        scope: FontScope,
        home: Option<Seq<char>>,
    ) -> Result<Seq<char>, FontErrorView> {
        match paths::file_name_of(source) {
            None => Err(FontErrorView::InvalidFormat("Font path must include a file name"@)),
            Some(name) => match self.target_directory_of(scope, home) {
                Ok(dir) => Ok(paths::joined(dir, name)),
                Err(e) => Err(e),
            },
        }
    }

    /// Where the font of `source` lies once it is installed in `scope`.
    pub fn installed_target_path(
        &self,
        source: &FontliftFontSource,
        scope: FontScope,
        home: Option<&str>,
    ) -> (res: Result<String, FontError>)
        ensures
            is_path_outcome(
                res,
                self.installed_target_of(source@.path, scope, paths::opt_str_text(home)),
            ),
    {
        match paths::file_name(source.path.as_str()) {
            None => Err(
                FontError::InvalidFormat(String::from_str("Font path must include a file name")),
            ),
            Some(name) => match self.target_directory(scope, home) {
                Ok(dir) => Ok(paths::join(dir.as_str(), name)),
                Err(e) => Err(e),
            },
        }
    }

    /// Whether the path lies in a system font directory.
    pub fn is_system_font_path(&self, path: &str) -> (system: bool)
        ensures
            system == protection::in_system_font_directory(protection::normalized(path@)),
    {
        protection::is_protected_system_font_path(path)
    }

    /// Whether an operation on the system scope is refused: it is, unless
    /// the registry is a fake one or the process has administrator rights.
    pub open spec fn system_operation_verdict(self, scope: FontScope, is_admin: bool) -> Result<
        (),
        FontErrorView,
    > {
        if scope == FontScope::System && self.fake_root is None && !is_admin {
            Err(
                FontErrorView::PermissionDenied(
                    "System-level font operations require administrator privileges. Run with --admin or use sudo."@,
                ),
            )
        } else {
            Ok(())
        }
    }

    /// Checks that the operation on `scope` is allowed.
    pub fn validate_system_operation(&self, scope: FontScope, is_admin: bool) -> (res: Result<
        (),
        FontError,
    >)
        ensures
            is_unit_outcome(res, self.system_operation_verdict(scope, is_admin)),
    {
        if scope == FontScope::System && !self.is_fake_registry_enabled() && !is_admin {
            return Err(
                FontError::PermissionDenied(
                    String::from_str(
                        "System-level font operations require administrator privileges. Run with --admin or use sudo.",
                    ),
                ),
            );
        }
        Ok(())
    }

    /// Whether installing replaces a font that is there already: always in
    /// a fake registry, and for the user's scope.
    pub fn replaces_existing(&self, scope: FontScope) -> (replace: bool)
        ensures
            replace == (self.fake_root is Some || scope == FontScope::User),
    {
        self.is_fake_registry_enabled() || scope == FontScope::User
    }

    /// The verdict on copying a font into the directory of `scope`, given
    /// whether the process has administrator rights, whether the target
    /// exists and whether it may be replaced: refused without the rights for
    /// the system scope, refused where the target is there and stays.
    pub fn copy_verdict(
        &self,
        scope: FontScope,
        is_admin: bool,
        target: &str,
        target_exists: bool,
        replace_existing: bool,
    ) -> (res: Result<(), FontError>)
        ensures
            is_unit_outcome(
                res,
                if scope == FontScope::System && self.fake_root is None && !is_admin {
                    Err(
                        FontErrorView::PermissionDenied(
                            "System-level font installation requires administrator privileges. Run with --admin or use sudo."@,
                        ),
                    )
                } else if target_exists && !replace_existing {
                    Err(FontErrorView::AlreadyInstalled(target@))
                } else {
                    Ok(())
                },
            ),
    {
        if scope == FontScope::System && !self.is_fake_registry_enabled() && !is_admin {
            return Err(
                FontError::PermissionDenied(
                    String::from_str(
                        "System-level font installation requires administrator privileges. Run with --admin or use sudo.",
                    ),
                ),
            );
        }
        if target_exists && !replace_existing {
            return Err(FontError::AlreadyInstalled(String::from_str(target)));
        }
        Ok(())
    }
}

} // verus!
