//! Core of a cross-platform font manager: the data that describes fonts and
//! where they come from, the rules that guard system fonts, and the operation
//! journal with its crash-recovery engine.
//!
//! Paths are held as text (`String`), identifiers as integers and timestamps
//! as whole seconds, so that every rule in this crate is stated over plain
//! values.

use vstd::prelude::*;
use vstd::string::StringExecFns;

pub mod bindings;
pub mod cache;
pub mod cli;
pub mod config;
pub mod conflicts;
pub mod doctor;
pub mod journal;
pub mod paths;
pub mod platform;
pub mod platform_mac;
pub mod platform_win;
pub mod protection;
pub mod text;
pub mod validation;
pub mod validation_ext;
pub mod validator;

verus! {

/// What an optional string holds, as an optional sequence of characters.
pub open spec fn opt_text(o: Option<String>) -> Option<Seq<char>> {
    match o {
        Some(s) => Some(s@),
        None => None,
    }
}

/// A copy of an optional string.
pub fn clone_opt_text(o: &Option<String>) -> (res: Option<String>)
    ensures
        opt_text(res) == opt_text(*o),
{
    match o {
        Some(s) => Some(s.clone()),
        None => None,
    }
}

/// Errors of font management operations.
///
/// Paths and the causes of I/O failures are carried as text.
#[derive(Debug)]
pub enum FontError {
    /// No font file at the given path.
    FontNotFound(String),
    /// The file is not a font, or a document could not be read as what it should be.
    InvalidFormat(String),
    /// The operating system refused to register the font.
    RegistrationFailed(String),
    /// The path belongs to a protected system font.
    SystemFontProtection(String),
    /// Reading, writing or renaming failed.
    IoError(String),
    /// The caller lacks the rights for the operation.
    PermissionDenied(String),
    /// A font is already installed at the given path.
    AlreadyInstalled(String),
    /// The operation is not available on this platform or in this build.
    UnsupportedOperation(String),
}

/// Result type of font operations.
pub type FontResult<T> = Result<T, FontError>;

/// The mathematical value of a [`FontError`].
pub enum FontErrorView {
    FontNotFound(Seq<char>),
    InvalidFormat(Seq<char>),
    RegistrationFailed(Seq<char>),
    SystemFontProtection(Seq<char>),
    IoError(Seq<char>),
    PermissionDenied(Seq<char>),
    AlreadyInstalled(Seq<char>),
    UnsupportedOperation(Seq<char>),
}

impl FontErrorView {
    /// The text that introduces the error's detail.
    pub open spec fn headline(self) -> Seq<char> {
        match self {
            FontErrorView::FontNotFound(_) => "Font file not found: "@,
            FontErrorView::InvalidFormat(_) => "Invalid font format: "@,
            FontErrorView::RegistrationFailed(_) => "Font registration failed: "@,
            FontErrorView::SystemFontProtection(_) =>
                "System font protection: cannot modify system font "@,
            FontErrorView::IoError(_) => "IO error: "@,
            FontErrorView::PermissionDenied(_) => "Permission denied: "@,
            FontErrorView::AlreadyInstalled(_) => "Font already installed: "@,
            FontErrorView::UnsupportedOperation(_) => "Unsupported operation: "@,
        }
    }

    /// The path or message that the error carries.
    pub open spec fn detail(self) -> Seq<char> {
        match self {
            FontErrorView::FontNotFound(d) => d,
            FontErrorView::InvalidFormat(d) => d,
            FontErrorView::RegistrationFailed(d) => d,
            FontErrorView::SystemFontProtection(d) => d,
            FontErrorView::IoError(d) => d,
            FontErrorView::PermissionDenied(d) => d,
            FontErrorView::AlreadyInstalled(d) => d,
            FontErrorView::UnsupportedOperation(d) => d,
        }
    }

    /// The advice that closes the message.
    pub open spec fn suggestion(self) -> Seq<char> {
        match self {
            FontErrorView::FontNotFound(_) =>
                "\n→ Suggestion: Check the file path and ensure the font file exists"@,
            FontErrorView::InvalidFormat(_) =>
                "\n→ Suggestion: Ensure the file is a valid font (.ttf, .otf, .woff, etc.)"@,
            FontErrorView::RegistrationFailed(_) =>
                "\n→ Suggestion: Try restarting your system or using administrator/sudo privileges"@,
            FontErrorView::SystemFontProtection(_) =>
                "\n→ Suggestion: System fonts are protected for stability. Use user-level installation instead."@,
            FontErrorView::IoError(_) =>
                "\n→ Suggestion: Check file permissions and disk space"@,
            FontErrorView::PermissionDenied(_) =>
                "\n→ Suggestion: Run with administrator privileges on Windows or use sudo on macOS"@,
            FontErrorView::AlreadyInstalled(_) =>
                "\n→ Suggestion: Use 'fontlift uninstall' first if you want to reinstall the font"@,
            FontErrorView::UnsupportedOperation(_) =>
                "\n→ Suggestion: This feature may not be available on your platform or in this version"@,
        }
    }

    /// The whole message: headline, detail, suggestion.
    pub open spec fn message(self) -> Seq<char> {
        self.headline() + self.detail() + self.suggestion()
    }
}

impl View for FontError {
    type V = FontErrorView;

    open spec fn view(&self) -> FontErrorView {
        match self {
            FontError::FontNotFound(d) => FontErrorView::FontNotFound(d@),
            FontError::InvalidFormat(d) => FontErrorView::InvalidFormat(d@),
            FontError::RegistrationFailed(d) => FontErrorView::RegistrationFailed(d@),
            FontError::SystemFontProtection(d) => FontErrorView::SystemFontProtection(d@),
            FontError::IoError(d) => FontErrorView::IoError(d@),
            FontError::PermissionDenied(d) => FontErrorView::PermissionDenied(d@),
            FontError::AlreadyInstalled(d) => FontErrorView::AlreadyInstalled(d@),
            FontError::UnsupportedOperation(d) => FontErrorView::UnsupportedOperation(d@),
        }
    }
}

impl FontError {
    /// The path or message that the error carries.
    pub fn detail(&self) -> (d: &String)
        ensures
            d@ == self@.detail(),
    {
        match self {
            FontError::FontNotFound(d) => d,
            FontError::InvalidFormat(d) => d,
            FontError::RegistrationFailed(d) => d,
            FontError::SystemFontProtection(d) => d,
            FontError::IoError(d) => d,
            FontError::PermissionDenied(d) => d,
            FontError::AlreadyInstalled(d) => d,
            FontError::UnsupportedOperation(d) => d,
        }
    }

    /// The message shown to the user: what went wrong, and a suggestion.
    pub fn message(&self) -> (text: String)
        ensures
            text@ == self@.message(),
    {
        let (headline, suggestion) = match self {
            FontError::FontNotFound(_) => (
                "Font file not found: ",
                "\n→ Suggestion: Check the file path and ensure the font file exists",
            ),
            FontError::InvalidFormat(_) => (
                "Invalid font format: ",
                "\n→ Suggestion: Ensure the file is a valid font (.ttf, .otf, .woff, etc.)",
            ),
            FontError::RegistrationFailed(_) => (
                "Font registration failed: ",
                "\n→ Suggestion: Try restarting your system or using administrator/sudo privileges",
            ),
            FontError::SystemFontProtection(_) => (
                "System font protection: cannot modify system font ",
                "\n→ Suggestion: System fonts are protected for stability. Use user-level installation instead.",
            ),
            FontError::IoError(_) => (
                "IO error: ",
                "\n→ Suggestion: Check file permissions and disk space",
            ),
            FontError::PermissionDenied(_) => (
                "Permission denied: ",
                "\n→ Suggestion: Run with administrator privileges on Windows or use sudo on macOS",
            ),
            FontError::AlreadyInstalled(_) => (
                "Font already installed: ",
                "\n→ Suggestion: Use 'fontlift uninstall' first if you want to reinstall the font",
            ),
            FontError::UnsupportedOperation(_) => (
                "Unsupported operation: ",
                "\n→ Suggestion: This feature may not be available on your platform or in this version",
            ),
        };
        let mut text = String::from_str(headline);
        text.append(self.detail().as_str());
        text.append(suggestion);
        text
    }
}

/// Breadth of a font installation: the current user only, or every user.
#[derive(Debug, Clone, Copy, PartialEq, Eq, Structural)]
pub enum FontScope {
    /// Affects only the current user.
    User,
    /// Affects all users; needs administrator rights.
    System,
}

impl FontScope {
    /// The words that `description` returns for each scope.
    pub open spec fn description_text(self) -> Seq<char> {
        match self {
            FontScope::User => "user-level"@,
            FontScope::System => "system-level"@,
        }
    }

    /// The scope's own name as text.
    pub open spec fn name_text(self) -> Seq<char> {
        match self {
            FontScope::User => "User"@,
            FontScope::System => "System"@,
        }
    }

    /// A human-readable description of the scope.
    pub fn description(self) -> (text: &'static str)
        ensures
            text@ == self.description_text(),
    {
        match self {
            FontScope::User => "user-level",
            FontScope::System => "system-level",
        }
    }

    /// The scope's own name, `User` or `System`.
    pub fn name(self) -> (text: &'static str)
        ensures
            text@ == self.name_text(),
    {
        match self {
            FontScope::User => "User",
            FontScope::System => "System",
        }
    }
}

/// Where a font comes from: a file, and what is known of it beforehand.
#[derive(Debug)]
pub struct FontliftFontSource {
    /// Path to the font file.
    pub path: String,
    /// Font format (TrueType, OpenType, ...).
    pub format: Option<String>,
    /// Face index inside a collection.
    pub face_index: Option<u32>,
    /// Whether the file is a collection.
    pub is_collection: Option<bool>,
    /// Installation scope hint.
    pub scope: Option<FontScope>,
}

/// The mathematical value of a [`FontliftFontSource`].
pub struct FontSourceView {
    pub path: Seq<char>,
    pub format: Option<Seq<char>>,
    pub face_index: Option<u32>,
    pub is_collection: Option<bool>,
    pub scope: Option<FontScope>,
}

impl View for FontliftFontSource {
    type V = FontSourceView;

    open spec fn view(&self) -> FontSourceView {
        FontSourceView {
            path: self.path@,
            format: opt_text(self.format),
            face_index: self.face_index,
            is_collection: self.is_collection,
            scope: self.scope,
        }
    }
}

impl Clone for FontliftFontSource {
    fn clone(&self) -> (res: Self)
        ensures
            res@ == self@,
    {
        FontliftFontSource {
            path: self.path.clone(),
            format: clone_opt_text(&self.format),
            face_index: self.face_index,
            is_collection: self.is_collection,
            scope: self.scope,
        }
    }
}

impl FontliftFontSource {
    /// A source at `path` of which nothing else is known.
    pub fn new(path: String) -> (res: Self)
        ensures
            res@ == (FontSourceView {
                path: path@,
                format: None,
                face_index: None,
                is_collection: None,
                scope: None,
            }),
    {
        FontliftFontSource { path, format: None, face_index: None, is_collection: None, scope: None }
    }

    /// The same source with its format replaced.
    pub fn with_format(self, format: Option<String>) -> (res: Self)
        ensures
            res@ == (FontSourceView { format: opt_text(format), ..self@ }),
    {
        let mut source = self;
        source.format = format;
        source
    }

    /// The same source with its face index replaced.
    pub fn with_face_index(self, index: Option<u32>) -> (res: Self)
        ensures
            res@ == (FontSourceView { face_index: index, ..self@ }),
    {
        let mut source = self;
        source.face_index = index;
        source
    }

    /// The same source with its collection flag replaced.
    pub fn with_collection_flag(self, is_collection: Option<bool>) -> (res: Self)
        ensures
            res@ == (FontSourceView { is_collection, ..self@ }),
    {
        let mut source = self;
        source.is_collection = is_collection;
        source
    }

    /// The same source with its scope hint replaced.
    pub fn with_scope(self, scope: Option<FontScope>) -> (res: Self)
        ensures
            res@ == (FontSourceView { scope, ..self@ }),
    {
        let mut source = self;
        source.scope = scope;
        source
    }

    /// The scope hint, or `default` where there is none.
    pub fn scope_or(self, default: FontScope) -> (scope: FontScope)
        ensures
            scope == match self.scope {
                Some(s) => s,
                None => default,
            },
    {
        match self.scope {
            Some(s) => s,
            None => default,
        }
    }
}

/// The names and traits of one font face, with its source.
#[derive(Debug)]
pub struct FontliftFontFaceInfo {
    /// Where the face comes from.
    pub source: FontliftFontSource,
    /// PostScript name.
    pub postscript_name: String,
    /// Full display name.
    pub full_name: String,
    /// Family name.
    pub family_name: String,
    /// Style or subfamily name.
    pub style: String,
    /// Weight (100-900).
    pub weight: Option<u16>,
    /// Whether the face is italic.
    pub italic: Option<bool>,
}

/// The mathematical value of a [`FontliftFontFaceInfo`].
pub struct FontFaceView {
    pub source: FontSourceView,
    pub postscript_name: Seq<char>,
    pub full_name: Seq<char>,
    pub family_name: Seq<char>,
    pub style: Seq<char>,
    pub weight: Option<u16>,
    pub italic: Option<bool>,
}

impl View for FontliftFontFaceInfo {
    type V = FontFaceView;

    open spec fn view(&self) -> FontFaceView {
        FontFaceView {
            source: self.source@,
            postscript_name: self.postscript_name@,
            full_name: self.full_name@,
            family_name: self.family_name@,
            style: self.style@,
            weight: self.weight,
            italic: self.italic,
        }
    }
}

impl Clone for FontliftFontFaceInfo {
    fn clone(&self) -> (res: Self)
        ensures
            res@ == self@,
    {
        FontliftFontFaceInfo {
            source: self.source.clone(),
            postscript_name: self.postscript_name.clone(),
            full_name: self.full_name.clone(),
            family_name: self.family_name.clone(),
            style: self.style.clone(),
            weight: self.weight,
            italic: self.italic,
        }
    }
}

impl FontliftFontFaceInfo {
    /// A face with the given names, of unknown weight and slant.
    pub fn new(
        source: FontliftFontSource,
        postscript_name: String,
        full_name: String,
        family_name: String,
        style: String,
    ) -> (res: Self)
        ensures
            res@ == (FontFaceView {
                source: source@,
                postscript_name: postscript_name@,
                full_name: full_name@,
                family_name: family_name@,
                style: style@,
                weight: None,
                italic: None,
            }),
    {
        FontliftFontFaceInfo {
            source,
            postscript_name,
            full_name,
            family_name,
            style,
            weight: None,
            italic: None,
        }
    }

    /// The file name of the source without its extension, where the path has one.
    pub fn filename_stem(&self) -> (stem: Option<&str>)
        ensures
            paths::opt_str_text(stem) == paths::file_stem_of(self.source.path@),
    {
        paths::file_stem(self.source.path.as_str())
    }

    /// The same face with the scope hint of its source replaced.
    pub fn with_scope(self, scope: Option<FontScope>) -> (res: Self)
        ensures
            res@ == (FontFaceView {
                source: FontSourceView { scope, ..self@.source },
                ..self@
            }),
    {
        let mut info = self;
        info.source.scope = scope;
        info
    }
}

/// What every platform's font manager offers.
///
/// The methods promise nothing of their results: what a platform does with a
/// font is outside this crate.
pub trait FontManager: Send + Sync {
    /// Installs the font at the scope its source names.
    fn install_font(&self, source: &FontliftFontSource) -> FontResult<()>;

    /// Takes the font out of the system's registry and keeps the file.
    fn uninstall_font(&self, source: &FontliftFontSource) -> FontResult<()>;

    /// Uninstalls the font and deletes its file.
    fn remove_font(&self, source: &FontliftFontSource) -> FontResult<()>;

    /// Whether the font is installed.
    fn is_font_installed(&self, source: &FontliftFontSource) -> FontResult<bool>;

    /// All installed fonts.
    fn list_installed_fonts(&self) -> FontResult<Vec<FontliftFontFaceInfo>>;

    /// Clears the font caches of the scope.
    fn clear_font_caches(&self, scope: FontScope) -> FontResult<()>;

    /// Drops registrations whose files are gone, and says how many.
    fn prune_missing_fonts(&self, scope: FontScope) -> FontResult<usize>;
}

/// A font manager for platforms without support: every operation is refused.
#[derive(Debug)]
pub struct DummyFontManager;

impl DummyFontManager {
    /// The error that every operation of this manager returns, for the given reason.
    pub fn unsupported(reason: &str) -> (err: FontError)
        ensures
            err@ == FontErrorView::UnsupportedOperation(reason@),
    {
        FontError::UnsupportedOperation(String::from_str(reason))
    }
}

impl FontManager for DummyFontManager {
    fn install_font(&self, source: &FontliftFontSource) -> (res: FontResult<()>)
        ensures
            res is Err,
            res->Err_0@ == FontErrorView::UnsupportedOperation(
                "Font installation not implemented for this platform"@,
            ),
    {
        Err(DummyFontManager::unsupported("Font installation not implemented for this platform"))
    }

    fn uninstall_font(&self, source: &FontliftFontSource) -> (res: FontResult<()>)
        ensures
            res is Err,
            res->Err_0@ == FontErrorView::UnsupportedOperation(
                "Font uninstallation not implemented for this platform"@,
            ),
    {
        Err(DummyFontManager::unsupported("Font uninstallation not implemented for this platform"))
    }

    fn remove_font(&self, source: &FontliftFontSource) -> (res: FontResult<()>)
        ensures
            res is Err,
            res->Err_0@ == FontErrorView::UnsupportedOperation(
                "Font removal not implemented for this platform"@,
            ),
    {
        Err(DummyFontManager::unsupported("Font removal not implemented for this platform"))
    }

    fn is_font_installed(&self, source: &FontliftFontSource) -> (res: FontResult<bool>)
        ensures
            res is Err,
            res->Err_0@ == FontErrorView::UnsupportedOperation(
                "Font installation check not implemented for this platform"@,
            ),
    {
        Err(
            DummyFontManager::unsupported(
                "Font installation check not implemented for this platform",
            ),
        )
    }

    fn list_installed_fonts(&self) -> (res: FontResult<Vec<FontliftFontFaceInfo>>)
        ensures
            res is Err,
            res->Err_0@ == FontErrorView::UnsupportedOperation(
                "Font listing not implemented for this platform"@,
            ),
    {
        Err(DummyFontManager::unsupported("Font listing not implemented for this platform"))
    }

    fn clear_font_caches(&self, scope: FontScope) -> (res: FontResult<()>)
        ensures
            res is Err,
            res->Err_0@ == FontErrorView::UnsupportedOperation(
                "Cache clearing not implemented for this platform"@,
            ),
    {
        Err(DummyFontManager::unsupported("Cache clearing not implemented for this platform"))
    }

    fn prune_missing_fonts(&self, scope: FontScope) -> (res: FontResult<usize>)
        ensures
            res == Ok::<usize, FontError>(0),
    {
        Ok(0)
    }
}

} // verus!
