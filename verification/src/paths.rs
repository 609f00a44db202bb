//! Paths as text, and what the standard library reads from them.
//!
//! A path is parsed by the rules of the platform the crate is built for, so
//! the parts of a path are not spelled out here: each gets a name, and the
//! functions that ask for a part say that they return the named value.

use vstd::prelude::*;

verus! {

/// What an optional string slice holds, as an optional sequence of characters.
pub open spec fn opt_str_text(o: Option<&str>) -> Option<Seq<char>> {
    match o {
        Some(s) => Some(s@),
        None => None,
    }
}

/// The final component of `path` without its extension, as
/// `std::path::Path::file_stem` finds it.
pub uninterp spec fn file_stem_of(path: Seq<char>) -> Option<Seq<char>>;

/// The extension of the final component of `path`, as
/// `std::path::Path::extension` finds it.
pub uninterp spec fn extension_of(path: Seq<char>) -> Option<Seq<char>>;

/// The final component of `path`, as `std::path::Path::file_name` finds it.
pub uninterp spec fn file_name_of(path: Seq<char>) -> Option<Seq<char>>;

/// `child` appended to `base` as `std::path::Path::join` appends it.
pub uninterp spec fn joined(base: Seq<char>, child: Seq<char>) -> Seq<char>;

/// `path` with its extension replaced, as `std::path::Path::with_extension`
/// replaces it.
pub uninterp spec fn with_extension_of(path: Seq<char>, extension: Seq<char>) -> Seq<char>;

/// The path without its final component, as `std::path::Path::parent`
/// finds it.
pub uninterp spec fn parent_of(path: Seq<char>) -> Option<Seq<char>>;

/// The parent of `path`.
///
/// Trusted: `std::path::Path::parent`. The contract only gives the result
/// its name.
#[verifier::external_body]
pub(crate) fn parent(path: &str) -> (dir: Option<&str>)
    ensures
        opt_str_text(dir) == parent_of(path@),
{
    std::path::Path::new(path).parent().and_then(|p| p.to_str())
}

/// The file stem of `path`.
///
/// Trusted: `std::path::Path::file_stem`. The contract only gives the result
/// its name; the path being valid UTF-8, so is any part of it.
#[verifier::external_body]
pub(crate) fn file_stem(path: &str) -> (stem: Option<&str>)
    ensures
        opt_str_text(stem) == file_stem_of(path@),
{
    std::path::Path::new(path).file_stem().and_then(|s| s.to_str())
}

/// The extension of `path`.
///
/// Trusted: `std::path::Path::extension`. The contract only gives the result
/// its name.
#[verifier::external_body]
pub(crate) fn extension(path: &str) -> (ext: Option<&str>)
    ensures
        opt_str_text(ext) == extension_of(path@),
{
    std::path::Path::new(path).extension().and_then(|s| s.to_str())
}

/// The file name of `path`.
///
/// Trusted: `std::path::Path::file_name`. The contract only gives the result
/// its name.
#[verifier::external_body]
pub(crate) fn file_name(path: &str) -> (name: Option<&str>)
    ensures
        opt_str_text(name) == file_name_of(path@),
{
    std::path::Path::new(path).file_name().and_then(|s| s.to_str())
}

/// `child` joined to `base`.
///
/// Trusted: `std::path::Path::join`. The contract only gives the result its
/// name; both parts being valid UTF-8, so is the joined path.
#[verifier::external_body]
pub(crate) fn join(base: &str, child: &str) -> (path: String)
    ensures
        path@ == joined(base@, child@),
{
    std::path::Path::new(base).join(child).to_string_lossy().into_owned()
}

/// Whether `extension` holds no path separator of any platform.
pub open spec fn is_plain_extension(extension: Seq<char>) -> bool {
    forall|i: int|
        0 <= i < extension.len() ==> #[trigger] extension[i] != '/' && extension[i] != '\\'
}

/// `path` with `extension` in place of its own.
///
/// Trusted: `std::path::Path::with_extension`, which panics on an extension
/// that holds a path separator; such an extension is left out. The contract
/// only gives the result its name.
#[verifier::external_body]
pub(crate) fn with_extension(path: &str, extension: &str) -> (res: String)
    requires
        is_plain_extension(extension@),
    ensures
        res@ == with_extension_of(path@, extension@),
{
    std::path::Path::new(path).with_extension(extension).to_string_lossy().into_owned()
}

/// Whether `base` is a prefix of `path` component by component, as
/// `std::path::Path::starts_with` finds it.
pub uninterp spec fn path_starts_with(path: Seq<char>, base: Seq<char>) -> bool;

/// Whether `path` is absolute, as `std::path::Path::is_absolute` finds it.
pub uninterp spec fn path_is_absolute(path: Seq<char>) -> bool;

/// Whether `path` begins with the components of `base`.
///
/// Trusted: `std::path::Path::starts_with`. The contract only gives the
/// result its name.
#[verifier::external_body]
pub(crate) fn starts_with(path: &str, base: &str) -> (begins: bool)
    ensures
        begins == path_starts_with(path@, base@),
{
    std::path::Path::new(path).starts_with(base)
}

/// Whether `path` is absolute.
///
/// Trusted: `std::path::Path::is_absolute`. The contract only gives the
/// result its name.
#[verifier::external_body]
pub(crate) fn is_absolute(path: &str) -> (absolute: bool)
    ensures
        absolute == path_is_absolute(path@),
{
    std::path::Path::new(path).is_absolute()
}

/// Whether something exists at `path` right now.
///
/// Trusted: `std::path::Path::exists`. The answer depends on what is on disk
/// at the moment of the call, so nothing is promised of it.
#[verifier::external_body]
pub(crate) fn is_present(path: &str) -> bool {
    std::path::Path::new(path).exists()
}

} // verus!
