//! What can be told of a font file from its path alone.

use vstd::prelude::*;
use vstd::string::StringExecFns;
use crate::paths;
use crate::text;
use crate::{FontError, FontErrorView, FontFaceView, FontSourceView, FontliftFontFaceInfo, FontliftFontSource};

verus! {

/// Whether `word` is one of the extensions of font files, in lower case.
pub open spec fn is_font_word(word: Seq<char>) -> bool {
    word == "ttf"@ || word == "otf"@ || word == "ttc"@ || word == "otc"@ || word == "woff"@
        || word == "woff2"@ || word == "dfont"@
}

/// Whether a path with the extension `ext` (or none) names a font file: the
/// extension, put into lower case, is one of the font extensions.
pub open spec fn has_font_extension(ext: Option<Seq<char>>) -> bool {
    match ext {
        Some(e) => is_font_word(text::lowercase_of(e)),
        None => false,
    }
}

/// Whether `word`, taken as it is, is one of the extensions of font files.
pub fn is_font_extension_word(word: &str) -> (is_font: bool)
    ensures
        is_font == is_font_word(word@),
{
    text::same_text(word, "ttf") || text::same_text(word, "otf") || text::same_text(word, "ttc")
        || text::same_text(word, "otc") || text::same_text(word, "woff") || text::same_text(
        word,
        "woff2",
    ) || text::same_text(word, "dfont")
}

/// Whether the path has the extension of a font file, in any case.
pub fn is_valid_font_extension(path: &str) -> (valid: bool)
    ensures
        valid == has_font_extension(paths::extension_of(path@)),
{
    match paths::extension(path) {
        Some(ext) => {
            let lower = text::lowercase(ext);
            is_font_extension_word(lower.as_str())
        },
        None => false,
    }
}

/// What the disk says of a path.
#[derive(Debug, Clone, Copy, PartialEq, Eq, Structural)]
pub struct PathFacts {
    /// Something exists at the path.
    pub exists: bool,
    /// What is there is a regular file.
    pub is_file: bool,
}

/// The verdict on a font file: it must exist, be a file, have a font
/// extension, and its metadata must be readable.
pub open spec fn font_file_verdict(
    path: Seq<char>,
    facts: PathFacts,
    metadata_error: Option<Seq<char>>,
) -> Result<(), FontErrorView> {
    if !facts.exists {
        Err(FontErrorView::FontNotFound(path))
    } else if !facts.is_file {
        Err(FontErrorView::InvalidFormat("Path is not a file"@))
    } else if !has_font_extension(paths::extension_of(path)) {
        Err(FontErrorView::InvalidFormat("Invalid font extension"@))
    } else {
        match metadata_error {
            Some(cause) => Err(FontErrorView::IoError(cause)),
            None => Ok(()),
        }
    }
}

/// Checks that the font file at `path` exists and can be read, given what
/// the disk says of the path and the error, if any, of reading its metadata.
pub fn validate_font_file(path: &str, facts: PathFacts, metadata_error: Option<&str>) -> (res:
    Result<(), FontError>)
    ensures
        match res {
            Ok(()) => font_file_verdict(path@, facts, paths::opt_str_text(metadata_error)) == Ok::<
                (),
                FontErrorView,
            >(()),
            Err(e) => font_file_verdict(path@, facts, paths::opt_str_text(metadata_error)) == Err::<
                (),
                FontErrorView,
            >(e@),
        },
{
    if !facts.exists {
        return Err(FontError::FontNotFound(String::from_str(path)));
    }
    if !facts.is_file {
        return Err(FontError::InvalidFormat(String::from_str("Path is not a file")));
    }
    if !is_valid_font_extension(path) {
        return Err(FontError::InvalidFormat(String::from_str("Invalid font extension")));
    }
    match metadata_error {
        Some(cause) => Err(FontError::IoError(String::from_str(cause))),
        None => Ok(()),
    }
}

/// The family and style that a file stem suggests: the parts before and
/// after the last hyphen, else before and after the last space, each
/// trimmed; else the whole stem and `Regular`.
pub open spec fn family_and_style_of(stem: Seq<char>) -> (Seq<char>, Seq<char>) {
    if exists|i: int| text::is_last_position(stem, '-', i) {
        let i = choose|i: int| text::is_last_position(stem, '-', i);
        (text::trimmed(stem.subrange(0, i)), text::trimmed(stem.subrange(i + 1, stem.len() as int)))
    } else if exists|i: int| text::is_last_position(stem, ' ', i) {
        let i = choose|i: int| text::is_last_position(stem, ' ', i);
        (text::trimmed(stem.subrange(0, i)), text::trimmed(stem.subrange(i + 1, stem.len() as int)))
    } else {
        (stem, "Regular"@)
    }
}

/// The last position of a character is unique.
pub proof fn lemma_last_position_unique(stem: Seq<char>, c: char, i: int, j: int)
    requires
        text::is_last_position(stem, c, i),
        text::is_last_position(stem, c, j),
    ensures
        i == j,
{
}

/// The family and style that a file stem suggests.
pub fn split_family_style(stem: &str) -> (names: (String, String))
    ensures
        (names.0@, names.1@) == family_and_style_of(stem@),
{
    let chars = text::chars_of(stem);
    let split = match text::last_position(&chars, '-') {
        Some(i) => Some(i),
        None => text::last_position(&chars, ' '),
    };
    match split {
        Some(i) => {
            proof {
                if exists|k: int| text::is_last_position(stem@, '-', k) {
                    let k = choose|k: int| text::is_last_position(stem@, '-', k);
                    assert(text::is_last_position(stem@, '-', i as int));
                    lemma_last_position_unique(stem@, '-', i as int, k);
                } else {
                    assert(text::is_last_position(stem@, ' ', i as int));
                    let k = choose|k: int| text::is_last_position(stem@, ' ', k);
                    lemma_last_position_unique(stem@, ' ', i as int, k);
                }
            }
            let family = text::trimmed_range(&chars, 0, i);
            let style = text::trimmed_range(&chars, i + 1, chars.len());
            (family, style)
        },
        None => {
            assert(!exists|k: int| text::is_last_position(stem@, '-', k));
            assert(!exists|k: int| text::is_last_position(stem@, ' ', k));
            (String::from_str(stem), String::from_str("Regular"))
        },
    }
}

/// The stem that names are taken from: that of the path, or `Unknown`.
pub open spec fn naming_stem_of(path: Seq<char>) -> Seq<char> {
    match paths::file_stem_of(path) {
        Some(stem) => stem,
        None => "Unknown"@,
    }
}

/// The format that the extension suggests: the extension in upper case.
pub open spec fn format_of(path: Seq<char>) -> Option<Seq<char>> {
    match paths::extension_of(path) {
        Some(ext) => Some(text::uppercase_of(ext)),
        None => None,
    }
}

/// What the file name alone tells of a font: the stem as PostScript and full
/// name, family and style split out of it, the format from the extension.
pub open spec fn basic_info_of(path: Seq<char>) -> FontFaceView {
    let stem = naming_stem_of(path);
    let names = family_and_style_of(stem);
    FontFaceView {
        source: FontSourceView {
            path,
            format: format_of(path),
            face_index: None,
            is_collection: None,
            scope: None,
        },
        postscript_name: stem,
        full_name: stem,
        family_name: names.0,
        style: names.1,
        weight: None,
        italic: None,
    }
}

/// Basic information on a font from its file name, for use where the font
/// itself cannot be read.
pub fn extract_basic_info_from_path(path: &str) -> (info: FontliftFontFaceInfo)
    ensures
        info@ == basic_info_of(path@),
{
    let stem = match paths::file_stem(path) {
        Some(stem) => stem,
        None => "Unknown",
    };
    let (family, style) = split_family_style(stem);
    let format = match paths::extension(path) {
        Some(ext) => Some(text::uppercase(ext)),
        None => None,
    };
    let source = FontliftFontSource::new(String::from_str(path)).with_format(format);
    FontliftFontFaceInfo::new(
        source,
        String::from_str(stem),
        String::from_str(stem),
        family,
        style,
    )
}

} // verus!
