//! The font validator's vocabulary: what it is asked, what it answers, and
//! how it words a failure.

use vstd::prelude::*;
use vstd::string::StringExecFns;
use crate::paths;
use crate::text;
use crate::validation::{has_font_extension, is_valid_font_extension, PathFacts};
use crate::validation_ext::ValidatorConfig;
use crate::{
    opt_text,
    FontFaceView,
    FontSourceView,
    FontliftFontFaceInfo,
    FontliftFontSource,
};

verus! {

/// What the validator is asked: the fonts, and the limits to hold them to.
#[derive(Debug)]
pub struct ValidatorInput {
    pub paths: Vec<String>,
    pub config: ValidatorConfig,
}

/// The validator's answer for one font.
#[derive(Debug)]
pub struct ValidationResult {
    /// The font's path.
    pub path: String,
    /// Whether the font passed.
    pub ok: bool,
    /// The font's metadata, where it passed.
    pub info: Option<FontliftFontFaceInfo>,
    /// What was wrong, where it did not.
    pub error: Option<String>,
}

/// The mathematical value of a [`ValidationResult`].
pub struct ValidationResultView {
    pub path: Seq<char>,
    pub ok: bool,
    pub info: Option<FontFaceView>,
    pub error: Option<Seq<char>>,
}

impl View for ValidationResult {
    type V = ValidationResultView;

    open spec fn view(&self) -> ValidationResultView {
        ValidationResultView {
            path: self.path@,
            ok: self.ok,
            info: match self.info {
                Some(info) => Some(info@),
                None => None,
            },
            error: opt_text(self.error),
        }
    }
}

/// How many bytes the UTF-8 encoding of `c` takes.
pub open spec fn utf8_width(c: char) -> nat {
    if (c as u32) < 0x80 {
        1
    } else if (c as u32) < 0x800 {
        2
    } else if (c as u32) < 0x10000 {
        3
    } else {
        4
    }
}

/// How many bytes the UTF-8 encoding of `text` takes.
pub open spec fn utf8_len(text: Seq<char>) -> nat
    decreases text.len(),
{
    if text.len() == 0 {
        0
    } else {
        utf8_len(text.drop_last()) + utf8_width(text.last())
    }
}

/// How many leading characters of `text` fit into `limit` bytes.
pub open spec fn cut_point(text: Seq<char>, limit: nat) -> int
    decreases text.len(),
{
    if text.len() == 0 {
        0
    } else if utf8_len(text) <= limit {
        text.len() as int
    } else {
        cut_point(text.drop_last(), limit)
    }
}

/// The longest error text that is passed on, in bytes.
pub const MAX_ERROR_BYTES: usize = 200;

/// An error message made fit to pass on: backslashes become slashes, and a
/// text of more than 200 bytes is cut to the characters that fit into 200
/// bytes, followed by three dots.
pub open spec fn sanitized(error: Seq<char>) -> Seq<char> {
    let clean = text::with_replaced(error, '\\', '/');
    if utf8_len(clean) > 200 {
        clean.take(cut_point(clean, 200)) + "..."@
    } else {
        clean
    }
}

/// A prefix takes no more bytes than the whole text.
pub proof fn lemma_utf8_len_of_prefix(text: Seq<char>, n: int)
    requires
        0 <= n <= text.len(),
    ensures
        utf8_len(text.take(n)) <= utf8_len(text),
    decreases text.len(),
{
    if n == text.len() {
        assert(text.take(n) =~= text);
    } else {
        assert(text.drop_last().take(n) =~= text.take(n));
        lemma_utf8_len_of_prefix(text.drop_last(), n);
    }
}

/// Where `n` characters fit into the limit and one more does not, `n` is the
/// cut point.
pub proof fn lemma_cut_point_is(text: Seq<char>, limit: nat, n: int)
    requires
        0 <= n < text.len(),
        utf8_len(text.take(n)) <= limit,
        utf8_len(text.take(n + 1)) > limit,
    ensures
        cut_point(text, limit) == n,
    decreases text.len(),
{
    lemma_utf8_len_of_prefix(text, n + 1);
    assert(cut_point(text, limit) == cut_point(text.drop_last(), limit));
    if text.len() == n + 1 {
        assert(text.take(n + 1) =~= text);
        assert(text.drop_last() =~= text.take(n));
        let front = text.drop_last();
        assert(front.len() == n);
        assert(cut_point(front, limit) == n) by {
            if front.len() > 0 {
                assert(utf8_len(front) <= limit);
            }
        }
    } else {
        assert(text.drop_last().take(n) =~= text.take(n));
        assert(text.drop_last().take(n + 1) =~= text.take(n + 1));
        lemma_cut_point_is(text.drop_last(), limit, n);
    }
}

/// How many bytes the UTF-8 encoding of `c` takes.
pub fn width_of(c: char) -> (width: usize)
    ensures
        width == utf8_width(c),
{
    let code = c as u32;
    if code < 0x80 {
        1
    } else if code < 0x800 {
        2
    } else if code < 0x10000 {
        3
    } else {
        4
    }
}

/// Makes an error message fit to pass on: no backslashes, and no more than
/// 200 bytes of the original text.
pub fn sanitize_error(error: &str) -> (res: String)
    ensures
        res@ == sanitized(error@),
{
    let chars = text::chars_of(error);
    let clean = text::replace_char(&chars, '\\', '/');
    let mut used: usize = 0;
    let mut n: usize = 0;
    assert(clean@.take(0) =~= Seq::<char>::empty());
    while n < clean.len() && used + width_of(clean[n]) <= MAX_ERROR_BYTES
        invariant
            n <= clean.len(),
            used <= MAX_ERROR_BYTES,
            used == utf8_len(clean@.take(n as int)),
        decreases clean.len() - n,
    {
        assert(clean@.take(n + 1).drop_last() =~= clean@.take(n as int));
        used = used + width_of(clean[n]);
        n += 1;
    }
    if n == clean.len() {
        assert(clean@.take(n as int) =~= clean@);
        text::string_of(&clean)
    } else {
        proof {
            assert(clean@.take(n + 1).drop_last() =~= clean@.take(n as int));
            lemma_cut_point_is(clean@, 200, n as int);
            lemma_utf8_len_of_prefix(clean@, n + 1);
        }
        let mut res = text::string_of_range(&clean, 0, n);
        res.append("...");
        assert(clean@.subrange(0, n as int) =~= clean@.take(n as int));
        res
    }
}

impl ValidationResult {
    /// The answer for a font that passed.
    pub fn success(path: String, info: FontliftFontFaceInfo) -> (res: Self)
        ensures
            res@ == (ValidationResultView {
                path: path@,
                ok: true,
                info: Some(info@),
                error: None,
            }),
    {
        ValidationResult { path, ok: true, info: Some(info), error: None }
    }

    /// The answer for a font that did not pass, with the sanitized error.
    pub fn failure(path: String, error: &str) -> (res: Self)
        ensures
            res@ == (ValidationResultView {
                path: path@,
                ok: false,
                info: None,
                error: Some(sanitized(error@)),
            }),
    {
        ValidationResult { path, ok: false, info: None, error: Some(sanitize_error(error)) }
    }
}

/// What reading `data` as a font file gives, as `read_fonts::FileRef::new`
/// reads it: whether it is a collection, or the error in words.
pub uninterp spec fn parsed_kind(data: Seq<u8>) -> Result<bool, Seq<char>>;

/// The error, in words, of getting the first font of the collection that
/// `data` holds, as `read_fonts::CollectionRef::get` gives it; `None` where
/// there is no error or `data` is no collection.
pub uninterp spec fn first_font_failure_of(data: Seq<u8>) -> Option<Seq<char>>;

/// The records of the name table of the first font in `data`, as
/// `read_fonts` reads them: each with its name identifier and its string,
/// where the string can be read; `None` where there is no font or no name
/// table.
pub uninterp spec fn name_records_of(data: Seq<u8>) -> Option<Seq<(u16, Option<Seq<char>>)>>;

/// The weight class in the OS/2 table of the first font in `data`, as
/// `read_fonts` reads it.
pub uninterp spec fn weight_class_of(data: Seq<u8>) -> Option<u16>;

/// The selection flags in the OS/2 table of the first font in `data`, as
/// `read_fonts` reads them.
pub uninterp spec fn selection_flags_of(data: Seq<u8>) -> Option<u16>;

/// The values of a list of name records.
pub open spec fn records_view(records: Seq<(u16, Option<String>)>) -> Seq<
    (u16, Option<Seq<char>>),
> {
    records.map_values(|r: (u16, Option<String>)| (r.0, opt_text(r.1)))
}

/// The values of an optional list of name records.
pub open spec fn opt_records_view(records: Option<Vec<(u16, Option<String>)>>) -> Option<
    Seq<(u16, Option<Seq<char>>)>,
> {
    match records {
        Some(list) => Some(records_view(list@)),
        None => None,
    }
}

/// Whether `data` is a font collection, or why it is no font file at all.
///
/// Trusted: `read_fonts::FileRef::new`, and the `Display` of its error. The
/// contract only gives the result its name.
#[verifier::external_body]
pub(crate) fn font_kind(data: &[u8]) -> (kind: Result<bool, String>)
    ensures
        match kind {
            Ok(collection) => parsed_kind(data@) == Ok::<bool, Seq<char>>(collection),
            Err(e) => parsed_kind(data@) == Err::<bool, Seq<char>>(e@),
        },
{
    match read_fonts::FileRef::new(data) {
        Ok(read_fonts::FileRef::Collection(_)) => Ok(true),
        Ok(read_fonts::FileRef::Font(_)) => Ok(false),
        Err(e) => Err(e.to_string()),
    }
}

/// Why the first font of the collection in `data` cannot be read, if it
/// cannot.
///
/// Trusted: `read_fonts::FileRef::new` and `read_fonts::CollectionRef::get`,
/// and the `Display` of the error. The contract only gives the result its
/// name.
#[verifier::external_body]
pub(crate) fn first_font_failure(data: &[u8]) -> (failure: Option<String>)
    ensures
        opt_text(failure) == first_font_failure_of(data@),
{
    match read_fonts::FileRef::new(data) {
        Ok(read_fonts::FileRef::Collection(c)) => c.get(0).err().map(|e| e.to_string()),
        _ => None,
    }
}

/// The name records of the first font in `data`.
///
/// Trusted: `read_fonts::FontRef::from_index`, `TableProvider::name`,
/// `Name::name_record`, `NameRecord::name_id` and `NameRecord::string`. Each
/// record is handed out as its identifier and its string; the contract only
/// gives the result its name.
#[verifier::external_body]
pub(crate) fn name_records(data: &[u8]) -> (records: Option<Vec<(u16, Option<String>)>>)
    ensures
        opt_records_view(records) == name_records_of(data@),
{
    let font = read_fonts::FontRef::from_index(data, 0).ok()?;
    let table = read_fonts::TableProvider::name(&font).ok()?;
    let strings = table.string_data();
    Some(
        table.name_record().iter().map(
            |r| (r.name_id().to_u16(), r.string(strings).ok().map(|s| s.to_string())),
        ).collect(),
    )
}

/// The weight class of the first font in `data`.
///
/// Trusted: `read_fonts::FontRef::from_index`, `TableProvider::os2` and
/// `Os2::us_weight_class`. The contract only gives the result its name.
#[verifier::external_body]
pub(crate) fn weight_class(data: &[u8]) -> (weight: Option<u16>)
    ensures
        weight == weight_class_of(data@),
{
    let font = read_fonts::FontRef::from_index(data, 0).ok()?;
    read_fonts::TableProvider::os2(&font).ok().map(|t| t.us_weight_class())
}

/// The selection flags of the first font in `data`.
///
/// Trusted: `read_fonts::FontRef::from_index`, `TableProvider::os2`,
/// `Os2::fs_selection` and `SelectionFlags::bits`. The contract only gives
/// the result its name.
#[verifier::external_body]
pub(crate) fn selection_flags(data: &[u8]) -> (flags: Option<u16>)
    ensures
        flags == selection_flags_of(data@),
{
    let font = read_fonts::FontRef::from_index(data, 0).ok()?;
    read_fonts::TableProvider::os2(&font).ok().map(|t| t.fs_selection().bits())
}

/// The wall clock in milliseconds since the Unix epoch.
///
/// Trusted: `std::time::SystemTime::now`. The value is the time of the call,
/// so nothing is promised of it.
#[verifier::external_body]
pub(crate) fn clock_millis() -> u64 {
    std::time::SystemTime::now().duration_since(std::time::UNIX_EPOCH).map(
        |d| d.as_millis() as u64,
    ).unwrap_or(0)
}

/// The reason, if any, for which a font file is turned away before it is
/// read: it does not exist, is no file, has no font extension, its size
/// cannot be told, or it is larger than the limit.
pub open spec fn precheck_failure(
    path: Seq<char>,
    facts: PathFacts,
    size: Option<u64>,
    config: ValidatorConfig,
) -> Option<Seq<char>> {
    if !facts.exists {
        Some("File not found"@)
    } else if !facts.is_file {
        Some("Path is not a file"@)
    } else if !has_font_extension(paths::extension_of(path)) {
        Some("Invalid font extension"@)
    } else {
        match size {
            None => Some("Cannot read file metadata"@),
            Some(bytes) => if bytes > config.max_file_size_bytes {
                Some(
                    "File exceeds maximum size ("@ + text::decimal_of(bytes as nat)
                        + " bytes > "@ + text::decimal_of(config.max_file_size_bytes as nat)
                        + " bytes)"@,
                )
            } else {
                None
            },
        }
    }
}

/// The reason, if any, for which the font file at `path` is turned away
/// before it is read, given what the disk says of the path and the size of
/// the file where it could be told.
pub fn precheck_font_file(path: &str, facts: PathFacts, size: Option<u64>, config: &ValidatorConfig) -> (failure:
    Option<String>)
    ensures
        opt_text(failure) == precheck_failure(path@, facts, size, *config),
{
    if !facts.exists {
        return Some(String::from_str("File not found"));
    }
    if !facts.is_file {
        return Some(String::from_str("Path is not a file"));
    }
    if !is_valid_font_extension(path) {
        return Some(String::from_str("Invalid font extension"));
    }
    match size {
        None => Some(String::from_str("Cannot read file metadata")),
        Some(bytes) => if bytes > config.max_file_size_bytes {
            let mut words = String::from_str("File exceeds maximum size (");
            words.append(text::decimal(bytes).as_str());
            words.append(" bytes > ");
            words.append(text::decimal(config.max_file_size_bytes).as_str());
            words.append(" bytes)");
            Some(words)
        } else {
            None
        },
    }
}

/// The name of the format that an extension, in lower case, stands for.
pub open spec fn format_label_of(extension: Seq<char>) -> Seq<char> {
    if extension == "ttf"@ {
        "TrueType"@
    } else if extension == "otf"@ {
        "OpenType"@
    } else if extension == "ttc"@ || extension == "otc"@ {
        "Collection"@
    } else if extension == "woff"@ {
        "WOFF"@
    } else if extension == "woff2"@ {
        "WOFF2"@
    } else if extension == "dfont"@ {
        "dfont"@
    } else {
        "Unknown"@
    }
}

/// The name of the format that an extension, in lower case, stands for.
pub fn format_label(extension: &str) -> (label: &'static str)
    ensures
        label@ == format_label_of(extension@),
{
    if text::same_text(extension, "ttf") {
        "TrueType"
    } else if text::same_text(extension, "otf") {
        "OpenType"
    } else if text::same_text(extension, "ttc") || text::same_text(extension, "otc") {
        "Collection"
    } else if text::same_text(extension, "woff") {
        "WOFF"
    } else if text::same_text(extension, "woff2") {
        "WOFF2"
    } else if text::same_text(extension, "dfont") {
        "dfont"
    } else {
        "Unknown"
    }
}

/// The string of the first record with the identifier `id`, where that
/// record has one.
pub open spec fn name_in(records: Seq<(u16, Option<Seq<char>>)>, id: u16) -> Option<Seq<char>>
    decreases records.len(),
{
    if records.len() == 0 {
        None
    } else if records[0].0 == id {
        records[0].1
    } else {
        name_in(records.drop_first(), id)
    }
}

/// The string of the first record with the identifier `id`.
pub fn find_name(records: &Vec<(u16, Option<String>)>, id: u16) -> (name: Option<String>)
    ensures
        opt_text(name) == name_in(records_view(records@), id),
{
    let ghost all = records_view(records@);
    let mut i: usize = 0;
    assert(all.skip(0) =~= all);
    while i < records.len()
        invariant
            i <= records.len(),
            all == records_view(records@),
            name_in(all, id) == name_in(all.skip(i as int), id),
        decreases records.len() - i,
    {
        let ghost rest = all.skip(i as int);
        assert(rest[0] == all[i as int]);
        assert(all[i as int] == (records@[i as int].0, opt_text(records@[i as int].1)));
        if records[i].0 == id {
            return crate::clone_opt_text(&records[i].1);
        }
        assert(rest.drop_first() =~= all.skip(i + 1));
        i += 1;
    }
    assert(all.skip(i as int).len() == 0);
    None
}

/// `text` without the spaces.
pub open spec fn without_spaces(text: Seq<char>) -> Seq<char> {
    text.filter(|c: char| c != ' ')
}

/// `text` without the spaces.
pub fn remove_spaces(text: &str) -> (res: String)
    ensures
        res@ == without_spaces(text@),
{
    let chars = text::chars_of(text);
    let ghost keep = |c: char| c != ' ';
    let mut kept: Vec<char> = Vec::new();
    let mut i: usize = 0;
    assert(chars@.take(0) =~= Seq::<char>::empty());
    while i < chars.len()
        invariant
            i <= chars.len(),
            keep == (|c: char| c != ' '),
            kept@ == chars@.take(i as int).filter(keep),
        decreases chars.len() - i,
    {
        proof {
            assert(chars@.take(i + 1).drop_last() =~= chars@.take(i as int));
            assert(chars@.take(i + 1).last() == chars@[i as int]);
            reveal(Seq::filter);
        }
        if chars[i] != ' ' {
            kept.push(chars[i]);
        }
        i += 1;
    }
    assert(chars@.take(i as int) =~= chars@);
    text::string_of(&kept)
}

/// The names of a font.
pub struct FontNames {
    pub postscript_name: String,
    pub full_name: String,
    pub family_name: String,
    pub style: String,
}

/// The mathematical value of [`FontNames`].
pub struct FontNamesView {
    pub postscript_name: Seq<char>,
    pub full_name: Seq<char>,
    pub family_name: Seq<char>,
    pub style: Seq<char>,
}

impl View for FontNames {
    type V = FontNamesView;

    open spec fn view(&self) -> FontNamesView {
        FontNamesView {
            postscript_name: self.postscript_name@,
            full_name: self.full_name@,
            family_name: self.family_name@,
            style: self.style@,
        }
    }
}

/// The names that the name table gives: family (1) or `Unknown`, style (2)
/// or `Regular`, full name (4) or family and style, PostScript name (6) or
/// the family without spaces. Without a name table all are `Unknown`, and
/// the style is `Regular`.
pub open spec fn names_from(records: Option<Seq<(u16, Option<Seq<char>>)>>) -> FontNamesView {
    match records {
        None => FontNamesView {
            postscript_name: "Unknown"@,
            full_name: "Unknown"@,
            family_name: "Unknown"@,
            style: "Regular"@,
        },
        Some(list) => {
            let family = match name_in(list, 1) {
                Some(name) => name,
                None => "Unknown"@,
            };
            let style = match name_in(list, 2) {
                Some(name) => name,
                None => "Regular"@,
            };
            FontNamesView {
                postscript_name: match name_in(list, 6) {
                    Some(name) => name,
                    None => without_spaces(family),
                },
                full_name: match name_in(list, 4) {
                    Some(name) => name,
                    None => family + " "@ + style,
                },
                family_name: family,
                style,
            }
        },
    }
}

/// The names that the name table gives.
pub fn extract_names(records: &Option<Vec<(u16, Option<String>)>>) -> (names: FontNames)
    ensures
        names@ == names_from(opt_records_view(*records)),
{
    match records {
        None => FontNames {
            postscript_name: String::from_str("Unknown"),
            full_name: String::from_str("Unknown"),
            family_name: String::from_str("Unknown"),
            style: String::from_str("Regular"),
        },
        Some(list) => {
            let family = match find_name(list, 1) {
                Some(name) => name,
                None => String::from_str("Unknown"),
            };
            let style = match find_name(list, 2) {
                Some(name) => name,
                None => String::from_str("Regular"),
            };
            let full_name = match find_name(list, 4) {
                Some(name) => name,
                None => {
                    let mut joined = family.clone();
                    joined.append(" ");
                    joined.append(style.as_str());
                    joined
                },
            };
            let postscript_name = match find_name(list, 6) {
                Some(name) => name,
                None => remove_spaces(family.as_str()),
            };
            FontNames { postscript_name, full_name, family_name: family, style }
        },
    }
}

/// Weight and slant from the OS/2 table: the weight class, or 400 without
/// one; italic where the lowest bit of the selection flags is set.
pub open spec fn os2_info_of(weight: Option<u16>, selection: Option<u16>) -> (u16, bool) {
    (
        match weight {
            Some(w) => w,
            None => 400,
        },
        match selection {
            Some(flags) => flags % 2 == 1,
            None => false,
        },
    )
}

/// Weight and slant from the OS/2 table.
pub fn extract_os2_info(weight: Option<u16>, selection: Option<u16>) -> (info: (u16, bool))
    ensures
        info == os2_info_of(weight, selection),
{
    (
        match weight {
            Some(w) => w,
            None => 400,
        },
        match selection {
            Some(flags) => flags % 2 == 1,
            None => false,
        },
    )
}

/// The metadata of a font that passed.
pub open spec fn inspected_info(
    path: Seq<char>,
    extension: Seq<char>,
    collection: bool,
    records: Option<Seq<(u16, Option<Seq<char>>)>>,
    weight: Option<u16>,
    selection: Option<u16>,
) -> FontFaceView {
    let names = names_from(records);
    let traits = os2_info_of(weight, selection);
    FontFaceView {
        source: FontSourceView {
            path,
            format: Some(format_label_of(extension)),
            face_index: Some(0),
            is_collection: Some(collection),
            scope: None,
        },
        postscript_name: names.postscript_name,
        full_name: names.full_name,
        family_name: names.family_name,
        style: names.style,
        weight: Some(traits.0),
        italic: Some(traits.1),
    }
}

/// The answer for a font after its data was read: a timeout, where the time
/// was up after reading or after parsing; the reason for which the data is
/// no font, or is a collection where none is allowed or one whose first
/// font cannot be read; else the metadata.
pub open spec fn inspection(
    path: Seq<char>,
    extension: Seq<char>,
    data: Seq<u8>,
    config: ValidatorConfig,
    late_after_read: bool,
    late_after_parse: bool,
) -> ValidationResultView {
    let failed = |words: Seq<char>|
        ValidationResultView { path, ok: false, info: None, error: Some(sanitized(words)) };
    if late_after_read {
        failed("Validation timeout"@)
    } else {
        match parsed_kind(data) {
            Err(e) => failed("Invalid font structure: "@ + e),
            Ok(collection) => if collection && !config.allow_collections {
                failed("Font collections not allowed"@)
            } else if collection && first_font_failure_of(data) is Some {
                failed("Cannot read collection: "@ + first_font_failure_of(data)->0)
            } else if late_after_parse {
                failed("Validation timeout"@)
            } else {
                ValidationResultView {
                    path,
                    ok: true,
                    info: Some(
                        inspected_info(
                            path,
                            extension,
                            collection,
                            name_records_of(data),
                            weight_class_of(data),
                            selection_flags_of(data),
                        ),
                    ),
                    error: None,
                }
            },
        }
    }
}

/// Whether more than the timeout has passed between `started_ms` and `now_ms`.
pub fn timed_out(started_ms: u64, now_ms: u64, timeout_ms: u64) -> (late: bool)
    ensures
        late == (now_ms > started_ms && now_ms - started_ms > timeout_ms),
{
    now_ms > started_ms && now_ms - started_ms > timeout_ms
}

/// Inspects the data of the font file at `path`, whose extension in lower
/// case is `extension`: the data must be a font, collections must be
/// allowed where it is one, and the time since `started_ms` must stay
/// within the timeout. The clock is read after reading and after parsing;
/// the answer is that of [`inspection`] for what the clock showed.
pub fn inspect_font(
    path: &str,
    extension: &str,
    data: &[u8],
    config: &ValidatorConfig,
    started_ms: u64,
) -> (result: ValidationResult)
    ensures
        exists|late_after_read: bool, late_after_parse: bool|
            result@ == #[trigger] inspection(
                path@,
                extension@,
                data@,
                *config,
                late_after_read,
                late_after_parse,
            ),
{
    let late_after_read = timed_out(started_ms, clock_millis(), config.timeout_ms);
    if late_after_read {
        let result = ValidationResult::failure(String::from_str(path), "Validation timeout");
        assert(result@ == inspection(path@, extension@, data@, *config, true, false));
        return result;
    }
    let collection = match font_kind(data) {
        Ok(collection) => collection,
        Err(e) => {
            let mut words = String::from_str("Invalid font structure: ");
            words.append(e.as_str());
            let result = ValidationResult::failure(String::from_str(path), words.as_str());
            assert(result@ == inspection(path@, extension@, data@, *config, false, false));
            return result;
        },
    };
    if collection && !config.allow_collections {
        let result = ValidationResult::failure(
            String::from_str(path),
            "Font collections not allowed",
        );
        assert(result@ == inspection(path@, extension@, data@, *config, false, false));
        return result;
    }
    if collection {
        if let Some(e) = first_font_failure(data) {
            let mut words = String::from_str("Cannot read collection: ");
            words.append(e.as_str());
            let result = ValidationResult::failure(String::from_str(path), words.as_str());
            assert(result@ == inspection(path@, extension@, data@, *config, false, false));
            return result;
        }
    }
    let late_after_parse = timed_out(started_ms, clock_millis(), config.timeout_ms);
    if late_after_parse {
        let result = ValidationResult::failure(String::from_str(path), "Validation timeout");
        assert(result@ == inspection(path@, extension@, data@, *config, false, true));
        return result;
    }
    let records = name_records(data);
    let names = extract_names(&records);
    let (weight, italic) = extract_os2_info(weight_class(data), selection_flags(data));
    let source = FontliftFontSource::new(String::from_str(path)).with_format(
        Some(String::from_str(format_label(extension))),
    ).with_face_index(Some(0)).with_collection_flag(Some(collection));
    let info = FontliftFontFaceInfo {
        source,
        postscript_name: names.postscript_name,
        full_name: names.full_name,
        family_name: names.family_name,
        style: names.style,
        weight: Some(weight),
        italic: Some(italic),
    };
    let result = ValidationResult::success(String::from_str(path), info);
    assert(result@ == inspection(path@, extension@, data@, *config, false, false));
    result
}

} // verus!
