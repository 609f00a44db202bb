//! What the command line decides before and after the font manager is
//! called: options, the order in which scopes are tried, and how the list of
//! fonts is laid out.

use vstd::prelude::*;
use vstd::string::StringExecFns;
use crate::config::texts_view;
use crate::protection::{dedupe_fonts, faces_view, in_order, without_repeats};
use crate::text;
use crate::text::chars_view;
use crate::validation_ext;
use crate::{
    FontError,
    FontErrorView,
    FontFaceView,
    FontManager,
    FontScope,
    FontliftFontFaceInfo,
    FontliftFontSource,
};

verus! {

/// How strict validation is, as the command line names it.
#[derive(Debug, Clone, Copy, PartialEq, Eq, Structural)]
pub enum ValidationStrictness {
    /// Larger size limits (128 MB), longer timeouts (10 s).
    Lenient,
    /// The default limits (64 MB, 5 s).
    Normal,
    /// Strict limits (32 MB, 2 s).
    Paranoid,
}

impl Default for ValidationStrictness {
    fn default() -> (strictness: Self)
        ensures
            strictness == ValidationStrictness::Normal,
    {
        ValidationStrictness::Normal
    }
}

/// The preset that the command line's strictness stands for.
pub open spec fn core_strictness(s: ValidationStrictness) -> validation_ext::ValidationStrictness {
    match s {
        ValidationStrictness::Lenient => validation_ext::ValidationStrictness::Lenient,
        ValidationStrictness::Normal => validation_ext::ValidationStrictness::Normal,
        ValidationStrictness::Paranoid => validation_ext::ValidationStrictness::Paranoid,
    }
}

/// The preset that the command line's strictness stands for.
pub fn to_core_strictness(s: ValidationStrictness) -> (preset: validation_ext::ValidationStrictness)
    ensures
        preset == core_strictness(s),
{
    match s {
        ValidationStrictness::Lenient => validation_ext::ValidationStrictness::Lenient,
        ValidationStrictness::Normal => validation_ext::ValidationStrictness::Normal,
        ValidationStrictness::Paranoid => validation_ext::ValidationStrictness::Paranoid,
    }
}

/// How the list of fonts is laid out.
#[derive(Debug, Clone, Copy, PartialEq, Eq, Structural)]
pub struct ListRenderOptions {
    pub show_path: bool,
    pub show_name: bool,
    pub sorted: bool,
    pub json: bool,
}

/// The list of fonts, laid out.
#[derive(Debug, PartialEq)]
pub enum ListRender {
    Lines(Vec<String>),
    Json(String),
}

/// What a command prints.
#[derive(Debug, Clone, Copy, PartialEq, Eq, Structural)]
pub struct OutputOptions {
    pub quiet: bool,
    pub verbose: bool,
}

impl OutputOptions {
    /// Routine messages are printed unless quiet.
    pub fn should_print(&self) -> (print: bool)
        ensures
            print == !self.quiet,
    {
        !self.quiet
    }

    /// Verbose messages are printed when verbose and not quiet.
    pub fn should_print_verbose(&self) -> (print: bool)
        ensures
            print == (self.verbose && !self.quiet),
    {
        self.verbose && !self.quiet
    }
}

/// What the commands that change something share.
#[derive(Debug, Clone, Copy, PartialEq, Eq, Structural)]
pub struct OperationOptions {
    pub dry_run: bool,
    pub output: OutputOptions,
}

impl OperationOptions {
    /// The options for the given flags.
    pub fn new(dry_run: bool, quiet: bool, verbose: bool) -> (options: Self)
        ensures
            options == (OperationOptions { dry_run, output: OutputOptions { quiet, verbose } }),
    {
        OperationOptions { dry_run, output: OutputOptions { quiet, verbose } }
    }
}

/// The scope that a command works on: the system's with `admin`, else the user's.
pub fn scope_for(admin: bool) -> (scope: FontScope)
    ensures
        scope == if admin {
            FontScope::System
        } else {
            FontScope::User
        },
{
    if admin {
        FontScope::System
    } else {
        FontScope::User
    }
}

/// The other scope.
pub open spec fn other_scope(scope: FontScope) -> FontScope {
    match scope {
        FontScope::User => FontScope::System,
        FontScope::System => FontScope::User,
    }
}

/// The order in which the scopes are tried: the preferred one, then the other.
pub fn scope_order(preferred: FontScope) -> (order: [FontScope; 2])
    ensures
        order@ == seq![preferred, other_scope(preferred)],
{
    let order = match preferred {
        FontScope::User => [FontScope::User, FontScope::System],
        FontScope::System => [FontScope::System, FontScope::User],
    };
    assert(order@ =~= seq![preferred, other_scope(preferred)]);
    order
}

/// The order of the scopes in words, joined by `then`.
pub fn describe_scope_chain(preferred: FontScope) -> (chain: String)
    ensures
        chain@ == preferred.description_text() + " then "@ + other_scope(
            preferred,
        ).description_text(),
{
    let order = scope_order(preferred);
    assert(order@[0] == preferred && order@[1] == other_scope(preferred));
    let mut chain = String::from_str(order[0].description());
    chain.append(" then ");
    chain.append(order[1].description());
    chain
}

/// What uninstalling across the scopes comes to, given how the attempt in
/// the preferred scope ended and, where it failed and the other scope was
/// tried, how that ended: the first scope that worked, else the last error.
pub open spec fn settled(
    preferred: FontScope,
    first: Result<(), FontError>,
    second: Option<Result<(), FontError>>,
) -> Result<FontScope, FontError> {
    match first {
        Ok(()) => Ok(preferred),
        Err(e1) => match second {
            None => Err(e1),
            Some(Ok(())) => Ok(other_scope(preferred)),
            Some(Err(e2)) => Err(e2),
        },
    }
}

/// What uninstalling across the scopes comes to, given how the attempts ended.
pub fn settle_uninstall(
    preferred: FontScope,
    first: Result<(), FontError>,
    second: Option<Result<(), FontError>>,
) -> (res: Result<FontScope, FontError>)
    ensures
        res == settled(preferred, first, second),
{
    let order = scope_order(preferred);
    assert(order@[0] == preferred && order@[1] == other_scope(preferred));
    match first {
        Ok(()) => Ok(order[0]),
        Err(e1) => match second {
            None => Err(e1),
            Some(Ok(())) => Ok(order[1]),
            Some(Err(e2)) => Err(e2),
        },
    }
}

/// Uninstalls the font at `path`, in the preferred scope or, where that
/// fails, in the other one, and says in which scope it worked. The manager
/// decides whether an attempt works; the other scope is tried exactly when
/// the preferred one fails, and the result is what [`settled`] makes of the
/// attempts.
pub fn uninstall_across_scopes<M: FontManager>(manager: &M, path: &str, preferred_scope: FontScope) -> (res:
    Result<FontScope, FontError>)
    ensures
        exists|first: Result<(), FontError>, second: Option<Result<(), FontError>>|
            (second is Some <==> first is Err) && res == #[trigger] settled(
                preferred_scope,
                first,
                second,
            ),
{
    let order = scope_order(preferred_scope);
    assert(order@[0] == preferred_scope && order@[1] == other_scope(preferred_scope));
    let source = FontliftFontSource::new(String::from_str(path)).with_scope(Some(order[0]));
    let first = manager.uninstall_font(&source);
    let second = if first.is_err() {
        let other = FontliftFontSource::new(String::from_str(path)).with_scope(Some(order[1]));
        Some(manager.uninstall_font(&other))
    } else {
        None
    };
    let res = settle_uninstall(preferred_scope, first, second);
    assert(res == settled(preferred_scope, first, second));
    res
}

/// Which parts of a cleanup run: pruning unless only the caches are asked
/// for, cache clearing unless only pruning is.
pub fn cleanup_parts(prune_only: bool, cache_only: bool) -> (parts: (bool, bool))
    ensures
        parts == (!cache_only, !prune_only),
{
    (!cache_only, !prune_only)
}

/// The line that lists a font: its path and its PostScript name joined by
/// `::` where both are asked for, its name where only names are, else its
/// path.
pub open spec fn line_of(font: FontFaceView, opts: ListRenderOptions) -> Seq<char> {
    if opts.show_name {
        if opts.show_path {
            font.source.path + "::"@ + font.postscript_name
        } else {
            font.postscript_name
        }
    } else {
        font.source.path
    }
}

/// The fonts that are listed: without duplicates where the list is sorted
/// or rendered as JSON, else all of them.
pub open spec fn listed_fonts(fonts: Seq<FontFaceView>, opts: ListRenderOptions) -> Seq<
    FontFaceView,
> {
    if opts.sorted || opts.json {
        without_repeats(in_order(fonts))
    } else {
        fonts
    }
}

/// The list of fonts as lines: one line per listed font, the lines in the
/// order of strings, and without repeated lines where only paths are shown
/// or the list is sorted.
pub open spec fn rendered_lines(fonts: Seq<FontFaceView>, opts: ListRenderOptions) -> Seq<
    Seq<char>,
> {
    let lines = text::texts_in_order(
        listed_fonts(fonts, opts).map_values(|f: FontFaceView| line_of(f, opts)),
    );
    if (opts.show_path && !opts.show_name) || opts.sorted {
        text::without_equal_neighbours(lines)
    } else {
        lines
    }
}

/// The line that lists a font, as characters.
pub fn font_line(font: &FontliftFontFaceInfo, opts: ListRenderOptions) -> (line: Vec<char>)
    ensures
        line@ == line_of(font@, opts),
{
    if opts.show_name {
        if opts.show_path {
            let mut joined = font.source.path.clone();
            joined.append("::");
            joined.append(font.postscript_name.as_str());
            text::chars_of(joined.as_str())
        } else {
            text::chars_of(font.postscript_name.as_str())
        }
    } else {
        text::chars_of(font.source.path.as_str())
    }
}

/// The list of fonts as lines.
pub fn render_lines(fonts: &Vec<FontliftFontFaceInfo>, opts: ListRenderOptions) -> (lines: Vec<
    String,
>)
    ensures
        texts_view(lines@) == {
            let sorted = text::texts_in_order(
                faces_view(fonts@).map_values(|f: FontFaceView| line_of(f, opts)),
            );
            if (opts.show_path && !opts.show_name) || opts.sorted {
                text::without_equal_neighbours(sorted)
            } else {
                sorted
            }
        },
{
    let ghost wanted = faces_view(fonts@).map_values(|f: FontFaceView| line_of(f, opts));
    let mut raw: Vec<Vec<char>> = Vec::new();
    let mut i: usize = 0;
    while i < fonts.len()
        invariant
            i <= fonts.len(),
            raw.len() == i,
            forall|k: int| 0 <= k < i ==> (#[trigger] raw@[k])@ == line_of(fonts@[k]@, opts),
        decreases fonts.len() - i,
    {
        raw.push(font_line(&fonts[i], opts));
        i += 1;
    }
    assert(chars_view(raw@) =~= wanted);
    let sorted = text::sort_texts(raw);
    let shown = if (opts.show_path && !opts.show_name) || opts.sorted {
        text::drop_equal_neighbours(sorted)
    } else {
        sorted
    };
    let mut lines: Vec<String> = Vec::new();
    let mut k: usize = 0;
    while k < shown.len()
        invariant
            k <= shown.len(),
            lines.len() == k,
            forall|m: int| 0 <= m < k ==> (#[trigger] lines@[m])@ == shown@[m]@,
        decreases shown.len() - k,
    {
        lines.push(text::string_of(&shown[k]));
        k += 1;
    }
    assert(texts_view(lines@) =~= chars_view(shown@));
    lines
}

/// What rendering as JSON comes to, given how writing the fonts out ended:
/// the text, or an `InvalidFormat` error with the cause.
pub open spec fn json_rendered(written: Result<String, String>, res: Result<ListRender, FontError>) -> bool {
    match written {
        Ok(json) => res == Ok::<ListRender, FontError>(ListRender::Json(json)),
        Err(cause) => res is Err && res->Err_0@ == FontErrorView::InvalidFormat(
            "Failed to serialize font list to JSON: "@ + cause@,
        ),
    }
}

/// What rendering as JSON comes to, given how writing the fonts out ended.
pub fn json_render(written: Result<String, String>) -> (res: Result<ListRender, FontError>)
    ensures
        json_rendered(written, res),
{
    match written {
        Ok(json) => Ok(ListRender::Json(json)),
        Err(cause) => {
            let mut words = String::from_str("Failed to serialize font list to JSON: ");
            words.append(cause.as_str());
            Err(FontError::InvalidFormat(words))
        },
    }
}

/// Lays the list of fonts out. Duplicate fonts are dropped first where the
/// list is sorted or rendered as JSON. JSON is written by `to_json`, which
/// gets the fonts that are listed; lines are always sorted, and repeated
/// lines are dropped where only paths are shown or the list is sorted.
pub fn render_list_output<F: Fn(&Vec<FontliftFontFaceInfo>) -> Result<String, String>>(
    fonts: Vec<FontliftFontFaceInfo>,
    opts: ListRenderOptions,
    to_json: F,
) -> (res: Result<ListRender, FontError>)
    requires
        forall|listed: &Vec<FontliftFontFaceInfo>| call_requires(to_json, (listed,)),
    ensures
        !opts.json ==> (res matches Ok(ListRender::Lines(lines)) && texts_view(lines@)
            == rendered_lines(faces_view(fonts@), opts)),
        opts.json ==> exists|listed: Vec<FontliftFontFaceInfo>, written: Result<String, String>|
            faces_view(listed@) == listed_fonts(faces_view(fonts@), opts) && #[trigger] call_ensures(
                to_json,
                (&listed,),
                written,
            ) && json_rendered(written, res),
{
    let listed = if opts.sorted || opts.json {
        dedupe_fonts(fonts)
    } else {
        fonts
    };
    if opts.json {
        let written = to_json(&listed);
        let res = json_render(written);
        assert(call_ensures(to_json, (&listed,), written) && json_rendered(written, res));
        return res;
    }
    Ok(ListRender::Lines(render_lines(&listed, opts)))
}

} // verus!
