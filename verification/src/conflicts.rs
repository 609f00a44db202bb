//! Telling which installed fonts stand in the way of a font that is about to
//! be installed.

use vstd::prelude::*;
use crate::protection::{faces_view, normalized, normalized_chars};
use crate::text;
use crate::text::chars_view;
use crate::{FontFaceView, FontliftFontFaceInfo};

verus! {

/// Whether an installed font conflicts with the candidate: the normalized
/// paths are equal, or the PostScript names are, or both family and style
/// are, names being compared with the candidate's in lower case and without
/// regard to the case of ASCII letters.
pub open spec fn conflicts_with(font: FontFaceView, candidate: FontFaceView) -> bool {
    ||| normalized(font.source.path) == normalized(candidate.source.path)
    ||| text::same_ignoring_ascii_case(
        font.postscript_name,
        text::lowercase_of(candidate.postscript_name),
    )
    ||| (text::same_ignoring_ascii_case(font.family_name, text::lowercase_of(candidate.family_name))
        && text::same_ignoring_ascii_case(font.style, text::lowercase_of(candidate.style)))
}

/// Whether the installed font at position `i` is reported: it conflicts with
/// the candidate, and no conflicting font before it has its normalized path.
pub open spec fn is_reported(installed: Seq<FontFaceView>, candidate: FontFaceView, i: int) -> bool {
    &&& conflicts_with(installed[i], candidate)
    &&& forall|j: int|
        0 <= j < i && conflicts_with(#[trigger] installed[j], candidate) ==> normalized(
            installed[j].source.path,
        ) != normalized(installed[i].source.path)
}

/// The reported fonts among the first `n` installed ones, in their order.
pub open spec fn conflicts_among(
    installed: Seq<FontFaceView>,
    candidate: FontFaceView,
    n: nat,
) -> Seq<FontFaceView>
    decreases n,
{
    if n == 0 {
        Seq::empty()
    } else {
        let before = conflicts_among(installed, candidate, (n - 1) as nat);
        if is_reported(installed, candidate, n - 1) {
            before.push(installed[n - 1])
        } else {
            before
        }
    }
}

/// Every reported font conflicts with the candidate, and no two of them have
/// the same normalized path.
pub proof fn lemma_conflicts_are_distinct(
    installed: Seq<FontFaceView>,
    candidate: FontFaceView,
    i: int,
    j: int,
)
    requires
        0 <= i < j < installed.len(),
        is_reported(installed, candidate, i),
        is_reported(installed, candidate, j),
    ensures
        conflicts_with(installed[i], candidate),
        conflicts_with(installed[j], candidate),
        normalized(installed[i].source.path) != normalized(installed[j].source.path),
{
}

/// Whether `font` conflicts with the candidate whose normalized path and
/// names in lower case are given.
fn conflicts(
    font: &FontliftFontFaceInfo,
    font_path: &Vec<char>,
    candidate: &FontliftFontFaceInfo,
    candidate_path: &Vec<char>,
    candidate_post: &str,
    candidate_family: &str,
    candidate_style: &str,
) -> (conflict: bool)
    requires
        font_path@ == normalized(font@.source.path),
        candidate_path@ == normalized(candidate@.source.path),
        candidate_post@ == text::lowercase_of(candidate@.postscript_name),
        candidate_family@ == text::lowercase_of(candidate@.family_name),
        candidate_style@ == text::lowercase_of(candidate@.style),
    ensures
        conflict == conflicts_with(font@, candidate@),
{
    let same_path = text::same_chars(font_path, candidate_path);
    let same_post = text::eq_ignore_ascii_case(font.postscript_name.as_str(), candidate_post);
    let same_family_style = text::eq_ignore_ascii_case(
        font.family_name.as_str(),
        candidate_family,
    ) && text::eq_ignore_ascii_case(font.style.as_str(), candidate_style);
    same_path || same_post || same_family_style
}

/// Whether `seen` holds exactly the normalized paths of the fonts among the
/// first `n` installed ones that conflict with the candidate.
pub open spec fn seen_matches(
    seen: Seq<Seq<char>>,
    installed: Seq<FontFaceView>,
    candidate: FontFaceView,
    n: int,
) -> bool {
    forall|path: Seq<char>| #[trigger]
        seen.contains(path) <==> exists|j: int|
            0 <= j < n && conflicts_with(#[trigger] installed[j], candidate) && normalized(
                installed[j].source.path,
            ) == path
}

/// One more installed font: it is reported exactly when it conflicts and its
/// normalized path has not been seen, and its path is then seen.
pub proof fn lemma_seen_step(
    seen: Seq<Seq<char>>,
    installed: Seq<FontFaceView>,
    candidate: FontFaceView,
    n: int,
)
    requires
        0 <= n < installed.len(),
        seen_matches(seen, installed, candidate, n),
    ensures
        is_reported(installed, candidate, n) <==> (conflicts_with(installed[n], candidate)
            && !seen.contains(normalized(installed[n].source.path))),
        conflicts_with(installed[n], candidate) && !seen.contains(
            normalized(installed[n].source.path),
        ) ==> seen_matches(
            seen.push(normalized(installed[n].source.path)),
            installed,
            candidate,
            n + 1,
        ),
        !(conflicts_with(installed[n], candidate) && !seen.contains(
            normalized(installed[n].source.path),
        )) ==> seen_matches(seen, installed, candidate, n + 1),
{
    let here = normalized(installed[n].source.path);
    if conflicts_with(installed[n], candidate) {
        if seen.contains(here) {
            let j = choose|j: int|
                0 <= j < n && conflicts_with(#[trigger] installed[j], candidate) && normalized(
                    installed[j].source.path,
                ) == here;
            assert(!is_reported(installed, candidate, n));
            assert forall|path: Seq<char>| #[trigger]
                seen.contains(path) <==> exists|j: int|
                    0 <= j < n + 1 && conflicts_with(#[trigger] installed[j], candidate)
                        && normalized(installed[j].source.path) == path by {
                if seen.contains(path) {
                    let k = choose|k: int|
                        0 <= k < n && conflicts_with(#[trigger] installed[k], candidate)
                            && normalized(installed[k].source.path) == path;
                    assert(0 <= k < n + 1 && conflicts_with(installed[k], candidate)
                        && normalized(installed[k].source.path) == path);
                }
                if exists|k: int|
                    0 <= k < n + 1 && conflicts_with(#[trigger] installed[k], candidate)
                        && normalized(installed[k].source.path) == path {
                    let k = choose|k: int|
                        0 <= k < n + 1 && conflicts_with(#[trigger] installed[k], candidate)
                            && normalized(installed[k].source.path) == path;
                    if k == n {
                        assert(path == here);
                    } else {
                        assert(0 <= k < n && conflicts_with(installed[k], candidate)
                            && normalized(installed[k].source.path) == path);
                    }
                }
            }
        } else {
            assert forall|j: int|
                0 <= j < n && conflicts_with(#[trigger] installed[j], candidate) implies normalized(
                installed[j].source.path,
            ) != here by {
                if normalized(installed[j].source.path) == here {
                    assert(seen.contains(here));
                }
            }
            let longer = seen.push(here);
            assert forall|path: Seq<char>| #[trigger]
                longer.contains(path) <==> exists|j: int|
                    0 <= j < n + 1 && conflicts_with(#[trigger] installed[j], candidate)
                        && normalized(installed[j].source.path) == path by {
                if longer.contains(path) {
                    let m = choose|m: int| 0 <= m < longer.len() && longer[m] == path;
                    if m < seen.len() {
                        assert(seen[m] == path);
                        assert(seen.contains(path));
                        let k = choose|k: int|
                            0 <= k < n && conflicts_with(#[trigger] installed[k], candidate)
                                && normalized(installed[k].source.path) == path;
                        assert(0 <= k < n + 1 && conflicts_with(installed[k], candidate)
                            && normalized(installed[k].source.path) == path);
                    } else {
                        assert(0 <= n < n + 1 && conflicts_with(installed[n], candidate)
                            && normalized(installed[n].source.path) == path);
                    }
                }
                if exists|k: int|
                    0 <= k < n + 1 && conflicts_with(#[trigger] installed[k], candidate)
                        && normalized(installed[k].source.path) == path {
                    let k = choose|k: int|
                        0 <= k < n + 1 && conflicts_with(#[trigger] installed[k], candidate)
                            && normalized(installed[k].source.path) == path;
                    if k == n {
                        assert(longer[seen.len() as int] == path);
                    } else {
                        assert(0 <= k < n && conflicts_with(installed[k], candidate)
                            && normalized(installed[k].source.path) == path);
                        assert(seen.contains(path));
                        let m = choose|m: int| 0 <= m < seen.len() && seen[m] == path;
                        assert(longer[m] == path);
                    }
                }
            }
        }
    } else {
        assert forall|path: Seq<char>| #[trigger]
            seen.contains(path) <==> exists|j: int|
                0 <= j < n + 1 && conflicts_with(#[trigger] installed[j], candidate) && normalized(
                    installed[j].source.path,
                ) == path by {
            if seen.contains(path) {
                let k = choose|k: int|
                    0 <= k < n && conflicts_with(#[trigger] installed[k], candidate) && normalized(
                        installed[k].source.path,
                    ) == path;
                assert(0 <= k < n + 1 && conflicts_with(installed[k], candidate) && normalized(
                    installed[k].source.path,
                ) == path);
            }
            if exists|k: int|
                0 <= k < n + 1 && conflicts_with(#[trigger] installed[k], candidate) && normalized(
                    installed[k].source.path,
                ) == path {
                let k = choose|k: int|
                    0 <= k < n + 1 && conflicts_with(#[trigger] installed[k], candidate)
                        && normalized(installed[k].source.path) == path;
                assert(0 <= k < n && conflicts_with(installed[k], candidate) && normalized(
                    installed[k].source.path,
                ) == path);
            }
        }
    }
}

/// Whether `list` holds the text `item`.
pub fn holds_text(list: &Vec<Vec<char>>, item: &Vec<char>) -> (holds: bool)
    ensures
        holds == chars_view(list@).contains(item@),
{
    let mut k: usize = 0;
    while k < list.len()
        invariant
            k <= list.len(),
            forall|m: int| 0 <= m < k ==> chars_view(list@)[m] != item@,
        decreases list.len() - k,
    {
        if text::same_chars(&list[k], item) {
            assert(chars_view(list@)[k as int] == item@);
            return true;
        }
        k += 1;
    }
    false
}

/// The installed fonts that have to go or be updated before `candidate` is
/// installed: those that conflict with it by path, PostScript name or family
/// and style, each normalized path once, in the order of `installed`.
pub fn detect_conflicts<'a>(
    installed: &'a Vec<FontliftFontFaceInfo>,
    candidate: &FontliftFontFaceInfo,
) -> (found: Vec<&'a FontliftFontFaceInfo>)
    ensures
        found@.map_values(|f: &FontliftFontFaceInfo| f@) == conflicts_among(
            faces_view(installed@),
            candidate@,
            installed@.len(),
        ),
{
    let candidate_path = normalized_chars(candidate.source.path.as_str());
    let candidate_post = text::lowercase(candidate.postscript_name.as_str());
    let candidate_family = text::lowercase(candidate.family_name.as_str());
    let candidate_style = text::lowercase(candidate.style.as_str());
    let ghost all = faces_view(installed@);
    let mut seen_paths: Vec<Vec<char>> = Vec::new();
    let mut found: Vec<&'a FontliftFontFaceInfo> = Vec::new();
    let mut i: usize = 0;
    assert(found@.map_values(|f: &FontliftFontFaceInfo| f@) =~= conflicts_among(
        all,
        candidate@,
        0,
    ));
    assert(seen_matches(chars_view(seen_paths@), all, candidate@, 0));
    while i < installed.len()
        invariant
            i <= installed.len(),
            all == faces_view(installed@),
            candidate_path@ == normalized(candidate@.source.path),
            candidate_post@ == text::lowercase_of(candidate@.postscript_name),
            candidate_family@ == text::lowercase_of(candidate@.family_name),
            candidate_style@ == text::lowercase_of(candidate@.style),
            found@.map_values(|f: &FontliftFontFaceInfo| f@) == conflicts_among(
                all,
                candidate@,
                i as nat,
            ),
            seen_matches(chars_view(seen_paths@), all, candidate@, i as int),
        decreases installed.len() - i,
    {
        let font = &installed[i];
        assert(all[i as int] == font@);
        let ghost views = found@.map_values(|f: &FontliftFontFaceInfo| f@);
        let ghost seen = chars_view(seen_paths@);
        let path = normalized_chars(font.source.path.as_str());
        proof {
            lemma_seen_step(seen, all, candidate@, i as int);
        }
        let conflict = conflicts(
            font,
            &path,
            candidate,
            &candidate_path,
            candidate_post.as_str(),
            candidate_family.as_str(),
            candidate_style.as_str(),
        );
        if conflict && !holds_text(&seen_paths, &path) {
            seen_paths.push(path);
            found.push(font);
            assert(chars_view(seen_paths@) =~= seen.push(normalized(all[i as int].source.path)));
            assert(found@.map_values(|f: &FontliftFontFaceInfo| f@) =~= views.push(font@));
        }
        i += 1;
    }
    found
}

} // verus!
