//! Guarding system fonts, and telling when two records are the same font.

use vstd::prelude::*;
use crate::text;
use crate::{FontFaceView, FontliftFontFaceInfo};

verus! {

/// `path` made comparable across platforms: backslashes become slashes, the
/// text is put into lower case, runs of slashes become one slash.
pub open spec fn normalized(path: Seq<char>) -> Seq<char> {
    text::squeezed(text::lowercase_of(text::with_replaced(path, '\\', '/')), '/')
}

/// Whether a normalized path lies in one of the system font directories of
/// macOS or Windows.
pub open spec fn in_system_font_directory(normal: Seq<char>) -> bool {
    text::begins_with(normal, "/system/library/fonts/"@) || text::begins_with(
        normal,
        "/library/fonts/"@,
    ) || text::begins_with(normal, "c:/windows/fonts/"@)
}

/// The characters of the normalized path.
pub fn normalized_chars(path: &str) -> (normal: Vec<char>)
    ensures
        normal@ == normalized(path@),
{
    let chars = text::chars_of(path);
    let slashed = text::replace_char(&chars, '\\', '/');
    let slashed_text = text::string_of(&slashed);
    let lower = text::lowercase(slashed_text.as_str());
    let lower_chars = text::chars_of(lower.as_str());
    text::squeeze(&lower_chars, '/')
}

/// The path made comparable across platforms.
pub fn normalize(path: &str) -> (normal: String)
    ensures
        normal@ == normalized(path@),
{
    let chars = normalized_chars(path);
    text::string_of(&chars)
}

/// The normalized path, for comparing paths outside this module.
pub fn normalize_for_tests(path: &str) -> (normal: String)
    ensures
        normal@ == normalized(path@),
{
    normalize(path)
}

/// Whether the path points into a protected system font directory.
pub fn is_protected_system_font_path(path: &str) -> (protected: bool)
    ensures
        protected == in_system_font_directory(normalized(path@)),
{
    let normal = normalized_chars(path);
    text::starts_with(&normal, "/system/library/fonts/") || text::starts_with(
        &normal,
        "/library/fonts/",
    ) || text::starts_with(&normal, "c:/windows/fonts/")
}

/// The values of a sequence of font records.
pub open spec fn faces_view(fonts: Seq<FontliftFontFaceInfo>) -> Seq<FontFaceView> {
    fonts.map_values(|f: FontliftFontFaceInfo| f@)
}

/// What fonts are ordered by: the PostScript name in lower case, then the
/// normalized path.
pub open spec fn sort_key(font: FontFaceView) -> (Seq<char>, Seq<char>) {
    (text::lowercase_of(font.postscript_name), normalized(font.source.path))
}

/// Whether the key `a` is at most the key `b`: names first, then paths.
pub open spec fn key_le(a: (Seq<char>, Seq<char>), b: (Seq<char>, Seq<char>)) -> bool {
    text::precedes(a.0, b.0) || (a.0 == b.0 && !text::precedes(b.1, a.1))
}

/// Whether `fonts` is in the order of the keys.
pub open spec fn in_key_order(fonts: Seq<FontFaceView>) -> bool {
    forall|i: int, j: int|
        0 <= i < j < fonts.len() ==> key_le(sort_key(#[trigger] fonts[i]), sort_key(#[trigger] fonts[j]))
}

/// `sorted` with `font` put behind the last record whose key is at most its own.
pub open spec fn inserted_in_order(sorted: Seq<FontFaceView>, font: FontFaceView) -> Seq<
    FontFaceView,
>
    decreases sorted.len(),
{
    if sorted.len() == 0 {
        seq![font]
    } else if key_le(sort_key(sorted.last()), sort_key(font)) {
        sorted.push(font)
    } else {
        inserted_in_order(sorted.drop_last(), font).push(sorted.last())
    }
}

/// `fonts` in the order of the keys; records with equal keys keep the order
/// in which they came.
pub open spec fn in_order(fonts: Seq<FontFaceView>) -> Seq<FontFaceView>
    decreases fonts.len(),
{
    if fonts.len() == 0 {
        Seq::empty()
    } else {
        inserted_in_order(in_order(fonts.drop_last()), fonts.last())
    }
}

/// Whether two records are the same font: the PostScript names are equal but
/// for the case of ASCII letters, and the normalized paths are equal.
pub open spec fn same_font(a: FontFaceView, b: FontFaceView) -> bool {
    text::same_ignoring_ascii_case(a.postscript_name, b.postscript_name) && normalized(
        a.source.path,
    ) == normalized(b.source.path)
}

/// `fonts` without the records that are the same font as the record kept
/// before them.
pub open spec fn without_repeats(fonts: Seq<FontFaceView>) -> Seq<FontFaceView>
    decreases fonts.len(),
{
    if fonts.len() == 0 {
        Seq::empty()
    } else {
        let kept = without_repeats(fonts.drop_last());
        if kept.len() > 0 && same_font(fonts.last(), kept.last()) {
            kept
        } else {
            kept.push(fonts.last())
        }
    }
}

/// The order of the keys is total and transitive.
pub proof fn lemma_key_order(
    a: (Seq<char>, Seq<char>),
    b: (Seq<char>, Seq<char>),
    c: (Seq<char>, Seq<char>),
)
    ensures
        key_le(a, b) || key_le(b, a),
        key_le(a, b) && key_le(b, c) ==> key_le(a, c),
        key_le(a, a),
{
    text::lemma_precedes_total(a.0, b.0);
    text::lemma_precedes_total(a.1, b.1);
    text::lemma_precedes_total(b.0, c.0);
    text::lemma_precedes_total(a.0, c.0);
    text::lemma_precedes_irreflexive(a.0);
    text::lemma_precedes_irreflexive(a.1);
    if key_le(a, b) && key_le(b, c) {
        if text::precedes(a.0, b.0) && text::precedes(b.0, c.0) {
            text::lemma_precedes_transitive(a.0, b.0, c.0);
        }
        if a.0 == b.0 && b.0 == c.0 {
            text::lemma_precedes_total(a.1, c.1);
            text::lemma_precedes_total(b.1, c.1);
            if text::precedes(c.1, a.1) {
                text::lemma_precedes_total(a.1, b.1);
                if a.1 != b.1 {
                    text::lemma_precedes_transitive(c.1, a.1, b.1);
                }
            }
        }
    }
}

/// Putting a record into records that are in order leaves them in order,
/// with one record more and the same records otherwise.
pub proof fn lemma_inserted_in_order(sorted: Seq<FontFaceView>, font: FontFaceView)
    requires
        in_key_order(sorted),
    ensures
        in_key_order(inserted_in_order(sorted, font)),
        inserted_in_order(sorted, font).len() == sorted.len() + 1,
        inserted_in_order(sorted, font).to_multiset() == sorted.to_multiset().insert(font),
    decreases sorted.len(),
{
    broadcast use vstd::seq_lib::group_to_multiset_ensures;

    let result = inserted_in_order(sorted, font);
    if sorted.len() == 0 {
        assert(sorted =~= Seq::<FontFaceView>::empty());
        assert(result =~= sorted.push(font));
    } else if key_le(sort_key(sorted.last()), sort_key(font)) {
        assert forall|i: int, j: int| 0 <= i < j < result.len() implies key_le(
            sort_key(#[trigger] result[i]),
            sort_key(#[trigger] result[j]),
        ) by {
            if j == sorted.len() {
                if i < sorted.len() - 1 {
                    assert(key_le(sort_key(sorted[i]), sort_key(sorted[sorted.len() - 1])));
                    lemma_key_order(sort_key(sorted[i]), sort_key(sorted.last()), sort_key(font));
                }
            } else {
                assert(key_le(sort_key(sorted[i]), sort_key(sorted[j])));
            }
        }
    } else {
        let front = sorted.drop_last();
        let last = sorted.last();
        assert forall|i: int, j: int| 0 <= i < j < front.len() implies key_le(
            sort_key(#[trigger] front[i]),
            sort_key(#[trigger] front[j]),
        ) by {
            assert(key_le(sort_key(sorted[i]), sort_key(sorted[j])));
        }
        lemma_inserted_in_order(front, font);
        let inner = inserted_in_order(front, font);
        assert(result == inner.push(last));
        assert(sorted =~= front.push(last));
        assert(result.to_multiset() =~= sorted.to_multiset().insert(font));
        lemma_key_order(sort_key(font), sort_key(last), sort_key(last));
        assert(key_le(sort_key(font), sort_key(last)));
        assert forall|i: int, j: int| 0 <= i < j < result.len() implies key_le(
            sort_key(#[trigger] result[i]),
            sort_key(#[trigger] result[j]),
        ) by {
            if j == inner.len() {
                // Everything in `inner` is the new record or a record of `front`.
                assert(inner.to_multiset().count(inner[i]) > 0);
                if inner[i] != font {
                    assert(front.to_multiset().count(inner[i]) > 0);
                    assert(front.contains(inner[i]));
                    let k = choose|k: int| 0 <= k < front.len() && front[k] == inner[i];
                    assert(key_le(sort_key(sorted[k]), sort_key(sorted[sorted.len() - 1])));
                }
            } else {
                assert(key_le(sort_key(inner[i]), sort_key(inner[j])));
            }
        }
    }
}

/// Ordering keeps every record, as often as it occurs, and puts the records
/// in the order of their keys.
pub proof fn lemma_in_order_is_sorted(fonts: Seq<FontFaceView>)
    ensures
        in_key_order(in_order(fonts)),
        in_order(fonts).len() == fonts.len(),
        in_order(fonts).to_multiset() == fonts.to_multiset(),
    decreases fonts.len(),
{
    broadcast use vstd::seq_lib::group_to_multiset_ensures;

    if fonts.len() == 0 {
        assert(fonts =~= Seq::<FontFaceView>::empty());
    } else {
        lemma_in_order_is_sorted(fonts.drop_last());
        lemma_inserted_in_order(in_order(fonts.drop_last()), fonts.last());
        assert(fonts =~= fonts.drop_last().push(fonts.last()));
    }
}

/// Dropping repeats keeps the first record, keeps no more records than
/// there were, and leaves no record next to one that is the same font.
pub proof fn lemma_without_repeats(fonts: Seq<FontFaceView>)
    ensures
        without_repeats(fonts).len() <= fonts.len(),
        fonts.len() > 0 ==> without_repeats(fonts).len() > 0 && without_repeats(fonts)[0]
            == fonts[0],
        forall|k: int|
            0 < k < without_repeats(fonts).len() ==> !same_font(
                #[trigger] without_repeats(fonts)[k],
                without_repeats(fonts)[k - 1],
            ),
    decreases fonts.len(),
{
    if fonts.len() > 0 {
        lemma_without_repeats(fonts.drop_last());
        let kept = without_repeats(fonts.drop_last());
        if fonts.len() == 1 {
            assert(fonts.drop_last() =~= Seq::<FontFaceView>::empty());
        } else {
            assert(fonts.drop_last()[0] == fonts[0]);
        }
    }
}

/// The fonts without duplicates, in a fixed order: sorted by PostScript name
/// in lower case and then by normalized path, and of records that follow
/// each other and are the same font only the first.
pub fn dedupe_fonts(fonts: Vec<FontliftFontFaceInfo>) -> (unique: Vec<FontliftFontFaceInfo>)
    ensures
        faces_view(unique@) == without_repeats(in_order(faces_view(fonts@))),
{
    let mut fonts = fonts;
    let ghost all = faces_view(fonts@);
    let mut sorted: Vec<FontliftFontFaceInfo> = Vec::new();
    // The keys of `sorted`, record by record: name in lower case, normalized path.
    let mut names: Vec<Vec<char>> = Vec::new();
    let mut paths: Vec<Vec<char>> = Vec::new();
    let ghost mut done: int = 0;
    assert(all.take(0) =~= Seq::<FontFaceView>::empty());
    assert(faces_view(sorted@) =~= in_order(all.take(0)));
    while fonts.len() > 0
        invariant
            0 <= done <= all.len(),
            faces_view(fonts@) == all.skip(done),
            faces_view(sorted@) == in_order(all.take(done)),
            names.len() == sorted.len(),
            paths.len() == sorted.len(),
            forall|k: int| 0 <= k < sorted.len() ==> (#[trigger] names@[k])@ == sort_key(sorted@[k]@).0,
            forall|k: int| 0 <= k < sorted.len() ==> (#[trigger] paths@[k])@ == sort_key(sorted@[k]@).1,
        decreases fonts.len(),
    {
        let ghost rest = faces_view(fonts@);
        let ghost first = fonts@[0];
        assert(rest[0] == first@);
        assert(rest.len() == fonts.len());
        assert(all.skip(done).len() == all.len() - done);
        assert(rest[0] == all.skip(done)[0]);
        assert(rest[0] == all[done]);
        let font = fonts.remove(0);
        assert(faces_view(fonts@) =~= rest.remove(0));
        assert(font@ == all[done]);
        let lower = text::lowercase(font.postscript_name.as_str());
        let name = text::chars_of(lower.as_str());
        let path = normalized_chars(font.source.path.as_str());
        let ghost before = faces_view(sorted@);
        let mut at: usize = sorted.len();
        assert(before.take(at as int) =~= before);
        assert(before.skip(at as int) =~= Seq::<FontFaceView>::empty());
        while at > 0 && (text::comes_before(&name, &names[at - 1]) || (text::same_chars(
            &name,
            &names[at - 1],
        ) && text::comes_before(&path, &paths[at - 1])))
            invariant
                at <= sorted.len(),
                before == faces_view(sorted@),
                names.len() == sorted.len(),
                paths.len() == sorted.len(),
                name@ == sort_key(font@).0,
                path@ == sort_key(font@).1,
                forall|k: int|
                    0 <= k < sorted.len() ==> (#[trigger] names@[k])@ == sort_key(sorted@[k]@).0,
                forall|k: int|
                    0 <= k < sorted.len() ==> (#[trigger] paths@[k])@ == sort_key(sorted@[k]@).1,
                inserted_in_order(before, font@) == inserted_in_order(
                    before.take(at as int),
                    font@,
                ) + before.skip(at as int),
            decreases at,
        {
            let ghost front = before.take(at as int);
            proof {
                assert(front.last() == sorted@[at - 1]@);
                text::lemma_precedes_total(name@, names@[at - 1]@);
                assert(!key_le(sort_key(front.last()), sort_key(font@)));
                assert(front.drop_last() =~= before.take(at - 1));
                assert(inserted_in_order(front.drop_last(), font@).push(front.last())
                    + before.skip(at as int) =~= inserted_in_order(before.take(at - 1), font@)
                    + before.skip(at - 1));
            }
            at -= 1;
        }
        proof {
            let front = before.take(at as int);
            if at > 0 {
                assert(front.last() == sorted@[at - 1]@);
                text::lemma_precedes_total(name@, names@[at - 1]@);
                assert(key_le(sort_key(front.last()), sort_key(font@)));
            }
            assert(inserted_in_order(front, font@) =~= front.push(font@));
            assert(front.push(font@) + before.skip(at as int) =~= before.insert(
                at as int,
                font@,
            ));
            assert(all.take(done + 1).drop_last() =~= all.take(done));
            assert(all.take(done + 1).last() == font@);
            assert(all.skip(done).remove(0) =~= all.skip(done + 1));
        }
        let ghost old_sorted = sorted@;
        let ghost old_names = names@;
        let ghost old_paths = paths@;
        sorted.insert(at, font);
        names.insert(at, name);
        paths.insert(at, path);
        assert(faces_view(sorted@) =~= before.insert(at as int, font@));
        assert forall|k: int| 0 <= k < sorted.len() implies (#[trigger] names@[k])@ == sort_key(
            sorted@[k]@,
        ).0 by {
            if k < at {
                assert(names@[k] == old_names[k] && sorted@[k] == old_sorted[k]);
            } else if k > at {
                assert(names@[k] == old_names[k - 1] && sorted@[k] == old_sorted[k - 1]);
            }
        }
        assert forall|k: int| 0 <= k < sorted.len() implies (#[trigger] paths@[k])@ == sort_key(
            sorted@[k]@,
        ).1 by {
            if k < at {
                assert(paths@[k] == old_paths[k] && sorted@[k] == old_sorted[k]);
            } else if k > at {
                assert(paths@[k] == old_paths[k - 1] && sorted@[k] == old_sorted[k - 1]);
            }
        }
        proof {
            done = done + 1;
        }
    }
    assert(all.take(done) =~= all);
    let ghost ordered = faces_view(sorted@);
    let mut unique: Vec<FontliftFontFaceInfo> = Vec::new();
    let mut last_path: Vec<char> = Vec::new();
    let ghost mut seen: int = 0;
    assert(ordered.take(0) =~= Seq::<FontFaceView>::empty());
    assert(faces_view(unique@) =~= without_repeats(ordered.take(0)));
    while sorted.len() > 0
        invariant
            0 <= seen <= ordered.len(),
            faces_view(sorted@) == ordered.skip(seen),
            paths.len() == sorted.len(),
            forall|k: int|
                0 <= k < sorted.len() ==> (#[trigger] paths@[k])@ == normalized(
                    sorted@[k]@.source.path,
                ),
            faces_view(unique@) == without_repeats(ordered.take(seen)),
            unique.len() > 0 ==> last_path@ == normalized(unique@[unique.len() - 1]@.source.path),
        decreases sorted.len(),
    {
        let ghost rest = faces_view(sorted@);
        let ghost kept = faces_view(unique@);
        let ghost old_sorted = sorted@;
        let ghost old_paths = paths@;
        assert(rest[0] == old_sorted[0]@);
        assert(rest.len() == sorted.len());
        assert(ordered.skip(seen).len() == ordered.len() - seen);
        assert(rest[0] == ordered.skip(seen)[0]);
        assert(rest[0] == ordered[seen]);
        assert(old_paths[0]@ == normalized(old_sorted[0]@.source.path));
        let font = sorted.remove(0);
        let path = paths.remove(0);
        assert forall|k: int| 0 <= k < sorted.len() implies (#[trigger] paths@[k])@ == normalized(
            sorted@[k]@.source.path,
        ) by {
            assert(paths@[k] == old_paths[k + 1] && sorted@[k] == old_sorted[k + 1]);
        }
        proof {
            assert(faces_view(sorted@) =~= rest.remove(0));
            assert(font@ == ordered[seen]);
            assert(ordered.take(seen + 1).drop_last() =~= ordered.take(seen));
            assert(ordered.take(seen + 1).last() == font@);
            assert(ordered.skip(seen).remove(0) =~= ordered.skip(seen + 1));
            if unique.len() > 0 {
                assert(kept.last() == unique@[unique.len() - 1]@);
            }
        }
        let repeat = unique.len() > 0 && text::eq_ignore_ascii_case(
            font.postscript_name.as_str(),
            unique[unique.len() - 1].postscript_name.as_str(),
        ) && text::same_chars(&path, &last_path);
        if !repeat {
            unique.push(font);
            last_path = path;
            assert(faces_view(unique@) =~= kept.push(font@));
        }
        proof {
            seen = seen + 1;
        }
    }
    assert(ordered.take(seen) =~= ordered);
    unique
}

} // verus!
