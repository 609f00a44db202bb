//! Text as sequences of characters: the helpers the rest of the library builds
//! its string handling on.
//!
//! Strings are taken apart into their characters, worked on as vectors, and
//! put together again, so that what a function does to a text is stated, and
//! proved, character by character.

use vstd::prelude::*;

verus! {

/// Appends one character to `s`.
///
/// Trusted: `String::push` of the standard library, which adds the given
/// character at the end of the string and changes nothing else.
#[verifier::external_body]
pub(crate) fn push_char(s: &mut String, c: char)
    ensures
        final(s)@ == old(s)@.push(c),
{
    s.push(c)
}

/// `text` in lower case, as `str::to_lowercase` gives it (by the Unicode
/// case tables).
pub uninterp spec fn lowercase_of(text: Seq<char>) -> Seq<char>;

/// `text` in upper case, as `str::to_uppercase` gives it (by the Unicode
/// case tables).
pub uninterp spec fn uppercase_of(text: Seq<char>) -> Seq<char>;

/// Whether `c` is white space, as `char::is_whitespace` says (the Unicode
/// property `White_Space`).
pub uninterp spec fn is_white_space(c: char) -> bool;

/// `text` in lower case.
///
/// Trusted: `str::to_lowercase`. The contract only gives the result its name.
#[verifier::external_body]
pub(crate) fn lowercase(text: &str) -> (lower: String)
    ensures
        lower@ == lowercase_of(text@),
{
    text.to_lowercase()
}

/// `text` in upper case.
///
/// Trusted: `str::to_uppercase`. The contract only gives the result its name.
#[verifier::external_body]
pub(crate) fn uppercase(text: &str) -> (upper: String)
    ensures
        upper@ == uppercase_of(text@),
{
    text.to_uppercase()
}

/// Whether `c` is white space.
///
/// Trusted: `char::is_whitespace`. The contract only gives the result its name.
#[verifier::external_body]
pub(crate) fn white_space(c: char) -> (white: bool)
    ensures
        white == is_white_space(c),
{
    c.is_whitespace()
}

/// The characters of `s`, in order.
pub fn chars_of(s: &str) -> (chars: Vec<char>)
    ensures
        chars@ == s@,
{
    let mut chars: Vec<char> = Vec::new();
    for c in it: s.chars()
        invariant
            it.seq() == s@,
            chars@ == s@.take(it.index()),
    {
        chars.push(c);
    }
    chars
}

/// The string made of the characters of `chars` from `from` up to `to`.
pub fn string_of_range(chars: &Vec<char>, from: usize, to: usize) -> (s: String)
    requires
        from <= to <= chars.len(),
    ensures
        s@ == chars@.subrange(from as int, to as int),
{
    let mut s = String::new();
    let mut i: usize = from;
    while i < to
        invariant
            from <= i <= to,
            to <= chars.len(),
            s@ == chars@.subrange(from as int, i as int),
        decreases to - i,
    {
        push_char(&mut s, chars[i]);
        assert(chars@.subrange(from as int, i + 1) =~= chars@.subrange(from as int, i as int).push(
            chars@[i as int],
        ));
        i += 1;
    }
    s
}

/// The string made of `chars`, in order.
pub fn string_of(chars: &Vec<char>) -> (s: String)
    ensures
        s@ == chars@,
{
    let s = string_of_range(chars, 0, chars.len());
    assert(chars@.subrange(0, chars.len() as int) =~= chars@);
    s
}

/// Whether two texts are the same, character by character.
pub fn same_text(a: &str, b: &str) -> (same: bool)
    ensures
        same == (a@ == b@),
{
    let left = chars_of(a);
    let right = chars_of(b);
    if left.len() != right.len() {
        return false;
    }
    let mut i: usize = 0;
    while i < left.len()
        invariant
            i <= left.len(),
            left.len() == right.len(),
            left@ == a@,
            right@ == b@,
            forall|j: int| 0 <= j < i ==> left@[j] == right@[j],
        decreases left.len() - i,
    {
        if left[i] != right[i] {
            assert(a@[i as int] != b@[i as int]);
            return false;
        }
        i += 1;
    }
    assert(left@ =~= right@);
    true
}

/// The code of `c` with the ASCII capitals folded onto their small letters.
pub open spec fn ascii_fold(c: char) -> u32 {
    if 'A' <= c && c <= 'Z' {
        (c as u32 + 32) as u32
    } else {
        c as u32
    }
}

/// Whether two texts are equal but for the case of their ASCII letters.
pub open spec fn same_ignoring_ascii_case(a: Seq<char>, b: Seq<char>) -> bool {
    &&& a.len() == b.len()
    &&& forall|i: int| 0 <= i < a.len() ==> ascii_fold(#[trigger] a[i]) == ascii_fold(b[i])
}

/// The code of `c` with the ASCII capitals folded onto their small letters.
pub fn fold_ascii(c: char) -> (code: u32)
    ensures
        code == ascii_fold(c),
{
    if 'A' <= c && c <= 'Z' {
        c as u32 + 32
    } else {
        c as u32
    }
}

/// Whether `a` and `b` are equal but for the case of their ASCII letters.
pub fn eq_ignore_ascii_case(a: &str, b: &str) -> (same: bool)
    ensures
        same == same_ignoring_ascii_case(a@, b@),
{
    let left = chars_of(a);
    let right = chars_of(b);
    if left.len() != right.len() {
        return false;
    }
    let mut i: usize = 0;
    while i < left.len()
        invariant
            i <= left.len(),
            left.len() == right.len(),
            left@ == a@,
            right@ == b@,
            forall|j: int| 0 <= j < i ==> ascii_fold(#[trigger] left@[j]) == ascii_fold(right@[j]),
        decreases left.len() - i,
    {
        if fold_ascii(left[i]) != fold_ascii(right[i]) {
            assert(ascii_fold(a@[i as int]) != ascii_fold(b@[i as int]));
            return false;
        }
        i += 1;
    }
    true
}

/// Whether `text` begins with `prefix`.
pub open spec fn begins_with(text: Seq<char>, prefix: Seq<char>) -> bool {
    prefix.len() <= text.len() && text.take(prefix.len() as int) == prefix
}

/// Whether `text` begins with `prefix`.
pub fn starts_with(text: &Vec<char>, prefix: &str) -> (begins: bool)
    ensures
        begins == begins_with(text@, prefix@),
{
    let wanted = chars_of(prefix);
    if wanted.len() > text.len() {
        return false;
    }
    let mut i: usize = 0;
    while i < wanted.len()
        invariant
            i <= wanted.len(),
            wanted.len() <= text.len(),
            wanted@ == prefix@,
            forall|j: int| 0 <= j < i ==> text@[j] == wanted@[j],
        decreases wanted.len() - i,
    {
        if text[i] != wanted[i] {
            assert(text@.take(wanted.len() as int)[i as int] != wanted@[i as int]);
            return false;
        }
        i += 1;
    }
    assert(text@.take(wanted.len() as int) =~= wanted@);
    true
}

/// `text` with every `from` replaced by `to`.
pub open spec fn with_replaced(text: Seq<char>, from: char, to: char) -> Seq<char> {
    text.map_values(
        |c: char|
            if c == from {
                to
            } else {
                c
            },
    )
}

/// `text` with every `from` replaced by `to`.
pub fn replace_char(text: &Vec<char>, from: char, to: char) -> (res: Vec<char>)
    ensures
        res@ == with_replaced(text@, from, to),
{
    let mut res: Vec<char> = Vec::new();
    let mut i: usize = 0;
    while i < text.len()
        invariant
            i <= text.len(),
            res.len() == i,
            forall|j: int| 0 <= j < i ==> res@[j] == with_replaced(text@, from, to)[j],
        decreases text.len() - i,
    {
        let c = text[i];
        if c == from {
            res.push(to);
        } else {
            res.push(c);
        }
        i += 1;
    }
    assert(res@ =~= with_replaced(text@, from, to));
    res
}

/// `text` with every run of `c` shortened to a single `c`.
pub open spec fn squeezed(text: Seq<char>, c: char) -> Seq<char>
    decreases text.len(),
{
    if text.len() == 0 {
        text
    } else if text.len() >= 2 && text.last() == c && text[text.len() - 2] == c {
        squeezed(text.drop_last(), c)
    } else {
        squeezed(text.drop_last(), c).push(text.last())
    }
}

/// `text` with every run of `c` shortened to a single `c`.
pub fn squeeze(text: &Vec<char>, c: char) -> (res: Vec<char>)
    ensures
        res@ == squeezed(text@, c),
{
    let mut res: Vec<char> = Vec::new();
    let mut i: usize = 0;
    assert(text@.take(0) =~= Seq::<char>::empty());
    while i < text.len()
        invariant
            i <= text.len(),
            res@ == squeezed(text@.take(i as int), c),
        decreases text.len() - i,
    {
        let ghost prefix = text@.take(i + 1);
        assert(prefix.drop_last() =~= text@.take(i as int));
        assert(prefix.last() == text@[i as int]);
        if i > 0 && text[i] == c && text[i - 1] == c {
            assert(prefix[prefix.len() - 2] == text@[i - 1]);
        } else {
            if i > 0 {
                assert(prefix[prefix.len() - 2] == text@[i - 1]);
            }
            res.push(text[i]);
        }
        i += 1;
    }
    assert(text@.take(i as int) =~= text@);
    res
}

/// Whether `i` is the position of the last `c` in `text`.
pub open spec fn is_last_position(text: Seq<char>, c: char, i: int) -> bool {
    &&& 0 <= i < text.len()
    &&& text[i] == c
    &&& forall|j: int| i < j < text.len() ==> text[j] != c
}

/// The position of the last `c` in `text`.
pub fn last_position(text: &Vec<char>, c: char) -> (found: Option<usize>)
    ensures
        match found {
            Some(i) => is_last_position(text@, c, i as int),
            None => forall|j: int| 0 <= j < text.len() ==> text@[j] != c,
        },
{
    let mut i: usize = text.len();
    while i > 0
        invariant
            i <= text.len(),
            forall|j: int| i <= j < text.len() ==> text@[j] != c,
        decreases i,
    {
        i -= 1;
        if text[i] == c {
            return Some(i);
        }
    }
    None
}

/// Where the text without its leading white space begins.
pub open spec fn trim_start_of(text: Seq<char>) -> int
    decreases text.len(),
{
    if text.len() > 0 && is_white_space(text[0]) {
        1 + trim_start_of(text.drop_first())
    } else {
        0
    }
}

/// Where the part of `text` from `start` on, without its trailing white
/// space, ends.
pub open spec fn trim_end_of(text: Seq<char>, start: int) -> int
    decreases text.len(),
{
    if text.len() > start && text.len() > 0 && is_white_space(text.last()) {
        trim_end_of(text.drop_last(), start)
    } else {
        text.len() as int
    }
}

/// `text` without leading and trailing white space.
pub open spec fn trimmed(text: Seq<char>) -> Seq<char> {
    let start = trim_start_of(text);
    text.subrange(start, trim_end_of(text, start))
}

/// The characters of `text` from `from` up to `to`, without leading and
/// trailing white space, as a string.
pub fn trimmed_range(text: &Vec<char>, from: usize, to: usize) -> (res: String)
    requires
        from <= to <= text.len(),
    ensures
        res@ == trimmed(text@.subrange(from as int, to as int)),
{
    let ghost part = text@.subrange(from as int, to as int);
    let mut start: usize = from;
    while start < to && white_space(text[start])
        invariant
            from <= start <= to,
            to <= text.len(),
            part == text@.subrange(from as int, to as int),
            trim_start_of(part) == (start - from) + trim_start_of(
                text@.subrange(start as int, to as int),
            ),
        decreases to - start,
    {
        let ghost rest = text@.subrange(start as int, to as int);
        assert(rest[0] == text@[start as int]);
        assert(rest.drop_first() =~= text@.subrange(start + 1, to as int));
        start += 1;
    }
    proof {
        let rest = text@.subrange(start as int, to as int);
        if start < to {
            assert(rest[0] == text@[start as int]);
        }
        assert(trim_start_of(rest) == 0);
    }
    let mut end: usize = to;
    while end > start && white_space(text[end - 1])
        invariant
            from <= start <= end <= to,
            to <= text.len(),
            part == text@.subrange(from as int, to as int),
            trim_end_of(part, start - from) == trim_end_of(
                text@.subrange(from as int, end as int),
                start - from,
            ),
        decreases end,
    {
        let ghost upto = text@.subrange(from as int, end as int);
        assert(upto.last() == text@[end - 1]);
        assert(upto.drop_last() =~= text@.subrange(from as int, end - 1));
        end -= 1;
    }
    proof {
        let upto = text@.subrange(from as int, end as int);
        if end > start {
            assert(upto.last() == text@[end - 1]);
        }
        assert(trim_end_of(upto, start - from) == end - from);
        assert(part.subrange(start - from, end - from) =~= text@.subrange(
            start as int,
            end as int,
        ));
    }
    string_of_range(text, start, end)
}

/// `text` without leading and trailing white space.
pub fn trim(text: &str) -> (res: String)
    ensures
        res@ == trimmed(text@),
{
    let chars = chars_of(text);
    assert(chars@.subrange(0, chars.len() as int) =~= chars@);
    trimmed_range(&chars, 0, chars.len())
}

/// Whether `a` comes before `b` in the order of strings: at the first place
/// where they differ `a` has the smaller character, or `a` ends there and `b`
/// goes on.
pub open spec fn precedes(a: Seq<char>, b: Seq<char>) -> bool
    decreases a.len(),
{
    if b.len() == 0 {
        false
    } else if a.len() == 0 {
        true
    } else if a[0] != b[0] {
        a[0] < b[0]
    } else {
        precedes(a.drop_first(), b.drop_first())
    }
}

/// No text comes before itself.
pub proof fn lemma_precedes_irreflexive(a: Seq<char>)
    ensures
        !precedes(a, a),
    decreases a.len(),
{
    if a.len() > 0 {
        lemma_precedes_irreflexive(a.drop_first());
    }
}

/// Of two different texts one comes before the other.
pub proof fn lemma_precedes_total(a: Seq<char>, b: Seq<char>)
    ensures
        a == b || precedes(a, b) || precedes(b, a),
        !(precedes(a, b) && precedes(b, a)),
    decreases a.len(),
{
    if a.len() == 0 || b.len() == 0 {
        if a.len() == 0 && b.len() == 0 {
            assert(a =~= b);
        }
    } else if a[0] == b[0] {
        lemma_precedes_total(a.drop_first(), b.drop_first());
        if a.drop_first() == b.drop_first() {
            assert(a.len() == b.len()) by {
                assert(a.drop_first().len() == b.drop_first().len());
            }
            assert forall|i: int| 0 <= i < a.len() implies a[i] == b[i] by {
                if i > 0 {
                    assert(a[i] == a.drop_first()[i - 1]);
                    assert(b[i] == b.drop_first()[i - 1]);
                }
            }
            assert(a =~= b);
        }
    }
}

/// What comes before a text comes before everything that the text comes before.
pub proof fn lemma_precedes_transitive(a: Seq<char>, b: Seq<char>, c: Seq<char>)
    requires
        precedes(a, b),
        precedes(b, c),
    ensures
        precedes(a, c),
    decreases a.len(),
{
    if a.len() > 0 && a[0] == b[0] && b[0] == c[0] {
        lemma_precedes_transitive(a.drop_first(), b.drop_first(), c.drop_first());
    }
}

/// Whether two texts are the same, character by character.
pub fn same_chars(a: &Vec<char>, b: &Vec<char>) -> (same: bool)
    ensures
        same == (a@ == b@),
{
    if a.len() != b.len() {
        return false;
    }
    let mut i: usize = 0;
    while i < a.len()
        invariant
            i <= a.len(),
            a.len() == b.len(),
            forall|j: int| 0 <= j < i ==> a@[j] == b@[j],
        decreases a.len() - i,
    {
        if a[i] != b[i] {
            return false;
        }
        i += 1;
    }
    assert(a@ =~= b@);
    true
}

/// Whether `a` comes before `b` in the order of strings.
pub fn comes_before(a: &Vec<char>, b: &Vec<char>) -> (before: bool)
    ensures
        before == precedes(a@, b@),
{
    let mut i: usize = 0;
    assert(a@.skip(0) =~= a@ && b@.skip(0) =~= b@);
    while i < a.len() && i < b.len()
        invariant
            i <= a.len(),
            i <= b.len(),
            precedes(a@, b@) == precedes(a@.skip(i as int), b@.skip(i as int)),
        decreases a.len() - i,
    {
        let ghost left = a@.skip(i as int);
        let ghost right = b@.skip(i as int);
        assert(left[0] == a@[i as int] && right[0] == b@[i as int]);
        if a[i] != b[i] {
            return a[i] < b[i];
        }
        assert(left.drop_first() =~= a@.skip(i + 1));
        assert(right.drop_first() =~= b@.skip(i + 1));
        i += 1;
    }
    i < b.len()
}

/// Whether `text` ends with `suffix`.
pub open spec fn ends_in(text: Seq<char>, suffix: Seq<char>) -> bool {
    suffix.len() <= text.len() && text.skip(text.len() - suffix.len()) == suffix
}

/// Whether `part` occurs in `text` at position `at`.
pub open spec fn occurs_at(text: Seq<char>, part: Seq<char>, at: int) -> bool {
    0 <= at && at + part.len() <= text.len() && text.subrange(at, at + part.len()) == part
}

/// Whether `part` occurs somewhere in `text`.
pub open spec fn has_part(text: Seq<char>, part: Seq<char>) -> bool {
    exists|at: int| occurs_at(text, part, at)
}

/// Whether the characters of `text` from `at` on begin with `part`.
pub fn matches_at(text: &Vec<char>, part: &Vec<char>, at: usize) -> (matches: bool)
    ensures
        matches == occurs_at(text@, part@, at as int),
{
    if at > text.len() || part.len() > text.len() - at {
        return false;
    }
    let mut i: usize = 0;
    while i < part.len()
        invariant
            i <= part.len(),
            at + part.len() <= text.len(),
            forall|j: int| 0 <= j < i ==> text@[at + j] == part@[j],
        decreases part.len() - i,
    {
        if text[at + i] != part[i] {
            assert(text@.subrange(at as int, at + part.len())[i as int] != part@[i as int]);
            return false;
        }
        i += 1;
    }
    assert(text@.subrange(at as int, at + part.len()) =~= part@);
    true
}

/// Whether `text` ends with `suffix`.
pub fn ends_with(text: &str, suffix: &str) -> (ends: bool)
    ensures
        ends == ends_in(text@, suffix@),
{
    let chars = chars_of(text);
    let wanted = chars_of(suffix);
    if wanted.len() > chars.len() {
        return false;
    }
    let at = chars.len() - wanted.len();
    assert(chars@.skip(at as int) =~= chars@.subrange(at as int, at + wanted.len()));
    matches_at(&chars, &wanted, at)
}

/// Whether `part` occurs somewhere in `text`.
pub fn contains_text(text: &str, part: &str) -> (found: bool)
    ensures
        found == has_part(text@, part@),
{
    let chars = chars_of(text);
    let wanted = chars_of(part);
    if wanted.len() > chars.len() {
        assert forall|at: int| !occurs_at(text@, part@, at) by {}
        return false;
    }
    let mut at: usize = 0;
    while wanted.len() <= chars.len() - at
        invariant
            at <= chars.len(),
            chars@ == text@,
            wanted@ == part@,
            forall|k: int| 0 <= k < at ==> !occurs_at(text@, part@, k),
        decreases chars.len() - at,
    {
        if matches_at(&chars, &wanted, at) {
            return true;
        }
        assert(wanted.len() > 0) by {
            if wanted.len() == 0 {
                assert(text@.subrange(at as int, at as int) =~= part@);
            }
        }
        at += 1;
    }
    assert forall|k: int| !occurs_at(text@, part@, k) by {}
    false
}

/// Whether `text` begins with `prefix`.
pub fn begins(text: &str, prefix: &str) -> (begins: bool)
    ensures
        begins == begins_with(text@, prefix@),
{
    let chars = chars_of(text);
    starts_with(&chars, prefix)
}

/// The texts that a list of character vectors holds.
pub open spec fn chars_view(list: Seq<Vec<char>>) -> Seq<Seq<char>> {
    list.map_values(|v: Vec<char>| v@)
}

/// Whether `texts` is in the order of strings.
pub open spec fn texts_ascend(texts: Seq<Seq<char>>) -> bool {
    forall|i: int, j: int|
        0 <= i < j < texts.len() ==> !precedes(#[trigger] texts[j], #[trigger] texts[i])
}

/// `sorted` with `item` put behind the last text that does not come after it.
pub open spec fn put_in_order(sorted: Seq<Seq<char>>, item: Seq<char>) -> Seq<Seq<char>>
    decreases sorted.len(),
{
    if sorted.len() == 0 {
        seq![item]
    } else if !precedes(item, sorted.last()) {
        sorted.push(item)
    } else {
        put_in_order(sorted.drop_last(), item).push(sorted.last())
    }
}

/// `texts` in the order of strings.
pub open spec fn texts_in_order(texts: Seq<Seq<char>>) -> Seq<Seq<char>>
    decreases texts.len(),
{
    if texts.len() == 0 {
        Seq::empty()
    } else {
        put_in_order(texts_in_order(texts.drop_last()), texts.last())
    }
}

/// `texts` without the texts that equal the text kept before them.
pub open spec fn without_equal_neighbours(texts: Seq<Seq<char>>) -> Seq<Seq<char>>
    decreases texts.len(),
{
    if texts.len() == 0 {
        Seq::empty()
    } else {
        let kept = without_equal_neighbours(texts.drop_last());
        if kept.len() > 0 && kept.last() == texts.last() {
            kept
        } else {
            kept.push(texts.last())
        }
    }
}

/// Putting a text into texts that ascend leaves them ascending, with that
/// text more and the same texts otherwise.
pub proof fn lemma_put_in_order(sorted: Seq<Seq<char>>, item: Seq<char>)
    requires
        texts_ascend(sorted),
    ensures
        texts_ascend(put_in_order(sorted, item)),
        put_in_order(sorted, item).len() == sorted.len() + 1,
        put_in_order(sorted, item).to_multiset() == sorted.to_multiset().insert(item),
    decreases sorted.len(),
{
    broadcast use vstd::seq_lib::group_to_multiset_ensures;

    let result = put_in_order(sorted, item);
    if sorted.len() == 0 {
        assert(sorted =~= Seq::<Seq<char>>::empty());
        assert(result =~= sorted.push(item));
    } else if !precedes(item, sorted.last()) {
        assert forall|i: int, j: int| 0 <= i < j < result.len() implies !precedes(
            #[trigger] result[j],
            #[trigger] result[i],
        ) by {
            if j == sorted.len() {
                if i < sorted.len() - 1 {
                    assert(!precedes(sorted[sorted.len() - 1], sorted[i]));
                    if precedes(item, sorted[i]) {
                        lemma_precedes_total(sorted[i], sorted.last());
                        if sorted[i] != sorted.last() {
                            lemma_precedes_transitive(item, sorted[i], sorted.last());
                        }
                    }
                }
            } else {
                assert(!precedes(sorted[j], sorted[i]));
            }
        }
    } else {
        let front = sorted.drop_last();
        let last = sorted.last();
        assert forall|i: int, j: int| 0 <= i < j < front.len() implies !precedes(
            #[trigger] front[j],
            #[trigger] front[i],
        ) by {
            assert(!precedes(sorted[j], sorted[i]));
        }
        lemma_put_in_order(front, item);
        let inner = put_in_order(front, item);
        assert(result == inner.push(last));
        assert(sorted =~= front.push(last));
        assert(result.to_multiset() =~= sorted.to_multiset().insert(item));
        lemma_precedes_total(item, last);
        assert forall|i: int, j: int| 0 <= i < j < result.len() implies !precedes(
            #[trigger] result[j],
            #[trigger] result[i],
        ) by {
            if j == inner.len() {
                assert(inner.to_multiset().count(inner[i]) > 0);
                if inner[i] != item {
                    assert(front.to_multiset().count(inner[i]) > 0);
                    assert(front.contains(inner[i]));
                    let k = choose|k: int| 0 <= k < front.len() && front[k] == inner[i];
                    assert(!precedes(sorted[sorted.len() - 1], sorted[k]));
                }
            } else {
                assert(!precedes(inner[j], inner[i]));
            }
        }
    }
}

/// Ordering keeps every text, as often as it occurs, and makes the texts
/// ascend.
pub proof fn lemma_texts_in_order(texts: Seq<Seq<char>>)
    ensures
        texts_ascend(texts_in_order(texts)),
        texts_in_order(texts).len() == texts.len(),
        texts_in_order(texts).to_multiset() == texts.to_multiset(),
    decreases texts.len(),
{
    broadcast use vstd::seq_lib::group_to_multiset_ensures;

    if texts.len() == 0 {
        assert(texts =~= Seq::<Seq<char>>::empty());
    } else {
        lemma_texts_in_order(texts.drop_last());
        lemma_put_in_order(texts_in_order(texts.drop_last()), texts.last());
        assert(texts =~= texts.drop_last().push(texts.last()));
    }
}

/// The texts in the order of strings.
pub fn sort_texts(texts: Vec<Vec<char>>) -> (sorted: Vec<Vec<char>>)
    ensures
        chars_view(sorted@) == texts_in_order(chars_view(texts@)),
{
    let mut texts = texts;
    let ghost all = chars_view(texts@);
    let mut sorted: Vec<Vec<char>> = Vec::new();
    let ghost mut done: int = 0;
    assert(all.take(0) =~= Seq::<Seq<char>>::empty());
    assert(chars_view(sorted@) =~= texts_in_order(all.take(0)));
    while texts.len() > 0
        invariant
            0 <= done <= all.len(),
            chars_view(texts@) == all.skip(done),
            chars_view(sorted@) == texts_in_order(all.take(done)),
        decreases texts.len(),
    {
        let ghost rest = chars_view(texts@);
        let ghost first = texts@[0];
        assert(rest[0] == first@);
        assert(rest.len() == texts.len());
        assert(all.skip(done).len() == all.len() - done);
        assert(rest[0] == all.skip(done)[0]);
        let item = texts.remove(0);
        assert(chars_view(texts@) =~= rest.remove(0));
        assert(item@ == all[done]);
        let ghost before = chars_view(sorted@);
        let mut at: usize = sorted.len();
        assert(before.take(at as int) =~= before);
        assert(before.skip(at as int) =~= Seq::<Seq<char>>::empty());
        while at > 0 && comes_before(&item, &sorted[at - 1])
            invariant
                at <= sorted.len(),
                before == chars_view(sorted@),
                put_in_order(before, item@) == put_in_order(before.take(at as int), item@)
                    + before.skip(at as int),
            decreases at,
        {
            let ghost front = before.take(at as int);
            proof {
                assert(front.last() == sorted@[at - 1]@);
                assert(front.drop_last() =~= before.take(at - 1));
                assert(put_in_order(front.drop_last(), item@).push(front.last()) + before.skip(
                    at as int,
                ) =~= put_in_order(before.take(at - 1), item@) + before.skip(at - 1));
            }
            at -= 1;
        }
        proof {
            let front = before.take(at as int);
            if at > 0 {
                assert(front.last() == sorted@[at - 1]@);
            }
            assert(put_in_order(front, item@) =~= front.push(item@));
            assert(front.push(item@) + before.skip(at as int) =~= before.insert(at as int, item@));
            assert(all.take(done + 1).drop_last() =~= all.take(done));
            assert(all.take(done + 1).last() == item@);
            assert(all.skip(done).remove(0) =~= all.skip(done + 1));
        }
        sorted.insert(at, item);
        assert(chars_view(sorted@) =~= before.insert(at as int, item@));
        proof {
            done = done + 1;
        }
    }
    assert(all.take(done) =~= all);
    sorted
}

/// The texts without those that equal the text kept before them.
pub fn drop_equal_neighbours(texts: Vec<Vec<char>>) -> (kept: Vec<Vec<char>>)
    ensures
        chars_view(kept@) == without_equal_neighbours(chars_view(texts@)),
{
    let mut texts = texts;
    let ghost all = chars_view(texts@);
    let mut kept: Vec<Vec<char>> = Vec::new();
    let ghost mut done: int = 0;
    assert(all.take(0) =~= Seq::<Seq<char>>::empty());
    assert(chars_view(kept@) =~= without_equal_neighbours(all.take(0)));
    while texts.len() > 0
        invariant
            0 <= done <= all.len(),
            chars_view(texts@) == all.skip(done),
            chars_view(kept@) == without_equal_neighbours(all.take(done)),
        decreases texts.len(),
    {
        let ghost rest = chars_view(texts@);
        let ghost so_far = chars_view(kept@);
        let ghost first = texts@[0];
        assert(rest[0] == first@);
        assert(rest.len() == texts.len());
        assert(all.skip(done).len() == all.len() - done);
        assert(rest[0] == all.skip(done)[0]);
        let item = texts.remove(0);
        proof {
            assert(chars_view(texts@) =~= rest.remove(0));
            assert(item@ == all[done]);
            assert(all.take(done + 1).drop_last() =~= all.take(done));
            assert(all.take(done + 1).last() == item@);
            assert(all.skip(done).remove(0) =~= all.skip(done + 1));
            if kept.len() > 0 {
                assert(so_far.last() == kept@[kept.len() - 1]@);
            }
        }
        let repeat = kept.len() > 0 && same_chars(&kept[kept.len() - 1], &item);
        if !repeat {
            kept.push(item);
            assert(chars_view(kept@) =~= so_far.push(all[done]));
        }
        proof {
            done = done + 1;
        }
    }
    assert(all.take(done) =~= all);
    kept
}

/// The character that writes the digit `d`.
pub open spec fn digit_char(d: int) -> char {
    if d == 0 {
        '0'
    } else if d == 1 {
        '1'
    } else if d == 2 {
        '2'
    } else if d == 3 {
        '3'
    } else if d == 4 {
        '4'
    } else if d == 5 {
        '5'
    } else if d == 6 {
        '6'
    } else if d == 7 {
        '7'
    } else if d == 8 {
        '8'
    } else {
        '9'
    }
}

/// The number `n` written in decimal digits, without leading zeros.
pub open spec fn decimal_of(n: nat) -> Seq<char>
    decreases n,
{
    if n < 10 {
        seq![digit_char(n as int)]
    } else {
        decimal_of(n / 10).push(digit_char((n % 10) as int))
    }
}

/// The character that writes the digit `d`.
pub fn digit(d: u64) -> (c: char)
    requires
        d < 10,
    ensures
        c == digit_char(d as int),
{
    if d == 0 {
        '0'
    } else if d == 1 {
        '1'
    } else if d == 2 {
        '2'
    } else if d == 3 {
        '3'
    } else if d == 4 {
        '4'
    } else if d == 5 {
        '5'
    } else if d == 6 {
        '6'
    } else if d == 7 {
        '7'
    } else if d == 8 {
        '8'
    } else {
        '9'
    }
}

/// The number `n` written in decimal digits.
pub fn decimal(n: u64) -> (written: String)
    ensures
        written@ == decimal_of(n as nat),
{
    // The digits from the last to the first, then turned round.
    let mut backwards: Vec<char> = Vec::new();
    let mut rest: u64 = n;
    while rest >= 10
        invariant
            decimal_of(n as nat) == decimal_of(rest as nat) + backwards@.reverse(),
        decreases rest,
    {
        let ghost before = backwards@;
        let d = rest % 10;
        backwards.push(digit(d));
        assert(backwards@.reverse() =~= seq![digit_char(d as int)] + before.reverse());
        assert(decimal_of(rest as nat) == decimal_of((rest / 10) as nat).push(
            digit_char(d as int),
        ));
        rest = rest / 10;
    }
    backwards.push(digit(rest));
    let mut forwards: Vec<char> = Vec::new();
    let mut i: usize = backwards.len();
    while i > 0
        invariant
            i <= backwards.len(),
            forwards@ == backwards@.reverse().take(backwards.len() - i),
        decreases i,
    {
        i -= 1;
        forwards.push(backwards[i]);
        assert(forwards@ =~= backwards@.reverse().take(backwards.len() - i));
    }
    assert(forwards@ =~= backwards@.reverse());
    assert(decimal_of(n as nat) =~= forwards@) by {
        let before = backwards@.drop_last();
        assert(backwards@.reverse() =~= seq![digit_char(rest as int)] + before.reverse());
    }
    string_of(&forwards)
}

} // verus!
