//! Text as sequences of characters: what it means to trim, search, replace,
//! pad and join, and the functions that do so.
use vstd::prelude::*;
use vstd::string::StringExecFns;
use vstd::string::StrSliceExecFns;

verus! {

/// The characters of each string of a list.
pub open spec fn texts(strings: Seq<String>) -> Seq<Seq<char>> {
    Seq::new(strings.len(), |i: int| strings[i]@)
}

/// The characters of each slice of a list.
pub open spec fn slice_texts(slices: Seq<&str>) -> Seq<Seq<char>> {
    Seq::new(slices.len(), |i: int| slices[i]@)
}

/// The characters of an optional string.
pub open spec fn optional_text(string: Option<String>) -> Option<Seq<char>> {
    match string {
        Some(s) => Some(s@),
        None => None,
    }
}

/// The characters of an optional string slice.
pub open spec fn optional_slice(string: Option<&str>) -> Option<Seq<char>> {
    match string {
        Some(s) => Some(s@),
        None => None,
    }
}

/// Whether `text` begins with `prefix`.
pub open spec fn begins_with(text: Seq<char>, prefix: Seq<char>) -> bool {
    prefix.len() <= text.len() && text.take(prefix.len() as int) == prefix
}

/// Whether `part` occurs in `text` somewhere.
pub open spec fn contains_text(text: Seq<char>, part: Seq<char>) -> bool {
    exists|i: int| 0 <= i <= text.len() && #[trigger] begins_with(text.skip(i), part)
}

/// Unicode's White_Space property.
pub open spec fn is_white_space(c: char) -> bool {
    ||| '\u{9}' <= c <= '\u{d}'
    ||| c == ' '
    ||| c == '\u{85}'
    ||| c == '\u{a0}'
    ||| c == '\u{1680}'
    ||| '\u{2000}' <= c <= '\u{200a}'
    ||| c == '\u{2028}'
    ||| c == '\u{2029}'
    ||| c == '\u{202f}'
    ||| c == '\u{205f}'
    ||| c == '\u{3000}'
}

/// `text` without its leading white space.
pub open spec fn trimmed_start(text: Seq<char>) -> Seq<char>
    decreases text.len(),
{
    if text.len() > 0 && is_white_space(text[0]) {
        trimmed_start(text.skip(1))
    } else {
        text
    }
}

/// `text` without its trailing white space.
pub open spec fn trimmed_end(text: Seq<char>) -> Seq<char>
    decreases text.len(),
{
    if text.len() > 0 && is_white_space(text.last()) {
        trimmed_end(text.drop_last())
    } else {
        text
    }
}

/// `text` without the white space at either end.
pub open spec fn trimmed(text: Seq<char>) -> Seq<char> {
    trimmed_end(trimmed_start(text))
}

/// Whether `text` holds nothing but white space.
pub open spec fn is_blank(text: Seq<char>) -> bool {
    trimmed(text).len() == 0
}

/// How many bytes `text` takes in UTF-8.
pub open spec fn byte_len(text: Seq<char>) -> nat {
    vstd::utf8::encode_utf8(text).len()
}

/// `text` with each match of `pattern`, found from the left and without
/// overlaps, replaced by `with`. An empty pattern matches before every
/// character and at the end.
pub open spec fn replaced(text: Seq<char>, pattern: Seq<char>, with: Seq<char>) -> Seq<char>
    decreases text.len(),
{
    if pattern.len() == 0 {
        if text.len() == 0 {
            with
        } else {
            with + seq![text[0]] + replaced(text.skip(1), pattern, with)
        }
    } else if text.len() == 0 {
        Seq::empty()
    } else if begins_with(text, pattern) {
        with + replaced(text.skip(pattern.len() as int), pattern, with)
    } else {
        seq![text[0]] + replaced(text.skip(1), pattern, with)
    }
}

/// The texts of a list with `separator` between neighbours.
pub open spec fn joined(parts: Seq<Seq<char>>, separator: Seq<char>) -> Seq<char>
    decreases parts.len(),
{
    if parts.len() == 0 {
        Seq::empty()
    } else if parts.len() == 1 {
        parts[0]
    } else {
        joined(parts.drop_last(), separator) + separator + parts.last()
    }
}

/// `count` copies of one character.
pub open spec fn repeated(c: char, count: nat) -> Seq<char> {
    Seq::new(count, |i: int| c)
}

/// How far `text` falls short of `width` characters.
pub open spec fn shortfall(text: Seq<char>, width: nat) -> nat {
    if text.len() < width {
        (width - text.len()) as nat
    } else {
        0
    }
}

/// `text` followed by as many spaces as it takes to reach `width` characters.
pub open spec fn padded_right(text: Seq<char>, width: nat) -> Seq<char> {
    text + repeated(' ', shortfall(text, width))
}

/// `text` preceded by as many spaces as it takes to reach `width` characters.
pub open spec fn padded_left(text: Seq<char>, width: nat) -> Seq<char> {
    repeated(' ', shortfall(text, width)) + text
}

/// `str::trim` of the standard library returns the slice without leading and
/// trailing white space, in the sense of Unicode's White_Space property.
pub assume_specification[ str::trim ](s: &str) -> (trim: &str)
    ensures
        trim@ == trimmed(s@),
;

/// Whether two strings hold the same characters.
pub fn same_text(a: &str, b: &str) -> (same: bool)
    ensures
        same == (a@ == b@),
{
    let left = a.as_bytes();
    let right = b.as_bytes();
    proof {
        vstd::utf8::encode_utf8_decode_utf8(a@);
        vstd::utf8::encode_utf8_decode_utf8(b@);
    }
    if left.len() != right.len() {
        return false;
    }
    for i in 0..left.len()
        invariant
            left@ == vstd::utf8::encode_utf8(a@),
            right@ == vstd::utf8::encode_utf8(b@),
            left@.len() == right@.len(),
            forall|j: int| 0 <= j < i ==> left@[j] == right@[j],
    {
        if left[i] != right[i] {
            return false;
        }
    }
    assert(left@ =~= right@);
    true
}

/// Whether a string holds nothing but white space.
pub fn blank(text: &str) -> (blank: bool)
    ensures
        blank == is_blank(text@),
{
    text.trim().is_empty()
}

/// How many bytes a string takes in UTF-8.
pub fn utf8_len(text: &str) -> (len: usize)
    ensures
        len == byte_len(text@),
{
    text.as_bytes().len()
}

/// The characters of a string, as a list.
fn characters(text: &str) -> (list: Vec<char>)
    ensures
        list@ == text@,
{
    let mut list: Vec<char> = Vec::new();
    for c in it: text.chars()
        invariant
            it.seq() == text@,
            list@ == text@.take(it.index() as int),
    {
        list.push(c);
    }
    assert(text@.take(text@.len() as int) == text@);
    list
}

/// What is left of `text` behind `prefix`, if `text` begins with it.
pub fn strip_prefix<'a>(text: &'a str, prefix: &str) -> (rest: Option<&'a str>)
    ensures
        match rest {
            Some(r) => begins_with(text@, prefix@) && r@ == text@.skip(prefix@.len() as int),
            None => !begins_with(text@, prefix@),
        },
{
    let total = text.unicode_len();
    let length = prefix.unicode_len();
    if length > total {
        return None;
    }
    let head = text.substring_char(0, length);
    assert(head@ == text@.take(length as int));
    if same_text(head, prefix) {
        let rest = text.substring_char(length, total);
        assert(rest@ == text@.skip(length as int));
        Some(rest)
    } else {
        None
    }
}

/// At most the first `count` characters of `text`.
pub fn take_characters(text: &str, count: usize) -> (head: String)
    ensures
        head@ == if text@.len() <= count { text@ } else { text@.take(count as int) },
{
    let total = text.unicode_len();
    if total <= count {
        text.to_owned()
    } else {
        text.substring_char(0, count).to_owned()
    }
}

/// Whether the characters of `list` from `start` on begin with `pattern`.
fn matches_at(list: &Vec<char>, start: usize, pattern: &Vec<char>) -> (matches: bool)
    requires
        start <= list@.len(),
    ensures
        matches == begins_with(list@.skip(start as int), pattern@),
{
    let total = list.len();
    if total - start < pattern.len() {
        return false;
    }
    let ghost rest = list@.skip(start as int);
    for k in 0..pattern.len()
        invariant
            total == list@.len(),
            start + pattern@.len() <= total,
            rest == list@.skip(start as int),
            forall|j: int| 0 <= j < k ==> rest[j] == pattern@[j],
    {
        if list[start + k] != pattern[k] {
            assert(rest[k as int] != pattern@[k as int]);
            assert(rest.take(pattern@.len() as int)[k as int] == rest[k as int]);
            return false;
        }
    }
    assert(rest.take(pattern@.len() as int) =~= pattern@);
    true
}

/// Replaces each match of a pattern.
pub fn replace_all(text: &str, pattern: &str, with: &str) -> (result: String)
    ensures
        result@ == replaced(text@, pattern@, with@),
{
    let list = characters(text);
    let pattern_list = characters(pattern);
    let mut result = String::new();
    let mut start: usize = 0;
    let mut i: usize = 0;
    assert(text@.skip(0) == text@);
    while i < list.len()
        invariant
            list@ == text@,
            pattern_list@ == pattern@,
            start <= i <= list@.len(),
            result@ + text@.subrange(start as int, i as int) + replaced(
                text@.skip(i as int),
                pattern@,
                with@,
            ) == replaced(text@, pattern@, with@),
        decreases list@.len() - i,
    {
        let ghost rest = text@.skip(i as int);
        assert(rest.skip(1) == text@.skip(i + 1));
        assert(text@.subrange(start as int, i + 1) == text@.subrange(start as int, i as int)
            + seq![rest[0]]);
        if pattern_list.len() == 0 {
            result.append(text.substring_char(start, i));
            result.append(with);
            start = i;
            i = i + 1;
            assert(text@.subrange(start as int, i as int) == seq![rest[0]]);
        } else if matches_at(&list, i, &pattern_list) {
            assert(rest.skip(pattern@.len() as int) == text@.skip(i + pattern@.len()));
            result.append(text.substring_char(start, i));
            result.append(with);
            i = i + pattern_list.len();
            start = i;
            assert(text@.subrange(start as int, i as int) == Seq::<char>::empty());
        } else {
            i = i + 1;
        }
        assert(result@ + text@.subrange(start as int, i as int) + replaced(
            text@.skip(i as int),
            pattern@,
            with@,
        ) =~= replaced(text@, pattern@, with@));
    }
    result.append(text.substring_char(start, i));
    if pattern_list.len() == 0 {
        result.append(with);
    }
    assert(text@.skip(i as int) == Seq::<char>::empty());
    result
}

/// Joins the texts of a list.
pub fn join_texts(parts: &Vec<String>, separator: &str) -> (result: String)
    ensures
        result@ == joined(texts(parts@), separator@),
{
    let mut result = String::new();
    for i in 0..parts.len()
        invariant
            result@ == joined(texts(parts@).take(i as int), separator@),
    {
        if i > 0 {
            result.append(separator);
        }
        result.append(parts[i].as_str());
        assert(texts(parts@).take(i + 1).drop_last() == texts(parts@).take(i as int));
        assert(Seq::<char>::empty() + parts@[i as int]@ == parts@[i as int]@);
    }
    assert(texts(parts@).take(parts@.len() as int) == texts(parts@));
    result
}

/// Appends `count` copies of the character that `unit` holds.
pub fn append_repeated(target: &mut String, unit: &str, count: usize)
    requires
        unit@.len() == 1,
    ensures
        final(target)@ == old(target)@ + repeated(unit@[0], count as nat),
{
    let ghost before = target@;
    for i in 0..count
        invariant
            unit@.len() == 1,
            target@ == before + repeated(unit@[0], i as nat),
    {
        target.append(unit);
        assert(target@ =~= before + repeated(unit@[0], (i + 1) as nat));
    }
}

/// Appends a text, filled up with spaces on its right.
pub fn append_padded_right(target: &mut String, text: &str, width: usize)
    ensures
        final(target)@ == old(target)@ + padded_right(text@, width as nat),
{
    let length = text.unicode_len();
    let ghost before = target@;
    target.append(text);
    proof {
        reveal_strlit(" ");
    }
    if length < width {
        append_repeated(target, " ", width - length);
    }
    assert(target@ =~= before + padded_right(text@, width as nat));
}

/// Appends a text, filled up with spaces on its left.
pub fn append_padded_left(target: &mut String, text: &str, width: usize)
    ensures
        final(target)@ == old(target)@ + padded_left(text@, width as nat),
{
    let length = text.unicode_len();
    let ghost before = target@;
    proof {
        reveal_strlit(" ");
    }
    if length < width {
        append_repeated(target, " ", width - length);
    }
    target.append(text);
    assert(target@ =~= before + padded_left(text@, width as nat));
}

/// A `part` that shares nothing with `marker`: neither lies within the other,
/// and no end of one is a beginning of the other.
pub open spec fn clear_of(part: Seq<char>, marker: Seq<char>) -> bool {
    &&& !contains_text(marker, part)
    &&& !contains_text(part, marker)
    &&& forall|k: int|
        0 < k < part.len() && k < marker.len() ==> #[trigger] part.take(k) != marker.skip(
            marker.len() - k,
        )
    &&& forall|k: int|
        0 < k < part.len() && k < marker.len() ==> part.skip(part.len() - k) != #[trigger] marker.take(
            k,
        )
}

/// What begins a text with replacements, and shares nothing with the
/// replacement, began the text before.
proof fn lemma_replaced_begins(
    text: Seq<char>,
    pattern: Seq<char>,
    marker: Seq<char>,
    part: Seq<char>,
    from: int,
)
    requires
        pattern.len() > 0,
        clear_of(part, marker),
        0 <= from <= part.len(),
        begins_with(replaced(text, pattern, marker), part.skip(from)),
    ensures
        begins_with(text, part.skip(from)),
    decreases part.len() - from,
{
    let tail = part.skip(from);
    if tail.len() == 0 {
        assert(text.take(0) =~= tail);
    } else if text.len() == 0 {
    } else if begins_with(text, pattern) {
        let after = replaced(text.skip(pattern.len() as int), pattern, marker);
        let whole = marker + after;
        assert(whole.take(tail.len() as int) == tail);
        if tail.len() <= marker.len() {
            assert(marker.take(tail.len() as int) =~= tail);
            if from == 0 {
                assert(tail =~= part);
                assert(marker.skip(0) =~= marker);
                assert(begins_with(marker.skip(0), part));
            } else if tail.len() == marker.len() {
                assert(tail.take(marker.len() as int) =~= marker);
                assert(begins_with(part.skip(from), marker));
            } else {
                let k = tail.len() as int;
                assert(part.skip(part.len() - k) == tail);
                assert(part.skip(part.len() - k) == marker.take(k));
            }
        } else {
            assert forall|j: int| 0 <= j < marker.len() implies tail[j] == marker[j] by {
                assert(whole.take(tail.len() as int)[j] == whole[j]);
            }
            assert(tail.take(marker.len() as int) =~= marker);
            assert(begins_with(part.skip(from), marker));
        }
        assert(false);
    } else {
        let after = replaced(text.skip(1), pattern, marker);
        let whole = seq![text[0]] + after;
        assert(whole.take(tail.len() as int) == tail);
        assert(tail[0] == whole[0]);
        let next = part.skip(from + 1);
        assert forall|j: int| 0 <= j < next.len() implies after[j] == next[j] by {
            assert(whole.take(tail.len() as int)[j + 1] == whole[j + 1]);
            assert(tail[j + 1] == next[j]);
        }
        assert(after.take(next.len() as int) =~= next);
        lemma_replaced_begins(text.skip(1), pattern, marker, part, from + 1);
        assert(text.skip(1).take(next.len() as int) == next);
        assert forall|j: int| 0 <= j < tail.len() implies text[j] == tail[j] by {
            if j > 0 {
                assert(text.skip(1).take(next.len() as int)[j - 1] == text[j]);
            }
        }
        assert(text.take(tail.len() as int) =~= tail);
    }
}

/// An occurrence in what follows `front` is one in the whole.
pub proof fn lemma_contains_behind(front: Seq<char>, rest: Seq<char>, part: Seq<char>)
    requires
        contains_text(rest, part),
    ensures
        contains_text(front + rest, part),
{
    let i = choose|i: int| 0 <= i <= rest.len() && #[trigger] begins_with(rest.skip(i), part);
    assert((front + rest).skip(front.len() + i) =~= rest.skip(i));
    assert(begins_with((front + rest).skip(front.len() + i), part));
}

/// Where `part` occurs in `marker + rest` and shares nothing with `marker`,
/// it occurs in `rest`.
pub proof fn lemma_contains_past_marker(marker: Seq<char>, rest: Seq<char>, part: Seq<char>)
    requires
        clear_of(part, marker),
        contains_text(marker + rest, part),
    ensures
        contains_text(rest, part),
{
    let whole = marker + rest;
    let i = choose|i: int| 0 <= i <= whole.len() && #[trigger] begins_with(whole.skip(i), part);
    let found = whole.skip(i);
    assert(found.take(part.len() as int) == part);
    assert forall|j: int| 0 <= j < part.len() implies part[j] == whole[i + j] by {
        assert(found.take(part.len() as int)[j] == found[j]);
    }
    if i >= marker.len() {
        assert(found =~= rest.skip(i - marker.len()));
        assert(begins_with(rest.skip(i - marker.len()), part));
    } else if i + part.len() <= marker.len() {
        assert(marker.skip(i).take(part.len() as int) =~= part);
        assert(begins_with(marker.skip(i), part));
    } else if i == 0 {
        assert(part.skip(0).take(marker.len() as int) =~= marker);
        assert(begins_with(part.skip(0), marker));
    } else {
        let k = marker.len() - i;
        assert(part.take(k) =~= marker.skip(marker.len() - k));
    }
}

/// Replacing brings no occurrence of a text that shares nothing with the
/// replacement.
pub proof fn lemma_replaced_adds_nothing(
    text: Seq<char>,
    pattern: Seq<char>,
    marker: Seq<char>,
    part: Seq<char>,
)
    requires
        pattern.len() > 0,
        clear_of(part, marker),
        contains_text(replaced(text, pattern, marker), part),
    ensures
        contains_text(text, part),
    decreases text.len(),
{
    let result = replaced(text, pattern, marker);
    if text.len() == 0 {
        assert(result == text);
    } else if begins_with(text, pattern) {
        let rest = text.skip(pattern.len() as int);
        lemma_contains_past_marker(marker, replaced(rest, pattern, marker), part);
        lemma_replaced_adds_nothing(rest, pattern, marker, part);
        lemma_contains_behind(text.take(pattern.len() as int), rest, part);
        assert(text.take(pattern.len() as int) + rest =~= text);
    } else {
        let i = choose|i: int|
            0 <= i <= result.len() && #[trigger] begins_with(result.skip(i), part);
        assert(part.skip(0) =~= part);
        assert(text.skip(0) =~= text);
        if i == 0 {
            assert(result.skip(0) =~= result);
            lemma_replaced_begins(text, pattern, marker, part, 0);
            assert(begins_with(text.skip(0), part));
        } else {
            let after = replaced(text.skip(1), pattern, marker);
            assert(result.skip(i) =~= after.skip(i - 1));
            assert(begins_with(after.skip(i - 1), part));
            lemma_replaced_adds_nothing(text.skip(1), pattern, marker, part);
            lemma_contains_behind(seq![text[0]], text.skip(1), part);
            assert(seq![text[0]] + text.skip(1) =~= text);
        }
    }
}

/// Replacing leaves no occurrence of a pattern that shares nothing with the
/// replacement.
pub proof fn lemma_replaced_removes(text: Seq<char>, pattern: Seq<char>, marker: Seq<char>)
    requires
        pattern.len() > 0,
        clear_of(pattern, marker),
    ensures
        !contains_text(replaced(text, pattern, marker), pattern),
    decreases text.len(),
{
    let result = replaced(text, pattern, marker);
    if contains_text(result, pattern) {
        if text.len() == 0 {
        } else if begins_with(text, pattern) {
            let rest = text.skip(pattern.len() as int);
            lemma_contains_past_marker(marker, replaced(rest, pattern, marker), pattern);
            lemma_replaced_removes(rest, pattern, marker);
        } else {
            let i = choose|i: int|
                0 <= i <= result.len() && #[trigger] begins_with(result.skip(i), pattern);
            if i == 0 {
                assert(pattern.skip(0) =~= pattern);
                assert(result.skip(0) =~= result);
                lemma_replaced_begins(text, pattern, marker, pattern, 0);
            } else {
                let after = replaced(text.skip(1), pattern, marker);
                assert(result.skip(i) =~= after.skip(i - 1));
                assert(begins_with(after.skip(i - 1), pattern));
                lemma_replaced_removes(text.skip(1), pattern, marker);
            }
        }
    }
}

/// What occurs in the beginning of a text occurs in the text.
pub proof fn lemma_contains_take(text: Seq<char>, count: int, part: Seq<char>)
    requires
        0 <= count <= text.len(),
        contains_text(text.take(count), part),
    ensures
        contains_text(text, part),
{
    let head = text.take(count);
    let i = choose|i: int| 0 <= i <= head.len() && #[trigger] begins_with(head.skip(i), part);
    assert(text.skip(i).take(part.len() as int) =~= head.skip(i).take(part.len() as int));
    assert(begins_with(text.skip(i), part));
}

/// A text has no more characters than bytes.
pub proof fn lemma_byte_len_covers(text: Seq<char>)
    ensures
        text.len() <= byte_len(text),
    decreases text.len(),
{
    if text.len() > 0 {
        lemma_byte_len_covers(text.drop_first());
    }
}

/// The list of texts of a list of strings has the text of each, in order, and
/// so has that of a list of slices.
pub proof fn law_lists_keep_every_text(strings: Seq<String>, slices: Seq<&str>)
    ensures
        texts(strings).len() == strings.len(),
        forall|i: int| 0 <= i < strings.len() ==> #[trigger] texts(strings)[i] == strings[i]@,
        slice_texts(slices).len() == slices.len(),
        forall|i: int| 0 <= i < slices.len() ==> #[trigger] slice_texts(slices)[i] == slices[i]@,
{
}

/// An optional string is there where its text is, and has that text.
pub proof fn law_optional_texts_are_kept(string: Option<String>, slice: Option<&str>)
    ensures
        string matches Some(s) ==> optional_text(string) == Some(s@),
        string is None ==> optional_text(string) is None,
        slice matches Some(s) ==> optional_slice(slice) == Some(s@),
        slice is None ==> optional_slice(slice) is None,
{
}

/// Whether every character of a text is white space.
pub open spec fn all_white_space(text: Seq<char>) -> bool {
    forall|i: int| 0 <= i < text.len() ==> is_white_space(#[trigger] text[i])
}

/// What is removed in front is white space.
proof fn lemma_trimmed_start(text: Seq<char>) -> (n: int)
    ensures
        0 <= n <= text.len(),
        trimmed_start(text) == text.skip(n),
        all_white_space(text.take(n)),
        n < text.len() ==> !is_white_space(text[n]),
    decreases text.len(),
{
    if text.len() > 0 && is_white_space(text[0]) {
        let n = 1 + lemma_trimmed_start(text.skip(1));
        assert(text.skip(1).skip(n - 1) =~= text.skip(n));
        assert forall|i: int| 0 <= i < n implies is_white_space(#[trigger] text.take(n)[i]) by {
            if i > 0 {
                assert(text.skip(1).take(n - 1)[i - 1] == text[i]);
            }
        }
        n
    } else {
        assert(text.skip(0) =~= text);
        0
    }
}

/// What is removed behind is white space.
proof fn lemma_trimmed_end(text: Seq<char>) -> (n: int)
    ensures
        0 <= n <= text.len(),
        trimmed_end(text) == text.take(n),
        all_white_space(text.skip(n)),
        n > 0 ==> !is_white_space(text[n - 1]),
    decreases text.len(),
{
    if text.len() > 0 && is_white_space(text.last()) {
        let n = lemma_trimmed_end(text.drop_last());
        assert(text.drop_last().take(n) =~= text.take(n));
        assert forall|i: int| 0 <= i < text.len() - n implies is_white_space(
            #[trigger] text.skip(n)[i],
        ) by {
            if i < text.len() - n - 1 {
                assert(text.drop_last().skip(n)[i] == text[n + i]);
            }
        }
        n
    } else {
        assert(text.take(text.len() as int) =~= text);
        text.len() as int
    }
}

/// Trimming takes white space away at both ends and nothing else: what is left
/// is a stretch of the text that neither begins nor ends with white space,
/// and all around it is white space.
pub proof fn law_trimming_leaves_the_middle(text: Seq<char>) -> (ends: (int, int))
    ensures
        0 <= ends.0 <= ends.1 <= text.len(),
        trimmed(text) == text.subrange(ends.0, ends.1),
        forall|i: int| 0 <= i < ends.0 ==> is_white_space(#[trigger] text[i]),
        forall|i: int| ends.1 <= i < text.len() ==> is_white_space(#[trigger] text[i]),
        ends.0 < ends.1 ==> !is_white_space(text[ends.0]) && !is_white_space(text[ends.1 - 1]),
{
    let a = lemma_trimmed_start(text);
    let rest = text.skip(a);
    let n = lemma_trimmed_end(rest);
    assert(rest.take(n) =~= text.subrange(a, a + n));
    assert forall|i: int| 0 <= i < a implies is_white_space(#[trigger] text[i]) by {
        assert(text.take(a)[i] == text[i]);
    }
    assert forall|i: int| a + n <= i < text.len() implies is_white_space(#[trigger] text[i]) by {
        assert(rest.skip(n)[i - a - n] == text[i]);
    }
    (a, a + n)
}

/// A text is blank where it has nothing but white space.
pub proof fn law_blank_is_all_white_space(text: Seq<char>)
    ensures
        is_blank(text) <==> forall|i: int| 0 <= i < text.len() ==> is_white_space(#[trigger] text[i]),
{
    let ends = law_trimming_leaves_the_middle(text);
    if ends.0 < ends.1 {
        assert(!is_white_space(text[ends.0]));
    }
}

/// A text in which the pattern does not occur is left as it is.
pub proof fn law_replacing_nothing_changes_nothing(
    text: Seq<char>,
    pattern: Seq<char>,
    with: Seq<char>,
)
    requires
        pattern.len() > 0,
        !contains_text(text, pattern),
    ensures
        replaced(text, pattern, with) == text,
    decreases text.len(),
{
    if text.len() > 0 {
        assert(text.skip(0) =~= text);
        assert(!begins_with(text.skip(0), pattern));
        let rest = text.skip(1);
        if contains_text(rest, pattern) {
            lemma_contains_behind(seq![text[0]], rest, pattern);
            assert(seq![text[0]] + rest =~= text);
        }
        law_replacing_nothing_changes_nothing(rest, pattern, with);
        assert(seq![text[0]] + rest =~= text);
    }
}

/// The first match is replaced, what stands before it is kept, and what stands
/// behind it is replaced in its turn.
pub proof fn law_the_first_match_is_replaced(
    text: Seq<char>,
    pattern: Seq<char>,
    with: Seq<char>,
    at: int,
)
    requires
        pattern.len() > 0,
        0 <= at <= text.len(),
        begins_with(text.skip(at), pattern),
        forall|i: int| 0 <= i < at ==> !begins_with(#[trigger] text.skip(i), pattern),
    ensures
        replaced(text, pattern, with) == text.take(at) + with + replaced(
            text.skip(at + pattern.len()),
            pattern,
            with,
        ),
    decreases text.len(),
{
    if at == 0 {
        assert(text.skip(0) =~= text);
        assert(text.take(0) + with =~= with);
    } else {
        let rest = text.skip(1);
        assert(text.skip(0) =~= text);
        assert(!begins_with(text.skip(0), pattern));
        assert(rest.skip(at - 1) =~= text.skip(at));
        assert forall|i: int| 0 <= i < at - 1 implies !begins_with(#[trigger] rest.skip(i), pattern) by {
            assert(rest.skip(i) =~= text.skip(i + 1));
        }
        law_the_first_match_is_replaced(rest, pattern, with, at - 1);
        assert(rest.skip(at - 1 + pattern.len()) =~= text.skip(at + pattern.len()));
        assert(seq![text[0]] + rest.take(at - 1) =~= text.take(at));
        assert(replaced(text, pattern, with) =~= text.take(at) + with + replaced(
            text.skip(at + pattern.len()),
            pattern,
            with,
        ));
    }
}

/// Joining two lists one after the other puts one separator between them; one
/// text alone stays as it is, and nothing joined is nothing.
pub proof fn law_joining_keeps_order(
    front: Seq<Seq<char>>,
    back: Seq<Seq<char>>,
    part: Seq<char>,
    separator: Seq<char>,
)
    ensures
        joined(Seq::empty(), separator) == Seq::<char>::empty(),
        joined(seq![part], separator) == part,
        front.len() > 0 && back.len() > 0 ==> joined(front + back, separator) == joined(
            front,
            separator,
        ) + separator + joined(back, separator),
    decreases back.len(),
{
    let whole = front + back;
    if front.len() > 0 && back.len() > 0 {
        assert(whole.drop_last() =~= front + back.drop_last());
        if back.len() == 1 {
            assert(whole.drop_last() =~= front);
        } else {
            law_joining_keeps_order(front, back.drop_last(), part, separator);
            assert(joined(whole, separator) =~= joined(front, separator) + separator + joined(
                back,
                separator,
            ));
        }
    }
}

/// Padding adds spaces behind or in front of a text, as many as it takes to
/// reach the width, and keeps the text.
pub proof fn law_padding_adds_spaces(text: Seq<char>, width: nat)
    ensures
        padded_right(text, width).len() == if text.len() < width {
            width
        } else {
            text.len()
        },
        padded_left(text, width).len() == padded_right(text, width).len(),
        padded_right(text, width).take(text.len() as int) == text,
        forall|i: int|
            text.len() <= i < padded_right(text, width).len() ==> #[trigger] padded_right(
                text,
                width,
            )[i] == ' ',
        padded_left(text, width).skip(padded_left(text, width).len() - text.len()) == text,
        forall|i: int|
            0 <= i < padded_left(text, width).len() - text.len() ==> #[trigger] padded_left(
                text,
                width,
            )[i] == ' ',
{
}

/// A repeated character fills a text of the given length.
pub proof fn law_repeating_fills(c: char, count: nat)
    ensures
        repeated(c, count).len() == count,
        forall|i: int| 0 <= i < count ==> #[trigger] repeated(c, count)[i] == c,
{
}

/// The bytes of a text are those of its characters: one for a character below
/// U+0080, two below U+0800, three below U+10000, else four.
pub proof fn law_bytes_add_up(c: char, rest: Seq<char>)
    ensures
        byte_len(Seq::empty()) == 0,
        byte_len(seq![c] + rest) == byte_len(rest) + if (c as u32) < 0x80 {
            1int
        } else if (c as u32) < 0x800 {
            2int
        } else if (c as u32) < 0x10000 {
            3int
        } else {
            4int
        },
{
    let text = seq![c] + rest;
    assert(text.drop_first() =~= rest);
    assert(text[0] == c);
}

} // verus!
