use vstd::prelude::*;
use vstd::string::*;

use crate::text::push_char;

verus! {

/// Whether `c` is white space as `char::is_whitespace` defines it: the
/// Unicode White_Space characters.
pub open spec fn is_space(c: char) -> bool {
    ||| ('\u{9}' <= c && c <= '\u{d}')
    ||| c == ' '
    ||| c == '\u{85}'
    ||| c == '\u{a0}'
    ||| c == '\u{1680}'
    ||| ('\u{2000}' <= c && c <= '\u{200a}')
    ||| c == '\u{2028}'
    ||| c == '\u{2029}'
    ||| c == '\u{202f}'
    ||| c == '\u{205f}'
    ||| c == '\u{3000}'
}

/// Whether `c` is white space, as `char::is_whitespace` answers.
pub fn is_space_char(c: char) -> (space: bool)
    ensures
        space == is_space(c),
{
    ('\u{9}' <= c && c <= '\u{d}') || c == ' ' || c == '\u{85}' || c == '\u{a0}' || c == '\u{1680}'
        || ('\u{2000}' <= c && c <= '\u{200a}') || c == '\u{2028}' || c == '\u{2029}' || c
        == '\u{202f}' || c == '\u{205f}' || c == '\u{3000}'
}

/// `text` without its leading white space.
pub open spec fn trim_start(text: Seq<char>) -> Seq<char>
    decreases text.len(),
{
    if text.len() > 0 && is_space(text[0]) {
        trim_start(text.drop_first())
    } else {
        text
    }
}

/// `text` without its trailing white space.
pub open spec fn trim_end(text: Seq<char>) -> Seq<char>
    decreases text.len(),
{
    if text.len() > 0 && is_space(text.last()) {
        trim_end(text.drop_last())
    } else {
        text
    }
}

/// `text` without leading or trailing white space, as `str::trim` gives it.
pub open spec fn trim(text: Seq<char>) -> Seq<char> {
    trim_end(trim_start(text))
}

/// Whether `text` begins with `prefix`.
pub open spec fn has_prefix(text: Seq<char>, prefix: Seq<char>) -> bool {
    prefix.len() <= text.len() && text.subrange(0, prefix.len() as int) == prefix
}

/// Whether `text` ends with `suffix`.
pub open spec fn has_suffix(text: Seq<char>, suffix: Seq<char>) -> bool {
    suffix.len() <= text.len() && text.subrange(text.len() - suffix.len(), text.len() as int) == suffix
}

/// Whether `pattern` occurs in `text` at position `i`.
pub open spec fn occurs_at(text: Seq<char>, pattern: Seq<char>, i: int) -> bool {
    0 <= i && i + pattern.len() <= text.len() && text.subrange(i, i + pattern.len()) == pattern
}

/// The position of the first occurrence of `pattern` in `text`, if any.
#[verifier::opaque]
pub open spec fn first_occurrence(text: Seq<char>, pattern: Seq<char>) -> Option<int> {
    if exists|i: int| occurs_at(text, pattern, i) {
        Some(choose|i: int| occurs_at(text, pattern, i) && forall|j: int| 0 <= j < i ==> !occurs_at(text, pattern, j))
    } else {
        None
    }
}

/// What follows the first occurrence of `pattern` in `text`, as the second
/// half of `str::split_once` gives it.
pub open spec fn after_first(text: Seq<char>, pattern: Seq<char>) -> Option<Seq<char>> {
    match first_occurrence(text, pattern) {
        Some(i) => Some(text.subrange(i + pattern.len(), text.len() as int)),
        None => None,
    }
}

/// The first occurrence is an occurrence with none before it, and there is
/// none at all when there is no first one.
pub proof fn lemma_first_occurrence_facts(text: Seq<char>, pattern: Seq<char>)
    ensures
        match first_occurrence(text, pattern) {
            Some(i) => occurs_at(text, pattern, i) && forall|j: int| 0 <= j < i ==> !occurs_at(text, pattern, j),
            None => forall|j: int| !occurs_at(text, pattern, j),
        },
{
    reveal(first_occurrence);
    if exists|i: int| occurs_at(text, pattern, i) {
        let w = choose|i: int| occurs_at(text, pattern, i);
        lemma_least_occurrence_exists(text, pattern, w);
    }
}

proof fn lemma_least_occurrence_exists(text: Seq<char>, pattern: Seq<char>, w: int)
    requires
        occurs_at(text, pattern, w),
    ensures
        exists|i: int| occurs_at(text, pattern, i) && forall|j: int| 0 <= j < i ==> !occurs_at(text, pattern, j),
    decreases w,
{
    if exists|j: int| 0 <= j < w && occurs_at(text, pattern, j) {
        let j = choose|j: int| 0 <= j < w && occurs_at(text, pattern, j);
        lemma_least_occurrence_exists(text, pattern, j);
    } else {
        assert(occurs_at(text, pattern, w) && forall|j: int| 0 <= j < w ==> !occurs_at(text, pattern, j));
    }
}

proof fn lemma_first_occurrence_is(text: Seq<char>, pattern: Seq<char>, i: int)
    requires
        occurs_at(text, pattern, i),
        forall|j: int| 0 <= j < i ==> !occurs_at(text, pattern, j),
    ensures
        first_occurrence(text, pattern) == Some(i),
{
    reveal(first_occurrence);
    let k = choose|k: int| occurs_at(text, pattern, k) && forall|j: int| 0 <= j < k ==> !occurs_at(text, pattern, j);
    assert(occurs_at(text, pattern, k) && forall|j: int| 0 <= j < k ==> !occurs_at(text, pattern, j));
    if k < i {
        assert(!occurs_at(text, pattern, k));
    }
    if i < k {
        assert(!occurs_at(text, pattern, i));
    }
}

/// The first position of `pattern` in `text`.
pub fn find(text: &str, pattern: &str) -> (position: Option<usize>)
    ensures
        match position {
            Some(i) => first_occurrence(text@, pattern@) == Some(i as int) && occurs_at(text@, pattern@, i as int),
            None => first_occurrence(text@, pattern@) is None,
        },
{
    reveal(first_occurrence);
    let n = text.unicode_len();
    let m = pattern.unicode_len();
    if m > n {
        assert(!exists|i: int| occurs_at(text@, pattern@, i));
        return None;
    }
    let mut i: usize = 0;
    while i <= n - m
        invariant
            n == text@.len(),
            m == pattern@.len(),
            m <= n,
            i <= n - m + 1,
            forall|j: int| 0 <= j < i ==> !occurs_at(text@, pattern@, j),
        decreases n - m + 1 - i,
    {
        let mut k: usize = 0;
        while k < m && text.get_char(i + k) == pattern.get_char(k)
            invariant
                n == text@.len(),
                m == pattern@.len(),
                i + m <= n,
                k <= m,
                forall|t: int| 0 <= t < k ==> text@[i + t] == pattern@[t],
            decreases m - k,
        {
            k = k + 1;
        }
        if k == m {
            assert(text@.subrange(i as int, i + m) =~= pattern@);
            proof {
                lemma_first_occurrence_is(text@, pattern@, i as int);
            }
            return Some(i);
        }
        assert(!occurs_at(text@, pattern@, i as int)) by {
            if occurs_at(text@, pattern@, i as int) {
                assert(text@.subrange(i as int, i + m)[k as int] == pattern@[k as int]);
            }
        }
        i = i + 1;
    }
    assert(!exists|j: int| occurs_at(text@, pattern@, j)) by {
        if exists|j: int| occurs_at(text@, pattern@, j) {
            let j = choose|j: int| occurs_at(text@, pattern@, j);
            assert(j < i);
        }
    }
    None
}

/// Whether `text` begins with `prefix`.
pub fn starts_with(text: &str, prefix: &str) -> (starts: bool)
    ensures
        starts == has_prefix(text@, prefix@),
{
    let n = text.unicode_len();
    let m = prefix.unicode_len();
    if m > n {
        return false;
    }
    let mut k: usize = 0;
    while k < m
        invariant
            n == text@.len(),
            m == prefix@.len(),
            m <= n,
            k <= m,
            forall|t: int| 0 <= t < k ==> text@[t] == prefix@[t],
        decreases m - k,
    {
        if text.get_char(k) != prefix.get_char(k) {
            assert(text@.subrange(0, m as int)[k as int] != prefix@[k as int]);
            return false;
        }
        k = k + 1;
    }
    assert(text@.subrange(0, m as int) =~= prefix@);
    true
}

/// Whether `text` ends with `suffix`.
pub fn ends_with(text: &str, suffix: &str) -> (ends: bool)
    ensures
        ends == has_suffix(text@, suffix@),
{
    let n = text.unicode_len();
    let m = suffix.unicode_len();
    if m > n {
        return false;
    }
    let base = n - m;
    let mut k: usize = 0;
    while k < m
        invariant
            n == text@.len(),
            m == suffix@.len(),
            base == n - m,
            k <= m,
            forall|t: int| 0 <= t < k ==> text@[base + t] == suffix@[t],
        decreases m - k,
    {
        if text.get_char(base + k) != suffix.get_char(k) {
            assert(text@.subrange(base as int, n as int)[k as int] != suffix@[k as int]);
            return false;
        }
        k = k + 1;
    }
    assert(text@.subrange(base as int, n as int) =~= suffix@);
    true
}

proof fn lemma_trim_start_skips(text: Seq<char>, i: int)
    requires
        0 <= i <= text.len(),
        forall|k: int| 0 <= k < i ==> is_space(#[trigger] text[k]),
        i == text.len() || !is_space(text[i]),
    ensures
        trim_start(text) == text.subrange(i, text.len() as int),
    decreases i,
{
    if i > 0 {
        assert forall|k: int| 0 <= k < i - 1 implies is_space(#[trigger] text.drop_first()[k]) by {
            assert(text.drop_first()[k] == text[k + 1]);
        }
        if i - 1 < text.drop_first().len() {
            assert(text.drop_first()[i - 1] == text[i]);
        }
        lemma_trim_start_skips(text.drop_first(), i - 1);
        assert(text.drop_first().subrange(i - 1, text.drop_first().len() as int) =~= text.subrange(i, text.len() as int));
    } else {
        assert(text.subrange(0, text.len() as int) =~= text);
    }
}

proof fn lemma_trim_end_skips(text: Seq<char>, e: int)
    requires
        0 <= e <= text.len(),
        forall|k: int| e <= k < text.len() ==> is_space(#[trigger] text[k]),
        e == 0 || !is_space(text[e - 1]),
    ensures
        trim_end(text) == text.subrange(0, e),
    decreases text.len() - e,
{
    if e < text.len() {
        assert forall|k: int| e <= k < text.drop_last().len() implies is_space(#[trigger] text.drop_last()[k]) by {
            assert(text.drop_last()[k] == text[k]);
        }
        if e > 0 {
            assert(text.drop_last()[e - 1] == text[e - 1]);
        }
        assert(is_space(text[text.len() - 1]));
        lemma_trim_end_skips(text.drop_last(), e);
        assert(text.drop_last().subrange(0, e) =~= text.subrange(0, e));
    } else {
        assert(text.subrange(0, e) =~= text);
    }
}

/// The positions between which `text` holds no leading or trailing space.
fn trim_bounds(text: &str) -> (bounds: (usize, usize))
    ensures
        bounds.0 <= bounds.1 <= text@.len(),
        trim(text@) == text@.subrange(bounds.0 as int, bounds.1 as int),
{
    let n = text.unicode_len();
    let mut start: usize = 0;
    while start < n && is_space_char(text.get_char(start))
        invariant
            n == text@.len(),
            start <= n,
            forall|k: int| 0 <= k < start ==> is_space(#[trigger] text@[k]),
        decreases n - start,
    {
        start = start + 1;
    }
    proof {
        lemma_trim_start_skips(text@, start as int);
    }
    let mut end: usize = n;
    while end > start && is_space_char(text.get_char(end - 1))
        invariant
            n == text@.len(),
            start <= end <= n,
            forall|k: int| end <= k < n ==> is_space(#[trigger] text@[k]),
        decreases end - start,
    {
        end = end - 1;
    }
    proof {
        let rest = text@.subrange(start as int, n as int);
        assert forall|k: int| end - start <= k < rest.len() implies is_space(#[trigger] rest[k]) by {
            assert(rest[k] == text@[start + k]);
        }
        if end - start > 0 {
            assert(rest[end - start - 1] == text@[end - 1]);
        }
        lemma_trim_end_skips(rest, end - start);
        assert(rest.subrange(0, end - start) =~= text@.subrange(start as int, end as int));
    }
    (start, end)
}

/// `text` without leading or trailing white space.
pub fn trim_str(text: &str) -> (trimmed: &str)
    ensures
        trimmed@ == trim(text@),
{
    let (start, end) = trim_bounds(text);
    text.substring_char(start, end)
}

/// `text` without its leading white space.
pub fn trim_start_str(text: &str) -> (trimmed: &str)
    ensures
        trimmed@ == trim_start(text@),
{
    let n = text.unicode_len();
    let mut start: usize = 0;
    while start < n && is_space_char(text.get_char(start))
        invariant
            n == text@.len(),
            start <= n,
            forall|k: int| 0 <= k < start ==> is_space(#[trigger] text@[k]),
        decreases n - start,
    {
        start = start + 1;
    }
    proof {
        lemma_trim_start_skips(text@, start as int);
    }
    text.substring_char(start, n)
}

/// The length of the run of non-space characters that `text` begins with.
pub open spec fn word_len(text: Seq<char>) -> nat
    decreases text.len(),
{
    if text.len() == 0 || is_space(text[0]) {
        0
    } else {
        1 + word_len(text.drop_first())
    }
}

/// The white-space separated words of `text`, as `str::split_whitespace`
/// gives them.
pub open spec fn words(text: Seq<char>) -> Seq<Seq<char>>
    decreases text.len(),
{
    if text.len() == 0 {
        Seq::empty()
    } else if is_space(text[0]) {
        words(text.drop_first())
    } else {
        proof {
            lemma_word_len_bounds(text);
        }
        seq![text.subrange(0, word_len(text) as int)] + words(text.subrange(word_len(text) as int, text.len() as int))
    }
}

pub proof fn lemma_word_len_bounds(text: Seq<char>)
    ensures
        word_len(text) <= text.len(),
        text.len() > 0 && !is_space(text[0]) ==> word_len(text) >= 1,
    decreases text.len(),
{
    if text.len() > 0 && !is_space(text[0]) {
        lemma_word_len_bounds(text.drop_first());
    }
}

proof fn lemma_word_len_is(text: Seq<char>, e: int)
    requires
        0 <= e <= text.len(),
        forall|k: int| 0 <= k < e ==> !is_space(#[trigger] text[k]),
        e == text.len() || is_space(text[e]),
    ensures
        word_len(text) == e,
    decreases e,
{
    if e > 0 {
        assert forall|k: int| 0 <= k < e - 1 implies !is_space(#[trigger] text.drop_first()[k]) by {
            assert(text.drop_first()[k] == text[k + 1]);
        }
        if e < text.len() {
            assert(text.drop_first()[e - 1] == text[e]);
        }
        lemma_word_len_is(text.drop_first(), e - 1);
    }
}

/// The suffix of `text` from position `i`.
pub open spec fn suffix_from(text: Seq<char>, i: int) -> Seq<char> {
    text.subrange(i, text.len() as int)
}

/// The words of `text`, each as its own string.
pub fn split_words(text: &str) -> (parts: Vec<String>)
    ensures
        parts@.map_values(|p: String| p@) == words(text@),
{
    let n = text.unicode_len();
    let mut parts: Vec<String> = Vec::new();
    let mut i: usize = 0;
    proof {
        assert(suffix_from(text@, 0) =~= text@);
    }
    while i < n
        invariant
            n == text@.len(),
            i <= n,
            words(text@) == parts@.map_values(|p: String| p@) + words(suffix_from(text@, i as int)),
        decreases n - i,
    {
        let ghost rest = suffix_from(text@, i as int);
        if is_space_char(text.get_char(i)) {
            proof {
                assert(rest[0] == text@[i as int]);
                assert(rest.drop_first() =~= suffix_from(text@, i + 1));
            }
            i = i + 1;
        } else {
            let start = i;
            while i < n && !is_space_char(text.get_char(i))
                invariant
                    n == text@.len(),
                    start <= i <= n,
                    forall|k: int| start <= k < i ==> !is_space(#[trigger] text@[k]),
                decreases n - i,
            {
                i = i + 1;
            }
            let word = text.substring_char(start, i);
            let ghost before = parts@.map_values(|p: String| p@);
            parts.push(String::from_str(word));
            proof {
                assert forall|k: int| 0 <= k < i - start implies !is_space(#[trigger] rest[k]) by {
                    assert(rest[k] == text@[start + k]);
                }
                if i < n {
                    assert(rest[i - start] == text@[i as int]);
                }
                lemma_word_len_is(rest, i - start);
                assert(rest[0] == text@[start as int]);
                assert(rest.subrange(0, i - start) =~= word@);
                assert(rest.subrange(i - start, rest.len() as int) =~= suffix_from(text@, i as int));
                assert(parts@.map_values(|p: String| p@) =~= before.push(word@));
                assert(before.push(word@) + words(suffix_from(text@, i as int)) =~= before + (seq![word@]
                    + words(suffix_from(text@, i as int))));
            }
        }
    }
    proof {
        assert(suffix_from(text@, n as int) =~= Seq::<char>::empty());
        assert(parts@.map_values(|p: String| p@) + Seq::<Seq<char>>::empty() =~= parts@.map_values(
            |p: String| p@,
        ));
    }
    parts
}

/// The pieces of `text` between newline characters: always at least one,
/// the last one after the final newline.
pub open spec fn newline_pieces(text: Seq<char>) -> Seq<Seq<char>>
    decreases text.len(),
{
    if text.len() == 0 {
        seq![Seq::empty()]
    } else {
        let pieces = newline_pieces(text.drop_last());
        if text.last() == '\n' {
            pieces.push(Seq::empty())
        } else {
            pieces.update(pieces.len() - 1, pieces.last().push(text.last()))
        }
    }
}

proof fn lemma_newline_pieces_nonempty(text: Seq<char>)
    ensures
        newline_pieces(text).len() >= 1,
    decreases text.len(),
{
    if text.len() > 0 {
        lemma_newline_pieces_nonempty(text.drop_last());
    }
}

/// The lines of `text`: the pieces between newlines, without an empty piece
/// after a final newline. Trimmed, they are the trimmed lines that
/// `str::lines` gives, whose only other change, dropping a carriage return
/// before a newline, trimming undoes.
pub open spec fn line_pieces(text: Seq<char>) -> Seq<Seq<char>> {
    let pieces = newline_pieces(text);
    if pieces.last().len() == 0 {
        pieces.drop_last()
    } else {
        pieces
    }
}

/// The lines of `text`, each as its own string.
pub fn split_lines(text: &str) -> (lines: Vec<String>)
    ensures
        lines@.map_values(|l: String| l@) == line_pieces(text@),
{
    let n = text.unicode_len();
    let mut done: Vec<String> = Vec::new();
    let mut current = String::new();
    let mut i: usize = 0;
    while i < n
        invariant
            n == text@.len(),
            i <= n,
            newline_pieces(text@.take(i as int)) == done@.map_values(|l: String| l@).push(current@),
        decreases n - i,
    {
        let c = text.get_char(i);
        let ghost before_done = done@.map_values(|l: String| l@);
        let ghost before_current = current@;
        proof {
            assert(text@.take(i + 1).drop_last() =~= text@.take(i as int));
            assert(text@.take(i + 1).last() == c);
        }
        if c == '\n' {
            let finished = current;
            done.push(finished);
            current = String::new();
            proof {
                assert(done@.map_values(|l: String| l@) =~= before_done.push(before_current));
                assert(newline_pieces(text@.take(i + 1)) =~= before_done.push(before_current).push(Seq::empty()));
            }
        } else {
            push_char(&mut current, c);
            proof {
                assert(newline_pieces(text@.take(i + 1)) =~= before_done.push(before_current.push(c)));
            }
        }
        i = i + 1;
    }
    proof {
        assert(text@.take(n as int) =~= text@);
    }
    if current.unicode_len() > 0 {
        let ghost before_done = done@.map_values(|l: String| l@);
        done.push(current);
        proof {
            assert(done@.map_values(|l: String| l@) =~= before_done.push(current@));
        }
    } else {
        proof {
            let pieces = newline_pieces(text@);
            assert(pieces.drop_last() =~= done@.map_values(|l: String| l@));
        }
    }
    done
}

/// What follows the first occurrence of `pattern` in `text`.
pub fn split_after<'a>(text: &'a str, pattern: &str) -> (rest: Option<&'a str>)
    ensures
        match after_first(text@, pattern@) {
            Some(r) => rest is Some && rest->0@ == r,
            None => rest is None,
        },
{
    let n = text.unicode_len();
    let m = pattern.unicode_len();
    match find(text, pattern) {
        Some(i) => {
            proof {
                crate::scan::lemma_first_occurrence_facts(text@, pattern@);
            }
            Some(text.substring_char(i + m, n))
        },
        None => None,
    }
}

/// `text` without `suffix` at its end, when it ends with it.
pub open spec fn without_suffix(text: Seq<char>, suffix: Seq<char>) -> Option<Seq<char>> {
    if has_suffix(text, suffix) {
        Some(text.subrange(0, text.len() - suffix.len()))
    } else {
        None
    }
}

/// `text` without `suffix` at its end, when it ends with it (`str::strip_suffix`).
pub fn strip_suffix<'a>(text: &'a str, suffix: &str) -> (stripped: Option<&'a str>)
    ensures
        match without_suffix(text@, suffix@) {
            Some(r) => stripped is Some && stripped->0@ == r,
            None => stripped is None,
        },
{
    if ends_with(text, suffix) {
        Some(text.substring_char(0, text.unicode_len() - suffix.unicode_len()))
    } else {
        None
    }
}

} // verus!
