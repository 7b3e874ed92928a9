//! Character classes and sequence functions used by the source scanner,
//! with executable counterparts proved against them.

use vstd::prelude::*;

verus! {

/// An ASCII lowercase letter: the characters a target-type keyword is made of.
pub open spec fn is_lower(c: char) -> bool {
    'a' <= c && c <= 'z'
}

/// A letter, digit or underscore: the characters an app name is made of.
pub open spec fn is_word(c: char) -> bool {
    ('a' <= c && c <= 'z') || ('A' <= c && c <= 'Z') || ('0' <= c && c <= '9') || c == '_'
}

/// A Unicode whitespace character (the White_Space property), the set that
/// both line trimming and the declaration pattern treat as blank.
pub open spec fn is_space(c: char) -> bool {
    c == ' ' || c == '\t' || c == '\n' || c == '\r' || c == '\u{B}' || c == '\u{C}' || c == '\u{85}'
        || c == '\u{A0}' || c == '\u{1680}' || ('\u{2000}' <= c && c <= '\u{200A}') || c
        == '\u{2028}' || c == '\u{2029}' || c == '\u{202F}' || c == '\u{205F}' || c == '\u{3000}'
}

pub fn lower_char(c: char) -> (r: bool)
    ensures
        r == is_lower(c),
{
    'a' <= c && c <= 'z'
}

pub fn word_char(c: char) -> (r: bool)
    ensures
        r == is_word(c),
{
    ('a' <= c && c <= 'z') || ('A' <= c && c <= 'Z') || ('0' <= c && c <= '9') || c == '_'
}

pub fn space_char(c: char) -> (r: bool)
    ensures
        r == is_space(c),
{
    c == ' ' || c == '\t' || c == '\n' || c == '\r' || c == '\u{B}' || c == '\u{C}' || c == '\u{85}'
        || c == '\u{A0}' || c == '\u{1680}' || ('\u{2000}' <= c && c <= '\u{200A}') || c
        == '\u{2028}' || c == '\u{2029}' || c == '\u{202F}' || c == '\u{205F}' || c == '\u{3000}'
}

/// The three character classes the declaration pattern is built from.
pub enum CharClass {
    Lower,
    Word,
    Space,
}

pub open spec fn in_class(cl: CharClass, c: char) -> bool {
    match cl {
        CharClass::Lower => is_lower(c),
        CharClass::Word => is_word(c),
        CharClass::Space => is_space(c),
    }
}

/// Length of the longest prefix of `s` made of characters of class `cl`.
pub open spec fn run_len(cl: CharClass, s: Seq<char>) -> nat
    decreases s.len(),
{
    if s.len() > 0 && in_class(cl, s[0]) {
        (1 + run_len(cl, s.drop_first())) as nat
    } else {
        0
    }
}

/// `run_len` is pinned down by its characterization: everything before `k`
/// is in the class and position `k` (if any) is not.
pub proof fn lemma_run_len(cl: CharClass, s: Seq<char>, k: nat)
    requires
        k <= s.len(),
        forall|j: int| 0 <= j < k ==> in_class(cl, s[j]),
        k < s.len() ==> !in_class(cl, s[k as int]),
    ensures
        run_len(cl, s) == k,
    decreases k,
{
    if k == 0 {
    } else {
        assert(in_class(cl, s[0]));
        lemma_run_len(cl, s.drop_first(), (k - 1) as nat);
    }
}

pub proof fn lemma_run_len_le(cl: CharClass, s: Seq<char>)
    ensures
        run_len(cl, s) <= s.len(),
    decreases s.len(),
{
    if s.len() > 0 && in_class(cl, s[0]) {
        lemma_run_len_le(cl, s.drop_first());
    }
}

/// Every character inside the run is of the run's class.
pub proof fn lemma_run_len_chars(cl: CharClass, s: Seq<char>)
    ensures
        forall|j: int| 0 <= j < run_len(cl, s) ==> in_class(cl, s[j]),
    decreases s.len(),
{
    if s.len() > 0 && in_class(cl, s[0]) {
        lemma_run_len_chars(cl, s.drop_first());
        lemma_run_len_le(cl, s.drop_first());
        assert forall|j: int| 0 <= j < run_len(cl, s) implies in_class(cl, s[j]) by {
            if j > 0 {
                assert(0 <= j - 1 < run_len(cl, s.drop_first()));
                assert(in_class(cl, s.drop_first()[j - 1]));
                assert(s.drop_first()[j - 1] == s[j]);
            }
        }
    }
}

/// Index of the first occurrence of `c` in `s`, or `s.len()` if there is none.
pub open spec fn index_of(s: Seq<char>, c: char) -> nat
    decreases s.len(),
{
    if s.len() > 0 && s[0] != c {
        (1 + index_of(s.drop_first(), c)) as nat
    } else {
        0
    }
}

pub proof fn lemma_index_of(s: Seq<char>, c: char, k: nat)
    requires
        k <= s.len(),
        forall|j: int| 0 <= j < k ==> s[j] != c,
        k < s.len() ==> s[k as int] == c,
    ensures
        index_of(s, c) == k,
    decreases k,
{
    if k == 0 {
    } else {
        assert(s[0] != c);
        lemma_index_of(s.drop_first(), c, (k - 1) as nat);
    }
}

pub proof fn lemma_index_of_le(s: Seq<char>, c: char)
    ensures
        index_of(s, c) <= s.len(),
    decreases s.len(),
{
    if s.len() > 0 && s[0] != c {
        lemma_index_of_le(s.drop_first(), c);
    }
}

/// What `str::trim` leaves after removing leading whitespace.
pub open spec fn trim_start(s: Seq<char>) -> Seq<char>
    decreases s.len(),
{
    if s.len() > 0 && is_space(s[0]) {
        trim_start(s.drop_first())
    } else {
        s
    }
}

/// What `str::trim` leaves after removing trailing whitespace.
pub open spec fn trim_end(s: Seq<char>) -> Seq<char>
    decreases s.len(),
{
    if s.len() > 0 && is_space(s.last()) {
        trim_end(s.drop_last())
    } else {
        s
    }
}

/// `s` with surrounding whitespace removed.
pub open spec fn trim(s: Seq<char>) -> Seq<char> {
    trim_end(trim_start(s))
}

pub proof fn lemma_trim_start(s: Seq<char>, i: nat)
    requires
        i <= s.len(),
        forall|j: int| 0 <= j < i ==> is_space(s[j]),
        i < s.len() ==> !is_space(s[i as int]),
    ensures
        trim_start(s) == s.skip(i as int),
    decreases i,
{
    if i == 0 {
        assert(s.skip(0) =~= s);
    } else {
        assert(is_space(s[0]));
        lemma_trim_start(s.drop_first(), (i - 1) as nat);
        assert(s.drop_first().skip(i - 1) =~= s.skip(i as int));
    }
}

pub proof fn lemma_trim_end(s: Seq<char>, j: nat)
    requires
        j <= s.len(),
        forall|k: int| j <= k < s.len() ==> is_space(s[k]),
        j > 0 ==> !is_space(s[j - 1]),
    ensures
        trim_end(s) == s.take(j as int),
    decreases s.len(),
{
    if j == s.len() {
        assert(s.take(j as int) =~= s);
    } else {
        assert(is_space(s.last()));
        lemma_trim_end(s.drop_last(), j);
        assert(s.drop_last().take(j as int) =~= s.take(j as int));
    }
}

/// `trim` is pinned down by the bounds of the non-blank middle of `s`.
pub proof fn lemma_trim(s: Seq<char>, i: nat, j: nat)
    requires
        i <= j <= s.len(),
        forall|k: int| 0 <= k < i ==> is_space(s[k]),
        forall|k: int| j <= k < s.len() ==> is_space(s[k]),
        i < j ==> !is_space(s[i as int]) && !is_space(s[j - 1]),
        i == j ==> i == s.len(),
    ensures
        trim(s) == s.subrange(i as int, j as int),
{
    lemma_trim_start(s, i);
    let rest = s.skip(i as int);
    lemma_trim_end(rest, (j - i) as nat);
    assert(rest.take(j - i) =~= s.subrange(i as int, j as int));
}

/// A line piece with one carriage return stripped off its end, as `str::lines`
/// does for lines that ended in `\r\n`.
pub open spec fn strip_cr(l: Seq<char>) -> Seq<char> {
    if l.len() > 0 && l.last() == '\r' {
        l.drop_last()
    } else {
        l
    }
}

/// The lines of `s`, as `str::lines` yields them: pieces split at `\n`, a
/// `\r` directly before a `\n` stripped, and no final empty piece when the
/// text ends with a line break.
pub open spec fn split_lines(s: Seq<char>) -> Seq<Seq<char>>
    decreases s.len(),
{
    if s.len() == 0 {
        Seq::empty()
    } else {
        let i = index_of(s, '\n');
        if i < s.len() {
            proof {
                lemma_index_of_le(s, '\n');
            }
            seq![strip_cr(s.take(i as int))] + split_lines(s.skip(i + 1 as int))
        } else {
            seq![s]
        }
    }
}

/// The pieces of `s` split at every occurrence of `sep`, as `str::split`
/// yields them: empty input gives one empty piece.
pub open spec fn split_at(s: Seq<char>, sep: char) -> Seq<Seq<char>>
    decreases s.len(),
{
    let i = index_of(s, sep);
    if i < s.len() {
        proof {
            lemma_index_of_le(s, sep);
        }
        seq![s.take(i as int)] + split_at(s.skip(i + 1 as int), sep)
    } else {
        seq![s]
    }
}

/// A sequence without `sep` is a single piece.
pub proof fn lemma_split_at_none(s: Seq<char>, sep: char)
    requires
        forall|j: int| 0 <= j < s.len() ==> s[j] != sep,
    ensures
        split_at(s, sep) =~= seq![s],
{
    lemma_index_of(s, sep, s.len());
}

/// Splitting `a + sep + b` where neither side holds `sep` gives the two sides.
pub proof fn lemma_split_at_pair(s: Seq<char>, sep: char, a: Seq<char>, b: Seq<char>)
    requires
        s =~= a + seq![sep] + b,
        forall|j: int| 0 <= j < a.len() ==> a[j] != sep,
        forall|j: int| 0 <= j < b.len() ==> b[j] != sep,
    ensures
        split_at(s, sep) =~= seq![a, b],
{
    lemma_index_of(s, sep, a.len());
    assert(s.take(a.len() as int) =~= a);
    assert(s.skip(a.len() as int + 1) =~= b);
    lemma_split_at_none(b, sep);
}

/// First index at or after `from` (and before `to`) where `c` occurs in `s`,
/// or `to` if there is none.
pub fn find_char_from(s: &str, from: usize, to: usize, c: char) -> (r: usize)
    requires
        from <= to <= s@.len(),
    ensures
        from <= r <= to,
        forall|j: int| from <= j < r ==> s@[j] != c,
        r < to ==> s@[r as int] == c,
{
    let mut i: usize = from;
    while i < to
        invariant
            from <= i <= to <= s@.len(),
            forall|j: int| from <= j < i ==> s@[j] != c,
        decreases to - i,
    {
        if s.get_char(i) == c {
            return i;
        }
        i = i + 1;
    }
    i
}

/// First index at or after `from` (and before `to`) holding a non-whitespace
/// character of `s`, or `to` if all of the window is whitespace.
pub fn skip_spaces(s: &str, from: usize, to: usize) -> (r: usize)
    requires
        from <= to <= s@.len(),
    ensures
        from <= r <= to,
        forall|j: int| from <= j < r ==> is_space(s@[j]),
        r < to ==> !is_space(s@[r as int]),
{
    let mut i: usize = from;
    while i < to
        invariant
            from <= i <= to <= s@.len(),
            forall|j: int| from <= j < i ==> is_space(s@[j]),
        decreases to - i,
    {
        if !space_char(s.get_char(i)) {
            return i;
        }
        i = i + 1;
    }
    i
}

/// One past the last non-whitespace character of `s` in `[from, to)`, or
/// `from` if all of the window is whitespace.
pub fn rskip_spaces(s: &str, from: usize, to: usize) -> (r: usize)
    requires
        from <= to <= s@.len(),
    ensures
        from <= r <= to,
        forall|j: int| r <= j < to ==> is_space(s@[j]),
        r > from ==> !is_space(s@[r - 1]),
{
    let mut i: usize = to;
    while i > from
        invariant
            from <= i <= to <= s@.len(),
            forall|j: int| i <= j < to ==> is_space(s@[j]),
        decreases i,
    {
        if !space_char(s.get_char(i - 1)) {
            return i;
        }
        i = i - 1;
    }
    i
}

/// Length of the run of lowercase letters starting at `from` in `[from, to)`.
pub fn run_lower(s: &str, from: usize, to: usize) -> (r: usize)
    requires
        from <= to <= s@.len(),
    ensures
        from <= r <= to,
        forall|j: int| from <= j < r ==> is_lower(s@[j]),
        r < to ==> !is_lower(s@[r as int]),
{
    let mut i: usize = from;
    while i < to
        invariant
            from <= i <= to <= s@.len(),
            forall|j: int| from <= j < i ==> is_lower(s@[j]),
        decreases to - i,
    {
        if !lower_char(s.get_char(i)) {
            return i;
        }
        i = i + 1;
    }
    i
}

/// Length of the run of word characters starting at `from` in `[from, to)`.
pub fn run_word(s: &str, from: usize, to: usize) -> (r: usize)
    requires
        from <= to <= s@.len(),
    ensures
        from <= r <= to,
        forall|j: int| from <= j < r ==> is_word(s@[j]),
        r < to ==> !is_word(s@[r as int]),
{
    let mut i: usize = from;
    while i < to
        invariant
            from <= i <= to <= s@.len(),
            forall|j: int| from <= j < i ==> is_word(s@[j]),
        decreases to - i,
    {
        if !word_char(s.get_char(i)) {
            return i;
        }
        i = i + 1;
    }
    i
}

/// The part of `s` before the first occurrence of `sep`, or all of `s` when
/// `sep` does not occur: the head of `split_at(s, sep)`.
pub open spec fn head_before(s: Seq<char>, sep: char) -> Seq<char> {
    let i = index_of(s, sep);
    if i < s.len() {
        s.take(i as int)
    } else {
        s
    }
}

/// The pieces of `s` split at `sep`, as owned strings.
pub fn split_str(s: &str, sep: char) -> (parts: Vec<String>)
    ensures
        parts.deep_view() == split_at(s@, sep),
{
    let n = s.unicode_len();
    let mut parts: Vec<String> = Vec::new();
    let mut p: usize = 0;
    let mut more = true;
    proof {
        assert(s@.skip(0) =~= s@);
        assert(Seq::<Seq<char>>::empty() + split_at(s@, sep) =~= split_at(s@, sep));
    }
    while more
        invariant
            p <= n,
            n == s@.len(),
            more ==> split_at(s@, sep) == parts.deep_view() + split_at(s@.skip(p as int), sep),
            !more ==> parts.deep_view() == split_at(s@, sep),
        decreases n - p + (if more {
            1int
        } else {
            0int
        }),
    {
        let ghost suffix = s@.skip(p as int);
        let q = find_char_from(s, p, n, sep);
        proof {
            assert forall|j: int| 0 <= j < q - p implies suffix[j] != sep by {
                assert(suffix[j] == s@[p + j]);
            }
            if q < n {
                assert(suffix[q - p] == s@[q as int]);
            }
            lemma_index_of(suffix, sep, (q - p) as nat);
        }
        let piece = s.substring_char(p, q);
        parts.push(String::from_str(piece));
        proof {
            assert(piece@ =~= suffix.take(q as int - p as int));
            if q < n {
                assert(suffix.skip(q as int - p as int + 1) =~= s@.skip(q as int + 1));
                assert(split_at(suffix, sep) == seq![suffix.take(q as int - p as int)] + split_at(
                    s@.skip(q as int + 1),
                    sep,
                ));
            } else {
                assert(piece@ =~= suffix);
                assert(split_at(suffix, sep) == seq![suffix]);
            }
        }
        if q < n {
            p = q + 1;
            proof {
                assert(split_at(s@, sep) =~= parts.deep_view() + split_at(
                    s@.skip(p as int),
                    sep,
                ));
            }
        } else {
            more = false;
            proof {
                assert(parts.deep_view() =~= split_at(s@, sep));
            }
        }
    }
    parts
}

/// The part of `s` before its first `sep`, as a slice.
pub fn split_head(s: &str, sep: char) -> (r: &str)
    ensures
        r@ == head_before(s@, sep),
{
    let n = s.unicode_len();
    let i = find_char_from(s, 0, n, sep);
    proof {
        lemma_index_of(s@, sep, i as nat);
        if i == n {
            assert(s@.subrange(0, n as int) =~= s@);
        }
    }
    s.substring_char(0, i)
}

/// Whether two string slices hold the same characters.
pub fn str_eq(a: &str, b: &str) -> (r: bool)
    ensures
        r == (a@ == b@),
{
    let na = a.unicode_len();
    let nb = b.unicode_len();
    if na != nb {
        return false;
    }
    let mut i: usize = 0;
    while i < na
        invariant
            i <= na,
            na == a@.len(),
            na == b@.len(),
            forall|j: int| 0 <= j < i ==> a@[j] == b@[j],
        decreases na - i,
    {
        if a.get_char(i) != b.get_char(i) {
            return false;
        }
        i = i + 1;
    }
    proof {
        assert(a@ =~= b@);
    }
    true
}

} // verus!
