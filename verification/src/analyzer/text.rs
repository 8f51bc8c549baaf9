//! Character-level helpers: strings are handled as sequences of `char`.

use vstd::prelude::*;

verus! {

/// The characters of `s`, in order.
pub fn to_chars(s: &str) -> (out: Vec<char>)
    ensures
        out@ == s@,
{
    let mut out: Vec<char> = Vec::new();
    for c in it: s.chars()
        invariant
            out@ == it.seq().take(it.index() as int),
            it.seq() == s@,
    {
        out.push(c);
    }
    out
}

/// ASCII upper-case letters become lower case; every other character stays.
pub open spec fn lower_char(c: char) -> char {
    if 'A' <= c && c <= 'Z' {
        ((c as u8 + 32) as u8) as char
    } else {
        c
    }
}

/// `s` with every character passed through [`lower_char`].
pub open spec fn lower(s: Seq<char>) -> Seq<char> {
    Seq::new(s.len(), |i: int| lower_char(s[i]))
}

/// The lower-case form of an ASCII letter; any other character as it is.
pub fn to_lower_char(c: char) -> (l: char)
    ensures
        l == lower_char(c),
{
    if 'A' <= c && c <= 'Z' {
        ((c as u8) + 32) as char
    } else {
        c
    }
}

/// `s` with its ASCII letters in lower case.
pub fn to_lower(s: &Vec<char>) -> (out: Vec<char>)
    ensures
        out@ == lower(s@),
{
    let mut out: Vec<char> = Vec::new();
    let mut i: usize = 0;
    while i < s.len()
        invariant
            i <= s.len(),
            out@ == lower(s@.take(i as int)),
        decreases s.len() - i,
    {
        out.push(to_lower_char(s[i]));
        i = i + 1;
    }
    assert(s@.take(s.len() as int) == s@);
    out
}

/// `pattern` occurs in `s` starting at index `at`.
pub open spec fn occurs_at(s: Seq<char>, pattern: Seq<char>, at: int) -> bool {
    &&& 0 <= at
    &&& at + pattern.len() <= s.len()
    &&& s.subrange(at, at + pattern.len()) == pattern
}

/// `s` begins with `pattern`.
pub open spec fn has_prefix(s: Seq<char>, pattern: Seq<char>) -> bool {
    occurs_at(s, pattern, 0)
}

/// `pattern` occurs somewhere in `s`.
pub open spec fn contains_text(s: Seq<char>, pattern: Seq<char>) -> bool {
    exists|at: int| occurs_at(s, pattern, at)
}

/// Whether `pattern` occurs in `s` at index `at`.
pub fn matches_at(s: &Vec<char>, pattern: &Vec<char>, at: usize) -> (b: bool)
    ensures
        b == occurs_at(s@, pattern@, at as int),
{
    if pattern.len() > s.len() || at > s.len() - pattern.len() {
        return false;
    }
    let mut j: usize = 0;
    while j < pattern.len()
        invariant
            j <= pattern.len(),
            at + pattern.len() <= s.len(),
            forall|k: int| 0 <= k < j ==> s@[at + k] == pattern@[k],
        decreases pattern.len() - j,
    {
        if s[at + j] != pattern[j] {
            assert(s@.subrange(at as int, at + pattern.len())[j as int] == s@[at + j]);
            return false;
        }
        j = j + 1;
    }
    assert(s@.subrange(at as int, at + pattern.len()) =~= pattern@);
    true
}

/// Whether `s` begins with `pattern`.
pub fn starts_with(s: &Vec<char>, pattern: &Vec<char>) -> (b: bool)
    ensures
        b == has_prefix(s@, pattern@),
{
    matches_at(s, pattern, 0)
}

/// Whether the two texts are equal.
pub fn same_text(s: &Vec<char>, other: &Vec<char>) -> (b: bool)
    ensures
        b == (s@ == other@),
{
    if s.len() != other.len() {
        return false;
    }
    let b = matches_at(s, other, 0);
    assert(s@.subrange(0, s@.len() as int) == s@);
    b
}

/// Whether `pattern` occurs somewhere in `s`.
pub fn contains(s: &Vec<char>, pattern: &Vec<char>) -> (b: bool)
    ensures
        b == contains_text(s@, pattern@),
{
    if pattern.len() > s.len() {
        return false;
    }
    if pattern.len() == 0 {
        assert(s@.subrange(0, 0) =~= pattern@);
        assert(occurs_at(s@, pattern@, 0));
        return true;
    }
    let last: usize = s.len() - pattern.len();
    let mut at: usize = 0;
    while at <= last
        invariant
            at <= last + 1,
            last == s.len() - pattern.len(),
            last < s.len(),
            forall|k: int| 0 <= k < at ==> !occurs_at(s@, pattern@, k),
        decreases last + 1 - at,
    {
        if matches_at(s, pattern, at) {
            return true;
        }
        at = at + 1;
    }
    false
}

/// Index of the last occurrence of `c` in `s`, or -1.
pub open spec fn last_index_of(s: Seq<char>, c: char) -> int
    decreases s.len(),
{
    if s.len() == 0 {
        -1
    } else if s.last() == c {
        s.len() - 1
    } else {
        last_index_of(s.drop_last(), c)
    }
}

/// Both slash and backslash separate the components of a path.
pub open spec fn is_separator(c: char) -> bool {
    c == '/' || c == '\\'
}

/// Index of the last path separator in `s`, or -1.
pub open spec fn last_separator(s: Seq<char>) -> int
    decreases s.len(),
{
    if s.len() == 0 {
        -1
    } else if is_separator(s.last()) {
        s.len() - 1
    } else {
        last_separator(s.drop_last())
    }
}

/// What follows the last path separator.
pub open spec fn final_component(path: Seq<char>) -> Seq<char> {
    path.subrange(last_separator(path) + 1, path.len() as int)
}

/// The extension of a file name: what follows its last dot, unless that dot
/// is the first character or there is none; then the extension is empty.
pub open spec fn extension_of_name(name: Seq<char>) -> Seq<char> {
    let dot = last_index_of(name, '.');
    if dot > 0 {
        name.subrange(dot + 1, name.len() as int)
    } else {
        Seq::empty()
    }
}

/// The extension of the final component of `path`, without the dot.
pub open spec fn extension_of(path: Seq<char>) -> Seq<char> {
    extension_of_name(final_component(path))
}

/// The characters of `s` from `from` up to, not including, `to`.
pub fn copy_range(s: &Vec<char>, from: usize, to: usize) -> (out: Vec<char>)
    requires
        from <= to <= s.len(),
    ensures
        out@ == s@.subrange(from as int, to as int),
{
    let mut out: Vec<char> = Vec::new();
    let mut i: usize = from;
    while i < to
        invariant
            from <= i <= to,
            to <= s.len(),
            out@ == s@.subrange(from as int, i as int),
        decreases to - i,
    {
        out.push(s[i]);
        i = i + 1;
    }
    out
}

/// The extension of the final component of `path`, without the dot.
pub fn file_extension(path: &Vec<char>) -> (ext: Vec<char>)
    ensures
        ext@ == extension_of(path@),
{
    let mut start: usize = 0;
    let mut i: usize = 0;
    while i < path.len()
        invariant
            i <= path.len(),
            start as int == last_separator(path@.take(i as int)) + 1,
            start <= i,
        decreases path.len() - i,
    {
        assert(path@.take(i + 1).drop_last() == path@.take(i as int));
        if path[i] == '/' || path[i] == '\\' {
            start = i + 1;
        }
        i = i + 1;
    }
    assert(path@.take(path.len() as int) == path@);
    let ghost name = final_component(path@);
    let mut dot: usize = 0;
    let mut found: bool = false;
    let mut j: usize = start;
    while j < path.len()
        invariant
            start <= j <= path.len(),
            name == path@.subrange(start as int, path.len() as int),
            found ==> start <= dot < j && dot - start == last_index_of(name.take(j - start), '.'),
            !found ==> last_index_of(name.take(j - start), '.') == -1,
        decreases path.len() - j,
    {
        assert(name.take(j - start + 1).drop_last() == name.take(j - start));
        if path[j] == '.' {
            dot = j;
            found = true;
        }
        j = j + 1;
    }
    assert(name.take(path.len() - start) == name);
    if found && dot > start {
        let ext = copy_range(path, dot + 1, path.len());
        assert(ext@ == name.subrange(dot - start + 1, name.len() as int));
        ext
    } else {
        Vec::new()
    }
}

/// The characters that count as white space when a word is trimmed.
pub open spec fn is_space(c: char) -> bool {
    ||| ('\u{9}' <= c && c <= '\u{d}')
    ||| c == ' '
    ||| c == '\u{85}'
    ||| c == '\u{a0}'
    ||| c == '\u{1680}'
    ||| ('\u{2000}' <= c && c <= '\u{200a}')
    ||| c == '\u{2028}'
    ||| c == '\u{2029}'
    ||| c == '\u{202f}'
    ||| c == '\u{205f}'
    ||| c == '\u{3000}'
}

/// Whether `c` is white space.
pub fn is_space_char(c: char) -> (b: bool)
    ensures
        b == is_space(c),
{
    ('\u{9}' <= c && c <= '\u{d}') || c == ' ' || c == '\u{85}' || c == '\u{a0}' || c == '\u{1680}'
        || ('\u{2000}' <= c && c <= '\u{200a}') || c == '\u{2028}' || c == '\u{2029}' || c
        == '\u{202f}' || c == '\u{205f}' || c == '\u{3000}'
}

/// `s` without its leading white space.
pub open spec fn trim_start(s: Seq<char>) -> Seq<char>
    decreases s.len(),
{
    if s.len() > 0 && is_space(s.first()) {
        trim_start(s.drop_first())
    } else {
        s
    }
}

/// `s` without its trailing white space.
pub open spec fn trim_end(s: Seq<char>) -> Seq<char>
    decreases s.len(),
{
    if s.len() > 0 && is_space(s.last()) {
        trim_end(s.drop_last())
    } else {
        s
    }
}

/// `s` without leading and trailing white space.
pub open spec fn trimmed(s: Seq<char>) -> Seq<char> {
    trim_end(trim_start(s))
}

/// `s` without leading and trailing white space.
pub fn trim(s: &Vec<char>) -> (out: Vec<char>)
    ensures
        out@ == trimmed(s@),
{
    let mut from: usize = 0;
    assert(s@.skip(0) == s@);
    while from < s.len() && is_space_char(s[from])
        invariant
            from <= s.len(),
            trim_start(s@) == trim_start(s@.skip(from as int)),
        decreases s.len() - from,
    {
        assert(s@.skip(from as int).drop_first() == s@.skip(from + 1));
        from = from + 1;
    }
    let ghost rest = s@.skip(from as int);
    assert(trim_start(s@) == rest);
    let mut to: usize = s.len();
    assert(rest.take(s.len() - from) == rest);
    while to > from && is_space_char(s[to - 1])
        invariant
            from <= to <= s.len(),
            rest == s@.skip(from as int),
            trim_end(rest) == trim_end(rest.take(to - from)),
        decreases to,
    {
        assert(rest.take(to - from).drop_last() == rest.take(to - from - 1));
        to = to - 1;
    }
    assert(rest.take(to - from) == s@.subrange(from as int, to as int));
    copy_range(s, from, to)
}

} // verus!
