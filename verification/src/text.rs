//! Operations on strings, stated over their sequences of characters.
use vstd::prelude::*;

verus! {

/// Whether `c` has the Unicode property `White_Space`.
pub open spec fn white_space(c: char) -> bool {
    ||| '\u{9}' <= c <= '\u{d}'
    ||| c == '\u{20}'
    ||| c == '\u{85}'
    ||| c == '\u{a0}'
    ||| c == '\u{1680}'
    ||| '\u{2000}' <= c <= '\u{200a}'
    ||| '\u{2028}' <= c <= '\u{2029}'
    ||| c == '\u{202f}'
    ||| c == '\u{205f}'
    ||| c == '\u{3000}'
}

/// `s` without the white space at its start.
pub open spec fn trimmed_start(s: Seq<char>) -> Seq<char>
    decreases s.len(),
{
    if s.len() > 0 && white_space(s.first()) {
        trimmed_start(s.drop_first())
    } else {
        s
    }
}

/// `s` without the white space at its end.
pub open spec fn trimmed_end(s: Seq<char>) -> Seq<char>
    decreases s.len(),
{
    if s.len() > 0 && white_space(s.last()) {
        trimmed_end(s.drop_last())
    } else {
        s
    }
}

/// `s` without the white space at either end.
pub open spec fn trimmed(s: Seq<char>) -> Seq<char> {
    trimmed_end(trimmed_start(s))
}

/// `s` without the slashes at its end.
pub open spec fn without_end_slashes(s: Seq<char>) -> Seq<char>
    decreases s.len(),
{
    if s.len() > 0 && s.last() == '/' {
        without_end_slashes(s.drop_last())
    } else {
        s
    }
}

/// What follows `prefix` in `s`, if `s` starts with it.
pub open spec fn after_prefix(s: Seq<char>, prefix: Seq<char>) -> Option<Seq<char>> {
    if prefix.is_prefix_of(s) {
        Some(s.skip(prefix.len() as int))
    } else {
        None
    }
}

/// What precedes `suffix` in `s`, if `s` ends with it.
pub open spec fn before_suffix(s: Seq<char>, suffix: Seq<char>) -> Option<Seq<char>> {
    if suffix.is_suffix_of(s) {
        Some(s.take(s.len() - suffix.len()))
    } else {
        None
    }
}

/// The elements of `parts` in order, with `separator` between each two of them.
pub open spec fn joined(parts: Seq<Seq<char>>, separator: Seq<char>) -> Seq<char>
    decreases parts.len(),
{
    if parts.len() == 0 {
        Seq::empty()
    } else if parts.len() == 1 {
        parts[0]
    } else {
        joined(parts.drop_last(), separator) + separator + parts.last()
    }
}

/// The number of bytes that `s` takes in UTF-8.
pub open spec fn utf8_len(s: Seq<char>) -> nat {
    vstd::utf8::encode_utf8(s).len()
}

/// The number of bytes that `s` takes in UTF-8.
pub fn byte_len(s: &str) -> (r: usize)
    ensures
        r == utf8_len(s@),
{
    s.as_bytes().len()
}

/// Tells whether `c` is white space.
pub fn is_white_space(c: char) -> (r: bool)
    ensures
        r == white_space(c),
{
    ('\u{9}' <= c && c <= '\u{d}') || c == '\u{20}' || c == '\u{85}' || c == '\u{a0}' || c
        == '\u{1680}' || ('\u{2000}' <= c && c <= '\u{200a}') || ('\u{2028}' <= c && c
        <= '\u{2029}') || c == '\u{202f}' || c == '\u{205f}' || c == '\u{3000}'
}

/// The characters of `s`.
pub(crate) fn characters(s: &str) -> (r: Vec<char>)
    ensures
        r@ == s@,
{
    let mut chars: Vec<char> = Vec::new();
    for c in it: s.chars()
        invariant
            chars@ == it.seq().take(it.index()),
            it.seq() == s@,
    {
        chars.push(c);
    }
    chars
}

/// `s` without the white space at either end.
pub fn trim<'a>(s: &'a str) -> (r: &'a str)
    ensures
        r@ == trimmed(s@),
{
    let chars = characters(s);
    let len: usize = chars.len();
    let mut start: usize = 0;
    assert(s@.skip(0) == s@);
    while start < len && is_white_space(chars[start])
        invariant
            start <= len == s@.len(),
            chars@ == s@,
            trimmed_start(s@) == trimmed_start(s@.skip(start as int)),
        decreases len - start,
    {
        assert(s@.skip(start as int).drop_first() == s@.skip(start + 1));
        start += 1;
    }
    let ghost rest = s@.skip(start as int);
    assert(trimmed_start(s@) == rest);
    let mut end: usize = len;
    assert(s@.subrange(start as int, end as int) == rest);
    while start < end && is_white_space(chars[end - 1])
        invariant
            start <= end <= len == s@.len(),
            chars@ == s@,
            trimmed_end(rest) == trimmed_end(s@.subrange(start as int, end as int)),
        decreases end - start,
    {
        assert(s@.subrange(start as int, end as int).drop_last() == s@.subrange(
            start as int,
            end - 1,
        ));
        end -= 1;
    }
    s.substring_char(start, end)
}

/// `s` without the slashes at its end.
pub fn trim_end_slashes<'a>(s: &'a str) -> (r: &'a str)
    ensures
        r@ == without_end_slashes(s@),
{
    let chars = characters(s);
    let mut end: usize = chars.len();
    assert(s@.take(end as int) == s@);
    while 0 < end && chars[end - 1] == '/'
        invariant
            end <= s@.len(),
            chars@ == s@,
            without_end_slashes(s@) == without_end_slashes(s@.take(end as int)),
        decreases end,
    {
        assert(s@.take(end as int).drop_last() == s@.take(end - 1));
        end -= 1;
    }
    s.substring_char(0, end)
}

/// Tells whether `part` stands in `chars` from `offset` on.
fn holds_at(chars: &Vec<char>, offset: usize, part: &Vec<char>) -> (r: bool)
    requires
        offset + part@.len() <= chars@.len(),
    ensures
        r == (part@ == chars@.subrange(offset as int, offset + part@.len())),
{
    let len: usize = chars.len();
    let mut i: usize = 0;
    while i < part.len()
        invariant
            i <= part@.len(),
            offset + part@.len() <= chars@.len() == len,
            forall|j: int| 0 <= j < i ==> part@[j] == chars@[offset + j],
        decreases part@.len() - i,
    {
        if part[i] != chars[offset + i] {
            assert(part@[i as int] != chars@.subrange(offset as int, offset + part@.len())[i as int]);
            return false;
        }
        i += 1;
    }
    assert(part@ == chars@.subrange(offset as int, offset + part@.len()));
    true
}

/// What follows `prefix` in `s`, if `s` starts with it.
pub fn strip_prefix<'a>(s: &'a str, prefix: &str) -> (r: Option<&'a str>)
    ensures
        r is Some == after_prefix(s@, prefix@) is Some,
        r is Some ==> r->0@ == after_prefix(s@, prefix@)->0,
{
    let chars = characters(s);
    let part = characters(prefix);
    if part.len() <= chars.len() && holds_at(&chars, 0, &part) {
        let rest = s.substring_char(part.len(), chars.len());
        assert(rest@ == s@.skip(prefix@.len() as int));
        Some(rest)
    } else {
        None
    }
}

/// What precedes `suffix` in `s`, if `s` ends with it.
pub fn strip_suffix<'a>(s: &'a str, suffix: &str) -> (r: Option<&'a str>)
    ensures
        r is Some == before_suffix(s@, suffix@) is Some,
        r is Some ==> r->0@ == before_suffix(s@, suffix@)->0,
{
    let chars = characters(s);
    let part = characters(suffix);
    if part.len() <= chars.len() && holds_at(&chars, chars.len() - part.len(), &part) {
        Some(s.substring_char(0, chars.len() - part.len()))
    } else {
        None
    }
}

/// Tells whether `s` starts with `prefix`.
pub fn starts_with(s: &str, prefix: &str) -> (r: bool)
    ensures
        r == prefix@.is_prefix_of(s@),
{
    strip_prefix(s, prefix).is_some()
}

/// Tells whether `s` ends with `suffix`.
pub fn ends_with(s: &str, suffix: &str) -> (r: bool)
    ensures
        r == suffix@.is_suffix_of(s@),
{
    strip_suffix(s, suffix).is_some()
}

/// Tells whether the two strings are the same.
pub fn same(s: &str, other: &str) -> (r: bool)
    ensures
        r == (s@ == other@),
{
    let chars = characters(s);
    let part = characters(other);
    assert(s@.subrange(0, s@.len() as int) == s@);
    chars.len() == part.len() && holds_at(&chars, 0, &part)
}

/// The strings of `parts` in order, with `separator` between each two of them.
pub fn join(parts: &Vec<String>, separator: &str) -> (r: String)
    ensures
        r@ == joined(parts@.map_values(|p: String| p@), separator@),
{
    let ghost all = parts@.map_values(|p: String| p@);
    let mut out = String::new();
    let mut i: usize = 0;
    while i < parts.len()
        invariant
            i <= parts@.len(),
            all == parts@.map_values(|p: String| p@),
            out@ == joined(all.take(i as int), separator@),
        decreases parts@.len() - i,
    {
        if i > 0 {
            out.append(separator);
        }
        out.append(parts[i].as_str());
        assert(all.take(i + 1).drop_last() == all.take(i as int));
        assert(all.take(i + 1).last() == parts@[i as int]@);
        assert(i == 0 ==> Seq::<char>::empty() + parts@[0]@ == parts@[0]@);
        i += 1;
    }
    assert(all.take(i as int) == all);
    out
}

/// `first` followed by `second`.
pub fn concat(first: &str, second: &str) -> (r: String)
    ensures
        r@ == first@ + second@,
{
    first.to_string().concat(second)
}

} // verus!
