//! Laws of the operations on strings.
use crate::text::{
    after_prefix, before_suffix, joined, trimmed, trimmed_end, trimmed_start, utf8_len,
    white_space, without_end_slashes,
};
use vstd::prelude::*;
use vstd::utf8::encode_utf8;

verus! {

proof fn lemma_trimmed_start_is_rest(s: Seq<char>) -> (start: int)
    ensures
        0 <= start <= s.len(),
        trimmed_start(s) == s.skip(start),
        forall|i: int| 0 <= i < start ==> white_space(#[trigger] s[i]),
    decreases s.len(),
{
    if s.len() > 0 && white_space(s.first()) {
        let rest = s.drop_first();
        let start = lemma_trimmed_start_is_rest(rest);
        assert(rest.skip(start) == s.skip(start + 1));
        assert forall|i: int| 0 <= i < start + 1 implies white_space(#[trigger] s[i]) by {
            if i > 0 {
                assert(s[i] == rest[i - 1]);
            }
        }
        start + 1
    } else {
        assert(s.skip(0) == s);
        0
    }
}

proof fn lemma_trimmed_end_is_rest(s: Seq<char>) -> (end: int)
    ensures
        0 <= end <= s.len(),
        trimmed_end(s) == s.take(end),
        forall|i: int| end <= i < s.len() ==> white_space(#[trigger] s[i]),
    decreases s.len(),
{
    if s.len() > 0 && white_space(s.last()) {
        let rest = s.drop_last();
        let end = lemma_trimmed_end_is_rest(rest);
        assert(rest.take(end) == s.take(end));
        assert forall|i: int| end <= i < s.len() implies white_space(#[trigger] s[i]) by {
            if i < rest.len() {
                assert(s[i] == rest[i]);
            }
        }
        end
    } else {
        assert(s.take(s.len() as int) == s);
        s.len() as int
    }
}

/// Trimming takes away white space at the two ends and nothing else: what is
/// left stands in the text as it was, with only white space round it.
pub proof fn law_trimming_keeps_the_rest(s: Seq<char>)
    ensures
        exists|start: int, end: int|
            {
                &&& 0 <= start <= end <= s.len()
                &&& trimmed(s) == #[trigger] s.subrange(start, end)
                &&& forall|i: int| 0 <= i < start || end <= i < s.len() ==> white_space(
                    #[trigger] s[i],
                )
            },
{
    let start = lemma_trimmed_start_is_rest(s);
    let rest = s.skip(start);
    let end = lemma_trimmed_end_is_rest(rest);
    assert(rest.take(end) == s.subrange(start, start + end));
    assert forall|i: int| 0 <= i < start || start + end <= i < s.len() implies white_space(
        #[trigger] s[i],
    ) by {
        if i >= start {
            assert(s[i] == rest[i - start]);
        }
    }
}

/// Text without white space at its ends is left as it is by trimming, and so is
/// every such text between white space.
pub proof fn law_trimming_finds_the_text(before: Seq<char>, text: Seq<char>, after: Seq<char>)
    requires
        forall|i: int| 0 <= i < before.len() ==> white_space(#[trigger] before[i]),
        forall|i: int| 0 <= i < after.len() ==> white_space(#[trigger] after[i]),
        text.len() > 0 ==> !white_space(text.first()) && !white_space(text.last()),
    ensures
        trimmed(before + text + after) == text,
{
    let s = before + text + after;
    let start = lemma_trimmed_start_is_rest(s);
    let rest = s.skip(start);
    let end = lemma_trimmed_end_is_rest(rest);
    super::lines::law_trimmed_has_no_ends(s);
    let stop = start + end;
    assert(trimmed(s) == s.subrange(start, stop));
    if text.len() > 0 {
        let first = before.len() as int;
        let last = first + text.len() - 1;
        assert(s[first] == text.first());
        assert(s[last] == text.last());
        assert(start <= first);
        assert(last < stop) by {
            if stop <= last {
                assert(s[last] == rest[last - start]);
            }
        }
        assert(trimmed(s).first() == s[start]);
        assert(trimmed(s).last() == s[stop - 1]);
        if start < first {
            assert(s[start] == before[start]);
        }
        if stop - 1 > last {
            assert(s[stop - 1] == after[stop - 1 - last - 1]);
        }
        assert(s.subrange(start, stop) == text);
    } else {
        if stop > start {
            assert(trimmed(s).first() == s[start]);
            assert(white_space(s[start])) by {
                if start < before.len() {
                    assert(s[start] == before[start]);
                } else {
                    assert(s[start] == after[start - before.len()]);
                }
            }
        }
        assert(trimmed(s) == text);
    }
}

/// However many slashes follow a text that ends without one, taking the slashes
/// away gives that text.
pub proof fn law_only_end_slashes_go(text: Seq<char>, slashes: Seq<char>)
    requires
        text.len() > 0 ==> text.last() != '/',
        forall|i: int| 0 <= i < slashes.len() ==> #[trigger] slashes[i] == '/',
    ensures
        without_end_slashes(text + slashes) == text,
    decreases slashes.len(),
{
    if slashes.len() == 0 {
        assert(text + slashes == text);
    } else {
        assert((text + slashes).last() == slashes[slashes.len() - 1]);
        assert((text + slashes).drop_last() == text + slashes.drop_last());
        law_only_end_slashes_go(text, slashes.drop_last());
    }
}

/// A prefix is found exactly where the text is that prefix followed by a rest,
/// and the rest is what is given.
pub proof fn law_prefix_and_rest(s: Seq<char>, prefix: Seq<char>, rest: Seq<char>)
    ensures
        after_prefix(s, prefix) == Some(rest) <==> s == prefix + rest,
{
    if after_prefix(s, prefix) == Some(rest) {
        assert(s == s.subrange(0, prefix.len() as int) + s.skip(prefix.len() as int));
    }
    if s == prefix + rest {
        assert(s.subrange(0, prefix.len() as int) == prefix);
        assert(s.skip(prefix.len() as int) == rest);
    }
}

/// A suffix is found exactly where the text is a base followed by that suffix,
/// and the base is what is given.
pub proof fn law_base_and_suffix(s: Seq<char>, base: Seq<char>, suffix: Seq<char>)
    ensures
        before_suffix(s, suffix) == Some(base) <==> s == base + suffix,
{
    if before_suffix(s, suffix) == Some(base) {
        let at = s.len() - suffix.len();
        assert(s.subrange(at, s.len() as int) == suffix);
        assert(s == s.take(at) + s.subrange(at, s.len() as int));
    }
    if s == base + suffix {
        let at = s.len() - suffix.len();
        assert(s.subrange(at, s.len() as int) == suffix);
        assert(s.take(at) == base);
    }
}

/// Two lists of parts, neither of them empty, are joined with one separator
/// between them. One part alone is left as it is.
pub proof fn law_joined_in_two_parts(
    first: Seq<Seq<char>>,
    second: Seq<Seq<char>>,
    part: Seq<char>,
    separator: Seq<char>,
)
    requires
        first.len() > 0,
        second.len() > 0,
    ensures
        joined(first + second, separator) == joined(first, separator) + separator + joined(
            second,
            separator,
        ),
        joined(seq![part], separator) == part,
        joined(Seq::empty(), separator) == Seq::<char>::empty(),
    decreases second.len(),
{
    let both = first + second;
    let shorter = second.drop_last();
    assert(both.drop_last() == first + shorter);
    assert(both.last() == second.last());
    if second.len() == 1 {
        assert(first + shorter == first);
        assert(second[0] == second.last());
    } else {
        law_joined_in_two_parts(first, shorter, part, separator);
        assert(joined(first, separator) + separator + joined(shorter, separator) + separator
            + second.last() =~= joined(first, separator) + separator + (joined(shorter, separator)
            + separator + second.last()));
    }
}

proof fn lemma_encoded_sum(first: Seq<char>, second: Seq<char>)
    ensures
        encode_utf8(first + second) == encode_utf8(first) + encode_utf8(second),
    decreases first.len(),
{
    if first.len() == 0 {
        assert(first + second == second);
    } else {
        assert((first + second).drop_first() == first.drop_first() + second);
        assert((first + second)[0] == first[0]);
        lemma_encoded_sum(first.drop_first(), second);
    }
    assert(encode_utf8(first + second) =~= encode_utf8(first) + encode_utf8(second));
}

/// The length in bytes is that of the text's encoding in UTF-8, and the lengths
/// of two texts add up.
pub proof fn law_byte_lengths(first: Seq<char>, second: Seq<char>)
    ensures
        utf8_len(first) == encode_utf8(first).len(),
        utf8_len(first + second) == utf8_len(first) + utf8_len(second),
{
    lemma_encoded_sum(first, second);
}

/// ASCII text has as many bytes as characters.
pub proof fn law_ascii_length(s: Seq<char>)
    requires
        vstd::utf8::is_ascii_chars(s),
    ensures
        utf8_len(s) == s.len(),
{
    vstd::utf8::is_ascii_chars_encode_utf8(s);
}

} // verus!
