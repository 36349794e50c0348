//! Texts: trimming, prefixes and suffixes, and the decimal spelling of numbers.

use vstd::prelude::*;
use crate::mock_reader::decimal_chars;

verus! {

/// A text without every occurrence of `c` at its start.
pub open spec fn trim_leading(text: Seq<char>, c: char) -> Seq<char>
    decreases text.len(),
{
    if text.len() > 0 && text[0] == c {
        trim_leading(text.drop_first(), c)
    } else {
        text
    }
}

/// A text without every repetition of `prefix` at its start (the text itself for an empty
/// prefix).
pub open spec fn trim_leading_text(text: Seq<char>, prefix: Seq<char>) -> Seq<char>
    decreases text.len(),
{
    if prefix.len() > 0 && prefix.len() <= text.len() && text.subrange(0, prefix.len() as int)
        == prefix {
        trim_leading_text(text.subrange(prefix.len() as int, text.len() as int), prefix)
    } else {
        text
    }
}

/// The characters with the unicode `White_Space` property.
pub open spec fn is_white_space(c: char) -> bool {
    let n = c as u32;
    (0x9 <= n && n <= 0xd) || n == 0x20 || n == 0x85 || n == 0xa0 || n == 0x1680 || (0x2000 <= n
        && n <= 0x200a) || n == 0x2028 || n == 0x2029 || n == 0x202f || n == 0x205f || n == 0x3000
}

/// A text without the white space at its end.
pub open spec fn trim_trailing_white_space(text: Seq<char>) -> Seq<char>
    decreases text.len(),
{
    if text.len() > 0 && is_white_space(text.last()) {
        trim_trailing_white_space(text.drop_last())
    } else {
        text
    }
}

/// Whether `prefix` starts `text`.
pub open spec fn has_prefix(text: Seq<char>, prefix: Seq<char>) -> bool {
    prefix.len() <= text.len() && text.subrange(0, prefix.len() as int) == prefix
}

/// Whether `suffix` ends `text`.
pub open spec fn has_suffix(text: Seq<char>, suffix: Seq<char>) -> bool {
    suffix.len() <= text.len() && text.subrange(text.len() - suffix.len(), text.len() as int)
        == suffix
}

/// Whether a character has the unicode `White_Space` property.
pub fn white_space(c: char) -> (b: bool)
    ensures
        b == is_white_space(c),
{
    let n = c as u32;
    (0x9 <= n && n <= 0xd) || n == 0x20 || n == 0x85 || n == 0xa0 || n == 0x1680 || (0x2000 <= n
        && n <= 0x200a) || n == 0x2028 || n == 0x2029 || n == 0x202f || n == 0x205f || n == 0x3000
}

proof fn lemma_trim_leading_step(text: Seq<char>, c: char, i: int)
    requires
        0 <= i < text.len(),
        text[i] == c,
    ensures
        trim_leading(text.subrange(i, text.len() as int), c) == trim_leading(
            text.subrange(i + 1, text.len() as int),
            c,
        ),
{
    let rest = text.subrange(i, text.len() as int);
    assert(rest.drop_first() =~= text.subrange(i + 1, text.len() as int));
}

/// Removes every occurrence of `c` at the start of a text.
pub fn trim_leading_char(text: &str, c: char) -> (trimmed: String)
    ensures
        trimmed@ == trim_leading(text@, c),
{
    let length = text.unicode_len();
    let mut at: usize = 0;
    proof {
        assert(text@.subrange(0, length as int) =~= text@);
    }
    while at < length && text.get_char(at) == c
        invariant
            at <= length,
            length == text@.len(),
            trim_leading(text@.subrange(at as int, length as int), c) == trim_leading(text@, c),
        decreases length - at,
    {
        proof {
            lemma_trim_leading_step(text@, c, at as int);
        }
        at = at + 1;
    }
    let rest = text.substring_char(at, length);
    proof {
        let tail = text@.subrange(at as int, length as int);
        if tail.len() > 0 {
            assert(tail[0] == text@[at as int]);
        }
    }
    String::from_str(rest)
}

proof fn lemma_trim_leading_text_step(text: Seq<char>, prefix: Seq<char>, i: int)
    requires
        0 <= i,
        prefix.len() > 0,
        i + prefix.len() <= text.len(),
        text.subrange(i, i + prefix.len()) == prefix,
    ensures
        trim_leading_text(text.subrange(i, text.len() as int), prefix) == trim_leading_text(
            text.subrange(i + prefix.len(), text.len() as int),
            prefix,
        ),
{
    let rest = text.subrange(i, text.len() as int);
    assert(rest.subrange(0, prefix.len() as int) =~= text.subrange(i, i + prefix.len()));
    assert(rest.subrange(prefix.len() as int, rest.len() as int) =~= text.subrange(
        i + prefix.len(),
        text.len() as int,
    ));
}

/// Whether `prefix` is written in `text` at `at`.
pub fn written_at(text: &str, length: usize, prefix: &str, prefix_length: usize, at: usize) -> (b: bool)
    requires
        length == text@.len(),
        prefix_length == prefix@.len(),
        at <= length,
    ensures
        b == (at + prefix_length <= length && text@.subrange(at as int, at + prefix_length)
            == prefix@),
{
    if prefix_length > length - at {
        return false;
    }
    let mut k: usize = 0;
    while k < prefix_length
        invariant
            k <= prefix_length,
            at + prefix_length <= length,
            length == text@.len(),
            prefix_length == prefix@.len(),
            forall|j: int| 0 <= j < k ==> text@[at + j] == prefix@[j],
        decreases prefix_length - k,
    {
        if text.get_char(at + k) != prefix.get_char(k) {
            proof {
                assert(text@.subrange(at as int, at + prefix_length)[k as int] == text@[at + k]);
            }
            return false;
        }
        k = k + 1;
    }
    proof {
        assert(text@.subrange(at as int, at + prefix_length) =~= prefix@);
    }
    true
}

/// Removes every repetition of `prefix` at the start of a text.
pub fn trim_leading_prefix(text: &str, prefix: &str) -> (trimmed: String)
    ensures
        trimmed@ == trim_leading_text(text@, prefix@),
{
    let length = text.unicode_len();
    let prefix_length = prefix.unicode_len();
    let mut at: usize = 0;
    proof {
        assert(text@.subrange(0, length as int) =~= text@);
    }
    if prefix_length > 0 {
        while written_at(text, length, prefix, prefix_length, at)
            invariant
                at <= length,
                length == text@.len(),
                prefix_length == prefix@.len(),
                prefix_length > 0,
                trim_leading_text(text@.subrange(at as int, length as int), prefix@)
                    == trim_leading_text(text@, prefix@),
            decreases length - at,
        {
            proof {
                lemma_trim_leading_text_step(text@, prefix@, at as int);
            }
            at = at + prefix_length;
        }
        proof {
            let tail = text@.subrange(at as int, length as int);
            if prefix@.len() <= tail.len() {
                assert(tail.subrange(0, prefix@.len() as int) =~= text@.subrange(
                    at as int,
                    at + prefix_length,
                ));
            }
        }
    }
    String::from_str(text.substring_char(at, length))
}

/// Removes the white space at the end of a text.
pub fn trim_trailing(text: &str) -> (trimmed: String)
    ensures
        trimmed@ == trim_trailing_white_space(text@),
{
    let length = text.unicode_len();
    let mut end: usize = length;
    proof {
        assert(text@.subrange(0, length as int) =~= text@);
    }
    while end > 0 && white_space(text.get_char(end - 1))
        invariant
            end <= length,
            length == text@.len(),
            trim_trailing_white_space(text@.subrange(0, end as int)) == trim_trailing_white_space(
                text@,
            ),
        decreases end,
    {
        proof {
            let head = text@.subrange(0, end as int);
            assert(head.drop_last() =~= text@.subrange(0, end - 1));
        }
        end = end - 1;
    }
    proof {
        let head = text@.subrange(0, end as int);
        if head.len() > 0 {
            assert(head.last() == text@[end - 1]);
        }
    }
    String::from_str(text.substring_char(0, end))
}

/// Whether `prefix` starts `text`.
pub fn starts_with(text: &str, prefix: &str) -> (b: bool)
    ensures
        b == has_prefix(text@, prefix@),
{
    let length = text.unicode_len();
    let prefix_length = prefix.unicode_len();
    let b = written_at(text, length, prefix, prefix_length, 0);
    proof {
        if b {
            assert(text@.subrange(0, prefix_length as int) == prefix@);
        }
    }
    b
}

/// Whether `suffix` ends `text`.
pub fn ends_with(text: &str, suffix: &str) -> (b: bool)
    ensures
        b == has_suffix(text@, suffix@),
{
    let length = text.unicode_len();
    let suffix_length = suffix.unicode_len();
    if suffix_length > length {
        return false;
    }
    written_at(text, length, suffix, suffix_length, length - suffix_length)
}

/// Appends the decimal digits of a number.
pub(crate) fn push_decimal(out: &mut String, n: u64)
    ensures
        final(out)@ == old(out)@ + decimal_chars(n as nat),
    decreases n,
{
    if n >= 10 {
        push_decimal(out, n / 10);
    }
    let digit = ((n % 10) as u8 + 48u8) as char;
    out.push(digit);
    proof {
        if n >= 10 {
            assert(decimal_chars(n as nat) == decimal_chars((n / 10) as nat).push(digit));
        }
    }
}

/// A text without the white space at its start.
pub open spec fn trim_leading_white_space(text: Seq<char>) -> Seq<char>
    decreases text.len(),
{
    if text.len() > 0 && is_white_space(text[0]) {
        trim_leading_white_space(text.drop_first())
    } else {
        text
    }
}

/// Removes the white space at both ends of a text.
pub fn trim_white_space(text: &str) -> (trimmed: String)
    ensures
        trimmed@ == trim_trailing_white_space(trim_leading_white_space(text@)),
{
    let length = text.unicode_len();
    let mut at: usize = 0;
    proof {
        assert(text@.subrange(0, length as int) =~= text@);
    }
    while at < length && white_space(text.get_char(at))
        invariant
            at <= length,
            length == text@.len(),
            trim_leading_white_space(text@.subrange(at as int, length as int))
                == trim_leading_white_space(text@),
        decreases length - at,
    {
        proof {
            let rest = text@.subrange(at as int, length as int);
            assert(rest.drop_first() =~= text@.subrange(at + 1, length as int));
        }
        at = at + 1;
    }
    proof {
        let tail = text@.subrange(at as int, length as int);
        if tail.len() > 0 {
            assert(tail[0] == text@[at as int]);
        }
    }
    trim_trailing(text.substring_char(at, length))
}

} // verus!
