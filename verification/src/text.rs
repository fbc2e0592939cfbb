//! Character-level helpers shared by the backends.
//!
//! Strings are modelled by their sequence of characters. The executable
//! functions work on a `Vec<char>` copy of the text, so that every scan is
//! linear, and cut the answer out of the string itself at the end.

use vstd::prelude::*;
use vstd::string::*;

verus! {

/// Whether `c` has the Unicode property `White_Space`: the controls from tab to carriage
/// return, the space, the next-line control, the no-break space, the Ogham space mark,
/// the spaces from en quad to hair space, the line and paragraph separators, the narrow
/// no-break space, the medium mathematical space and the ideographic space.
pub open spec fn is_white_space(c: char) -> bool {
    let v = c as u32;
    ||| 0x0009 <= v <= 0x000d
    ||| v == 0x0020
    ||| v == 0x0085
    ||| v == 0x00a0
    ||| v == 0x1680
    ||| 0x2000 <= v <= 0x200a
    ||| v == 0x2028
    ||| v == 0x2029
    ||| v == 0x202f
    ||| v == 0x205f
    ||| v == 0x3000
}

/// `char::is_whitespace` tells whether a character has the Unicode property
/// `White_Space`.
pub assume_specification[ char::is_whitespace ](c: char) -> (b: bool)
    ensures
        b == is_white_space(c),
;

/// The model of a text that may be missing.
pub open spec fn text_view(text: Option<&str>) -> Option<Seq<char>> {
    match text {
        Some(s) => Some(s@),
        None => None,
    }
}

/// `s` without its leading white space.
pub open spec fn trim_start(s: Seq<char>) -> Seq<char>
    decreases s.len(),
{
    if s.len() > 0 && is_white_space(s[0]) {
        trim_start(s.skip(1))
    } else {
        s
    }
}

/// `s` without its trailing white space.
pub open spec fn trim_end(s: Seq<char>) -> Seq<char>
    decreases s.len(),
{
    if s.len() > 0 && is_white_space(s.last()) {
        trim_end(s.drop_last())
    } else {
        s
    }
}

/// `s` without leading and trailing white space.
pub open spec fn trimmed(s: Seq<char>) -> Seq<char> {
    trim_end(trim_start(s))
}

/// The length of the first line of `s`: the number of characters before the first line feed,
/// or all of them where there is none.
pub open spec fn line_end(s: Seq<char>) -> nat
    decreases s.len(),
{
    if s.len() == 0 || s[0] == '\n' {
        0
    } else {
        1 + line_end(s.skip(1))
    }
}

/// The line feed as a byte. In UTF-8 this byte stands for the line feed and for nothing
/// else, so a text can be cut into lines before it is decoded.
pub const LINE_FEED: u8 = 0x0a;

/// The length of the first line of `s`, a text that is not decoded yet: the number of
/// bytes before the first line feed, or all of them where there is none.
pub open spec fn byte_line_end(s: Seq<u8>) -> nat
    decreases s.len(),
{
    if s.len() == 0 || s[0] == LINE_FEED {
        0
    } else {
        1 + byte_line_end(s.skip(1))
    }
}

/// Whether `pattern` occurs in `s` as a contiguous run of characters.
pub open spec fn contains(s: Seq<char>, pattern: Seq<char>) -> bool {
    exists|i: int| occurs_at(s, pattern, i)
}

/// Whether `pattern` occurs in `s` at index `i`.
pub open spec fn occurs_at(s: Seq<char>, pattern: Seq<char>, i: int) -> bool {
    0 <= i && i + pattern.len() <= s.len() && s.subrange(i, i + pattern.len()) == pattern
}

/// A text that neither begins nor ends with white space is left as it is.
pub proof fn lemma_trimmed_of_tight(s: Seq<char>)
    requires
        s.len() > 0 ==> !is_white_space(s[0]) && !is_white_space(s.last()),
    ensures
        trimmed(s) == s,
{
}

/// A text that neither begins nor ends with white space is what is left of the line that
/// holds it: the line feed after it is trimmed away.
pub proof fn lemma_trimmed_of_line(s: Seq<char>)
    requires
        s.len() > 0,
        !is_white_space(s[0]),
        !is_white_space(s.last()),
    ensures
        trimmed(s + seq!['\n']) == s,
{
    let line = s + seq!['\n'];
    assert(line[0] == s[0]);
    assert(trim_start(line) == line);
    assert(line.last() == '\n');
    assert(line.drop_last() =~= s);
    assert(trim_end(line) == trim_end(s));
}

/// The first line feed, or the end of the text, is where the first line ends.
pub proof fn lemma_line_end_is(s: Seq<char>, n: int)
    requires
        0 <= n <= s.len(),
        n < s.len() ==> s[n] == '\n',
        forall|k: int| 0 <= k < n ==> s[k] != '\n',
    ensures
        line_end(s) == n,
    decreases s.len(),
{
    if s.len() == 0 || s[0] == '\n' {
    } else {
        let rest = s.skip(1);
        assert forall|k: int| 0 <= k < n - 1 implies rest[k] != '\n' by {
            assert(rest[k] == s[k + 1]);
        }
        lemma_line_end_is(rest, n - 1);
    }
}

/// The first line feed, or the end of the bytes, is where the first line ends.
pub proof fn lemma_byte_line_end_is(s: Seq<u8>, n: int)
    requires
        0 <= n <= s.len(),
        n < s.len() ==> s[n] == LINE_FEED,
        forall|k: int| 0 <= k < n ==> s[k] != LINE_FEED,
    ensures
        byte_line_end(s) == n,
    decreases s.len(),
{
    if s.len() == 0 || s[0] == LINE_FEED {
    } else {
        let rest = s.skip(1);
        assert forall|k: int| 0 <= k < n - 1 implies rest[k] != LINE_FEED by {
            assert(rest[k] == s[k + 1]);
        }
        lemma_byte_line_end_is(rest, n - 1);
    }
}

/// The characters of `s`, in order.
pub fn chars_of(s: &str) -> (chars: Vec<char>)
    ensures
        chars@ == s@,
{
    let mut chars: Vec<char> = Vec::new();
    for c in it: s.chars()
        invariant
            it.seq() == s@,
            chars@ == s@.take(it.index() as int),
    {
        chars.push(c);
    }
    chars
}

/// The characters of `s` from index `from` up to `to`, as a string of their own.
pub(crate) fn slice_of(s: &str, from: usize, to: usize) -> (part: String)
    requires
        from <= to <= s@.len(),
    ensures
        part@ == s@.subrange(from as int, to as int),
{
    s.substring_char(from, to).to_owned()
}

/// Whether the characters of `chars` from `from` up to `to` begin with `prefix`.
pub(crate) fn starts_with_at(chars: &Vec<char>, from: usize, to: usize, prefix: &Vec<char>) -> (found: bool)
    requires
        from <= to <= chars.len(),
    ensures
        found == prefix@.is_prefix_of(chars@.subrange(from as int, to as int)),
{
    let n: usize = prefix.len();
    if n > to - from {
        return false;
    }
    let ghost part = chars@.subrange(from as int, to as int);
    let mut i: usize = 0;
    while i < n
        invariant
            i <= n,
            n == prefix.len(),
            n <= to - from,
            from <= to <= chars.len(),
            part == chars@.subrange(from as int, to as int),
            forall|k: int| 0 <= k < i ==> prefix@[k] == part[k],
        decreases n - i,
    {
        if chars[from + i] != prefix[i] {
            assert(part.subrange(0, n as int)[i as int] != prefix@[i as int]);
            return false;
        }
        i += 1;
    }
    assert(prefix@ =~= part.subrange(0, n as int));
    true
}

/// Whether the characters of `chars` from `from` up to `to` end with `suffix`.
pub(crate) fn ends_with_at(chars: &Vec<char>, from: usize, to: usize, suffix: &Vec<char>) -> (found: bool)
    requires
        from <= to <= chars.len(),
    ensures
        found == suffix@.is_suffix_of(chars@.subrange(from as int, to as int)),
{
    let n: usize = suffix.len();
    if n > to - from {
        return false;
    }
    let ghost part = chars@.subrange(from as int, to as int);
    let start: usize = to - n;
    let mut i: usize = 0;
    while i < n
        invariant
            i <= n,
            n == suffix.len(),
            n <= to - from,
            start == to - n,
            from <= to <= chars.len(),
            part == chars@.subrange(from as int, to as int),
            forall|k: int| 0 <= k < i ==> suffix@[k] == part[part.len() - n + k],
        decreases n - i,
    {
        if chars[start + i] != suffix[i] {
            assert(part.subrange(part.len() - n, part.len() as int)[i as int] != suffix@[i as int]);
            return false;
        }
        i += 1;
    }
    assert(suffix@ =~= part.subrange(part.len() - n, part.len() as int));
    true
}

/// Where the line that starts at `from` ends, in the text that ends at `to`: the index of
/// the next line feed, or `to` where there is none before it.
pub(crate) fn line_end_in(chars: &Vec<char>, from: usize, to: usize) -> (end: usize)
    requires
        from <= to <= chars.len(),
    ensures
        end == from + line_end(chars@.subrange(from as int, to as int)),
        from <= end <= to,
{
    let mut end: usize = from;
    while end < to && chars[end] != '\n'
        invariant
            from <= end <= to <= chars.len(),
            forall|k: int| from <= k < end ==> chars@[k] != '\n',
        decreases to - end,
    {
        end += 1;
    }
    proof {
        lemma_line_end_is(chars@.subrange(from as int, to as int), end - from);
    }
    end
}

/// Where the line that starts at `from` ends in `bytes`: the index of the next line feed,
/// or the end of the bytes.
pub(crate) fn byte_line_end_in(bytes: &[u8], from: usize) -> (end: usize)
    requires
        from <= bytes@.len(),
    ensures
        end == from + byte_line_end(bytes@.subrange(from as int, bytes@.len() as int)),
        from <= end <= bytes@.len(),
{
    let n: usize = bytes.len();
    let mut end: usize = from;
    while end < n && bytes[end] != LINE_FEED
        invariant
            from <= end <= n,
            n == bytes@.len(),
            forall|k: int| from <= k < end ==> bytes@[k] != LINE_FEED,
        decreases n - end,
    {
        end += 1;
    }
    proof {
        lemma_byte_line_end_is(bytes@.subrange(from as int, n as int), end - from);
    }
    end
}

/// The bounds of what is left of the characters from `from` up to `to` once the white space
/// at both ends is gone.
pub(crate) fn trim_range(chars: &Vec<char>, from: usize, to: usize) -> (bounds: (usize, usize))
    requires
        from <= to <= chars.len(),
    ensures
        from <= bounds.0 <= bounds.1 <= to,
        chars@.subrange(bounds.0 as int, bounds.1 as int) == trimmed(
            chars@.subrange(from as int, to as int),
        ),
{
    let mut a: usize = from;
    while a < to && chars[a].is_whitespace()
        invariant
            from <= a <= to <= chars.len(),
            trim_start(chars@.subrange(from as int, to as int)) == trim_start(
                chars@.subrange(a as int, to as int),
            ),
        decreases to - a,
    {
        assert(chars@.subrange(a as int, to as int).skip(1) =~= chars@.subrange(a + 1, to as int));
        a += 1;
    }
    let mut b: usize = to;
    while b > a && chars[b - 1].is_whitespace()
        invariant
            a <= b <= to <= chars.len(),
            trim_end(chars@.subrange(a as int, to as int)) == trim_end(
                chars@.subrange(a as int, b as int),
            ),
        decreases b - a,
    {
        assert(chars@.subrange(a as int, b as int).drop_last() =~= chars@.subrange(
            a as int,
            b - 1,
        ));
        b -= 1;
    }
    (a, b)
}

/// `s` without leading and trailing white space.
pub fn trim(s: &str) -> (r: String)
    ensures
        r@ == trimmed(s@),
{
    let chars = chars_of(s);
    let (a, b) = trim_range(&chars, 0, chars.len());
    assert(chars@.subrange(0, chars.len() as int) =~= chars@);
    slice_of(s, a, b)
}

/// Whether `a` and `b` hold the same characters.
pub fn same(a: &str, b: &str) -> (equal: bool)
    ensures
        equal == (a@ == b@),
{
    let left = chars_of(a);
    let right = chars_of(b);
    if left.len() != right.len() {
        return false;
    }
    assert(left@.subrange(0, left.len() as int) =~= left@);
    let found = starts_with_at(&left, 0, left.len(), &right);
    assert(found ==> right@ =~= left@);
    found
}

/// Whether `pattern` occurs somewhere in `s`.
pub fn has_substring(s: &str, pattern: &str) -> (found: bool)
    ensures
        found == contains(s@, pattern@),
{
    let chars = chars_of(s);
    let wanted = chars_of(pattern);
    let n: usize = chars.len();
    let m: usize = wanted.len();
    if m > n {
        assert forall|i: int| !occurs_at(s@, pattern@, i) by {}
        return false;
    }
    let mut i: usize = 0;
    while i <= n - m
        invariant
            m <= n,
            n == chars.len(),
            m == wanted.len(),
            chars@ == s@,
            wanted@ == pattern@,
            i <= n - m + 1,
            forall|k: int| 0 <= k < i ==> !occurs_at(s@, pattern@, k),
        decreases n - m + 1 - i,
    {
        let here = starts_with_at(&chars, i, n, &wanted);
        proof {
            let part = chars@.subrange(i as int, n as int);
            assert(part.subrange(0, m as int) =~= chars@.subrange(i as int, i + m));
        }
        if here {
            assert(occurs_at(s@, pattern@, i as int));
            return true;
        }
        i += 1;
    }
    assert forall|k: int| !occurs_at(s@, pattern@, k) by {}
    false
}

} // verus!
