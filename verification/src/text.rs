//! Text primitives that the checks rest on: case folding, substring search
//! and a few conversions between `str`, `String` and characters.

use vstd::prelude::*;
use vstd::string::*;

verus! {

/// The lower-case form of a text, as the standard library computes it.
pub uninterp spec fn lowercase(s: Seq<char>) -> Seq<char>;

/// Calls `str::to_lowercase`. The result is a function of the text alone
/// (Unicode case mapping, no locale); the contract gives it the name
/// `lowercase`.
#[verifier::external_body]
pub(crate) fn to_lowercase(s: &str) -> (r: String)
    ensures
        r@ == lowercase(s@),
{
    s.to_lowercase()
}

/// `needle` stands in `hay` at position `i`.
pub open spec fn occurs_at(hay: Seq<char>, needle: Seq<char>, i: int) -> bool {
    0 <= i && i + needle.len() <= hay.len() && hay.subrange(i, i + needle.len()) == needle
}

/// `needle` stands somewhere in `hay`. The empty text stands in every text.
pub open spec fn contains_text(hay: Seq<char>, needle: Seq<char>) -> bool {
    exists|i: int| occurs_at(hay, needle, i)
}

/// The characters of a text.
pub fn chars_of(s: &str) -> (r: Vec<char>)
    ensures
        r@ == s@,
{
    let mut out: Vec<char> = Vec::new();
    for c in iter: s.chars()
        invariant
            iter.seq() == s@,
            out@ == s@.subrange(0, iter.index() as int),
    {
        out.push(c);
        assert(out@ =~= s@.subrange(0, iter.index() + 1));
    }
    assert(out@ =~= s@);
    out
}

/// Whether `pattern` stands in `s` at position `at`.
fn stands_at(s: &Vec<char>, pattern: &Vec<char>, at: usize) -> (r: bool)
    requires
        at <= s@.len(),
    ensures
        r == pattern@.is_prefix_of(s@.subrange(at as int, s@.len() as int)),
        r == occurs_at(s@, pattern@, at as int),
{
    let n = s.len();
    let m = pattern.len();
    let ghost rest = s@.subrange(at as int, n as int);
    if m > n - at {
        return false;
    }
    let mut k: usize = 0;
    while k < m
        invariant
            k <= m,
            m == pattern@.len(),
            n == s@.len(),
            at + m <= n,
            rest == s@.subrange(at as int, n as int),
            forall|j: int| 0 <= j < k ==> pattern@[j] == s@[at + j],
        decreases m - k,
    {
        if s[at + k] != pattern[k] {
            assert(rest.subrange(0, m as int)[k as int] != pattern@[k as int]);
            assert(s@.subrange(at as int, at + m)[k as int] != pattern@[k as int]);
            return false;
        }
        k += 1;
    }
    assert(pattern@ =~= rest.subrange(0, m as int));
    assert(pattern@ =~= s@.subrange(at as int, at + m));
    true
}

/// Whether `needle` stands somewhere in `hay`.
pub fn str_contains(hay: &str, needle: &str) -> (b: bool)
    ensures
        b == contains_text(hay@, needle@),
{
    let text = chars_of(hay);
    let pattern = chars_of(needle);
    if pattern.len() > text.len() {
        return false;
    }
    let last = text.len() - pattern.len();
    let mut i: usize = 0;
    while i < last
        invariant
            i <= last,
            text@ == hay@,
            pattern@ == needle@,
            last == text@.len() - pattern@.len(),
            forall|j: int| 0 <= j < i ==> !occurs_at(text@, pattern@, j),
        decreases last - i,
    {
        if stands_at(&text, &pattern, i) {
            return true;
        }
        i += 1;
    }
    stands_at(&text, &pattern, last)
}

/// The text with every match of `pattern` taken out. The matches are found
/// from the left and do not overlap. The empty pattern takes nothing out.
pub open spec fn without_pattern(s: Seq<char>, pattern: Seq<char>) -> Seq<char>
    decreases s.len(),
{
    if pattern.len() == 0 || s.len() == 0 {
        s
    } else if pattern.is_prefix_of(s) {
        without_pattern(s.subrange(pattern.len() as int, s.len() as int), pattern)
    } else {
        seq![s[0]] + without_pattern(s.subrange(1, s.len() as int), pattern)
    }
}

/// White space: the characters with the Unicode property `White_Space`.
pub open spec fn is_white_space(c: char) -> bool {
    ||| c == ' '
    ||| ('\u{9}' <= c && c <= '\u{D}')
    ||| c == '\u{85}'
    ||| c == '\u{A0}'
    ||| c == '\u{1680}'
    ||| ('\u{2000}' <= c && c <= '\u{200A}')
    ||| c == '\u{2028}'
    ||| c == '\u{2029}'
    ||| c == '\u{202F}'
    ||| c == '\u{205F}'
    ||| c == '\u{3000}'
}

/// A text without the white space at its start.
pub open spec fn without_leading_space(s: Seq<char>) -> Seq<char>
    decreases s.len(),
{
    if s.len() > 0 && is_white_space(s[0]) {
        without_leading_space(s.subrange(1, s.len() as int))
    } else {
        s
    }
}

/// A text without the white space at its end.
pub open spec fn without_trailing_space(s: Seq<char>) -> Seq<char>
    decreases s.len(),
{
    if s.len() > 0 && is_white_space(s.last()) {
        without_trailing_space(s.drop_last())
    } else {
        s
    }
}

/// A text without the white space at its start and at its end.
pub open spec fn trimmed(s: Seq<char>) -> Seq<char> {
    without_trailing_space(without_leading_space(s))
}

/// Whether a character is white space.
pub fn is_whitespace(c: char) -> (r: bool)
    ensures
        r == is_white_space(c),
{
    c == ' ' || ('\u{9}' <= c && c <= '\u{D}') || c == '\u{85}' || c == '\u{A0}' || c
        == '\u{1680}' || ('\u{2000}' <= c && c <= '\u{200A}') || c == '\u{2028}' || c
        == '\u{2029}' || c == '\u{202F}' || c == '\u{205F}' || c == '\u{3000}'
}

/// Takes every match of `pattern` out of a text.
pub fn remove_pattern(s: &str, pattern: &str) -> (r: String)
    ensures
        r@ == without_pattern(s@, pattern@),
{
    let text = chars_of(s);
    let pat = chars_of(pattern);
    let n = text.len();
    let m = pat.len();
    if m == 0 {
        return s.to_owned();
    }
    let mut out = String::new();
    let mut i: usize = 0;
    assert(text@.subrange(0, n as int) =~= text@);
    assert(out@ + without_pattern(text@, pat@) =~= without_pattern(text@, pat@));
    while i < n
        invariant
            i <= n,
            n == text@.len(),
            m == pat@.len(),
            m > 0,
            out@ + without_pattern(text@.subrange(i as int, n as int), pat@) == without_pattern(
                text@,
                pat@,
            ),
        decreases n - i,
    {
        let ghost rest = text@.subrange(i as int, n as int);
        let ghost before = out@;
        if stands_at(&text, &pat, i) {
            assert(rest.subrange(m as int, rest.len() as int) =~= text@.subrange(
                i + m,
                n as int,
            ));
            i += m;
        } else {
            push_char(&mut out, text[i]);
            assert(rest.subrange(1, rest.len() as int) =~= text@.subrange(i + 1, n as int));
            assert(out@ + without_pattern(text@.subrange(i + 1, n as int), pat@) =~= before
                + without_pattern(rest, pat@));
            i += 1;
        }
    }
    assert(out@ + without_pattern(text@.subrange(n as int, n as int), pat@) =~= out@);
    out
}

/// Takes the white space off both ends of a text.
pub fn trim(s: &str) -> (r: &str)
    ensures
        r@ == trimmed(s@),
{
    let text = chars_of(s);
    let n = text.len();
    let mut a: usize = 0;
    assert(text@.subrange(0, n as int) =~= text@);
    while a < n && is_whitespace(text[a])
        invariant
            a <= n,
            n == text@.len(),
            without_leading_space(text@) == without_leading_space(
                text@.subrange(a as int, n as int),
            ),
        decreases n - a,
    {
        assert(text@.subrange(a as int, n as int).subrange(1, n - a) =~= text@.subrange(
            a + 1,
            n as int,
        ));
        a += 1;
    }
    let mut b: usize = n;
    while b > a && is_whitespace(text[b - 1])
        invariant
            a <= b <= n,
            n == text@.len(),
            trimmed(text@) == without_trailing_space(text@.subrange(a as int, b as int)),
        decreases b,
    {
        assert(text@.subrange(a as int, b as int).drop_last() =~= text@.subrange(
            a as int,
            b - 1,
        ));
        b -= 1;
    }
    s.substring_char(a, b)
}

/// Calls `String::push`: the character is appended.
#[verifier::external_body]
pub(crate) fn push_char(s: &mut String, c: char)
    ensures
        final(s)@ == old(s)@.push(c),
{
    s.push(c)
}

/// Whether two texts hold the same characters.
pub fn same_text(a: &str, b: &str) -> (r: bool)
    ensures
        r == (a@ == b@),
{
    let x = a.to_owned();
    let y = b.to_owned();
    x == y
}

/// The first character of a text, if it has one.
pub fn first_char(s: &str) -> (c: Option<char>)
    ensures
        c == (if s@.len() > 0 {
            Some(s@[0])
        } else {
            None
        }),
{
    if s.unicode_len() > 0 {
        Some(s.get_char(0))
    } else {
        None
    }
}

/// A text without the run of characters `c` at its end.
pub open spec fn without_trailing(s: Seq<char>, c: char) -> Seq<char>
    decreases s.len(),
{
    if s.len() > 0 && s.last() == c {
        without_trailing(s.drop_last(), c)
    } else {
        s
    }
}

/// Takes the run of characters `c` off the end of a text.
pub fn trim_end_matches(s: &str, c: char) -> (r: &str)
    ensures
        r@ == without_trailing(s@, c),
{
    let text = chars_of(s);
    let mut n = text.len();
    assert(text@.subrange(0, n as int) =~= text@);
    while n > 0 && text[n - 1] == c
        invariant
            n <= text@.len(),
            without_trailing(text@, c) == without_trailing(text@.subrange(0, n as int), c),
        decreases n,
    {
        assert(text@.subrange(0, n as int).drop_last() =~= text@.subrange(0, n - 1));
        n -= 1;
    }
    s.substring_char(0, n)
}

/// A text without the repetitions of `pattern` at its start. The empty
/// pattern takes nothing off.
pub open spec fn without_leading(s: Seq<char>, pattern: Seq<char>) -> Seq<char>
    decreases s.len(),
{
    if pattern.len() > 0 && pattern.is_prefix_of(s) {
        without_leading(s.subrange(pattern.len() as int, s.len() as int), pattern)
    } else {
        s
    }
}

/// Takes the repetitions of `pattern` off the start of a text.
pub fn trim_start_matches<'a>(s: &'a str, pattern: &str) -> (r: &'a str)
    ensures
        r@ == without_leading(s@, pattern@),
{
    let text = chars_of(s);
    let pat = chars_of(pattern);
    let n = text.len();
    let m = pat.len();
    if m == 0 {
        return s;
    }
    let mut start: usize = 0;
    assert(text@.subrange(0, n as int) =~= text@);
    while stands_at(&text, &pat, start)
        invariant
            start <= n,
            n == text@.len(),
            m == pat@.len(),
            m > 0,
            without_leading(text@, pat@) == without_leading(
                text@.subrange(start as int, n as int),
                pat@,
            ),
        decreases n - start,
    {
        assert(text@.subrange(start as int, n as int).subrange(m as int, n - start)
            =~= text@.subrange(start + m, n as int));
        start += m;
    }
    s.substring_char(start, n)
}

/// The digit of a number below ten.
pub open spec fn digit_char(d: nat) -> char {
    if d == 0 {
        '0'
    } else if d == 1 {
        '1'
    } else if d == 2 {
        '2'
    } else if d == 3 {
        '3'
    } else if d == 4 {
        '4'
    } else if d == 5 {
        '5'
    } else if d == 6 {
        '6'
    } else if d == 7 {
        '7'
    } else if d == 8 {
        '8'
    } else {
        '9'
    }
}

/// A number written in decimal digits, without leading zeros.
pub open spec fn decimal(n: nat) -> Seq<char>
    decreases n,
{
    if n < 10 {
        seq![digit_char(n)]
    } else {
        decimal(n / 10).push(digit_char(n % 10))
    }
}

fn digit(d: usize) -> (c: char)
    requires
        d < 10,
    ensures
        c == digit_char(d as nat),
{
    if d == 0 {
        '0'
    } else if d == 1 {
        '1'
    } else if d == 2 {
        '2'
    } else if d == 3 {
        '3'
    } else if d == 4 {
        '4'
    } else if d == 5 {
        '5'
    } else if d == 6 {
        '6'
    } else if d == 7 {
        '7'
    } else if d == 8 {
        '8'
    } else {
        '9'
    }
}

/// Writes a number in decimal digits.
pub fn to_decimal(n: usize) -> (r: String)
    ensures
        r@ == decimal(n as nat),
    decreases n,
{
    if n < 10 {
        let mut s = String::new();
        push_char(&mut s, digit(n));
        assert(s@ =~= seq![digit_char(n as nat)]);
        s
    } else {
        let mut s = to_decimal(n / 10);
        push_char(&mut s, digit(n % 10));
        s
    }
}

} // verus!
