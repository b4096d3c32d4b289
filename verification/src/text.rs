//! Character sequences: equality, searching, trimming and lowercasing of
//! strings, stated over `Seq<char>`.

use vstd::prelude::*;

verus! {

/// The lowercase form of a string that has a character outside ASCII, as the
/// Unicode case mapping gives it. The mapping is a function of the string
/// alone; it is not written out here.
pub uninterp spec fn unicode_lowercase(s: Seq<char>) -> Seq<char>;

/// The lowercase form of one ASCII character: `A`..`Z` move to `a`..`z`,
/// every other character stays.
pub open spec fn ascii_lower_char(c: char) -> char {
    if 'A' <= c && c <= 'Z' {
        ((c as u32) + 32) as char
    } else {
        c
    }
}

/// The lowercase form of an ASCII string, character by character.
pub open spec fn ascii_lower(s: Seq<char>) -> Seq<char> {
    Seq::new(s.len(), |i: int| ascii_lower_char(s[i]))
}

/// The lowercase form of a string: character by character where the string
/// is ASCII, the Unicode mapping otherwise.
pub open spec fn lower(s: Seq<char>) -> Seq<char> {
    if vstd::utf8::is_ascii_chars(s) {
        ascii_lower(s)
    } else {
        unicode_lowercase(s)
    }
}

/// Calls `str::to_lowercase` of the standard library. Believed, not proved:
/// on an ASCII string the result has `A`..`Z` replaced by `a`..`z` and all
/// else unchanged; on any other string it is the Unicode lowercase mapping
/// of the argument, which depends on nothing but the argument.
#[verifier::external_body]
pub(crate) fn to_lowercase(s: &str) -> (r: String)
    ensures
        vstd::utf8::is_ascii_chars(s@) ==> r@ == ascii_lower(s@),
        !vstd::utf8::is_ascii_chars(s@) ==> r@ == unicode_lowercase(s@),
{
    s.to_lowercase()
}

/// Whether `c` has the Unicode property White_Space.
pub open spec fn is_whitespace(c: char) -> bool {
    let n = c as u32;
    ||| (0x09 <= n && n <= 0x0D)
    ||| n == 0x20
    ||| n == 0x85
    ||| n == 0xA0
    ||| n == 0x1680
    ||| (0x2000 <= n && n <= 0x200A)
    ||| n == 0x2028
    ||| n == 0x2029
    ||| n == 0x202F
    ||| n == 0x205F
    ||| n == 0x3000
}

/// Whether `c` is one of `0`..`9`.
pub open spec fn is_digit(c: char) -> bool {
    '0' <= c && c <= '9'
}

/// A set of characters that trimming can remove.
#[derive(Clone, Copy, Debug)]
pub enum CharClass {
    /// The one character given.
    Only(char),
    /// Every character but the one given.
    Except(char),
    /// Every character with the property White_Space.
    Whitespace,
    /// Every character without the property White_Space.
    Visible,
}

impl CharClass {
    /// Whether `c` belongs to the class.
    pub open spec fn has(self, c: char) -> bool {
        match self {
            CharClass::Only(x) => c == x,
            CharClass::Except(x) => c != x,
            CharClass::Whitespace => is_whitespace(c),
            CharClass::Visible => !is_whitespace(c),
        }
    }

    /// Tests whether `c` belongs to the class.
    pub fn contains(&self, c: char) -> (r: bool)
        ensures
            r == self.has(c),
    {
        match self {
            CharClass::Only(x) => c == *x,
            CharClass::Except(x) => c != *x,
            CharClass::Whitespace => whitespace(c),
            CharClass::Visible => !whitespace(c),
        }
    }
}

/// Tests whether `c` has the Unicode property White_Space.
pub fn whitespace(c: char) -> (r: bool)
    ensures
        r == is_whitespace(c),
{
    let n: u32 = c as u32;
    (0x09 <= n && n <= 0x0D) || n == 0x20 || n == 0x85 || n == 0xA0 || n == 0x1680 || (0x2000 <= n
        && n <= 0x200A) || n == 0x2028 || n == 0x2029 || n == 0x202F || n == 0x205F || n == 0x3000
}

/// Tests whether `c` is one of `0`..`9`.
pub fn digit(c: char) -> (r: bool)
    ensures
        r == is_digit(c),
{
    '0' <= c && c <= '9'
}

/// The characters of `s`, in order.
pub fn chars_of(s: &str) -> (r: Vec<char>)
    ensures
        r@ == s@,
{
    let mut out: Vec<char> = Vec::new();
    for c in it: s.chars()
        invariant
            it.seq() == s@,
            out@ == s@.take(it.index()),
    {
        out.push(c);
    }
    out
}

/// Tests whether two strings hold the same characters.
pub fn str_eq(a: &str, b: &str) -> (r: bool)
    ensures
        r == (a@ == b@),
{
    let x = a.as_bytes();
    let y = b.as_bytes();
    if x.len() != y.len() {
        return false;
    }
    let mut i: usize = 0;
    while i < x.len()
        invariant
            x@ == vstd::utf8::encode_utf8(a@),
            y@ == vstd::utf8::encode_utf8(b@),
            x@.len() == y@.len(),
            i <= x@.len(),
            x@.take(i as int) == y@.take(i as int),
        decreases x@.len() - i,
    {
        if x[i] != y[i] {
            return false;
        }
        assert(x@.take(i + 1) == x@.take(i as int).push(x@[i as int]));
        assert(y@.take(i + 1) == y@.take(i as int).push(y@[i as int]));
        i += 1;
    }
    proof {
        assert(x@ == x@.take(i as int));
        assert(y@ == y@.take(i as int));
        vstd::utf8::encode_utf8_decode_utf8(a@);
        vstd::utf8::encode_utf8_decode_utf8(b@);
    }
    true
}

/// Whether `needle` stands in `hay` at position `i`.
pub open spec fn occurs_at(hay: Seq<char>, needle: Seq<char>, i: int) -> bool {
    0 <= i && i + needle.len() <= hay.len() && hay.subrange(i, i + needle.len()) == needle
}

/// Whether `needle` stands somewhere in `hay`. The empty string stands in
/// every string.
pub open spec fn contains(hay: Seq<char>, needle: Seq<char>) -> bool {
    exists|i: int| occurs_at(hay, needle, i)
}

/// Tests whether `needle` stands in `hay` at position `at`.
pub fn slice_matches_at(hay: &[char], needle: &[char], at: usize) -> (r: bool)
    requires
        at + needle@.len() <= hay@.len(),
    ensures
        r == occurs_at(hay@, needle@, at as int),
{
    let size: usize = hay.len();
    let mut k: usize = 0;
    while k < needle.len()
        invariant
            size == hay@.len(),
            at + needle@.len() <= hay@.len(),
            k <= needle@.len(),
            hay@.subrange(at as int, at + k) == needle@.take(k as int),
        decreases needle@.len() - k,
    {
        if hay[at + k] != needle[k] {
            assert(hay@.subrange(at as int, at + needle@.len())[k as int] != needle@[k as int]);
            return false;
        }
        assert(hay@.subrange(at as int, at + k + 1) == hay@.subrange(at as int, at + k).push(
            hay@[at + k],
        ));
        assert(needle@.take(k + 1) == needle@.take(k as int).push(needle@[k as int]));
        k += 1;
    }
    assert(needle@.take(k as int) == needle@);
    true
}

/// Tests whether `needle` stands somewhere in `hay`.
pub fn slice_contains(hay: &[char], needle: &[char]) -> (r: bool)
    ensures
        r == contains(hay@, needle@),
{
    if needle.len() > hay.len() {
        return false;
    }
    let last: usize = hay.len() - needle.len();
    let mut i: usize = 0;
    loop
        invariant
            last == hay@.len() - needle@.len(),
            i <= last,
            forall|k: int| 0 <= k < i ==> !occurs_at(hay@, needle@, k),
        decreases last - i,
    {
        if slice_matches_at(hay, needle, i) {
            return true;
        }
        if i == last {
            return false;
        }
        i += 1;
    }
}

/// Tests whether `needle` stands somewhere in `hay`, character for character.
pub fn str_contains(hay: &str, needle: &str) -> (r: bool)
    ensures
        r == contains(hay@, needle@),
{
    let h = chars_of(hay);
    let n = chars_of(needle);
    slice_contains(h.as_slice(), n.as_slice())
}

/// Tests whether the lowercase form of `needle` stands somewhere in the
/// lowercase form of `hay`.
pub fn str_mentions(hay: &str, needle: &str) -> (r: bool)
    ensures
        r == contains(lower(hay@), lower(needle@)),
{
    let h = to_lowercase(hay);
    let n = to_lowercase(needle);
    str_contains(h.as_str(), n.as_str())
}

/// How many characters at the start of `s` belong to `class`.
pub open spec fn leading(s: Seq<char>, class: CharClass) -> nat
    decreases s.len(),
{
    if s.len() > 0 && class.has(s[0]) {
        1 + leading(s.drop_first(), class)
    } else {
        0
    }
}

/// How many characters at the end of `s` belong to `class`.
pub open spec fn trailing(s: Seq<char>, class: CharClass) -> nat
    decreases s.len(),
{
    if s.len() > 0 && class.has(s.last()) {
        1 + trailing(s.drop_last(), class)
    } else {
        0
    }
}

/// `s` without the characters of `class` at its start.
pub open spec fn trim_start(s: Seq<char>, class: CharClass) -> Seq<char> {
    s.skip(leading(s, class) as int)
}

/// `s` without the characters of `class` at its end.
pub open spec fn trim_end(s: Seq<char>, class: CharClass) -> Seq<char> {
    s.take(s.len() - trailing(s, class))
}

/// `s` without the whitespace at its start and at its end.
pub open spec fn trim(s: Seq<char>) -> Seq<char> {
    trim_end(trim_start(s, CharClass::Whitespace), CharClass::Whitespace)
}

/// No more characters lead or trail than the string holds.
pub proof fn lemma_count_bounds(s: Seq<char>, class: CharClass)
    ensures
        leading(s, class) <= s.len(),
        trailing(s, class) <= s.len(),
    decreases s.len(),
{
    if s.len() > 0 {
        lemma_count_bounds(s.drop_first(), class);
        lemma_count_bounds(s.drop_last(), class);
    }
}

/// The leading characters of a class are counted by walking from the start:
/// where the first `n` characters belong to the class and the next one does
/// not (or the string ends), `n` characters lead.
pub proof fn lemma_leading_is(s: Seq<char>, class: CharClass, n: int)
    requires
        0 <= n <= s.len(),
        forall|k: int| 0 <= k < n ==> class.has(#[trigger] s[k]),
        n == s.len() || !class.has(s[n]),
    ensures
        leading(s, class) == n,
    decreases n,
{
    if n > 0 {
        let t = s.drop_first();
        assert forall|k: int| 0 <= k < n - 1 implies class.has(#[trigger] t[k]) by {
            assert(t[k] == s[k + 1]);
        }
        lemma_leading_is(t, class, n - 1);
    }
}

/// The trailing characters of a class are counted by walking from the end.
pub proof fn lemma_trailing_is(s: Seq<char>, class: CharClass, n: int)
    requires
        0 <= n <= s.len(),
        forall|k: int| s.len() - n <= k < s.len() ==> class.has(#[trigger] s[k]),
        n == s.len() || !class.has(s[s.len() - n - 1]),
    ensures
        trailing(s, class) == n,
    decreases n,
{
    if n > 0 {
        let t = s.drop_last();
        assert forall|k: int| t.len() - (n - 1) <= k < t.len() implies class.has(
            #[trigger] t[k],
        ) by {
            assert(t[k] == s[k]);
        }
        lemma_trailing_is(t, class, n - 1);
    }
}

/// Where the characters of `class` at the start of `chars[lo..hi]` end.
pub fn skip_leading(chars: &[char], lo: usize, hi: usize, class: CharClass) -> (r: usize)
    requires
        lo <= hi <= chars@.len(),
    ensures
        lo <= r <= hi,
        r == lo + leading(chars@.subrange(lo as int, hi as int), class),
        chars@.subrange(r as int, hi as int) == trim_start(
            chars@.subrange(lo as int, hi as int),
            class,
        ),
{
    let ghost part = chars@.subrange(lo as int, hi as int);
    let mut i: usize = lo;
    while i < hi && class.contains(chars[i])
        invariant
            lo <= i <= hi <= chars@.len(),
            part == chars@.subrange(lo as int, hi as int),
            forall|k: int| 0 <= k < i - lo ==> class.has(#[trigger] part[k]),
        decreases hi - i,
    {
        assert(part[i - lo] == chars@[i as int]);
        i += 1;
    }
    proof {
        if i < hi {
            assert(part[i - lo] == chars@[i as int]);
        }
        lemma_leading_is(part, class, i - lo);
        assert(part.skip(i - lo) == chars@.subrange(i as int, hi as int));
    }
    i
}

/// Where the characters of `class` at the end of `chars[lo..hi]` begin.
pub fn skip_trailing(chars: &[char], lo: usize, hi: usize, class: CharClass) -> (r: usize)
    requires
        lo <= hi <= chars@.len(),
    ensures
        lo <= r <= hi,
        r == hi - trailing(chars@.subrange(lo as int, hi as int), class),
        chars@.subrange(lo as int, r as int) == trim_end(
            chars@.subrange(lo as int, hi as int),
            class,
        ),
{
    let ghost part = chars@.subrange(lo as int, hi as int);
    let mut j: usize = hi;
    while j > lo && class.contains(chars[j - 1])
        invariant
            lo <= j <= hi <= chars@.len(),
            part == chars@.subrange(lo as int, hi as int),
            forall|k: int| j - lo <= k < hi - lo ==> class.has(#[trigger] part[k]),
        decreases j - lo,
    {
        assert(part[j - 1 - lo] == chars@[j - 1]);
        j -= 1;
    }
    proof {
        if j > lo {
            assert(part[j - 1 - lo] == chars@[j - 1]);
        }
        lemma_trailing_is(part, class, hi - j);
        assert(part.take(j - lo) == chars@.subrange(lo as int, j as int));
    }
    j
}

/// The text between two character positions of `s`, as a string of its own.
pub fn substring(s: &str, from: usize, to: usize) -> (r: String)
    requires
        from <= to <= s@.len(),
    ensures
        r@ == s@.subrange(from as int, to as int),
{
    s.substring_char(from, to).to_owned()
}

} // verus!
