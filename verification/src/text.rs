//! Text primitives of the outline notation: trimming, context tags, decimal
//! numbers. All of them are stated over sequences of characters.

use vstd::prelude::*;
use vstd::string::*;

verus! {

/// Whether `c` is white space, as `char::is_whitespace` answers it (the
/// Unicode property `White_Space`).
pub uninterp spec fn white_space(c: char) -> bool;

/// Calls `char::is_whitespace`. Nothing is claimed of which characters are
/// white space: the answer is only given the name [`white_space`].
#[verifier::external_body]
pub(crate) fn is_white_space(c: char) -> (b: bool)
    ensures
        b == white_space(c),
{
    c.is_whitespace()
}

/// The marker that introduces a context tag.
pub open spec fn context_marker() -> char {
    '@'
}

/// The characters of a string slice, in order.
pub fn chars_of(s: &str) -> (v: Vec<char>)
    ensures
        v@ == s@,
{
    let mut v: Vec<char> = Vec::new();
    for c in it: s.chars()
        invariant
            it.seq() == s@,
            v@ == s@.take(it.index()),
    {
        v.push(c);
    }
    v
}

/// Whether two string slices hold the same characters.
pub fn str_eq(a: &str, b: &str) -> (same: bool)
    ensures
        same == (a@ == b@),
{
    let x = chars_of(a);
    let y = chars_of(b);
    if x.len() != y.len() {
        return false;
    }
    let mut i: usize = 0;
    while i < x.len()
        invariant
            i <= x.len(),
            x.len() == y.len(),
            x@ == a@,
            y@ == b@,
            forall|j: int| 0 <= j < i ==> x@[j] == y@[j],
        decreases x.len() - i,
    {
        if x[i] != y[i] {
            return false;
        }
        i = i + 1;
    }
    assert(a@ =~= b@);
    true
}

/// The first index at or after `i` that holds no white space, or the length
/// of `s` if there is none.
pub open spec fn text_start(s: Seq<char>, i: int) -> int
    decreases s.len() - i,
{
    if 0 <= i < s.len() && white_space(s[i]) {
        text_start(s, i + 1)
    } else {
        i
    }
}

/// The end of the text that remains in `s[lo..j]` once the white space at its
/// end is dropped.
pub open spec fn text_end(s: Seq<char>, lo: int, j: int) -> int
    decreases j,
{
    if 0 <= lo < j <= s.len() && white_space(s[j - 1]) {
        text_end(s, lo, j - 1)
    } else {
        j
    }
}

/// `s` without the white space at its start and at its end.
pub open spec fn trimmed(s: Seq<char>) -> Seq<char> {
    let lo = text_start(s, 0);
    s.subrange(lo, text_end(s, lo, s.len() as int))
}

/// The part of `s` between its leading and its trailing white space.
pub fn trim(s: &str) -> (r: &str)
    ensures
        r@ == trimmed(s@),
{
    let chars = chars_of(s);
    let n = chars.len();
    let mut lo: usize = 0;
    while lo < n && is_white_space(chars[lo])
        invariant
            lo <= n,
            n == chars@.len(),
            text_start(chars@, 0) == text_start(chars@, lo as int),
        decreases n - lo,
    {
        lo = lo + 1;
    }
    let mut hi: usize = n;
    while hi > lo && is_white_space(chars[hi - 1])
        invariant
            lo <= hi <= n,
            n == chars@.len(),
            text_end(chars@, lo as int, n as int) == text_end(chars@, lo as int, hi as int),
        decreases hi,
    {
        hi = hi - 1;
    }
    s.substring_char(lo, hi)
}

/// Whether a word (a longest run of characters that are no white space)
/// starts at index `i` of `s`.
pub open spec fn is_word_start(s: Seq<char>, i: int) -> bool {
    &&& 0 <= i < s.len()
    &&& !white_space(s[i])
    &&& (i == 0 || white_space(s[i - 1]))
}

/// The first index at or after `i` that holds white space, or the length of
/// `s` if there is none.
pub open spec fn word_end(s: Seq<char>, i: int) -> int
    decreases s.len() - i,
{
    if 0 <= i < s.len() && !white_space(s[i]) {
        word_end(s, i + 1)
    } else {
        i
    }
}

/// The context tags among the words of `s` that start at or after `i`: each
/// word that begins with the context marker, without that marker, in order.
pub open spec fn tags_from(s: Seq<char>, i: int) -> Seq<Seq<char>>
    decreases s.len() - i,
{
    if i < 0 || i >= s.len() {
        Seq::empty()
    } else if is_word_start(s, i) && s[i] == context_marker() {
        seq![s.subrange(i + 1, word_end(s, i))] + tags_from(s, i + 1)
    } else {
        tags_from(s, i + 1)
    }
}

/// The context tags that `s` holds.
pub open spec fn context_tags(s: Seq<char>) -> Seq<Seq<char>> {
    tags_from(s, 0)
}

/// The views of the strings of `v`.
pub open spec fn string_views(v: Seq<String>) -> Seq<Seq<char>> {
    Seq::new(v.len(), |i: int| v[i]@)
}

/// Splits `s` at white space and keeps the words that begin with the context
/// marker, each without it.
pub fn extract_context_tags(s: &str) -> (tags: Vec<String>)
    ensures
        string_views(tags@) == context_tags(s@),
{
    let chars = chars_of(s);
    let n = chars.len();
    let mut tags: Vec<String> = Vec::new();
    let mut i: usize = 0;
    while i < n
        invariant
            i <= n,
            n == chars@.len(),
            chars@ == s@,
            string_views(tags@) + tags_from(s@, i as int) == context_tags(s@),
        decreases n - i,
    {
        let starts = !is_white_space(chars[i]) && (i == 0 || is_white_space(chars[i - 1]));
        if starts && chars[i] == '@' {
            let mut j: usize = i + 1;
            while j < n && !is_white_space(chars[j])
                invariant
                    i < j <= n,
                    n == chars@.len(),
                    word_end(chars@, i as int) == word_end(chars@, j as int),
                decreases n - j,
            {
                j = j + 1;
            }
            let tag = s.substring_char(i + 1, j).to_string();
            proof {
                let before = string_views(tags@);
                let after = string_views(tags@.push(tag));
                assert(after =~= before + seq![tag@]);
                assert(before + (seq![tag@] + tags_from(s@, i + 1)) =~= after + tags_from(
                    s@,
                    i + 1,
                ));
            }
            tags.push(tag);
        }
        i = i + 1;
    }
    proof {
        assert(string_views(tags@) + Seq::<Seq<char>>::empty() =~= string_views(tags@));
    }
    tags
}

/// Whether `c` is one of the ten decimal digits.
pub open spec fn is_digit(c: char) -> bool {
    '0' <= c && c <= '9'
}

/// The digit that `c` stands for.
pub open spec fn digit_of(c: char) -> nat {
    (c as u32 - '0' as u32) as nat
}

/// The number that the decimal digits `s` write.
pub open spec fn digits_value(s: Seq<char>) -> nat
    decreases s.len(),
{
    if s.len() == 0 {
        0
    } else {
        digits_value(s.drop_last()) * 10 + digit_of(s.last())
    }
}

/// Whether every character of `s` is a decimal digit.
pub open spec fn all_digits(s: Seq<char>) -> bool {
    forall|i: int| 0 <= i < s.len() ==> is_digit(#[trigger] s[i])
}

/// `s` without one leading plus sign.
pub open spec fn unsigned_part(s: Seq<char>) -> Seq<char> {
    if s.len() > 0 && s[0] == '+' {
        s.drop_first()
    } else {
        s
    }
}

/// The number that `s` writes: decimal digits, at least one, after at most
/// one plus sign, with a value that a `usize` holds. `None` for any other
/// text.
pub open spec fn parse_number(s: Seq<char>) -> Option<usize> {
    let body = unsigned_part(s);
    if body.len() > 0 && all_digits(body) && digits_value(body) <= usize::MAX {
        Some(digits_value(body) as usize)
    } else {
        None
    }
}

/// A number written with more digits is no smaller than the number that its
/// first digits write.
pub proof fn lemma_digits_value_prefix(s: Seq<char>, k: int)
    requires
        0 <= k <= s.len(),
    ensures
        digits_value(s.take(k)) <= digits_value(s),
    decreases s.len() - k,
{
    if k == s.len() {
        assert(s.take(k) =~= s);
    } else {
        lemma_digits_value_prefix(s, k + 1);
        assert(s.take(k + 1).drop_last() =~= s.take(k));
    }
}

/// Reads a decimal number as [`parse_number`] defines it.
pub fn parse_decimal(s: &str) -> (r: Option<usize>)
    ensures
        r == parse_number(s@),
{
    let chars = chars_of(s);
    let n = chars.len();
    let first: usize = if n > 0 && chars[0] == '+' {
        1
    } else {
        0
    };
    let ghost body = unsigned_part(s@);
    assert(body =~= chars@.subrange(first as int, n as int));
    if first == n {
        return None;
    }
    let mut acc: usize = 0;
    let mut i: usize = first;
    while i < n
        invariant
            first <= i <= n,
            n == chars@.len(),
            body == unsigned_part(s@),
            body == chars@.subrange(first as int, n as int),
            all_digits(body.take(i - first)),
            acc == digits_value(body.take(i - first)),
        decreases n - i,
    {
        let c = chars[i];
        assert(c == body[i - first]);
        if c < '0' || c > '9' {
            assert(!is_digit(body[i - first]));
            return None;
        }
        let d: usize = (c as u32 - '0' as u32) as usize;
        proof {
            let longer = body.take(i - first + 1);
            assert(longer.drop_last() =~= body.take(i - first));
            assert(longer.last() == c);
            assert(digits_value(longer) == acc * 10 + d);
            lemma_digits_value_prefix(body, i - first + 1);
        }
        if acc > (usize::MAX - d) / 10 {
            assert(acc * 10 + d > usize::MAX);
            return None;
        }
        acc = acc * 10 + d;
        i = i + 1;
    }
    assert(body.take(n - first) =~= body);
    Some(acc)
}

/// The decimal digit that writes `d`, for `d` below ten.
pub open spec fn digit_char(d: nat) -> char {
    (('0' as u32 + d) as u32) as char
}

/// The decimal digits that write `n`, without leading zeros (one zero for 0).
pub open spec fn decimal_text(n: nat) -> Seq<char>
    decreases n,
{
    if n < 10 {
        seq![digit_char(n)]
    } else {
        decimal_text(n / 10).push(digit_char(n % 10))
    }
}

/// The text of one decimal digit.
fn digit_text(d: usize) -> (r: &'static str)
    requires
        d < 10,
    ensures
        r@ == seq![digit_char(d as nat)],
{
    proof {
        reveal_strlit("0");
        reveal_strlit("1");
        reveal_strlit("2");
        reveal_strlit("3");
        reveal_strlit("4");
        reveal_strlit("5");
        reveal_strlit("6");
        reveal_strlit("7");
        reveal_strlit("8");
        reveal_strlit("9");
    }
    let r = if d == 0 {
        "0"
    } else if d == 1 {
        "1"
    } else if d == 2 {
        "2"
    } else if d == 3 {
        "3"
    } else if d == 4 {
        "4"
    } else if d == 5 {
        "5"
    } else if d == 6 {
        "6"
    } else if d == 7 {
        "7"
    } else if d == 8 {
        "8"
    } else {
        "9"
    };
    assert(r@ =~= seq![digit_char(d as nat)]);
    r
}

/// Writes `n` in decimal digits.
pub fn render_decimal(n: usize) -> (r: String)
    ensures
        r@ == decimal_text(n as nat),
    decreases n,
{
    if n < 10 {
        String::from_str(digit_text(n))
    } else {
        let mut r = render_decimal(n / 10);
        r.append(digit_text(n % 10));
        assert(r@ =~= decimal_text(n as nat));
        r
    }
}

/// `s` from the first character on that is not the context marker.
pub open spec fn without_markers(s: Seq<char>) -> Seq<char>
    decreases s.len(),
{
    if s.len() > 0 && s[0] == context_marker() {
        without_markers(s.drop_first())
    } else {
        s
    }
}

/// Drops every context marker that `s` starts with.
pub fn strip_markers(s: &str) -> (r: &str)
    ensures
        r@ == without_markers(s@),
{
    let chars = chars_of(s);
    let n = chars.len();
    let mut k: usize = 0;
    assert(s@.subrange(0, n as int) =~= s@);
    while k < n && chars[k] == '@'
        invariant
            k <= n,
            n == chars@.len(),
            chars@ == s@,
            without_markers(s@) == without_markers(s@.subrange(k as int, n as int)),
        decreases n - k,
    {
        proof {
            let rest = s@.subrange(k as int, n as int);
            assert(rest.drop_first() =~= s@.subrange(k + 1, n as int));
        }
        k = k + 1;
    }
    s.substring_char(k, n)
}

} // verus!
