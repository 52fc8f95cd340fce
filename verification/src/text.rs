//! Text by characters: whitespace, trimming, comparison that ignores the case
//! of ASCII letters, and numbers in decimal digits.
//!
//! The specifications speak of a text as a `Seq<char>`; the executable functions
//! that scan walk a `Vec<char>` between two indices and return indices.

use vstd::prelude::*;
use vstd::string::*;

verus! {

/// Whether `c` has the Unicode property `White_Space`.
pub open spec fn is_whitespace(c: char) -> bool {
    ||| ('\u{0009}' <= c && c <= '\u{000D}')
    ||| c == '\u{0020}'
    ||| c == '\u{0085}'
    ||| c == '\u{00A0}'
    ||| c == '\u{1680}'
    ||| ('\u{2000}' <= c && c <= '\u{200A}')
    ||| c == '\u{2028}'
    ||| c == '\u{2029}'
    ||| c == '\u{202F}'
    ||| c == '\u{205F}'
    ||| c == '\u{3000}'
}

/// `s` without the whitespace it starts with.
pub open spec fn trim_start(s: Seq<char>) -> Seq<char>
    decreases s.len(),
{
    if s.len() > 0 && is_whitespace(s[0]) {
        trim_start(s.drop_first())
    } else {
        s
    }
}

/// `s` without the whitespace it ends with.
pub open spec fn trim_end(s: Seq<char>) -> Seq<char>
    decreases s.len(),
{
    if s.len() > 0 && is_whitespace(s.last()) {
        trim_end(s.drop_last())
    } else {
        s
    }
}

/// `s` without the whitespace at either end.
pub open spec fn trim(s: Seq<char>) -> Seq<char> {
    trim_end(trim_start(s))
}

/// The lower-case form of an ASCII capital letter; any other character itself.
pub open spec fn ascii_lower(c: char) -> char {
    if 'A' <= c && c <= 'Z' {
        ((c as u8) + 32) as char
    } else {
        c
    }
}

/// Whether `a` and `b` are the same text once the case of ASCII letters is
/// ignored.
pub open spec fn eq_ignore_ascii_case(a: Seq<char>, b: Seq<char>) -> bool {
    &&& a.len() == b.len()
    &&& forall|i: int| 0 <= i < a.len() ==> ascii_lower(#[trigger] a[i]) == ascii_lower(b[i])
}

/// Skipping whitespace from `lo` stops at `k`: what is left of `s[lo..hi]` is
/// `s[k..hi]`.
pub proof fn lemma_trim_start_subrange(s: Seq<char>, lo: int, k: int, hi: int)
    requires
        0 <= lo <= k <= hi <= s.len(),
        forall|j: int| lo <= j < k ==> is_whitespace(s[j]),
        k == hi || !is_whitespace(s[k]),
    ensures
        trim_start(s.subrange(lo, hi)) == s.subrange(k, hi),
    decreases k - lo,
{
    let t = s.subrange(lo, hi);
    if lo < k {
        assert(t.drop_first() == s.subrange(lo + 1, hi));
        lemma_trim_start_subrange(s, lo + 1, k, hi);
    }
}

/// Skipping whitespace backwards from `hi` stops at `k`: what is left of
/// `s[lo..hi]` is `s[lo..k]`.
pub proof fn lemma_trim_end_subrange(s: Seq<char>, lo: int, k: int, hi: int)
    requires
        0 <= lo <= k <= hi <= s.len(),
        forall|j: int| k <= j < hi ==> is_whitespace(s[j]),
        k == lo || !is_whitespace(s[k - 1]),
    ensures
        trim_end(s.subrange(lo, hi)) == s.subrange(lo, k),
    decreases hi - k,
{
    let t = s.subrange(lo, hi);
    if k < hi {
        assert(t.drop_last() == s.subrange(lo, hi - 1));
        lemma_trim_end_subrange(s, lo, k, hi - 1);
    }
}

/// What is left when leading whitespace goes is the end of the text, and does
/// not start with whitespace.
pub proof fn lemma_trim_start(s: Seq<char>)
    ensures
        trim_start(s).len() <= s.len(),
        trim_start(s) == s.subrange(s.len() - trim_start(s).len(), s.len() as int),
        trim_start(s).len() > 0 ==> !is_whitespace(trim_start(s)[0]),
    decreases s.len(),
{
    if s.len() > 0 && is_whitespace(s[0]) {
        lemma_trim_start(s.drop_first());
    }
}

/// What is left when trailing whitespace goes is the start of the text, and
/// does not end with whitespace.
pub proof fn lemma_trim_end(s: Seq<char>)
    ensures
        trim_end(s).len() <= s.len(),
        trim_end(s) == s.subrange(0, trim_end(s).len() as int),
        trim_end(s).len() > 0 ==> !is_whitespace(trim_end(s).last()),
    decreases s.len(),
{
    if s.len() > 0 && is_whitespace(s.last()) {
        lemma_trim_end(s.drop_last());
    }
}

/// A trimmed text is a part of the text that neither starts nor ends with
/// whitespace, and trimming it again changes nothing.
pub proof fn lemma_trim(s: Seq<char>)
    ensures
        trim(s).len() <= s.len(),
        trim(s).len() > 0 ==> !is_whitespace(trim(s)[0]) && !is_whitespace(trim(s).last()),
        trim(trim(s)) == trim(s),
{
    let t = trim_start(s);
    lemma_trim_start(s);
    lemma_trim_end(t);
}

/// The characters of `s`, in order.
pub fn to_chars(s: &str) -> (v: Vec<char>)
    ensures
        v@ == s@,
{
    let mut v: Vec<char> = Vec::new();
    for c in it: s.chars()
        invariant
            v@ == it.seq().take(it.index() as int),
            it.seq() == s@,
    {
        v.push(c);
    }
    v
}

/// Whether `c` is whitespace.
pub fn char_is_whitespace(c: char) -> (b: bool)
    ensures
        b == is_whitespace(c),
{
    ('\u{0009}' <= c && c <= '\u{000D}') || c == '\u{0020}' || c == '\u{0085}' || c == '\u{00A0}'
        || c == '\u{1680}' || ('\u{2000}' <= c && c <= '\u{200A}') || c == '\u{2028}' || c
        == '\u{2029}' || c == '\u{202F}' || c == '\u{205F}' || c == '\u{3000}'
}

/// The bounds of `s[lo..hi]` once trimmed.
pub fn trim_bounds(s: &Vec<char>, lo: usize, hi: usize) -> (r: (usize, usize))
    requires
        lo <= hi <= s.len(),
    ensures
        lo <= r.0 <= r.1 <= hi,
        s@.subrange(r.0 as int, r.1 as int) == trim(s@.subrange(lo as int, hi as int)),
{
    let mut a: usize = lo;
    while a < hi && char_is_whitespace(s[a])
        invariant
            lo <= a <= hi <= s.len(),
            forall|j: int| lo <= j < a ==> is_whitespace(s@[j]),
        decreases hi - a,
    {
        a += 1;
    }
    let mut b: usize = hi;
    while a < b && char_is_whitespace(s[b - 1])
        invariant
            a <= b <= hi <= s.len(),
            forall|j: int| b <= j < hi ==> is_whitespace(s@[j]),
        decreases b - a,
    {
        b -= 1;
    }
    proof {
        lemma_trim_start_subrange(s@, lo as int, a as int, hi as int);
        lemma_trim_end_subrange(s@, a as int, b as int, hi as int);
    }
    (a, b)
}

/// `s` without the whitespace at either end.
pub fn trimmed(s: &str) -> (r: String)
    ensures
        r@ == trim(s@),
{
    let chars = to_chars(s);
    let (a, b) = trim_bounds(&chars, 0, chars.len());
    assert(chars@.subrange(0, chars.len() as int) == chars@);
    s.substring_char(a, b).to_owned()
}

/// The lower-case form of `c` where it is an ASCII capital letter.
pub fn char_ascii_lower(c: char) -> (r: char)
    ensures
        r == ascii_lower(c),
{
    if 'A' <= c && c <= 'Z' {
        ((c as u8) + 32) as char
    } else {
        c
    }
}

/// Whether `a[lo..hi]` and `b` match once the case of ASCII letters is ignored.
pub fn range_eq_ignore_ascii_case(a: &Vec<char>, lo: usize, hi: usize, b: &Vec<char>) -> (r: bool)
    requires
        lo <= hi <= a.len(),
    ensures
        r == eq_ignore_ascii_case(a@.subrange(lo as int, hi as int), b@),
{
    if hi - lo != b.len() {
        return false;
    }
    let ghost t = a@.subrange(lo as int, hi as int);
    let mut i: usize = 0;
    while i < b.len()
        invariant
            lo <= hi <= a.len(),
            hi - lo == b.len(),
            i <= b.len(),
            t == a@.subrange(lo as int, hi as int),
            forall|j: int| 0 <= j < i ==> ascii_lower(#[trigger] t[j]) == ascii_lower(b@[j]),
        decreases b.len() - i,
    {
        if char_ascii_lower(a[lo + i]) != char_ascii_lower(b[i]) {
            assert(t[i as int] == a@[lo + i]);
            return false;
        }
        i += 1;
    }
    true
}

/// The decimal digit of `d`, for `d` below ten.
pub open spec fn digit(d: nat) -> char {
    ((48 + d) as u8) as char
}

/// `n` in decimal digits, without leading zeros.
pub open spec fn decimal(n: nat) -> Seq<char>
    decreases n,
{
    if n < 10 {
        seq![digit(n)]
    } else {
        decimal(n / 10).push(digit(n % 10))
    }
}

/// `n` in decimal digits, behind a minus sign where it is negative.
pub open spec fn signed_decimal(n: int) -> Seq<char> {
    if n < 0 {
        seq!['-'] + decimal((-n) as nat)
    } else {
        decimal(n as nat)
    }
}

/// The decimal digit of `d`, as a text.
fn digit_str(d: u64) -> (r: &'static str)
    requires
        d < 10,
    ensures
        r@ == seq![digit(d as nat)],
{
    proof {
        reveal_strlit("0");
        reveal_strlit("1");
        reveal_strlit("2");
        reveal_strlit("3");
        reveal_strlit("4");
        reveal_strlit("5");
        reveal_strlit("6");
        reveal_strlit("7");
        reveal_strlit("8");
        reveal_strlit("9");
    }
    if d == 0 {
        "0"
    } else if d == 1 {
        "1"
    } else if d == 2 {
        "2"
    } else if d == 3 {
        "3"
    } else if d == 4 {
        "4"
    } else if d == 5 {
        "5"
    } else if d == 6 {
        "6"
    } else if d == 7 {
        "7"
    } else if d == 8 {
        "8"
    } else {
        "9"
    }
}

/// `n` in decimal digits.
pub fn decimal_string(n: u64) -> (r: String)
    ensures
        r@ == decimal(n as nat),
    decreases n,
{
    if n < 10 {
        digit_str(n).to_owned()
    } else {
        let mut r = decimal_string(n / 10);
        r.append(digit_str(n % 10));
        r
    }
}

/// `n` in decimal digits, behind a minus sign where it is negative.
pub fn signed_decimal_string(n: i32) -> (r: String)
    ensures
        r@ == signed_decimal(n as int),
{
    if n < 0 {
        let m: u64 = (0 - (n as i64)) as u64;
        let digits = decimal_string(m);
        proof {
            reveal_strlit("-");
        }
        "-".to_owned().concat(digits.as_str())
    } else {
        decimal_string(n as u64)
    }
}

} // verus!
