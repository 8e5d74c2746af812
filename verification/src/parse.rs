//! Text scanning shared by the command and invite parsers: whitespace trimming as
//! `str::trim` does it and decimal integers as `str::parse` reads them.

use vstd::prelude::*;

verus! {

/// Whether `c` has the Unicode `White_Space` property (what `char::is_whitespace` tests).
pub open spec fn is_ws(c: char) -> bool {
    let u = c as u32;
    (0x09 <= u <= 0x0D) || u == 0x20 || u == 0x85 || u == 0xA0 || u == 0x1680 || (0x2000 <= u
        <= 0x200A) || u == 0x2028 || u == 0x2029 || u == 0x202F || u == 0x205F || u == 0x3000
}

/// Whether `c` is white space.
pub fn char_is_ws(c: char) -> (b: bool)
    ensures
        b == is_ws(c),
{
    let u = c as u32;
    (0x09 <= u && u <= 0x0D) || u == 0x20 || u == 0x85 || u == 0xA0 || u == 0x1680 || (0x2000 <= u
        && u <= 0x200A) || u == 0x2028 || u == 0x2029 || u == 0x202F || u == 0x205F || u == 0x3000
}

/// Number of leading white-space characters of `s`.
pub open spec fn leading_ws(s: Seq<char>) -> nat
    decreases s.len(),
{
    if s.len() > 0 && is_ws(s[0]) {
        1 + leading_ws(s.drop_first())
    } else {
        0
    }
}

/// Number of trailing white-space characters of `s`.
pub open spec fn trailing_ws(s: Seq<char>) -> nat
    decreases s.len(),
{
    if s.len() > 0 && is_ws(s.last()) {
        1 + trailing_ws(s.drop_last())
    } else {
        0
    }
}

/// `s` without leading white space.
pub open spec fn trim_start(s: Seq<char>) -> Seq<char> {
    s.skip(leading_ws(s) as int)
}

/// `s` without leading and trailing white space.
pub open spec fn trim(s: Seq<char>) -> Seq<char> {
    let t = trim_start(s);
    t.take(t.len() - trailing_ws(t))
}

proof fn lemma_leading_ws_bound(s: Seq<char>)
    ensures
        leading_ws(s) <= s.len(),
        forall|k: int| 0 <= k < leading_ws(s) ==> is_ws(#[trigger] s[k]),
        leading_ws(s) < s.len() ==> !is_ws(s[leading_ws(s) as int]),
    decreases s.len(),
{
    if s.len() > 0 && is_ws(s[0]) {
        lemma_leading_ws_bound(s.drop_first());
        assert forall|k: int| 0 <= k < leading_ws(s) implies is_ws(#[trigger] s[k]) by {
            if k > 0 {
                assert(s[k] == s.drop_first()[k - 1]);
            }
        }
    }
}

proof fn lemma_trailing_ws_bound(s: Seq<char>)
    ensures
        trailing_ws(s) <= s.len(),
        forall|k: int| s.len() - trailing_ws(s) <= k < s.len() ==> is_ws(#[trigger] s[k]),
        trailing_ws(s) < s.len() ==> !is_ws(s[s.len() - trailing_ws(s) - 1]),
    decreases s.len(),
{
    if s.len() > 0 && is_ws(s.last()) {
        lemma_trailing_ws_bound(s.drop_last());
        assert forall|k: int| s.len() - trailing_ws(s) <= k < s.len() implies is_ws(#[trigger] s[k]) by {
            if k < s.len() - 1 {
                assert(s[k] == s.drop_last()[k]);
            }
        }
    }
}

/// The count of leading white space is the index of the first other character.
proof fn lemma_leading_ws_exact(s: Seq<char>, n: int)
    requires
        0 <= n <= s.len(),
        forall|k: int| 0 <= k < n ==> is_ws(#[trigger] s[k]),
        n < s.len() ==> !is_ws(s[n]),
    ensures
        leading_ws(s) == n,
    decreases s.len(),
{
    if n > 0 {
        assert(is_ws(s[0]));
        lemma_leading_ws_exact(s.drop_first(), n - 1);
    } else if s.len() > 0 {
        assert(!is_ws(s[0]));
    }
}

/// The count of trailing white space is the distance from the last other character.
proof fn lemma_trailing_ws_exact(s: Seq<char>, n: int)
    requires
        0 <= n <= s.len(),
        forall|k: int| s.len() - n <= k < s.len() ==> is_ws(#[trigger] s[k]),
        n < s.len() ==> !is_ws(s[s.len() - n - 1]),
    ensures
        trailing_ws(s) == n,
    decreases s.len(),
{
    if n > 0 {
        assert(is_ws(s[s.len() - 1]));
        let t = s.drop_last();
        assert forall|k: int| t.len() - (n - 1) <= k < t.len() implies is_ws(#[trigger] t[k]) by {
            assert(t[k] == s[k]);
        }
        if n - 1 < t.len() {
            assert(t[t.len() - (n - 1) - 1] == s[s.len() - n - 1]);
        }
        lemma_trailing_ws_exact(t, n - 1);
    } else if s.len() > 0 {
        assert(!is_ws(s.last()));
    }
}

/// Bounds `[a, b)` of `trim(text[lo..hi])` within `text`.
pub fn trim_bounds(text: &Vec<char>, lo: usize, hi: usize) -> (r: (usize, usize))
    requires
        lo <= hi <= text@.len(),
    ensures
        lo <= r.0 <= r.1 <= hi,
        text@.subrange(r.0 as int, r.1 as int) == trim(text@.subrange(lo as int, hi as int)),
{
    let ghost s = text@.subrange(lo as int, hi as int);
    let mut a = lo;
    while a < hi && char_is_ws(text[a])
        invariant
            lo <= a <= hi,
            hi <= text@.len(),
            forall|k: int| lo <= k < a ==> is_ws(#[trigger] text@[k]),
        decreases hi - a,
    {
        a += 1;
    }
    proof {
        assert forall|k: int| 0 <= k < a - lo implies is_ws(#[trigger] s[k]) by {
            assert(s[k] == text@[lo + k]);
        }
        if a < hi {
            assert(s[a - lo] == text@[a as int]);
        }
        lemma_leading_ws_exact(s, a - lo);
    }
    let ghost t = trim_start(s);
    assert(t =~= text@.subrange(a as int, hi as int));
    let mut b = hi;
    while b > a && char_is_ws(text[b - 1])
        invariant
            a <= b <= hi,
            hi <= text@.len(),
            forall|k: int| b <= k < hi ==> is_ws(#[trigger] text@[k]),
        decreases b - a,
    {
        b -= 1;
    }
    proof {
        let n = (hi - b) as int;
        assert forall|k: int| t.len() - n <= k < t.len() implies is_ws(#[trigger] t[k]) by {
            assert(t[k] == text@[a + k]);
        }
        if n < t.len() {
            assert(t[t.len() - n - 1] == text@[b - 1]);
        }
        lemma_trailing_ws_exact(t, n);
        assert(text@.subrange(a as int, b as int) =~= t.take(t.len() - trailing_ws(t)));
    }
    (a, b)
}

/// Whether `c` is an ASCII decimal digit.
pub open spec fn is_digit(c: char) -> bool {
    '0' <= c <= '9'
}

/// Whether every character of `s` is an ASCII decimal digit.
pub open spec fn all_digits(s: Seq<char>) -> bool {
    forall|k: int| 0 <= k < s.len() ==> is_digit(#[trigger] s[k])
}

/// The decimal value of a string of digits.
pub open spec fn digits_value(s: Seq<char>) -> int
    decreases s.len(),
{
    if s.len() == 0 {
        0
    } else {
        digits_value(s.drop_last()) * 10 + (s.last() as int - '0' as int)
    }
}

/// The value of an unsigned decimal as `str::parse` reads it for a type whose largest value
/// is `max`: an optional `+`, then at least one digit, and nothing else.
pub open spec fn spec_parse_unsigned(s: Seq<char>, max: int) -> Option<int> {
    let body = if s.len() > 0 && s[0] == '+' {
        s.drop_first()
    } else {
        s
    };
    if body.len() > 0 && all_digits(body) && digits_value(body) <= max {
        Some(digits_value(body))
    } else {
        None
    }
}

/// The value of a signed decimal as `str::parse::<i32>` reads it: an optional `+` or `-`,
/// then at least one digit, within the `i32` range.
pub open spec fn spec_parse_i32(s: Seq<char>) -> Option<int> {
    if s.len() > 0 && s[0] == '-' {
        let body = s.drop_first();
        if body.len() > 0 && all_digits(body) && digits_value(body) <= 0x8000_0000 {
            Some(-digits_value(body))
        } else {
            None
        }
    } else {
        spec_parse_unsigned(s, 0x7fff_ffff)
    }
}

proof fn lemma_digits_value_nonneg(s: Seq<char>)
    requires
        all_digits(s),
    ensures
        digits_value(s) >= 0,
    decreases s.len(),
{
    if s.len() > 0 {
        lemma_digits_value_nonneg(s.drop_last());
        assert(is_digit(s[s.len() - 1]));
    }
}

/// A longer string of digits is worth at least as much as its prefix.
proof fn lemma_digits_value_prefix(s: Seq<char>, k: int)
    requires
        all_digits(s),
        0 <= k <= s.len(),
    ensures
        digits_value(s.take(k)) <= digits_value(s),
    decreases s.len() - k,
{
    if k < s.len() {
        lemma_digits_value_prefix(s, k + 1);
        let t = s.take(k + 1);
        assert(t.drop_last() =~= s.take(k));
        assert(is_digit(s[k]));
        lemma_digits_value_nonneg(s.take(k));
    } else {
        assert(s.take(k) =~= s);
    }
}

/// The value of the digits `text[lo..hi]` if they are all digits, none empty, and the value
/// is at most `max`.
fn parse_digits(text: &Vec<char>, lo: usize, hi: usize, max: u64) -> (r: Option<u64>)
    requires
        lo <= hi <= text@.len(),
        max <= 0x1_0000_0000,
    ensures
        ({
            let body = text@.subrange(lo as int, hi as int);
            r == if body.len() > 0 && all_digits(body) && digits_value(body) <= max {
                Some(digits_value(body) as u64)
            } else {
                None
            }
        }),
        r matches Some(v) ==> v <= max && v == digits_value(text@.subrange(lo as int, hi as int)),
{
    let ghost body = text@.subrange(lo as int, hi as int);
    if lo == hi {
        return None;
    }
    let mut acc: u64 = 0;
    let mut i = lo;
    while i < hi
        invariant
            lo <= i <= hi,
            hi <= text@.len(),
            body == text@.subrange(lo as int, hi as int),
            all_digits(body.take(i - lo)),
            acc == digits_value(body.take(i - lo)),
            acc <= max,
            max <= 0x1_0000_0000,
        decreases hi - i,
    {
        let c = text[i];
        if !('0' <= c && c <= '9') {
            proof {
                assert(body[i - lo] == c);
            }
            return None;
        }
        let d = (c as u32 - '0' as u32) as u64;
        proof {
            let t = body.take(i - lo + 1);
            assert(t.drop_last() =~= body.take(i - lo));
            assert(t.last() == c);
            assert forall|k: int| 0 <= k < t.len() implies is_digit(#[trigger] t[k]) by {
                if k < t.len() - 1 {
                    assert(t[k] == body.take(i - lo)[k]);
                }
            }
        }
        acc = acc * 10 + d;
        i += 1;
        if acc > max {
            proof {
                let k = i - lo;
                if all_digits(body) {
                    lemma_digits_value_prefix(body, k as int);
                }
            }
            return None;
        }
    }
    assert(body.take(hi - lo) =~= body);
    proof {
        lemma_digits_value_nonneg(body);
    }
    Some(acc)
}

/// `str::parse` of an unsigned integer type with largest value `max`, over `text[lo..hi]`.
pub fn parse_unsigned(text: &Vec<char>, lo: usize, hi: usize, max: u64) -> (r: Option<u64>)
    requires
        lo <= hi <= text@.len(),
        max <= 0xffff_ffff,
    ensures
        r == match spec_parse_unsigned(text@.subrange(lo as int, hi as int), max as int) {
            Some(v) => Some(v as u64),
            None => None,
        },
        r matches Some(v) ==> v <= max && spec_parse_unsigned(
            text@.subrange(lo as int, hi as int),
            max as int,
        ) == Some(v as int),
{
    let ghost s = text@.subrange(lo as int, hi as int);
    if lo < hi {
        assert(s[0] == text@[lo as int]);
    }
    if lo < hi && text[lo] == '+' {
        assert(s.drop_first() =~= text@.subrange(lo + 1, hi as int));
        parse_digits(text, lo + 1, hi, max)
    } else {
        parse_digits(text, lo, hi, max)
    }
}

/// `str::parse::<i32>` over `text[lo..hi]`.
pub fn parse_i32(text: &Vec<char>, lo: usize, hi: usize) -> (r: Option<i32>)
    requires
        lo <= hi <= text@.len(),
    ensures
        r == match spec_parse_i32(text@.subrange(lo as int, hi as int)) {
            Some(v) => Some(v as i32),
            None => None,
        },
{
    let ghost s = text@.subrange(lo as int, hi as int);
    if lo < hi {
        assert(s[0] == text@[lo as int]);
    }
    if lo < hi && text[lo] == '-' {
        assert(s.drop_first() =~= text@.subrange(lo + 1, hi as int));
        let r = parse_digits(text, lo + 1, hi, 0x8000_0000);
        match r {
            Some(v) => {
                assert(v <= 0x8000_0000);
                let neg: i64 = -(v as i64);
                assert(spec_parse_i32(s) == Some(neg as int));
                Some(neg as i32)
            },
            None => None,
        }
    } else {
        let r = parse_unsigned(text, lo, hi, 0x7fff_ffff);
        match r {
            Some(v) => {
                assert(v <= 0x7fff_ffff);
                Some(v as i32)
            },
            None => None,
        }
    }
}

/// The characters of a string slice, in order.
pub(crate) fn str_chars(s: &str) -> (v: Vec<char>)
    ensures
        v@ == s@,
{
    broadcast use vstd::string::axiom_spec_iter;

    let mut v: Vec<char> = Vec::new();
    for c in it: s.chars()
        invariant
            v@.len() == it.index(),
            forall|i: int| 0 <= i < it.index() ==> v@[i] == #[trigger] it.seq()[i],
    {
        v.push(c);
    }
    assert(v@ =~= s@);
    v
}

/// Appends a character with `String::push`.
///
/// Trusted: the string afterwards holds its old characters followed by `c`.
#[verifier::external_body]
fn string_push(s: &mut String, c: char)
    ensures
        final(s)@ == old(s)@.push(c),
{
    s.push(c);
}

/// A string holding the characters `text[lo..hi]`.
pub(crate) fn string_from_chars(text: &Vec<char>, lo: usize, hi: usize) -> (s: String)
    requires
        lo <= hi <= text@.len(),
    ensures
        s@ == text@.subrange(lo as int, hi as int),
{
    let mut s = String::new();
    let mut i: usize = lo;
    while i < hi
        invariant
            lo <= i <= hi,
            hi <= text@.len(),
            s@ == text@.subrange(lo as int, i as int),
        decreases hi - i,
    {
        string_push(&mut s, text[i]);
        i += 1;
        assert(s@ =~= text@.subrange(lo as int, i as int));
    }
    s
}

/// Decodes bytes as UTF-8 with `core::str::from_utf8`.
///
/// Trusted: the result is present exactly for valid UTF-8 and then holds the decoded text.
#[verifier::external_body]
pub(crate) fn str_from_utf8(bytes: &[u8]) -> (r: Option<&str>)
    ensures
        r is Some <==> vstd::utf8::valid_utf8(bytes@),
        r matches Some(s) ==> s@ == vstd::utf8::decode_utf8(bytes@),
{
    core::str::from_utf8(bytes).ok()
}

} // verus!
