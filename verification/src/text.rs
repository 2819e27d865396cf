//! Small text operations on `str` and `String`, stated over `Seq<char>`.

use vstd::prelude::*;

verus! {

/// The Unicode lowercase mapping that `str::to_lowercase` applies.
pub uninterp spec fn lowercase(s: Seq<char>) -> Seq<char>;

/// Calls `str::to_lowercase`. Its result is a function of the characters
/// of `s` alone (Unicode's Lowercase property, no locale), named `lowercase`.
#[verifier::external_body]
pub(crate) fn to_lowercase(s: &str) -> (res: String)
    ensures
        res@ == lowercase(s@),
{
    s.to_lowercase()
}

/// Calls `<str as PartialEq>::eq`: two string slices are equal exactly when
/// they hold the same characters.
#[verifier::external_body]
pub(crate) fn str_eq(a: &str, b: &str) -> (res: bool)
    ensures
        res == (a@ == b@),
{
    a == b
}

/// Calls `String::push`, which appends one character.
#[verifier::external_body]
pub(crate) fn push_char(s: &mut String, c: char)
    ensures
        final(s)@ == old(s)@.push(c),
{
    s.push(c)
}

/// The ASCII digit for `d`, for `d < 10`.
pub open spec fn digit_char(d: nat) -> char {
    (48 + d) as char
}

/// The decimal representation of `n`, without sign or leading zeros.
pub open spec fn decimal(n: nat) -> Seq<char>
    decreases n,
{
    if n < 10 {
        seq![digit_char(n)]
    } else {
        decimal(n / 10).push(digit_char(n % 10))
    }
}

fn digit(d: u64) -> (c: char)
    requires
        d < 10,
    ensures
        c == digit_char(d as nat),
{
    let b: u8 = 48u8 + (d as u8);
    b as char
}

/// Appends the decimal representation of `n` to `s`.
pub fn push_decimal(s: &mut String, n: u64)
    ensures
        final(s)@ == old(s)@ + decimal(n as nat),
    decreases n,
{
    if n >= 10 {
        push_decimal(s, n / 10);
    }
    let c = digit(n % 10);
    push_char(s, c);
    proof {
        if n < 10 {
            assert(decimal(n as nat) == seq![digit_char(n as nat)]);
        }
        assert(s@ =~= old(s)@ + decimal(n as nat));
    }
}

/// Whether `s` begins with `prefix`.
pub open spec fn has_prefix(s: Seq<char>, prefix: Seq<char>) -> bool {
    prefix.len() <= s.len() && s.subrange(0, prefix.len() as int) == prefix
}

/// Whether `needle` occurs somewhere in `s`.
pub open spec fn has_substring(s: Seq<char>, needle: Seq<char>) -> bool {
    exists|i: int|
        0 <= i && i + needle.len() <= s.len() && #[trigger] s.subrange(i, i + needle.len()) == needle
}

/// `s` without the `/` characters at its end.
pub open spec fn trim_trailing_slashes(s: Seq<char>) -> Seq<char>
    decreases s.len(),
{
    if s.len() > 0 && s.last() == '/' {
        trim_trailing_slashes(s.drop_last())
    } else {
        s
    }
}

/// Whether `s` and `t` agree on the `n` characters from `i` and `j`.
fn chars_match(s: &str, i: usize, t: &str, n: usize) -> (b: bool)
    requires
        i + n <= s@.len() <= usize::MAX,
        n <= t@.len(),
    ensures
        b == (s@.subrange(i as int, i + n) == t@.subrange(0, n as int)),
{
    let mut k: usize = 0;
    while k < n
        invariant
            k <= n,
            i + n <= s@.len() <= usize::MAX,
            n <= t@.len(),
            s@.subrange(i as int, i + k) == t@.subrange(0, k as int),
        decreases n - k,
    {
        if s.get_char(i + k) != t.get_char(k) {
            assert(s@.subrange(i as int, i + n)[k as int] != t@.subrange(0, n as int)[k as int]);
            return false;
        }
        k = k + 1;
        assert(s@.subrange(i as int, i + k) =~= t@.subrange(0, k as int));
    }
    assert(s@.subrange(i as int, i + n) =~= t@.subrange(0, n as int));
    true
}

/// Whether `s` begins with `prefix`.
pub fn starts_with(s: &str, prefix: &str) -> (b: bool)
    ensures
        b == has_prefix(s@, prefix@),
{
    let n = prefix.unicode_len();
    if n > s.unicode_len() {
        return false;
    }
    assert(prefix@.subrange(0, n as int) =~= prefix@);
    chars_match(s, 0, prefix, n)
}

/// Whether `needle` occurs in `s`.
pub fn contains(s: &str, needle: &str) -> (b: bool)
    ensures
        b == has_substring(s@, needle@),
{
    let n = needle.unicode_len();
    let len = s.unicode_len();
    assert(needle@.subrange(0, n as int) =~= needle@);
    if n == 0 {
        assert(s@.subrange(0, 0 + needle@.len() as int) =~= needle@);
        return true;
    }
    if n > len {
        assert forall|i: int|
            0 <= i && i + needle@.len() <= s@.len() implies #[trigger] s@.subrange(
            i,
            i + needle@.len(),
        ) != needle@ by {}
        return false;
    }
    let mut i: usize = 0;
    while i <= len - n
        invariant
            n == needle@.len(),
            needle@.subrange(0, n as int) == needle@,
            len == s@.len(),
            1 <= n <= len,
            i <= len - n + 1,
            forall|j: int| 0 <= j < i ==> #[trigger] s@.subrange(j, j + n) != needle@,
        decreases len - n + 1 - i,
    {
        if chars_match(s, i, needle, n) {
            assert(s@.subrange(i as int, i + needle@.len()) == needle@);
            return true;
        }
        i = i + 1;
    }
    assert forall|j: int|
        0 <= j && j + needle@.len() <= s@.len() implies #[trigger] s@.subrange(j, j + needle@.len())
        != needle@ by {
        assert(j < i);
    }
    false
}

/// `s` without the `/` characters at its end, as `str::trim_end_matches('/')`.
pub fn trim_end_slashes(s: &str) -> (t: &str)
    ensures
        t@ == trim_trailing_slashes(s@),
{
    let mut end = s.unicode_len();
    assert(s@.subrange(0, end as int) =~= s@);
    while end > 0 && s.get_char(end - 1) == '/'
        invariant
            end <= s@.len(),
            trim_trailing_slashes(s@) == trim_trailing_slashes(s@.subrange(0, end as int)),
        decreases end,
    {
        assert(s@.subrange(0, end as int).drop_last() =~= s@.subrange(0, end - 1));
        end = end - 1;
    }
    s.substring_char(0, end)
}

/// `s` without its first `n` characters; empty when `s` is no longer.
pub fn skip_chars(s: &str, n: usize) -> (t: String)
    ensures
        t@ == (if n < s@.len() {
            s@.skip(n as int)
        } else {
            Seq::<char>::empty()
        }),
{
    let len = s.unicode_len();
    if n >= len {
        return String::new();
    }
    s.substring_char(n, len).to_owned()
}

/// The value of a sequence of decimal digits.
pub open spec fn digits_value(s: Seq<char>) -> nat
    decreases s.len(),
{
    if s.len() == 0 {
        0
    } else {
        digits_value(s.drop_last()) * 10 + ((s.last() as nat) - 48) as nat
    }
}

/// Whether every character of `s` is an ASCII digit.
pub open spec fn all_digits(s: Seq<char>) -> bool {
    forall|i: int| 0 <= i < s.len() ==> '0' <= #[trigger] s[i] <= '9'
}

/// What `str::parse::<u32>` gives for `s`: an optional `+` sign, then one or
/// more ASCII digits whose value fits in a `u32`.
pub open spec fn parsed_u32(s: Seq<char>) -> Option<u32> {
    let digits = if s.len() > 0 && s[0] == '+' {
        s.drop_first()
    } else {
        s
    };
    if digits.len() > 0 && all_digits(digits) && digits_value(digits) <= u32::MAX {
        Some(digits_value(digits) as u32)
    } else {
        None
    }
}

proof fn lemma_digits_value_monotone(s: Seq<char>, k: int)
    requires
        0 <= k <= s.len(),
        all_digits(s),
    ensures
        digits_value(s.subrange(0, k)) <= digits_value(s),
    decreases s.len() - k,
{
    if k < s.len() {
        lemma_digits_value_monotone(s, k + 1);
        assert(s.subrange(0, k + 1).drop_last() =~= s.subrange(0, k));
        assert('0' <= s[k] <= '9');
    }
    assert(s.subrange(0, s.len() as int) =~= s);
}

/// Reads a `u32` written in decimal, with an optional leading `+`, as
/// `str::parse::<u32>` does; `None` for anything else or a value too large.
pub fn parse_u32(s: &str) -> (r: Option<u32>)
    ensures
        r == parsed_u32(s@),
{
    let len = s.unicode_len();
    let mut start: usize = 0;
    if len > 0 && s.get_char(0) == '+' {
        start = 1;
    }
    let ghost digits = s@.subrange(start as int, len as int);
    assert(digits =~= (if s@.len() > 0 && s@[0] == '+' {
        s@.drop_first()
    } else {
        s@
    }));
    if start == len {
        return None;
    }
    let mut value: u32 = 0;
    let mut i: usize = start;
    while i < len
        invariant
            start <= i <= len,
            len == s@.len(),
            digits == s@.subrange(start as int, len as int),
            digits == (if s@.len() > 0 && s@[0] == '+' {
                s@.drop_first()
            } else {
                s@
            }),
            digits.len() > 0,
            all_digits(digits.subrange(0, i - start)),
            value as nat == digits_value(digits.subrange(0, i - start)),
        decreases len - i,
    {
        let c = s.get_char(i);
        assert(digits[i - start] == c);
        if c < '0' || c > '9' {
            assert(!all_digits(digits));
            return None;
        }
        let d: u32 = (c as u32) - 48;
        assert(digits.subrange(0, i + 1 - start).drop_last() =~= digits.subrange(0, i - start));
        match value.checked_mul(10) {
            Some(v10) => match v10.checked_add(d) {
                Some(v) => {
                    value = v;
                },
                None => {
                    proof {
                        assert(all_digits(digits.subrange(0, i + 1 - start)));
                        if all_digits(digits) {
                            lemma_digits_value_monotone(digits, i + 1 - start);
                        }
                    }
                    return None;
                },
            },
            None => {
                proof {
                    assert(all_digits(digits.subrange(0, i + 1 - start)));
                    if all_digits(digits) {
                        lemma_digits_value_monotone(digits, i + 1 - start);
                    }
                }
                return None;
            },
        }
        i = i + 1;
        assert(all_digits(digits.subrange(0, i - start)));
    }
    assert(digits.subrange(0, len - start) =~= digits);
    Some(value)
}

} // verus!
