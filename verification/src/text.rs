//! Character-level text operations used by the catalogue search and ordering:
//! substring search, lower-casing, decimal parsing and lexicographic order.
use vstd::prelude::*;

verus! {

/// `needle` occurs in `hay` as a contiguous run of characters
/// (the empty sequence occurs in every sequence).
pub open spec fn occurs_in(needle: Seq<char>, hay: Seq<char>) -> bool {
    exists|k: int|
        0 <= k && k + needle.len() <= hay.len() && #[trigger] hay.subrange(k, k + needle.len())
            == needle
}

/// The characters of a string slice, in order.
pub fn chars_of(s: &str) -> (v: Vec<char>)
    ensures
        v@ == s@,
{
    let n = s.unicode_len();
    let mut v: Vec<char> = Vec::new();
    let mut i: usize = 0;
    while i < n
        invariant
            n == s@.len(),
            i <= n,
            v@ == s@.take(i as int),
        decreases n - i,
    {
        let c = s.get_char(i);
        v.push(c);
        i = i + 1;
        assert(v@ =~= s@.take(i as int));
    }
    assert(v@ =~= s@);
    v
}

/// Whether `needle` occurs in `hay` (naive left-to-right search).
pub fn contains_chars(hay: &Vec<char>, needle: &Vec<char>) -> (r: bool)
    ensures
        r == occurs_in(needle@, hay@),
{
    let n = hay.len();
    let m = needle.len();
    if m > n {
        return false;
    }
    let mut k: usize = 0;
    while k <= n - m
        invariant
            n == hay@.len(),
            m == needle@.len(),
            m <= n,
            k <= n - m + 1,
            forall|j: int| 0 <= j < k ==> #[trigger] hay@.subrange(j, j + needle@.len()) != needle@,
        decreases n - m + 1 - k,
    {
        let mut t: usize = 0;
        let mut same = true;
        while t < m && same
            invariant
                n == hay@.len(),
                m == needle@.len(),
                k + m <= n,
                t <= m,
                same ==> forall|u: int| 0 <= u < t ==> hay@[k + u] == needle@[u],
                !same ==> exists|u: int| 0 <= u < m && hay@[k + u] != needle@[u],
            decreases m - t + (if same { 1int } else { 0int }),
        {
            if hay[k + t] != needle[t] {
                same = false;
                assert(hay@[k + t] != needle@[t as int]);
            } else {
                t = t + 1;
            }
        }
        if same {
            assert(hay@.subrange(k as int, k + needle@.len()) =~= needle@);
            return true;
        }
        proof {
            let u = choose|u: int| 0 <= u < m && hay@[k + u] != needle@[u];
            assert(hay@.subrange(k as int, k + needle@.len())[u] != needle@[u]);
        }
        k = k + 1;
    }
    false
}

/// Whether `needle` occurs in `hay`, as `str::contains` with a string pattern.
pub fn contains_str(hay: &str, needle: &str) -> (r: bool)
    ensures
        r == occurs_in(needle@, hay@),
{
    let h = chars_of(hay);
    let n = chars_of(needle);
    contains_chars(&h, &n)
}

/// The Unicode lower-case mapping of a text, as `str::to_lowercase` computes it.
pub uninterp spec fn lowercase(s: Seq<char>) -> Seq<char>;

/// Every character is ASCII.
pub open spec fn is_ascii_text(s: Seq<char>) -> bool {
    forall|i: int| 0 <= i < s.len() ==> (#[trigger] s[i] as u32) < 128
}

/// The ASCII lower-case form of a character; other characters are kept.
pub open spec fn ascii_lower(c: char) -> char {
    if 'A' <= c && c <= 'Z' {
        ((c as u32) + 32) as char
    } else {
        c
    }
}

/// The ASCII upper-case form of a character; other characters are kept.
pub open spec fn ascii_upper(c: char) -> char {
    if 'a' <= c && c <= 'z' {
        ((c as u32) - 32) as char
    } else {
        c
    }
}

/// The text with each ASCII upper-case letter lowered.
pub open spec fn ascii_lowered(s: Seq<char>) -> Seq<char> {
    s.map_values(|c: char| ascii_lower(c))
}

/// Calls `str::to_lowercase`. Its result is named `lowercase` of the input's
/// characters. Of the mapping it claims only the ASCII part, which the
/// Unicode case tables give: an all-ASCII text is lower-cased character by
/// character, ASCII upper-case letters becoming their lower-case forms. The
/// rest (other scripts, the final-sigma rule) is not stated.
#[verifier::external_body]
pub(crate) fn to_lowercase(s: &str) -> (r: String)
    ensures
        r@ == lowercase(s@),
        is_ascii_text(s@) ==> r@ == ascii_lowered(s@),
{
    s.to_lowercase()
}

/// An ASCII decimal digit.
pub open spec fn is_digit(c: char) -> bool {
    '0' <= c && c <= '9'
}

/// The value of a run of decimal digits, most significant first.
pub open spec fn digits_value(s: Seq<char>) -> int
    decreases s.len(),
{
    if s.len() == 0 {
        0
    } else {
        digits_value(s.drop_last()) * 10 + (s.last() as int - '0' as int)
    }
}

/// The sign of a decimal literal (`true` for `-`) and its digits.
pub open spec fn split_sign(s: Seq<char>) -> (bool, Seq<char>) {
    if s.len() > 0 && s[0] == '-' {
        (true, s.drop_first())
    } else if s.len() > 0 && s[0] == '+' {
        (false, s.drop_first())
    } else {
        (false, s)
    }
}

/// What `s.parse::<i32>()` accepts: an optional `+` or `-`, then one or more
/// ASCII digits, whose signed value fits in an `i32`.
pub open spec fn decimal_i32(s: Seq<char>) -> Option<i32> {
    let (negative, digits) = split_sign(s);
    if digits.len() == 0 || !(forall|i: int| 0 <= i < digits.len() ==> is_digit(#[trigger] digits[i])) {
        None
    } else {
        let v = if negative {
            -digits_value(digits)
        } else {
            digits_value(digits)
        };
        if i32::MIN <= v <= i32::MAX {
            Some(v as i32)
        } else {
            None
        }
    }
}

proof fn lemma_digits_value_nonneg(s: Seq<char>)
    requires
        forall|i: int| 0 <= i < s.len() ==> is_digit(#[trigger] s[i]),
    ensures
        digits_value(s) >= 0,
    decreases s.len(),
{
    if s.len() > 0 {
        assert forall|i: int| 0 <= i < s.drop_last().len() implies is_digit(
            #[trigger] s.drop_last()[i],
        ) by {
            assert(s.drop_last()[i] == s[i]);
        }
        lemma_digits_value_nonneg(s.drop_last());
        assert(is_digit(s[s.len() - 1]));
    }
}

/// Parses a decimal `i32` exactly as `str::parse::<i32>` does, giving `None`
/// where it gives an error.
pub fn parse_i32(s: &str) -> (r: Option<i32>)
    ensures
        r == decimal_i32(s@),
{
    let chars = chars_of(s);
    let n = chars.len();
    let ghost (neg_spec, digits) = split_sign(s@);
    let mut start: usize = 0;
    let mut negative = false;
    if n > 0 && chars[0] == '-' {
        start = 1;
        negative = true;
    } else if n > 0 && chars[0] == '+' {
        start = 1;
    }
    assert(digits =~= s@.subrange(start as int, n as int));
    assert(negative == neg_spec);
    if start == n {
        assert(digits.len() == 0);
        return None;
    }
    // The running value, held at `cap` once it exceeds every `i32` magnitude.

    let cap: i64 = 2147483649;
    let mut acc: i64 = 0;
    let mut i: usize = start;
    while i < n
        invariant
            chars@ == s@,
            n == chars@.len(),
            start <= i <= n,
            start < n,
            digits == s@.subrange(start as int, n as int),
            cap == 2147483649,
            0 <= acc <= cap,
            negative == split_sign(s@).0,
            digits == split_sign(s@).1,
            forall|j: int| 0 <= j < i - start ==> is_digit(#[trigger] digits[j]),
            acc == (if digits_value(digits.take(i - start)) >= cap {
                cap as int
            } else {
                digits_value(digits.take(i - start))
            }),
        decreases n - i,
    {
        let c = chars[i];
        assert(digits[i - start] == chars@[i as int]);
        if !('0' <= c && c <= '9') {
            assert(!is_digit(digits[i - start]));
            assert(split_sign(s@).1 == digits);
            assert(decimal_i32(s@) is None);
            return None;
        }
        let ghost prev = digits.take(i - start);
        let ghost next = digits.take(i - start + 1);
        assert(next.drop_last() =~= prev);
        assert(next.last() == c);
        assert forall|j: int| 0 <= j < prev.len() implies is_digit(#[trigger] prev[j]) by {
            assert(prev[j] == digits[j]);
        }
        proof {
            lemma_digits_value_nonneg(prev);
        }
        let d: i64 = (c as u32 - '0' as u32) as i64;
        if acc < cap {
            let v = acc * 10 + d;
            acc = if v >= cap {
                cap
            } else {
                v
            };
        }
        i = i + 1;
    }
    assert(digits.take(n - start) =~= digits);
    assert forall|j: int| 0 <= j < digits.len() implies is_digit(#[trigger] digits[j]) by {}
    proof {
        lemma_digits_value_nonneg(digits);
    }
    if negative {
        if acc > 2147483648 {
            None
        } else {
            Some((0 - acc) as i32)
        }
    } else {
        if acc > 2147483647 {
            None
        } else {
            Some(acc as i32)
        }
    }
}

/// The number of a Messier designation: the digits after a leading `M`
/// parsed as an `i32`, and 0 where there is no identifier, no leading `M`, or
/// the rest does not parse.
pub open spec fn messier_number_of(id: Option<Seq<char>>) -> i32 {
    let s = match id {
        Some(x) => x,
        None => Seq::<char>::empty(),
    };
    if s.len() > 0 && s[0] == 'M' {
        match decimal_i32(s.drop_first()) {
            Some(v) => v,
            None => 0,
        }
    } else {
        0
    }
}

proof fn lemma_digits_value_bound(s: Seq<char>, n: nat, bound: int)
    requires
        forall|i: int| 0 <= i < s.len() ==> is_digit(#[trigger] s[i]),
        s.len() <= n,
        bound == vstd::arithmetic::power::pow(10, n),
    ensures
        0 <= digits_value(s) < bound,
    decreases s.len(),
{
    vstd::arithmetic::power::lemma_pow_positive(10, n);
    if s.len() == 0 {
    } else {
        let p = vstd::arithmetic::power::pow(10, (n - 1) as nat);
        assert forall|i: int| 0 <= i < s.drop_last().len() implies is_digit(
            #[trigger] s.drop_last()[i],
        ) by {
            assert(s.drop_last()[i] == s[i]);
        }
        lemma_digits_value_bound(s.drop_last(), (n - 1) as nat, p);
        vstd::arithmetic::power::lemma_pow_adds(10, 1, (n - 1) as nat);
        vstd::arithmetic::power::lemma_pow1(10);
        assert(is_digit(s[s.len() - 1]));
        let d = digits_value(s.drop_last());
        let c = s.last() as int - '0' as int;
        assert(0 <= c <= 9);
        assert(d * 10 + c < p * 10) by (nonlinear_arith)
            requires
                0 <= d < p,
                0 <= c <= 9,
        ;
    }
}

/// A Messier designation is read by its number: `M` followed by one to nine
/// decimal digits gives the value of those digits; an identifier that does
/// not start with `M`, or no identifier, gives 0.
pub proof fn law_messier_number(digits: Seq<char>, other: Seq<char>)
    requires
        1 <= digits.len() <= 9,
        forall|i: int| 0 <= i < digits.len() ==> is_digit(#[trigger] digits[i]),
        other.len() == 0 || other[0] != 'M',
    ensures
        messier_number_of(Some(seq!['M'] + digits)) == digits_value(digits),
        messier_number_of(Some(other)) == 0,
        messier_number_of(None) == 0,
{
    let s = seq!['M'] + digits;
    assert(s[0] == 'M');
    assert(s.drop_first() =~= digits);
    assert(is_digit(digits[0]));
    assert(split_sign(digits) == (false, digits));
    lemma_digits_value_bound(digits, 9, vstd::arithmetic::power::pow(10, 9));
    assert(vstd::arithmetic::power::pow(10, 9) == 1000000000) by {
        reveal_with_fuel(vstd::arithmetic::power::pow, 10);
    }
}

/// Sort key of a Messier object: `id.strip_prefix('M')` parsed as an `i32`,
/// 0 when any step fails.
pub fn messier_number(id: Option<&str>) -> (r: i32)
    ensures
        r == messier_number_of(
            match id {
                Some(x) => Some(x@),
                None => None,
            },
        ),
{
    match id {
        None => 0,
        Some(s) => {
            let n = s.unicode_len();
            if n == 0 {
                return 0;
            }
            if s.get_char(0) != 'M' {
                return 0;
            }
            let rest = s.substring_char(1, n);
            assert(rest@ =~= s@.drop_first());
            match parse_i32(rest) {
                Some(v) => v,
                None => 0,
            }
        },
    }
}

/// Lexicographic order of texts by code point, a prefix coming first: the
/// order of `String`'s `Ord`, which compares UTF-8 bytes (UTF-8 keeps code
/// point order).
pub open spec fn lex_le(a: Seq<char>, b: Seq<char>) -> bool
    decreases a.len(),
{
    if a.len() == 0 {
        true
    } else if b.len() == 0 {
        false
    } else if a[0] == b[0] {
        lex_le(a.drop_first(), b.drop_first())
    } else {
        a[0] < b[0]
    }
}

pub proof fn lemma_lex_total(a: Seq<char>, b: Seq<char>)
    ensures
        lex_le(a, b) || lex_le(b, a),
    decreases a.len(),
{
    if a.len() > 0 && b.len() > 0 && a[0] == b[0] {
        lemma_lex_total(a.drop_first(), b.drop_first());
    }
}

pub proof fn lemma_lex_trans(a: Seq<char>, b: Seq<char>, c: Seq<char>)
    requires
        lex_le(a, b),
        lex_le(b, c),
    ensures
        lex_le(a, c),
    decreases a.len(),
{
    if a.len() > 0 && b.len() > 0 && c.len() > 0 && a[0] == b[0] && b[0] == c[0] {
        lemma_lex_trans(a.drop_first(), b.drop_first(), c.drop_first());
    }
}

/// Whether `a` comes no later than `b` in lexicographic code point order.
pub fn lex_le_chars(a: &Vec<char>, b: &Vec<char>) -> (r: bool)
    ensures
        r == lex_le(a@, b@),
{
    let mut i: usize = 0;
    assert(a@.skip(0) =~= a@);
    assert(b@.skip(0) =~= b@);
    while i < a.len() && i < b.len()
        invariant
            i <= a.len(),
            i <= b.len(),
            lex_le(a@, b@) == lex_le(a@.skip(i as int), b@.skip(i as int)),
        decreases a.len() - i,
    {
        if a[i] != b[i] {
            assert(a@.skip(i as int)[0] == a@[i as int]);
            assert(b@.skip(i as int)[0] == b@[i as int]);
            return a[i] < b[i];
        }
        assert(a@.skip(i as int).drop_first() =~= a@.skip(i + 1));
        assert(b@.skip(i as int).drop_first() =~= b@.skip(i + 1));
        i = i + 1;
    }
    a.len() <= b.len()
}

} // verus!
