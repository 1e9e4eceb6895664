//! Small verified text utilities: decimal rendering, string equality
//! and substring search, character appending.

use vstd::prelude::*;
use vstd::string::*;

verus! {

/// The character for one decimal digit.
pub open spec fn digit_char(d: int) -> char {
    if d == 0 {
        '0'
    } else if d == 1 {
        '1'
    } else if d == 2 {
        '2'
    } else if d == 3 {
        '3'
    } else if d == 4 {
        '4'
    } else if d == 5 {
        '5'
    } else if d == 6 {
        '6'
    } else if d == 7 {
        '7'
    } else if d == 8 {
        '8'
    } else {
        '9'
    }
}

/// Decimal representation of a non-negative integer, most significant
/// digit first, with no leading zeroes (a lone zero for 0).
pub open spec fn spec_dec(n: int) -> Seq<char>
    decreases n,
{
    if n < 10 {
        seq![digit_char(n)]
    } else {
        spec_dec(n / 10).push(digit_char(n % 10))
    }
}

/// Decimal representation of any integer, with a leading `-` when
/// negative.
pub open spec fn spec_int_string(n: int) -> Seq<char> {
    if n < 0 {
        seq!['-'] + spec_dec(-n)
    } else {
        spec_dec(n)
    }
}

fn digit_str(d: u64) -> (r: &'static str)
    requires
        d < 10,
    ensures
        r@ == seq![digit_char(d as int)],
{
    proof {
        reveal_strlit("0");
        reveal_strlit("1");
        reveal_strlit("2");
        reveal_strlit("3");
        reveal_strlit("4");
        reveal_strlit("5");
        reveal_strlit("6");
        reveal_strlit("7");
        reveal_strlit("8");
        reveal_strlit("9");
    }
    let r = match d {
        0 => "0",
        1 => "1",
        2 => "2",
        3 => "3",
        4 => "4",
        5 => "5",
        6 => "6",
        7 => "7",
        8 => "8",
        _ => "9",
    };
    proof {
        assert(r@ =~= seq![digit_char(d as int)]);
    }
    r
}

/// Renders an unsigned integer in decimal.
pub fn u128_to_string(n: u128) -> (r: String)
    ensures
        r@ == spec_dec(n as int),
    decreases n,
{
    if n < 10 {
        String::from_str(digit_str(n as u64))
    } else {
        let mut s = u128_to_string(n / 10);
        s.append(digit_str((n % 10) as u64));
        proof {
            assert(spec_dec(n as int) =~= spec_dec(n as int / 10) + seq![
                digit_char(n as int % 10),
            ]);
        }
        s
    }
}

/// Renders a signed integer in decimal.
pub fn i128_to_string(n: i128) -> (r: String)
    ensures
        r@ == spec_int_string(n as int),
{
    if n >= 0 {
        u128_to_string(n as u128)
    } else {
        let m: u128 = ((-(n + 1)) as u128) + 1;
        proof {
            assert(m as int == -(n as int));
        }
        let mut s = String::from_str("-");
        let digits = u128_to_string(m);
        s.append(digits.as_str());
        proof {
            reveal_strlit("-");
            assert(s@ =~= seq!['-'] + spec_dec(-(n as int)));
        }
        s
    }
}

/// Renders an unsigned integer in decimal, left-padded with `0` to at
/// least two digits, as episode numbering (`S01E01`) wants it.
pub fn u64_to_string_pad2(n: u64) -> (r: String)
    ensures
        r@ == (if n < 10 {
            seq!['0'] + spec_dec(n as int)
        } else {
            spec_dec(n as int)
        }),
{
    if n < 10 {
        let mut s = String::from_str("0");
        s.append(digit_str(n));
        proof {
            reveal_strlit("0");
            assert(s@ =~= seq!['0'] + spec_dec(n as int));
        }
        s
    } else {
        u128_to_string(n as u128)
    }
}

/// Character-wise string equality.
pub fn str_eq(a: &str, b: &str) -> (r: bool)
    ensures
        r == (a@ == b@),
{
    let alen = a.unicode_len();
    let blen = b.unicode_len();
    if alen != blen {
        return false;
    }
    let mut i: usize = 0;
    while i < alen
        invariant
            i <= alen,
            alen == a@.len(),
            alen == b@.len(),
            forall|j: int| 0 <= j < i ==> a@[j] == b@[j],
        decreases alen - i,
    {
        if a.get_char(i) != b.get_char(i) {
            return false;
        }
        i += 1;
    }
    proof {
        assert(a@ =~= b@);
    }
    true
}

/// Whether `n` occurs in `h` as a contiguous subsequence.
pub open spec fn contains_seq(h: Seq<char>, n: Seq<char>) -> bool {
    exists|i: int| 0 <= i && i + n.len() <= h.len() && #[trigger] h.subrange(i, i + n.len()) == n
}

fn matches_at(h: &str, n: &str, at: usize) -> (r: bool)
    requires
        at + n@.len() <= h@.len(),
        h@.len() <= usize::MAX,
    ensures
        r == (h@.subrange(at as int, at as int + n@.len()) == n@),
{
    let nlen = n.unicode_len();
    let mut j: usize = 0;
    while j < nlen
        invariant
            j <= nlen,
            nlen == n@.len(),
            at + nlen <= h@.len(),
            h@.len() <= usize::MAX,
            forall|k: int| 0 <= k < j ==> h@[at + k] == n@[k],
        decreases nlen - j,
    {
        if h.get_char(at + j) != n.get_char(j) {
            proof {
                assert(h@.subrange(at as int, at as int + n@.len())[j as int] != n@[j as int]);
            }
            return false;
        }
        j += 1;
    }
    proof {
        assert(h@.subrange(at as int, at as int + n@.len()) =~= n@);
    }
    true
}

/// Substring search.
pub fn str_contains(h: &str, n: &str) -> (r: bool)
    ensures
        r == contains_seq(h@, n@),
{
    let hlen = h.unicode_len();
    let nlen = n.unicode_len();
    if nlen > hlen {
        return false;
    }
    if nlen == 0 {
        proof {
            assert(h@.subrange(0, 0 + n@.len() as int) =~= n@);
        }
        return true;
    }
    let limit = hlen - nlen;
    let mut i: usize = 0;
    while i <= limit
        invariant
            hlen == h@.len(),
            nlen == n@.len(),
            0 < nlen <= hlen,
            limit == hlen - nlen,
            i <= limit + 1,
            forall|k: int|
                0 <= k < i ==> #[trigger] h@.subrange(k, k + n@.len()) != n@,
        decreases limit + 1 - i,
    {
        if matches_at(h, n, i) {
            return true;
        }
        i += 1;
    }
    false
}

pub open spec fn is_digit(c: char) -> bool {
    '0' <= c <= '9'
}

/// A decimal rendering always ends in a digit; this is what tells a
/// series line apart from a marker line at the end of a document.
pub proof fn lemma_int_string_ends_with_digit(n: int)
    ensures
        spec_int_string(n).len() >= 1,
        is_digit(spec_int_string(n).last()),
{
    if n < 0 {
        lemma_dec_ends_with_digit(-n);
        assert(spec_int_string(n).last() == spec_dec(-n).last());
    } else {
        lemma_dec_ends_with_digit(n);
    }
}

proof fn lemma_dec_ends_with_digit(n: int)
    ensures
        spec_dec(n).len() >= 1,
        is_digit(spec_dec(n).last()),
{
    if n < 10 {
        assert(spec_dec(n).last() == digit_char(n));
    } else {
        assert(spec_dec(n).last() == digit_char(n % 10));
    }
}

/// The leading run of decimal digits.
pub open spec fn spec_digits_prefix(s: Seq<char>) -> Seq<char>
    decreases s.len(),
{
    if s.len() == 0 || !is_digit(s[0]) {
        Seq::empty()
    } else {
        seq![s[0]] + spec_digits_prefix(s.drop_first())
    }
}

/// The number a digit string denotes.
pub open spec fn spec_digits_value(d: Seq<char>) -> int
    decreases d.len(),
{
    if d.len() == 0 {
        0
    } else {
        spec_digits_value(d.drop_last()) * 10 + (d.last() as int - '0' as int)
    }
}

pub open spec fn pow10(n: nat) -> int
    decreases n,
{
    if n == 0 {
        1
    } else {
        10 * pow10((n - 1) as nat)
    }
}

/// The numeric reading of a string: the value of its leading digits.
/// A string that starts with no digit, or with an absurd run of more
/// than eighteen, reads as zero.
pub open spec fn spec_parse_count(s: Seq<char>) -> int {
    let d = spec_digits_prefix(s);
    if 1 <= d.len() <= 18 {
        spec_digits_value(d)
    } else {
        0
    }
}

proof fn lemma_digits_prefix_shape(s: Seq<char>, l: int)
    requires
        0 <= l <= s.len(),
        forall|j: int| 0 <= j < l ==> is_digit(#[trigger] s[j]),
        l == s.len() || !is_digit(s[l]),
    ensures
        spec_digits_prefix(s) == s.take(l),
    decreases l,
{
    if l == 0 {
        assert(spec_digits_prefix(s) =~= s.take(0));
    } else {
        lemma_digits_prefix_shape(s.drop_first(), l - 1);
        assert(seq![s[0]] + s.drop_first().take(l - 1) =~= s.take(l));
    }
}

proof fn lemma_digits_value_bound(d: Seq<char>)
    requires
        forall|j: int| 0 <= j < d.len() ==> is_digit(#[trigger] d[j]),
    ensures
        0 <= spec_digits_value(d) < pow10(d.len()),
    decreases d.len(),
{
    if d.len() > 0 {
        lemma_digits_value_bound(d.drop_last());
        assert(is_digit(d.last()));
    }
}

proof fn lemma_pow10_le(a: nat, b: nat)
    requires
        a <= b,
    ensures
        pow10(a) <= pow10(b),
    decreases b,
{
    if a < b {
        lemma_pow10_le(a, (b - 1) as nat);
        assert(pow10((b - 1) as nat) >= 1) by {
            lemma_pow10_le(0, (b - 1) as nat);
        }
    }
}

fn digit_prefix_len(s: &str) -> (l: usize)
    ensures
        l <= s@.len(),
        forall|j: int| 0 <= j < l ==> is_digit(#[trigger] s@[j]),
        l == s@.len() || !is_digit(s@[l as int]),
{
    let len = s.unicode_len();
    let mut l: usize = 0;
    while l < len
        invariant
            l <= len,
            len == s@.len(),
            forall|j: int| 0 <= j < l ==> is_digit(#[trigger] s@[j]),
        decreases len - l,
    {
        let c = s.get_char(l);
        if c < '0' || c > '9' {
            return l;
        }
        l += 1;
    }
    l
}

/// Reads the leading decimal digits of a string, as library statistics
/// are delivered; anything unreadable counts as zero.
pub fn parse_count(s: &str) -> (r: u64)
    ensures
        r as int == spec_parse_count(s@),
{
    let l = digit_prefix_len(s);
    proof {
        lemma_digits_prefix_shape(s@, l as int);
    }
    if l == 0 || l > 18 {
        return 0;
    }
    let ghost d = s@.take(l as int);
    let mut v: u64 = 0;
    let mut i: usize = 0;
    proof {
        reveal_with_fuel(pow10, 20);
        assert(d.take(0) =~= Seq::<char>::empty());
    }
    while i < l
        invariant
            i <= l,
            l <= 18,
            l <= s@.len(),
            d == s@.take(l as int),
            forall|j: int| 0 <= j < l ==> is_digit(#[trigger] s@[j]),
            v as int == spec_digits_value(d.take(i as int)),
            (v as int) < pow10(i as nat),
            pow10(i as nat) <= 1000000000000000000,
        decreases l - i,
    {
        proof {
            reveal_with_fuel(pow10, 20);
            assert(d.take(i + 1).drop_last() =~= d.take(i as int));
            assert(d.take(i + 1).last() == s@[i as int]);
            lemma_pow10_le((i + 1) as nat, 18);
        }
        let c = s.get_char(i);
        let digit = (c as u32 - 48) as u64;
        v = v * 10 + digit;
        i += 1;
    }
    proof {
        assert(d.take(l as int) =~= d);
    }
    v
}

/// Appends one character. Relies on `String::push` from std: it appends
/// exactly the given character to the end of the string.
#[verifier::external_body]
pub fn push_char(s: &mut String, c: char)
    ensures
        final(s)@ == old(s)@ + seq![c],
{
    s.push(c);
}

} // verus!
