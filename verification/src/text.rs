//! Character and string helpers shared by the rest of the library.
use vstd::prelude::*;

verus! {

broadcast use vstd::string::group_string_axioms;

/// Appends one character to a `String` (`String::push`).
#[verifier::external_body]
pub(crate) fn push_char(s: &mut String, c: char)
    ensures
        final(s)@ == old(s)@.push(c),
{
    s.push(c);
}

/// The characters of a string slice, in order.
pub fn chars_of(s: &str) -> (v: Vec<char>)
    ensures
        v@ == s@,
{
    let mut v: Vec<char> = Vec::new();
    for c in it: s.chars()
        invariant
            v@ == it.seq().take(it.index() as int),
    {
        v.push(c);
    }
    v
}

} // verus!

verus! {

/// The decimal digit character for `d` (`0` to `9`).
pub open spec fn digit_char(d: int) -> char {
    if d == 0 { '0' }
    else if d == 1 { '1' }
    else if d == 2 { '2' }
    else if d == 3 { '3' }
    else if d == 4 { '4' }
    else if d == 5 { '5' }
    else if d == 6 { '6' }
    else if d == 7 { '7' }
    else if d == 8 { '8' }
    else { '9' }
}

/// The decimal notation of a natural number, without leading zeros.
pub open spec fn decimal(n: nat) -> Seq<char>
    decreases n,
{
    if n < 10 {
        seq![digit_char(n as int)]
    } else {
        decimal(n / 10).push(digit_char((n % 10) as int))
    }
}

/// The decimal notation of an integer, with a leading `-` when negative.
pub open spec fn signed_decimal(n: int) -> Seq<char> {
    if n < 0 { seq!['-'] + decimal((-n) as nat) } else { decimal(n as nat) }
}

fn digit(d: u64) -> (c: char)
    requires
        d < 10,
    ensures
        c == digit_char(d as int),
{
    if d == 0 { '0' }
    else if d == 1 { '1' }
    else if d == 2 { '2' }
    else if d == 3 { '3' }
    else if d == 4 { '4' }
    else if d == 5 { '5' }
    else if d == 6 { '6' }
    else if d == 7 { '7' }
    else if d == 8 { '8' }
    else { '9' }
}

/// Appends the decimal notation of `n` to `s`.
pub fn push_decimal(s: &mut String, n: u64)
    ensures
        final(s)@ == old(s)@ + decimal(n as nat),
    decreases n,
{
    if n >= 10 {
        push_decimal(s, n / 10);
    }
    push_char(s, digit(n % 10));
    proof {
        assert(old(s)@ + decimal(n as nat) =~= final(s)@) by {
            if n >= 10 {
                assert(decimal(n as nat) == decimal((n / 10) as nat).push(digit_char((n % 10) as int)));
            }
        }
    }
}

/// The decimal notation of an unsigned number (`u64::to_string`).
pub fn u64_to_decimal(n: u64) -> (s: String)
    ensures
        s@ == decimal(n as nat),
{
    let mut s = String::new();
    push_decimal(&mut s, n);
    s
}

/// The decimal notation of a signed number (`i64::to_string`).
pub fn i64_to_decimal(n: i64) -> (s: String)
    ensures
        s@ == signed_decimal(n as int),
{
    let mut s = String::new();
    if n < 0 {
        push_char(&mut s, '-');
        let m: u64 = (0i128 - n as i128) as u64;
        push_decimal(&mut s, m);
    } else {
        push_decimal(&mut s, n as u64);
    }
    s
}

} // verus!

verus! {

/// Whether `c` is an ASCII hexadecimal digit (`0-9`, `a-f`, `A-F`).
pub open spec fn is_hex_digit(c: char) -> bool {
    ||| ('0' as u32 <= c as u32 && c as u32 <= '9' as u32)
    ||| ('a' as u32 <= c as u32 && c as u32 <= 'f' as u32)
    ||| ('A' as u32 <= c as u32 && c as u32 <= 'F' as u32)
}

/// The value of a hexadecimal digit.
pub open spec fn hex_value(c: char) -> int {
    if '0' as u32 <= c as u32 && c as u32 <= '9' as u32 {
        c as u32 - '0' as u32
    } else if 'a' as u32 <= c as u32 && c as u32 <= 'f' as u32 {
        c as u32 - 'a' as u32 + 10
    } else {
        c as u32 - 'A' as u32 + 10
    }
}

/// The value of a sequence of hexadecimal digits, most significant first.
pub open spec fn hex_digits_value(d: Seq<char>) -> int
    decreases d.len(),
{
    if d.len() == 0 {
        0
    } else {
        hex_digits_value(d.drop_last()) * 16 + hex_value(d.last())
    }
}

pub open spec fn all_hex(d: Seq<char>) -> bool {
    forall|i: int| 0 <= i < d.len() ==> is_hex_digit(#[trigger] d[i])
}

/// What `u32::from_str_radix(text, 16)` gives for a text of at most a few
/// characters: an optional leading `+`, then at least one hexadecimal digit.
pub open spec fn parse_hex(d: Seq<char>) -> Option<int> {
    let digits = if d.len() > 0 && d[0] == '+' { d.skip(1) } else { d };
    if digits.len() == 0 || !all_hex(digits) {
        None
    } else {
        Some(hex_digits_value(digits))
    }
}

/// Whether `v` is a Unicode scalar value, i.e. a valid `char`.
pub open spec fn is_scalar_value(v: int) -> bool {
    (0 <= v < 0xD800) || (0xE000 <= v <= 0x10FFFF)
}

/// A `char` from its code point (`char::from_u32`): `None` for surrogates and
/// for values above `0x10FFFF`.
#[verifier::external_body]
pub(crate) fn char_from_u32(v: u32) -> (r: Option<char>)
    ensures
        r is Some <==> is_scalar_value(v as int),
        r matches Some(c) ==> c as u32 == v,
{
    char::from_u32(v)
}

fn hex_digit_value(c: char) -> (r: Option<u32>)
    ensures
        r is Some <==> is_hex_digit(c),
        r matches Some(v) ==> v == hex_value(c) && v < 16,
{
    let u = c as u32;
    if '0' as u32 <= u && u <= '9' as u32 {
        Some(u - '0' as u32)
    } else if 'a' as u32 <= u && u <= 'f' as u32 {
        Some(u - 'a' as u32 + 10)
    } else if 'A' as u32 <= u && u <= 'F' as u32 {
        Some(u - 'A' as u32 + 10)
    } else {
        None
    }
}

/// `u32::from_str_radix(text, 16)` for texts of at most four characters.
pub fn parse_hex_short(d: &Vec<char>) -> (r: Option<u32>)
    requires
        d@.len() <= 4,
    ensures
        r is Some <==> parse_hex(d@) is Some,
        r matches Some(v) ==> v as int == parse_hex(d@)->0,
{
    let start: usize = if d.len() > 0 && d[0] == '+' { 1 } else { 0 };
    let ghost digits = if d@.len() > 0 && d@[0] == '+' { d@.skip(1) } else { d@ };
    assert(digits =~= d@.skip(start as int));
    if start == d.len() {
        return None;
    }
    let mut v: u32 = 0;
    let mut k: usize = start;
    while k < d.len()
        invariant
            start <= k <= d@.len() <= 4,
            digits =~= d@.skip(start as int),
            digits == (if d@.len() > 0 && d@[0] == '+' { d@.skip(1) } else { d@ }),
            digits.len() > 0,
            all_hex(d@.subrange(start as int, k as int)),
            v as int == hex_digits_value(d@.subrange(start as int, k as int)),
            k - start == 0 ==> v < 1,
            k - start == 1 ==> v < 16,
            k - start == 2 ==> v < 256,
            k - start == 3 ==> v < 4096,
            k - start == 4 ==> v < 65536,
        decreases d@.len() - k,
    {
        match hex_digit_value(d[k]) {
            None => {
                assert(!is_hex_digit(digits[k - start]));
                assert(!all_hex(digits));
                return None;
            },
            Some(h) => {
                let ghost prev = d@.subrange(start as int, k as int);
                let ghost next = d@.subrange(start as int, k + 1);
                assert(next.drop_last() =~= prev);
                v = v * 16 + h;
                k = k + 1;
            },
        }
    }
    assert(d@.subrange(start as int, d@.len() as int) =~= digits);
    Some(v)
}

} // verus!

verus! {

pub open spec fn is_digit(c: char) -> bool {
    '0' as u32 <= c as u32 && c as u32 <= '9' as u32
}

pub open spec fn all_digits(d: Seq<char>) -> bool {
    forall|i: int| 0 <= i < d.len() ==> is_digit(#[trigger] d[i])
}

/// The value of a sequence of decimal digits, most significant first.
pub open spec fn digits_value(d: Seq<char>) -> int
    decreases d.len(),
{
    if d.len() == 0 { 0 } else { digits_value(d.drop_last()) * 10 + (d.last() as u32 - '0' as u32) }
}

/// What `str::parse::<u64>` gives: an optional leading `+`, then at least
/// one decimal digit, the value fitting in 64 bits.
pub open spec fn parse_u64_spec(s: Seq<char>) -> Option<u64> {
    let digits = if s.len() > 0 && s[0] == '+' { s.skip(1) } else { s };
    if digits.len() == 0 || !all_digits(digits) || digits_value(digits) > u64::MAX {
        None
    } else {
        Some(digits_value(digits) as u64)
    }
}

proof fn lemma_digits_value_grows(d: Seq<char>, k: int)
    requires
        all_digits(d),
        0 <= k <= d.len(),
    ensures
        digits_value(d) >= digits_value(d.take(k)),
        digits_value(d.take(k)) >= 0,
    decreases d.len(),
{
    if d.len() > 0 {
        if k == d.len() {
            assert(d.take(k) =~= d);
            lemma_digits_value_grows(d.drop_last(), k - 1);
        } else {
            lemma_digits_value_grows(d.drop_last(), k);
            assert(d.drop_last().take(k) =~= d.take(k));
        }
        lemma_digits_value_grows(d.drop_last(), d.len() - 1);
        assert(d.drop_last().take(d.len() - 1) =~= d.drop_last());
    } else {
        assert(d.take(k) =~= d);
    }
}

/// Reads a number the way `str::parse::<u64>` does.
pub fn parse_u64(s: &str) -> (r: Option<u64>)
    ensures
        r == parse_u64_spec(s@),
{
    let cs = chars_of(s);
    let start: usize = if cs.len() > 0 && cs[0] == '+' { 1 } else { 0 };
    let ghost digits = if s@.len() > 0 && s@[0] == '+' { s@.skip(1) } else { s@ };
    assert(digits =~= cs@.skip(start as int));
    if start == cs.len() {
        return None;
    }
    let mut k: usize = start;
    while k < cs.len()
        invariant
            start <= k <= cs@.len(),
            cs@ == s@,
            digits =~= cs@.skip(start as int),
            digits == (if s@.len() > 0 && s@[0] == '+' { s@.skip(1) } else { s@ }),
            digits.len() > 0,
            forall|j: int| start <= j < k ==> is_digit(#[trigger] cs@[j]),
        decreases cs@.len() - k,
    {
        let u = cs[k] as u32;
        if !('0' as u32 <= u && u <= '9' as u32) {
            assert(!is_digit(digits[k - start]));
            assert(!all_digits(digits));
            return None;
        }
        k = k + 1;
    }
    assert(all_digits(digits)) by {
        assert forall|i: int| 0 <= i < digits.len() implies is_digit(#[trigger] digits[i]) by {
            assert(digits[i] == cs@[start + i]);
        }
    }
    let mut v: u64 = 0;
    let mut k: usize = start;
    while k < cs.len()
        invariant
            start <= k <= cs@.len(),
            cs@ == s@,
            digits =~= cs@.skip(start as int),
            digits.len() > 0,
            digits == (if s@.len() > 0 && s@[0] == '+' { s@.skip(1) } else { s@ }),
            all_digits(digits),
            v as int == digits_value(digits.take(k - start)),
        decreases cs@.len() - k,
    {
        assert(digits[k - start] == cs@[k as int]);
        assert(is_digit(digits[k - start]));
        let d = (cs[k] as u32 - '0' as u32) as u64;
        assert(digits.take(k + 1 - start).drop_last() =~= digits.take(k - start));
        if v > (u64::MAX - d) / 10 {
            proof {
                lemma_digits_value_grows(digits, k + 1 - start);
            }
            return None;
        }
        v = v * 10 + d;
        k = k + 1;
    }
    assert(digits.take(k - start) =~= digits);
    Some(v)
}

} // verus!

verus! {

/// The UTF-8 encoding of a concatenation is the concatenation of the encodings.
pub proof fn encode_utf8_concat(a: Seq<char>, b: Seq<char>)
    ensures
        vstd::utf8::encode_utf8(a + b) == vstd::utf8::encode_utf8(a) + vstd::utf8::encode_utf8(b),
    decreases a.len(),
{
    if a.len() > 0 {
        encode_utf8_concat(a.drop_first(), b);
        assert((a + b).drop_first() =~= a.drop_first() + b);
        assert((a + b)[0] == a[0]);
        assert(vstd::utf8::encode_utf8(a + b) =~= vstd::utf8::encode_scalar(a[0] as u32)
            + vstd::utf8::encode_utf8(a.drop_first() + b));
    } else {
        assert(a + b =~= b);
    }
}

} // verus!
