//! Character-level facts about strings: decimal numerals, whitespace and hex digits.
use vstd::prelude::*;

verus! {

/// The character of the decimal digit `d`.
pub open spec fn digit_char(d: int) -> char {
    (48 + d) as char
}

/// The decimal numeral of `n`, without sign or leading zeros.
pub open spec fn digits(n: nat) -> Seq<char>
    decreases n,
{
    if n < 10 {
        seq![digit_char(n as int)]
    } else {
        digits(n / 10) + seq![digit_char((n % 10) as int)]
    }
}

/// The decimal numeral of `v`, with a leading `-` when it is negative.
pub open spec fn decimal(v: int) -> Seq<char> {
    if v < 0 {
        seq!['-'] + digits((-v) as nat)
    } else {
        digits(v as nat)
    }
}

/// The number that the digit characters `s` spell in base ten (each character counts
/// as its distance from `0`).
pub open spec fn digits_value(s: Seq<char>) -> int
    decreases s.len(),
{
    if s.len() == 0 {
        0
    } else {
        digits_value(s.drop_last()) * 10 + (s.last() as int - 48)
    }
}

/// The number that a decimal numeral spells, with an optional leading `-`.
pub open spec fn decimal_value(s: Seq<char>) -> int {
    if s.len() > 0 && s[0] == '-' {
        -digits_value(s.drop_first())
    } else {
        digits_value(s)
    }
}

/// Reading back the digits of `n` gives `n`; they are not empty and do not start with `-`.
pub proof fn lemma_digits_value(n: nat)
    ensures
        digits_value(digits(n)) == n,
        digits(n).len() > 0,
        digits(n)[0] != '-',
    decreases n,
{
    if n < 10 {
        assert(digits(n).drop_last() =~= Seq::<char>::empty());
        assert(digit_char(n as int) as int == 48 + n);
        assert(digits(n).last() == digit_char(n as int));
        assert(digits_value(digits(n)) == digits_value(digits(n).drop_last()) * 10 + (
        digits(n).last() as int - 48));
    } else {
        lemma_digits_value(n / 10);
        let d = digits(n);
        assert(d.drop_last() =~= digits(n / 10));
        assert(digit_char((n % 10) as int) as int == 48 + n % 10);
        assert(d[0] == digits(n / 10)[0]);
        assert(d.last() == digit_char((n % 10) as int));
        assert(digits_value(d) == digits_value(d.drop_last()) * 10 + (d.last() as int - 48));
        assert((n / 10) * 10 + n % 10 == n);
    }
}

/// Reading back the decimal numeral of `v` gives `v`.
pub proof fn lemma_decimal_value(v: int)
    ensures
        decimal_value(decimal(v)) == v,
{
    if v < 0 {
        lemma_digits_value((-v) as nat);
        assert(decimal(v).drop_first() =~= digits((-v) as nat));
    } else {
        lemma_digits_value(v as nat);
    }
}

/// Whether `c` has the Unicode property `White_Space`.
pub open spec fn is_unicode_whitespace(c: char) -> bool {
    let u: u32 = c as u32;
    ||| 0x9 <= u <= 0xD
    ||| u == 0x20
    ||| u == 0x85
    ||| u == 0xA0
    ||| u == 0x1680
    ||| 0x2000 <= u <= 0x200A
    ||| u == 0x2028
    ||| u == 0x2029
    ||| u == 0x202F
    ||| u == 0x205F
    ||| u == 0x3000
}

/// `s` without its trailing whitespace.
pub open spec fn trimmed_end(s: Seq<char>) -> Seq<char>
    decreases s.len(),
{
    if s.len() > 0 && is_unicode_whitespace(s.last()) {
        trimmed_end(s.drop_last())
    } else {
        s
    }
}

/// The lower-case hex digit of `n`, for `0 <= n < 16`.
pub open spec fn hex_digit(n: int) -> char {
    if n < 10 {
        (48 + n) as char
    } else {
        (87 + n) as char
    }
}

/// Each byte of `b` as two lower-case hex digits, high nibble first.
pub open spec fn hex_bytes(b: Seq<u8>) -> Seq<char>
    decreases b.len(),
{
    if b.len() == 0 {
        Seq::empty()
    } else {
        seq![hex_digit((b[0] / 16) as int), hex_digit((b[0] % 16) as int)] + hex_bytes(
            b.drop_first(),
        )
    }
}

/// Whether `c` is one of `0-9` and `a-f`.
pub open spec fn is_lower_hex(c: char) -> bool {
    ('0' <= c <= '9') || ('a' <= c <= 'f')
}

/// `i32::to_string`: the decimal numeral of `v`.
#[verifier::external_body]
pub(crate) fn i32_to_string(v: i32) -> (s: String)
    ensures
        s@ == decimal(v as int),
{
    v.to_string()
}

/// `str::trim_end`: `s` without its trailing whitespace, whitespace being the characters
/// with the Unicode property `White_Space`.
#[verifier::external_body]
pub(crate) fn str_trim_end(s: &str) -> (t: &str)
    ensures
        t@ == trimmed_end(s@),
{
    s.trim_end()
}

/// `str::len`: the number of bytes of the UTF-8 encoding of `s`. A string slice never
/// spans more than `isize::MAX` bytes.
#[verifier::external_body]
pub(crate) fn str_byte_len(s: &str) -> (n: usize)
    ensures
        n == vstd::utf8::encode_utf8(s@).len(),
        n <= isize::MAX,
{
    s.len()
}

/// Whether `a` and `b` hold the same characters.
pub fn str_equal(a: &str, b: &str) -> (r: bool)
    ensures
        r == (a@ == b@),
{
    let n: usize = a.unicode_len();
    let m: usize = b.unicode_len();
    if n != m {
        return false;
    }
    let mut i: usize = 0;
    while i < n
        invariant
            n == a@.len(),
            m == b@.len(),
            n == m,
            i <= n,
            forall|j: int| 0 <= j < i ==> a@[j] == b@[j],
        decreases n - i,
    {
        if a.get_char(i) != b.get_char(i) {
            return false;
        }
        i = i + 1;
    }
    assert(a@ =~= b@);
    true
}

/// `String::from_utf8`: the string whose UTF-8 encoding is `v`, when `v` is well-formed
/// UTF-8 (no overlong forms, no surrogates, nothing above U+10FFFF); `None` otherwise.
#[verifier::external_body]
pub(crate) fn string_from_utf8(v: Vec<u8>) -> (s: Option<String>)
    ensures
        s is Some <==> vstd::utf8::valid_utf8(v@),
        s matches Some(t) ==> t@ == vstd::utf8::decode_utf8(v@),
{
    String::from_utf8(v).ok()
}

/// `String::push`: appends the character `c`.
#[verifier::external_body]
pub(crate) fn string_push(s: &mut String, c: char)
    ensures
        final(s)@ == old(s)@.push(c),
{
    s.push(c)
}

/// Hex-encoding turns each byte into two characters, all of them lower-case hex digits.
pub proof fn lemma_hex_bytes(b: Seq<u8>)
    ensures
        hex_bytes(b).len() == 2 * b.len(),
        forall|i: int| 0 <= i < hex_bytes(b).len() ==> is_lower_hex(#[trigger] hex_bytes(b)[i]),
    decreases b.len(),
{
    if b.len() > 0 {
        lemma_hex_bytes(b.drop_first());
        let h = seq![hex_digit((b[0] / 16) as int), hex_digit((b[0] % 16) as int)];
        assert(is_lower_hex(h[0]) && is_lower_hex(h[1]));
        assert forall|i: int| 0 <= i < hex_bytes(b).len() implies is_lower_hex(
            #[trigger] hex_bytes(b)[i],
        ) by {
            if i >= 2 {
                assert(hex_bytes(b)[i] == hex_bytes(b.drop_first())[i - 2]);
            }
        }
    }
}

} // verus!
