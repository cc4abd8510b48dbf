//! Small verified helpers on strings.

use vstd::prelude::*;
use vstd::string::*;

verus! {

/// The lower-case form of an ASCII capital; any other character is itself.
pub open spec fn ascii_lower(c: char) -> char {
    if 'A' <= c && c <= 'Z' {
        ((c as u8 + 32) as u8) as char
    } else {
        c
    }
}

/// Whether two texts are equal when ASCII capitals count as their lower-case
/// forms.
pub open spec fn eq_ignore_case(a: Seq<char>, b: Seq<char>) -> bool {
    &&& a.len() == b.len()
    &&& forall|i: int| 0 <= i < a.len() ==> ascii_lower(#[trigger] a[i]) == ascii_lower(b[i])
}

/// Lower-cases an ASCII capital and leaves every other character alone.
pub fn to_ascii_lower(c: char) -> (r: char)
    ensures
        r == ascii_lower(c),
{
    if c >= 'A' && c <= 'Z' {
        let b: u8 = c as u8;
        (b + 32) as char
    } else {
        c
    }
}

/// Compares two strings, ignoring the case of ASCII letters.
pub fn eq_ignore_ascii_case(a: &str, b: &str) -> (r: bool)
    ensures
        r == eq_ignore_case(a@, b@),
{
    let n: usize = a.unicode_len();
    if n != b.unicode_len() {
        return false;
    }
    let mut i: usize = 0;
    while i < n
        invariant
            i <= n,
            n == a@.len(),
            n == b@.len(),
            forall|j: int| 0 <= j < i ==> ascii_lower(#[trigger] a@[j]) == ascii_lower(b@[j]),
        decreases n - i,
    {
        if to_ascii_lower(a.get_char(i)) != to_ascii_lower(b.get_char(i)) {
            assert(ascii_lower(a@[i as int]) != ascii_lower(b@[i as int]));
            return false;
        }
        i = i + 1;
    }
    true
}

/// Whether two strings hold the same characters.
pub fn str_eq(a: &str, b: &str) -> (r: bool)
    ensures
        r == (a@ == b@),
{
    let x = String::from_str(a);
    let y = String::from_str(b);
    x == y
}

/// Whether a character is one of the ten digits.
pub open spec fn is_digit(c: char) -> bool {
    '0' <= c && c <= '9'
}

/// Whether a text is made of digits, at least one.
pub open spec fn is_digits(s: Seq<char>) -> bool {
    &&& s.len() >= 1
    &&& forall|i: int| 0 <= i < s.len() ==> is_digit(#[trigger] s[i])
}

/// The number that digits write in base ten.
pub open spec fn digits_value(s: Seq<char>) -> nat
    decreases s.len(),
{
    if s.len() == 0 {
        0
    } else {
        (digits_value(s.drop_last()) * 10 + (s.last() as u32 - '0' as u32)) as nat
    }
}

/// A text without a plus sign in front.
pub open spec fn unsigned_part(s: Seq<char>) -> Seq<char> {
    if s.len() > 0 && s[0] == '+' {
        s.skip(1)
    } else {
        s
    }
}

/// The identifier that a text writes: digits in base ten, with or without a
/// plus sign in front, whose number is above zero and fits 64 bits.
pub open spec fn spec_parse_id(s: Seq<char>) -> Option<u64> {
    let body = unsigned_part(s);
    if is_digits(body) && 0 < digits_value(body) <= u64::MAX {
        Some(digits_value(body) as u64)
    } else {
        None
    }
}

/// The digit of a number below ten.
pub open spec fn digit_char(d: nat) -> char {
    ((d + '0' as u32) as u8) as char
}

/// A number written in base ten, without leading zeros.
pub open spec fn decimal(n: nat) -> Seq<char>
    decreases n,
{
    if n < 10 {
        seq![digit_char(n)]
    } else {
        decimal(n / 10).push(digit_char(n % 10))
    }
}

/// More digits never write a smaller number.
pub proof fn lemma_digits_grow(s: Seq<char>, n: int)
    requires
        0 <= n <= s.len(),
        forall|i: int| 0 <= i < s.len() ==> is_digit(#[trigger] s[i]),
    ensures
        digits_value(s.take(n)) <= digits_value(s),
    decreases s.len() - n,
{
    if n == s.len() {
        assert(s.take(n) =~= s);
    } else {
        lemma_digits_grow(s, n + 1);
        assert(s.take(n + 1).drop_last() =~= s.take(n));
        assert(is_digit(s.take(n + 1).last()));
    }
}

/// A number written in base ten is made of digits and writes the number.
pub proof fn lemma_decimal(n: nat)
    ensures
        is_digits(decimal(n)),
        digits_value(decimal(n)) == n,
        decimal(n)[0] != '+',
    decreases n,
{
    reveal_with_fuel(digits_value, 2);
    if n < 10 {
        assert(decimal(n).drop_last() =~= Seq::<char>::empty());
    } else {
        lemma_decimal(n / 10);
        assert(decimal(n).drop_last() =~= decimal(n / 10));
    }
}

/// Reads an identifier: digits in base ten, with or without a plus sign in
/// front. `None` for any other text, for zero, and for a number that does
/// not fit 64 bits.
pub fn parse_id(s: &str) -> (r: Option<u64>)
    ensures
        r == spec_parse_id(s@),
{
    let n = s.unicode_len();
    let mut value: u64 = 0;
    let mut at: usize = 0;
    let mut signed = false;
    let ghost body = unsigned_part(s@);
    proof {
        assert(body.take(0) =~= Seq::<char>::empty());
    }
    for c in it: s.chars()
        invariant
            it.seq() == s@,
            n == s@.len(),
            at == it.index(),
            body == unsigned_part(s@),
            at > 0 ==> signed == (s@[0] == '+'),
            at == 0 ==> !signed,
            ({
                let done = if signed {
                    at - 1
                } else {
                    at as int
                };
                &&& 0 <= done <= body.len()
                &&& forall|i: int| 0 <= i < done ==> is_digit(#[trigger] body[i])
                &&& value == digits_value(body.take(done))
            }),
    {
        assert(c == s@[at as int]);
        if at == 0 && c == '+' {
            signed = true;
            proof {
                assert(body.take(0) =~= Seq::<char>::empty());
            }
        } else {
            let ghost done = if signed {
                at - 1
            } else {
                at as int
            };
            assert(body[done] == c);
            if !(c >= '0' && c <= '9') {
                return None;
            }
            let d: u64 = (c as u32 - '0' as u32) as u64;
            proof {
                assert(body.take(done + 1).drop_last() =~= body.take(done));
                assert(body.take(done + 1).last() == c);
            }
            if value > (u64::MAX - d) / 10 {
                proof {
                    if is_digits(body) {
                        lemma_digits_grow(body, done + 1);
                    }
                }
                return None;
            }
            value = value * 10 + d;
        }
        at = at + 1;
    }
    proof {
        let done = if signed {
            at - 1
        } else {
            at as int
        };
        assert(body.take(done) =~= body);
    }
    let digits = if signed {
        n - 1
    } else {
        n
    };
    if digits == 0 || value == 0 {
        None
    } else {
        Some(value)
    }
}

/// Writes a number in base ten.
pub fn write_decimal(n: u64) -> (r: String)
    ensures
        r@ == decimal(n as nat),
{
    let mut digits: Vec<char> = Vec::new();
    let mut rest = n;
    while rest >= 10
        invariant
            decimal(rest as nat) + digits@.reverse() == decimal(n as nat),
        decreases rest,
    {
        let d = (rest % 10) as u8;
        let ghost before = digits@;
        digits.push((d + 48) as char);
        proof {
            assert(decimal(rest as nat) == decimal((rest / 10) as nat).push(
                digit_char((rest % 10) as nat),
            ));
            assert(digits@.reverse() =~= seq![digit_char((rest % 10) as nat)] + before.reverse());
            assert(decimal((rest / 10) as nat) + digits@.reverse() =~= decimal(rest as nat)
                + before.reverse());
        }
        rest = rest / 10;
    }
    let mut out = String::new();
    push_char(&mut out, ((rest as u8) + 48) as char);
    assert(out@ =~= decimal(rest as nat));
    let mut i = digits.len();
    while i > 0
        invariant
            i <= digits@.len(),
            out@ == decimal(rest as nat) + digits@.reverse().take(digits@.len() - i),
        decreases i,
    {
        i = i - 1;
        push_char(&mut out, digits[i]);
        proof {
            let r = digits@.reverse();
            let k = digits@.len() - i;
            assert(r.take(k) =~= r.take(k - 1).push(r[k - 1]));
            assert(r[k - 1] == digits@[i as int]);
            assert(out@ =~= decimal(rest as nat) + r.take(k));
        }
    }
    proof {
        assert(digits@.reverse().take(digits@.len() as int) =~= digits@.reverse());
    }
    out
}

/// Whether a character is alphabetic, as the Unicode tables of the standard
/// library have it.
pub uninterp spec fn char_is_alphabetic(c: char) -> bool;

/// Whether a character is an upper-case one, as the Unicode tables of the
/// standard library have it.
pub uninterp spec fn char_is_uppercase(c: char) -> bool;

/// The upper-case form of a character, which may be several characters, as
/// the Unicode tables of the standard library have it.
pub uninterp spec fn char_to_uppercase(c: char) -> Seq<char>;

/// The lower-case form of a character, which may be several characters, as
/// the Unicode tables of the standard library have it.
pub uninterp spec fn char_to_lowercase(c: char) -> Seq<char>;

/// Calls `char::is_alphabetic`. Nothing is claimed of the answer but that it
/// depends on the character alone.
#[verifier::external_body]
pub(crate) fn is_alphabetic(c: char) -> (r: bool)
    ensures
        r == char_is_alphabetic(c),
{
    c.is_alphabetic()
}

/// Calls `char::is_uppercase`. Nothing is claimed of the answer but that it
/// depends on the character alone.
#[verifier::external_body]
pub(crate) fn is_uppercase(c: char) -> (r: bool)
    ensures
        r == char_is_uppercase(c),
{
    c.is_uppercase()
}

/// Calls `char::to_uppercase` and collects what it yields. Nothing is claimed
/// of the answer but that it depends on the character alone.
#[verifier::external_body]
pub(crate) fn to_uppercase(c: char) -> (r: String)
    ensures
        r@ == char_to_uppercase(c),
{
    c.to_uppercase().to_string()
}

/// Calls `char::to_lowercase` and collects what it yields. Nothing is claimed
/// of the answer but that it depends on the character alone.
#[verifier::external_body]
pub(crate) fn to_lowercase(c: char) -> (r: String)
    ensures
        r@ == char_to_lowercase(c),
{
    c.to_lowercase().to_string()
}

/// Calls `String::push`, which appends one character.
#[verifier::external_body]
pub(crate) fn push_char(s: &mut String, c: char)
    ensures
        final(s)@ == old(s)@.push(c),
{
    s.push(c)
}

} // verus!
