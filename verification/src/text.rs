//! Integers rendered as text.

use vstd::prelude::*;
use vstd::string::*;

verus! {

/// `String::push` appends one character to the end of the string.
pub assume_specification[ String::push ](s: &mut String, c: char)
    ensures
        final(s)@ == old(s)@.push(c),
;

/// The character that stands for the digit `d`: `0` to `9`, then `A` to `Z`.
pub open spec fn digit_char(d: int) -> char {
    if d < 10 {
        (48 + d) as char
    } else {
        (55 + d) as char
    }
}

/// The digits of `n` in the given radix, most significant first; empty for
/// zero, and where the radix is below two.
pub open spec fn digits(n: nat, radix: nat) -> Seq<char>
    decreases n,
{
    if n == 0 || radix < 2 {
        Seq::<char>::empty()
    } else {
        proof {
            assert(n / radix < n) by (nonlinear_arith)
                requires
                    n > 0,
                    radix >= 2,
            ;
        }
        digits(n / radix, radix).push(digit_char((n % radix) as int))
    }
}

/// The numeral of `n` in the given radix: its digits, or a single `0`.
pub open spec fn numeral(n: nat, radix: nat) -> Seq<char> {
    if n == 0 {
        seq!['0']
    } else {
        digits(n, radix)
    }
}

/// The digit that `c` stands for, over the alphabet of [`digit_char`].
pub open spec fn digit_value(c: char) -> int {
    if c as int <= 57 {
        c as int - 48
    } else {
        c as int - 55
    }
}

/// The number that a string of digits denotes in the given radix, most
/// significant digit first.
pub open spec fn denoted(s: Seq<char>, radix: nat) -> int
    decreases s.len(),
{
    if s.len() == 0 {
        0
    } else {
        denoted(s.drop_last(), radix) * radix + digit_value(s.last())
    }
}

/// A numeral denotes the number it was made from: nothing is lost in writing
/// a number down.
pub proof fn numeral_denotes_its_number(n: nat, radix: nat)
    requires
        2 <= radix <= 36,
    ensures
        denoted(numeral(n, radix), radix) == n,
        denoted(digits(n, radix), radix) == n,
        numeral(n, radix).len() >= 1,
    decreases n,
{
    if n == 0 {
        assert(numeral(n, radix).drop_last() =~= Seq::<char>::empty());
        assert(denoted(Seq::<char>::empty(), radix) == 0);
    } else {
        assert(n / radix < n) by (nonlinear_arith)
            requires
                n > 0,
                radix >= 2,
        ;
        numeral_denotes_its_number(n / radix, radix);
        let low = (n % radix) as int;
        let high = digits(n / radix, radix);
        assert(digits(n, radix).drop_last() =~= high);
        assert(digit_value(digit_char(low)) == low);
        vstd::arithmetic::div_mod::lemma_fundamental_div_mod(n as int, radix as int);
        assert((n / radix) * radix == radix * (n / radix)) by (nonlinear_arith);
    }
}

/// The executable counterpart of [`digit_char`].
pub fn digit_to_char(d: u8) -> (c: char)
    requires
        d < 36,
    ensures
        c == digit_char(d as int),
{
    if d < 10 {
        (48u8 + d) as char
    } else {
        (55u8 + d) as char
    }
}

/// Appends the digits of `n` to `out`, most significant first; nothing for zero.
pub fn push_digits(out: &mut String, n: u128, radix: u128)
    requires
        2 <= radix <= 36,
    ensures
        final(out)@ == old(out)@ + digits(n as nat, radix as nat),
    decreases n,
{
    if n != 0 {
        assert(n / radix < n) by (nonlinear_arith)
            requires
                n > 0,
                radix >= 2,
        ;
        push_digits(out, n / radix, radix);
        let d: u8 = (n % radix) as u8;
        out.push(digit_to_char(d));
    }
}

/// Appends the numeral of `n` in the given radix to `out`.
pub fn push_numeral(out: &mut String, n: u128, radix: u128)
    requires
        2 <= radix <= 36,
    ensures
        final(out)@ == old(out)@ + numeral(n as nat, radix as nat),
{
    if n == 0 {
        out.push('0');
    } else {
        push_digits(out, n, radix);
    }
}

/// The decimal numeral of `v`, with a leading `-` when it is negative.
pub open spec fn signed_decimal(v: int) -> Seq<char> {
    if v < 0 {
        seq!['-'] + numeral((-v) as nat, 10)
    } else {
        numeral(v as nat, 10)
    }
}

/// The 128-bit two's complement of `v`, read as an unsigned number.
pub open spec fn twos_complement(v: int) -> nat {
    if v < 0 {
        (v + 0x1_0000_0000_0000_0000_0000_0000_0000_0000) as nat
    } else {
        v as nat
    }
}

/// `0x` and the upper-case hexadecimal numeral of the two's complement of `v`.
pub open spec fn prefixed_hex(v: int) -> Seq<char> {
    seq!['0', 'x'] + numeral(twos_complement(v), 16)
}

/// The magnitude of `v`, which for the smallest value does not fit in `i128`.
pub fn magnitude(v: i128) -> (m: u128)
    ensures
        m == if v < 0 { -(v as int) } else { v as int },
{
    if v < 0 {
        ((-(v + 1)) as u128) + 1
    } else {
        v as u128
    }
}

/// The bits of `v` read as an unsigned number.
pub fn to_unsigned_bits(v: i128) -> (u: u128)
    ensures
        u == twos_complement(v as int),
{
    if v < 0 {
        u128::MAX - ((-(v + 1)) as u128)
    } else {
        v as u128
    }
}

/// Appends the decimal numeral of `v` to `out`, with `-` before a negative one.
pub fn push_signed_decimal(out: &mut String, v: i128)
    ensures
        final(out)@ == old(out)@ + signed_decimal(v as int),
{
    if v < 0 {
        out.push('-');
    }
    push_numeral(out, magnitude(v), 10);
}

/// Appends `0x` and the upper-case hexadecimal two's complement of `v` to `out`.
pub fn push_prefixed_hex(out: &mut String, v: i128)
    ensures
        final(out)@ == old(out)@ + prefixed_hex(v as int),
{
    out.push('0');
    out.push('x');
    push_numeral(out, to_unsigned_bits(v), 16);
}

/// Whether `c` is one of `0-9`, `a-z`, `A-Z`.
pub open spec fn is_alphanumeric(c: char) -> bool {
    ('0' <= c <= '9') || ('a' <= c <= 'z') || ('A' <= c <= 'Z')
}

/// Whether `c` is a digit of the given base, over the alphabet `0-9` then `a-z`.
pub open spec fn is_digit_of_base(c: char, base: int) -> bool {
    ||| '0' <= c <= '9' && c as int - 48 < base
    ||| 'a' <= c <= 'z' && c as int - 87 < base
}

} // verus!
