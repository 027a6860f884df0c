use cmdkit::text::{
    digit_to_char, magnitude, push_digits, push_numeral, push_prefixed_hex, push_signed_decimal,
    to_unsigned_bits,
};

#[test]
fn digit_characters() {
    assert_eq!(digit_to_char(0), '0');
    assert_eq!(digit_to_char(9), '9');
    assert_eq!(digit_to_char(10), 'A');
    assert_eq!(digit_to_char(15), 'F');
    assert_eq!(digit_to_char(35), 'Z');
}

#[test]
fn numerals_are_appended() {
    let mut s = String::from("n=");
    push_numeral(&mut s, 0, 10);
    assert_eq!(s, "n=0");
    push_numeral(&mut s, 42, 10);
    assert_eq!(s, "n=042");
    let mut t = String::new();
    push_numeral(&mut t, 5, 2);
    assert_eq!(t, "101");
    let mut u = String::new();
    push_numeral(&mut u, 35, 36);
    push_numeral(&mut u, 36, 36);
    assert_eq!(u, "Z10");
    let mut w = String::new();
    push_numeral(&mut w, u128::MAX, 10);
    assert_eq!(w, "340282366920938463463374607431768211455");
    let mut x = String::new();
    push_numeral(&mut x, u128::MAX, 16);
    assert_eq!(x, "FFFFFFFFFFFFFFFFFFFFFFFFFFFFFFFF");
}

#[test]
fn zero_has_no_digits_of_its_own() {
    let mut s = String::from("x");
    push_digits(&mut s, 0, 10);
    assert_eq!(s, "x");
    push_digits(&mut s, 907, 10);
    assert_eq!(s, "x907");
}

#[test]
fn magnitudes_and_bits() {
    assert_eq!(magnitude(0), 0);
    assert_eq!(magnitude(5), 5);
    assert_eq!(magnitude(-5), 5);
    assert_eq!(magnitude(i128::MAX), i128::MAX as u128);
    assert_eq!(magnitude(i128::MIN), 1u128 << 127);
    assert_eq!(to_unsigned_bits(0), 0);
    assert_eq!(to_unsigned_bits(1), 1);
    assert_eq!(to_unsigned_bits(-1), u128::MAX);
    assert_eq!(to_unsigned_bits(-2), u128::MAX - 1);
    assert_eq!(to_unsigned_bits(i128::MIN), 1u128 << 127);
    for v in [-1000i128, -17, 3, 99999] {
        assert_eq!(to_unsigned_bits(v), v as u128);
        assert_eq!(magnitude(v), v.unsigned_abs());
    }
}

#[test]
fn signed_decimals_and_prefixed_hex_are_appended() {
    let mut s = String::from("[");
    push_signed_decimal(&mut s, -40);
    s.push(',');
    push_signed_decimal(&mut s, 40);
    s.push(',');
    push_prefixed_hex(&mut s, 40);
    s.push(']');
    assert_eq!(s, "[-40,40,0x28]");
}
