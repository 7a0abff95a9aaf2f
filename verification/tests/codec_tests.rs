//! Unit tests for the primitive codec: entity unescaping, the two
//! integer forms, and the boolean tokens.

use sleigh_sla::big_int::BigInt;
use sleigh_sla::{decode_boolean, decode_decimal, decode_hex, xml_unescape};

#[test]
fn unescape_each_entity() {
    assert_eq!(xml_unescape(b"&amp;"), b"&".to_vec());
    assert_eq!(xml_unescape(b"&lt;"), b"<".to_vec());
    assert_eq!(xml_unescape(b"&gt;"), b">".to_vec());
    assert_eq!(xml_unescape(b"&quot;"), b"\"".to_vec());
    assert_eq!(xml_unescape(b"&apos;"), b"'".to_vec());
}

#[test]
fn unescape_amp_has_priority() {
    // `&amp;lt;` decodes the leading `&amp;` first, yielding the four
    // bytes `&lt;`, not `<`.
    assert_eq!(xml_unescape(b"&amp;lt;"), b"&lt;".to_vec());
    assert_eq!(xml_unescape(b"&amp;amp;"), b"&amp;".to_vec());
    assert_eq!(xml_unescape(b"&amp;quot;"), b"&quot;".to_vec());
}

#[test]
fn unescape_mixed_and_repeated() {
    assert_eq!(xml_unescape(b"a&lt;b&gt;c&amp;d&quot;e&apos;f"), b"a<b>c&d\"e'f".to_vec());
    assert_eq!(xml_unescape(b"&lt;&lt;&lt;"), b"<<<".to_vec());
    assert_eq!(xml_unescape(b"plain text"), b"plain text".to_vec());
    assert_eq!(xml_unescape(b""), b"".to_vec());
}

#[test]
fn unescape_unknown_entity_passes_through() {
    assert_eq!(xml_unescape(b"&copy;"), b"&copy;".to_vec());
    assert_eq!(xml_unescape(b"&#60;"), b"&#60;".to_vec());
    assert_eq!(xml_unescape(b"&"), b"&".to_vec());
    assert_eq!(xml_unescape(b"&am"), b"&am".to_vec());
}

#[test]
fn decimal_decodes_exact_values() {
    assert_eq!(decode_decimal(b"0"), Some(BigInt::from_u64(0)));
    assert_eq!(decode_decimal(b"42"), Some(BigInt::from_u64(42)));
    assert_eq!(decode_decimal(b"007"), Some(BigInt::from_u64(7)));
    assert_eq!(decode_decimal(b"18446744073709551615"), Some(BigInt::from_u64(u64::MAX)));
    assert_eq!(decode_decimal(b"-17"), Some(BigInt::from_u64(17).negated()));
    assert_eq!(decode_decimal(b"-0"), Some(BigInt::from_u64(0)));
}

#[test]
fn decimal_rejects_bad_forms() {
    assert_eq!(decode_decimal(b""), None);
    assert_eq!(decode_decimal(b"-"), None);
    assert_eq!(decode_decimal(b"4x2"), None);
    assert_eq!(decode_decimal(b"0x12"), None);
    assert_eq!(decode_decimal(b" 1"), None);
    assert_eq!(decode_decimal(b"1 "), None);
    assert_eq!(decode_decimal(b"--1"), None);
}

#[test]
fn hex_decodes_exact_values() {
    assert_eq!(decode_hex(b"0x0"), Some(BigInt::from_u64(0)));
    assert_eq!(decode_hex(b"0xff"), Some(BigInt::from_u64(255)));
    assert_eq!(decode_hex(b"0xFF"), Some(BigInt::from_u64(255)));
    assert_eq!(decode_hex(b"0xDeAdBeEf"), Some(BigInt::from_u64(0xdead_beef)));
    assert_eq!(decode_hex(b"0x7fffffffffffffff"), Some(BigInt::from_u64(0x7fff_ffff_ffff_ffff)));
}

#[test]
fn hex_values_beyond_64_bits_are_exact() {
    // 0x10000000000000000 == 2^64 == 18446744073709551616: wider than
    // any fixed 64-bit field, decoded without truncation.
    let h = decode_hex(b"0x10000000000000000").expect("hex decode");
    let d = decode_decimal(b"18446744073709551616").expect("decimal decode");
    assert_eq!(h, d);
    assert_ne!(h, BigInt::from_u64(0));
    assert_ne!(h, BigInt::from_u64(u64::MAX));
    // one limb beyond: 2^64 + 5
    let h2 = decode_hex(b"0x10000000000000005").expect("hex decode");
    let d2 = decode_decimal(b"18446744073709551621").expect("decimal decode");
    assert_eq!(h2, d2);
    assert_ne!(h2, h);
}

#[test]
fn hex_rejects_bad_forms() {
    assert_eq!(decode_hex(b""), None);
    assert_eq!(decode_hex(b"0x"), None);
    assert_eq!(decode_hex(b"12"), None);
    assert_eq!(decode_hex(b"0xg1"), None);
    assert_eq!(decode_hex(b"-0x12"), None);
    assert_eq!(decode_hex(b"0X12"), None);
}

#[test]
fn boolean_accepts_only_the_two_tokens() {
    assert_eq!(decode_boolean(b"y"), Some(true));
    assert_eq!(decode_boolean(b"n"), Some(false));
    assert_eq!(decode_boolean(b"maybe"), None);
    assert_eq!(decode_boolean(b"true"), None);
    assert_eq!(decode_boolean(b"false"), None);
    assert_eq!(decode_boolean(b"Y"), None);
    assert_eq!(decode_boolean(b"N"), None);
    assert_eq!(decode_boolean(b"yes"), None);
    assert_eq!(decode_boolean(b"no"), None);
    assert_eq!(decode_boolean(b""), None);
}

#[test]
fn leading_zeros_decode_to_canonical_values() {
    assert_eq!(decode_decimal(b"000"), Some(BigInt::zero()));
    assert_eq!(decode_decimal(b"000"), Some(BigInt::from_u64(0)));
    assert_eq!(decode_hex(b"0x000"), Some(BigInt::zero()));
    assert_eq!(decode_hex(b"0x0000000000000000000000ff"), Some(BigInt::from_u64(255)));
    assert_eq!(decode_decimal(b"00042"), decode_decimal(b"42"));
}

#[test]
fn negation_round_trips() {
    assert_eq!(BigInt::from_u64(5).negated(), decode_decimal(b"-5").unwrap());
    assert_eq!(BigInt::from_u64(5).negated().negated(), BigInt::from_u64(5));
    assert_eq!(BigInt::zero().negated(), BigInt::zero());
}
