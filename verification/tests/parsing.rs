use envconfig::FromRaw;
use envconfig::RawString;

fn raw(s: &str) -> RawString {
    RawString::from_text(s)
}

#[test]
fn u16_parses_plain_decimal() {
    assert_eq!(<u16 as FromRaw>::from_raw(&raw("8080")).unwrap(), 8080u16);
    assert_eq!(<u16 as FromRaw>::from_raw(&raw("0")).unwrap(), 0u16);
    assert_eq!(<u16 as FromRaw>::from_raw(&raw("007")).unwrap(), 7u16);
}

#[test]
fn u16_accepts_its_largest_value_and_rejects_the_next() {
    assert_eq!(<u16 as FromRaw>::from_raw(&raw("65535")).unwrap(), 65535u16);
    assert_eq!(
        <u16 as FromRaw>::from_raw(&raw("65536")).unwrap_err(),
        "number too large to fit in target type"
    );
}

#[test]
fn u32_accepts_its_largest_value_and_rejects_the_next() {
    assert_eq!(
        <u32 as FromRaw>::from_raw(&raw("4294967295")).unwrap(),
        4294967295u32
    );
    assert_eq!(
        <u32 as FromRaw>::from_raw(&raw("4294967296")).unwrap_err(),
        "number too large to fit in target type"
    );
}

#[test]
fn u64_accepts_its_largest_value_and_rejects_the_next() {
    assert_eq!(
        <u64 as FromRaw>::from_raw(&raw("18446744073709551615")).unwrap(),
        18446744073709551615u64
    );
    assert_eq!(
        <u64 as FromRaw>::from_raw(&raw("18446744073709551616")).unwrap_err(),
        "number too large to fit in target type"
    );
}

#[test]
fn integers_reject_empty_and_non_digit_input() {
    assert_eq!(
        <u64 as FromRaw>::from_raw(&raw("")).unwrap_err(),
        "cannot parse integer from empty string"
    );
    assert_eq!(
        <u64 as FromRaw>::from_raw(&raw("1 2")).unwrap_err(),
        "invalid digit found in string"
    );
    assert_eq!(
        <u64 as FromRaw>::from_raw(&raw("+5")).unwrap_err(),
        "invalid digit found in string"
    );
    assert_eq!(
        <u64 as FromRaw>::from_raw(&raw("-1")).unwrap_err(),
        "invalid digit found in string"
    );
}

#[test]
fn bool_parses_exactly_true_and_false() {
    assert!(<bool as FromRaw>::from_raw(&raw("true")).unwrap());
    assert!(!<bool as FromRaw>::from_raw(&raw("false")).unwrap());
    assert_eq!(
        <bool as FromRaw>::from_raw(&raw("True")).unwrap_err(),
        "provided string was not `true` or `false`"
    );
    assert_eq!(
        <bool as FromRaw>::from_raw(&raw("1")).unwrap_err(),
        "provided string was not `true` or `false`"
    );
}

#[test]
fn string_decodes_utf8_bytes() {
    let accented = RawString::new(vec![0x63, 0x61, 0x66, 0xc3, 0xa9]);
    assert_eq!(
        <String as FromRaw>::from_raw(&accented).unwrap(),
        String::from("caf\u{e9}")
    );
}

#[test]
fn string_rejects_invalid_utf8_bytes() {
    let bad = RawString::new(vec![0x68, 0x69, 0xff]);
    assert_eq!(
        <String as FromRaw>::from_raw(&bad).unwrap_err(),
        "invalid utf-8 sequence"
    );
}
